//! A test specification builder for deciders and views in the
//! given-when-then style: the events or state that already hold (given), the
//! command that is executed (when), and the computed outcome (then), which
//! the caller compares against its expectation.

use vstd::prelude::*;
use vstd::view::View as _;

use crate::decider::{Decider, EventComputation, StateComputation};
use crate::res_seq;
use crate::view::{View, ViewStateComputation};

verus! {

/// A test specification builder for deciders.  `given` sets the events that
/// have already occurred, `given_state` the current state, `when` the command
/// under test; [`DeciderTestSpecification::then`] and
/// [`DeciderTestSpecification::then_state`] return exactly what the decider
/// computes from them.
#[verifier::reject_recursive_types(Command)]
#[verifier::reject_recursive_types(State)]
#[verifier::reject_recursive_types(Event)]
#[verifier::reject_recursive_types(Error)]
pub struct DeciderTestSpecification<Command, State, Event, Error, FD, FE, FI> where
    FD: Fn(&Command, &State) -> Result<Vec<Event>, Error>,
    FE: Fn(&State, &Event) -> State,
    FI: Fn() -> State,
{
    events: Vec<Event>,
    state: Option<State>,
    command: Option<Command>,
    decider: Option<Decider<Command, State, Event, Error, FD, FE, FI>>,
}

impl<Command, State, Event, Error, FD, FE, FI> DeciderTestSpecification<
    Command,
    State,
    Event,
    Error,
    FD,
    FE,
    FI,
> where
    FD: Fn(&Command, &State) -> Result<Vec<Event>, Error>,
    FE: Fn(&State, &Event) -> State,
    FI: Fn() -> State,
 {
    /// The given events.
    pub closed spec fn events_spec(self) -> Seq<Event> {
        self.events@
    }

    /// The given state.
    pub closed spec fn state_spec(self) -> Option<State> {
        self.state
    }

    /// The command under test.
    pub closed spec fn command_spec(self) -> Option<Command> {
        self.command
    }

    /// The decider under test.
    pub closed spec fn decider_spec(self) -> Option<
        Decider<Command, State, Event, Error, FD, FE, FI>,
    > {
        self.decider
    }

    /// An empty specification: no events, no state, no command, no decider.
    pub fn new() -> (r: Self)
        ensures
            r.events_spec() == Seq::<Event>::empty(),
            r.state_spec() is None,
            r.command_spec() is None,
            r.decider_spec() is None,
    {
        Self { events: Vec::new(), state: None, command: None, decider: None }
    }

    /// Specify the decider you want to test.
    pub fn for_decider(self, decider: Decider<Command, State, Event, Error, FD, FE, FI>) -> (r:
        Self)
        ensures
            r.decider_spec() == Some(decider),
            r.events_spec() == self.events_spec(),
            r.state_spec() == self.state_spec(),
            r.command_spec() == self.command_spec(),
    {
        Self { decider: Some(decider), ..self }
    }

    /// Given preconditions: previous events.
    pub fn given(self, events: Vec<Event>) -> (r: Self)
        ensures
            r.events_spec() == events@,
            r.state_spec() == self.state_spec(),
            r.command_spec() == self.command_spec(),
            r.decider_spec() == self.decider_spec(),
    {
        Self { events, ..self }
    }

    /// Given preconditions: previous state.
    pub fn given_state(self, state: Option<State>) -> (r: Self)
        ensures
            r.state_spec() == state,
            r.events_spec() == self.events_spec(),
            r.command_spec() == self.command_spec(),
            r.decider_spec() == self.decider_spec(),
    {
        Self { state, ..self }
    }

    /// When this command arrives.
    pub fn when(self, command: Command) -> (r: Self)
        ensures
            r.command_spec() == Some(command),
            r.events_spec() == self.events_spec(),
            r.state_spec() == self.state_spec(),
            r.decider_spec() == self.decider_spec(),
    {
        Self { command: Some(command), ..self }
    }

    /// Then these events result: what the decider computes from the given
    /// events and the command, event-sourced.  Compare it against the
    /// expectation.
    pub fn then(self) -> (r: Result<Vec<Event>, Error>)
        requires
            self.decider_spec() matches Some(d) && d.wf(),
            self.command_spec() is Some,
        ensures
            res_seq(r) == self.decider_spec()->Some_0.new_events_model(
                self.events_spec(),
                self.command_spec()->Some_0,
            ),
    {
        let decider = self.decider.unwrap();
        let command = self.command.unwrap();
        decider.compute_new_events(self.events.as_slice(), &command)
    }

    /// Then this error results: the domain error with which the decider
    /// rejects the given events and command, or `None` when it decides
    /// events instead.  Compare it against the expectation.
    pub fn then_error(self) -> (r: Option<Error>)
        requires
            self.decider_spec() matches Some(d) && d.wf(),
            self.command_spec() is Some,
        ensures
            r == (match self.decider_spec()->Some_0.new_events_model(
                self.events_spec(),
                self.command_spec()->Some_0,
            ) {
                Ok(_) => None::<Error>,
                Err(e) => Some(e),
            }),
    {
        let decider = self.decider.unwrap();
        let command = self.command.unwrap();
        match decider.compute_new_events(self.events.as_slice(), &command) {
            Ok(_) => None,
            Err(e) => Some(e),
        }
    }

    /// Then this state results: what the decider computes from the given
    /// state and the command, state-stored.  Compare it against the
    /// expectation.
    pub fn then_state(self) -> (r: Result<State, Error>)
        requires
            self.decider_spec() matches Some(d) && d.wf(),
            self.command_spec() is Some,
        ensures
            r == self.decider_spec()->Some_0.new_state_model(
                self.state_spec(),
                self.command_spec()->Some_0,
            ),
    {
        let decider = self.decider.unwrap();
        let command = self.command.unwrap();
        decider.compute_new_state(self.state, &command)
    }
}

impl<Command, State, Event, Error, FD, FE, FI> Default for DeciderTestSpecification<
    Command,
    State,
    Event,
    Error,
    FD,
    FE,
    FI,
> where
    FD: Fn(&Command, &State) -> Result<Vec<Event>, Error>,
    FE: Fn(&State, &Event) -> State,
    FI: Fn() -> State,
 {
    /// An empty specification: no events, no state, no command, no decider.
    fn default() -> (r: Self)
        ensures
            r.events_spec() == Seq::<Event>::empty(),
            r.state_spec() is None,
            r.command_spec() is None,
            r.decider_spec() is None,
    {
        Self::new()
    }
}

/// A test specification builder for views in the given-then style: `given`
/// sets the events that have occurred, and [`ViewTestSpecification::then`]
/// returns the state the view projects from them.
#[verifier::reject_recursive_types(State)]
#[verifier::reject_recursive_types(Event)]
pub struct ViewTestSpecification<State, Event, FE, FI> where
    FE: Fn(&State, &Event) -> State,
    FI: Fn() -> State,
{
    events: Vec<Event>,
    view: Option<View<State, Event, FE, FI>>,
}

impl<State, Event, FE, FI> ViewTestSpecification<State, Event, FE, FI> where
    FE: Fn(&State, &Event) -> State,
    FI: Fn() -> State,
 {
    /// The given events.
    pub closed spec fn events_spec(self) -> Seq<Event> {
        self.events@
    }

    /// The view under test.
    pub closed spec fn view_spec(self) -> Option<View<State, Event, FE, FI>> {
        self.view
    }

    /// An empty specification: no events and no view.
    pub fn new() -> (r: Self)
        ensures
            r.events_spec() == Seq::<Event>::empty(),
            r.view_spec() is None,
    {
        Self { events: Vec::new(), view: None }
    }

    /// Specify the view you want to test.
    pub fn for_view(self, view: View<State, Event, FE, FI>) -> (r: Self)
        ensures
            r.view_spec() == Some(view),
            r.events_spec() == self.events_spec(),
    {
        Self { view: Some(view), ..self }
    }

    /// Given preconditions: events.
    pub fn given(self, events: Vec<Event>) -> (r: Self)
        ensures
            r.events_spec() == events@,
            r.view_spec() == self.view_spec(),
    {
        Self { events, ..self }
    }

    /// Then this state results: the view's initial state evolved by the given
    /// events.  Compare it against the expectation.
    pub fn then(self) -> (r: State)
        requires
            self.view_spec() matches Some(v) && v.wf(),
        ensures
            r == self.view_spec()->Some_0.new_state_model(
                Some(self.view_spec()->Some_0.initial_model@),
                self.events_spec(),
            ),
    {
        let view = self.view.unwrap();
        let initial_state = (view.initial_state)();
        view.compute_new_state(Some(initial_state), self.events.as_slice())
    }
}

impl<State, Event, FE, FI> Default for ViewTestSpecification<State, Event, FE, FI> where
    FE: Fn(&State, &Event) -> State,
    FI: Fn() -> State,
 {
    /// An empty specification: no events and no view.
    fn default() -> (r: Self)
        ensures
            r.events_spec() == Seq::<Event>::empty(),
            r.view_spec() is None,
    {
        Self::new()
    }
}

} // verus!
