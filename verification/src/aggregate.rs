//! Application shells that bind a decider (and, for orchestration, a saga) to
//! a repository port.

use vstd::prelude::*;
use vstd::view::View as _;

use crate::decider::{evolve_all, lemma_evolve_all_snoc, Decider, EventComputation, StateComputation};
use crate::saga::Saga;
use crate::{map_vec, res_seq, Identifier};

verus! {

/// Event repository port: fetches the events of the entity a command
/// addresses and appends newly produced events.
///
/// An implementation chooses its own model functions; the contracts say that,
/// between external writes, fetching is a function of the repository state and
/// the command, and that saving returns and transitions according to the
/// model of the pre-state.  Optimistic concurrency is the implementation's
/// responsibility: versions are opaque to this crate.
pub trait EventRepository<C, E, Version, Error>: Sized {
    /// What fetching returns, as a function of the repository state.  A
    /// verified implementation overrides this; the default leaves the model
    /// unspecified.
    open spec fn events_model(&self, command: C) -> Result<Seq<(E, Version)>, Error> {
        arbitrary()
    }

    /// What saving returns, as a function of the repository pre-state.
    open spec fn save_result(&self, events: Seq<E>) -> Result<Seq<(E, Version)>, Error> {
        arbitrary()
    }

    /// The repository state after saving.
    open spec fn save_state(&self, events: Seq<E>) -> Self {
        arbitrary()
    }

    /// What providing a version returns, as a function of the repository state.
    open spec fn version_model(&self, event: E) -> Result<Option<Version>, Error> {
        arbitrary()
    }

    /// Fetches current events, based on the command.
    fn fetch_events(&self, command: &C) -> (r: Result<Vec<(E, Version)>, Error>)
        ensures
            res_seq(r) == self.events_model(*command),
    ;

    /// Saves events.
    fn save(&mut self, events: &[E]) -> (r: Result<Vec<(E, Version)>, Error>)
        ensures
            res_seq(r) == old(self).save_result(events@),
            *final(self) == old(self).save_state(events@),
    ;

    /// Provides the version of the stream the event belongs to.
    fn version_provider(&self, event: &E) -> (r: Result<Option<Version>, Error>)
        ensures
            r == self.version_model(*event),
    ;
}

/// State repository port: fetches and stores the state of the entity a
/// command addresses, together with its optimistic-concurrency version.
pub trait StateRepository<C, S, Version, Error>: Sized {
    /// What fetching returns, as a function of the repository state.  A
    /// verified implementation overrides this; the default leaves the model
    /// unspecified.
    open spec fn state_model(&self, command: C) -> Result<Option<(S, Version)>, Error> {
        arbitrary()
    }

    /// What saving returns, as a function of the repository pre-state.
    open spec fn save_result(&self, state: S, version: Option<Version>) -> Result<
        (S, Version),
        Error,
    > {
        arbitrary()
    }

    /// The repository state after saving.
    open spec fn save_state(&self, state: S, version: Option<Version>) -> Self {
        arbitrary()
    }

    /// Fetches current state, based on the command.
    fn fetch_state(&self, command: &C) -> (r: Result<Option<(S, Version)>, Error>)
        ensures
            r == self.state_model(*command),
    ;

    /// Saves state at the given version.
    fn save(&mut self, state: &S, version: &Option<Version>) -> (r: Result<(S, Version), Error>)
        ensures
            r == old(self).save_result(*state, *version),
            *final(self) == old(self).save_state(*state, *version),
    ;
}

/// Event-sourced aggregate: delegates to an [`EventComputation`] to compute
/// new events based on the fetched events and the command, and to an
/// [`EventRepository`] to fetch current events and save the new ones.
pub struct EventSourcedAggregate<C, S, E, Repository, D, Version, Error> where
    Repository: EventRepository<C, E, Version, Error>,
    D: EventComputation<C, S, E, Error>,
{
    repository: Repository,
    decider: D,
    _marker: core::marker::PhantomData<(C, S, E, Version, Error)>,
}

impl<C, S, E, Repository, D, Version, Error> EventComputation<C, S, E, Error> for EventSourcedAggregate<
    C,
    S,
    E,
    Repository,
    D,
    Version,
    Error,
> where Repository: EventRepository<C, E, Version, Error>, D: EventComputation<C, S, E, Error> {
    open spec fn events_wf(&self) -> bool {
        self.decider_spec().events_wf()
    }

    open spec fn new_events_model(&self, current_events: Seq<E>, command: C) -> Result<
        Seq<E>,
        Error,
    > {
        self.decider_spec().new_events_model(current_events, command)
    }

    fn compute_new_events(&self, current_events: &[E], command: &C) -> (r: Result<Vec<E>, Error>) {
        self.decider.compute_new_events(current_events, command)
    }
}

impl<C, S, E, Repository, D, Version, Error> EventSourcedAggregate<
    C,
    S,
    E,
    Repository,
    D,
    Version,
    Error,
> where Repository: EventRepository<C, E, Version, Error>, D: EventComputation<C, S, E, Error> {
    /// The repository the aggregate currently holds.
    pub closed spec fn repository_spec(self) -> Repository {
        self.repository
    }

    /// The computation the aggregate holds.
    pub closed spec fn decider_spec(self) -> D {
        self.decider
    }

    /// The aggregate's computation agrees with its model.
    pub open spec fn wf(self) -> bool {
        self.decider_spec().events_wf()
    }

    /// Creates a new instance of [`EventSourcedAggregate`].
    pub fn new(repository: Repository, decider: D) -> (r: Self)
        ensures
            r.repository_spec() == repository,
            r.decider_spec() == decider,
    {
        EventSourcedAggregate { repository, decider, _marker: core::marker::PhantomData }
    }

    /// Handles the command: fetches the current events from the repository,
    /// computes new events from them and the command, and saves the new
    /// events.  A fetch error or a domain error aborts the operation before
    /// anything is saved and surfaces unchanged.
    pub fn handle(&mut self, command: &C) -> (r: Result<Vec<(E, Version)>, Error>)
        requires
            old(self).wf(),
        ensures
            final(self).decider_spec() == old(self).decider_spec(),
            final(self).wf(),
            ({
                let fetched = old(self).repository_spec().events_model(*command);
                match fetched {
                    Err(e) => res_seq(r) == Err::<Seq<(E, Version)>, Error>(e) && *final(self)
                        == *old(self),
                    Ok(pairs) => {
                        let events = pairs.map_values(|p: (E, Version)| p.0);
                        match old(self).decider_spec().new_events_model(events, *command) {
                            Err(e) => res_seq(r) == Err::<Seq<(E, Version)>, Error>(e)
                                && *final(self) == *old(self),
                            Ok(new_events) => {
                                &&& res_seq(r) == old(self).repository_spec().save_result(
                                    new_events,
                                )
                                &&& final(self).repository_spec() == old(
                                    self,
                                ).repository_spec().save_state(new_events)
                            },
                        }
                    },
                }
            }),
    {
        let events = match self.repository.fetch_events(command) {
            Ok(v) => v,
            Err(e) => {
                return Err(e);
            },
        };
        let strip_version = |p: (E, Version)| -> (w: E)
            ensures
                w == p.0,
            { p.0 };
        let current_events: Vec<E> = map_vec(events, strip_version, Ghost(|p: (E, Version)| p.0));
        let new_events = match self.decider.compute_new_events(current_events.as_slice(), command) {
            Ok(v) => v,
            Err(e) => {
                return Err(e);
            },
        };
        self.repository.save(new_events.as_slice())
    }
}

/// State-stored aggregate: delegates to a [`StateComputation`] to compute the
/// new state based on the fetched state and the command, and to a
/// [`StateRepository`] to fetch the current state and save the new one.
pub struct StateStoredAggregate<C, S, E, Repository, D, Version, Error> where
    Repository: StateRepository<C, S, Version, Error>,
    D: StateComputation<C, S, E, Error>,
{
    repository: Repository,
    decider: D,
    _marker: core::marker::PhantomData<(C, S, E, Version, Error)>,
}

impl<C, S, E, Repository, D, Version, Error> StateComputation<C, S, E, Error> for StateStoredAggregate<
    C,
    S,
    E,
    Repository,
    D,
    Version,
    Error,
> where Repository: StateRepository<C, S, Version, Error>, D: StateComputation<C, S, E, Error> {
    open spec fn state_wf(&self) -> bool {
        self.decider_spec().state_wf()
    }

    open spec fn new_state_model(&self, current_state: Option<S>, command: C) -> Result<S, Error> {
        self.decider_spec().new_state_model(current_state, command)
    }

    fn compute_new_state(&self, current_state: Option<S>, command: &C) -> (r: Result<S, Error>) {
        self.decider.compute_new_state(current_state, command)
    }
}

impl<C, S, E, Repository, D, Version, Error> StateStoredAggregate<
    C,
    S,
    E,
    Repository,
    D,
    Version,
    Error,
> where Repository: StateRepository<C, S, Version, Error>, D: StateComputation<C, S, E, Error> {
    /// The repository the aggregate currently holds.
    pub closed spec fn repository_spec(self) -> Repository {
        self.repository
    }

    /// The computation the aggregate holds.
    pub closed spec fn decider_spec(self) -> D {
        self.decider
    }

    /// The aggregate's computation agrees with its model.
    pub open spec fn wf(self) -> bool {
        self.decider_spec().state_wf()
    }

    /// Creates a new instance of [`StateStoredAggregate`].
    pub fn new(repository: Repository, decider: D) -> (r: Self)
        ensures
            r.repository_spec() == repository,
            r.decider_spec() == decider,
    {
        StateStoredAggregate { repository, decider, _marker: core::marker::PhantomData }
    }

    /// Handles the command: fetches the current state and its version from
    /// the repository, computes the new state from it and the command, and
    /// saves the new state back at the observed version.  A fetch error or a
    /// domain error aborts the operation before anything is saved and
    /// surfaces unchanged.
    pub fn handle(&mut self, command: &C) -> (r: Result<(S, Version), Error>)
        requires
            old(self).wf(),
        ensures
            final(self).decider_spec() == old(self).decider_spec(),
            final(self).wf(),
            ({
                let fetched = old(self).repository_spec().state_model(*command);
                match fetched {
                    Err(e) => r == Err::<(S, Version), Error>(e) && *final(self) == *old(self),
                    Ok(state_version) => {
                        let prev_state = match state_version {
                            Some(sv) => Some(sv.0),
                            None => None,
                        };
                        let prev_version = match state_version {
                            Some(sv) => Some(sv.1),
                            None => None,
                        };
                        match old(self).decider_spec().new_state_model(prev_state, *command) {
                            Err(e) => r == Err::<(S, Version), Error>(e)
                                && *final(self) == *old(self),
                            Ok(new_state) => {
                                &&& r == old(self).repository_spec().save_result(
                                    new_state,
                                    prev_version,
                                )
                                &&& final(self).repository_spec() == old(
                                    self,
                                ).repository_spec().save_state(new_state, prev_version)
                            },
                        }
                    },
                }
            }),
    {
        let state_version = match self.repository.fetch_state(command) {
            Ok(v) => v,
            Err(e) => {
                return Err(e);
            },
        };
        match state_version {
            None => {
                let new_state = match self.decider.compute_new_state(None, command) {
                    Ok(s) => s,
                    Err(e) => {
                        return Err(e);
                    },
                };
                self.repository.save(&new_state, &None)
            },
            Some((state, version)) => {
                let new_state = match self.decider.compute_new_state(Some(state), command) {
                    Ok(s) => s,
                    Err(e) => {
                        return Err(e);
                    },
                };
                self.repository.save(&new_state, &Some(version))
            },
        }
    }
}

/// Clones a vector exactly: faithful cloning of the elements makes the copy
/// equal to the original.
pub(crate) fn clone_vec_exact<T: Clone>(v: &Vec<T>) -> (r: Vec<T>)
    requires
        crate::clone_faithful::<T>(),
    ensures
        r@ == v@,
{
    let r = v.clone();
    proof {
        assert(r@ =~= v@);
    }
    r
}

/// All follow-up commands a reaction model produces for a sequence of events,
/// concatenated in event order.
pub open spec fn react_all<E, C>(rm: spec_fn(E) -> Seq<C>, events: Seq<E>) -> Seq<C>
    decreases events.len(),
{
    if events.len() == 0 {
        Seq::empty()
    } else {
        rm(events[0]) + react_all(rm, events.drop_first())
    }
}

/// Reacting to one more event appends that event's follow-up commands.
pub proof fn lemma_react_all_snoc<E, C>(rm: spec_fn(E) -> Seq<C>, events: Seq<E>, e: E)
    ensures
        react_all(rm, events.push(e)) == react_all(rm, events) + rm(e),
    decreases events.len(),
{
    assert(react_all(rm, events.push(e)) == rm(events.push(e)[0]) + react_all(
        rm,
        events.push(e).drop_first(),
    ));
    if events.len() == 0 {
        assert(events.push(e)[0] == e);
        assert(events.push(e).drop_first() =~= Seq::<E>::empty());
        assert(react_all(rm, events.push(e)) =~= rm(e));
        assert(react_all(rm, events) + rm(e) =~= rm(e));
    } else {
        assert(events.push(e)[0] == events[0]);
        assert(events.push(e).drop_first() =~= events.drop_first().push(e));
        lemma_react_all_snoc(rm, events.drop_first(), e);
        assert(react_all(rm, events) == rm(events[0]) + react_all(rm, events.drop_first()));
        assert(react_all(rm, events.push(e)) == rm(events[0]) + (react_all(rm, events.drop_first())
            + rm(e)));
        assert(rm(events[0]) + (react_all(rm, events.drop_first()) + rm(e)) =~= (rm(events[0])
            + react_all(rm, events.drop_first())) + rm(e));
    }
}

/// Turns an optional executable event computation result into its
/// mathematical counterpart.
pub open spec fn opt_res_seq<E, Error>(r: Option<Result<Vec<E>, Error>>) -> Option<
    Result<Seq<E>, Error>,
> {
    match r {
        None => None,
        Some(x) => Some(res_seq(x)),
    }
}

/// The events whose identifier equals `id`, in order.  This is how the
/// orchestrating aggregate partitions a shared stream into per-entity
/// sub-streams: two commands or events belong to the same logical entity
/// exactly when their identifiers are equal.
pub open spec fn matching_events<E: Identifier>(events: Seq<E>, id: Seq<char>) -> Seq<E>
    decreases events.len(),
{
    if events.len() == 0 {
        Seq::empty()
    } else if events[0].id_spec() == id {
        seq![events[0]] + matching_events(events.drop_first(), id)
    } else {
        matching_events(events.drop_first(), id)
    }
}

/// Keeping one more event appends it exactly when its identifier matches.
pub proof fn lemma_matching_events_snoc<E: Identifier>(events: Seq<E>, id: Seq<char>, e: E)
    ensures
        matching_events(events.push(e), id) == (if e.id_spec() == id {
            matching_events(events, id) + seq![e]
        } else {
            matching_events(events, id)
        }),
    decreases events.len(),
{
    assert(matching_events(events.push(e), id) == (if events.push(e)[0].id_spec() == id {
        seq![events.push(e)[0]] + matching_events(events.push(e).drop_first(), id)
    } else {
        matching_events(events.push(e).drop_first(), id)
    }));
    if events.len() == 0 {
        assert(events.push(e)[0] == e);
        assert(events.push(e).drop_first() =~= Seq::<E>::empty());
        assert(matching_events(events, id) == Seq::<E>::empty());
        if e.id_spec() == id {
            assert(seq![e] + matching_events(Seq::<E>::empty(), id) =~= Seq::<E>::empty()
                + seq![e]);
            assert(Seq::<E>::empty() + seq![e] =~= seq![e]);
            assert(matching_events(events, id) + seq![e] =~= seq![e]);
            assert(seq![e] + matching_events(events.push(e).drop_first(), id) =~= seq![e]);
        }
    } else {
        assert(events.push(e)[0] == events[0]);
        assert(events.push(e).drop_first() =~= events.drop_first().push(e));
        lemma_matching_events_snoc(events.drop_first(), id, e);
        assert(matching_events(events, id) == (if events[0].id_spec() == id {
            seq![events[0]] + matching_events(events.drop_first(), id)
        } else {
            matching_events(events.drop_first(), id)
        }));
        if events[0].id_spec() == id {
            if e.id_spec() == id {
                assert(seq![events[0]] + (matching_events(events.drop_first(), id) + seq![e])
                    =~= (seq![events[0]] + matching_events(events.drop_first(), id)) + seq![e]);
            }
        }
    }
}

/// The follow-up work one orchestration step spawns: each follow-up command
/// the saga reacts with, paired with the events of the step that spawned it.
pub open spec fn spawned<E, C>(rm: spec_fn(E) -> Seq<C>, events: Seq<E>) -> Seq<(Seq<E>, C)> {
    react_all(rm, events).map_values(|c: C| (events, c))
}

/// The event-sourced orchestration model, with an explicit recursion budget.
///
/// Each pending entry pairs a follow-up command with the events of the step
/// that spawned it.  The front command's context is what the repository holds
/// for it plus the spawning step's events that share its identifier; the
/// command is decided in the state folded from that context, the produced
/// events are appended to the accumulator, and the follow-up commands the
/// saga reacts with are processed before the remaining ones.  `None` means
/// the budget did not cover the cascade; a fetch error or a domain error
/// anywhere aborts the whole cascade.
pub open spec fn orchestrate_events<C: Identifier, S, E: Identifier, Version, Error>(
    dm: spec_fn(C, S) -> Result<Seq<E>, Error>,
    em: spec_fn(S, E) -> S,
    iv: S,
    rm: spec_fn(E) -> Seq<C>,
    fm: spec_fn(C) -> Result<Seq<(E, Version)>, Error>,
    pending: Seq<(Seq<E>, C)>,
    acc: Seq<E>,
    fuel: nat,
) -> Option<Result<Seq<E>, Error>>
    decreases fuel,
{
    if pending.len() == 0 {
        Some(Ok(acc))
    } else if fuel == 0 {
        None
    } else {
        let parent = pending[0].0;
        let c = pending[0].1;
        match fm(c) {
            Err(e) => Some(Err(e)),
            Ok(fetched) => {
                let ctx = fetched.map_values(|p: (E, Version)| p.0) + matching_events(
                    parent,
                    c.id_spec(),
                );
                match dm(c, evolve_all(em, iv, ctx)) {
                    Err(e) => Some(Err(e)),
                    Ok(events) => orchestrate_events(
                        dm,
                        em,
                        iv,
                        rm,
                        fm,
                        spawned(rm, events) + pending.drop_first(),
                        acc + events,
                        (fuel - 1) as nat,
                    ),
                }
            },
        }
    }
}

/// The state-stored orchestration model, with an explicit recursion budget.
///
/// Commands are processed depth first: the front command is decided in the
/// current state, the produced events are folded into the state, and the
/// follow-up commands the saga reacts with are processed before the remaining
/// ones, threading the state through.  `None` means the budget did not cover
/// the cascade; a domain error anywhere aborts the whole cascade.
pub open spec fn orchestrate_state<C, S, E, Error>(
    dm: spec_fn(C, S) -> Result<Seq<E>, Error>,
    em: spec_fn(S, E) -> S,
    rm: spec_fn(E) -> Seq<C>,
    s: S,
    pending: Seq<C>,
    fuel: nat,
) -> Option<Result<S, Error>>
    decreases fuel,
{
    if pending.len() == 0 {
        Some(Ok(s))
    } else if fuel == 0 {
        None
    } else {
        match dm(pending[0], s) {
            Err(e) => Some(Err(e)),
            Ok(events) => orchestrate_state(
                dm,
                em,
                rm,
                evolve_all(em, s, events),
                react_all(rm, events) + pending.drop_first(),
                (fuel - 1) as nat,
            ),
        }
    }
}

/// Event-sourced orchestrating aggregate: wires one (usually combined)
/// decider and one (usually merged) saga so that a single inbound command can
/// recursively trigger cascading commands against other logical entities,
/// accumulating all resulting events as one list that is persisted by one
/// save.  Entities are partitioned by their identifier.
#[verifier::reject_recursive_types(C)]
#[verifier::reject_recursive_types(S)]
#[verifier::reject_recursive_types(E)]
#[verifier::reject_recursive_types(Error)]
pub struct EventSourcedOrchestratingAggregate<
    C,
    S,
    E,
    Repository,
    Version,
    Error,
    FD,
    FE,
    FI,
    FR,
> where
    Repository: EventRepository<C, E, Version, Error>,
    FD: Fn(&C, &S) -> Result<Vec<E>, Error>,
    FE: Fn(&S, &E) -> S,
    FI: Fn() -> S,
    FR: Fn(&E) -> Vec<C>,
{
    repository: Repository,
    decider: Decider<C, S, E, Error, FD, FE, FI>,
    saga: Saga<E, C, FR>,
    _marker: core::marker::PhantomData<(Version,)>,
}

impl<C, S, E, Repository, Version, Error, FD, FE, FI, FR> EventSourcedOrchestratingAggregate<
    C,
    S,
    E,
    Repository,
    Version,
    Error,
    FD,
    FE,
    FI,
    FR,
> where
    C: Identifier,
    E: Identifier + Clone,
    Repository: EventRepository<C, E, Version, Error>,
    FD: Fn(&C, &S) -> Result<Vec<E>, Error>,
    FE: Fn(&S, &E) -> S,
    FI: Fn() -> S,
    FR: Fn(&E) -> Vec<C>,
 {
    /// The repository the aggregate currently holds.
    pub closed spec fn repository_spec(self) -> Repository {
        self.repository
    }

    /// The decider the aggregate holds.
    pub closed spec fn decider_spec(self) -> Decider<C, S, E, Error, FD, FE, FI> {
        self.decider
    }

    /// The saga the aggregate holds.
    pub closed spec fn saga_spec(self) -> Saga<E, C, FR> {
        self.saga
    }

    /// The decider and the saga agree with their models.
    pub open spec fn wf(self) -> bool {
        &&& self.decider_spec().wf()
        &&& self.saga_spec().wf()
    }

    /// What the orchestration computes from the current events and a command,
    /// under the given recursion budget and against the given repository
    /// state.
    pub open spec fn dynamic_events_model(
        self,
        repository: Repository,
        current_events: Seq<E>,
        command: C,
        fuel: nat,
    ) -> Option<Result<Seq<E>, Error>> {
        let dm = self.decider_spec().decide_model@;
        let em = self.decider_spec().evolve_model@;
        let iv = self.decider_spec().initial_model@;
        let rm = self.saga_spec().react_model@;
        let fm = |c: C| repository.events_model(c);
        match dm(command, evolve_all(em, iv, current_events)) {
            Err(e) => Some(Err(e)),
            Ok(events) => orchestrate_events(
                dm,
                em,
                iv,
                rm,
                fm,
                spawned(rm, events),
                events,
                fuel,
            ),
        }
    }

    /// Creates a new instance of [`EventSourcedOrchestratingAggregate`].
    pub fn new(
        repository: Repository,
        decider: Decider<C, S, E, Error, FD, FE, FI>,
        saga: Saga<E, C, FR>,
    ) -> (r: Self)
        ensures
            r.repository_spec() == repository,
            r.decider_spec() == decider,
            r.saga_spec() == saga,
    {
        EventSourcedOrchestratingAggregate {
            repository,
            decider,
            saga,
            _marker: core::marker::PhantomData,
        }
    }

    /// Collects each follow-up command the saga reacts with, paired with a
    /// copy of the events of the spawning step.
    fn spawn_pending(&self, events: &Vec<E>) -> (r: Vec<(Vec<E>, C)>)
        requires
            self.wf(),
            crate::clone_faithful::<E>(),
        ensures
            r@.map_values(|p: (Vec<E>, C)| (p.0@, p.1)) == spawned(
                self.saga_spec().react_model@,
                events@,
            ),
    {
        let ghost rm = self.saga.react_model@;
        let mut out: Vec<(Vec<E>, C)> = Vec::new();
        let mut j: usize = 0;
        while j < events.len()
            invariant
                self.wf(),
                crate::clone_faithful::<E>(),
                rm == self.saga.react_model@,
                j <= events.len(),
                out@.map_values(|p: (Vec<E>, C)| (p.0@, p.1)) == react_all(
                    rm,
                    events@.take(j as int),
                ).map_values(|c: C| (events@, c)),
            decreases events.len() - j,
        {
            let mut acts = (self.saga.react)(&events[j]);
            let ghost acts_seq = acts@;
            while acts.len() > 0
                invariant
                    crate::clone_faithful::<E>(),
                    acts@ =~= acts_seq.skip(acts_seq.len() - acts@.len()),
                    acts@.len() <= acts_seq.len(),
                    out@.map_values(|p: (Vec<E>, C)| (p.0@, p.1)) == (react_all(
                        rm,
                        events@.take(j as int),
                    ) + acts_seq.take(acts_seq.len() - acts@.len())).map_values(
                        |c: C| (events@, c),
                    ),
                decreases acts.len(),
            {
                let ghost k = acts_seq.len() - acts@.len();
                let a = acts.remove(0);
                proof {
                    assert(a == acts_seq[k]);
                    assert(acts@ =~= acts_seq.skip(k + 1));
                }
                let copy = clone_vec_exact(events);
                out.push((copy, a));
                proof {
                    assert(acts_seq.take(k + 1) =~= acts_seq.take(k).push(acts_seq[k]));
                    assert((react_all(rm, events@.take(j as int)) + acts_seq.take(k + 1))
                        =~= (react_all(rm, events@.take(j as int)) + acts_seq.take(k)).push(
                        acts_seq[k],
                    ));
                    assert(((react_all(rm, events@.take(j as int)) + acts_seq.take(k)).push(
                        acts_seq[k],
                    )).map_values(|c: C| (events@, c)) =~= (react_all(rm, events@.take(j as int))
                        + acts_seq.take(k)).map_values(|c: C| (events@, c)).push(
                        (events@, acts_seq[k]),
                    ));
                    assert(out@.map_values(|p: (Vec<E>, C)| (p.0@, p.1)) =~= (react_all(
                        rm,
                        events@.take(j as int),
                    ) + acts_seq.take(k)).map_values(|c: C| (events@, c)).push(
                        (events@, acts_seq[k]),
                    ));
                }
            }
            proof {
                assert(acts_seq.take(acts_seq.len() as int) =~= acts_seq);
                assert(events@.take(j + 1 as int) =~= events@.take(j as int).push(
                    events@[j as int],
                ));
                lemma_react_all_snoc(rm, events@.take(j as int), events@[j as int]);
                assert(out@.map_values(|p: (Vec<E>, C)| (p.0@, p.1)) =~= react_all(
                    rm,
                    events@.take(j + 1 as int),
                ).map_values(|c: C| (events@, c)));
            }
            j += 1;
        }
        proof {
            assert(events@.take(events@.len() as int) =~= events@);
        }
        out
    }

    /// Folds the decider's evolution model over the events, starting from the
    /// decider's initial state.
    fn fold_state(&self, events: &Vec<E>) -> (r: S)
        requires
            self.wf(),
        ensures
            r == evolve_all(
                self.decider_spec().evolve_model@,
                self.decider_spec().initial_model@,
                events@,
            ),
    {
        let ghost em = self.decider.evolve_model@;
        let mut state = (self.decider.initial_state)();
        let ghost start = state;
        let mut i: usize = 0;
        while i < events.len()
            invariant
                self.wf(),
                em == self.decider.evolve_model@,
                i <= events.len(),
                state == evolve_all(em, start, events@.take(i as int)),
                start == self.decider.initial_model@,
            decreases events.len() - i,
        {
            state = (self.decider.evolve)(&state, &events[i]);
            proof {
                assert(events@.take(i + 1 as int) =~= events@.take(i as int).push(
                    events@[i as int],
                ));
                lemma_evolve_all_snoc(em, start, events@.take(i as int), events@[i as int]);
            }
            i += 1;
        }
        proof {
            assert(events@.take(events@.len() as int) =~= events@);
        }
        state
    }

    /// The events of `parent` whose identifier equals the command's,
    /// appended to `ctx`.
    fn append_matching(&self, ctx: Vec<E>, parent: Vec<E>, command: &C) -> (r: Vec<E>)
        requires
            crate::clone_faithful::<E>(),
        ensures
            r@ == ctx@ + matching_events(parent@, command.id_spec()),
    {
        let ghost parent_seq = parent@;
        let cid = command.identifier();
        let mut parent = parent;
        let mut out = ctx;
        let ghost ctx0 = out@;
        while parent.len() > 0
            invariant
                cid@ == command.id_spec(),
                parent@ =~= parent_seq.skip(parent_seq.len() - parent@.len()),
                parent@.len() <= parent_seq.len(),
                out@ == ctx0 + matching_events(
                    parent_seq.take(parent_seq.len() - parent@.len()),
                    command.id_spec(),
                ),
            decreases parent.len(),
        {
            let ghost k = parent_seq.len() - parent@.len();
            let e = parent.remove(0);
            proof {
                assert(e == parent_seq[k]);
                assert(parent@ =~= parent_seq.skip(k + 1));
                assert(parent_seq.take(k + 1) =~= parent_seq.take(k).push(parent_seq[k]));
                lemma_matching_events_snoc(parent_seq.take(k), command.id_spec(), parent_seq[k]);
            }
            let keep = e.identifier() == cid;
            if keep {
                out.push(e);
                proof {
                    assert(out@ =~= ctx0 + (matching_events(parent_seq.take(k), command.id_spec())
                        + seq![parent_seq[k]]));
                }
            }
        }
        proof {
            assert(parent_seq.take(parent_seq.len() as int) =~= parent_seq);
        }
        out
    }

    /// Computes all new events of the whole cascade: decides on the command
    /// in the state folded from the current events, reacts to each produced
    /// event with follow-up commands, and processes each follow-up command
    /// depth first against the events the repository holds for it plus the
    /// spawning step's events that share its identifier, concatenating every
    /// step's events into one list.  Returns `None` when the cascade needs
    /// more than `fuel` steps; the caller chooses the budget.
    pub fn compute_new_events_dynamically(
        &self,
        current_events: &[E],
        command: &C,
        fuel: usize,
    ) -> (r: Option<Result<Vec<E>, Error>>)
        requires
            self.wf(),
            crate::clone_faithful::<E>(),
        ensures
            opt_res_seq(r) == self.dynamic_events_model(
                self.repository_spec(),
                current_events@,
                *command,
                fuel as nat,
            ),
    {
        let ghost dm = self.decider.decide_model@;
        let ghost em = self.decider.evolve_model@;
        let ghost iv = self.decider.initial_model@;
        let ghost rm = self.saga.react_model@;
        let ghost fm = |c: C| self.repository_spec().events_model(c);
        let mut start_events: Vec<E> = Vec::new();
        start_events.extend_from_slice(current_events);
        proof {
            assert(start_events@ =~= current_events@);
        }
        let state = self.fold_state(&start_events);
        let decided = (self.decider.decide)(command, &state);
        let events = match decided {
            Ok(v) => v,
            Err(e) => {
                return Some(Err(e));
            },
        };
        let ghost evs0 = events@;
        let ghost fuel0 = fuel as nat;
        let mut queue: Vec<(Vec<E>, C)> = self.spawn_pending(&events);
        let mut acc = events;
        let mut fuel_left = fuel;
        loop
            invariant
                self.wf(),
                crate::clone_faithful::<E>(),
                dm == self.decider.decide_model@,
                em == self.decider.evolve_model@,
                iv == self.decider.initial_model@,
                rm == self.saga.react_model@,
                fm == (|c: C| self.repository_spec().events_model(c)),
                fuel0 == fuel as nat,
                dm(*command, evolve_all(em, iv, current_events@)) == Ok::<Seq<E>, Error>(evs0),
                orchestrate_events(
                    dm,
                    em,
                    iv,
                    rm,
                    fm,
                    queue@.map_values(|p: (Vec<E>, C)| (p.0@, p.1)),
                    acc@,
                    fuel_left as nat,
                ) == orchestrate_events(dm, em, iv, rm, fm, spawned(rm, evs0), evs0, fuel0),
            decreases fuel_left,
        {
            if queue.len() == 0 {
                return Some(Ok(acc));
            }
            if fuel_left == 0 {
                return None;
            }
            let ghost queue_full = queue@.map_values(|p: (Vec<E>, C)| (p.0@, p.1));
            let ghost acc_old = acc@;
            let ghost fuel_old = fuel_left as nat;
            let pc = queue.remove(0);
            proof {
                assert(queue@.map_values(|p: (Vec<E>, C)| (p.0@, p.1)) =~= queue_full.drop_first());
                assert(queue_full[0] == (pc.0@, pc.1));
            }
            let parent = pc.0;
            let c = pc.1;
            let fetched = match self.repository.fetch_events(&c) {
                Ok(v) => v,
                Err(e) => {
                    return Some(Err(e));
                },
            };
            let strip_version = |p: (E, Version)| -> (w: E)
                ensures
                    w == p.0,
                { p.0 };
            let fetched_events: Vec<E> = map_vec(
                fetched,
                strip_version,
                Ghost(|p: (E, Version)| p.0),
            );
            let ctx = self.append_matching(fetched_events, parent, &c);
            let state = self.fold_state(&ctx);
            let decided = (self.decider.decide)(&c, &state);
            let events = match decided {
                Ok(v) => v,
                Err(e) => {
                    return Some(Err(e));
                },
            };
            let ghost evs = events@;
            let ghost queue_rest = queue@.map_values(|p: (Vec<E>, C)| (p.0@, p.1));
            let mut spawned_pending = self.spawn_pending(&events);
            let mut events_copy = clone_vec_exact(&events);
            acc.append(&mut events_copy);
            spawned_pending.append(&mut queue);
            queue = spawned_pending;
            fuel_left = fuel_left - 1;
            proof {
                assert(queue@.map_values(|p: (Vec<E>, C)| (p.0@, p.1)) =~= spawned(rm, evs)
                    + queue_rest);
                assert(orchestrate_events(dm, em, iv, rm, fm, queue_full, acc_old, fuel_old)
                    == orchestrate_events(
                    dm,
                    em,
                    iv,
                    rm,
                    fm,
                    spawned(rm, evs) + queue_full.drop_first(),
                    acc_old + evs,
                    (fuel_old - 1) as nat,
                ));
            }
        }
    }

    /// Handles the command: fetches the current events for it, computes all
    /// new events of the whole cascade, and saves them in one save.  Returns
    /// `None`, with nothing saved, when the cascade needs more than `fuel`
    /// steps; a fetch error or a domain error anywhere in the cascade aborts
    /// the operation before anything is saved and surfaces unchanged.
    pub fn handle(&mut self, command: &C, fuel: usize) -> (r: Option<
        Result<Vec<(E, Version)>, Error>,
    >)
        requires
            old(self).wf(),
            crate::clone_faithful::<E>(),
        ensures
            final(self).decider_spec() == old(self).decider_spec(),
            final(self).saga_spec() == old(self).saga_spec(),
            final(self).wf(),
            ({
                let fetched = old(self).repository_spec().events_model(*command);
                match fetched {
                    Err(e) => r == Some(Err::<Vec<(E, Version)>, Error>(e)) && *final(self)
                        == *old(self),
                    Ok(pairs) => {
                        let events = pairs.map_values(|p: (E, Version)| p.0);
                        match old(self).dynamic_events_model(
                            old(self).repository_spec(),
                            events,
                            *command,
                            fuel as nat,
                        ) {
                            None => r == None::<Result<Vec<(E, Version)>, Error>> && *final(self)
                                == *old(self),
                            Some(Err(e)) => r == Some(Err::<Vec<(E, Version)>, Error>(e))
                                && *final(self) == *old(self),
                            Some(Ok(new_events)) => {
                                &&& r matches Some(saved) && res_seq(saved) == old(
                                    self,
                                ).repository_spec().save_result(new_events)
                                &&& final(self).repository_spec() == old(
                                    self,
                                ).repository_spec().save_state(new_events)
                            },
                        }
                    },
                }
            }),
    {
        let fetched = match self.repository.fetch_events(command) {
            Ok(v) => v,
            Err(e) => {
                return Some(Err(e));
            },
        };
        let strip_version = |p: (E, Version)| -> (w: E)
            ensures
                w == p.0,
            { p.0 };
        let current_events: Vec<E> = map_vec(fetched, strip_version, Ghost(|p: (E, Version)| p.0));
        let new_events = match self.compute_new_events_dynamically(
            current_events.as_slice(),
            command,
            fuel,
        ) {
            Some(Ok(v)) => v,
            Some(Err(e)) => {
                return Some(Err(e));
            },
            None => {
                return None;
            },
        };
        Some(self.repository.save(new_events.as_slice()))
    }
}

/// A converged state-stored cascade is stable: once some budget suffices,
/// every larger budget computes the same outcome.  A budget is never the
/// cause of a different result, only of no result.
pub proof fn lemma_orchestrate_state_fuel_monotone<C, S, E, Error>(
    dm: spec_fn(C, S) -> Result<Seq<E>, Error>,
    em: spec_fn(S, E) -> S,
    rm: spec_fn(E) -> Seq<C>,
    s: S,
    pending: Seq<C>,
    fuel1: nat,
    fuel2: nat,
)
    requires
        fuel1 <= fuel2,
        orchestrate_state(dm, em, rm, s, pending, fuel1) is Some,
    ensures
        orchestrate_state(dm, em, rm, s, pending, fuel2) == orchestrate_state(
            dm,
            em,
            rm,
            s,
            pending,
            fuel1,
        ),
    decreases fuel1,
{
    if pending.len() == 0 {
    } else {
        assert(fuel1 != 0);
        match dm(pending[0], s) {
            Err(e) => {},
            Ok(events) => {
                lemma_orchestrate_state_fuel_monotone(
                    dm,
                    em,
                    rm,
                    evolve_all(em, s, events),
                    react_all(rm, events) + pending.drop_first(),
                    (fuel1 - 1) as nat,
                    (fuel2 - 1) as nat,
                );
            },
        }
    }
}

/// A converged event-sourced cascade is stable: once some budget suffices,
/// every larger budget computes the same events.
pub proof fn lemma_orchestrate_events_fuel_monotone<C: Identifier, S, E: Identifier, Version, Error>(
    dm: spec_fn(C, S) -> Result<Seq<E>, Error>,
    em: spec_fn(S, E) -> S,
    iv: S,
    rm: spec_fn(E) -> Seq<C>,
    fm: spec_fn(C) -> Result<Seq<(E, Version)>, Error>,
    pending: Seq<(Seq<E>, C)>,
    acc: Seq<E>,
    fuel1: nat,
    fuel2: nat,
)
    requires
        fuel1 <= fuel2,
        orchestrate_events(dm, em, iv, rm, fm, pending, acc, fuel1) is Some,
    ensures
        orchestrate_events(dm, em, iv, rm, fm, pending, acc, fuel2) == orchestrate_events(
            dm,
            em,
            iv,
            rm,
            fm,
            pending,
            acc,
            fuel1,
        ),
    decreases fuel1,
{
    if pending.len() == 0 {
    } else {
        assert(fuel1 != 0);
        let parent = pending[0].0;
        let c = pending[0].1;
        match fm(c) {
            Err(e) => {},
            Ok(fetched) => {
                let ctx = fetched.map_values(|p: (E, Version)| p.0) + matching_events(
                    parent,
                    c.id_spec(),
                );
                match dm(c, evolve_all(em, iv, ctx)) {
                    Err(e) => {},
                    Ok(events) => {
                        lemma_orchestrate_events_fuel_monotone(
                            dm,
                            em,
                            iv,
                            rm,
                            fm,
                            spawned(rm, events) + pending.drop_first(),
                            acc + events,
                            (fuel1 - 1) as nat,
                            (fuel2 - 1) as nat,
                        );
                    },
                }
            },
        }
    }
}

/// State-stored orchestrating aggregate: wires one (usually combined) decider
/// and one (usually merged) saga so that a single inbound command can
/// recursively trigger cascading commands, accumulating the state across the
/// whole cascade before anything is saved.
#[verifier::reject_recursive_types(C)]
#[verifier::reject_recursive_types(S)]
#[verifier::reject_recursive_types(E)]
#[verifier::reject_recursive_types(Error)]
pub struct StateStoredOrchestratingAggregate<
    C,
    S,
    E,
    Repository,
    Version,
    Error,
    FD,
    FE,
    FI,
    FR,
> where
    Repository: StateRepository<C, S, Version, Error>,
    FD: Fn(&C, &S) -> Result<Vec<E>, Error>,
    FE: Fn(&S, &E) -> S,
    FI: Fn() -> S,
    FR: Fn(&E) -> Vec<C>,
{
    repository: Repository,
    decider: Decider<C, S, E, Error, FD, FE, FI>,
    saga: Saga<E, C, FR>,
    _marker: core::marker::PhantomData<(Version,)>,
}

impl<C, S, E, Repository, Version, Error, FD, FE, FI, FR> StateStoredOrchestratingAggregate<
    C,
    S,
    E,
    Repository,
    Version,
    Error,
    FD,
    FE,
    FI,
    FR,
> where
    Repository: StateRepository<C, S, Version, Error>,
    FD: Fn(&C, &S) -> Result<Vec<E>, Error>,
    FE: Fn(&S, &E) -> S,
    FI: Fn() -> S,
    FR: Fn(&E) -> Vec<C>,
 {
    /// The repository the aggregate currently holds.
    pub closed spec fn repository_spec(self) -> Repository {
        self.repository
    }

    /// The decider the aggregate holds.
    pub closed spec fn decider_spec(self) -> Decider<C, S, E, Error, FD, FE, FI> {
        self.decider
    }

    /// The saga the aggregate holds.
    pub closed spec fn saga_spec(self) -> Saga<E, C, FR> {
        self.saga
    }

    /// The decider and the saga agree with their models.
    pub open spec fn wf(self) -> bool {
        &&& self.decider_spec().wf()
        &&& self.saga_spec().wf()
    }

    /// What the orchestration computes from an optional current state and a
    /// command, under the given recursion budget.
    pub open spec fn orchestration_model(self, current_state: Option<S>, command: C, fuel: nat) -> Option<
        Result<S, Error>,
    > {
        let s0 = match current_state {
            Some(s) => s,
            None => self.decider_spec().initial_model@,
        };
        orchestrate_state(
            self.decider_spec().decide_model@,
            self.decider_spec().evolve_model@,
            self.saga_spec().react_model@,
            s0,
            seq![command],
            fuel,
        )
    }

    /// Creates a new instance of [`StateStoredOrchestratingAggregate`].
    pub fn new(
        repository: Repository,
        decider: Decider<C, S, E, Error, FD, FE, FI>,
        saga: Saga<E, C, FR>,
    ) -> (r: Self)
        ensures
            r.repository_spec() == repository,
            r.decider_spec() == decider,
            r.saga_spec() == saga,
    {
        StateStoredOrchestratingAggregate {
            repository,
            decider,
            saga,
            _marker: core::marker::PhantomData,
        }
    }

    /// Computes the new state of the whole cascade: decides on the command,
    /// folds the produced events into the state, reacts to each event with
    /// follow-up commands and processes them depth first, threading the state
    /// through.  Returns `None` when the cascade needs more than `fuel`
    /// steps; the caller chooses the budget.
    pub fn compute_new_state(&self, current_state: Option<S>, command: &C, fuel: usize) -> (r:
        Option<Result<S, Error>>)
        requires
            self.wf(),
        ensures
            r == self.orchestration_model(current_state, *command, fuel as nat),
    {
        let ghost dm = self.decider.decide_model@;
        let ghost em = self.decider.evolve_model@;
        let ghost rm = self.saga.react_model@;
        let mut state = match current_state {
            Some(s) => s,
            None => (self.decider.initial_state)(),
        };
        let ghost fuel0 = fuel as nat;
        let ghost s0 = state;
        if fuel == 0 {
            return None;
        }
        let mut fuel_left = fuel - 1;
        let decided = (self.decider.decide)(command, &state);
        proof {
            assert(seq![*command][0] == *command);
            assert(seq![*command].len() == 1);
        }
        let mut queue: Vec<C> = match decided {
            Ok(events) => {
                let ghost evs = events@;
                let (next_state, follow) = self.evolve_and_react(state, &events);
                state = next_state;
                proof {
                    assert(seq![*command].drop_first() =~= Seq::<C>::empty());
                    assert(react_all(rm, evs) + seq![*command].drop_first() =~= react_all(rm, evs));
                    assert(orchestrate_state(dm, em, rm, s0, seq![*command], fuel0)
                        == orchestrate_state(
                        dm,
                        em,
                        rm,
                        evolve_all(em, s0, evs),
                        react_all(rm, evs) + seq![*command].drop_first(),
                        (fuel0 - 1) as nat,
                    ));
                }
                follow
            },
            Err(e) => {
                return Some(Err(e));
            },
        };
        proof {
            assert(orchestrate_state(dm, em, rm, state, queue@, fuel_left as nat)
                == orchestrate_state(dm, em, rm, s0, seq![*command], fuel0));
        }
        loop
            invariant
                self.wf(),
                dm == self.decider.decide_model@,
                em == self.decider.evolve_model@,
                rm == self.saga.react_model@,
                fuel0 == fuel as nat,
                s0 == (match current_state {
                    Some(s) => s,
                    None => self.decider.initial_model@,
                }),
                orchestrate_state(dm, em, rm, state, queue@, fuel_left as nat)
                    == orchestrate_state(dm, em, rm, s0, seq![*command], fuel0),
            decreases fuel_left,
        {
            if queue.len() == 0 {
                return Some(Ok(state));
            }
            if fuel_left == 0 {
                return None;
            }
            let ghost queue_full = queue@;
            let ghost state_old = state;
            let ghost fuel_old = fuel_left as nat;
            let c = queue.remove(0);
            proof {
                assert(queue@ =~= queue_full.drop_first());
            }
            let decided = (self.decider.decide)(&c, &state);
            let events = match decided {
                Ok(v) => v,
                Err(e) => {
                    return Some(Err(e));
                },
            };
            let ghost evs = events@;
            let ghost queue_before = queue@;
            let (next_state, mut follow) = self.evolve_and_react(state, &events);
            state = next_state;
            follow.append(&mut queue);
            queue = follow;
            fuel_left = fuel_left - 1;
            proof {
                assert(queue@ =~= react_all(rm, evs) + queue_before);
                assert(orchestrate_state(dm, em, rm, state_old, queue_full, fuel_old)
                    == orchestrate_state(
                    dm,
                    em,
                    rm,
                    evolve_all(em, state_old, evs),
                    react_all(rm, evs) + queue_full.drop_first(),
                    (fuel_old - 1) as nat,
                ));
            }
        }
    }

    /// Folds the decider's evolution over the events starting at `state`, and
    /// collects the follow-up commands the saga reacts with, in event order.
    fn evolve_and_react(&self, state: S, events: &Vec<E>) -> (r: (S, Vec<C>))
        requires
            self.wf(),
        ensures
            r.0 == evolve_all(self.decider_spec().evolve_model@, state, events@),
            r.1@ == react_all(self.saga_spec().react_model@, events@),
    {
        let ghost em = self.decider.evolve_model@;
        let ghost rm = self.saga.react_model@;
        let ghost state_before = state;
        let mut state = state;
        let mut i: usize = 0;
        while i < events.len()
            invariant
                self.wf(),
                em == self.decider.evolve_model@,
                i <= events.len(),
                state == evolve_all(em, state_before, events@.take(i as int)),
            decreases events.len() - i,
        {
            state = (self.decider.evolve)(&state, &events[i]);
            proof {
                assert(events@.take(i + 1 as int) =~= events@.take(i as int).push(
                    events@[i as int],
                ));
                lemma_evolve_all_snoc(em, state_before, events@.take(i as int), events@[i as int]);
            }
            i += 1;
        }
        let mut follow: Vec<C> = Vec::new();
        let mut j: usize = 0;
        while j < events.len()
            invariant
                self.wf(),
                rm == self.saga.react_model@,
                j <= events.len(),
                follow@ == react_all(rm, events@.take(j as int)),
            decreases events.len() - j,
        {
            let mut acts = (self.saga.react)(&events[j]);
            follow.append(&mut acts);
            proof {
                assert(events@.take(j + 1 as int) =~= events@.take(j as int).push(
                    events@[j as int],
                ));
                lemma_react_all_snoc(rm, events@.take(j as int), events@[j as int]);
            }
            j += 1;
        }
        proof {
            assert(events@.take(events@.len() as int) =~= events@);
        }
        (state, follow)
    }

    /// Handles the command: fetches the current state and its version,
    /// computes the new state of the whole cascade, and saves it back at the
    /// observed version in one save.  Returns `None`, with nothing saved,
    /// when the cascade needs more than `fuel` steps; a fetch error or a
    /// domain error anywhere in the cascade aborts the operation before
    /// anything is saved and surfaces unchanged.
    pub fn handle(&mut self, command: &C, fuel: usize) -> (r: Option<Result<(S, Version), Error>>)
        requires
            old(self).wf(),
        ensures
            final(self).decider_spec() == old(self).decider_spec(),
            final(self).saga_spec() == old(self).saga_spec(),
            final(self).wf(),
            ({
                let fetched = old(self).repository_spec().state_model(*command);
                match fetched {
                    Err(e) => r == Some(Err::<(S, Version), Error>(e)) && *final(self) == *old(
                        self,
                    ),
                    Ok(state_version) => {
                        let prev_state = match state_version {
                            Some(sv) => Some(sv.0),
                            None => None,
                        };
                        let prev_version = match state_version {
                            Some(sv) => Some(sv.1),
                            None => None,
                        };
                        match old(self).orchestration_model(prev_state, *command, fuel as nat) {
                            None => r == None::<Result<(S, Version), Error>> && *final(self)
                                == *old(self),
                            Some(Err(e)) => r == Some(Err::<(S, Version), Error>(e))
                                && *final(self) == *old(self),
                            Some(Ok(new_state)) => {
                                &&& r == Some(
                                    old(self).repository_spec().save_result(
                                        new_state,
                                        prev_version,
                                    ),
                                )
                                &&& final(self).repository_spec() == old(
                                    self,
                                ).repository_spec().save_state(new_state, prev_version)
                            },
                        }
                    },
                }
            }),
    {
        let state_version = match self.repository.fetch_state(command) {
            Ok(v) => v,
            Err(e) => {
                return Some(Err(e));
            },
        };
        let (prev_state, prev_version) = match state_version {
            Some((s, v)) => (Some(s), Some(v)),
            None => (None, None),
        };
        let new_state = match self.compute_new_state(prev_state, command, fuel) {
            Some(Ok(s)) => s,
            Some(Err(e)) => {
                return Some(Err(e));
            },
            None => {
                return None;
            },
        };
        Some(self.repository.save(&new_state, &prev_version))
    }
}

} // verus!
