//! The pure decision-making component and its combination algebra.

use vstd::prelude::*;

use crate::{clone_faithful, fn0_obeys, fn1_obeys, fn2_obeys, map_vec, res_seq, Sum, Sum3, Sum4, Sum5, Sum6};

verus! {

/// A decision function is captured by a total mathematical model: every call
/// succeeds and every possible outcome agrees with the model.
pub open spec fn decide_obeys<C, S, E, Error, FD: Fn(&C, &S) -> Result<Vec<E>, Error>>(
    f: FD,
    m: spec_fn(C, S) -> Result<Seq<E>, Error>,
) -> bool {
    &&& forall|c: &C, s: &S| #[trigger] call_requires(f, (c, s))
    &&& forall|c: &C, s: &S, r: Result<Vec<E>, Error>|
        #[trigger] call_ensures(f, (c, s), r) ==> res_seq(r) == m(*c, *s)
}

/// Left fold of an evolution model over a sequence of events.
pub open spec fn evolve_all<S, E>(m: spec_fn(S, E) -> S, s: S, events: Seq<E>) -> S
    decreases events.len(),
{
    if events.len() == 0 {
        s
    } else {
        evolve_all(m, m(s, events[0]), events.drop_first())
    }
}

/// Folding one more event evolves the fold of the prefix by that event.
pub proof fn lemma_evolve_all_snoc<S, E>(m: spec_fn(S, E) -> S, s: S, events: Seq<E>, e: E)
    ensures
        evolve_all(m, s, events.push(e)) == m(evolve_all(m, s, events), e),
    decreases events.len(),
{
    assert(evolve_all(m, s, events.push(e)) == evolve_all(
        m,
        m(s, events.push(e)[0]),
        events.push(e).drop_first(),
    ));
    if events.len() == 0 {
        assert(events.push(e)[0] == e);
        assert(events.push(e).drop_first() =~= Seq::<E>::empty());
        assert(evolve_all(m, m(s, e), Seq::<E>::empty()) == m(s, e));
    } else {
        assert(events.push(e)[0] == events[0]);
        assert(events.push(e).drop_first() =~= events.drop_first().push(e));
        lemma_evolve_all_snoc(m, m(s, events[0]), events.drop_first(), e);
        assert(evolve_all(m, s, events) == evolve_all(m, m(s, events[0]), events.drop_first()));
    }
}

/// [`Decider`] represents the main decision-making algorithm.  It pairs three
/// executable functions with their ghost mathematical models:
///
/// - `decide` chooses which events to produce from a command and the current
///   state,
/// - `evolve` computes the next state from the current state and one event,
/// - `initial_state` produces the starting state.
///
/// [`Decider::wf`] states that each executable function is total and agrees
/// with its model on every input; all contracts of this module speak about
/// the models.
#[verifier::reject_recursive_types(C)]
#[verifier::reject_recursive_types(S)]
#[verifier::reject_recursive_types(E)]
#[verifier::reject_recursive_types(Error)]
pub struct Decider<C, S, E, Error, FD, FE, FI> where
    FD: Fn(&C, &S) -> Result<Vec<E>, Error>,
    FE: Fn(&S, &E) -> S,
    FI: Fn() -> S,
{
    /// Decides which events to produce based on the command and the current state.
    pub decide: FD,
    /// Evolves the state based on the current state and the event.
    pub evolve: FE,
    /// Produces the initial state of the decider.
    pub initial_state: FI,
    /// The mathematical model of `decide`.
    pub decide_model: Ghost<spec_fn(C, S) -> Result<Seq<E>, Error>>,
    /// The mathematical model of `evolve`.
    pub evolve_model: Ghost<spec_fn(S, E) -> S>,
    /// The value `initial_state` returns.
    pub initial_model: Ghost<S>,
}

impl<C, S, E, Error, FD, FE, FI> Decider<C, S, E, Error, FD, FE, FI> where
    FD: Fn(&C, &S) -> Result<Vec<E>, Error>,
    FE: Fn(&S, &E) -> S,
    FI: Fn() -> S,
{
    /// The executable functions are total and agree with the ghost models.
    pub open spec fn wf(self) -> bool {
        &&& decide_obeys(self.decide, self.decide_model@)
        &&& fn2_obeys(self.evolve, self.evolve_model@)
        &&& fn0_obeys(self.initial_state, self.initial_model@)
    }

    /// Packs three deterministic functions into a well-formed decider.
    pub fn new(decide: FD, evolve: FE, initial_state: FI) -> (r: Self)
        requires
            exists|m: spec_fn(C, S) -> Result<Seq<E>, Error>| decide_obeys(decide, m),
            exists|m: spec_fn(S, E) -> S| fn2_obeys(evolve, m),
            exists|v: S| fn0_obeys(initial_state, v),
        ensures
            r.wf(),
            r.decide == decide,
            r.evolve == evolve,
            r.initial_state == initial_state,
            decide_obeys(decide, r.decide_model@),
            fn2_obeys(evolve, r.evolve_model@),
            fn0_obeys(initial_state, r.initial_model@),
    {
        let ghost dm = choose|m: spec_fn(C, S) -> Result<Seq<E>, Error>| decide_obeys(decide, m);
        let ghost em = choose|m: spec_fn(S, E) -> S| fn2_obeys(evolve, m);
        let ghost iv = choose|v: S| fn0_obeys(initial_state, v);
        Decider {
            decide,
            evolve,
            initial_state,
            decide_model: Ghost(dm),
            evolve_model: Ghost(em),
            initial_model: Ghost(iv),
        }
    }
}

/// Formalizes the event computation algorithm: the event-sourced way of
/// handling a command based on the events so far.
pub trait EventComputation<C, S, E, Error> {
    /// The computation's executable part agrees with its model.
    spec fn events_wf(&self) -> bool;

    /// The mathematical result of the computation.
    spec fn new_events_model(&self, current_events: Seq<E>, command: C) -> Result<Seq<E>, Error>;

    /// Computes new events based on the current events and the command.
    fn compute_new_events(&self, current_events: &[E], command: &C) -> (r: Result<Vec<E>, Error>)
        requires
            self.events_wf(),
        ensures
            res_seq(r) == self.new_events_model(current_events@, *command),
    ;
}

/// Formalizes the state computation algorithm: the state-stored way of
/// handling a command based on the current state.
pub trait StateComputation<C, S, E, Error> {
    /// The computation's executable part agrees with its model.
    spec fn state_wf(&self) -> bool;

    /// The mathematical result of the computation.
    spec fn new_state_model(&self, current_state: Option<S>, command: C) -> Result<S, Error>;

    /// Computes new state based on the current state and the command.
    fn compute_new_state(&self, current_state: Option<S>, command: &C) -> (r: Result<S, Error>)
        requires
            self.state_wf(),
        ensures
            r == self.new_state_model(current_state, *command),
    ;
}

impl<C, S, E, Error, FD, FE, FI> EventComputation<C, S, E, Error> for Decider<
    C,
    S,
    E,
    Error,
    FD,
    FE,
    FI,
> where FD: Fn(&C, &S) -> Result<Vec<E>, Error>, FE: Fn(&S, &E) -> S, FI: Fn() -> S {
    open spec fn events_wf(&self) -> bool {
        self.wf()
    }

    /// Folds the evolution model over the current events starting from the
    /// initial state, then decides on the command in the resulting state.
    open spec fn new_events_model(&self, current_events: Seq<E>, command: C) -> Result<
        Seq<E>,
        Error,
    > {
        (self.decide_model@)(
            command,
            evolve_all(self.evolve_model@, self.initial_model@, current_events),
        )
    }

    fn compute_new_events(&self, current_events: &[E], command: &C) -> (r: Result<Vec<E>, Error>) {
        let mut state = (self.initial_state)();
        let mut i: usize = 0;
        while i < current_events.len()
            invariant
                self.wf(),
                i <= current_events.len(),
                state == evolve_all(
                    self.evolve_model@,
                    self.initial_model@,
                    current_events@.take(i as int),
                ),
            decreases current_events.len() - i,
        {
            state = (self.evolve)(&state, &current_events[i]);
            proof {
                assert(current_events@.take(i + 1 as int) =~= current_events@.take(i as int).push(
                    current_events@[i as int],
                ));
                lemma_evolve_all_snoc(
                    self.evolve_model@,
                    self.initial_model@,
                    current_events@.take(i as int),
                    current_events@[i as int],
                );
            }
            i += 1;
        }
        proof {
            assert(current_events@.take(current_events@.len() as int) =~= current_events@);
        }
        (self.decide)(command, &state)
    }
}

impl<C, S, E, Error, FD, FE, FI> StateComputation<C, S, E, Error> for Decider<
    C,
    S,
    E,
    Error,
    FD,
    FE,
    FI,
> where FD: Fn(&C, &S) -> Result<Vec<E>, Error>, FE: Fn(&S, &E) -> S, FI: Fn() -> S {
    open spec fn state_wf(&self) -> bool {
        self.wf()
    }

    /// Decides on the command in the effective current state (the given state,
    /// or the initial state when none is given), then folds the evolution
    /// model over the produced events starting from that state.
    open spec fn new_state_model(&self, current_state: Option<S>, command: C) -> Result<S, Error> {
        let s0 = match current_state {
            Some(s) => s,
            None => self.initial_model@,
        };
        match (self.decide_model@)(command, s0) {
            Ok(es) => Ok(evolve_all(self.evolve_model@, s0, es)),
            Err(e) => Err(e),
        }
    }

    fn compute_new_state(&self, current_state: Option<S>, command: &C) -> (r: Result<S, Error>) {
        let s0 = match current_state {
            Some(s) => s,
            None => (self.initial_state)(),
        };
        let events = (self.decide)(command, &s0);
        match events {
            Ok(evs) => {
                let mut state = s0;
                let mut i: usize = 0;
                while i < evs.len()
                    invariant
                        self.wf(),
                        i <= evs.len(),
                        state == evolve_all(self.evolve_model@, s0, evs@.take(i as int)),
                    decreases evs.len() - i,
                {
                    state = (self.evolve)(&state, &evs[i]);
                    proof {
                        assert(evs@.take(i + 1 as int) =~= evs@.take(i as int).push(
                            evs@[i as int],
                        ));
                        lemma_evolve_all_snoc(
                            self.evolve_model@,
                            s0,
                            evs@.take(i as int),
                            evs@[i as int],
                        );
                    }
                    i += 1;
                }
                proof {
                    assert(evs@.take(evs@.len() as int) =~= evs@);
                }
                Ok(state)
            },
            Err(e) => Err(e),
        }
    }
}

/// The decision model after translating the state type: decide in the
/// translated state.
pub open spec fn mapped_state_decide<C, S, S2, E, Error>(
    m: spec_fn(C, S) -> Result<Seq<E>, Error>,
    g1: spec_fn(S2) -> S,
) -> spec_fn(C, S2) -> Result<Seq<E>, Error> {
    |c: C, s2: S2| m(c, g1(s2))
}

/// The evolution model after translating the state type: translate in,
/// evolve, translate back.
pub open spec fn mapped_state_evolve<S, S2, E>(
    em: spec_fn(S, E) -> S,
    g1: spec_fn(S2) -> S,
    g2: spec_fn(S) -> S2,
) -> spec_fn(S2, E) -> S2 {
    |s2: S2, e: E| g2(em(g1(s2), e))
}

/// The decision model after translating the event type: the decided events
/// are translated one by one, in order.
pub open spec fn mapped_event_decide<C, S, E, E2, Error>(
    m: spec_fn(C, S) -> Result<Seq<E>, Error>,
    g2: spec_fn(E) -> E2,
) -> spec_fn(C, S) -> Result<Seq<E2>, Error> {
    |c: C, s: S|
        match m(c, s) {
            Ok(es) => Ok(es.map_values(g2)),
            Err(e) => Err(e),
        }
}

/// The evolution model after translating the event type: translate the event,
/// then evolve.
pub open spec fn mapped_event_evolve<S, E, E2>(
    em: spec_fn(S, E) -> S,
    g1: spec_fn(E2) -> E,
) -> spec_fn(S, E2) -> S {
    |s: S, e2: E2| em(s, g1(e2))
}

/// The decision model after translating the command type: translate the
/// command, then decide.
pub open spec fn mapped_command_decide<C, C2, S, E, Error>(
    m: spec_fn(C, S) -> Result<Seq<E>, Error>,
    g: spec_fn(C2) -> C,
) -> spec_fn(C2, S) -> Result<Seq<E>, Error> {
    |c2: C2, s: S| m(g(c2), s)
}

/// The decision model after translating the error type: a domain error is
/// translated, events pass through unchanged.
pub open spec fn mapped_error_decide<C, S, E, Error, Error2>(
    m: spec_fn(C, S) -> Result<Seq<E>, Error>,
    g: spec_fn(Error) -> Error2,
) -> spec_fn(C, S) -> Result<Seq<E>, Error2> {
    |c: C, s: S|
        match m(c, s) {
            Ok(es) => Ok(es),
            Err(e) => Err(g(e)),
        }
}

impl<C, S, E, Error, FD, FE, FI> Decider<C, S, E, Error, FD, FE, FI> where
    FD: Fn(&C, &S) -> Result<Vec<E>, Error>,
    FE: Fn(&S, &E) -> S,
    FI: Fn() -> S,
{
    /// Maps the decider over the state type parameter: `f1` reads the old
    /// state out of the new representation and `f2` writes it back.  The
    /// decided events for corresponding states are unchanged.
    pub fn map_state<S2, F1, F2>(self, f1: F1, f2: F2) -> (r: Decider<
        C,
        S2,
        E,
        Error,
        impl Fn(&C, &S2) -> Result<Vec<E>, Error>,
        impl Fn(&S2, &E) -> S2,
        impl Fn() -> S2,
    >) where F1: Fn(&S2) -> S + Copy, F2: Fn(&S) -> S2 + Copy,
        requires
            self.wf(),
            exists|g: spec_fn(S2) -> S| fn1_obeys(f1, g),
            exists|g: spec_fn(S) -> S2| fn1_obeys(f2, g),
        ensures
            r.wf(),
            exists|g1: spec_fn(S2) -> S, g2: spec_fn(S) -> S2|
                {
                    &&& #[trigger] fn1_obeys(f1, g1)
                    &&& #[trigger] fn1_obeys(f2, g2)
                    &&& r.decide_model@ == mapped_state_decide(self.decide_model@, g1)
                    &&& r.evolve_model@ == mapped_state_evolve(self.evolve_model@, g1, g2)
                    &&& r.initial_model@ == g2(self.initial_model@)
                },
    {
        let g1: Ghost<spec_fn(S2) -> S> = Ghost(choose|g: spec_fn(S2) -> S| fn1_obeys(f1, g));
        let g2: Ghost<spec_fn(S) -> S2> = Ghost(choose|g: spec_fn(S) -> S2| fn1_obeys(f2, g));
        let Decider {
            decide: d,
            evolve: ev,
            initial_state: ini,
            decide_model: m,
            evolve_model: em,
            initial_model: iv,
        } = self;
        let new_decide = move |c: &C, s2: &S2| -> (out: Result<Vec<E>, Error>)
            ensures
                res_seq(out) == mapped_state_decide(m@, g1@)(*c, *s2),
            {
                let s = f1(s2);
                d(c, &s)
            };
        let new_evolve = move |s2: &S2, e: &E| -> (out: S2)
            ensures
                out == mapped_state_evolve(em@, g1@, g2@)(*s2, *e),
            {
                let s = f1(s2);
                f2(&ev(&s, e))
            };
        let new_initial = move || -> (out: S2)
            ensures
                out == g2@(iv@),
            { f2(&ini()) };
        Decider {
            decide: new_decide,
            evolve: new_evolve,
            initial_state: new_initial,
            decide_model: Ghost(mapped_state_decide(m@, g1@)),
            evolve_model: Ghost(mapped_state_evolve(em@, g1@, g2@)),
            initial_model: Ghost(g2@(iv@)),
        }
    }

    /// Maps the decider over the event type parameter: `f1` translates the
    /// new event representation into the old one for evolution, `f2`
    /// translates decided events into the new representation.
    pub fn map_event<E2, F1, F2>(self, f1: F1, f2: F2) -> (r: Decider<
        C,
        S,
        E2,
        Error,
        impl Fn(&C, &S) -> Result<Vec<E2>, Error>,
        impl Fn(&S, &E2) -> S,
        FI,
    >) where F1: Fn(&E2) -> E, F2: Fn(&E) -> E2 + Copy,
        requires
            self.wf(),
            exists|g: spec_fn(E2) -> E| fn1_obeys(f1, g),
            exists|g: spec_fn(E) -> E2| fn1_obeys(f2, g),
        ensures
            r.wf(),
            r.initial_model@ == self.initial_model@,
            exists|g1: spec_fn(E2) -> E, g2: spec_fn(E) -> E2|
                {
                    &&& #[trigger] fn1_obeys(f1, g1)
                    &&& #[trigger] fn1_obeys(f2, g2)
                    &&& r.decide_model@ == mapped_event_decide(self.decide_model@, g2)
                    &&& r.evolve_model@ == mapped_event_evolve(self.evolve_model@, g1)
                },
    {
        let g1: Ghost<spec_fn(E2) -> E> = Ghost(choose|g: spec_fn(E2) -> E| fn1_obeys(f1, g));
        let g2: Ghost<spec_fn(E) -> E2> = Ghost(choose|g: spec_fn(E) -> E2| fn1_obeys(f2, g));
        let Decider {
            decide: d,
            evolve: ev,
            initial_state: ini,
            decide_model: m,
            evolve_model: em,
            initial_model: iv,
        } = self;
        let new_decide = move |c: &C, s: &S| -> (out: Result<Vec<E2>, Error>)
            ensures
                res_seq(out) == mapped_event_decide(m@, g2@)(*c, *s),
            {
                let translate = move |e: E| -> (w: E2)
                    ensures
                        w == g2@(e),
                    { f2(&e) };
                match d(c, s) {
                    Ok(v) => Ok(map_vec(v, translate, Ghost(g2@))),
                    Err(e) => Err(e),
                }
            };
        let new_evolve = move |s: &S, e2: &E2| -> (out: S)
            ensures
                out == mapped_event_evolve(em@, g1@)(*s, *e2),
            {
                let e = f1(e2);
                ev(s, &e)
            };
        Decider {
            decide: new_decide,
            evolve: new_evolve,
            initial_state: ini,
            decide_model: Ghost(mapped_event_decide(m@, g2@)),
            evolve_model: Ghost(mapped_event_evolve(em@, g1@)),
            initial_model: iv,
        }
    }

    /// Maps the decider over the command type parameter, contravariantly:
    /// `f` translates the new command representation into the old one.
    pub fn map_command<C2, F>(self, f: F) -> (r: Decider<
        C2,
        S,
        E,
        Error,
        impl Fn(&C2, &S) -> Result<Vec<E>, Error>,
        FE,
        FI,
    >) where F: Fn(&C2) -> C,
        requires
            self.wf(),
            exists|g: spec_fn(C2) -> C| fn1_obeys(f, g),
        ensures
            r.wf(),
            r.evolve_model@ == self.evolve_model@,
            r.initial_model@ == self.initial_model@,
            exists|g: spec_fn(C2) -> C|
                {
                    &&& #[trigger] fn1_obeys(f, g)
                    &&& r.decide_model@ == mapped_command_decide(self.decide_model@, g)
                },
    {
        let g: Ghost<spec_fn(C2) -> C> = Ghost(choose|g: spec_fn(C2) -> C| fn1_obeys(f, g));
        let Decider {
            decide: d,
            evolve: ev,
            initial_state: ini,
            decide_model: m,
            evolve_model: em,
            initial_model: iv,
        } = self;
        let new_decide = move |c2: &C2, s: &S| -> (out: Result<Vec<E>, Error>)
            ensures
                res_seq(out) == mapped_command_decide(m@, g@)(*c2, *s),
            {
                let c = f(c2);
                d(&c, s)
            };
        Decider {
            decide: new_decide,
            evolve: ev,
            initial_state: ini,
            decide_model: Ghost(mapped_command_decide(m@, g@)),
            evolve_model: em,
            initial_model: iv,
        }
    }

    /// Maps the decider over the error type parameter: `f` translates a
    /// domain error, the decided events are unchanged.
    pub fn map_error<Error2, F>(self, f: F) -> (r: Decider<
        C,
        S,
        E,
        Error2,
        impl Fn(&C, &S) -> Result<Vec<E>, Error2>,
        FE,
        FI,
    >) where F: Fn(&Error) -> Error2,
        requires
            self.wf(),
            exists|g: spec_fn(Error) -> Error2| fn1_obeys(f, g),
        ensures
            r.wf(),
            r.evolve_model@ == self.evolve_model@,
            r.initial_model@ == self.initial_model@,
            exists|g: spec_fn(Error) -> Error2|
                {
                    &&& #[trigger] fn1_obeys(f, g)
                    &&& r.decide_model@ == mapped_error_decide(self.decide_model@, g)
                },
    {
        let g: Ghost<spec_fn(Error) -> Error2> = Ghost(
            choose|g: spec_fn(Error) -> Error2| fn1_obeys(f, g),
        );
        let Decider {
            decide: d,
            evolve: ev,
            initial_state: ini,
            decide_model: m,
            evolve_model: em,
            initial_model: iv,
        } = self;
        let new_decide = move |c: &C, s: &S| -> (out: Result<Vec<E>, Error2>)
            ensures
                res_seq(out) == mapped_error_decide(m@, g@)(*c, *s),
            {
                match d(c, s) {
                    Ok(v) => Ok(v),
                    Err(e) => Err(f(&e)),
                }
            };
        Decider {
            decide: new_decide,
            evolve: ev,
            initial_state: ini,
            decide_model: Ghost(mapped_error_decide(m@, g@)),
            evolve_model: em,
            initial_model: iv,
        }
    }
}

/// The decision model of two combined deciders: partitioned dispatch.  A
/// first-variant command is decided by the first model against the first slot
/// of the state, and the events come back wrapped as first variants; symmetric
/// for the second variant.
pub open spec fn combined_decide<C, S, E, C2, S2, E2, Error>(
    m1: spec_fn(C, S) -> Result<Seq<E>, Error>,
    m2: spec_fn(C2, S2) -> Result<Seq<E2>, Error>,
) -> spec_fn(Sum<C, C2>, (S, S2)) -> Result<Seq<Sum<E, E2>>, Error> {
    |c: Sum<C, C2>, s: (S, S2)|
        match c {
            Sum::First(c1) => match m1(c1, s.0) {
                Ok(es) => Ok(es.map_values(|e: E| Sum::<E, E2>::First(e))),
                Err(e) => Err(e),
            },
            Sum::Second(c2) => match m2(c2, s.1) {
                Ok(es) => Ok(es.map_values(|e: E2| Sum::<E, E2>::Second(e))),
                Err(e) => Err(e),
            },
        }
}

/// The evolution model of two combined deciders: the slot addressed by the
/// event's variant evolves, the other slot is copied through unchanged.
pub open spec fn combined_evolve<S, E, S2, E2>(
    m1: spec_fn(S, E) -> S,
    m2: spec_fn(S2, E2) -> S2,
) -> spec_fn((S, S2), Sum<E, E2>) -> (S, S2) {
    |s: (S, S2), e: Sum<E, E2>|
        match e {
            Sum::First(ev) => (m1(s.0, ev), s.1),
            Sum::Second(ev) => (s.0, m2(s.1, ev)),
        }
}

impl<C, S, E, Error, FD, FE, FI> Decider<C, S, E, Error, FD, FE, FI> where
    FD: Fn(&C, &S) -> Result<Vec<E>, Error>,
    FE: Fn(&S, &E) -> S,
    FI: Fn() -> S,
{
    /// Combines two deciders into one bigger decider with partitioned
    /// dispatch: commands and events of the combined decider are sums, its
    /// state is the pair of the component states, and each command or event
    /// only ever reaches the component its variant names.
    pub fn combine<C2, S2, E2, FD2, FE2, FI2>(
        self,
        decider2: Decider<C2, S2, E2, Error, FD2, FE2, FI2>,
    ) -> (r: Decider<
        Sum<C, C2>,
        (S, S2),
        Sum<E, E2>,
        Error,
        impl Fn(&Sum<C, C2>, &(S, S2)) -> Result<Vec<Sum<E, E2>>, Error>,
        impl Fn(&(S, S2), &Sum<E, E2>) -> (S, S2),
        impl Fn() -> (S, S2),
    >) where
        FD2: Fn(&C2, &S2) -> Result<Vec<E2>, Error>,
        FE2: Fn(&S2, &E2) -> S2,
        FI2: Fn() -> S2,
        S: Clone,
        S2: Clone,
        requires
            self.wf(),
            decider2.wf(),
            clone_faithful::<S>(),
            clone_faithful::<S2>(),
        ensures
            r.wf(),
            r.decide_model@ == combined_decide(self.decide_model@, decider2.decide_model@),
            r.evolve_model@ == combined_evolve(self.evolve_model@, decider2.evolve_model@),
            r.initial_model@ == (self.initial_model@, decider2.initial_model@),
    {
        let Decider {
            decide: d1,
            evolve: e1,
            initial_state: i1,
            decide_model: m1,
            evolve_model: em1,
            initial_model: iv1,
        } = self;
        let Decider {
            decide: d2,
            evolve: e2,
            initial_state: i2,
            decide_model: m2,
            evolve_model: em2,
            initial_model: iv2,
        } = decider2;
        let new_decide = move |c: &Sum<C, C2>, s: &(S, S2)| -> (r: Result<Vec<Sum<E, E2>>, Error>)
            ensures
                res_seq(r) == combined_decide(m1@, m2@)(*c, *s),
            {
                match c {
                    Sum::First(c1) => match d1(c1, &s.0) {
                        Ok(v) => Ok(
                            map_vec(v, crate::sum_first, Ghost(|e: E| Sum::<E, E2>::First(e))),
                        ),
                        Err(e) => Err(e),
                    },
                    Sum::Second(c2) => match d2(c2, &s.1) {
                        Ok(v) => Ok(
                            map_vec(v, crate::sum_second, Ghost(|e: E2| Sum::<E, E2>::Second(e))),
                        ),
                        Err(e) => Err(e),
                    },
                }
            };
        let new_evolve = move |s: &(S, S2), e: &Sum<E, E2>| -> (r: (S, S2))
            requires
                clone_faithful::<S>(),
                clone_faithful::<S2>(),
            ensures
                r == combined_evolve(em1@, em2@)(*s, *e),
            {
                match e {
                    Sum::First(ev) => (e1(&s.0, ev), s.1.clone()),
                    Sum::Second(ev) => (s.0.clone(), e2(&s.1, ev)),
                }
            };
        let new_initial = move || -> (r: (S, S2))
            ensures
                r == (iv1@, iv2@),
            { (i1(), i2()) };
        Decider {
            decide: new_decide,
            evolve: new_evolve,
            initial_state: new_initial,
            decide_model: Ghost(combined_decide(m1@, m2@)),
            evolve_model: Ghost(combined_evolve(em1@, em2@)),
            initial_model: Ghost((iv1@, iv2@)),
        }
    }
}

/// Combine isolation: dispatching a first-variant command through a combined
/// decision model produces only first-variant events, exactly the events the
/// first component decides; and evolving by a first-variant event leaves the
/// second slot of the combined state unchanged.  Symmetric for the second
/// variant.
pub proof fn lemma_combine_isolation<C, S, E, C2, S2, E2, Error>(
    m1: spec_fn(C, S) -> Result<Seq<E>, Error>,
    m2: spec_fn(C2, S2) -> Result<Seq<E2>, Error>,
    em1: spec_fn(S, E) -> S,
    em2: spec_fn(S2, E2) -> S2,
    c: C,
    c2: C2,
    s: (S, S2),
)
    ensures
        combined_decide(m1, m2)(Sum::First(c), s) == (match m1(c, s.0) {
            Ok(es) => Ok::<Seq<Sum<E, E2>>, Error>(es.map_values(|e: E| Sum::<E, E2>::First(e))),
            Err(e) => Err(e),
        }),
        (m1(c, s.0) matches Ok(es) ==> {
            let out = combined_decide(m1, m2)(Sum::First(c), s)->Ok_0;
            forall|i: int| 0 <= i < out.len() ==> out[i] is First
        }),
        combined_decide(m1, m2)(Sum::Second(c2), s) == (match m2(c2, s.1) {
            Ok(es) => Ok::<Seq<Sum<E, E2>>, Error>(es.map_values(|e: E2| Sum::<E, E2>::Second(e))),
            Err(e) => Err(e),
        }),
        forall|e: E|
            #[trigger] combined_evolve(em1, em2)(s, Sum::First(e)) == (em1(s.0, e), s.1),
        forall|e: E2|
            #[trigger] combined_evolve(em1, em2)(s, Sum::Second(e)) == (s.0, em2(s.1, e)),
{
}

/// The decision model of three combined deciders: partitioned dispatch over
/// the three variants; see [`combined_decide`].
pub open spec fn combined_decide3<C, C2, C3, S, S2, S3, E, E2, E3, Error>(
    m1: spec_fn(C, S) -> Result<Seq<E>, Error>,
    m2: spec_fn(C2, S2) -> Result<Seq<E2>, Error>,
    m3: spec_fn(C3, S3) -> Result<Seq<E3>, Error>,
) -> spec_fn(Sum3<C, C2, C3>, (S, S2, S3)) -> Result<Seq<Sum3<E, E2, E3>>, Error> {
    |c: Sum3<C, C2, C3>, s: (S, S2, S3)|
        match c {
            Sum3::First(c) => match m1(c, s.0) {
                Ok(es) => Ok(es.map_values(|e: E| Sum3::<E, E2, E3>::First(e))),
                Err(e) => Err(e),
            },
            Sum3::Second(c) => match m2(c, s.1) {
                Ok(es) => Ok(es.map_values(|e: E2| Sum3::<E, E2, E3>::Second(e))),
                Err(e) => Err(e),
            },
            Sum3::Third(c) => match m3(c, s.2) {
                Ok(es) => Ok(es.map_values(|e: E3| Sum3::<E, E2, E3>::Third(e))),
                Err(e) => Err(e),
            },
        }
}

/// The evolution model of three combined deciders: the addressed slot
/// evolves, every other slot is copied through unchanged; see
/// [`combined_evolve`].
pub open spec fn combined_evolve3<S, S2, S3, E, E2, E3>(
    m1: spec_fn(S, E) -> S,
    m2: spec_fn(S2, E2) -> S2,
    m3: spec_fn(S3, E3) -> S3,
) -> spec_fn((S, S2, S3), Sum3<E, E2, E3>) -> (S, S2, S3) {
    |s: (S, S2, S3), e: Sum3<E, E2, E3>|
        match e {
            Sum3::First(ev) => (m1(s.0, ev), s.1, s.2),
            Sum3::Second(ev) => (s.0, m2(s.1, ev), s.2),
            Sum3::Third(ev) => (s.0, s.1, m3(s.2, ev)),
        }
}

impl<C, S, E, Error, FD, FE, FI> Decider<C, S, E, Error, FD, FE, FI> where
    FD: Fn(&C, &S) -> Result<Vec<E>, Error>,
    FE: Fn(&S, &E) -> S,
    FI: Fn() -> S,
{
    /// Combines three deciders into one bigger decider with partitioned
    /// dispatch over the three variants.
    pub fn combine3<C2, S2, E2, FD2, FE2, FI2, C3, S3, E3, FD3, FE3, FI3>(
        self,
        decider2: Decider<C2, S2, E2, Error, FD2, FE2, FI2>,
        decider3: Decider<C3, S3, E3, Error, FD3, FE3, FI3>,
    ) -> (r: Decider<
        Sum3<C, C2, C3>,
        (S, S2, S3),
        Sum3<E, E2, E3>,
        Error,
        impl Fn(&Sum3<C, C2, C3>, &(S, S2, S3)) -> Result<Vec<Sum3<E, E2, E3>>, Error>,
        impl Fn(&(S, S2, S3), &Sum3<E, E2, E3>) -> (S, S2, S3),
        impl Fn() -> (S, S2, S3),
    >) where
        FD2: Fn(&C2, &S2) -> Result<Vec<E2>, Error>,
        FE2: Fn(&S2, &E2) -> S2,
        FI2: Fn() -> S2,
        FD3: Fn(&C3, &S3) -> Result<Vec<E3>, Error>,
        FE3: Fn(&S3, &E3) -> S3,
        FI3: Fn() -> S3,
        S: Clone,
        S2: Clone,
        S3: Clone,
        requires
            self.wf(),
            decider2.wf(),
            decider3.wf(),
            clone_faithful::<S>(),
            clone_faithful::<S2>(),
            clone_faithful::<S3>(),
        ensures
            r.wf(),
            r.decide_model@ == combined_decide3(self.decide_model@, decider2.decide_model@, decider3.decide_model@),
            r.evolve_model@ == combined_evolve3(self.evolve_model@, decider2.evolve_model@, decider3.evolve_model@),
            r.initial_model@ == (self.initial_model@, decider2.initial_model@, decider3.initial_model@),
    {
        let Decider {
            decide: d1,
            evolve: e1,
            initial_state: i1,
            decide_model: dm1,
            evolve_model: em1,
            initial_model: iv1,
        } = self;
        let Decider {
            decide: d2,
            evolve: e2,
            initial_state: i2,
            decide_model: dm2,
            evolve_model: em2,
            initial_model: iv2,
        } = decider2;
        let Decider {
            decide: d3,
            evolve: e3,
            initial_state: i3,
            decide_model: dm3,
            evolve_model: em3,
            initial_model: iv3,
        } = decider3;
        let new_decide = move |c: &Sum3<C, C2, C3>, s: &(S, S2, S3)| -> (r: Result<Vec<Sum3<E, E2, E3>>, Error>)
            ensures
                res_seq(r) == combined_decide3(dm1@, dm2@, dm3@)(*c, *s),
            {
                match c {
                    Sum3::First(c) => match d1(c, &s.0) {
                        Ok(v) => Ok(
                            map_vec(
                                v,
                                crate::sum3_first,
                                Ghost(|e: E| Sum3::<E, E2, E3>::First(e)),
                            ),
                        ),
                        Err(e) => Err(e),
                    },
                    Sum3::Second(c) => match d2(c, &s.1) {
                        Ok(v) => Ok(
                            map_vec(
                                v,
                                crate::sum3_second,
                                Ghost(|e: E2| Sum3::<E, E2, E3>::Second(e)),
                            ),
                        ),
                        Err(e) => Err(e),
                    },
                    Sum3::Third(c) => match d3(c, &s.2) {
                        Ok(v) => Ok(
                            map_vec(
                                v,
                                crate::sum3_third,
                                Ghost(|e: E3| Sum3::<E, E2, E3>::Third(e)),
                            ),
                        ),
                        Err(e) => Err(e),
                    },
                }
            };
        let new_evolve = move |s: &(S, S2, S3), e: &Sum3<E, E2, E3>| -> (r: (S, S2, S3))
            requires
                clone_faithful::<S>(),
                clone_faithful::<S2>(),
                clone_faithful::<S3>(),
            ensures
                r == combined_evolve3(em1@, em2@, em3@)(*s, *e),
            {
                match e {
                    Sum3::First(ev) => (e1(&s.0, ev), s.1.clone(), s.2.clone()),
                    Sum3::Second(ev) => (s.0.clone(), e2(&s.1, ev), s.2.clone()),
                    Sum3::Third(ev) => (s.0.clone(), s.1.clone(), e3(&s.2, ev)),
                }
            };
        let new_initial = move || -> (r: (S, S2, S3))
            ensures
                r == (iv1@, iv2@, iv3@),
            { (i1(), i2(), i3()) };
        Decider {
            decide: new_decide,
            evolve: new_evolve,
            initial_state: new_initial,
            decide_model: Ghost(combined_decide3(dm1@, dm2@, dm3@)),
            evolve_model: Ghost(combined_evolve3(em1@, em2@, em3@)),
            initial_model: Ghost((iv1@, iv2@, iv3@)),
        }
    }
}

/// The decision model of four combined deciders: partitioned dispatch over
/// the four variants; see [`combined_decide`].
pub open spec fn combined_decide4<C, C2, C3, C4, S, S2, S3, S4, E, E2, E3, E4, Error>(
    m1: spec_fn(C, S) -> Result<Seq<E>, Error>,
    m2: spec_fn(C2, S2) -> Result<Seq<E2>, Error>,
    m3: spec_fn(C3, S3) -> Result<Seq<E3>, Error>,
    m4: spec_fn(C4, S4) -> Result<Seq<E4>, Error>,
) -> spec_fn(Sum4<C, C2, C3, C4>, (S, S2, S3, S4)) -> Result<Seq<Sum4<E, E2, E3, E4>>, Error> {
    |c: Sum4<C, C2, C3, C4>, s: (S, S2, S3, S4)|
        match c {
            Sum4::First(c) => match m1(c, s.0) {
                Ok(es) => Ok(es.map_values(|e: E| Sum4::<E, E2, E3, E4>::First(e))),
                Err(e) => Err(e),
            },
            Sum4::Second(c) => match m2(c, s.1) {
                Ok(es) => Ok(es.map_values(|e: E2| Sum4::<E, E2, E3, E4>::Second(e))),
                Err(e) => Err(e),
            },
            Sum4::Third(c) => match m3(c, s.2) {
                Ok(es) => Ok(es.map_values(|e: E3| Sum4::<E, E2, E3, E4>::Third(e))),
                Err(e) => Err(e),
            },
            Sum4::Fourth(c) => match m4(c, s.3) {
                Ok(es) => Ok(es.map_values(|e: E4| Sum4::<E, E2, E3, E4>::Fourth(e))),
                Err(e) => Err(e),
            },
        }
}

/// The evolution model of four combined deciders: the addressed slot
/// evolves, every other slot is copied through unchanged; see
/// [`combined_evolve`].
pub open spec fn combined_evolve4<S, S2, S3, S4, E, E2, E3, E4>(
    m1: spec_fn(S, E) -> S,
    m2: spec_fn(S2, E2) -> S2,
    m3: spec_fn(S3, E3) -> S3,
    m4: spec_fn(S4, E4) -> S4,
) -> spec_fn((S, S2, S3, S4), Sum4<E, E2, E3, E4>) -> (S, S2, S3, S4) {
    |s: (S, S2, S3, S4), e: Sum4<E, E2, E3, E4>|
        match e {
            Sum4::First(ev) => (m1(s.0, ev), s.1, s.2, s.3),
            Sum4::Second(ev) => (s.0, m2(s.1, ev), s.2, s.3),
            Sum4::Third(ev) => (s.0, s.1, m3(s.2, ev), s.3),
            Sum4::Fourth(ev) => (s.0, s.1, s.2, m4(s.3, ev)),
        }
}

impl<C, S, E, Error, FD, FE, FI> Decider<C, S, E, Error, FD, FE, FI> where
    FD: Fn(&C, &S) -> Result<Vec<E>, Error>,
    FE: Fn(&S, &E) -> S,
    FI: Fn() -> S,
{
    /// Combines four deciders into one bigger decider with partitioned
    /// dispatch over the four variants.
    pub fn combine4<C2, S2, E2, FD2, FE2, FI2, C3, S3, E3, FD3, FE3, FI3, C4, S4, E4, FD4, FE4, FI4>(
        self,
        decider2: Decider<C2, S2, E2, Error, FD2, FE2, FI2>,
        decider3: Decider<C3, S3, E3, Error, FD3, FE3, FI3>,
        decider4: Decider<C4, S4, E4, Error, FD4, FE4, FI4>,
    ) -> (r: Decider<
        Sum4<C, C2, C3, C4>,
        (S, S2, S3, S4),
        Sum4<E, E2, E3, E4>,
        Error,
        impl Fn(&Sum4<C, C2, C3, C4>, &(S, S2, S3, S4)) -> Result<Vec<Sum4<E, E2, E3, E4>>, Error>,
        impl Fn(&(S, S2, S3, S4), &Sum4<E, E2, E3, E4>) -> (S, S2, S3, S4),
        impl Fn() -> (S, S2, S3, S4),
    >) where
        FD2: Fn(&C2, &S2) -> Result<Vec<E2>, Error>,
        FE2: Fn(&S2, &E2) -> S2,
        FI2: Fn() -> S2,
        FD3: Fn(&C3, &S3) -> Result<Vec<E3>, Error>,
        FE3: Fn(&S3, &E3) -> S3,
        FI3: Fn() -> S3,
        FD4: Fn(&C4, &S4) -> Result<Vec<E4>, Error>,
        FE4: Fn(&S4, &E4) -> S4,
        FI4: Fn() -> S4,
        S: Clone,
        S2: Clone,
        S3: Clone,
        S4: Clone,
        requires
            self.wf(),
            decider2.wf(),
            decider3.wf(),
            decider4.wf(),
            clone_faithful::<S>(),
            clone_faithful::<S2>(),
            clone_faithful::<S3>(),
            clone_faithful::<S4>(),
        ensures
            r.wf(),
            r.decide_model@ == combined_decide4(self.decide_model@, decider2.decide_model@, decider3.decide_model@, decider4.decide_model@),
            r.evolve_model@ == combined_evolve4(self.evolve_model@, decider2.evolve_model@, decider3.evolve_model@, decider4.evolve_model@),
            r.initial_model@ == (self.initial_model@, decider2.initial_model@, decider3.initial_model@, decider4.initial_model@),
    {
        let Decider {
            decide: d1,
            evolve: e1,
            initial_state: i1,
            decide_model: dm1,
            evolve_model: em1,
            initial_model: iv1,
        } = self;
        let Decider {
            decide: d2,
            evolve: e2,
            initial_state: i2,
            decide_model: dm2,
            evolve_model: em2,
            initial_model: iv2,
        } = decider2;
        let Decider {
            decide: d3,
            evolve: e3,
            initial_state: i3,
            decide_model: dm3,
            evolve_model: em3,
            initial_model: iv3,
        } = decider3;
        let Decider {
            decide: d4,
            evolve: e4,
            initial_state: i4,
            decide_model: dm4,
            evolve_model: em4,
            initial_model: iv4,
        } = decider4;
        let new_decide = move |c: &Sum4<C, C2, C3, C4>, s: &(S, S2, S3, S4)| -> (r: Result<Vec<Sum4<E, E2, E3, E4>>, Error>)
            ensures
                res_seq(r) == combined_decide4(dm1@, dm2@, dm3@, dm4@)(*c, *s),
            {
                match c {
                    Sum4::First(c) => match d1(c, &s.0) {
                        Ok(v) => Ok(
                            map_vec(
                                v,
                                crate::sum4_first,
                                Ghost(|e: E| Sum4::<E, E2, E3, E4>::First(e)),
                            ),
                        ),
                        Err(e) => Err(e),
                    },
                    Sum4::Second(c) => match d2(c, &s.1) {
                        Ok(v) => Ok(
                            map_vec(
                                v,
                                crate::sum4_second,
                                Ghost(|e: E2| Sum4::<E, E2, E3, E4>::Second(e)),
                            ),
                        ),
                        Err(e) => Err(e),
                    },
                    Sum4::Third(c) => match d3(c, &s.2) {
                        Ok(v) => Ok(
                            map_vec(
                                v,
                                crate::sum4_third,
                                Ghost(|e: E3| Sum4::<E, E2, E3, E4>::Third(e)),
                            ),
                        ),
                        Err(e) => Err(e),
                    },
                    Sum4::Fourth(c) => match d4(c, &s.3) {
                        Ok(v) => Ok(
                            map_vec(
                                v,
                                crate::sum4_fourth,
                                Ghost(|e: E4| Sum4::<E, E2, E3, E4>::Fourth(e)),
                            ),
                        ),
                        Err(e) => Err(e),
                    },
                }
            };
        let new_evolve = move |s: &(S, S2, S3, S4), e: &Sum4<E, E2, E3, E4>| -> (r: (S, S2, S3, S4))
            requires
                clone_faithful::<S>(),
                clone_faithful::<S2>(),
                clone_faithful::<S3>(),
                clone_faithful::<S4>(),
            ensures
                r == combined_evolve4(em1@, em2@, em3@, em4@)(*s, *e),
            {
                match e {
                    Sum4::First(ev) => (e1(&s.0, ev), s.1.clone(), s.2.clone(), s.3.clone()),
                    Sum4::Second(ev) => (s.0.clone(), e2(&s.1, ev), s.2.clone(), s.3.clone()),
                    Sum4::Third(ev) => (s.0.clone(), s.1.clone(), e3(&s.2, ev), s.3.clone()),
                    Sum4::Fourth(ev) => (s.0.clone(), s.1.clone(), s.2.clone(), e4(&s.3, ev)),
                }
            };
        let new_initial = move || -> (r: (S, S2, S3, S4))
            ensures
                r == (iv1@, iv2@, iv3@, iv4@),
            { (i1(), i2(), i3(), i4()) };
        Decider {
            decide: new_decide,
            evolve: new_evolve,
            initial_state: new_initial,
            decide_model: Ghost(combined_decide4(dm1@, dm2@, dm3@, dm4@)),
            evolve_model: Ghost(combined_evolve4(em1@, em2@, em3@, em4@)),
            initial_model: Ghost((iv1@, iv2@, iv3@, iv4@)),
        }
    }
}

/// The decision model of five combined deciders: partitioned dispatch over
/// the five variants; see [`combined_decide`].
pub open spec fn combined_decide5<C, C2, C3, C4, C5, S, S2, S3, S4, S5, E, E2, E3, E4, E5, Error>(
    m1: spec_fn(C, S) -> Result<Seq<E>, Error>,
    m2: spec_fn(C2, S2) -> Result<Seq<E2>, Error>,
    m3: spec_fn(C3, S3) -> Result<Seq<E3>, Error>,
    m4: spec_fn(C4, S4) -> Result<Seq<E4>, Error>,
    m5: spec_fn(C5, S5) -> Result<Seq<E5>, Error>,
) -> spec_fn(Sum5<C, C2, C3, C4, C5>, (S, S2, S3, S4, S5)) -> Result<Seq<Sum5<E, E2, E3, E4, E5>>, Error> {
    |c: Sum5<C, C2, C3, C4, C5>, s: (S, S2, S3, S4, S5)|
        match c {
            Sum5::First(c) => match m1(c, s.0) {
                Ok(es) => Ok(es.map_values(|e: E| Sum5::<E, E2, E3, E4, E5>::First(e))),
                Err(e) => Err(e),
            },
            Sum5::Second(c) => match m2(c, s.1) {
                Ok(es) => Ok(es.map_values(|e: E2| Sum5::<E, E2, E3, E4, E5>::Second(e))),
                Err(e) => Err(e),
            },
            Sum5::Third(c) => match m3(c, s.2) {
                Ok(es) => Ok(es.map_values(|e: E3| Sum5::<E, E2, E3, E4, E5>::Third(e))),
                Err(e) => Err(e),
            },
            Sum5::Fourth(c) => match m4(c, s.3) {
                Ok(es) => Ok(es.map_values(|e: E4| Sum5::<E, E2, E3, E4, E5>::Fourth(e))),
                Err(e) => Err(e),
            },
            Sum5::Fifth(c) => match m5(c, s.4) {
                Ok(es) => Ok(es.map_values(|e: E5| Sum5::<E, E2, E3, E4, E5>::Fifth(e))),
                Err(e) => Err(e),
            },
        }
}

/// The evolution model of five combined deciders: the addressed slot
/// evolves, every other slot is copied through unchanged; see
/// [`combined_evolve`].
pub open spec fn combined_evolve5<S, S2, S3, S4, S5, E, E2, E3, E4, E5>(
    m1: spec_fn(S, E) -> S,
    m2: spec_fn(S2, E2) -> S2,
    m3: spec_fn(S3, E3) -> S3,
    m4: spec_fn(S4, E4) -> S4,
    m5: spec_fn(S5, E5) -> S5,
) -> spec_fn((S, S2, S3, S4, S5), Sum5<E, E2, E3, E4, E5>) -> (S, S2, S3, S4, S5) {
    |s: (S, S2, S3, S4, S5), e: Sum5<E, E2, E3, E4, E5>|
        match e {
            Sum5::First(ev) => (m1(s.0, ev), s.1, s.2, s.3, s.4),
            Sum5::Second(ev) => (s.0, m2(s.1, ev), s.2, s.3, s.4),
            Sum5::Third(ev) => (s.0, s.1, m3(s.2, ev), s.3, s.4),
            Sum5::Fourth(ev) => (s.0, s.1, s.2, m4(s.3, ev), s.4),
            Sum5::Fifth(ev) => (s.0, s.1, s.2, s.3, m5(s.4, ev)),
        }
}

impl<C, S, E, Error, FD, FE, FI> Decider<C, S, E, Error, FD, FE, FI> where
    FD: Fn(&C, &S) -> Result<Vec<E>, Error>,
    FE: Fn(&S, &E) -> S,
    FI: Fn() -> S,
{
    /// Combines five deciders into one bigger decider with partitioned
    /// dispatch over the five variants.
    pub fn combine5<C2, S2, E2, FD2, FE2, FI2, C3, S3, E3, FD3, FE3, FI3, C4, S4, E4, FD4, FE4, FI4, C5, S5, E5, FD5, FE5, FI5>(
        self,
        decider2: Decider<C2, S2, E2, Error, FD2, FE2, FI2>,
        decider3: Decider<C3, S3, E3, Error, FD3, FE3, FI3>,
        decider4: Decider<C4, S4, E4, Error, FD4, FE4, FI4>,
        decider5: Decider<C5, S5, E5, Error, FD5, FE5, FI5>,
    ) -> (r: Decider<
        Sum5<C, C2, C3, C4, C5>,
        (S, S2, S3, S4, S5),
        Sum5<E, E2, E3, E4, E5>,
        Error,
        impl Fn(&Sum5<C, C2, C3, C4, C5>, &(S, S2, S3, S4, S5)) -> Result<Vec<Sum5<E, E2, E3, E4, E5>>, Error>,
        impl Fn(&(S, S2, S3, S4, S5), &Sum5<E, E2, E3, E4, E5>) -> (S, S2, S3, S4, S5),
        impl Fn() -> (S, S2, S3, S4, S5),
    >) where
        FD2: Fn(&C2, &S2) -> Result<Vec<E2>, Error>,
        FE2: Fn(&S2, &E2) -> S2,
        FI2: Fn() -> S2,
        FD3: Fn(&C3, &S3) -> Result<Vec<E3>, Error>,
        FE3: Fn(&S3, &E3) -> S3,
        FI3: Fn() -> S3,
        FD4: Fn(&C4, &S4) -> Result<Vec<E4>, Error>,
        FE4: Fn(&S4, &E4) -> S4,
        FI4: Fn() -> S4,
        FD5: Fn(&C5, &S5) -> Result<Vec<E5>, Error>,
        FE5: Fn(&S5, &E5) -> S5,
        FI5: Fn() -> S5,
        S: Clone,
        S2: Clone,
        S3: Clone,
        S4: Clone,
        S5: Clone,
        requires
            self.wf(),
            decider2.wf(),
            decider3.wf(),
            decider4.wf(),
            decider5.wf(),
            clone_faithful::<S>(),
            clone_faithful::<S2>(),
            clone_faithful::<S3>(),
            clone_faithful::<S4>(),
            clone_faithful::<S5>(),
        ensures
            r.wf(),
            r.decide_model@ == combined_decide5(self.decide_model@, decider2.decide_model@, decider3.decide_model@, decider4.decide_model@, decider5.decide_model@),
            r.evolve_model@ == combined_evolve5(self.evolve_model@, decider2.evolve_model@, decider3.evolve_model@, decider4.evolve_model@, decider5.evolve_model@),
            r.initial_model@ == (self.initial_model@, decider2.initial_model@, decider3.initial_model@, decider4.initial_model@, decider5.initial_model@),
    {
        let Decider {
            decide: d1,
            evolve: e1,
            initial_state: i1,
            decide_model: dm1,
            evolve_model: em1,
            initial_model: iv1,
        } = self;
        let Decider {
            decide: d2,
            evolve: e2,
            initial_state: i2,
            decide_model: dm2,
            evolve_model: em2,
            initial_model: iv2,
        } = decider2;
        let Decider {
            decide: d3,
            evolve: e3,
            initial_state: i3,
            decide_model: dm3,
            evolve_model: em3,
            initial_model: iv3,
        } = decider3;
        let Decider {
            decide: d4,
            evolve: e4,
            initial_state: i4,
            decide_model: dm4,
            evolve_model: em4,
            initial_model: iv4,
        } = decider4;
        let Decider {
            decide: d5,
            evolve: e5,
            initial_state: i5,
            decide_model: dm5,
            evolve_model: em5,
            initial_model: iv5,
        } = decider5;
        let new_decide = move |c: &Sum5<C, C2, C3, C4, C5>, s: &(S, S2, S3, S4, S5)| -> (r: Result<Vec<Sum5<E, E2, E3, E4, E5>>, Error>)
            ensures
                res_seq(r) == combined_decide5(dm1@, dm2@, dm3@, dm4@, dm5@)(*c, *s),
            {
                match c {
                    Sum5::First(c) => match d1(c, &s.0) {
                        Ok(v) => Ok(
                            map_vec(
                                v,
                                crate::sum5_first,
                                Ghost(|e: E| Sum5::<E, E2, E3, E4, E5>::First(e)),
                            ),
                        ),
                        Err(e) => Err(e),
                    },
                    Sum5::Second(c) => match d2(c, &s.1) {
                        Ok(v) => Ok(
                            map_vec(
                                v,
                                crate::sum5_second,
                                Ghost(|e: E2| Sum5::<E, E2, E3, E4, E5>::Second(e)),
                            ),
                        ),
                        Err(e) => Err(e),
                    },
                    Sum5::Third(c) => match d3(c, &s.2) {
                        Ok(v) => Ok(
                            map_vec(
                                v,
                                crate::sum5_third,
                                Ghost(|e: E3| Sum5::<E, E2, E3, E4, E5>::Third(e)),
                            ),
                        ),
                        Err(e) => Err(e),
                    },
                    Sum5::Fourth(c) => match d4(c, &s.3) {
                        Ok(v) => Ok(
                            map_vec(
                                v,
                                crate::sum5_fourth,
                                Ghost(|e: E4| Sum5::<E, E2, E3, E4, E5>::Fourth(e)),
                            ),
                        ),
                        Err(e) => Err(e),
                    },
                    Sum5::Fifth(c) => match d5(c, &s.4) {
                        Ok(v) => Ok(
                            map_vec(
                                v,
                                crate::sum5_fifth,
                                Ghost(|e: E5| Sum5::<E, E2, E3, E4, E5>::Fifth(e)),
                            ),
                        ),
                        Err(e) => Err(e),
                    },
                }
            };
        let new_evolve = move |s: &(S, S2, S3, S4, S5), e: &Sum5<E, E2, E3, E4, E5>| -> (r: (S, S2, S3, S4, S5))
            requires
                clone_faithful::<S>(),
                clone_faithful::<S2>(),
                clone_faithful::<S3>(),
                clone_faithful::<S4>(),
                clone_faithful::<S5>(),
            ensures
                r == combined_evolve5(em1@, em2@, em3@, em4@, em5@)(*s, *e),
            {
                match e {
                    Sum5::First(ev) => (e1(&s.0, ev), s.1.clone(), s.2.clone(), s.3.clone(), s.4.clone()),
                    Sum5::Second(ev) => (s.0.clone(), e2(&s.1, ev), s.2.clone(), s.3.clone(), s.4.clone()),
                    Sum5::Third(ev) => (s.0.clone(), s.1.clone(), e3(&s.2, ev), s.3.clone(), s.4.clone()),
                    Sum5::Fourth(ev) => (s.0.clone(), s.1.clone(), s.2.clone(), e4(&s.3, ev), s.4.clone()),
                    Sum5::Fifth(ev) => (s.0.clone(), s.1.clone(), s.2.clone(), s.3.clone(), e5(&s.4, ev)),
                }
            };
        let new_initial = move || -> (r: (S, S2, S3, S4, S5))
            ensures
                r == (iv1@, iv2@, iv3@, iv4@, iv5@),
            { (i1(), i2(), i3(), i4(), i5()) };
        Decider {
            decide: new_decide,
            evolve: new_evolve,
            initial_state: new_initial,
            decide_model: Ghost(combined_decide5(dm1@, dm2@, dm3@, dm4@, dm5@)),
            evolve_model: Ghost(combined_evolve5(em1@, em2@, em3@, em4@, em5@)),
            initial_model: Ghost((iv1@, iv2@, iv3@, iv4@, iv5@)),
        }
    }
}

/// The decision model of six combined deciders: partitioned dispatch over
/// the six variants; see [`combined_decide`].
pub open spec fn combined_decide6<C, C2, C3, C4, C5, C6, S, S2, S3, S4, S5, S6, E, E2, E3, E4, E5, E6, Error>(
    m1: spec_fn(C, S) -> Result<Seq<E>, Error>,
    m2: spec_fn(C2, S2) -> Result<Seq<E2>, Error>,
    m3: spec_fn(C3, S3) -> Result<Seq<E3>, Error>,
    m4: spec_fn(C4, S4) -> Result<Seq<E4>, Error>,
    m5: spec_fn(C5, S5) -> Result<Seq<E5>, Error>,
    m6: spec_fn(C6, S6) -> Result<Seq<E6>, Error>,
) -> spec_fn(Sum6<C, C2, C3, C4, C5, C6>, (S, S2, S3, S4, S5, S6)) -> Result<Seq<Sum6<E, E2, E3, E4, E5, E6>>, Error> {
    |c: Sum6<C, C2, C3, C4, C5, C6>, s: (S, S2, S3, S4, S5, S6)|
        match c {
            Sum6::First(c) => match m1(c, s.0) {
                Ok(es) => Ok(es.map_values(|e: E| Sum6::<E, E2, E3, E4, E5, E6>::First(e))),
                Err(e) => Err(e),
            },
            Sum6::Second(c) => match m2(c, s.1) {
                Ok(es) => Ok(es.map_values(|e: E2| Sum6::<E, E2, E3, E4, E5, E6>::Second(e))),
                Err(e) => Err(e),
            },
            Sum6::Third(c) => match m3(c, s.2) {
                Ok(es) => Ok(es.map_values(|e: E3| Sum6::<E, E2, E3, E4, E5, E6>::Third(e))),
                Err(e) => Err(e),
            },
            Sum6::Fourth(c) => match m4(c, s.3) {
                Ok(es) => Ok(es.map_values(|e: E4| Sum6::<E, E2, E3, E4, E5, E6>::Fourth(e))),
                Err(e) => Err(e),
            },
            Sum6::Fifth(c) => match m5(c, s.4) {
                Ok(es) => Ok(es.map_values(|e: E5| Sum6::<E, E2, E3, E4, E5, E6>::Fifth(e))),
                Err(e) => Err(e),
            },
            Sum6::Sixth(c) => match m6(c, s.5) {
                Ok(es) => Ok(es.map_values(|e: E6| Sum6::<E, E2, E3, E4, E5, E6>::Sixth(e))),
                Err(e) => Err(e),
            },
        }
}

/// The evolution model of six combined deciders: the addressed slot
/// evolves, every other slot is copied through unchanged; see
/// [`combined_evolve`].
pub open spec fn combined_evolve6<S, S2, S3, S4, S5, S6, E, E2, E3, E4, E5, E6>(
    m1: spec_fn(S, E) -> S,
    m2: spec_fn(S2, E2) -> S2,
    m3: spec_fn(S3, E3) -> S3,
    m4: spec_fn(S4, E4) -> S4,
    m5: spec_fn(S5, E5) -> S5,
    m6: spec_fn(S6, E6) -> S6,
) -> spec_fn((S, S2, S3, S4, S5, S6), Sum6<E, E2, E3, E4, E5, E6>) -> (S, S2, S3, S4, S5, S6) {
    |s: (S, S2, S3, S4, S5, S6), e: Sum6<E, E2, E3, E4, E5, E6>|
        match e {
            Sum6::First(ev) => (m1(s.0, ev), s.1, s.2, s.3, s.4, s.5),
            Sum6::Second(ev) => (s.0, m2(s.1, ev), s.2, s.3, s.4, s.5),
            Sum6::Third(ev) => (s.0, s.1, m3(s.2, ev), s.3, s.4, s.5),
            Sum6::Fourth(ev) => (s.0, s.1, s.2, m4(s.3, ev), s.4, s.5),
            Sum6::Fifth(ev) => (s.0, s.1, s.2, s.3, m5(s.4, ev), s.5),
            Sum6::Sixth(ev) => (s.0, s.1, s.2, s.3, s.4, m6(s.5, ev)),
        }
}

impl<C, S, E, Error, FD, FE, FI> Decider<C, S, E, Error, FD, FE, FI> where
    FD: Fn(&C, &S) -> Result<Vec<E>, Error>,
    FE: Fn(&S, &E) -> S,
    FI: Fn() -> S,
{
    /// Combines six deciders into one bigger decider with partitioned
    /// dispatch over the six variants.
    pub fn combine6<C2, S2, E2, FD2, FE2, FI2, C3, S3, E3, FD3, FE3, FI3, C4, S4, E4, FD4, FE4, FI4, C5, S5, E5, FD5, FE5, FI5, C6, S6, E6, FD6, FE6, FI6>(
        self,
        decider2: Decider<C2, S2, E2, Error, FD2, FE2, FI2>,
        decider3: Decider<C3, S3, E3, Error, FD3, FE3, FI3>,
        decider4: Decider<C4, S4, E4, Error, FD4, FE4, FI4>,
        decider5: Decider<C5, S5, E5, Error, FD5, FE5, FI5>,
        decider6: Decider<C6, S6, E6, Error, FD6, FE6, FI6>,
    ) -> (r: Decider<
        Sum6<C, C2, C3, C4, C5, C6>,
        (S, S2, S3, S4, S5, S6),
        Sum6<E, E2, E3, E4, E5, E6>,
        Error,
        impl Fn(&Sum6<C, C2, C3, C4, C5, C6>, &(S, S2, S3, S4, S5, S6)) -> Result<Vec<Sum6<E, E2, E3, E4, E5, E6>>, Error>,
        impl Fn(&(S, S2, S3, S4, S5, S6), &Sum6<E, E2, E3, E4, E5, E6>) -> (S, S2, S3, S4, S5, S6),
        impl Fn() -> (S, S2, S3, S4, S5, S6),
    >) where
        FD2: Fn(&C2, &S2) -> Result<Vec<E2>, Error>,
        FE2: Fn(&S2, &E2) -> S2,
        FI2: Fn() -> S2,
        FD3: Fn(&C3, &S3) -> Result<Vec<E3>, Error>,
        FE3: Fn(&S3, &E3) -> S3,
        FI3: Fn() -> S3,
        FD4: Fn(&C4, &S4) -> Result<Vec<E4>, Error>,
        FE4: Fn(&S4, &E4) -> S4,
        FI4: Fn() -> S4,
        FD5: Fn(&C5, &S5) -> Result<Vec<E5>, Error>,
        FE5: Fn(&S5, &E5) -> S5,
        FI5: Fn() -> S5,
        FD6: Fn(&C6, &S6) -> Result<Vec<E6>, Error>,
        FE6: Fn(&S6, &E6) -> S6,
        FI6: Fn() -> S6,
        S: Clone,
        S2: Clone,
        S3: Clone,
        S4: Clone,
        S5: Clone,
        S6: Clone,
        requires
            self.wf(),
            decider2.wf(),
            decider3.wf(),
            decider4.wf(),
            decider5.wf(),
            decider6.wf(),
            clone_faithful::<S>(),
            clone_faithful::<S2>(),
            clone_faithful::<S3>(),
            clone_faithful::<S4>(),
            clone_faithful::<S5>(),
            clone_faithful::<S6>(),
        ensures
            r.wf(),
            r.decide_model@ == combined_decide6(self.decide_model@, decider2.decide_model@, decider3.decide_model@, decider4.decide_model@, decider5.decide_model@, decider6.decide_model@),
            r.evolve_model@ == combined_evolve6(self.evolve_model@, decider2.evolve_model@, decider3.evolve_model@, decider4.evolve_model@, decider5.evolve_model@, decider6.evolve_model@),
            r.initial_model@ == (self.initial_model@, decider2.initial_model@, decider3.initial_model@, decider4.initial_model@, decider5.initial_model@, decider6.initial_model@),
    {
        let Decider {
            decide: d1,
            evolve: e1,
            initial_state: i1,
            decide_model: dm1,
            evolve_model: em1,
            initial_model: iv1,
        } = self;
        let Decider {
            decide: d2,
            evolve: e2,
            initial_state: i2,
            decide_model: dm2,
            evolve_model: em2,
            initial_model: iv2,
        } = decider2;
        let Decider {
            decide: d3,
            evolve: e3,
            initial_state: i3,
            decide_model: dm3,
            evolve_model: em3,
            initial_model: iv3,
        } = decider3;
        let Decider {
            decide: d4,
            evolve: e4,
            initial_state: i4,
            decide_model: dm4,
            evolve_model: em4,
            initial_model: iv4,
        } = decider4;
        let Decider {
            decide: d5,
            evolve: e5,
            initial_state: i5,
            decide_model: dm5,
            evolve_model: em5,
            initial_model: iv5,
        } = decider5;
        let Decider {
            decide: d6,
            evolve: e6,
            initial_state: i6,
            decide_model: dm6,
            evolve_model: em6,
            initial_model: iv6,
        } = decider6;
        let new_decide = move |c: &Sum6<C, C2, C3, C4, C5, C6>, s: &(S, S2, S3, S4, S5, S6)| -> (r: Result<Vec<Sum6<E, E2, E3, E4, E5, E6>>, Error>)
            ensures
                res_seq(r) == combined_decide6(dm1@, dm2@, dm3@, dm4@, dm5@, dm6@)(*c, *s),
            {
                match c {
                    Sum6::First(c) => match d1(c, &s.0) {
                        Ok(v) => Ok(
                            map_vec(
                                v,
                                crate::sum6_first,
                                Ghost(|e: E| Sum6::<E, E2, E3, E4, E5, E6>::First(e)),
                            ),
                        ),
                        Err(e) => Err(e),
                    },
                    Sum6::Second(c) => match d2(c, &s.1) {
                        Ok(v) => Ok(
                            map_vec(
                                v,
                                crate::sum6_second,
                                Ghost(|e: E2| Sum6::<E, E2, E3, E4, E5, E6>::Second(e)),
                            ),
                        ),
                        Err(e) => Err(e),
                    },
                    Sum6::Third(c) => match d3(c, &s.2) {
                        Ok(v) => Ok(
                            map_vec(
                                v,
                                crate::sum6_third,
                                Ghost(|e: E3| Sum6::<E, E2, E3, E4, E5, E6>::Third(e)),
                            ),
                        ),
                        Err(e) => Err(e),
                    },
                    Sum6::Fourth(c) => match d4(c, &s.3) {
                        Ok(v) => Ok(
                            map_vec(
                                v,
                                crate::sum6_fourth,
                                Ghost(|e: E4| Sum6::<E, E2, E3, E4, E5, E6>::Fourth(e)),
                            ),
                        ),
                        Err(e) => Err(e),
                    },
                    Sum6::Fifth(c) => match d5(c, &s.4) {
                        Ok(v) => Ok(
                            map_vec(
                                v,
                                crate::sum6_fifth,
                                Ghost(|e: E5| Sum6::<E, E2, E3, E4, E5, E6>::Fifth(e)),
                            ),
                        ),
                        Err(e) => Err(e),
                    },
                    Sum6::Sixth(c) => match d6(c, &s.5) {
                        Ok(v) => Ok(
                            map_vec(
                                v,
                                crate::sum6_sixth,
                                Ghost(|e: E6| Sum6::<E, E2, E3, E4, E5, E6>::Sixth(e)),
                            ),
                        ),
                        Err(e) => Err(e),
                    },
                }
            };
        let new_evolve = move |s: &(S, S2, S3, S4, S5, S6), e: &Sum6<E, E2, E3, E4, E5, E6>| -> (r: (S, S2, S3, S4, S5, S6))
            requires
                clone_faithful::<S>(),
                clone_faithful::<S2>(),
                clone_faithful::<S3>(),
                clone_faithful::<S4>(),
                clone_faithful::<S5>(),
                clone_faithful::<S6>(),
            ensures
                r == combined_evolve6(em1@, em2@, em3@, em4@, em5@, em6@)(*s, *e),
            {
                match e {
                    Sum6::First(ev) => (e1(&s.0, ev), s.1.clone(), s.2.clone(), s.3.clone(), s.4.clone(), s.5.clone()),
                    Sum6::Second(ev) => (s.0.clone(), e2(&s.1, ev), s.2.clone(), s.3.clone(), s.4.clone(), s.5.clone()),
                    Sum6::Third(ev) => (s.0.clone(), s.1.clone(), e3(&s.2, ev), s.3.clone(), s.4.clone(), s.5.clone()),
                    Sum6::Fourth(ev) => (s.0.clone(), s.1.clone(), s.2.clone(), e4(&s.3, ev), s.4.clone(), s.5.clone()),
                    Sum6::Fifth(ev) => (s.0.clone(), s.1.clone(), s.2.clone(), s.3.clone(), e5(&s.4, ev), s.5.clone()),
                    Sum6::Sixth(ev) => (s.0.clone(), s.1.clone(), s.2.clone(), s.3.clone(), s.4.clone(), e6(&s.5, ev)),
                }
            };
        let new_initial = move || -> (r: (S, S2, S3, S4, S5, S6))
            ensures
                r == (iv1@, iv2@, iv3@, iv4@, iv5@, iv6@),
            { (i1(), i2(), i3(), i4(), i5(), i6()) };
        Decider {
            decide: new_decide,
            evolve: new_evolve,
            initial_state: new_initial,
            decide_model: Ghost(combined_decide6(dm1@, dm2@, dm3@, dm4@, dm5@, dm6@)),
            evolve_model: Ghost(combined_evolve6(em1@, em2@, em3@, em4@, em5@, em6@)),
            initial_model: Ghost((iv1@, iv2@, iv3@, iv4@, iv5@, iv6@)),
        }
    }
}

/// Deciding is deterministic: any two outcomes of the decision function on the
/// same command and state carry the same events or the same error.
pub proof fn lemma_decide_deterministic<C, S, E, Error, FD, FE, FI>(
    d: &Decider<C, S, E, Error, FD, FE, FI>,
    c: &C,
    s: &S,
    r1: Result<Vec<E>, Error>,
    r2: Result<Vec<E>, Error>,
) where FD: Fn(&C, &S) -> Result<Vec<E>, Error>, FE: Fn(&S, &E) -> S, FI: Fn() -> S
    requires
        d.wf(),
        call_ensures(d.decide, (c, s), r1),
        call_ensures(d.decide, (c, s), r2),
    ensures
        res_seq(r1) == res_seq(r2),
{
}

/// Evolution is a pure total function: every call is allowed and any two
/// outcomes on the same state and event are the same state.
pub proof fn lemma_evolve_deterministic<C, S, E, Error, FD, FE, FI>(
    d: &Decider<C, S, E, Error, FD, FE, FI>,
    s: &S,
    e: &E,
    r1: S,
    r2: S,
) where FD: Fn(&C, &S) -> Result<Vec<E>, Error>, FE: Fn(&S, &E) -> S, FI: Fn() -> S
    requires
        d.wf(),
        call_ensures(d.evolve, (s, e), r1),
        call_ensures(d.evolve, (s, e), r2),
    ensures
        r1 == r2,
        call_requires(d.evolve, (s, e)),
{
}

/// Fold consistency: computing a new state from no state equals folding the
/// evolution model over the events decided in the initial state, starting at
/// the initial state; and computing new events from no events equals deciding
/// directly in the initial state.
pub proof fn lemma_fold_consistency<C, S, E, Error, FD, FE, FI>(
    d: &Decider<C, S, E, Error, FD, FE, FI>,
    c: C,
) where FD: Fn(&C, &S) -> Result<Vec<E>, Error>, FE: Fn(&S, &E) -> S, FI: Fn() -> S
    requires
        d.wf(),
    ensures
        d.new_state_model(None, c) == (match (d.decide_model@)(c, d.initial_model@) {
            Ok(es) => Ok::<S, Error>(evolve_all(d.evolve_model@, d.initial_model@, es)),
            Err(e) => Err(e),
        }),
        d.new_events_model(Seq::<E>::empty(), c) == (d.decide_model@)(c, d.initial_model@),
{
}

} // verus!
