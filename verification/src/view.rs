//! The pure event-handling (projection) component and its merge algebra.

use vstd::prelude::*;
use vstd::view::View as _;

use crate::decider::{combined_evolve, evolve_all, lemma_evolve_all_snoc};
use crate::{clone_faithful, fn0_obeys, fn1_obeys, fn2_obeys, Sum};

verus! {

/// [`View`] represents the event-handling algorithm that projects events into
/// denormalized query state.  It pairs two executable functions with their
/// ghost mathematical models:
///
/// - `evolve` computes the next projection state from the current state and
///   one event,
/// - `initial_state` produces the starting state.
///
/// [`View::wf`] states that each executable function is total and agrees with
/// its model; all contracts of this module speak about the models.
#[verifier::reject_recursive_types(S)]
#[verifier::reject_recursive_types(E)]
pub struct View<S, E, FE, FI> where FE: Fn(&S, &E) -> S, FI: Fn() -> S {
    /// The main state evolution algorithm.
    pub evolve: FE,
    /// The initial state.
    pub initial_state: FI,
    /// The mathematical model of `evolve`.
    pub evolve_model: Ghost<spec_fn(S, E) -> S>,
    /// The value `initial_state` returns.
    pub initial_model: Ghost<S>,
}

/// The evolution model of two merged views: broadcast dispatch.  Both slots
/// evolve against every incoming event.
pub open spec fn merged_evolve<S, S2, E>(
    m1: spec_fn(S, E) -> S,
    m2: spec_fn(S2, E) -> S2,
) -> spec_fn((S, S2), E) -> (S, S2) {
    |s: (S, S2), e: E| (m1(s.0, e), m2(s.1, e))
}

impl<S, E, FE, FI> View<S, E, FE, FI> where FE: Fn(&S, &E) -> S, FI: Fn() -> S {
    /// The executable functions are total and agree with the ghost models.
    pub open spec fn wf(self) -> bool {
        &&& fn2_obeys(self.evolve, self.evolve_model@)
        &&& fn0_obeys(self.initial_state, self.initial_model@)
    }

    /// Packs two deterministic functions into a well-formed view.
    pub fn new(evolve: FE, initial_state: FI) -> (r: Self)
        requires
            exists|m: spec_fn(S, E) -> S| fn2_obeys(evolve, m),
            exists|v: S| fn0_obeys(initial_state, v),
        ensures
            r.wf(),
            r.evolve == evolve,
            r.initial_state == initial_state,
            fn2_obeys(evolve, r.evolve_model@),
            fn0_obeys(initial_state, r.initial_model@),
    {
        let ghost em = choose|m: spec_fn(S, E) -> S| fn2_obeys(evolve, m);
        let ghost iv = choose|v: S| fn0_obeys(initial_state, v);
        View { evolve, initial_state, evolve_model: Ghost(em), initial_model: Ghost(iv) }
    }

    /// Maps the view over the state type parameter: `f1` reads the old state
    /// out of the new representation and `f2` writes it back.
    pub fn map_state<S2, F1, F2>(self, f1: F1, f2: F2) -> (r: View<
        S2,
        E,
        impl Fn(&S2, &E) -> S2,
        impl Fn() -> S2,
    >) where F1: Fn(&S2) -> S, F2: Fn(&S) -> S2 + Copy,
        requires
            self.wf(),
            exists|g: spec_fn(S2) -> S| fn1_obeys(f1, g),
            exists|g: spec_fn(S) -> S2| fn1_obeys(f2, g),
        ensures
            r.wf(),
            exists|g1: spec_fn(S2) -> S, g2: spec_fn(S) -> S2|
                {
                    &&& #[trigger] fn1_obeys(f1, g1)
                    &&& #[trigger] fn1_obeys(f2, g2)
                    &&& r.evolve_model@ == crate::decider::mapped_state_evolve(
                        self.evolve_model@,
                        g1,
                        g2,
                    )
                    &&& r.initial_model@ == g2(self.initial_model@)
                },
    {
        let g1: Ghost<spec_fn(S2) -> S> = Ghost(choose|g: spec_fn(S2) -> S| fn1_obeys(f1, g));
        let g2: Ghost<spec_fn(S) -> S2> = Ghost(choose|g: spec_fn(S) -> S2| fn1_obeys(f2, g));
        let View { evolve: ev, initial_state: ini, evolve_model: em, initial_model: iv } = self;
        let new_evolve = move |s2: &S2, e: &E| -> (out: S2)
            ensures
                out == crate::decider::mapped_state_evolve(em@, g1@, g2@)(*s2, *e),
            {
                let s = f1(s2);
                f2(&ev(&s, e))
            };
        let new_initial = move || -> (out: S2)
            ensures
                out == g2@(iv@),
            { f2(&ini()) };
        View {
            evolve: new_evolve,
            initial_state: new_initial,
            evolve_model: Ghost(crate::decider::mapped_state_evolve(em@, g1@, g2@)),
            initial_model: Ghost(g2@(iv@)),
        }
    }

    /// Maps the view over the event type parameter, contravariantly: `f`
    /// translates the new event representation into the old one.
    pub fn map_event<E2, F>(self, f: F) -> (r: View<S, E2, impl Fn(&S, &E2) -> S, FI>) where
        F: Fn(&E2) -> E,

        requires
            self.wf(),
            exists|g: spec_fn(E2) -> E| fn1_obeys(f, g),
        ensures
            r.wf(),
            r.initial_model@ == self.initial_model@,
            exists|g: spec_fn(E2) -> E|
                {
                    &&& #[trigger] fn1_obeys(f, g)
                    &&& r.evolve_model@ == crate::decider::mapped_event_evolve(
                        self.evolve_model@,
                        g,
                    )
                },
    {
        let g: Ghost<spec_fn(E2) -> E> = Ghost(choose|g: spec_fn(E2) -> E| fn1_obeys(f, g));
        let View { evolve: ev, initial_state: ini, evolve_model: em, initial_model: iv } = self;
        let new_evolve = move |s: &S, e2: &E2| -> (out: S)
            ensures
                out == crate::decider::mapped_event_evolve(em@, g@)(*s, *e2),
            {
                let e = f(e2);
                ev(s, &e)
            };
        View {
            evolve: new_evolve,
            initial_state: ini,
            evolve_model: Ghost(crate::decider::mapped_event_evolve(em@, g@)),
            initial_model: iv,
        }
    }

    /// Combines two views that handle different event types into one view over
    /// the sum of the event types, with partitioned dispatch: the slot
    /// addressed by the event's variant evolves, the other slot is copied
    /// through unchanged.  Prefer [`View::merge`], which lets every view
    /// observe every event.
    pub fn combine<S2, E2, FE2, FI2>(self, view2: View<S2, E2, FE2, FI2>) -> (r: View<
        (S, S2),
        Sum<E, E2>,
        impl Fn(&(S, S2), &Sum<E, E2>) -> (S, S2),
        impl Fn() -> (S, S2),
    >) where FE2: Fn(&S2, &E2) -> S2, FI2: Fn() -> S2, S: Clone, S2: Clone,
        requires
            self.wf(),
            view2.wf(),
            clone_faithful::<S>(),
            clone_faithful::<S2>(),
        ensures
            r.wf(),
            r.evolve_model@ == combined_evolve(self.evolve_model@, view2.evolve_model@),
            r.initial_model@ == (self.initial_model@, view2.initial_model@),
    {
        let View { evolve: e1, initial_state: i1, evolve_model: em1, initial_model: iv1 } = self;
        let View { evolve: e2, initial_state: i2, evolve_model: em2, initial_model: iv2 } = view2;
        let new_evolve = move |s: &(S, S2), e: &Sum<E, E2>| -> (out: (S, S2))
            requires
                clone_faithful::<S>(),
                clone_faithful::<S2>(),
            ensures
                out == combined_evolve(em1@, em2@)(*s, *e),
            {
                match e {
                    Sum::First(ev) => (e1(&s.0, ev), s.1.clone()),
                    Sum::Second(ev) => (s.0.clone(), e2(&s.1, ev)),
                }
            };
        let new_initial = move || -> (out: (S, S2))
            ensures
                out == (iv1@, iv2@),
            { (i1(), i2()) };
        View {
            evolve: new_evolve,
            initial_state: new_initial,
            evolve_model: Ghost(combined_evolve(em1@, em2@)),
            initial_model: Ghost((iv1@, iv2@)),
        }
    }

    /// Merges two views that handle the same event type into one view whose
    /// state is the pair of the component states, with broadcast dispatch:
    /// both slots evolve against every incoming event.
    pub fn merge<S2, FE2, FI2>(self, view2: View<S2, E, FE2, FI2>) -> (r: View<
        (S, S2),
        E,
        impl Fn(&(S, S2), &E) -> (S, S2),
        impl Fn() -> (S, S2),
    >) where FE2: Fn(&S2, &E) -> S2, FI2: Fn() -> S2,
        requires
            self.wf(),
            view2.wf(),
        ensures
            r.wf(),
            r.evolve_model@ == merged_evolve(self.evolve_model@, view2.evolve_model@),
            r.initial_model@ == (self.initial_model@, view2.initial_model@),
    {
        let View { evolve: e1, initial_state: i1, evolve_model: em1, initial_model: iv1 } = self;
        let View { evolve: e2, initial_state: i2, evolve_model: em2, initial_model: iv2 } = view2;
        let new_evolve = move |s: &(S, S2), e: &E| -> (out: (S, S2))
            ensures
                out == merged_evolve(em1@, em2@)(*s, *e),
            { (e1(&s.0, e), e2(&s.1, e)) };
        let new_initial = move || -> (out: (S, S2))
            ensures
                out == (iv1@, iv2@),
            { (i1(), i2()) };
        View {
            evolve: new_evolve,
            initial_state: new_initial,
            evolve_model: Ghost(merged_evolve(em1@, em2@)),
            initial_model: Ghost((iv1@, iv2@)),
        }
    }
}

/// Merge broadcast: the merged evolution model applies each component's
/// evolution to its own slot against the same event, for every state pair and
/// every event.
pub proof fn lemma_merge_broadcast<S, S2, E>(
    m1: spec_fn(S, E) -> S,
    m2: spec_fn(S2, E) -> S2,
    s: (S, S2),
    e: E,
)
    ensures
        merged_evolve(m1, m2)(s, e) == (m1(s.0, e), m2(s.1, e)),
{
}

/// The evolution model of three merged views: broadcast dispatch over all
/// three slots; see [`merged_evolve`].
pub open spec fn merged_evolve3<S, S2, S3, E>(
    m1: spec_fn(S, E) -> S,
    m2: spec_fn(S2, E) -> S2,
    m3: spec_fn(S3, E) -> S3,
) -> spec_fn((S, S2, S3), E) -> (S, S2, S3) {
    |s: (S, S2, S3), e: E| (m1(s.0, e), m2(s.1, e), m3(s.2, e))
}

impl<S, E, FE, FI> View<S, E, FE, FI> where FE: Fn(&S, &E) -> S, FI: Fn() -> S {
    /// Merges three views over the same event type into one view with
    /// broadcast dispatch: every slot evolves against every incoming event.
    pub fn merge3<S2, FE2, FI2, S3, FE3, FI3>(
        self,
        view2: View<S2, E, FE2, FI2>,
        view3: View<S3, E, FE3, FI3>,
    ) -> (r: View<
        (S, S2, S3),
        E,
        impl Fn(&(S, S2, S3), &E) -> (S, S2, S3),
        impl Fn() -> (S, S2, S3),
    >) where
        FE2: Fn(&S2, &E) -> S2,
        FI2: Fn() -> S2,
        FE3: Fn(&S3, &E) -> S3,
        FI3: Fn() -> S3,
        requires
            self.wf(),
            view2.wf(),
            view3.wf(),
        ensures
            r.wf(),
            r.evolve_model@ == merged_evolve3(self.evolve_model@, view2.evolve_model@, view3.evolve_model@),
            r.initial_model@ == (self.initial_model@, view2.initial_model@, view3.initial_model@),
    {
        let View { evolve: e1, initial_state: i1, evolve_model: em1, initial_model: iv1 } = self;
        let View { evolve: e2, initial_state: i2, evolve_model: em2, initial_model: iv2 } = view2;
        let View { evolve: e3, initial_state: i3, evolve_model: em3, initial_model: iv3 } = view3;
        let new_evolve = move |s: &(S, S2, S3), e: &E| -> (out: (S, S2, S3))
            ensures
                out == merged_evolve3(em1@, em2@, em3@)(*s, *e),
            { (e1(&s.0, e), e2(&s.1, e), e3(&s.2, e)) };
        let new_initial = move || -> (out: (S, S2, S3))
            ensures
                out == (iv1@, iv2@, iv3@),
            { (i1(), i2(), i3()) };
        View {
            evolve: new_evolve,
            initial_state: new_initial,
            evolve_model: Ghost(merged_evolve3(em1@, em2@, em3@)),
            initial_model: Ghost((iv1@, iv2@, iv3@)),
        }
    }
}

/// The evolution model of four merged views: broadcast dispatch over all
/// four slots; see [`merged_evolve`].
pub open spec fn merged_evolve4<S, S2, S3, S4, E>(
    m1: spec_fn(S, E) -> S,
    m2: spec_fn(S2, E) -> S2,
    m3: spec_fn(S3, E) -> S3,
    m4: spec_fn(S4, E) -> S4,
) -> spec_fn((S, S2, S3, S4), E) -> (S, S2, S3, S4) {
    |s: (S, S2, S3, S4), e: E| (m1(s.0, e), m2(s.1, e), m3(s.2, e), m4(s.3, e))
}

impl<S, E, FE, FI> View<S, E, FE, FI> where FE: Fn(&S, &E) -> S, FI: Fn() -> S {
    /// Merges four views over the same event type into one view with
    /// broadcast dispatch: every slot evolves against every incoming event.
    pub fn merge4<S2, FE2, FI2, S3, FE3, FI3, S4, FE4, FI4>(
        self,
        view2: View<S2, E, FE2, FI2>,
        view3: View<S3, E, FE3, FI3>,
        view4: View<S4, E, FE4, FI4>,
    ) -> (r: View<
        (S, S2, S3, S4),
        E,
        impl Fn(&(S, S2, S3, S4), &E) -> (S, S2, S3, S4),
        impl Fn() -> (S, S2, S3, S4),
    >) where
        FE2: Fn(&S2, &E) -> S2,
        FI2: Fn() -> S2,
        FE3: Fn(&S3, &E) -> S3,
        FI3: Fn() -> S3,
        FE4: Fn(&S4, &E) -> S4,
        FI4: Fn() -> S4,
        requires
            self.wf(),
            view2.wf(),
            view3.wf(),
            view4.wf(),
        ensures
            r.wf(),
            r.evolve_model@ == merged_evolve4(self.evolve_model@, view2.evolve_model@, view3.evolve_model@, view4.evolve_model@),
            r.initial_model@ == (self.initial_model@, view2.initial_model@, view3.initial_model@, view4.initial_model@),
    {
        let View { evolve: e1, initial_state: i1, evolve_model: em1, initial_model: iv1 } = self;
        let View { evolve: e2, initial_state: i2, evolve_model: em2, initial_model: iv2 } = view2;
        let View { evolve: e3, initial_state: i3, evolve_model: em3, initial_model: iv3 } = view3;
        let View { evolve: e4, initial_state: i4, evolve_model: em4, initial_model: iv4 } = view4;
        let new_evolve = move |s: &(S, S2, S3, S4), e: &E| -> (out: (S, S2, S3, S4))
            ensures
                out == merged_evolve4(em1@, em2@, em3@, em4@)(*s, *e),
            { (e1(&s.0, e), e2(&s.1, e), e3(&s.2, e), e4(&s.3, e)) };
        let new_initial = move || -> (out: (S, S2, S3, S4))
            ensures
                out == (iv1@, iv2@, iv3@, iv4@),
            { (i1(), i2(), i3(), i4()) };
        View {
            evolve: new_evolve,
            initial_state: new_initial,
            evolve_model: Ghost(merged_evolve4(em1@, em2@, em3@, em4@)),
            initial_model: Ghost((iv1@, iv2@, iv3@, iv4@)),
        }
    }
}

/// The evolution model of five merged views: broadcast dispatch over all
/// five slots; see [`merged_evolve`].
pub open spec fn merged_evolve5<S, S2, S3, S4, S5, E>(
    m1: spec_fn(S, E) -> S,
    m2: spec_fn(S2, E) -> S2,
    m3: spec_fn(S3, E) -> S3,
    m4: spec_fn(S4, E) -> S4,
    m5: spec_fn(S5, E) -> S5,
) -> spec_fn((S, S2, S3, S4, S5), E) -> (S, S2, S3, S4, S5) {
    |s: (S, S2, S3, S4, S5), e: E| (m1(s.0, e), m2(s.1, e), m3(s.2, e), m4(s.3, e), m5(s.4, e))
}

impl<S, E, FE, FI> View<S, E, FE, FI> where FE: Fn(&S, &E) -> S, FI: Fn() -> S {
    /// Merges five views over the same event type into one view with
    /// broadcast dispatch: every slot evolves against every incoming event.
    pub fn merge5<S2, FE2, FI2, S3, FE3, FI3, S4, FE4, FI4, S5, FE5, FI5>(
        self,
        view2: View<S2, E, FE2, FI2>,
        view3: View<S3, E, FE3, FI3>,
        view4: View<S4, E, FE4, FI4>,
        view5: View<S5, E, FE5, FI5>,
    ) -> (r: View<
        (S, S2, S3, S4, S5),
        E,
        impl Fn(&(S, S2, S3, S4, S5), &E) -> (S, S2, S3, S4, S5),
        impl Fn() -> (S, S2, S3, S4, S5),
    >) where
        FE2: Fn(&S2, &E) -> S2,
        FI2: Fn() -> S2,
        FE3: Fn(&S3, &E) -> S3,
        FI3: Fn() -> S3,
        FE4: Fn(&S4, &E) -> S4,
        FI4: Fn() -> S4,
        FE5: Fn(&S5, &E) -> S5,
        FI5: Fn() -> S5,
        requires
            self.wf(),
            view2.wf(),
            view3.wf(),
            view4.wf(),
            view5.wf(),
        ensures
            r.wf(),
            r.evolve_model@ == merged_evolve5(self.evolve_model@, view2.evolve_model@, view3.evolve_model@, view4.evolve_model@, view5.evolve_model@),
            r.initial_model@ == (self.initial_model@, view2.initial_model@, view3.initial_model@, view4.initial_model@, view5.initial_model@),
    {
        let View { evolve: e1, initial_state: i1, evolve_model: em1, initial_model: iv1 } = self;
        let View { evolve: e2, initial_state: i2, evolve_model: em2, initial_model: iv2 } = view2;
        let View { evolve: e3, initial_state: i3, evolve_model: em3, initial_model: iv3 } = view3;
        let View { evolve: e4, initial_state: i4, evolve_model: em4, initial_model: iv4 } = view4;
        let View { evolve: e5, initial_state: i5, evolve_model: em5, initial_model: iv5 } = view5;
        let new_evolve = move |s: &(S, S2, S3, S4, S5), e: &E| -> (out: (S, S2, S3, S4, S5))
            ensures
                out == merged_evolve5(em1@, em2@, em3@, em4@, em5@)(*s, *e),
            { (e1(&s.0, e), e2(&s.1, e), e3(&s.2, e), e4(&s.3, e), e5(&s.4, e)) };
        let new_initial = move || -> (out: (S, S2, S3, S4, S5))
            ensures
                out == (iv1@, iv2@, iv3@, iv4@, iv5@),
            { (i1(), i2(), i3(), i4(), i5()) };
        View {
            evolve: new_evolve,
            initial_state: new_initial,
            evolve_model: Ghost(merged_evolve5(em1@, em2@, em3@, em4@, em5@)),
            initial_model: Ghost((iv1@, iv2@, iv3@, iv4@, iv5@)),
        }
    }
}

/// The evolution model of six merged views: broadcast dispatch over all
/// six slots; see [`merged_evolve`].
pub open spec fn merged_evolve6<S, S2, S3, S4, S5, S6, E>(
    m1: spec_fn(S, E) -> S,
    m2: spec_fn(S2, E) -> S2,
    m3: spec_fn(S3, E) -> S3,
    m4: spec_fn(S4, E) -> S4,
    m5: spec_fn(S5, E) -> S5,
    m6: spec_fn(S6, E) -> S6,
) -> spec_fn((S, S2, S3, S4, S5, S6), E) -> (S, S2, S3, S4, S5, S6) {
    |s: (S, S2, S3, S4, S5, S6), e: E| (m1(s.0, e), m2(s.1, e), m3(s.2, e), m4(s.3, e), m5(s.4, e), m6(s.5, e))
}

impl<S, E, FE, FI> View<S, E, FE, FI> where FE: Fn(&S, &E) -> S, FI: Fn() -> S {
    /// Merges six views over the same event type into one view with
    /// broadcast dispatch: every slot evolves against every incoming event.
    pub fn merge6<S2, FE2, FI2, S3, FE3, FI3, S4, FE4, FI4, S5, FE5, FI5, S6, FE6, FI6>(
        self,
        view2: View<S2, E, FE2, FI2>,
        view3: View<S3, E, FE3, FI3>,
        view4: View<S4, E, FE4, FI4>,
        view5: View<S5, E, FE5, FI5>,
        view6: View<S6, E, FE6, FI6>,
    ) -> (r: View<
        (S, S2, S3, S4, S5, S6),
        E,
        impl Fn(&(S, S2, S3, S4, S5, S6), &E) -> (S, S2, S3, S4, S5, S6),
        impl Fn() -> (S, S2, S3, S4, S5, S6),
    >) where
        FE2: Fn(&S2, &E) -> S2,
        FI2: Fn() -> S2,
        FE3: Fn(&S3, &E) -> S3,
        FI3: Fn() -> S3,
        FE4: Fn(&S4, &E) -> S4,
        FI4: Fn() -> S4,
        FE5: Fn(&S5, &E) -> S5,
        FI5: Fn() -> S5,
        FE6: Fn(&S6, &E) -> S6,
        FI6: Fn() -> S6,
        requires
            self.wf(),
            view2.wf(),
            view3.wf(),
            view4.wf(),
            view5.wf(),
            view6.wf(),
        ensures
            r.wf(),
            r.evolve_model@ == merged_evolve6(self.evolve_model@, view2.evolve_model@, view3.evolve_model@, view4.evolve_model@, view5.evolve_model@, view6.evolve_model@),
            r.initial_model@ == (self.initial_model@, view2.initial_model@, view3.initial_model@, view4.initial_model@, view5.initial_model@, view6.initial_model@),
    {
        let View { evolve: e1, initial_state: i1, evolve_model: em1, initial_model: iv1 } = self;
        let View { evolve: e2, initial_state: i2, evolve_model: em2, initial_model: iv2 } = view2;
        let View { evolve: e3, initial_state: i3, evolve_model: em3, initial_model: iv3 } = view3;
        let View { evolve: e4, initial_state: i4, evolve_model: em4, initial_model: iv4 } = view4;
        let View { evolve: e5, initial_state: i5, evolve_model: em5, initial_model: iv5 } = view5;
        let View { evolve: e6, initial_state: i6, evolve_model: em6, initial_model: iv6 } = view6;
        let new_evolve = move |s: &(S, S2, S3, S4, S5, S6), e: &E| -> (out: (S, S2, S3, S4, S5, S6))
            ensures
                out == merged_evolve6(em1@, em2@, em3@, em4@, em5@, em6@)(*s, *e),
            { (e1(&s.0, e), e2(&s.1, e), e3(&s.2, e), e4(&s.3, e), e5(&s.4, e), e6(&s.5, e)) };
        let new_initial = move || -> (out: (S, S2, S3, S4, S5, S6))
            ensures
                out == (iv1@, iv2@, iv3@, iv4@, iv5@, iv6@),
            { (i1(), i2(), i3(), i4(), i5(), i6()) };
        View {
            evolve: new_evolve,
            initial_state: new_initial,
            evolve_model: Ghost(merged_evolve6(em1@, em2@, em3@, em4@, em5@, em6@)),
            initial_model: Ghost((iv1@, iv2@, iv3@, iv4@, iv5@, iv6@)),
        }
    }
}

/// Formalizes the state computation algorithm for the view: events are folded
/// into the current projection state.
pub trait ViewStateComputation<E, S> {
    /// The computation's executable part agrees with its model.
    spec fn view_wf(&self) -> bool;

    /// The mathematical result of the computation.
    spec fn new_state_model(&self, current_state: Option<S>, events: Seq<E>) -> S;

    /// Computes new state based on the current state and the events.
    fn compute_new_state(&self, current_state: Option<S>, events: &[E]) -> (r: S)
        requires
            self.view_wf(),
        ensures
            r == self.new_state_model(current_state, events@),
    ;
}

impl<S, E, FE, FI> ViewStateComputation<E, S> for View<S, E, FE, FI> where
    FE: Fn(&S, &E) -> S,
    FI: Fn() -> S,
 {
    open spec fn view_wf(&self) -> bool {
        self.wf()
    }

    /// Folds the evolution model over the events, starting from the given
    /// state or, when none is given, the initial state.
    open spec fn new_state_model(&self, current_state: Option<S>, events: Seq<E>) -> S {
        let s0 = match current_state {
            Some(s) => s,
            None => self.initial_model@,
        };
        evolve_all(self.evolve_model@, s0, events)
    }

    fn compute_new_state(&self, current_state: Option<S>, events: &[E]) -> (r: S) {
        let s0 = match current_state {
            Some(s) => s,
            None => (self.initial_state)(),
        };
        let ghost start = s0;
        let mut state = s0;
        let mut i: usize = 0;
        while i < events.len()
            invariant
                self.wf(),
                i <= events.len(),
                state == evolve_all(self.evolve_model@, start, events@.take(i as int)),
            decreases events.len() - i,
        {
            state = (self.evolve)(&state, &events[i]);
            proof {
                assert(events@.take(i + 1 as int) =~= events@.take(i as int).push(
                    events@[i as int],
                ));
                lemma_evolve_all_snoc(
                    self.evolve_model@,
                    start,
                    events@.take(i as int),
                    events@[i as int],
                );
            }
            i += 1;
        }
        proof {
            assert(events@.take(events@.len() as int) =~= events@);
        }
        state
    }
}

} // verus!
