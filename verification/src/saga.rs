//! The pure reaction component and its merge algebra.

use vstd::prelude::*;

use crate::{fn1_obeys, map_vec, Sum, Sum3, Sum4, Sum5, Sum6};

verus! {

/// A reaction function is captured by a total mathematical model: every call
/// succeeds and every possible outcome agrees with the model.
pub open spec fn react_obeys<AR, A, FR: Fn(&AR) -> Vec<A>>(
    f: FR,
    m: spec_fn(AR) -> Seq<A>,
) -> bool {
    &&& forall|ar: &AR| #[trigger] call_requires(f, (ar,))
    &&& forall|ar: &AR, r: Vec<A>| #[trigger] call_ensures(f, (ar,), r) ==> r@ == m(*ar)
}

/// [`Saga`] represents the central point of control deciding what to execute
/// next (`A`, the action) based on what has happened (`AR`, the action
/// result).  It pairs the executable `react` function with its ghost
/// mathematical model; [`Saga::wf`] ties the two together and all contracts of
/// this module speak about the model.
#[verifier::reject_recursive_types(AR)]
#[verifier::reject_recursive_types(A)]
pub struct Saga<AR, A, FR> where FR: Fn(&AR) -> Vec<A> {
    /// Drives the next actions based on the action result.
    pub react: FR,
    /// The mathematical model of `react`.
    pub react_model: Ghost<spec_fn(AR) -> Seq<A>>,
}

/// The reaction model of two merged sagas: the first saga's actions, wrapped
/// as second variants, followed by the second saga's actions, wrapped as
/// first variants.
pub open spec fn merged_react<AR, A, A2>(
    m1: spec_fn(AR) -> Seq<A>,
    m2: spec_fn(AR) -> Seq<A2>,
) -> spec_fn(AR) -> Seq<Sum<A2, A>> {
    |ar: AR|
        m1(ar).map_values(|a: A| Sum::<A2, A>::Second(a)) + m2(ar).map_values(
            |a: A2| Sum::<A2, A>::First(a),
        )
}

/// The reaction model of two combined sagas: partitioned dispatch over the
/// sum of the action-result types.
pub open spec fn combined_react<AR, A, AR2, A2>(
    m1: spec_fn(AR) -> Seq<A>,
    m2: spec_fn(AR2) -> Seq<A2>,
) -> spec_fn(Sum<AR, AR2>) -> Seq<Sum<A2, A>> {
    |ar: Sum<AR, AR2>|
        match ar {
            Sum::First(x) => m1(x).map_values(|a: A| Sum::<A2, A>::Second(a)),
            Sum::Second(y) => m2(y).map_values(|a: A2| Sum::<A2, A>::First(a)),
        }
}

impl<AR, A, FR> Saga<AR, A, FR> where FR: Fn(&AR) -> Vec<A> {
    /// The executable reaction is total and agrees with the ghost model.
    pub open spec fn wf(self) -> bool {
        react_obeys(self.react, self.react_model@)
    }

    /// Packs a deterministic reaction function into a well-formed saga.
    pub fn new(react: FR) -> (r: Self)
        requires
            exists|m: spec_fn(AR) -> Seq<A>| react_obeys(react, m),
        ensures
            r.wf(),
            r.react == react,
            react_obeys(react, r.react_model@),
    {
        let ghost m = choose|m: spec_fn(AR) -> Seq<A>| react_obeys(react, m);
        Saga { react, react_model: Ghost(m) }
    }

    /// Maps the saga over the action type parameter: every reaction is
    /// translated by `f`, in order.
    pub fn map_action<A2, F>(self, f: F) -> (r: Saga<AR, A2, impl Fn(&AR) -> Vec<A2>>) where
        F: Fn(&A) -> A2 + Copy,

        requires
            self.wf(),
            exists|g: spec_fn(A) -> A2| fn1_obeys(f, g),
        ensures
            r.wf(),
            exists|g: spec_fn(A) -> A2|
                {
                    &&& #[trigger] fn1_obeys(f, g)
                    &&& r.react_model@ == (|ar: AR| self.react_model@(ar).map_values(g))
                },
    {
        let g: Ghost<spec_fn(A) -> A2> = Ghost(choose|g: spec_fn(A) -> A2| fn1_obeys(f, g));
        let Saga { react: re, react_model: m } = self;
        let new_react = move |ar: &AR| -> (out: Vec<A2>)
            ensures
                out@ == m@(*ar).map_values(g@),
            {
                let translate = move |a: A| -> (w: A2)
                    ensures
                        w == g@(a),
                    { f(&a) };
                map_vec(re(ar), translate, Ghost(g@))
            };
        Saga { react: new_react, react_model: Ghost((|ar: AR| m@(ar).map_values(g@))) }
    }

    /// Maps the saga over the action-result type parameter, contravariantly:
    /// `f` translates the new action-result representation into the old one.
    pub fn map_action_result<AR2, F>(self, f: F) -> (r: Saga<
        AR2,
        A,
        impl Fn(&AR2) -> Vec<A>,
    >) where F: Fn(&AR2) -> AR,
        requires
            self.wf(),
            exists|g: spec_fn(AR2) -> AR| fn1_obeys(f, g),
        ensures
            r.wf(),
            exists|g: spec_fn(AR2) -> AR|
                {
                    &&& #[trigger] fn1_obeys(f, g)
                    &&& r.react_model@ == (|ar2: AR2| self.react_model@(g(ar2)))
                },
    {
        let g: Ghost<spec_fn(AR2) -> AR> = Ghost(choose|g: spec_fn(AR2) -> AR| fn1_obeys(f, g));
        let Saga { react: re, react_model: m } = self;
        let new_react = move |ar2: &AR2| -> (out: Vec<A>)
            ensures
                out@ == m@(g@(*ar2)),
            {
                let ar = f(ar2);
                re(&ar)
            };
        Saga { react: new_react, react_model: Ghost((|ar2: AR2| m@(g@(ar2)))) }
    }

    /// Combines two sagas over different action-result types into one saga
    /// over the sum of the action-result types, with partitioned dispatch.
    /// Prefer [`Saga::merge`], which lets every saga observe every event.
    pub fn combine<AR2, A2, FR2>(self, saga2: Saga<AR2, A2, FR2>) -> (r: Saga<
        Sum<AR, AR2>,
        Sum<A2, A>,
        impl Fn(&Sum<AR, AR2>) -> Vec<Sum<A2, A>>,
    >) where FR2: Fn(&AR2) -> Vec<A2>,
        requires
            self.wf(),
            saga2.wf(),
        ensures
            r.wf(),
            r.react_model@ == combined_react(self.react_model@, saga2.react_model@),
    {
        let Saga { react: r1, react_model: m1 } = self;
        let Saga { react: r2, react_model: m2 } = saga2;
        let new_react = move |ar: &Sum<AR, AR2>| -> (out: Vec<Sum<A2, A>>)
            ensures
                out@ == combined_react(m1@, m2@)(*ar),
            {
                match ar {
                    Sum::First(x) => map_vec(
                        r1(x),
                        crate::sum_second,
                        Ghost(|a: A| Sum::<A2, A>::Second(a)),
                    ),
                    Sum::Second(y) => map_vec(
                        r2(y),
                        crate::sum_first,
                        Ghost(|a: A2| Sum::<A2, A>::First(a)),
                    ),
                }
            };
        Saga { react: new_react, react_model: Ghost(combined_react(m1@, m2@)) }
    }

    /// Merges two sagas over the same action-result type into one saga whose
    /// reactions are the first saga's actions followed by the second saga's
    /// actions, both observing every action result.
    pub fn merge<A2, FR2>(self, saga2: Saga<AR, A2, FR2>) -> (r: Saga<
        AR,
        Sum<A2, A>,
        impl Fn(&AR) -> Vec<Sum<A2, A>>,
    >) where FR2: Fn(&AR) -> Vec<A2>,
        requires
            self.wf(),
            saga2.wf(),
        ensures
            r.wf(),
            r.react_model@ == merged_react(self.react_model@, saga2.react_model@),
    {
        let Saga { react: r1, react_model: m1 } = self;
        let Saga { react: r2, react_model: m2 } = saga2;
        let new_react = move |ar: &AR| -> (out: Vec<Sum<A2, A>>)
            ensures
                out@ == merged_react(m1@, m2@)(*ar),
            {
                let mut first = map_vec(r1(ar), crate::sum_second, Ghost(|a: A| Sum::<A2, A>::Second(a)));
                let mut second = map_vec(r2(ar), crate::sum_first, Ghost(|a: A2| Sum::<A2, A>::First(a)));
                first.append(&mut second);
                first
            };
        Saga { react: new_react, react_model: Ghost(merged_react(m1@, m2@)) }
    }
}

/// The reaction model of three merged sagas: every saga observes every
/// action result, and the reactions are concatenated in saga order, each
/// wrapped in its own variant.
pub open spec fn merged_react3<AR, A, A2, A3>(
    m1: spec_fn(AR) -> Seq<A>,
    m2: spec_fn(AR) -> Seq<A2>,
    m3: spec_fn(AR) -> Seq<A3>,
) -> spec_fn(AR) -> Seq<Sum3<A, A2, A3>> {
    |ar: AR| m1(ar).map_values(|a: A| Sum3::<A, A2, A3>::First(a)) + m2(ar).map_values(|a: A2| Sum3::<A, A2, A3>::Second(a)) + m3(ar).map_values(|a: A3| Sum3::<A, A2, A3>::Third(a))
}

impl<AR, A, FR> Saga<AR, A, FR> where FR: Fn(&AR) -> Vec<A> {
    /// Merges three sagas over the same action-result type: every saga
    /// observes every action result and the reactions are concatenated in
    /// saga order.
    pub fn merge3<A2, FR2, A3, FR3>(
        self,
        saga2: Saga<AR, A2, FR2>,
        saga3: Saga<AR, A3, FR3>,
    ) -> (r: Saga<AR, Sum3<A, A2, A3>, impl Fn(&AR) -> Vec<Sum3<A, A2, A3>>>) where
        FR2: Fn(&AR) -> Vec<A2>,
        FR3: Fn(&AR) -> Vec<A3>,
        requires
            self.wf(),
            saga2.wf(),
            saga3.wf(),
        ensures
            r.wf(),
            r.react_model@ == merged_react3(self.react_model@, saga2.react_model@, saga3.react_model@),
    {
        let Saga { react: r1, react_model: m1 } = self;
        let Saga { react: r2, react_model: m2 } = saga2;
        let Saga { react: r3, react_model: m3 } = saga3;
        let new_react = move |ar: &AR| -> (out: Vec<Sum3<A, A2, A3>>)
            ensures
                out@ == merged_react3(m1@, m2@, m3@)(*ar),
            {
                let mut out = map_vec(
                    r1(ar),
                    crate::sum3_first,
                    Ghost(|a: A| Sum3::<A, A2, A3>::First(a)),
                );
                let mut part2 = map_vec(
                    r2(ar),
                    crate::sum3_second,
                    Ghost(|a: A2| Sum3::<A, A2, A3>::Second(a)),
                );
                out.append(&mut part2);
                let mut part3 = map_vec(
                    r3(ar),
                    crate::sum3_third,
                    Ghost(|a: A3| Sum3::<A, A2, A3>::Third(a)),
                );
                out.append(&mut part3);
                out
            };
        Saga { react: new_react, react_model: Ghost(merged_react3(m1@, m2@, m3@)) }
    }
}

/// The reaction model of four merged sagas: every saga observes every
/// action result, and the reactions are concatenated in saga order, each
/// wrapped in its own variant.
pub open spec fn merged_react4<AR, A, A2, A3, A4>(
    m1: spec_fn(AR) -> Seq<A>,
    m2: spec_fn(AR) -> Seq<A2>,
    m3: spec_fn(AR) -> Seq<A3>,
    m4: spec_fn(AR) -> Seq<A4>,
) -> spec_fn(AR) -> Seq<Sum4<A, A2, A3, A4>> {
    |ar: AR| m1(ar).map_values(|a: A| Sum4::<A, A2, A3, A4>::First(a)) + m2(ar).map_values(|a: A2| Sum4::<A, A2, A3, A4>::Second(a)) + m3(ar).map_values(|a: A3| Sum4::<A, A2, A3, A4>::Third(a)) + m4(ar).map_values(|a: A4| Sum4::<A, A2, A3, A4>::Fourth(a))
}

impl<AR, A, FR> Saga<AR, A, FR> where FR: Fn(&AR) -> Vec<A> {
    /// Merges four sagas over the same action-result type: every saga
    /// observes every action result and the reactions are concatenated in
    /// saga order.
    pub fn merge4<A2, FR2, A3, FR3, A4, FR4>(
        self,
        saga2: Saga<AR, A2, FR2>,
        saga3: Saga<AR, A3, FR3>,
        saga4: Saga<AR, A4, FR4>,
    ) -> (r: Saga<AR, Sum4<A, A2, A3, A4>, impl Fn(&AR) -> Vec<Sum4<A, A2, A3, A4>>>) where
        FR2: Fn(&AR) -> Vec<A2>,
        FR3: Fn(&AR) -> Vec<A3>,
        FR4: Fn(&AR) -> Vec<A4>,
        requires
            self.wf(),
            saga2.wf(),
            saga3.wf(),
            saga4.wf(),
        ensures
            r.wf(),
            r.react_model@ == merged_react4(self.react_model@, saga2.react_model@, saga3.react_model@, saga4.react_model@),
    {
        let Saga { react: r1, react_model: m1 } = self;
        let Saga { react: r2, react_model: m2 } = saga2;
        let Saga { react: r3, react_model: m3 } = saga3;
        let Saga { react: r4, react_model: m4 } = saga4;
        let new_react = move |ar: &AR| -> (out: Vec<Sum4<A, A2, A3, A4>>)
            ensures
                out@ == merged_react4(m1@, m2@, m3@, m4@)(*ar),
            {
                let mut out = map_vec(
                    r1(ar),
                    crate::sum4_first,
                    Ghost(|a: A| Sum4::<A, A2, A3, A4>::First(a)),
                );
                let mut part2 = map_vec(
                    r2(ar),
                    crate::sum4_second,
                    Ghost(|a: A2| Sum4::<A, A2, A3, A4>::Second(a)),
                );
                out.append(&mut part2);
                let mut part3 = map_vec(
                    r3(ar),
                    crate::sum4_third,
                    Ghost(|a: A3| Sum4::<A, A2, A3, A4>::Third(a)),
                );
                out.append(&mut part3);
                let mut part4 = map_vec(
                    r4(ar),
                    crate::sum4_fourth,
                    Ghost(|a: A4| Sum4::<A, A2, A3, A4>::Fourth(a)),
                );
                out.append(&mut part4);
                out
            };
        Saga { react: new_react, react_model: Ghost(merged_react4(m1@, m2@, m3@, m4@)) }
    }
}

/// The reaction model of five merged sagas: every saga observes every
/// action result, and the reactions are concatenated in saga order, each
/// wrapped in its own variant.
pub open spec fn merged_react5<AR, A, A2, A3, A4, A5>(
    m1: spec_fn(AR) -> Seq<A>,
    m2: spec_fn(AR) -> Seq<A2>,
    m3: spec_fn(AR) -> Seq<A3>,
    m4: spec_fn(AR) -> Seq<A4>,
    m5: spec_fn(AR) -> Seq<A5>,
) -> spec_fn(AR) -> Seq<Sum5<A, A2, A3, A4, A5>> {
    |ar: AR| m1(ar).map_values(|a: A| Sum5::<A, A2, A3, A4, A5>::First(a)) + m2(ar).map_values(|a: A2| Sum5::<A, A2, A3, A4, A5>::Second(a)) + m3(ar).map_values(|a: A3| Sum5::<A, A2, A3, A4, A5>::Third(a)) + m4(ar).map_values(|a: A4| Sum5::<A, A2, A3, A4, A5>::Fourth(a)) + m5(ar).map_values(|a: A5| Sum5::<A, A2, A3, A4, A5>::Fifth(a))
}

impl<AR, A, FR> Saga<AR, A, FR> where FR: Fn(&AR) -> Vec<A> {
    /// Merges five sagas over the same action-result type: every saga
    /// observes every action result and the reactions are concatenated in
    /// saga order.
    pub fn merge5<A2, FR2, A3, FR3, A4, FR4, A5, FR5>(
        self,
        saga2: Saga<AR, A2, FR2>,
        saga3: Saga<AR, A3, FR3>,
        saga4: Saga<AR, A4, FR4>,
        saga5: Saga<AR, A5, FR5>,
    ) -> (r: Saga<AR, Sum5<A, A2, A3, A4, A5>, impl Fn(&AR) -> Vec<Sum5<A, A2, A3, A4, A5>>>) where
        FR2: Fn(&AR) -> Vec<A2>,
        FR3: Fn(&AR) -> Vec<A3>,
        FR4: Fn(&AR) -> Vec<A4>,
        FR5: Fn(&AR) -> Vec<A5>,
        requires
            self.wf(),
            saga2.wf(),
            saga3.wf(),
            saga4.wf(),
            saga5.wf(),
        ensures
            r.wf(),
            r.react_model@ == merged_react5(self.react_model@, saga2.react_model@, saga3.react_model@, saga4.react_model@, saga5.react_model@),
    {
        let Saga { react: r1, react_model: m1 } = self;
        let Saga { react: r2, react_model: m2 } = saga2;
        let Saga { react: r3, react_model: m3 } = saga3;
        let Saga { react: r4, react_model: m4 } = saga4;
        let Saga { react: r5, react_model: m5 } = saga5;
        let new_react = move |ar: &AR| -> (out: Vec<Sum5<A, A2, A3, A4, A5>>)
            ensures
                out@ == merged_react5(m1@, m2@, m3@, m4@, m5@)(*ar),
            {
                let mut out = map_vec(
                    r1(ar),
                    crate::sum5_first,
                    Ghost(|a: A| Sum5::<A, A2, A3, A4, A5>::First(a)),
                );
                let mut part2 = map_vec(
                    r2(ar),
                    crate::sum5_second,
                    Ghost(|a: A2| Sum5::<A, A2, A3, A4, A5>::Second(a)),
                );
                out.append(&mut part2);
                let mut part3 = map_vec(
                    r3(ar),
                    crate::sum5_third,
                    Ghost(|a: A3| Sum5::<A, A2, A3, A4, A5>::Third(a)),
                );
                out.append(&mut part3);
                let mut part4 = map_vec(
                    r4(ar),
                    crate::sum5_fourth,
                    Ghost(|a: A4| Sum5::<A, A2, A3, A4, A5>::Fourth(a)),
                );
                out.append(&mut part4);
                let mut part5 = map_vec(
                    r5(ar),
                    crate::sum5_fifth,
                    Ghost(|a: A5| Sum5::<A, A2, A3, A4, A5>::Fifth(a)),
                );
                out.append(&mut part5);
                out
            };
        Saga { react: new_react, react_model: Ghost(merged_react5(m1@, m2@, m3@, m4@, m5@)) }
    }
}

/// The reaction model of six merged sagas: every saga observes every
/// action result, and the reactions are concatenated in saga order, each
/// wrapped in its own variant.
pub open spec fn merged_react6<AR, A, A2, A3, A4, A5, A6>(
    m1: spec_fn(AR) -> Seq<A>,
    m2: spec_fn(AR) -> Seq<A2>,
    m3: spec_fn(AR) -> Seq<A3>,
    m4: spec_fn(AR) -> Seq<A4>,
    m5: spec_fn(AR) -> Seq<A5>,
    m6: spec_fn(AR) -> Seq<A6>,
) -> spec_fn(AR) -> Seq<Sum6<A, A2, A3, A4, A5, A6>> {
    |ar: AR| m1(ar).map_values(|a: A| Sum6::<A, A2, A3, A4, A5, A6>::First(a)) + m2(ar).map_values(|a: A2| Sum6::<A, A2, A3, A4, A5, A6>::Second(a)) + m3(ar).map_values(|a: A3| Sum6::<A, A2, A3, A4, A5, A6>::Third(a)) + m4(ar).map_values(|a: A4| Sum6::<A, A2, A3, A4, A5, A6>::Fourth(a)) + m5(ar).map_values(|a: A5| Sum6::<A, A2, A3, A4, A5, A6>::Fifth(a)) + m6(ar).map_values(|a: A6| Sum6::<A, A2, A3, A4, A5, A6>::Sixth(a))
}

impl<AR, A, FR> Saga<AR, A, FR> where FR: Fn(&AR) -> Vec<A> {
    /// Merges six sagas over the same action-result type: every saga
    /// observes every action result and the reactions are concatenated in
    /// saga order.
    pub fn merge6<A2, FR2, A3, FR3, A4, FR4, A5, FR5, A6, FR6>(
        self,
        saga2: Saga<AR, A2, FR2>,
        saga3: Saga<AR, A3, FR3>,
        saga4: Saga<AR, A4, FR4>,
        saga5: Saga<AR, A5, FR5>,
        saga6: Saga<AR, A6, FR6>,
    ) -> (r: Saga<AR, Sum6<A, A2, A3, A4, A5, A6>, impl Fn(&AR) -> Vec<Sum6<A, A2, A3, A4, A5, A6>>>) where
        FR2: Fn(&AR) -> Vec<A2>,
        FR3: Fn(&AR) -> Vec<A3>,
        FR4: Fn(&AR) -> Vec<A4>,
        FR5: Fn(&AR) -> Vec<A5>,
        FR6: Fn(&AR) -> Vec<A6>,
        requires
            self.wf(),
            saga2.wf(),
            saga3.wf(),
            saga4.wf(),
            saga5.wf(),
            saga6.wf(),
        ensures
            r.wf(),
            r.react_model@ == merged_react6(self.react_model@, saga2.react_model@, saga3.react_model@, saga4.react_model@, saga5.react_model@, saga6.react_model@),
    {
        let Saga { react: r1, react_model: m1 } = self;
        let Saga { react: r2, react_model: m2 } = saga2;
        let Saga { react: r3, react_model: m3 } = saga3;
        let Saga { react: r4, react_model: m4 } = saga4;
        let Saga { react: r5, react_model: m5 } = saga5;
        let Saga { react: r6, react_model: m6 } = saga6;
        let new_react = move |ar: &AR| -> (out: Vec<Sum6<A, A2, A3, A4, A5, A6>>)
            ensures
                out@ == merged_react6(m1@, m2@, m3@, m4@, m5@, m6@)(*ar),
            {
                let mut out = map_vec(
                    r1(ar),
                    crate::sum6_first,
                    Ghost(|a: A| Sum6::<A, A2, A3, A4, A5, A6>::First(a)),
                );
                let mut part2 = map_vec(
                    r2(ar),
                    crate::sum6_second,
                    Ghost(|a: A2| Sum6::<A, A2, A3, A4, A5, A6>::Second(a)),
                );
                out.append(&mut part2);
                let mut part3 = map_vec(
                    r3(ar),
                    crate::sum6_third,
                    Ghost(|a: A3| Sum6::<A, A2, A3, A4, A5, A6>::Third(a)),
                );
                out.append(&mut part3);
                let mut part4 = map_vec(
                    r4(ar),
                    crate::sum6_fourth,
                    Ghost(|a: A4| Sum6::<A, A2, A3, A4, A5, A6>::Fourth(a)),
                );
                out.append(&mut part4);
                let mut part5 = map_vec(
                    r5(ar),
                    crate::sum6_fifth,
                    Ghost(|a: A5| Sum6::<A, A2, A3, A4, A5, A6>::Fifth(a)),
                );
                out.append(&mut part5);
                let mut part6 = map_vec(
                    r6(ar),
                    crate::sum6_sixth,
                    Ghost(|a: A6| Sum6::<A, A2, A3, A4, A5, A6>::Sixth(a)),
                );
                out.append(&mut part6);
                out
            };
        Saga { react: new_react, react_model: Ghost(merged_react6(m1@, m2@, m3@, m4@, m5@, m6@)) }
    }
}

/// Saga merge concatenation: for every action result, the merged reaction
/// model is exactly the first saga's reactions followed by the second saga's
/// reactions, each wrapped in its own variant.
pub proof fn lemma_saga_merge_concatenation<AR, A, A2>(
    m1: spec_fn(AR) -> Seq<A>,
    m2: spec_fn(AR) -> Seq<A2>,
    ar: AR,
)
    ensures
        merged_react(m1, m2)(ar) == m1(ar).map_values(|a: A| Sum::<A2, A>::Second(a)) + m2(
            ar,
        ).map_values(|a: A2| Sum::<A2, A>::First(a)),
        merged_react(m1, m2)(ar).len() == m1(ar).len() + m2(ar).len(),
{
}

/// Formalizes the action computation algorithm for the saga: one action
/// result maps to zero or more follow-up actions.
pub trait ActionComputation<AR, A> {
    /// The computation's executable part agrees with its model.
    spec fn actions_wf(&self) -> bool;

    /// The mathematical result of the computation.
    spec fn new_actions_model(&self, event: AR) -> Seq<A>;

    /// Computes new actions based on the action result.
    fn compute_new_actions(&self, event: &AR) -> (r: Vec<A>)
        requires
            self.actions_wf(),
        ensures
            r@ == self.new_actions_model(*event),
    ;
}

impl<AR, A, FR> ActionComputation<AR, A> for Saga<AR, A, FR> where FR: Fn(&AR) -> Vec<A> {
    open spec fn actions_wf(&self) -> bool {
        self.wf()
    }

    open spec fn new_actions_model(&self, event: AR) -> Seq<A> {
        (self.react_model@)(event)
    }

    fn compute_new_actions(&self, event: &AR) -> (r: Vec<A>) {
        (self.react)(event)
    }
}

} // verus!
