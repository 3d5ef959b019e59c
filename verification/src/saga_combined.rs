//! Free-standing combination of two sagas.

use vstd::prelude::*;

use crate::map_vec;
use crate::saga::Saga;
use crate::Sum;

verus! {

/// The reaction model of two cross-combined sagas: a first-variant action
/// result is handled by the saga that reacts to `AR1` and its actions come
/// back as second variants; symmetric for the second variant.
pub open spec fn cross_combined_react<AR1, A1, AR2, A2>(
    m1: spec_fn(AR2) -> Seq<A1>,
    m2: spec_fn(AR1) -> Seq<A2>,
) -> spec_fn(Sum<AR1, AR2>) -> Seq<Sum<A1, A2>> {
    |ar: Sum<AR1, AR2>|
        match ar {
            Sum::First(x) => m2(x).map_values(|a: A2| Sum::<A1, A2>::Second(a)),
            Sum::Second(y) => m1(y).map_values(|a: A1| Sum::<A1, A2>::First(a)),
        }
}

/// Combines two sagas into one saga over the sum of the action-result types,
/// with partitioned dispatch: `saga2` reacts to first-variant action results,
/// `saga1` to second-variant ones, and each saga's actions are wrapped in the
/// variant belonging to its action type.
pub fn combine<AR1, A1, AR2, A2, FR1, FR2>(
    saga1: Saga<AR2, A1, FR1>,
    saga2: Saga<AR1, A2, FR2>,
) -> (r: Saga<Sum<AR1, AR2>, Sum<A1, A2>, impl Fn(&Sum<AR1, AR2>) -> Vec<Sum<A1, A2>>>) where
    FR1: Fn(&AR2) -> Vec<A1>,
    FR2: Fn(&AR1) -> Vec<A2>,

    requires
        saga1.wf(),
        saga2.wf(),
    ensures
        r.wf(),
        r.react_model@ == cross_combined_react(saga1.react_model@, saga2.react_model@),
{
    let Saga { react: r1, react_model: m1 } = saga1;
    let Saga { react: r2, react_model: m2 } = saga2;
    let new_react = move |ar: &Sum<AR1, AR2>| -> (out: Vec<Sum<A1, A2>>)
        ensures
            out@ == cross_combined_react(m1@, m2@)(*ar),
        {
            match ar {
                Sum::First(x) => map_vec(
                    r2(x),
                    crate::sum_second,
                    Ghost(|a: A2| Sum::<A1, A2>::Second(a)),
                ),
                Sum::Second(y) => map_vec(
                    r1(y),
                    crate::sum_first,
                    Ghost(|a: A1| Sum::<A1, A2>::First(a)),
                ),
            }
        };
    Saga { react: new_react, react_model: Ghost(cross_combined_react(m1@, m2@)) }
}

} // verus!
