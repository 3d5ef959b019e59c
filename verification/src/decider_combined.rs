//! Free-standing combination of two deciders.

use vstd::prelude::*;

use crate::clone_faithful;
use crate::decider::{combined_decide, combined_evolve, Decider};
use crate::Sum;

verus! {

/// Combines two deciders into one bigger decider with partitioned dispatch;
/// the free-function form of [`Decider::combine`].
pub fn combine<C1, S1, E1, C2, S2, E2, Error, FD1, FE1, FI1, FD2, FE2, FI2>(
    decider1: Decider<C1, S1, E1, Error, FD1, FE1, FI1>,
    decider2: Decider<C2, S2, E2, Error, FD2, FE2, FI2>,
) -> (r: Decider<
    Sum<C1, C2>,
    (S1, S2),
    Sum<E1, E2>,
    Error,
    impl Fn(&Sum<C1, C2>, &(S1, S2)) -> Result<Vec<Sum<E1, E2>>, Error>,
    impl Fn(&(S1, S2), &Sum<E1, E2>) -> (S1, S2),
    impl Fn() -> (S1, S2),
>) where
    FD1: Fn(&C1, &S1) -> Result<Vec<E1>, Error>,
    FE1: Fn(&S1, &E1) -> S1,
    FI1: Fn() -> S1,
    FD2: Fn(&C2, &S2) -> Result<Vec<E2>, Error>,
    FE2: Fn(&S2, &E2) -> S2,
    FI2: Fn() -> S2,
    S1: Clone,
    S2: Clone,

    requires
        decider1.wf(),
        decider2.wf(),
        clone_faithful::<S1>(),
        clone_faithful::<S2>(),
    ensures
        r.wf(),
        r.decide_model@ == combined_decide(decider1.decide_model@, decider2.decide_model@),
        r.evolve_model@ == combined_evolve(decider1.evolve_model@, decider2.evolve_model@),
        r.initial_model@ == (decider1.initial_model@, decider2.initial_model@),
{
    decider1.combine(decider2)
}

} // verus!
