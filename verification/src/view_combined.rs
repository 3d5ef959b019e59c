//! Free-standing combination of two views.

use vstd::prelude::*;

use crate::clone_faithful;
use crate::decider::combined_evolve;
use crate::view::View;
use crate::Sum;

verus! {

/// Combines two views into one view over the sum of the event types with
/// partitioned dispatch; the free-function form of [`View::combine`].
pub fn combine<S1, E1, S2, E2, FE1, FI1, FE2, FI2>(
    view1: View<S1, E1, FE1, FI1>,
    view2: View<S2, E2, FE2, FI2>,
) -> (r: View<
    (S1, S2),
    Sum<E1, E2>,
    impl Fn(&(S1, S2), &Sum<E1, E2>) -> (S1, S2),
    impl Fn() -> (S1, S2),
>) where
    FE1: Fn(&S1, &E1) -> S1,
    FI1: Fn() -> S1,
    FE2: Fn(&S2, &E2) -> S2,
    FI2: Fn() -> S2,
    S1: Clone,
    S2: Clone,

    requires
        view1.wf(),
        view2.wf(),
        clone_faithful::<S1>(),
        clone_faithful::<S2>(),
    ensures
        r.wf(),
        r.evolve_model@ == combined_evolve(view1.evolve_model@, view2.evolve_model@),
        r.initial_model@ == (view1.initial_model@, view2.initial_model@),
{
    view1.combine(view2)
}

} // verus!
