//! Application shell that binds a saga to an action-publisher port.

use vstd::prelude::*;

use crate::res_seq;
use crate::saga::ActionComputation;

verus! {

/// Action-publisher port: publishes actions to some external system and
/// reports which of them were published successfully.
pub trait ActionPublisher<A, Error>: Sized {
    /// What publishing returns, as a function of the publisher pre-state.  A
    /// verified implementation overrides this; the default leaves the model
    /// unspecified.
    open spec fn publish_result(&self, actions: Seq<A>) -> Result<Seq<A>, Error> {
        arbitrary()
    }

    /// The publisher state after publishing.
    open spec fn publish_state(&self, actions: Seq<A>) -> Self {
        arbitrary()
    }

    /// Publishes the actions, returning either the actions that were
    /// successfully published or an error.
    fn publish(&mut self, action: &[A]) -> (r: Result<Vec<A>, Error>)
        ensures
            res_seq(r) == old(self).publish_result(action@),
            *final(self) == old(self).publish_state(action@),
    ;
}

/// Saga manager: delegates to an [`ActionComputation`] to react to an action
/// result with new actions, and to an [`ActionPublisher`] to publish them.
pub struct SagaManager<A, AR, Publisher, Sg, Error> where
    Publisher: ActionPublisher<A, Error>,
    Sg: ActionComputation<AR, A>,
{
    action_publisher: Publisher,
    saga: Sg,
    _marker: core::marker::PhantomData<(A, AR, Error)>,
}

impl<A, AR, Publisher, Sg, Error> ActionComputation<AR, A> for SagaManager<
    A,
    AR,
    Publisher,
    Sg,
    Error,
> where Publisher: ActionPublisher<A, Error>, Sg: ActionComputation<AR, A> {
    open spec fn actions_wf(&self) -> bool {
        self.saga_spec().actions_wf()
    }

    open spec fn new_actions_model(&self, event: AR) -> Seq<A> {
        self.saga_spec().new_actions_model(event)
    }

    fn compute_new_actions(&self, event: &AR) -> (r: Vec<A>) {
        self.saga.compute_new_actions(event)
    }
}

impl<A, AR, Publisher, Sg, Error> SagaManager<A, AR, Publisher, Sg, Error> where
    Publisher: ActionPublisher<A, Error>,
    Sg: ActionComputation<AR, A>,
 {
    /// The publisher the saga manager currently holds.
    pub closed spec fn publisher_spec(self) -> Publisher {
        self.action_publisher
    }

    /// The saga the saga manager holds.
    pub closed spec fn saga_spec(self) -> Sg {
        self.saga
    }

    /// The saga manager's computation agrees with its model.
    pub open spec fn wf(self) -> bool {
        self.saga_spec().actions_wf()
    }

    /// Creates a new instance of [`SagaManager`].
    pub fn new(action_publisher: Publisher, saga: Sg) -> (r: Self)
        ensures
            r.publisher_spec() == action_publisher,
            r.saga_spec() == saga,
    {
        SagaManager { action_publisher, saga, _marker: core::marker::PhantomData }
    }

    /// Handles the action result: computes the follow-up actions the saga
    /// reacts with and publishes them, returning what the publisher reports
    /// as successfully published, or its error unchanged.
    pub fn handle(&mut self, action_result: &AR) -> (r: Result<Vec<A>, Error>)
        requires
            old(self).wf(),
        ensures
            final(self).saga_spec() == old(self).saga_spec(),
            final(self).wf(),
            ({
                let new_actions = old(self).saga_spec().new_actions_model(*action_result);
                &&& res_seq(r) == old(self).publisher_spec().publish_result(new_actions)
                &&& final(self).publisher_spec() == old(self).publisher_spec().publish_state(
                    new_actions,
                )
            }),
    {
        let new_actions = self.saga.compute_new_actions(action_result);
        self.action_publisher.publish(new_actions.as_slice())
    }
}

} // verus!
