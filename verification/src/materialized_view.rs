//! Application shell that binds a view to a view-state repository port.

use vstd::prelude::*;

use crate::view::ViewStateComputation;

verus! {

/// Relies on std::slice::from_ref: converts a reference into a slice of
/// length one holding that value, without copying.
pub assume_specification<T>[ core::slice::from_ref ](item: &T) -> (r: &[T])
    ensures
        r@ =~= seq![*item],
;

/// View-state repository port: fetches and stores the projection state that
/// an event addresses.
pub trait ViewStateRepository<E, S, Error>: Sized {
    /// What fetching returns, as a function of the repository state.  A
    /// verified implementation overrides this; the default leaves the model
    /// unspecified.
    open spec fn state_model(&self, event: E) -> Result<Option<S>, Error> {
        arbitrary()
    }

    /// What saving returns, as a function of the repository pre-state.
    open spec fn save_result(&self, state: S) -> Result<S, Error> {
        arbitrary()
    }

    /// The repository state after saving.
    open spec fn save_state(&self, state: S) -> Self {
        arbitrary()
    }

    /// Fetches current state, based on the event.
    fn fetch_state(&self, event: &E) -> (r: Result<Option<S>, Error>)
        ensures
            r == self.state_model(*event),
    ;

    /// Saves the new state.
    fn save(&mut self, state: &S) -> (r: Result<S, Error>)
        ensures
            r == old(self).save_result(*state),
            *final(self) == old(self).save_state(*state),
    ;
}

/// Materialized view: delegates to a [`ViewStateComputation`] to compute the
/// new projection state based on the fetched state and the event, and to a
/// [`ViewStateRepository`] to fetch the current state and save the new one.
/// It represents the query side of the system.
pub struct MaterializedView<S, E, Repository, V, Error> where
    Repository: ViewStateRepository<E, S, Error>,
    V: ViewStateComputation<E, S>,
{
    repository: Repository,
    view: V,
    _marker: core::marker::PhantomData<(S, E, Error)>,
}

impl<S, E, Repository, V, Error> ViewStateComputation<E, S> for MaterializedView<
    S,
    E,
    Repository,
    V,
    Error,
> where Repository: ViewStateRepository<E, S, Error>, V: ViewStateComputation<E, S> {
    open spec fn view_wf(&self) -> bool {
        self.view_spec().view_wf()
    }

    open spec fn new_state_model(&self, current_state: Option<S>, events: Seq<E>) -> S {
        self.view_spec().new_state_model(current_state, events)
    }

    fn compute_new_state(&self, current_state: Option<S>, events: &[E]) -> (r: S) {
        self.view.compute_new_state(current_state, events)
    }
}

impl<S, E, Repository, V, Error> MaterializedView<S, E, Repository, V, Error> where
    Repository: ViewStateRepository<E, S, Error>,
    V: ViewStateComputation<E, S>,
 {
    /// The repository the materialized view currently holds.
    pub closed spec fn repository_spec(self) -> Repository {
        self.repository
    }

    /// The view the materialized view holds.
    pub closed spec fn view_spec(self) -> V {
        self.view
    }

    /// The materialized view's computation agrees with its model.
    pub open spec fn wf(self) -> bool {
        self.view_spec().view_wf()
    }

    /// Creates a new instance of [`MaterializedView`].
    pub fn new(repository: Repository, view: V) -> (r: Self)
        ensures
            r.repository_spec() == repository,
            r.view_spec() == view,
    {
        MaterializedView { repository, view, _marker: core::marker::PhantomData }
    }

    /// Handles the event: fetches the current projection state from the
    /// repository, evolves it by the event, and saves the new state.  A
    /// fetch error aborts the operation before anything is saved and
    /// surfaces unchanged.
    pub fn handle(&mut self, event: &E) -> (r: Result<S, Error>)
        requires
            old(self).wf(),
        ensures
            final(self).view_spec() == old(self).view_spec(),
            final(self).wf(),
            ({
                let fetched = old(self).repository_spec().state_model(*event);
                match fetched {
                    Err(e) => r == Err::<S, Error>(e) && *final(self) == *old(self),
                    Ok(state) => {
                        let new_state = old(self).view_spec().new_state_model(
                            state,
                            seq![*event],
                        );
                        &&& r == old(self).repository_spec().save_result(new_state)
                        &&& final(self).repository_spec() == old(
                            self,
                        ).repository_spec().save_state(new_state)
                    },
                }
            }),
    {
        let state = match self.repository.fetch_state(event) {
            Ok(s) => s,
            Err(e) => {
                return Err(e);
            },
        };
        let events = core::slice::from_ref(event);
        let new_state = self.view.compute_new_state(state, events);
        self.repository.save(&new_state)
    }
}

} // verus!
