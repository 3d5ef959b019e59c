use std::collections::HashMap;

use fmodel_rust::materialized_view::{MaterializedView, ViewStateRepository};
use fmodel_rust::view::View;
use fmodel_rust::Identifier;

#[derive(Debug, Clone, PartialEq)]
pub enum OrderEvent {
    Created(OrderCreatedEvent),
    Updated(OrderUpdatedEvent),
    Cancelled(OrderCancelledEvent),
}

#[derive(Debug, Clone, PartialEq)]
pub struct OrderCreatedEvent {
    pub order_id: u32,
    pub customer_name: String,
    pub items: Vec<String>,
}

#[derive(Debug, Clone, PartialEq)]
pub struct OrderUpdatedEvent {
    pub order_id: u32,
    pub updated_items: Vec<String>,
}

#[derive(Debug, Clone, PartialEq)]
pub struct OrderCancelledEvent {
    pub order_id: u32,
}

impl Identifier for OrderEvent {
    fn identifier(&self) -> String {
        match self {
            OrderEvent::Created(c) => c.order_id.to_string(),
            OrderEvent::Updated(c) => c.order_id.to_string(),
            OrderEvent::Cancelled(c) => c.order_id.to_string(),
        }
    }
}

#[derive(Debug, Clone, PartialEq)]
pub struct OrderViewState {
    pub order_id: u32,
    pub customer_name: String,
    pub items: Vec<String>,
    pub is_cancelled: bool,
}

#[derive(Debug, PartialEq)]
pub enum MaterializedViewError {
    FetchState(String),
    SaveState(String),
}

fn view() -> View<
    OrderViewState,
    OrderEvent,
    impl Fn(&OrderViewState, &OrderEvent) -> OrderViewState,
    impl Fn() -> OrderViewState,
> {
    View::new(
        |state: &OrderViewState, event: &OrderEvent| {
            let mut new_state = state.clone();
            match event {
                OrderEvent::Created(evt) => {
                    new_state.order_id = evt.order_id;
                    new_state.customer_name = evt.customer_name.to_owned();
                    new_state.items = evt.items.to_owned();
                }
                OrderEvent::Updated(evt) => {
                    new_state.items = evt.updated_items.to_owned();
                }
                OrderEvent::Cancelled(_) => {
                    new_state.is_cancelled = true;
                }
            }
            new_state
        },
        || OrderViewState {
            order_id: 0,
            customer_name: "".to_string(),
            items: Vec::new(),
            is_cancelled: false,
        },
    )
}

struct InMemoryViewOrderStateRepository {
    states: HashMap<u32, OrderViewState>,
}

impl InMemoryViewOrderStateRepository {
    fn new() -> Self {
        InMemoryViewOrderStateRepository {
            states: HashMap::new(),
        }
    }
}

// Implementation of [ViewStateRepository] for [InMemoryViewOrderStateRepository]
impl ViewStateRepository<OrderEvent, OrderViewState, MaterializedViewError>
    for InMemoryViewOrderStateRepository
{
    fn fetch_state(
        &self,
        event: &OrderEvent,
    ) -> Result<Option<OrderViewState>, MaterializedViewError> {
        Ok(self
            .states
            .get(&event.identifier().parse::<u32>().unwrap())
            .cloned())
    }

    fn save(&mut self, state: &OrderViewState) -> Result<OrderViewState, MaterializedViewError> {
        self.states.insert(state.order_id, state.clone());
        Ok(state.clone())
    }
}

#[test]
fn materialized_view_test_test() {
    let repository = InMemoryViewOrderStateRepository::new();
    let mut materialized_view = MaterializedView::new(repository, view());

    for order_id in [1u32, 2u32] {
        let event = OrderEvent::Created(OrderCreatedEvent {
            order_id,
            customer_name: "John Doe".to_string(),
            items: vec!["Item 1".to_string(), "Item 2".to_string()],
        });
        let result = materialized_view.handle(&event);
        assert!(result.is_ok());
        assert_eq!(
            result.unwrap(),
            OrderViewState {
                order_id,
                customer_name: "John Doe".to_string(),
                items: vec!["Item 1".to_string(), "Item 2".to_string()],
                is_cancelled: false,
            }
        );
        let event = OrderEvent::Updated(OrderUpdatedEvent {
            order_id,
            updated_items: vec!["Item 3".to_string(), "Item 4".to_string()],
        });
        let result = materialized_view.handle(&event);
        assert!(result.is_ok());
        assert_eq!(
            result.unwrap(),
            OrderViewState {
                order_id,
                customer_name: "John Doe".to_string(),
                items: vec!["Item 3".to_string(), "Item 4".to_string()],
                is_cancelled: false,
            }
        );
        let event = OrderEvent::Cancelled(OrderCancelledEvent { order_id });
        let result = materialized_view.handle(&event);
        assert!(result.is_ok());
        assert_eq!(
            result.unwrap(),
            OrderViewState {
                order_id,
                customer_name: "John Doe".to_string(),
                items: vec!["Item 3".to_string(), "Item 4".to_string()],
                is_cancelled: true,
            }
        );
    }
}

#[test]
fn materialized_view_fetch_error_surfaces_unchanged() {
    // A repository whose fetch always fails: the error comes back as-is and
    // nothing is saved.
    struct FailingRepository;

    impl ViewStateRepository<OrderEvent, OrderViewState, MaterializedViewError>
        for FailingRepository
    {
        fn fetch_state(
            &self,
            _event: &OrderEvent,
        ) -> Result<Option<OrderViewState>, MaterializedViewError> {
            Err(MaterializedViewError::FetchState("not reachable".to_string()))
        }

        fn save(
            &mut self,
            state: &OrderViewState,
        ) -> Result<OrderViewState, MaterializedViewError> {
            Ok(state.clone())
        }
    }

    let mut materialized_view = MaterializedView::new(FailingRepository, view());
    let event = OrderEvent::Created(OrderCreatedEvent {
        order_id: 1,
        customer_name: "John Doe".to_string(),
        items: vec!["Item 1".to_string()],
    });
    let result = materialized_view.handle(&event);
    assert_eq!(
        result,
        Err(MaterializedViewError::FetchState("not reachable".to_string()))
    );
}
