use std::collections::HashMap;

use fmodel_rust::materialized_view::{MaterializedView, ViewStateRepository};
use fmodel_rust::view::View;
use fmodel_rust::Identifier;

#[derive(Debug, Clone, PartialEq)]
pub struct OrderCreatedEvent {
    pub order_id: u32,
    pub customer_name: String,
    pub items: Vec<String>,
}

#[derive(Debug, Clone, PartialEq)]
pub struct OrderUpdatedEvent {
    pub order_id: u32,
    pub updated_items: Vec<String>,
}

#[derive(Debug, Clone, PartialEq)]
pub struct OrderCancelledEvent {
    pub order_id: u32,
}

#[derive(Debug, PartialEq, Clone)]
pub struct ShipmentCreatedEvent {
    pub shipment_id: u32,
    pub order_id: u32,
    pub customer_name: String,
    pub items: Vec<String>,
}

#[derive(Debug, PartialEq, Clone)]
pub enum Event {
    ShipmentCreated(ShipmentCreatedEvent),
    OrderCreated(OrderCreatedEvent),
    OrderUpdated(OrderUpdatedEvent),
    OrderCancelled(OrderCancelledEvent),
}

impl Identifier for Event {
    fn identifier(&self) -> String {
        match self {
            Event::ShipmentCreated(evt) => evt.shipment_id.to_string(),
            Event::OrderCreated(evt) => evt.order_id.to_string(),
            Event::OrderUpdated(evt) => evt.order_id.to_string(),
            Event::OrderCancelled(evt) => evt.order_id.to_string(),
        }
    }
}

#[derive(Debug, Clone, PartialEq)]
pub struct OrderViewState {
    pub order_id: u32,
    pub customer_name: String,
    pub items: Vec<String>,
    pub is_cancelled: bool,
}

#[derive(Debug, Clone, PartialEq)]
pub struct ShipmentViewState {
    pub shipment_id: u32,
    pub order_id: u32,
    pub customer_name: String,
    pub items: Vec<String>,
}

#[derive(Debug, PartialEq)]
pub enum MaterializedViewError {
    FetchState(String),
    SaveState(String),
}

fn order_view() -> View<
    OrderViewState,
    Event,
    impl Fn(&OrderViewState, &Event) -> OrderViewState,
    impl Fn() -> OrderViewState,
> {
    View::new(
        |state: &OrderViewState, event: &Event| {
            let mut new_state = state.clone();
            match event {
                Event::OrderCreated(evt) => {
                    new_state.order_id = evt.order_id;
                    new_state.customer_name = evt.customer_name.to_owned();
                    new_state.items = evt.items.to_owned();
                }
                Event::OrderUpdated(evt) => {
                    new_state.items = evt.updated_items.to_owned();
                }
                Event::OrderCancelled(_) => {
                    new_state.is_cancelled = true;
                }
                Event::ShipmentCreated(_) => {}
            }
            new_state
        },
        || OrderViewState {
            order_id: 0,
            customer_name: "".to_string(),
            items: Vec::new(),
            is_cancelled: false,
        },
    )
}

fn shipment_view() -> View<
    ShipmentViewState,
    Event,
    impl Fn(&ShipmentViewState, &Event) -> ShipmentViewState,
    impl Fn() -> ShipmentViewState,
> {
    View::new(
        |state: &ShipmentViewState, event: &Event| {
            let mut new_state = state.clone();
            match event {
                Event::ShipmentCreated(evt) => {
                    new_state.shipment_id = evt.shipment_id;
                    new_state.order_id = evt.order_id;
                    new_state.customer_name = evt.customer_name.to_owned();
                    new_state.items = evt.items.to_owned();
                }
                Event::OrderCreated(_) => {}
                Event::OrderUpdated(_) => {}
                Event::OrderCancelled(_) => {}
            }
            new_state
        },
        || ShipmentViewState {
            shipment_id: 0,
            order_id: 0,
            customer_name: "".to_string(),
            items: Vec::new(),
        },
    )
}

struct InMemoryViewStateRepository {
    states: HashMap<u32, (OrderViewState, ShipmentViewState)>,
}

impl InMemoryViewStateRepository {
    fn new() -> Self {
        InMemoryViewStateRepository {
            states: HashMap::new(),
        }
    }
}

impl ViewStateRepository<Event, (OrderViewState, ShipmentViewState), MaterializedViewError>
    for InMemoryViewStateRepository
{
    fn fetch_state(
        &self,
        event: &Event,
    ) -> Result<Option<(OrderViewState, ShipmentViewState)>, MaterializedViewError> {
        Ok(self
            .states
            .get(&event.identifier().parse::<u32>().unwrap())
            .cloned())
    }

    fn save(
        &mut self,
        state: &(OrderViewState, ShipmentViewState),
    ) -> Result<(OrderViewState, ShipmentViewState), MaterializedViewError> {
        self.states.insert(state.0.order_id, state.clone());
        Ok(state.clone())
    }
}

#[test]
fn materialized_view_merged_test_test() {
    let combined_view = order_view().merge(shipment_view());
    let repository = InMemoryViewStateRepository::new();
    let mut materialized_view = MaterializedView::new(repository, combined_view);

    for order_id in [1u32, 2u32] {
        let event = Event::OrderCreated(OrderCreatedEvent {
            order_id,
            customer_name: "John Doe".to_string(),
            items: vec!["Item 1".to_string(), "Item 2".to_string()],
        });
        let result = materialized_view.handle(&event);
        assert!(result.is_ok());
        assert_eq!(
            result.unwrap(),
            (
                OrderViewState {
                    order_id,
                    customer_name: "John Doe".to_string(),
                    items: vec!["Item 1".to_string(), "Item 2".to_string()],
                    is_cancelled: false,
                },
                ShipmentViewState {
                    shipment_id: 0,
                    order_id: 0,
                    customer_name: "".to_string(),
                    items: Vec::new(),
                }
            )
        );
        let event = Event::OrderUpdated(OrderUpdatedEvent {
            order_id,
            updated_items: vec!["Item 3".to_string(), "Item 4".to_string()],
        });
        let result = materialized_view.handle(&event);
        assert!(result.is_ok());
        assert_eq!(
            result.unwrap(),
            (
                OrderViewState {
                    order_id,
                    customer_name: "John Doe".to_string(),
                    items: vec!["Item 3".to_string(), "Item 4".to_string()],
                    is_cancelled: false,
                },
                ShipmentViewState {
                    shipment_id: 0,
                    order_id: 0,
                    customer_name: "".to_string(),
                    items: Vec::new(),
                }
            )
        );
        let event = Event::OrderCancelled(OrderCancelledEvent { order_id });
        let result = materialized_view.handle(&event);
        assert!(result.is_ok());
        assert_eq!(
            result.unwrap(),
            (
                OrderViewState {
                    order_id,
                    customer_name: "John Doe".to_string(),
                    items: vec!["Item 3".to_string(), "Item 4".to_string()],
                    is_cancelled: true,
                },
                ShipmentViewState {
                    shipment_id: 0,
                    order_id: 0,
                    customer_name: "".to_string(),
                    items: Vec::new(),
                }
            )
        );
    }
}
