use fmodel_rust::specification::ViewTestSpecification;
use fmodel_rust::Sum;
use fmodel_rust::view::{View, ViewStateComputation};

#[derive(Debug, Clone, PartialEq)]
pub struct OrderCreatedEvent {
    pub order_id: u32,
    pub customer_name: String,
    pub items: Vec<String>,
}

#[derive(Debug, Clone, PartialEq)]
pub struct OrderUpdatedEvent {
    pub order_id: u32,
    pub updated_items: Vec<String>,
}

#[derive(Debug, Clone, PartialEq)]
pub struct OrderCancelledEvent {
    pub order_id: u32,
}

#[derive(Debug, PartialEq, Clone)]
pub struct ShipmentCreatedEvent {
    pub shipment_id: u32,
    pub order_id: u32,
    pub customer_name: String,
    pub items: Vec<String>,
}

#[derive(Debug, PartialEq, Clone)]
pub enum Event {
    ShipmentCreated(ShipmentCreatedEvent),
    OrderCreated(OrderCreatedEvent),
    OrderUpdated(OrderUpdatedEvent),
    OrderCancelled(OrderCancelledEvent),
}

#[derive(Debug, Clone, PartialEq)]
pub struct OrderViewState {
    pub order_id: u32,
    pub customer_name: String,
    pub items: Vec<String>,
    pub is_cancelled: bool,
}

#[derive(Debug, Clone, PartialEq)]
pub struct ShipmentViewState {
    pub shipment_id: u32,
    pub order_id: u32,
    pub customer_name: String,
    pub items: Vec<String>,
}

fn order_view() -> View<
    OrderViewState,
    Event,
    impl Fn(&OrderViewState, &Event) -> OrderViewState,
    impl Fn() -> OrderViewState,
> {
    View::new(
        |state: &OrderViewState, event: &Event| {
            let mut new_state = state.clone();
            match event {
                Event::OrderCreated(evt) => {
                    new_state.order_id = evt.order_id;
                    new_state.customer_name = evt.customer_name.to_owned();
                    new_state.items = evt.items.to_owned();
                }
                Event::OrderUpdated(evt) => {
                    new_state.items = evt.updated_items.to_owned();
                }
                Event::OrderCancelled(_) => {
                    new_state.is_cancelled = true;
                }
                Event::ShipmentCreated(_) => {}
            }
            new_state
        },
        || OrderViewState {
            order_id: 0,
            customer_name: "".to_string(),
            items: Vec::new(),
            is_cancelled: false,
        },
    )
}

fn shipment_view() -> View<
    ShipmentViewState,
    Event,
    impl Fn(&ShipmentViewState, &Event) -> ShipmentViewState,
    impl Fn() -> ShipmentViewState,
> {
    View::new(
        |state: &ShipmentViewState, event: &Event| {
            let mut new_state = state.clone();
            match event {
                Event::ShipmentCreated(evt) => {
                    new_state.shipment_id = evt.shipment_id;
                    new_state.order_id = evt.order_id;
                    new_state.customer_name = evt.customer_name.to_owned();
                    new_state.items = evt.items.to_owned();
                }
                Event::OrderCreated(_) => {}
                Event::OrderUpdated(_) => {}
                Event::OrderCancelled(_) => {}
            }
            new_state
        },
        || ShipmentViewState {
            shipment_id: 0,
            order_id: 0,
            customer_name: "".to_string(),
            items: Vec::new(),
        },
    )
}

fn merged_view() -> View<
    (OrderViewState, ShipmentViewState),
    Event,
    impl Fn(&(OrderViewState, ShipmentViewState), &Event) -> (OrderViewState, ShipmentViewState),
    impl Fn() -> (OrderViewState, ShipmentViewState),
> {
    order_view().merge(shipment_view())
}

#[test]
fn order_created_view_test() {
    let order_created_event = Event::OrderCreated(OrderCreatedEvent {
        order_id: 1,
        customer_name: "John Doe".to_string(),
        items: vec!["Item 1".to_string(), "Item 2".to_string()],
    });

    let result = ViewTestSpecification::default()
        .for_view(order_view())
        .given(vec![order_created_event.clone()])
        .then();
    assert_eq!(
        result,
        OrderViewState {
            order_id: 1,
            customer_name: "John Doe".to_string(),
            items: vec!["Item 1".to_string(), "Item 2".to_string()],
            is_cancelled: false,
        }
    );

    let result = ViewTestSpecification::default()
        .for_view(merged_view())
        .given(vec![order_created_event])
        .then();
    assert_eq!(
        result,
        (
            OrderViewState {
                order_id: 1,
                customer_name: "John Doe".to_string(),
                items: vec!["Item 1".to_string(), "Item 2".to_string()],
                is_cancelled: false,
            },
            ShipmentViewState {
                shipment_id: 0,
                order_id: 0,
                customer_name: "".to_string(),
                items: Vec::new(),
            },
        )
    );
}

#[test]
fn shipment_created_view_test() {
    let shipment_created_event = Event::ShipmentCreated(ShipmentCreatedEvent {
        shipment_id: 1,
        order_id: 1,
        customer_name: "John Doe".to_string(),
        items: vec!["Item 1".to_string(), "Item 2".to_string()],
    });

    let result = ViewTestSpecification::default()
        .for_view(merged_view())
        .given(vec![shipment_created_event.clone()])
        .then();
    assert_eq!(
        result,
        (
            OrderViewState {
                order_id: 0,
                customer_name: "".to_string(),
                items: Vec::new(),
                is_cancelled: false,
            },
            ShipmentViewState {
                shipment_id: 1,
                order_id: 1,
                customer_name: "John Doe".to_string(),
                items: vec!["Item 1".to_string(), "Item 2".to_string()],
            },
        )
    );
}

#[test]
fn merge_broadcasts_every_event_to_both_views() {
    // The merged view evolves both slots against the same event, exactly as
    // the component views would evolve each slot alone.
    let event = Event::ShipmentCreated(ShipmentCreatedEvent {
        shipment_id: 2,
        order_id: 2,
        customer_name: "John Doe".to_string(),
        items: vec!["Item 1".to_string()],
    });
    let merged = merged_view();
    let initial = (merged.initial_state)();
    let evolved = (merged.evolve)(&initial, &event);

    let order = order_view();
    let shipment = shipment_view();
    let order_alone = (order.evolve)(&(order.initial_state)(), &event);
    let shipment_alone = (shipment.evolve)(&(shipment.initial_state)(), &event);
    assert_eq!(evolved, (order_alone, shipment_alone));
}

#[test]
fn view_computes_state_over_many_events() {
    let events = vec![
        Event::OrderCreated(OrderCreatedEvent {
            order_id: 1,
            customer_name: "John Doe".to_string(),
            items: vec!["Item 1".to_string(), "Item 2".to_string()],
        }),
        Event::OrderUpdated(OrderUpdatedEvent {
            order_id: 1,
            updated_items: vec!["Item 3".to_string(), "Item 4".to_string()],
        }),
        Event::OrderCancelled(OrderCancelledEvent { order_id: 1 }),
    ];
    let view = order_view();
    let result = view.compute_new_state(None, &events);
    assert_eq!(
        result,
        OrderViewState {
            order_id: 1,
            customer_name: "John Doe".to_string(),
            items: vec!["Item 3".to_string(), "Item 4".to_string()],
            is_cancelled: true,
        }
    );
}

#[test]
fn free_combine_partitions_two_views() {
    // The combined view dispatches by event variant: the untouched slot keeps
    // its value.
    #[derive(Debug, Clone, PartialEq)]
    struct OrderOnly(OrderCreatedEvent);
    let order_only_view = View::new(
        |state: &u32, _event: &OrderOnly| state + 1,
        || 0u32,
    );
    let shipment_only_view = View::new(
        |state: &u32, _event: &ShipmentCreatedEvent| state + 10,
        || 0u32,
    );
    let combined = fmodel_rust::view_combined::combine(order_only_view, shipment_only_view);
    let initial = (combined.initial_state)();
    assert_eq!(initial, (0, 0));
    let after_first = (combined.evolve)(
        &initial,
        &Sum::First(OrderOnly(OrderCreatedEvent {
            order_id: 1,
            customer_name: "John Doe".to_string(),
            items: vec![],
        })),
    );
    assert_eq!(after_first, (1, 0));
    let after_second = (combined.evolve)(
        &after_first,
        &Sum::Second(ShipmentCreatedEvent {
            shipment_id: 1,
            order_id: 1,
            customer_name: "John Doe".to_string(),
            items: vec![],
        }),
    );
    assert_eq!(after_second, (1, 10));
}

#[test]
fn merge3_broadcasts_to_three_views() {
    let merged = order_view().merge3(shipment_view(), order_view());
    let event = Event::OrderCreated(OrderCreatedEvent {
        order_id: 1,
        customer_name: "John Doe".to_string(),
        items: vec!["Item 1".to_string()],
    });
    let result = ViewTestSpecification::default()
        .for_view(merged)
        .given(vec![event])
        .then();
    let expected_order = OrderViewState {
        order_id: 1,
        customer_name: "John Doe".to_string(),
        items: vec!["Item 1".to_string()],
        is_cancelled: false,
    };
    let expected_shipment = ShipmentViewState {
        shipment_id: 0,
        order_id: 0,
        customer_name: "".to_string(),
        items: Vec::new(),
    };
    assert_eq!(result, (expected_order.clone(), expected_shipment, expected_order));
}

#[derive(Debug, Clone, PartialEq)]
pub enum WrappedEvent {
    Wrapped(Event),
}

#[test]
fn map_event_translates_incoming_events() {
    // The mapped view projects wrapped events exactly as the original view
    // projects the unwrapped ones.
    let mapped = order_view().map_event(|w: &WrappedEvent| match w {
        WrappedEvent::Wrapped(e) => e.clone(),
    });
    let result = ViewTestSpecification::default()
        .for_view(mapped)
        .given(vec![WrappedEvent::Wrapped(Event::OrderCreated(
            OrderCreatedEvent {
                order_id: 3,
                customer_name: "John Doe".to_string(),
                items: vec!["Item 1".to_string()],
            },
        ))])
        .then();
    assert_eq!(
        result,
        OrderViewState {
            order_id: 3,
            customer_name: "John Doe".to_string(),
            items: vec!["Item 1".to_string()],
            is_cancelled: false,
        }
    );
}
