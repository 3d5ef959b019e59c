use fmodel_rust::saga::{ActionComputation, Saga};
use fmodel_rust::{Sum, Sum3};

#[derive(Debug, Clone, PartialEq)]
pub enum OrderCommand {
    Create(CreateOrderCommand),
    Update(UpdateOrderCommand),
    Cancel(CancelOrderCommand),
}

#[derive(Debug, Clone, PartialEq)]
pub struct CreateOrderCommand {
    pub order_id: u32,
    pub customer_name: String,
    pub items: Vec<String>,
}

#[derive(Debug, Clone, PartialEq)]
pub struct UpdateOrderCommand {
    pub order_id: u32,
    pub new_items: Vec<String>,
}

#[derive(Debug, Clone, PartialEq)]
pub struct CancelOrderCommand {
    pub order_id: u32,
}

#[derive(Debug, Clone, PartialEq)]
pub enum OrderEvent {
    Created(OrderCreatedEvent),
    Updated(OrderUpdatedEvent),
    Cancelled(OrderCancelledEvent),
}

#[derive(Debug, Clone, PartialEq)]
pub struct OrderCreatedEvent {
    pub order_id: u32,
    pub customer_name: String,
    pub items: Vec<String>,
}

#[derive(Debug, Clone, PartialEq)]
pub struct OrderUpdatedEvent {
    pub order_id: u32,
    pub updated_items: Vec<String>,
}

#[derive(Debug, Clone, PartialEq)]
pub struct OrderCancelledEvent {
    pub order_id: u32,
}

#[derive(Debug, PartialEq, Clone)]
pub enum ShipmentCommand {
    Create(CreateShipmentCommand),
}

#[derive(Debug, PartialEq, Clone)]
pub struct CreateShipmentCommand {
    pub shipment_id: u32,
    pub order_id: u32,
    pub customer_name: String,
    pub items: Vec<String>,
}

#[derive(Debug, PartialEq, Clone)]
pub struct ShipmentCreatedEvent {
    pub shipment_id: u32,
    pub order_id: u32,
    pub customer_name: String,
    pub items: Vec<String>,
}

#[derive(Debug, PartialEq, Clone)]
pub enum Command {
    ShipmentCreate(CreateShipmentCommand),
    OrderCreate(CreateOrderCommand),
    OrderUpdate(UpdateOrderCommand),
    OrderCancel(CancelOrderCommand),
}

#[derive(Debug, PartialEq, Clone)]
pub enum Event {
    ShipmentCreated(ShipmentCreatedEvent),
    OrderCreated(OrderCreatedEvent),
    OrderUpdated(OrderUpdatedEvent),
    OrderCancelled(OrderCancelledEvent),
}

pub fn sum_to_command(command: &Sum<OrderCommand, ShipmentCommand>) -> Command {
    match command {
        Sum::First(c) => match c {
            OrderCommand::Create(c) => Command::OrderCreate(c.to_owned()),
            OrderCommand::Update(c) => Command::OrderUpdate(c.to_owned()),
            OrderCommand::Cancel(c) => Command::OrderCancel(c.to_owned()),
        },
        Sum::Second(c) => match c {
            ShipmentCommand::Create(c) => Command::ShipmentCreate(c.to_owned()),
        },
    }
}

fn order_saga() -> Saga<
    OrderEvent,
    ShipmentCommand,
    impl Fn(&OrderEvent) -> Vec<ShipmentCommand>,
> {
    Saga::new(|event: &OrderEvent| match event {
        OrderEvent::Created(evt) => {
            vec![ShipmentCommand::Create(CreateShipmentCommand {
                shipment_id: evt.order_id,
                order_id: evt.order_id,
                customer_name: evt.customer_name.to_owned(),
                items: evt.items.to_owned(),
            })]
        }
        OrderEvent::Updated(_) => {
            vec![]
        }
        OrderEvent::Cancelled(_) => {
            vec![]
        }
    })
}

fn order_saga_2() -> Saga<Event, ShipmentCommand, impl Fn(&Event) -> Vec<ShipmentCommand>> {
    Saga::new(|event: &Event| match event {
        Event::OrderCreated(evt) => {
            vec![ShipmentCommand::Create(CreateShipmentCommand {
                shipment_id: evt.order_id,
                order_id: evt.order_id,
                customer_name: evt.customer_name.to_owned(),
                items: evt.items.to_owned(),
            })]
        }
        Event::OrderUpdated(_) => {
            vec![]
        }
        Event::OrderCancelled(_) => {
            vec![]
        }
        Event::ShipmentCreated(_) => {
            vec![]
        }
    })
}

fn shipment_saga_2() -> Saga<Event, OrderCommand, impl Fn(&Event) -> Vec<OrderCommand>> {
    Saga::new(|event: &Event| match event {
        Event::ShipmentCreated(evt) => {
            vec![OrderCommand::Update(UpdateOrderCommand {
                order_id: evt.order_id,
                new_items: evt.items.to_owned(),
            })]
        }

        Event::OrderCreated(_) => {
            vec![]
        }
        Event::OrderUpdated(_) => {
            vec![]
        }
        Event::OrderCancelled(_) => {
            vec![]
        }
    })
}

#[test]
fn saga_test_test() {
    let order_saga = order_saga();
    let order_saga_2 = order_saga_2();
    let shipment_saga_2 = shipment_saga_2();
    let merged_saga = order_saga_2
        .merge(shipment_saga_2)
        .map_action(sum_to_command);

    let order_created_event = OrderEvent::Created(OrderCreatedEvent {
        order_id: 1,
        customer_name: "John Doe".to_string(),
        items: vec!["Item 1".to_string(), "Item 2".to_string()],
    });
    let commands = order_saga.compute_new_actions(&order_created_event);
    assert_eq!(
        commands,
        [ShipmentCommand::Create(CreateShipmentCommand {
            shipment_id: 1,
            order_id: 1,
            customer_name: "John Doe".to_string(),
            items: vec!["Item 1".to_string(), "Item 2".to_string()],
        })]
    );
    let order_created_event2 = Event::OrderCreated(OrderCreatedEvent {
        order_id: 1,
        customer_name: "John Doe".to_string(),
        items: vec!["Item 1".to_string(), "Item 2".to_string()],
    });

    let merged_commands = merged_saga.compute_new_actions(&order_created_event2);
    assert_eq!(
        merged_commands,
        [Command::ShipmentCreate(CreateShipmentCommand {
            shipment_id: 1,
            order_id: 1,
            customer_name: "John Doe".to_string(),
            items: vec!["Item 1".to_string(), "Item 2".to_string()],
        })]
    );
}

#[test]
fn saga_merge_concatenates_reactions() {
    // Both sagas react to the same event: the merged saga returns the first
    // saga's actions first, then the second saga's actions.
    let eager_one = Saga::new(|event: &Event| match event {
        Event::OrderCreated(evt) => vec![
            ShipmentCommand::Create(CreateShipmentCommand {
                shipment_id: evt.order_id,
                order_id: evt.order_id,
                customer_name: evt.customer_name.to_owned(),
                items: evt.items.to_owned(),
            }),
        ],
        _ => vec![],
    });
    let eager_two = Saga::new(|event: &Event| match event {
        Event::OrderCreated(evt) => vec![
            OrderCommand::Update(UpdateOrderCommand {
                order_id: evt.order_id,
                new_items: evt.items.to_owned(),
            }),
            OrderCommand::Cancel(CancelOrderCommand { order_id: evt.order_id }),
        ],
        _ => vec![],
    });
    let merged = eager_one.merge(eager_two);
    let event = Event::OrderCreated(OrderCreatedEvent {
        order_id: 7,
        customer_name: "John Doe".to_string(),
        items: vec!["Item 1".to_string()],
    });
    let actions = merged.compute_new_actions(&event);
    assert_eq!(actions.len(), 3);
    assert_eq!(
        actions[0],
        Sum::Second(ShipmentCommand::Create(CreateShipmentCommand {
            shipment_id: 7,
            order_id: 7,
            customer_name: "John Doe".to_string(),
            items: vec!["Item 1".to_string()],
        }))
    );
    assert_eq!(
        actions[1],
        Sum::First(OrderCommand::Update(UpdateOrderCommand {
            order_id: 7,
            new_items: vec!["Item 1".to_string()],
        }))
    );
    assert_eq!(
        actions[2],
        Sum::First(OrderCommand::Cancel(CancelOrderCommand { order_id: 7 }))
    );
    // An event neither saga reacts to yields no actions at all.
    let quiet = Event::OrderCancelled(OrderCancelledEvent { order_id: 7 });
    assert_eq!(merged.compute_new_actions(&quiet), vec![]);
}

#[test]
fn saga_map_action_result_translates_input() {
    let saga = order_saga().map_action_result(|event: &Event| match event {
        Event::OrderCreated(evt) => OrderEvent::Created(evt.to_owned()),
        Event::OrderUpdated(evt) => OrderEvent::Updated(evt.to_owned()),
        Event::OrderCancelled(evt) => OrderEvent::Cancelled(evt.to_owned()),
        Event::ShipmentCreated(_) => OrderEvent::Cancelled(OrderCancelledEvent { order_id: 0 }),
    });
    let event = Event::OrderCreated(OrderCreatedEvent {
        order_id: 3,
        customer_name: "John Doe".to_string(),
        items: vec!["Item 1".to_string()],
    });
    assert_eq!(
        saga.compute_new_actions(&event),
        [ShipmentCommand::Create(CreateShipmentCommand {
            shipment_id: 3,
            order_id: 3,
            customer_name: "John Doe".to_string(),
            items: vec!["Item 1".to_string()],
        })]
    );
}

#[test]
fn free_combine_dispatches_by_action_result_variant() {
    #[derive(Debug, Clone, PartialEq)]
    struct ShipmentEventLocal {
        shipment_id: u32,
    }
    // saga1 reacts to shipment events, saga2 to order events; the combined
    // saga routes first-variant results to saga2 and second-variant results
    // to saga1.
    let saga1 = Saga::new(|event: &ShipmentEventLocal| {
        vec![OrderCommand::Cancel(CancelOrderCommand {
            order_id: event.shipment_id,
        })]
    });
    let saga2 = Saga::new(|event: &OrderEvent| match event {
        OrderEvent::Created(evt) => vec![ShipmentCommand::Create(CreateShipmentCommand {
            shipment_id: evt.order_id,
            order_id: evt.order_id,
            customer_name: evt.customer_name.to_owned(),
            items: evt.items.to_owned(),
        })],
        _ => vec![],
    });
    let combined = fmodel_rust::saga_combined::combine(saga1, saga2);
    let order_created = OrderEvent::Created(OrderCreatedEvent {
        order_id: 4,
        customer_name: "John Doe".to_string(),
        items: vec!["Item 1".to_string()],
    });
    let from_first = combined.compute_new_actions(&Sum::First(order_created));
    assert_eq!(
        from_first,
        vec![Sum::Second(ShipmentCommand::Create(CreateShipmentCommand {
            shipment_id: 4,
            order_id: 4,
            customer_name: "John Doe".to_string(),
            items: vec!["Item 1".to_string()],
        }))]
    );
    let from_second = combined.compute_new_actions(&Sum::Second(ShipmentEventLocal {
        shipment_id: 4,
    }));
    assert_eq!(
        from_second,
        vec![Sum::First(OrderCommand::Cancel(CancelOrderCommand {
            order_id: 4,
        }))]
    );
}

#[test]
fn merge3_concatenates_three_sagas_in_order() {
    let one = Saga::new(|event: &Event| match event {
        Event::OrderCreated(evt) => vec![ShipmentCommand::Create(CreateShipmentCommand {
            shipment_id: evt.order_id,
            order_id: evt.order_id,
            customer_name: evt.customer_name.to_owned(),
            items: evt.items.to_owned(),
        })],
        _ => vec![],
    });
    let two = Saga::new(|event: &Event| match event {
        Event::OrderCreated(evt) => vec![OrderCommand::Update(UpdateOrderCommand {
            order_id: evt.order_id,
            new_items: evt.items.to_owned(),
        })],
        _ => vec![],
    });
    let three = Saga::new(|event: &Event| match event {
        Event::OrderCreated(evt) => vec![OrderCommand::Cancel(CancelOrderCommand {
            order_id: evt.order_id,
        })],
        _ => vec![],
    });
    let merged = one.merge3(two, three);
    let event = Event::OrderCreated(OrderCreatedEvent {
        order_id: 6,
        customer_name: "John Doe".to_string(),
        items: vec!["Item 1".to_string()],
    });
    let actions = merged.compute_new_actions(&event);
    assert_eq!(
        actions,
        vec![
            Sum3::First(ShipmentCommand::Create(CreateShipmentCommand {
                shipment_id: 6,
                order_id: 6,
                customer_name: "John Doe".to_string(),
                items: vec!["Item 1".to_string()],
            })),
            Sum3::Second(OrderCommand::Update(UpdateOrderCommand {
                order_id: 6,
                new_items: vec!["Item 1".to_string()],
            })),
            Sum3::Third(OrderCommand::Cancel(CancelOrderCommand { order_id: 6 })),
        ]
    );
}
