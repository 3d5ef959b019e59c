use fmodel_rust::saga::Saga;
use fmodel_rust::saga_manager::{ActionPublisher, SagaManager};
use fmodel_rust::Sum;

#[derive(Debug, Clone, PartialEq)]
pub enum OrderCommand {
    Create(CreateOrderCommand),
    Update(UpdateOrderCommand),
    Cancel(CancelOrderCommand),
}

#[derive(Debug, Clone, PartialEq)]
pub struct CreateOrderCommand {
    pub order_id: u32,
    pub customer_name: String,
    pub items: Vec<String>,
}

#[derive(Debug, Clone, PartialEq)]
pub struct UpdateOrderCommand {
    pub order_id: u32,
    pub new_items: Vec<String>,
}

#[derive(Debug, Clone, PartialEq)]
pub struct CancelOrderCommand {
    pub order_id: u32,
}

#[derive(Debug, Clone, PartialEq)]
pub struct OrderCreatedEvent {
    pub order_id: u32,
    pub customer_name: String,
    pub items: Vec<String>,
}

#[derive(Debug, Clone, PartialEq)]
pub struct OrderUpdatedEvent {
    pub order_id: u32,
    pub updated_items: Vec<String>,
}

#[derive(Debug, Clone, PartialEq)]
pub struct OrderCancelledEvent {
    pub order_id: u32,
}

#[derive(Debug, PartialEq, Clone)]
pub enum ShipmentCommand {
    Create(CreateShipmentCommand),
}

#[derive(Debug, PartialEq, Clone)]
pub struct CreateShipmentCommand {
    pub shipment_id: u32,
    pub order_id: u32,
    pub customer_name: String,
    pub items: Vec<String>,
}

#[derive(Debug, PartialEq, Clone)]
pub struct ShipmentCreatedEvent {
    pub shipment_id: u32,
    pub order_id: u32,
    pub customer_name: String,
    pub items: Vec<String>,
}

#[derive(Debug, PartialEq, Clone)]
pub enum Command {
    ShipmentCreate(CreateShipmentCommand),
    OrderCreate(CreateOrderCommand),
    OrderUpdate(UpdateOrderCommand),
    OrderCancel(CancelOrderCommand),
}

#[derive(Debug, PartialEq, Clone)]
pub enum Event {
    ShipmentCreated(ShipmentCreatedEvent),
    OrderCreated(OrderCreatedEvent),
    OrderUpdated(OrderUpdatedEvent),
    OrderCancelled(OrderCancelledEvent),
}

#[derive(Debug, PartialEq)]
pub enum SagaManagerError {
    PublishAction(String),
}

pub fn sum_to_command2(command: &Sum<ShipmentCommand, OrderCommand>) -> Command {
    match command {
        Sum::First(c) => match c {
            ShipmentCommand::Create(c) => Command::ShipmentCreate(c.to_owned()),
        },
        Sum::Second(c) => match c {
            OrderCommand::Create(c) => Command::OrderCreate(c.to_owned()),
            OrderCommand::Update(c) => Command::OrderUpdate(c.to_owned()),
            OrderCommand::Cancel(c) => Command::OrderCancel(c.to_owned()),
        },
    }
}

fn order_saga() -> Saga<Event, ShipmentCommand, impl Fn(&Event) -> Vec<ShipmentCommand>> {
    Saga::new(|event: &Event| match event {
        Event::OrderCreated(evt) => {
            vec![ShipmentCommand::Create(CreateShipmentCommand {
                shipment_id: evt.order_id,
                order_id: evt.order_id,
                customer_name: evt.customer_name.to_owned(),
                items: evt.items.to_owned(),
            })]
        }
        Event::OrderUpdated(_) => {
            vec![]
        }
        Event::OrderCancelled(_) => {
            vec![]
        }
        Event::ShipmentCreated(_) => {
            vec![]
        }
    })
}

fn shipment_saga() -> Saga<Event, OrderCommand, impl Fn(&Event) -> Vec<OrderCommand>> {
    Saga::new(|event: &Event| match event {
        Event::ShipmentCreated(evt) => {
            vec![OrderCommand::Update(UpdateOrderCommand {
                order_id: evt.order_id,
                new_items: evt.items.to_owned(),
            })]
        }

        Event::OrderCreated(_) => {
            vec![]
        }
        Event::OrderUpdated(_) => {
            vec![]
        }
        Event::OrderCancelled(_) => {
            vec![]
        }
    })
}

/// Simple action publisher that just returns the action/command.
/// In real life it would publish the action/command to some external system.
struct SimpleActionPublisher;

impl SimpleActionPublisher {
    fn new() -> Self {
        SimpleActionPublisher {}
    }
}

impl ActionPublisher<Command, SagaManagerError> for SimpleActionPublisher {
    fn publish(&mut self, action: &[Command]) -> Result<Vec<Command>, SagaManagerError> {
        Ok(Vec::from(action))
    }
}

#[test]
fn saga_manager_merged_test_test() {
    let order_created_event = Event::OrderCreated(OrderCreatedEvent {
        order_id: 1,
        customer_name: "John Doe".to_string(),
        items: vec!["Item 1".to_string(), "Item 2".to_string()],
    });

    let mut saga_manager = SagaManager::new(
        SimpleActionPublisher::new(),
        shipment_saga()
            .merge(order_saga())
            .map_action(sum_to_command2),
    );
    let result = saga_manager.handle(&order_created_event);
    assert!(result.is_ok());
    assert_eq!(
        result.unwrap(),
        vec![Command::ShipmentCreate(CreateShipmentCommand {
            shipment_id: 1,
            order_id: 1,
            customer_name: "John Doe".to_string(),
            items: vec!["Item 1".to_string(), "Item 2".to_string()],
        })]
    );
}
