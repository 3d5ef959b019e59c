use fmodel_rust::saga::Saga;
use fmodel_rust::saga_manager::{ActionPublisher, SagaManager};

#[derive(Debug, Clone, PartialEq)]
pub enum OrderEvent {
    Created(OrderCreatedEvent),
    Updated(OrderUpdatedEvent),
    Cancelled(OrderCancelledEvent),
}

#[derive(Debug, Clone, PartialEq)]
pub struct OrderCreatedEvent {
    pub order_id: u32,
    pub customer_name: String,
    pub items: Vec<String>,
}

#[derive(Debug, Clone, PartialEq)]
pub struct OrderUpdatedEvent {
    pub order_id: u32,
    pub updated_items: Vec<String>,
}

#[derive(Debug, Clone, PartialEq)]
pub struct OrderCancelledEvent {
    pub order_id: u32,
}

#[derive(Debug, PartialEq, Clone)]
pub enum ShipmentCommand {
    Create(CreateShipmentCommand),
}

#[derive(Debug, PartialEq, Clone)]
pub struct CreateShipmentCommand {
    pub shipment_id: u32,
    pub order_id: u32,
    pub customer_name: String,
    pub items: Vec<String>,
}

#[derive(Debug, PartialEq)]
pub enum SagaManagerError {
    PublishAction(String),
}

fn saga() -> Saga<OrderEvent, ShipmentCommand, impl Fn(&OrderEvent) -> Vec<ShipmentCommand>> {
    Saga::new(|event: &OrderEvent| match event {
        OrderEvent::Created(evt) => {
            vec![ShipmentCommand::Create(CreateShipmentCommand {
                shipment_id: evt.order_id,
                order_id: evt.order_id,
                customer_name: evt.customer_name.to_owned(),
                items: evt.items.to_owned(),
            })]
        }
        OrderEvent::Updated(_) => {
            vec![]
        }
        OrderEvent::Cancelled(_) => {
            vec![]
        }
    })
}

/// Simple action publisher that just returns the action/command.
/// In real life it would publish the action/command to some external system.
struct SimpleActionPublisher;

impl SimpleActionPublisher {
    fn new() -> Self {
        SimpleActionPublisher {}
    }
}

impl ActionPublisher<ShipmentCommand, SagaManagerError> for SimpleActionPublisher {
    fn publish(
        &mut self,
        action: &[ShipmentCommand],
    ) -> Result<Vec<ShipmentCommand>, SagaManagerError> {
        Ok(Vec::from(action))
    }
}

#[test]
fn saga_manager_test_test() {
    let mut saga_manager = SagaManager::new(SimpleActionPublisher::new(), saga());

    let order_created_event = OrderEvent::Created(OrderCreatedEvent {
        order_id: 1,
        customer_name: "John Doe".to_string(),
        items: vec!["Item 1".to_string(), "Item 2".to_string()],
    });

    let result = saga_manager.handle(&order_created_event);
    assert!(result.is_ok());
    assert_eq!(
        result.unwrap(),
        vec![ShipmentCommand::Create(CreateShipmentCommand {
            shipment_id: 1,
            order_id: 1,
            customer_name: "John Doe".to_string(),
            items: vec!["Item 1".to_string(), "Item 2".to_string()],
        })]
    );
}

#[test]
fn test2() {
    let mut saga_manager = SagaManager::new(SimpleActionPublisher::new(), saga());

    let order_created_event = OrderEvent::Created(OrderCreatedEvent {
        order_id: 1,
        customer_name: "John Doe".to_string(),
        items: vec!["Item 21".to_string(), "Item 22".to_string()],
    });

    let result = saga_manager.handle(&order_created_event);
    assert!(result.is_ok());
    assert_eq!(
        result.unwrap(),
        vec![ShipmentCommand::Create(CreateShipmentCommand {
            shipment_id: 1,
            order_id: 1,
            customer_name: "John Doe".to_string(),
            items: vec!["Item 21".to_string(), "Item 22".to_string()],
        })]
    );
}

#[test]
fn saga_manager_publish_error_surfaces_unchanged() {
    // A publisher that always fails: the error comes back as-is.
    struct FailingPublisher;

    impl ActionPublisher<ShipmentCommand, SagaManagerError> for FailingPublisher {
        fn publish(
            &mut self,
            _action: &[ShipmentCommand],
        ) -> Result<Vec<ShipmentCommand>, SagaManagerError> {
            Err(SagaManagerError::PublishAction("broker down".to_string()))
        }
    }

    let mut saga_manager = SagaManager::new(FailingPublisher, saga());
    let order_created_event = OrderEvent::Created(OrderCreatedEvent {
        order_id: 1,
        customer_name: "John Doe".to_string(),
        items: vec!["Item 1".to_string()],
    });
    let result = saga_manager.handle(&order_created_event);
    assert_eq!(
        result,
        Err(SagaManagerError::PublishAction("broker down".to_string()))
    );
}
