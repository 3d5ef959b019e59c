use std::collections::HashMap;

use fmodel_rust::aggregate::{
    EventRepository, EventSourcedAggregate, StateRepository, StateStoredAggregate,
};
use fmodel_rust::decider::Decider;
use fmodel_rust::Identifier;

#[derive(Debug, Clone, PartialEq)]
pub enum OrderCommand {
    Create(CreateOrderCommand),
    Update(UpdateOrderCommand),
    Cancel(CancelOrderCommand),
}

#[derive(Debug, Clone, PartialEq)]
pub struct CreateOrderCommand {
    pub order_id: u32,
    pub customer_name: String,
    pub items: Vec<String>,
}

#[derive(Debug, Clone, PartialEq)]
pub struct UpdateOrderCommand {
    pub order_id: u32,
    pub new_items: Vec<String>,
}

#[derive(Debug, Clone, PartialEq)]
pub struct CancelOrderCommand {
    pub order_id: u32,
}

impl Identifier for OrderCommand {
    fn identifier(&self) -> String {
        match self {
            OrderCommand::Create(c) => c.order_id.to_string(),
            OrderCommand::Update(c) => c.order_id.to_string(),
            OrderCommand::Cancel(c) => c.order_id.to_string(),
        }
    }
}

#[derive(Debug, Clone, PartialEq)]
pub enum OrderEvent {
    Created(OrderCreatedEvent),
    Updated(OrderUpdatedEvent),
    Cancelled(OrderCancelledEvent),
}

#[derive(Debug, Clone, PartialEq)]
pub struct OrderCreatedEvent {
    pub order_id: u32,
    pub customer_name: String,
    pub items: Vec<String>,
}

#[derive(Debug, Clone, PartialEq)]
pub struct OrderUpdatedEvent {
    pub order_id: u32,
    pub updated_items: Vec<String>,
}

#[derive(Debug, Clone, PartialEq)]
pub struct OrderCancelledEvent {
    pub order_id: u32,
}

impl Identifier for OrderEvent {
    fn identifier(&self) -> String {
        match self {
            OrderEvent::Created(c) => c.order_id.to_string(),
            OrderEvent::Updated(c) => c.order_id.to_string(),
            OrderEvent::Cancelled(c) => c.order_id.to_string(),
        }
    }
}

#[derive(Debug, Clone, PartialEq)]
pub struct OrderState {
    pub order_id: u32,
    pub customer_name: String,
    pub items: Vec<String>,
    pub is_cancelled: bool,
}

#[derive(Debug, PartialEq)]
pub enum AggregateError {
    DomainError(String),
    FetchEvents(String),
    SaveEvents(String),
    FetchState(String),
    SaveState(String),
}

/// A simple in-memory event repository - infrastructure
struct InMemoryOrderEventRepository {
    events: Vec<(OrderEvent, i32)>,
}

impl InMemoryOrderEventRepository {
    fn new() -> Self {
        InMemoryOrderEventRepository { events: vec![] }
    }

    fn latest_version_of(&self, identifier: &str) -> Option<i32> {
        self.events
            .iter()
            .filter(|(e, _)| e.identifier() == identifier)
            .map(|(_, version)| *version)
            .last()
    }
}

/// Implementation of [EventRepository] for [InMemoryOrderEventRepository] - infrastructure
impl EventRepository<OrderCommand, OrderEvent, i32, AggregateError>
    for InMemoryOrderEventRepository
{
    fn fetch_events(
        &self,
        command: &OrderCommand,
    ) -> Result<Vec<(OrderEvent, i32)>, AggregateError> {
        Ok(self
            .events
            .clone()
            .into_iter()
            .filter(|(event, _)| event.identifier() == command.identifier())
            .collect())
    }

    fn save(&mut self, events: &[OrderEvent]) -> Result<Vec<(OrderEvent, i32)>, AggregateError> {
        let mut latest_version = match events.first() {
            Some(event) => self.latest_version_of(&event.identifier()).unwrap_or(-1),
            None => -1,
        };
        let events = events
            .iter()
            .map(|event| {
                latest_version += 1;
                (event.clone(), latest_version)
            })
            .collect::<Vec<(OrderEvent, i32)>>();
        self.events.extend_from_slice(&events);
        Ok(events)
    }

    fn version_provider(&self, event: &OrderEvent) -> Result<Option<i32>, AggregateError> {
        Ok(self.latest_version_of(&event.identifier()))
    }
}

struct InMemoryOrderStateRepository {
    states: HashMap<u32, (OrderState, i32)>,
}

impl InMemoryOrderStateRepository {
    fn new() -> Self {
        InMemoryOrderStateRepository {
            states: HashMap::new(),
        }
    }
}

// Implementation of [StateRepository] for [InMemoryOrderStateRepository]
impl StateRepository<OrderCommand, OrderState, i32, AggregateError>
    for InMemoryOrderStateRepository
{
    fn fetch_state(
        &self,
        command: &OrderCommand,
    ) -> Result<Option<(OrderState, i32)>, AggregateError> {
        Ok(self
            .states
            .get(&command.identifier().parse::<u32>().unwrap())
            .cloned())
    }

    fn save(
        &mut self,
        state: &OrderState,
        version: &Option<i32>,
    ) -> Result<(OrderState, i32), AggregateError> {
        let version = version.to_owned().unwrap_or(0);
        self.states
            .insert(state.order_id, (state.clone(), version + 1));
        Ok((state.clone(), version))
    }
}

/// Decider for the Order aggregate - Domain logic
fn decider() -> Decider<
    OrderCommand,
    OrderState,
    OrderEvent,
    (),
    impl Fn(&OrderCommand, &OrderState) -> Result<Vec<OrderEvent>, ()>,
    impl Fn(&OrderState, &OrderEvent) -> OrderState,
    impl Fn() -> OrderState,
> {
    Decider::new(
        |command: &OrderCommand, state: &OrderState| match command {
            OrderCommand::Create(cmd) => Ok(vec![OrderEvent::Created(OrderCreatedEvent {
                order_id: cmd.order_id,
                customer_name: cmd.customer_name.to_owned(),
                items: cmd.items.to_owned(),
            })]),
            OrderCommand::Update(cmd) => {
                if state.order_id == cmd.order_id {
                    Ok(vec![OrderEvent::Updated(OrderUpdatedEvent {
                        order_id: cmd.order_id,
                        updated_items: cmd.new_items.to_owned(),
                    })])
                } else {
                    Ok(vec![])
                }
            }
            OrderCommand::Cancel(cmd) => {
                if state.order_id == cmd.order_id {
                    Ok(vec![OrderEvent::Cancelled(OrderCancelledEvent {
                        order_id: cmd.order_id,
                    })])
                } else {
                    Ok(vec![])
                }
            }
        },
        |state: &OrderState, event: &OrderEvent| {
            let mut new_state = state.clone();
            match event {
                OrderEvent::Created(evt) => {
                    new_state.order_id = evt.order_id;
                    new_state.customer_name = evt.customer_name.to_owned();
                    new_state.items = evt.items.to_owned();
                }
                OrderEvent::Updated(evt) => {
                    new_state.items = evt.updated_items.to_owned();
                }
                OrderEvent::Cancelled(_) => {
                    new_state.is_cancelled = true;
                }
            }
            new_state
        },
        || OrderState {
            order_id: 0,
            customer_name: "".to_string(),
            items: Vec::new(),
            is_cancelled: false,
        },
    )
}

#[test]
fn es_test() {
    let repository = InMemoryOrderEventRepository::new();
    let mut aggregate = EventSourcedAggregate::new(
        repository,
        decider().map_error(|_e: &()| AggregateError::DomainError("Decider error".to_string())),
    );

    let command = OrderCommand::Create(CreateOrderCommand {
        order_id: 1,
        customer_name: "John Doe".to_string(),
        items: vec!["Item 1".to_string(), "Item 2".to_string()],
    });
    let result = aggregate.handle(&command);
    assert!(result.is_ok());

    let command = OrderCommand::Create(CreateOrderCommand {
        order_id: 2,
        customer_name: "John Doe".to_string(),
        items: vec!["Item 1".to_string(), "Item 2".to_string()],
    });
    let result = aggregate.handle(&command);
    assert!(result.is_ok());
}

#[test]
fn ss_test() {
    let repository = InMemoryOrderStateRepository::new();
    let mut aggregate = StateStoredAggregate::new(
        repository,
        decider().map_error(|_e: &()| AggregateError::DomainError("Decider error".to_string())),
    );

    let command = OrderCommand::Create(CreateOrderCommand {
        order_id: 1,
        customer_name: "John Doe".to_string(),
        items: vec!["Item 1".to_string(), "Item 2".to_string()],
    });
    let result = aggregate.handle(&command);
    assert!(result.is_ok());

    let command = OrderCommand::Create(CreateOrderCommand {
        order_id: 2,
        customer_name: "John Doe".to_string(),
        items: vec!["Item 1".to_string(), "Item 2".to_string()],
    });
    let result = aggregate.handle(&command);
    assert!(result.is_ok());
}

#[test]
fn es_returns_saved_events_with_versions() {
    let repository = InMemoryOrderEventRepository::new();
    let mut aggregate = EventSourcedAggregate::new(
        repository,
        decider().map_error(|_e: &()| AggregateError::DomainError("Decider error".to_string())),
    );

    let command = OrderCommand::Create(CreateOrderCommand {
        order_id: 1,
        customer_name: "John Doe".to_string(),
        items: vec!["Item 1".to_string(), "Item 2".to_string()],
    });
    let result = aggregate.handle(&command).unwrap();
    assert_eq!(
        result,
        [(
            OrderEvent::Created(OrderCreatedEvent {
                order_id: 1,
                customer_name: "John Doe".to_string(),
                items: vec!["Item 1".to_string(), "Item 2".to_string()],
            }),
            0
        )]
    );

    // An update against a different order produces no events.
    let command = OrderCommand::Update(UpdateOrderCommand {
        order_id: 42,
        new_items: vec!["Item 3".to_string()],
    });
    let result = aggregate.handle(&command).unwrap();
    assert_eq!(result, []);
}
