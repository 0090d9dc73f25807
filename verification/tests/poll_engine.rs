use unify_attribute_poll::attribute::{
    Attribute, AttributeEvent, AttributeEventType, AttributeStoreError, AttributeTypeId,
    AttributeValueState, ATTRIBUTE_STORE_INVALID_TYPE,
};
use unify_attribute_poll::poll_engine::{
    PendingPoll, PollEngine, PollEngineCommand, PollEngineDispatch, PollEngineOutcome,
};
use unify_attribute_poll::poll_entries::PollEntry;
use unify_attribute_poll::poll_mark::{
    poll_engine_mark, poll_mark_action, PollMarkAction, PollMarkProgress, PollMarkStep,
    SL_STATUS_ALREADY_EXISTS, SL_STATUS_FAIL,
};
use unify_attribute_poll::timing::{calculate_poll_time, default_if_zero};
use unify_attribute_poll::PollEngineConfig;

const POLL_MARK_TYPE: AttributeTypeId = 123;

/// A value of the store: how many bytes it takes, and the number.
#[derive(Clone, Copy, Debug, PartialEq, Eq)]
struct Value {
    width: u8,
    number: u64,
}

fn u8_value(number: u8) -> Value {
    Value { width: 1, number: number as u64 }
}

fn u32_value(number: u32) -> Value {
    Value { width: 4, number: number as u64 }
}

struct Node {
    attribute: Attribute,
    parent: Attribute,
    reported: Option<Value>,
    desired: Option<Value>,
}

/// An attribute store in memory, as far as the poll engine needs one.
struct Store {
    nodes: Vec<Node>,
    next_handle: u32,
    /// Attribute types with the width their values must have.
    registered: Vec<(AttributeTypeId, u8)>,
    type_validation: bool,
}

impl Store {
    fn new() -> Store {
        Store { nodes: Vec::new(), next_handle: 2, registered: Vec::new(), type_validation: false }
    }

    fn root(&self) -> Attribute {
        Attribute { handle: 1, type_id: 1 }
    }

    fn valid(&self, a: Attribute) -> bool {
        a == self.root() || self.nodes.iter().any(|n| n.attribute == a)
    }

    fn add(
        &mut self,
        parent: Attribute,
        type_id: AttributeTypeId,
        reported: Option<Value>,
        desired: Option<Value>,
    ) -> Result<Attribute, AttributeStoreError> {
        if !self.valid(parent) {
            return Err(AttributeStoreError::StaleOrNoneExisting);
        }
        if type_id == ATTRIBUTE_STORE_INVALID_TYPE {
            return Err(AttributeStoreError::InvalidType);
        }
        let attribute = Attribute { handle: self.next_handle, type_id };
        self.next_handle += 1;
        self.nodes.push(Node { attribute, parent, reported, desired });
        Ok(attribute)
    }

    fn parent(&self, a: Attribute) -> Attribute {
        match self.nodes.iter().find(|n| n.attribute == a) {
            Some(n) => n.parent,
            None => Attribute::invalid(),
        }
    }

    fn get_child_by_type(&self, a: Attribute, type_id: AttributeTypeId) -> Attribute {
        match self.nodes.iter().find(|n| n.parent == a && n.attribute.type_id == type_id) {
            Some(n) => n.attribute,
            None => Attribute::invalid(),
        }
    }

    fn set_reported(&mut self, a: Attribute, value: Option<Value>) -> Result<(), AttributeStoreError> {
        let width = self.registered.iter().find(|r| r.0 == a.type_id).map(|r| r.1);
        let type_validation = self.type_validation;
        match self.nodes.iter_mut().find(|n| n.attribute == a) {
            None => Err(AttributeStoreError::StaleOrNoneExisting),
            Some(node) => {
                if let (true, Some(width), Some(value)) = (type_validation, width, value) {
                    if value.width != width {
                        return Err(AttributeStoreError::InvalidType);
                    }
                }
                node.reported = value;
                Ok(())
            }
        }
    }

    fn get_reported(&self, a: Attribute) -> Option<Value> {
        self.nodes.iter().find(|n| n.attribute == a).and_then(|n| n.reported)
    }

    fn get_desired(&self, a: Attribute) -> Option<Value> {
        self.nodes.iter().find(|n| n.attribute == a).and_then(|n| n.desired)
    }

    fn is_reported_set(&self, a: Attribute) -> bool {
        self.get_reported(a).is_some()
    }
}

/// One poll, with the store operations the engine asks for.
fn do_poll(engine: &mut PollEngine, store: &mut Store, now: u64) -> PollEngineOutcome {
    let outcome = engine.do_poll();
    if let PollEngineOutcome::MarkForPoll { pending } = outcome {
        let mark_type = engine.config().poll_mark_attribute_type;
        let mark = store.get_child_by_type(pending.attribute, mark_type);
        let marked = match poll_mark_action(store.valid(mark)) {
            PollMarkAction::Create => store.add(pending.attribute, mark_type, None, None).map(|_| ()),
            PollMarkAction::ClearReported => store.set_reported(mark, None),
        };
        engine.finish_poll(pending, marked, now);
    }
    outcome
}

/// The resolver rule on `mark`, with the store operations it asks for.
fn poll_engine_mark_rust(
    store: &mut Store,
    mark: Attribute,
) -> Result<(u32, Vec<u8>), AttributeStoreError> {
    let mut progress = PollMarkProgress::Invoked;
    loop {
        progress = match poll_engine_mark(progress) {
            PollMarkStep::ClearParentReported => {
                let parent = store.parent(mark);
                PollMarkProgress::ParentCleared(store.set_reported(parent, None))
            }
            PollMarkStep::SetMarkReported { value } => {
                PollMarkProgress::MarkWritten(store.set_reported(mark, Some(u8_value(value))))
            }
            PollMarkStep::Finished { result } => return result,
        };
    }
}

fn config(poll_mark_attribute_type: AttributeTypeId) -> PollEngineConfig {
    PollEngineConfig { backoff: 0, default_interval: 0, poll_mark_attribute_type }
}

fn command(cmd: PollEngineCommand) -> PollEngineDispatch {
    PollEngineDispatch::PollEngineCommand(cmd)
}

#[test]
fn minimum_deadline() {
    assert_eq!(calculate_poll_time(0, 1, 0, 0), 1);
    // backoff is higher as scheduled
    assert_eq!(calculate_poll_time(3, 1, 0, 0), 3);
    // if poll is in the past, schedule after 1 sec
    assert_eq!(calculate_poll_time(0, 1, 6, 3), 1);
    assert_eq!(calculate_poll_time(0, 9, 6, 3), 3);
}

#[test]
fn test_default_to_zero() {
    let cfg = PollEngineConfig { backoff: 3, default_interval: 1, poll_mark_attribute_type: POLL_MARK_TYPE };
    assert_eq!(default_if_zero(&cfg, 0), 1);
    assert_eq!(default_if_zero(&cfg, 44), 44);
}

#[test]
fn engine_does_nothing_on_creation() {
    let engine = PollEngine::new(config(POLL_MARK_TYPE));

    // does not matter how much we poll the engine, nothing is happening
    assert_eq!(engine.is_running_and_upcoming_timeout(0), None);
    assert_eq!(engine.is_running_and_upcoming_timeout(0), None);
    assert_eq!(engine.is_running_and_upcoming_timeout(0), None);
    assert_eq!(engine.is_running_and_upcoming_timeout(0), None);
    assert_eq!(engine.is_running_and_upcoming_timeout(0), None);
    assert!(engine.poll_queue().is_empty());
    assert_eq!(engine.last_poll(), 0);
    assert!(engine.is_running());
}

#[test]
fn do_poll_is_connected() {
    let attribute = Attribute { handle: 1, type_id: 1 };
    let mut engine = PollEngine::new(config(POLL_MARK_TYPE));
    engine.on_register(attribute, 22, 0);

    // the timer is set for the interval of the one attribute
    assert_eq!(engine.is_running_and_upcoming_timeout(0), Some(22));
    assert_eq!(engine.is_running_and_upcoming_timeout(0), Some(22));

    // the timer goes off: the attribute is taken from the queue and polled
    let outcome = PollEngine::run(&mut engine, PollEngineDispatch::PollTimeout, 0);
    assert_eq!(
        outcome,
        PollEngineOutcome::MarkForPoll { pending: PendingPoll { attribute, interval: 22 } }
    );
    assert_eq!(engine.poll_queue().upcoming(), None);
    assert_eq!(engine.is_running_and_upcoming_timeout(0), None);
}

#[test]
fn disable_does_not_schedule_poll() {
    let mut engine = PollEngine::new(config(POLL_MARK_TYPE));
    engine.on_register(Attribute { handle: 1, type_id: 1 }, 22, 0);

    assert_eq!(engine.is_running_and_upcoming_timeout(0), Some(22));
    assert_eq!(engine.is_running_and_upcoming_timeout(0), Some(22));

    let outcome = PollEngine::run(&mut engine, command(PollEngineCommand::Disable), 0);
    assert_eq!(outcome, PollEngineOutcome::Done);

    assert_eq!(engine.is_running_and_upcoming_timeout(0), None);
    assert_eq!(engine.poll_queue().len(), 1);

    let outcome = PollEngine::run(&mut engine, command(PollEngineCommand::Enable), 0);
    assert_eq!(outcome, PollEngineOutcome::Done);
    assert_eq!(engine.is_running_and_upcoming_timeout(0), Some(22));
}

#[test]
fn register_is_connected() {
    let attribute = Attribute { handle: 1, type_id: 1 };
    let mut engine = PollEngine::new(config(POLL_MARK_TYPE));

    PollEngine::run(&mut engine, command(PollEngineCommand::Disable), 0);

    assert_eq!(engine.is_running_and_upcoming_timeout(0), None);
    assert_eq!(engine.is_running_and_upcoming_timeout(0), None);

    let outcome = PollEngine::run(
        &mut engine,
        command(PollEngineCommand::Register { attribute, interval: 22 }),
        0,
    );
    assert_eq!(outcome, PollEngineOutcome::Done);
    // queued with interval 22 at clock 0
    assert_eq!(engine.poll_queue().len(), 1);
    assert_eq!(
        engine.poll_queue().get(0),
        Some(PollEntry { attribute, interval: 22, deadline: 22 })
    );

    let outcome = PollEngine::run(&mut engine, command(PollEngineCommand::Deregister { attribute }), 0);
    assert_eq!(outcome, PollEngineOutcome::Done);
    assert!(!engine.poll_queue().contains(&attribute));
    assert_eq!(engine.poll_queue().len(), 0);

    assert_eq!(engine.is_running_and_upcoming_timeout(0), None);
    assert_eq!(engine.is_running_and_upcoming_timeout(0), None);
}

#[test]
fn poll_engine_mark_test() {
    let mut store = Store::new();
    let root = store.root();
    let a = store.add(root, 11111, Some(u32_value(42)), Some(u32_value(24))).unwrap();

    // Poll mark does not exist yet.
    assert_eq!(store.get_child_by_type(a, POLL_MARK_TYPE), Attribute::invalid());

    let mut engine = PollEngine::new(config(POLL_MARK_TYPE));
    engine.on_register(a, 1111, 0);
    do_poll(&mut engine, &mut store, 0);
    do_poll(&mut engine, &mut store, 0);

    assert_eq!(store.get_reported(a), Some(u32_value(42)));
    assert_eq!(store.get_desired(a), Some(u32_value(24)));

    let mark = store.get_child_by_type(a, POLL_MARK_TYPE);
    assert_ne!(mark, Attribute::invalid());
    assert_eq!(poll_engine_mark_rust(&mut store, mark), Ok((SL_STATUS_ALREADY_EXISTS, vec![])));

    assert_eq!(store.is_reported_set(a), false);
    assert_eq!(store.get_desired(a), Some(u32_value(24)));

    // Test the resolving function with invalid attributes:
    assert_eq!(
        poll_engine_mark_rust(&mut store, Attribute::invalid()),
        Err(AttributeStoreError::StaleOrNoneExisting)
    );

    // Get the set_reported for the mark to fail by constraining which
    // storage type can be written to that attribute type:
    assert_eq!(Ok(()), store.set_reported(a, Some(u8_value(1))));
    assert_eq!(Ok(()), store.set_reported(mark, None));
    store.registered.push((POLL_MARK_TYPE, 4));
    store.type_validation = true;

    assert_eq!(poll_engine_mark_rust(&mut store, mark), Ok((SL_STATUS_FAIL, vec![])));

    assert_eq!(store.is_reported_set(a), false);
    assert_eq!(store.get_desired(a), Some(u32_value(24)));
    assert_eq!(store.is_reported_set(mark), false); // Here instead of true it is false due to type validation.

    // Remove type validation from our Attribute Store.
    store.type_validation = false;
}

#[test]
fn poll_engine_delete_test() {
    let mut store = Store::new();
    let root = store.root();
    let a = store.add(root, 1, Some(u32_value(42)), Some(u32_value(52))).unwrap();

    let mut engine = PollEngine::new(config(POLL_MARK_TYPE));
    let outcome = PollEngine::run(
        &mut engine,
        command(PollEngineCommand::Register { attribute: a, interval: 22 }),
        0,
    );
    assert_eq!(outcome, PollEngineOutcome::Done);
    assert_eq!(engine.poll_queue().get(0), Some(PollEntry { attribute: a, interval: 22, deadline: 22 }));

    let attribute_event = AttributeEvent {
        attribute: a,
        event_type: AttributeEventType::ATTRIBUTE_DELETED,
        value_state: AttributeValueState::DESIRED_OR_REPORTED_ATTRIBUTE,
    };
    // the notification is about a queued attribute, so it reaches the engine
    let dispatch = engine.find_updated_attribute(attribute_event);
    assert_eq!(dispatch, Some(PollEngineDispatch::AttributeUpdated(attribute_event)));
    let outcome = PollEngine::run(&mut engine, dispatch.unwrap(), 0);
    assert_eq!(outcome, PollEngineOutcome::Done);

    assert!(!engine.poll_queue().contains(&a));
    assert_eq!(engine.poll_queue().upcoming(), None);
    assert_eq!(engine.is_running_and_upcoming_timeout(0), None);
}

#[test]
fn poll_engine_wrong_configuration() {
    let mut store = Store::new();
    let root = store.root();
    let a = store.add(root, 11111, Some(u32_value(42)), Some(u32_value(24))).unwrap();

    const POLL_MARK_TYPE: AttributeTypeId = ATTRIBUTE_STORE_INVALID_TYPE;
    let cfg = config(POLL_MARK_TYPE);
    assert!(!cfg.has_usable_poll_mark_type());

    // Poll mark does not exist yet.
    assert_eq!(store.get_child_by_type(a, POLL_MARK_TYPE), Attribute::invalid());

    let mut engine = PollEngine::new(cfg);
    engine.on_register(a, 1111, 0);
    do_poll(&mut engine, &mut store, 0);

    // Attribute Store should refuse to create the poll mark.
    assert_eq!(store.get_child_by_type(a, POLL_MARK_TYPE), Attribute::invalid());
    // ... and the attribute is not queued again.
    assert!(!engine.poll_queue().contains(&a));
}
