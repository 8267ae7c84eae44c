use subscr::delivery::{dispatch, Delivery, Notification};
use subscr::flags::{OP_INSERT, QOS_QUERY, QOS_ROWIDS};
use subscr::msg::{RawError, RawMessage, RawRow, RawTable, EVT_DEREG, EVT_OBJCHANGE, EVT_QUEUE};
use subscr::{aq, cqn, Callback, Connection, Error, OpCode, SubscriptionForm, QOS};

fn empty_message(event_type: u32) -> RawMessage {
    RawMessage {
        event_type,
        db_name: String::new(),
        tables: Vec::new(),
        queries: Vec::new(),
        tx_id: Vec::new(),
        queue_name: String::new(),
        consumer_name: String::new(),
        registered: 1,
        error: None,
    }
}

#[test]
fn dispatch_selects_the_decoder_matching_the_tag() {
    let msg = empty_message(EVT_OBJCHANGE);
    match dispatch(&Callback::Cqn(1), &msg) {
        Notification::Change(Ok(ev)) => {
            assert_eq!(*ev.event_type(), cqn::EventType::ObjectChange)
        }
        other => panic!("expected a change notification, got {:?}", other),
    }
    let msg = empty_message(EVT_QUEUE);
    match dispatch(&Callback::Aq(1), &msg) {
        Notification::Queue(Ok(ev)) => assert_eq!(*ev.event_type(), aq::EventType::AQ),
        other => panic!("expected a queue notification, got {:?}", other),
    }
}

#[test]
fn nothing_is_delivered_after_a_deregister() {
    let mut delivery = Delivery::new(Callback::Cqn(1));
    let first = delivery.deliver(&empty_message(EVT_OBJCHANGE));
    assert!(first.is_some());
    let terminal = delivery.deliver(&empty_message(EVT_DEREG));
    match terminal {
        Some(Notification::Change(Ok(ev))) => {
            assert_eq!(*ev.event_type(), cqn::EventType::Deregister)
        }
        other => panic!("expected the deregister event, got {:?}", other),
    }
    // Whatever arrives after the terminal notification is not
    // delivered.
    assert!(delivery.deliver(&empty_message(EVT_OBJCHANGE)).is_none());
    assert!(delivery.deliver(&empty_message(EVT_DEREG)).is_none());
    assert!(delivery.deliver(&empty_message(EVT_QUEUE)).is_none());
}

#[test]
fn embedded_error_does_not_terminate_delivery() {
    let mut delivery = Delivery::new(Callback::Cqn(1));
    let mut failed = empty_message(EVT_DEREG);
    failed.error = Some(RawError {
        code: 1,
        message: String::from("x"),
    });
    // The record carries an embedded error, so it is not a deregister
    // notification; delivery goes on.
    assert!(matches!(
        delivery.deliver(&failed),
        Some(Notification::Change(Err(Error::EmbeddedMessageError { .. })))
    ));
    assert!(delivery.deliver(&empty_message(EVT_OBJCHANGE)).is_some());
}

#[test]
fn change_scenario_insert_into_watched_table() {
    // Submit a callback subscription asking for query results and row
    // identifiers, register a query, then simulate the server pushing
    // an object-change record for the watched table.
    let mut conn = Connection::new();
    let mut form = SubscriptionForm::new(cqn::Protocol::callback(77));
    form.qos(QOS::from_bits_truncate(QOS_QUERY | QOS_ROWIDS));
    let mut sub = form.submit(&mut conn).unwrap();
    let query_id = sub.set_query(&mut conn, "select * from T").unwrap();
    assert_ne!(query_id, 0);
    assert_eq!(conn.open_stmts, 0);

    let mut msg = empty_message(EVT_OBJCHANGE);
    msg.db_name = String::from("ORCL");
    msg.tables = vec![RawTable {
        operation: OP_INSERT,
        name: String::from("T"),
        rows: vec![RawRow {
            operation: OP_INSERT,
            rowid: String::from("AAAQ//AAAAABAABAAA"),
        }],
    }];
    let mut delivery = Delivery::new(sub.callback.unwrap());
    let mut invocations: u32 = 0;
    match delivery.deliver(&msg) {
        Some(Notification::Change(Ok(ev))) => {
            invocations += 1;
            assert_eq!(ev.tables()[0].name(), "T");
            assert_eq!(ev.tables()[0].rows()[0].rowid(), "AAAQ//AAAAABAABAAA");
            assert!(ev.tables()[0]
                .operation()
                .contains(OpCode::from_bits_truncate(OP_INSERT)));
        }
        other => panic!("expected a decoded change event, got {:?}", other),
    }
    assert_eq!(invocations, 1);
    sub.dispose(&mut conn);
    assert_eq!(conn.open_subscrs, 0);
}

#[test]
fn error_scenario_embedded_error_reaches_the_callback_as_err() {
    let mut conn = Connection::new();
    let form = SubscriptionForm::new(cqn::Protocol::callback(5));
    let sub = form.submit(&mut conn).unwrap();
    let mut msg = empty_message(EVT_OBJCHANGE);
    msg.error = Some(RawError {
        code: 24912,
        message: String::from("registration failed on delivery"),
    });
    let mut delivery = Delivery::new(sub.callback.unwrap());
    match delivery.deliver(&msg) {
        Some(Notification::Change(Err(Error::EmbeddedMessageError { code, message }))) => {
            assert_eq!(code, 24912);
            assert_eq!(message, "registration failed on delivery");
        }
        other => panic!("expected the embedded error, got {:?}", other),
    }
}

#[test]
fn timeout_scenario_expiry_arrives_as_a_deregister_event() {
    // A timeout is enforced by the external system; its expiry shows
    // up as an ordinary deregister notification, not as an error.
    let mut conn = Connection::new();
    let mut form = SubscriptionForm::new(cqn::Protocol::callback(11));
    form.timeout(5);
    let sub = form.submit(&mut conn).unwrap();
    assert_eq!(conn.last_params.clone().unwrap().timeout, 5);

    let mut msg = empty_message(EVT_DEREG);
    msg.registered = 0;
    let mut delivery = Delivery::new(sub.callback.unwrap());
    match delivery.deliver(&msg) {
        Some(Notification::Change(Ok(ev))) => {
            assert_eq!(*ev.event_type(), cqn::EventType::Deregister);
            assert!(!ev.registered());
        }
        other => panic!("expected the deregister event, got {:?}", other),
    }
    assert!(delivery.deliver(&empty_message(EVT_OBJCHANGE)).is_none());
}

#[test]
fn queue_delivery_scenario() {
    let mut conn = Connection::new();
    let form = SubscriptionForm::new(aq::Protocol::callback(8));
    let sub = form.submit(&mut conn).unwrap();
    assert_eq!(sub.callback, Some(Callback::Aq(8)));
    let mut msg = empty_message(EVT_QUEUE);
    msg.queue_name = String::from("ORDERS");
    msg.consumer_name = String::from("WORKER1");
    let mut delivery = Delivery::new(sub.callback.unwrap());
    match delivery.deliver(&msg) {
        Some(Notification::Queue(Ok(ev))) => {
            assert_eq!(*ev.event_type(), aq::EventType::AQ);
            assert_eq!(ev.queue_name(), "ORDERS");
            assert_eq!(ev.consumer_name(), "WORKER1");
        }
        other => panic!("expected a queue event, got {:?}", other),
    }
}
