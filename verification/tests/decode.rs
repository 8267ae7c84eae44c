use subscr::flags::OP_INSERT;
use subscr::msg::{RawError, RawMessage, RawQuery, RawRow, RawTable, EVT_DEREG, EVT_OBJCHANGE, EVT_QUEUE, EVT_QUERYCHANGE};
use subscr::{aq, cqn, Error, OpCode};

fn empty_message(event_type: u32) -> RawMessage {
    RawMessage {
        event_type,
        db_name: String::new(),
        tables: Vec::new(),
        queries: Vec::new(),
        tx_id: Vec::new(),
        queue_name: String::new(),
        consumer_name: String::new(),
        registered: 1,
        error: None,
    }
}

#[test]
fn change_decode_object_change_with_row_detail() {
    let mut msg = empty_message(EVT_OBJCHANGE);
    msg.db_name = String::from("ORCL");
    msg.tx_id = vec![1, 2, 3];
    msg.tables = vec![RawTable {
        operation: OP_INSERT,
        name: String::from("T"),
        rows: vec![RawRow {
            operation: OP_INSERT,
            rowid: String::from("AAAQ//AAAAABAABAAA"),
        }],
    }];
    let ev = cqn::Event::new(&msg).unwrap();
    assert_eq!(*ev.event_type(), cqn::EventType::ObjectChange);
    assert_eq!(ev.database(), "ORCL");
    assert_eq!(ev.transaction_id(), &vec![1, 2, 3]);
    assert!(ev.registered());
    assert_eq!(ev.tables().len(), 1);
    let table = &ev.tables()[0];
    assert_eq!(table.name(), "T");
    assert!(table.operation().contains(OpCode::from_bits_truncate(OP_INSERT)));
    assert_eq!(table.rows().len(), 1);
    assert_eq!(table.rows()[0].rowid(), "AAAQ//AAAAABAABAAA");
    assert!(ev.queries().is_empty());
}

#[test]
fn change_decode_query_change_with_nested_tables() {
    let mut msg = empty_message(EVT_QUERYCHANGE);
    msg.queries = vec![RawQuery {
        id: 42,
        operation: OP_INSERT,
        tables: vec![RawTable {
            operation: OP_INSERT | 0x8000_0000,
            name: String::from("EMP"),
            rows: Vec::new(),
        }],
    }];
    let ev = cqn::Event::new(&msg).unwrap();
    assert_eq!(*ev.event_type(), cqn::EventType::QueryResultChange);
    assert_eq!(ev.queries().len(), 1);
    let query = &ev.queries()[0];
    assert_eq!(query.id(), 42);
    assert_eq!(query.operation().bits(), OP_INSERT);
    assert_eq!(query.tables().len(), 1);
    // The undefined high bit was truncated during decode.
    assert_eq!(query.tables()[0].operation().bits(), OP_INSERT);
    assert_eq!(query.tables()[0].name(), "EMP");
    assert!(query.tables()[0].rows().is_empty());
}

#[test]
fn change_decode_tolerates_zero_counts() {
    let msg = empty_message(EVT_OBJCHANGE);
    let ev = cqn::Event::new(&msg).unwrap();
    assert!(ev.tables().is_empty());
    assert!(ev.queries().is_empty());
    assert!(ev.transaction_id().is_empty());
}

#[test]
fn change_decode_unsupported_kind_is_an_error() {
    let msg = empty_message(4);
    match cqn::Event::new(&msg) {
        Err(Error::UnsupportedEventKind(code)) => assert_eq!(code, 4),
        other => panic!("expected an unsupported-kind error, got {:?}", other),
    }
    // The queue event-kind code is not a change event-kind code.
    let msg = empty_message(EVT_QUEUE);
    assert!(matches!(
        cqn::Event::new(&msg),
        Err(Error::UnsupportedEventKind(EVT_QUEUE))
    ));
}

#[test]
fn change_decode_embedded_error_builds_no_event() {
    let mut msg = empty_message(EVT_OBJCHANGE);
    msg.error = Some(RawError {
        code: 1013,
        message: String::from("delivery failed"),
    });
    match cqn::Event::new(&msg) {
        Err(Error::EmbeddedMessageError { code, message }) => {
            assert_eq!(code, 1013);
            assert_eq!(message, "delivery failed");
        }
        other => panic!("expected an embedded-message error, got {:?}", other),
    }
}

#[test]
fn change_decode_deregister() {
    let mut msg = empty_message(EVT_DEREG);
    msg.registered = 0;
    let ev = cqn::Event::new(&msg).unwrap();
    assert_eq!(*ev.event_type(), cqn::EventType::Deregister);
    assert!(!ev.registered());
}

#[test]
fn queue_decode_message_arrival() {
    let mut msg = empty_message(EVT_QUEUE);
    msg.queue_name = String::from("MY_QUEUE");
    msg.consumer_name = String::from("ME");
    let ev = aq::Event::new(&msg).unwrap();
    assert_eq!(*ev.event_type(), aq::EventType::AQ);
    assert_eq!(ev.queue_name(), "MY_QUEUE");
    assert_eq!(ev.consumer_name(), "ME");
    assert!(ev.registered());
}

#[test]
fn queue_decode_deregister_and_unknown_kind() {
    let msg = empty_message(EVT_DEREG);
    let ev = aq::Event::new(&msg).unwrap();
    assert_eq!(*ev.event_type(), aq::EventType::Deregister);
    // A change event-kind code is not a queue event-kind code.
    let msg = empty_message(EVT_QUERYCHANGE);
    assert!(matches!(
        aq::Event::new(&msg),
        Err(Error::UnsupportedEventKind(EVT_QUERYCHANGE))
    ));
}

#[test]
fn queue_decode_embedded_error() {
    let mut msg = empty_message(EVT_QUEUE);
    msg.error = Some(RawError {
        code: 7,
        message: String::from("broken"),
    });
    match aq::Event::new(&msg) {
        Err(Error::EmbeddedMessageError { code, message }) => {
            assert_eq!(code, 7);
            assert_eq!(message, "broken");
        }
        other => panic!("expected an embedded-message error, got {:?}", other),
    }
}
