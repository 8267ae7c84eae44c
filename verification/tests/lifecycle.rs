use subscr::{cqn, Callback, Connection, Error, SubscriptionForm};

fn live_subscription(conn: &mut Connection) -> subscr::Subscription {
    SubscriptionForm::new(cqn::Protocol::callback(9))
        .submit(conn)
        .unwrap()
}

#[test]
fn set_query_returns_nonzero_id_and_leaves_no_statement_open() {
    let mut conn = Connection::new();
    let mut sub = live_subscription(&mut conn);
    let id = sub.set_query(&mut conn, "select * from T").unwrap();
    assert_ne!(id, 0);
    assert_eq!(conn.open_stmts, 0);
    // A second registration gets a fresh identifier and again leaves
    // no statement handle open.
    let id2 = sub.set_query(&mut conn, "select * from U").unwrap();
    assert_ne!(id2, 0);
    assert_ne!(id2, id);
    assert_eq!(conn.open_stmts, 0);
}

#[test]
fn set_query_propagates_prepare_failure_and_leaves_no_statement_open() {
    let mut conn = Connection::new();
    let mut sub = live_subscription(&mut conn);
    conn.prepare_ok = false;
    conn.fail_code = 900;
    conn.fail_message = String::from("invalid SQL statement");
    match sub.set_query(&mut conn, "not a statement") {
        Err(Error::ExternalFailure { code, message }) => {
            assert_eq!(code, 900);
            assert_eq!(message, "invalid SQL statement");
        }
        other => panic!("expected an external failure, got {:?}", other),
    }
    assert_eq!(conn.open_stmts, 0);
}

#[test]
fn set_query_propagates_execute_failure_and_leaves_no_statement_open() {
    let mut conn = Connection::new();
    let mut sub = live_subscription(&mut conn);
    conn.execute_ok = false;
    conn.fail_code = 942;
    conn.fail_message = String::from("table or view does not exist");
    assert!(matches!(
        sub.set_query(&mut conn, "select * from MISSING"),
        Err(Error::ExternalFailure { .. })
    ));
    assert_eq!(conn.open_stmts, 0);
}

#[test]
fn set_query_propagates_id_fetch_failure_and_leaves_no_statement_open() {
    let mut conn = Connection::new();
    let mut sub = live_subscription(&mut conn);
    conn.query_id_ok = false;
    assert!(matches!(
        sub.set_query(&mut conn, "select * from T"),
        Err(Error::ExternalFailure { .. })
    ));
    assert_eq!(conn.open_stmts, 0);
}

#[test]
fn dispose_revokes_then_reclaims_the_callback_once() {
    let mut conn = Connection::new();
    let mut sub = live_subscription(&mut conn);
    assert_eq!(conn.open_subscrs, 1);
    let reclaimed = sub.dispose(&mut conn);
    assert_eq!(reclaimed, Some(Callback::Cqn(9)));
    assert!(sub.disposed);
    assert_eq!(sub.callback, None);
    assert_eq!(conn.open_subscrs, 0);
}

#[test]
fn dispose_twice_neither_double_revokes_nor_double_frees() {
    let mut conn = Connection::new();
    let mut sub = live_subscription(&mut conn);
    let first = sub.dispose(&mut conn);
    assert!(first.is_some());
    let second = sub.dispose(&mut conn);
    assert_eq!(second, None);
    assert_eq!(conn.open_subscrs, 0);
    let third = sub.dispose(&mut conn);
    assert_eq!(third, None);
    assert_eq!(conn.open_subscrs, 0);
}
