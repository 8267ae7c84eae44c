//! The live subscription: the owned registration handle, the owned
//! callback token, query registration, and two-step teardown.

use crate::conn::Connection;
use crate::error::Error;
use crate::form::Callback;
use vstd::prelude::*;

verus! {

/// A live, owned registration with the external delivery system.
///
/// Exactly one subscription owns a given handle and callback token;
/// teardown revokes the registration first and only then reclaims the
/// boxed callback, so the external system has stopped issuing
/// callbacks before the closure's memory goes away.
#[derive(Clone, Debug)]
pub struct Subscription {
    /// The opaque registration handle the external system assigned;
    /// never zero.
    pub handle: u64,
    /// The tagged callback this subscription owns, when delivery is
    /// in-process; [`None`] once reclaimed.
    pub callback: Option<Callback>,
    /// Whether teardown has already run.
    pub disposed: bool,
}

impl Subscription {
    /// The subscription state after teardown: marked disposed, its
    /// callback reclaimed.
    pub open spec fn after_dispose(self) -> Subscription {
        Subscription { callback: None, disposed: true, ..self }
    }

    /// What one teardown hands back for reclamation: the owned
    /// callback the first time, nothing ever after.
    pub open spec fn dispose_reclaims(self) -> Option<Callback> {
        if self.disposed {
            None
        } else {
            self.callback
        }
    }

    /// Registers a query for query-result-change notification.
    ///
    /// Prepares the statement against the subscription, executes it —
    /// the external system requires the execution to establish the
    /// watch, though no rows are wanted — and fetches the assigned
    /// query identifier. The transient statement handle is released on
    /// every exit path: whatever the outcome, the connection's count
    /// of open statement handles is exactly what it was. On success
    /// the identifier is the driver's next one, and it is nonzero;
    /// otherwise the first refusal is propagated verbatim.
    pub fn set_query(&mut self, conn: &mut Connection, sql: &str) -> (r: Result<u64, Error>)
        requires
            !old(self).disposed,
            old(conn).wf(),
            old(conn).next_stmt < u64::MAX,
            old(conn).open_stmts < u64::MAX,
            old(conn).next_query_id < u64::MAX,
        ensures
            *final(self) == *old(self),
            final(conn).wf(),
            final(conn).open_stmts == old(conn).open_stmts,
            !old(conn).prepare_ok ==> r == Err::<u64, Error>(old(conn).spec_failure())
                && *final(conn) == *old(conn),
            old(conn).prepare_ok && !old(conn).execute_ok ==> r == Err::<u64, Error>(
                old(conn).spec_failure(),
            ) && *final(conn) == (Connection {
                next_stmt: (old(conn).next_stmt + 1) as u64,
                ..*old(conn)
            }),
            old(conn).prepare_ok && old(conn).execute_ok && !old(conn).query_id_ok ==> r == Err::<
                u64,
                Error,
            >(old(conn).spec_failure()) && *final(conn) == (Connection {
                next_stmt: (old(conn).next_stmt + 1) as u64,
                ..*old(conn)
            }),
            old(conn).prepare_ok && old(conn).execute_ok && old(conn).query_id_ok ==> r == Ok::<
                u64,
                Error,
            >(old(conn).next_query_id) && old(conn).next_query_id >= 1 && *final(conn) == (Connection {
                next_stmt: (old(conn).next_stmt + 1) as u64,
                next_query_id: (old(conn).next_query_id + 1) as u64,
                ..*old(conn)
            }),
    {
        let stmt = match conn.prepare_stmt(self.handle, sql) {
            Err(e) => {
                return Err(e);
            },
            Ok(stmt) => stmt,
        };
        match conn.execute(stmt) {
            Err(e) => {
                conn.release_stmt(stmt);
                return Err(e);
            },
            Ok(_) => {},
        }
        let query_id = match conn.query_id(stmt) {
            Err(e) => {
                conn.release_stmt(stmt);
                return Err(e);
            },
            Ok(id) => id,
        };
        conn.release_stmt(stmt);
        Ok(query_id)
    }

    /// Tears the subscription down, idempotently.
    ///
    /// The first call revokes the registration with the external
    /// system — its live-registration count drops by one — and then
    /// hands the owned callback back for reclamation, in that order,
    /// so no in-flight callback can race the closure's release. Any
    /// later call finds the subscription already disposed, revokes
    /// nothing, and reclaims nothing.
    pub fn dispose(&mut self, conn: &mut Connection) -> (r: Option<Callback>)
        requires
            !old(self).disposed ==> old(conn).open_subscrs >= 1,
        ensures
            *final(self) == old(self).after_dispose(),
            r == old(self).dispose_reclaims(),
            old(self).disposed ==> *final(conn) == *old(conn),
            !old(self).disposed ==> *final(conn) == (Connection {
                open_subscrs: (old(conn).open_subscrs - 1) as u64,
                ..*old(conn)
            }),
    {
        if self.disposed {
            self.callback = None;
            return None;
        }
        conn.unsubscribe(self.handle);
        self.disposed = true;
        let reclaimed = self.callback;
        self.callback = None;
        reclaimed
    }
}

/// Law: teardown reclaims the boxed callback exactly once. After one
/// teardown the subscription is disposed; a second teardown reclaims
/// nothing and leaves the subscription exactly as the first left it.
pub proof fn lemma_dispose_idempotent(s: Subscription)
    ensures
        s.after_dispose().disposed,
        s.after_dispose().dispose_reclaims() is None,
        s.after_dispose().after_dispose() == s.after_dispose(),
{
}

} // verus!
