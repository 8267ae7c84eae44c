//! A plain-value model of the external driver the subsystem talks to.
//!
//! Connection establishment, statement execution and the wire protocol
//! are external collaborators: this subsystem only configures them and
//! reacts to their verdicts. [`Connection`] models that collaborator
//! as explicit state — scripted verdicts for each call it can refuse,
//! and resource counters for the handles it hands out — so that the
//! subscription logic is verified for every outcome the driver can
//! produce, and tests can probe resource counts directly.

use crate::error::Error;
use vstd::prelude::*;

verus! {

/// Namespace code: message-queue arrivals.
pub const NS_AQ: u32 = 1;

/// Namespace code: database object, query and row changes.
pub const NS_DBCHANGE: u32 = 2;

/// Protocol code: in-process callback through the trampoline.
pub const PROTO_CALLBACK: u32 = 0;

/// Protocol code: out-of-process delivery to a mail address.
pub const PROTO_MAIL: u32 = 1;

/// Protocol code: out-of-process delivery to a stored procedure.
pub const PROTO_PLSQL: u32 = 2;

/// Protocol code: out-of-process delivery to an HTTP endpoint.
pub const PROTO_HTTP: u32 = 3;

/// Grouping-class code: no grouping configured.
pub const GROUPING_CLASS_NONE: u8 = 0;

/// Grouping-class code: batch notifications over a time window.
pub const GROUPING_CLASS_TIME: u8 = 1;

/// Grouping-type code: no grouping type configured.
pub const GROUPING_TYPE_NONE: u8 = 0;

/// Grouping-type code: summarize a batch.
pub const GROUPING_TYPE_SUMMARY: u8 = 1;

/// Grouping-type code: deliver the last notification of a batch.
pub const GROUPING_TYPE_LAST: u8 = 2;

/// The registration request handed to the external system's create
/// call: every configured field of a form, translated to the codes and
/// integer widths the external system expects.
#[derive(Clone, Debug)]
pub struct CreateParams {
    /// Namespace code, one of the `NS_*` values.
    pub namespace: u32,
    /// Protocol code, one of the `PROTO_*` values.
    pub protocol: u32,
    /// The opaque context token of the boxed callback, when delivery
    /// is in-process; the external system passes it back unchanged on
    /// every invocation.
    pub callback_context: Option<u64>,
    /// The recipient string, when delivery is out-of-process.
    pub recipient: Option<String>,
    /// Quality-of-service flag word.
    pub qos: u32,
    /// Operation filter flag word.
    pub operations: u32,
    /// Network port for the notification listener.
    pub port_number: u32,
    /// Timeout in whole seconds, already narrowed to the external
    /// system's width.
    pub timeout: u32,
    /// The subscription's symbolic name.
    pub name: String,
    /// The listener's IP address.
    pub ip_address: String,
    /// Grouping-class code, one of the `GROUPING_CLASS_*` values.
    pub grouping_class: u8,
    /// The grouping time window in whole seconds, already narrowed.
    pub grouping_value: u32,
    /// Grouping-type code, one of the `GROUPING_TYPE_*` values.
    pub grouping_type: u8,
}

/// The modeled external driver.
///
/// The verdict fields script what the driver would answer; the
/// counters mirror the handles it has handed out and not yet taken
/// back, so `open_stmts` and `open_subscrs` serve as the external
/// resource-count probe.
#[derive(Clone, Debug)]
pub struct Connection {
    /// Verdict of the next create-subscription call.
    pub subscribe_ok: bool,
    /// Verdict of the next statement-prepare call.
    pub prepare_ok: bool,
    /// Verdict of the next statement-execute call.
    pub execute_ok: bool,
    /// Verdict of the next query-identifier fetch.
    pub query_id_ok: bool,
    /// The error code a refused call reports.
    pub fail_code: i32,
    /// The error message a refused call reports.
    pub fail_message: String,
    /// Statement handles currently open.
    pub open_stmts: u64,
    /// Subscription registrations currently live.
    pub open_subscrs: u64,
    /// The next statement handle to hand out; never zero.
    pub next_stmt: u64,
    /// The next subscription handle to hand out; never zero.
    pub next_handle: u64,
    /// The next query identifier to assign; never zero.
    pub next_query_id: u64,
    /// The last registration request that succeeded.
    pub last_params: Option<CreateParams>,
}

impl Connection {
    /// The handles and identifiers this driver hands out are never
    /// zero.
    pub open spec fn wf(self) -> bool {
        &&& self.next_stmt >= 1
        &&& self.next_handle >= 1
        &&& self.next_query_id >= 1
    }

    /// A fresh driver that accepts every call, with no open handles.
    pub fn new() -> (r: Connection)
        ensures
            r.wf(),
            r.subscribe_ok,
            r.prepare_ok,
            r.execute_ok,
            r.query_id_ok,
            r.fail_code == 0,
            r.fail_message@ == Seq::<char>::empty(),
            r.open_stmts == 0,
            r.open_subscrs == 0,
            r.next_stmt == 1,
            r.next_handle == 1,
            r.next_query_id == 1,
            r.last_params is None,
    {
        Connection {
            subscribe_ok: true,
            prepare_ok: true,
            execute_ok: true,
            query_id_ok: true,
            fail_code: 0,
            fail_message: String::new(),
            open_stmts: 0,
            open_subscrs: 0,
            next_stmt: 1,
            next_handle: 1,
            next_query_id: 1,
            last_params: None,
        }
    }

    /// The error a refused call reports, code and message verbatim.
    pub open spec fn spec_failure(self) -> Error {
        Error::ExternalFailure { code: self.fail_code, message: self.fail_message }
    }

    fn failure(&self) -> (r: Error)
        ensures
            r == self.spec_failure(),
    {
        Error::ExternalFailure { code: self.fail_code, message: self.fail_message.clone() }
    }

    /// The external create-subscription call: registers the request
    /// and hands out an opaque, nonzero registration handle, or
    /// refuses with its error and changes nothing.
    pub fn subscribe(&mut self, params: CreateParams) -> (r: Result<u64, Error>)
        requires
            old(self).wf(),
            old(self).next_handle < u64::MAX,
            old(self).open_subscrs < u64::MAX,
        ensures
            final(self).wf(),
            old(self).subscribe_ok ==> r == Ok::<u64, Error>(old(self).next_handle)
                && *final(self) == (Connection {
                    next_handle: (old(self).next_handle + 1) as u64,
                    open_subscrs: (old(self).open_subscrs + 1) as u64,
                    last_params: Some(params),
                    ..*old(self)
                }),
            !old(self).subscribe_ok ==> r == Err::<u64, Error>(old(self).spec_failure())
                && *final(self) == *old(self),
    {
        if self.subscribe_ok {
            let handle = self.next_handle;
            self.next_handle = self.next_handle + 1;
            self.open_subscrs = self.open_subscrs + 1;
            self.last_params = Some(params);
            Ok(handle)
        } else {
            Err(self.failure())
        }
    }

    /// The external statement-prepare call against a live
    /// subscription: opens a transient statement handle, or refuses
    /// with its error and opens nothing.
    pub fn prepare_stmt(&mut self, _subscr_handle: u64, _sql: &str) -> (r: Result<u64, Error>)
        requires
            old(self).wf(),
            old(self).next_stmt < u64::MAX,
            old(self).open_stmts < u64::MAX,
        ensures
            final(self).wf(),
            old(self).prepare_ok ==> r == Ok::<u64, Error>(old(self).next_stmt)
                && *final(self) == (Connection {
                    next_stmt: (old(self).next_stmt + 1) as u64,
                    open_stmts: (old(self).open_stmts + 1) as u64,
                    ..*old(self)
                }),
            !old(self).prepare_ok ==> r == Err::<u64, Error>(old(self).spec_failure())
                && *final(self) == *old(self),
    {
        if self.prepare_ok {
            let stmt = self.next_stmt;
            self.next_stmt = self.next_stmt + 1;
            self.open_stmts = self.open_stmts + 1;
            Ok(stmt)
        } else {
            Err(self.failure())
        }
    }

    /// The external statement-execute call, required to establish a
    /// watch even though the caller wants no rows; changes no driver
    /// state either way.
    pub fn execute(&mut self, _stmt: u64) -> (r: Result<(), Error>)
        ensures
            *final(self) == *old(self),
            old(self).execute_ok ==> r is Ok,
            !old(self).execute_ok ==> r == Err::<(), Error>(old(self).spec_failure()),
    {
        if self.execute_ok {
            Ok(())
        } else {
            Err(self.failure())
        }
    }

    /// The external query-identifier fetch: assigns the next nonzero
    /// identifier, or refuses with its error and changes nothing.
    pub fn query_id(&mut self, _stmt: u64) -> (r: Result<u64, Error>)
        requires
            old(self).wf(),
            old(self).next_query_id < u64::MAX,
        ensures
            final(self).wf(),
            old(self).query_id_ok ==> r == Ok::<u64, Error>(old(self).next_query_id)
                && old(self).next_query_id >= 1
                && *final(self) == (Connection {
                    next_query_id: (old(self).next_query_id + 1) as u64,
                    ..*old(self)
                }),
            !old(self).query_id_ok ==> r == Err::<u64, Error>(old(self).spec_failure())
                && *final(self) == *old(self),
    {
        if self.query_id_ok {
            let id = self.next_query_id;
            self.next_query_id = self.next_query_id + 1;
            Ok(id)
        } else {
            Err(self.failure())
        }
    }

    /// The external statement-release call: closes a transient
    /// statement handle. It cannot fail and is called on every exit
    /// path of an operation that opened one.
    pub fn release_stmt(&mut self, _stmt: u64)
        requires
            old(self).open_stmts >= 1,
        ensures
            *final(self) == (Connection {
                open_stmts: (old(self).open_stmts - 1) as u64,
                ..*old(self)
            }),
    {
        self.open_stmts = self.open_stmts - 1;
    }

    /// The external registration-release call: revokes a live
    /// registration, after which the external system stops issuing
    /// callbacks for it.
    pub fn unsubscribe(&mut self, _subscr_handle: u64)
        requires
            old(self).open_subscrs >= 1,
        ensures
            *final(self) == (Connection {
                open_subscrs: (old(self).open_subscrs - 1) as u64,
                ..*old(self)
            }),
    {
        self.open_subscrs = self.open_subscrs - 1;
    }
}

} // verus!
