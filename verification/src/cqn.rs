//! Change notification: decoded events for row, table and query
//! mutations, and the delivery protocol that subscribes to them.

use crate::conn::NS_DBCHANGE;
use crate::conn::PROTO_CALLBACK;
use crate::conn::PROTO_HTTP;
use crate::conn::PROTO_MAIL;
use crate::conn::PROTO_PLSQL;
use crate::error::Error;
use crate::flags::OpCode;
use crate::form::Callback;
use crate::form::SubscriptionForm;
use crate::flags::truncate_op_bits;
use crate::msg::EVT_DEREG;
use crate::msg::EVT_OBJCHANGE;
use crate::msg::EVT_QUERYCHANGE;
use crate::msg::EVT_SHUTDOWN;
use crate::msg::EVT_SHUTDOWN_ANY;
use crate::msg::EVT_STARTUP;
use crate::msg::RawMessage;
use crate::msg::RawQuery;
use crate::msg::RawRow;
use crate::msg::RawTable;
use vstd::prelude::*;

verus! {

/// How change notifications are delivered: through an in-process
/// callback, or out of process to an addressed recipient.
#[derive(Clone, Debug)]
pub enum Protocol {
    /// In-process delivery through the trampoline; holds the opaque
    /// context token under which the embedding layer keeps the user's
    /// change-event closure.
    Callback(u64),
    /// Delivery to a mail address.
    Mail(String),
    /// Delivery to a stored procedure.
    PlSql(String),
    /// Delivery to an HTTP endpoint.
    Http(String),
}

impl Protocol {
    /// In-process delivery: `token` is the opaque context token under
    /// which the embedding layer keeps the user's change-event
    /// closure.
    pub fn callback(token: u64) -> (r: Protocol)
        ensures
            r == Protocol::Callback(token),
    {
        Protocol::Callback(token)
    }
}

impl crate::form::Protocol for Protocol {
    open spec fn spec_namespace(&self) -> u32 {
        NS_DBCHANGE
    }

    open spec fn spec_protocol(&self) -> u32 {
        match *self {
            Protocol::Callback(_) => PROTO_CALLBACK,
            Protocol::Mail(_) => PROTO_MAIL,
            Protocol::PlSql(_) => PROTO_PLSQL,
            Protocol::Http(_) => PROTO_HTTP,
        }
    }

    open spec fn spec_callback(&self) -> Option<Callback> {
        match *self {
            Protocol::Callback(t) => Some(Callback::Cqn(t)),
            _ => None,
        }
    }

    open spec fn spec_recipient(&self) -> Option<String> {
        match *self {
            Protocol::Callback(_) => None,
            Protocol::Mail(rec) => Some(rec),
            Protocol::PlSql(rec) => Some(rec),
            Protocol::Http(rec) => Some(rec),
        }
    }

    fn init_form(self, form: &mut SubscriptionForm) {
        form.namespace = NS_DBCHANGE;
        match self {
            Protocol::Callback(token) => {
                form.protocol = PROTO_CALLBACK;
                form.callback = Some(Callback::Cqn(token));
                form.recipient = None;
            },
            Protocol::Mail(rec) => {
                form.protocol = PROTO_MAIL;
                form.callback = None;
                form.recipient = Some(rec);
            },
            Protocol::PlSql(rec) => {
                form.protocol = PROTO_PLSQL;
                form.callback = None;
                form.recipient = Some(rec);
            },
            Protocol::Http(rec) => {
                form.protocol = PROTO_HTTP;
                form.callback = None;
                form.recipient = Some(rec);
            },
        }
    }
}

/// The kind of a change notification.
#[derive(Clone, Copy, Debug, PartialEq, Eq, Structural)]
pub enum EventType {
    /// A watched object changed.
    ObjectChange,
    /// A watched query's result changed.
    QueryResultChange,
    /// The instance started.
    Startup,
    /// The instance shut down.
    Shutdown,
    /// Any instance shut down.
    ShutdownAny,
    /// The subscription was deregistered; terminal for the
    /// subscription.
    Deregister,
}

/// Whether a raw event-kind code names a change-notification kind this
/// client knows.
pub open spec fn change_code_known(code: u32) -> bool {
    ||| code == EVT_STARTUP
    ||| code == EVT_SHUTDOWN
    ||| code == EVT_SHUTDOWN_ANY
    ||| code == EVT_DEREG
    ||| code == EVT_OBJCHANGE
    ||| code == EVT_QUERYCHANGE
}

/// The change-notification kind a known code names.
pub open spec fn change_kind_of(code: u32) -> EventType {
    if code == EVT_OBJCHANGE {
        EventType::ObjectChange
    } else if code == EVT_QUERYCHANGE {
        EventType::QueryResultChange
    } else if code == EVT_STARTUP {
        EventType::Startup
    } else if code == EVT_SHUTDOWN {
        EventType::Shutdown
    } else if code == EVT_SHUTDOWN_ANY {
        EventType::ShutdownAny
    } else {
        EventType::Deregister
    }
}

impl EventType {
    /// Decodes a raw event-kind code. An unknown code is an error, if
    /// and only if: this client refuses to guess at protocol drift.
    pub fn from_code(code: u32) -> (r: Result<EventType, Error>)
        ensures
            change_code_known(code) ==> r == Ok::<EventType, Error>(change_kind_of(code)),
            !change_code_known(code) ==> r == Err::<EventType, Error>(
                Error::UnsupportedEventKind(code),
            ),
    {
        if code == EVT_OBJCHANGE {
            Ok(EventType::ObjectChange)
        } else if code == EVT_QUERYCHANGE {
            Ok(EventType::QueryResultChange)
        } else if code == EVT_STARTUP {
            Ok(EventType::Startup)
        } else if code == EVT_SHUTDOWN {
            Ok(EventType::Shutdown)
        } else if code == EVT_SHUTDOWN_ANY {
            Ok(EventType::ShutdownAny)
        } else if code == EVT_DEREG {
            Ok(EventType::Deregister)
        } else {
            Err(Error::UnsupportedEventKind(code))
        }
    }
}

/// One changed row: the reported operations and the row's identifier.
#[derive(Clone, Debug)]
pub struct Row {
    /// What happened to the row.
    pub operation: OpCode,
    /// The row's identifier.
    pub rowid: String,
}

/// `r` is the decoding of the raw row `src`.
pub open spec fn row_decoded(src: RawRow, r: Row) -> bool {
    &&& r.operation.bits == truncate_op_bits(src.operation)
    &&& r.rowid == src.rowid
}

impl Row {
    /// Decodes one raw row record.
    pub fn from_raw(src: &RawRow) -> (r: Row)
        ensures
            row_decoded(*src, r),
    {
        Row { operation: OpCode::from_bits_truncate(src.operation), rowid: src.rowid.clone() }
    }

    /// What happened to the row.
    pub fn operation(&self) -> (r: &OpCode)
        ensures
            *r == self.operation,
    {
        &self.operation
    }

    /// The row's identifier.
    pub fn rowid(&self) -> (r: &str)
        ensures
            r@ == self.rowid@,
    {
        self.rowid.as_str()
    }
}

/// One changed table: the reported operations, the table's name, and
/// row-level detail where it was requested.
#[derive(Clone, Debug)]
pub struct Table {
    /// What happened to the table.
    pub operation: OpCode,
    /// The table's name.
    pub name: String,
    /// The changed rows; empty unless row identifiers were requested.
    pub rows: Vec<Row>,
}

/// `r` is the decoding of the raw table `src`, rows included, in
/// order.
pub open spec fn table_decoded(src: RawTable, r: Table) -> bool {
    &&& r.operation.bits == truncate_op_bits(src.operation)
    &&& r.name == src.name
    &&& r.rows.len() == src.rows.len()
    &&& forall|i: int| 0 <= i < src.rows.len() ==> row_decoded(src.rows[i], #[trigger] r.rows[i])
}

/// `r` is the elementwise decoding of the raw tables `src`, in order
/// and exactly as many as the record states.
pub open spec fn tables_decoded(src: Seq<RawTable>, r: Seq<Table>) -> bool {
    &&& r.len() == src.len()
    &&& forall|i: int| 0 <= i < src.len() ==> table_decoded(src[i], #[trigger] r[i])
}

impl Table {
    /// Decodes one raw table record and every row under it.
    pub fn from_raw(src: &RawTable) -> (r: Table)
        ensures
            table_decoded(*src, r),
    {
        let mut rows: Vec<Row> = Vec::new();
        let mut i: usize = 0;
        while i < src.rows.len()
            invariant
                i <= src.rows.len(),
                rows.len() == i,
                forall|j: int| 0 <= j < i ==> row_decoded(src.rows[j], #[trigger] rows[j]),
            decreases src.rows.len() - i,
        {
            rows.push(Row::from_raw(&src.rows[i]));
            i = i + 1;
        }
        Table {
            operation: OpCode::from_bits_truncate(src.operation),
            name: src.name.clone(),
            rows,
        }
    }

    /// What happened to the table.
    pub fn operation(&self) -> (r: &OpCode)
        ensures
            *r == self.operation,
    {
        &self.operation
    }

    /// The table's name.
    pub fn name(&self) -> (r: &str)
        ensures
            r@ == self.name@,
    {
        self.name.as_str()
    }

    /// The changed rows.
    pub fn rows(&self) -> (r: &Vec<Row>)
        ensures
            *r == self.rows,
    {
        &self.rows
    }
}

/// Decodes a counted run of raw table records, tolerating a zero
/// count.
pub fn tables_from_raw(src: &Vec<RawTable>) -> (r: Vec<Table>)
    ensures
        tables_decoded(src@, r@),
{
    let mut tables: Vec<Table> = Vec::new();
    let mut i: usize = 0;
    while i < src.len()
        invariant
            i <= src.len(),
            tables.len() == i,
            forall|j: int| 0 <= j < i ==> table_decoded(src[j], #[trigger] tables[j]),
        decreases src.len() - i,
    {
        tables.push(Table::from_raw(&src[i]));
        i = i + 1;
    }
    tables
}

/// One registered query whose result changed.
#[derive(Clone, Debug)]
pub struct Query {
    /// The identifier assigned when the query was registered; it
    /// correlates the notification back to that query.
    pub id: u64,
    /// What happened to the query's result.
    pub operation: OpCode,
    /// The tables the change touched.
    pub tables: Vec<Table>,
}

/// `r` is the decoding of the raw query `src`, tables included.
pub open spec fn query_decoded(src: RawQuery, r: Query) -> bool {
    &&& r.id == src.id
    &&& r.operation.bits == truncate_op_bits(src.operation)
    &&& tables_decoded(src.tables@, r.tables@)
}

/// `r` is the elementwise decoding of the raw queries `src`.
pub open spec fn queries_decoded(src: Seq<RawQuery>, r: Seq<Query>) -> bool {
    &&& r.len() == src.len()
    &&& forall|i: int| 0 <= i < src.len() ==> query_decoded(src[i], #[trigger] r[i])
}

impl Query {
    /// Decodes one raw query record and every table under it.
    pub fn from_raw(src: &RawQuery) -> (r: Query)
        ensures
            query_decoded(*src, r),
    {
        Query {
            id: src.id,
            operation: OpCode::from_bits_truncate(src.operation),
            tables: tables_from_raw(&src.tables),
        }
    }

    /// The identifier assigned at query registration.
    pub fn id(&self) -> (r: u64)
        ensures
            r == self.id,
    {
        self.id
    }

    /// What happened to the query's result.
    pub fn operation(&self) -> (r: &OpCode)
        ensures
            *r == self.operation,
    {
        &self.operation
    }

    /// The tables the change touched.
    pub fn tables(&self) -> (r: &Vec<Table>)
        ensures
            *r == self.tables,
    {
        &self.tables
    }
}

/// Decodes a counted run of raw query records, tolerating a zero
/// count.
pub fn queries_from_raw(src: &Vec<RawQuery>) -> (r: Vec<Query>)
    ensures
        queries_decoded(src@, r@),
{
    let mut queries: Vec<Query> = Vec::new();
    let mut i: usize = 0;
    while i < src.len()
        invariant
            i <= src.len(),
            queries.len() == i,
            forall|j: int| 0 <= j < i ==> query_decoded(src[j], #[trigger] queries[j]),
        decreases src.len() - i,
    {
        queries.push(Query::from_raw(&src[i]));
        i = i + 1;
    }
    queries
}

/// A decoded change notification.
#[derive(Clone, Debug)]
pub struct Event {
    /// The kind of change.
    pub event_type: EventType,
    /// The reporting database's name.
    pub database: String,
    /// Changed tables, for object-change events.
    pub tables: Vec<Table>,
    /// Affected queries, for query-result-change events.
    pub queries: Vec<Query>,
    /// The transaction's identifier.
    pub transaction_id: Vec<u8>,
    /// Whether the subscription is still registered.
    pub registered: bool,
}

/// `ev` is the faithful decoding of the raw record `msg`.
pub open spec fn event_decoded(msg: RawMessage, ev: Event) -> bool {
    &&& change_code_known(msg.event_type)
    &&& ev.event_type == change_kind_of(msg.event_type)
    &&& ev.database == msg.db_name
    &&& tables_decoded(msg.tables@, ev.tables@)
    &&& queries_decoded(msg.queries@, ev.queries@)
    &&& ev.transaction_id@ == msg.tx_id@
    &&& ev.registered == (msg.registered != 0)
}

/// What decoding the raw record `msg` as a change notification must
/// produce: the embedded error verbatim if there is one, an error for
/// an unknown event-kind code, and otherwise the faithfully decoded
/// event.
pub open spec fn decodes_to(msg: RawMessage, r: Result<Event, Error>) -> bool {
    match msg.error {
        Some(e) => r == Err::<Event, Error>(
            Error::EmbeddedMessageError { code: e.code, message: e.message },
        ),
        None => {
            if change_code_known(msg.event_type) {
                &&& r matches Ok(ev)
                &&& event_decoded(msg, ev)
            } else {
                r == Err::<Event, Error>(Error::UnsupportedEventKind(msg.event_type))
            }
        },
    }
}

fn copy_bytes(src: &Vec<u8>) -> (r: Vec<u8>)
    ensures
        r@ == src@,
{
    let mut r: Vec<u8> = Vec::new();
    let mut i: usize = 0;
    while i < src.len()
        invariant
            i <= src.len(),
            r@ == src@.take(i as int),
        decreases src.len() - i,
    {
        let b = src[i];
        r.push(b);
        proof {
            assert(src@.take(i + 1 as int) =~= src@.take(i as int).push(src@[i as int]));
        }
        i = i + 1;
    }
    proof {
        assert(src@.take(src@.len() as int) =~= src@);
    }
    r
}

impl Event {
    /// Decodes a raw notification record into a change notification,
    /// or the error it carries or implies.
    pub fn new(msg: &RawMessage) -> (r: Result<Event, Error>)
        ensures
            decodes_to(*msg, r),
    {
        match &msg.error {
            Some(e) => Err(
                Error::EmbeddedMessageError { code: e.code, message: e.message.clone() },
            ),
            None => {
                match EventType::from_code(msg.event_type) {
                    Err(e) => Err(e),
                    Ok(event_type) => Ok(
                        Event {
                            event_type,
                            database: msg.db_name.clone(),
                            tables: tables_from_raw(&msg.tables),
                            queries: queries_from_raw(&msg.queries),
                            transaction_id: copy_bytes(&msg.tx_id),
                            registered: msg.registered != 0,
                        },
                    ),
                }
            },
        }
    }

    /// The kind of change.
    pub fn event_type(&self) -> (r: &EventType)
        ensures
            *r == self.event_type,
    {
        &self.event_type
    }

    /// The reporting database's name.
    pub fn database(&self) -> (r: &str)
        ensures
            r@ == self.database@,
    {
        self.database.as_str()
    }

    /// The changed tables.
    pub fn tables(&self) -> (r: &Vec<Table>)
        ensures
            *r == self.tables,
    {
        &self.tables
    }

    /// The affected queries.
    pub fn queries(&self) -> (r: &Vec<Query>)
        ensures
            *r == self.queries,
    {
        &self.queries
    }

    /// The transaction's identifier.
    pub fn transaction_id(&self) -> (r: &Vec<u8>)
        ensures
            *r == self.transaction_id,
    {
        &self.transaction_id
    }

    /// Whether the subscription is still registered.
    pub fn registered(&self) -> (r: bool)
        ensures
            r == self.registered,
    {
        self.registered
    }
}

} // verus!
