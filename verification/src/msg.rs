//! Plain-value image of the foreign notification record.
//!
//! The external delivery system hands the trampoline a raw record whose
//! nested collections are described by a count and a reference. Here
//! that record is mirrored field for field with owned plain values; a
//! count is embodied in the length of its vector, so a decoder walking
//! it can never over-read, and a zero count is simply an empty vector.

use vstd::prelude::*;

verus! {

/// Event-kind code: instance startup.
pub const EVT_STARTUP: u32 = 1;

/// Event-kind code: instance shutdown.
pub const EVT_SHUTDOWN: u32 = 2;

/// Event-kind code: shutdown of any instance.
pub const EVT_SHUTDOWN_ANY: u32 = 3;

/// Event-kind code: the subscription was deregistered; terminal for
/// the subscription.
pub const EVT_DEREG: u32 = 5;

/// Event-kind code: a watched object changed.
pub const EVT_OBJCHANGE: u32 = 6;

/// Event-kind code: a watched query's result changed.
pub const EVT_QUERYCHANGE: u32 = 7;

/// Event-kind code: a message arrived on a watched queue.
pub const EVT_QUEUE: u32 = 100;

/// The error record a notification may embed when delivery failed
/// server-side.
#[derive(Clone, Debug)]
pub struct RawError {
    /// The server's error code.
    pub code: i32,
    /// The server's error message.
    pub message: String,
}

/// One changed row as the foreign record reports it.
#[derive(Clone, Debug)]
pub struct RawRow {
    /// Raw operation flag word.
    pub operation: u32,
    /// The row's identifier.
    pub rowid: String,
}

/// One changed table as the foreign record reports it.
#[derive(Clone, Debug)]
pub struct RawTable {
    /// Raw operation flag word.
    pub operation: u32,
    /// The table's name.
    pub name: String,
    /// Row-level detail; empty unless row identifiers were requested
    /// at subscription time.
    pub rows: Vec<RawRow>,
}

/// One registered query as the foreign record reports it.
#[derive(Clone, Debug)]
pub struct RawQuery {
    /// The identifier assigned when the query was registered.
    pub id: u64,
    /// Raw operation flag word.
    pub operation: u32,
    /// The tables the change touched.
    pub tables: Vec<RawTable>,
}

/// The raw notification record pushed by the external delivery system.
#[derive(Clone, Debug)]
pub struct RawMessage {
    /// Event-kind code, one of the `EVT_*` values or something newer.
    pub event_type: u32,
    /// The reporting database's name.
    pub db_name: String,
    /// Changed tables, for object-change events.
    pub tables: Vec<RawTable>,
    /// Affected queries, for query-result-change events.
    pub queries: Vec<RawQuery>,
    /// The transaction's identifier.
    pub tx_id: Vec<u8>,
    /// The queue's name, for message-queue events.
    pub queue_name: String,
    /// The consumer's name, for message-queue events.
    pub consumer_name: String,
    /// Nonzero while the subscription is still registered.
    pub registered: i32,
    /// The embedded error, if delivery failed server-side.
    pub error: Option<RawError>,
}

} // verus!
