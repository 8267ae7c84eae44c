//! The subsystem's error taxonomy.

use vstd::prelude::*;

verus! {

/// Why a subscription operation or a notification decode failed.
#[derive(Clone, Debug, PartialEq)]
pub enum Error {
    /// The external system refused a create, prepare, execute or
    /// release call; carries its code and message verbatim.
    ExternalFailure { code: i32, message: String },
    /// A notification carried an event-kind code this client does not
    /// recognize; surfaced rather than silently coerced, so that
    /// callers can detect protocol drift.
    UnsupportedEventKind(u32),
    /// A configured duration does not fit the integer width the
    /// external system expects.
    ConversionError,
    /// The notification itself embeds a delivery-time error from the
    /// server, decoded and surfaced in place of an event.
    EmbeddedMessageError { code: i32, message: String },
}

} // verus!
