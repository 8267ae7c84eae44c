//! Bit-flag sets describing reported operations and subscription
//! quality of service.
//!
//! Both sets are fixed-width flag words rather than closed enumerations:
//! the server may report operation bits unknown to an older client, and
//! decoding tolerates them by truncation instead of failing.

use vstd::prelude::*;

verus! {

/// No operation bits; with the query scope this asks for every operation.
pub const OP_ALL_OPS: u32 = 0x0;

/// Row-level detail covers all rows.
pub const OP_ALL_ROWS: u32 = 0x1;

/// A row was inserted.
pub const OP_INSERT: u32 = 0x2;

/// A row was updated.
pub const OP_UPDATE: u32 = 0x4;

/// A row was deleted.
pub const OP_DELETE: u32 = 0x8;

/// The watched object was altered.
pub const OP_ALTER: u32 = 0x10;

/// The watched object was dropped.
pub const OP_DROP: u32 = 0x20;

/// The server reported an operation it could not classify.
pub const OP_UNKNOWN: u32 = 0x40;

/// Union of every operation bit this client defines.
pub const OP_MASK: u32 = 0x7f;

/// Reliable delivery.
pub const QOS_RELIABLE: u32 = 0x1;

/// Deregister the subscription after the first notification.
pub const QOS_DEREG_NFY: u32 = 0x2;

/// Include row identifiers in notifications.
pub const QOS_ROWIDS: u32 = 0x4;

/// Watch query results rather than whole objects.
pub const QOS_QUERY: u32 = 0x8;

/// Best-effort evaluation of query-result watches.
pub const QOS_BEST_EFFORT: u32 = 0x10;

/// Union of every quality-of-service bit this client defines.
pub const QOS_MASK: u32 = 0x1f;

/// The operation bits that remain after dropping undefined ones.
pub open spec fn truncate_op_bits(bits: u32) -> u32 {
    bits & OP_MASK
}

/// The quality-of-service bits that remain after dropping undefined ones.
pub open spec fn truncate_qos_bits(bits: u32) -> u32 {
    bits & QOS_MASK
}

/// A set of reported operations, stored as a bit word over the `OP_*`
/// flags.
#[derive(Clone, Copy, Debug, PartialEq, Eq, Structural)]
pub struct OpCode {
    /// The raw flag word.
    pub bits: u32,
}

impl OpCode {
    /// The empty operation set.
    pub fn empty() -> (r: OpCode)
        ensures
            r.bits == 0,
    {
        OpCode { bits: 0 }
    }

    /// Decodes a raw flag word from the server. Decoding is total: bits
    /// that no defined flag names are dropped, never reported as an
    /// error, so that servers newer than this client stay readable.
    pub fn from_bits_truncate(bits: u32) -> (r: OpCode)
        ensures
            r.bits == truncate_op_bits(bits),
    {
        OpCode { bits: bits & OP_MASK }
    }

    /// The raw flag word.
    pub fn bits(&self) -> (r: u32)
        ensures
            r == self.bits,
    {
        self.bits
    }

    /// Whether every flag of `other` is present in `self`.
    pub fn contains(&self, other: OpCode) -> (r: bool)
        ensures
            r == (self.bits & other.bits == other.bits),
    {
        self.bits & other.bits == other.bits
    }

    /// The union of two operation sets.
    pub fn union(&self, other: OpCode) -> (r: OpCode)
        ensures
            r.bits == (self.bits | other.bits),
    {
        OpCode { bits: self.bits | other.bits }
    }
}

/// A set of quality-of-service options, stored as a bit word over the
/// `QOS_*` flags.
#[derive(Clone, Copy, Debug, PartialEq, Eq, Structural)]
pub struct QOS {
    /// The raw flag word.
    pub bits: u32,
}

impl QOS {
    /// The empty option set.
    pub fn empty() -> (r: QOS)
        ensures
            r.bits == 0,
    {
        QOS { bits: 0 }
    }

    /// Decodes a raw flag word, dropping bits that no defined option
    /// names; decoding is total.
    pub fn from_bits_truncate(bits: u32) -> (r: QOS)
        ensures
            r.bits == truncate_qos_bits(bits),
    {
        QOS { bits: bits & QOS_MASK }
    }

    /// The raw flag word.
    pub fn bits(&self) -> (r: u32)
        ensures
            r == self.bits,
    {
        self.bits
    }

    /// Whether every option of `other` is present in `self`.
    pub fn contains(&self, other: QOS) -> (r: bool)
        ensures
            r == (self.bits & other.bits == other.bits),
    {
        self.bits & other.bits == other.bits
    }

    /// The union of two option sets.
    pub fn union(&self, other: QOS) -> (r: QOS)
        ensures
            r.bits == (self.bits | other.bits),
    {
        QOS { bits: self.bits | other.bits }
    }
}

/// Law: decoding an operation flag word never fails and is a pure
/// truncation. Every bit that no defined flag names is absent from the
/// decoded set, and every defined flag survives exactly as the server
/// sent it.
pub proof fn lemma_op_decode_truncates(bits: u32)
    ensures
        truncate_op_bits(bits) & !OP_MASK == 0,
        truncate_op_bits(bits) & OP_ALL_ROWS == bits & OP_ALL_ROWS,
        truncate_op_bits(bits) & OP_INSERT == bits & OP_INSERT,
        truncate_op_bits(bits) & OP_UPDATE == bits & OP_UPDATE,
        truncate_op_bits(bits) & OP_DELETE == bits & OP_DELETE,
        truncate_op_bits(bits) & OP_ALTER == bits & OP_ALTER,
        truncate_op_bits(bits) & OP_DROP == bits & OP_DROP,
        truncate_op_bits(bits) & OP_UNKNOWN == bits & OP_UNKNOWN,
{
    assert((bits & 0x7fu32) & !0x7fu32 == 0) by (bit_vector);
    assert((bits & 0x7fu32) & 0x1u32 == bits & 0x1u32) by (bit_vector);
    assert((bits & 0x7fu32) & 0x2u32 == bits & 0x2u32) by (bit_vector);
    assert((bits & 0x7fu32) & 0x4u32 == bits & 0x4u32) by (bit_vector);
    assert((bits & 0x7fu32) & 0x8u32 == bits & 0x8u32) by (bit_vector);
    assert((bits & 0x7fu32) & 0x10u32 == bits & 0x10u32) by (bit_vector);
    assert((bits & 0x7fu32) & 0x20u32 == bits & 0x20u32) by (bit_vector);
    assert((bits & 0x7fu32) & 0x40u32 == bits & 0x40u32) by (bit_vector);
}

} // verus!
