//! Plain model of a decoded application-layer record set.
//!
//! The transport decoder and application parser are external collaborators;
//! what they deliver is mirrored here as plain values, so that the
//! extraction rules over record sets can be stated and verified.

use vstd::prelude::*;

verus! {

/// A typed scalar carried by one list entry.
#[derive(Debug, Clone, PartialEq, Eq)]
pub enum ScalarValue {
    Bool(bool),
    Bytes(Vec<u8>),
    I8(i8),
    I16(i16),
    I32(i32),
    I64(i64),
    U8(u8),
    U16(u16),
    U32(u32),
    U64(u64),
    /// A nested list value; only time-valued lists occur, and their
    /// contents are not consumed by extraction.
    List,
}

/// A timestamp reported by the meter.
#[derive(Debug, Clone, Copy, PartialEq, Eq, Structural)]
pub enum MeterTime {
    /// Seconds counter, usually since the meter was installed.
    SecIndex(u32),
}

/// One entry of a data-list response.
#[derive(Debug, Clone, PartialEq, Eq)]
pub struct RecordEntry {
    /// The identifier octets naming the measured quantity.
    pub obj_name: Vec<u8>,
    /// The entry's timestamp, if the meter reported one.
    pub val_time: Option<MeterTime>,
    /// The entry's unit code under the external standard, if any.
    pub unit: Option<u8>,
    /// The decimal scale exponent, if any.
    pub scaler: Option<i8>,
    /// The measured value.
    pub value: ScalarValue,
}

/// One message of a record set.
#[derive(Debug, Clone, PartialEq, Eq)]
pub enum RecordMessage {
    /// An open acknowledgment; its payload is not consumed.
    OpenResponse,
    /// A close acknowledgment; its payload is not consumed.
    CloseResponse,
    /// A data-list response carrying the measured entries.
    GetListResponse(Vec<RecordEntry>),
}

/// The decoded contents of one complete protocol frame.
#[derive(Debug, Clone, PartialEq, Eq)]
pub struct RecordSet {
    /// The messages of the frame, in order.
    pub messages: Vec<RecordMessage>,
}

} // verus!
