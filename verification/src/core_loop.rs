//! The ingestion step: one byte of the serial stream in, at most one
//! persisted and published reading out.
//!
//! The transport decoder and the application parser come from an external
//! collaborator and are consumed as an opaque decode step.  Owning the
//! byte source, and looping over it, is the embedding program's concern;
//! the decision taken for every byte — continue, skip with a reason, or
//! ingest — is made and verified here.

use vstd::prelude::*;

use sml_rs::parser::complete::File;
use sml_rs::parser::complete::Message;
use sml_rs::parser::common::ListEntry;
use sml_rs::parser::common::Value;
use sml_rs::transport::Decoder;

use crate::cache::{spec_cell_slot, LatestReadingCell};
use crate::database::{Database, InsertOutcome, StoreError, UNIQUE_CONSTRAINT_ERROR};
use crate::meter_reading::{spec_extract, MeterReading, RecordError};
use crate::record::{MeterTime, RecordEntry, RecordMessage, RecordSet, ScalarValue};

verus! {

/// The transport decoder of the external collaborator.  Verus refuses
/// the declaration of the decoder type itself (its buffer parameter is
/// bound by an external trait), so the decoder is held opaquely here.
#[verifier::external_body]
pub struct TransportDecoder {
    inner: Decoder<Vec<u8>>,
}

#[verifier::external_type_specification]
#[verifier::external_body]
pub struct ExFile<'i>(File<'i>);

#[verifier::external_type_specification]
#[verifier::external_body]
pub struct ExMessage<'i>(Message<'i>);

#[verifier::external_type_specification]
#[verifier::external_body]
pub struct ExListEntry<'i>(ListEntry<'i>);

#[verifier::external_type_specification]
#[verifier::external_body]
pub struct ExValue<'i>(Value<'i>);

#[verifier::external_type_specification]
#[verifier::external_body]
pub struct ExDecodeErr(sml_rs::transport::DecodeErr);

#[verifier::external_type_specification]
#[verifier::external_body]
pub struct ExParseError(sml_rs::parser::ParseError);

/// An error of the transport decoder: expected noise on a live line,
/// never fatal.
#[derive(Debug, Clone, PartialEq, Eq)]
pub enum TransportError {
    /// Some bytes could not be parsed and were discarded.
    DiscardedBytes(usize),
    /// An invalid escape sequence has been read.
    InvalidEsc([u8; 4]),
    /// The decoder's buffer is full; allocation failed.
    OutOfMemory,
    /// The decoded message is invalid.
    InvalidMessage {
        /// The checksum the decoder expected.
        checksum_expected: u16,
        /// The checksum found in the stream.
        checksum_found: u16,
        /// Whether the end escape sequence was misaligned.
        end_esc_misaligned: bool,
        /// The number of padding bytes.
        num_padding_bytes: u8,
    },
}

/// An error of the application-layer parser: the frame is discarded,
/// never fatal.
#[derive(Debug, Clone, PartialEq, Eq)]
pub enum SmlParseError {
    /// Additional bytes followed the end of the document.
    LeftoverInput,
    /// The input ended where more bytes were expected.
    UnexpectedEof,
    /// A type-length field could not be parsed; the parser's detail code
    /// is not carried over.
    InvalidTlf,
    /// A type-length field did not match the expected shape; the name of
    /// the expected type is carried as reported.
    TlfMismatch(&'static str),
    /// A message's checksum did not match.
    CrcMismatch,
    /// A message did not end with the end marker.
    MsgEndMismatch,
    /// An unknown or unsupported variant id was read.
    UnexpectedVariant,
}

/// What feeding one byte to the transport decoder yielded.
#[derive(Debug, Clone, PartialEq, Eq)]
pub enum DecodeOutcome {
    /// More bytes are needed.
    Incomplete,
    /// A complete framed payload.
    Complete(Vec<u8>),
    /// A framing error.
    Faulty(TransportError),
}

/// Relies on `sml_rs::transport::Decoder::new`: a fresh decoder.
#[verifier::external_body]
fn decoder_new() -> TransportDecoder {
    TransportDecoder { inner: Decoder::new() }
}

/// Moves an `sml_rs::transport::DecodeErr`'s variants and fields into the
/// library's error type, one arm each.
#[verifier::external_body]
fn transport_error(e: sml_rs::transport::DecodeErr) -> TransportError {
    match e {
        sml_rs::transport::DecodeErr::DiscardedBytes(n) => TransportError::DiscardedBytes(n),
        sml_rs::transport::DecodeErr::InvalidEsc(bytes) => TransportError::InvalidEsc(bytes),
        sml_rs::transport::DecodeErr::OutOfMemory => TransportError::OutOfMemory,
        sml_rs::transport::DecodeErr::InvalidMessage {
            checksum_mismatch,
            end_esc_misaligned,
            num_padding_bytes,
        } => TransportError::InvalidMessage {
            checksum_expected: checksum_mismatch.0,
            checksum_found: checksum_mismatch.1,
            end_esc_misaligned,
            num_padding_bytes,
        },
    }
}

/// Moves an `sml_rs::parser::ParseError`'s variants into the library's
/// error type, one arm each; the type-length detail code is dropped.
#[verifier::external_body]
fn sml_parse_error(e: sml_rs::parser::ParseError) -> SmlParseError {
    match e {
        sml_rs::parser::ParseError::LeftoverInput => SmlParseError::LeftoverInput,
        sml_rs::parser::ParseError::UnexpectedEOF => SmlParseError::UnexpectedEof,
        sml_rs::parser::ParseError::InvalidTlf(_) => SmlParseError::InvalidTlf,
        sml_rs::parser::ParseError::TlfMismatch(name) => SmlParseError::TlfMismatch(name),
        sml_rs::parser::ParseError::CrcMismatch => SmlParseError::CrcMismatch,
        sml_rs::parser::ParseError::MsgEndMismatch => SmlParseError::MsgEndMismatch,
        sml_rs::parser::ParseError::UnexpectedVariant => SmlParseError::UnexpectedVariant,
    }
}

/// Relies on `sml_rs::transport::Decoder::push_byte`: feeds one byte,
/// yielding nothing, a complete framed payload, or a framing error.
#[verifier::external_body]
fn decoder_push_byte(decoder: &mut TransportDecoder, byte: u8) -> DecodeOutcome {
    match decoder.inner.push_byte(byte) {
        Ok(None) => DecodeOutcome::Incomplete,
        Ok(Some(bytes)) => DecodeOutcome::Complete(bytes.to_vec()),
        Err(e) => DecodeOutcome::Faulty(transport_error(e)),
    }
}

/// What the application parser yields for a framed payload, modeled as
/// plain values: the parse is a function of the payload bytes alone.
pub uninterp spec fn sml_record_set_of(payload: Seq<u8>) -> Result<RecordSet, SmlParseError>;

/// Relies on `sml_rs::parser::complete::parse`: parses a framed payload
/// into an application record set, modeled as plain values.
#[verifier::external_body]
fn parse_record_set(payload: &[u8]) -> (r: Result<RecordSet, SmlParseError>)
    ensures
        r == sml_record_set_of(payload@),
{
    match sml_rs::parser::complete::parse(payload) {
        Ok(f) => Ok(record_set_of_file(&f)),
        Err(e) => Err(sml_parse_error(e)),
    }
}

/// Moves an `sml_rs` value into the library's model, one arm each;
/// nested list contents are not carried, as extraction never reads them.
#[verifier::external_body]
fn value_to_record(v: &Value<'_>) -> ScalarValue {
    match v {
        Value::Bool(b) => ScalarValue::Bool(*b),
        Value::Bytes(bs) => ScalarValue::Bytes(bs.to_vec()),
        Value::I8(x) => ScalarValue::I8(*x),
        Value::I16(x) => ScalarValue::I16(*x),
        Value::I32(x) => ScalarValue::I32(*x),
        Value::I64(x) => ScalarValue::I64(*x),
        Value::U8(x) => ScalarValue::U8(*x),
        Value::U16(x) => ScalarValue::U16(*x),
        Value::U32(x) => ScalarValue::U32(*x),
        Value::U64(x) => ScalarValue::U64(*x),
        Value::List(_) => ScalarValue::List,
    }
}

/// Moves an `sml_rs` list entry's consumed fields into the library's
/// model: identifier octets, timestamp, unit code, scale and value.
#[verifier::external_body]
fn entry_to_record(e: &ListEntry<'_>) -> RecordEntry {
    RecordEntry {
        obj_name: e.obj_name.to_vec(),
        val_time: match &e.val_time {
            Some(sml_rs::parser::common::Time::SecIndex(s)) => Some(MeterTime::SecIndex(*s)),
            None => None,
        },
        unit: e.unit,
        scaler: e.scaler,
        value: value_to_record(&e.value),
    }
}

/// Moves an `sml_rs` message's body kind into the library's model, one
/// arm each; open and close payloads are not carried, as extraction
/// never reads them.
#[verifier::external_body]
fn message_to_record(m: &Message<'_>) -> RecordMessage {
    match &m.message_body {
        sml_rs::parser::complete::MessageBody::OpenResponse(_) => RecordMessage::OpenResponse,
        sml_rs::parser::complete::MessageBody::CloseResponse(_) => RecordMessage::CloseResponse,
        sml_rs::parser::complete::MessageBody::GetListResponse(g) => {
            RecordMessage::GetListResponse(g.val_list.iter().map(entry_to_record).collect())
        },
    }
}

/// Moves an `sml_rs` file's messages into the library's record-set
/// model, in order.
#[verifier::external_body]
fn record_set_of_file(f: &File<'_>) -> RecordSet {
    RecordSet { messages: f.messages.iter().map(message_to_record).collect() }
}

/// What one byte of the stream led to.
///
/// Every variant but `Ingested` leaves the store and the cache untouched.
#[derive(Debug, Clone, PartialEq, Eq)]
pub enum ByteOutcome {
    /// The decoder needs more bytes.
    NeedMoreBytes,
    /// A framing error; expected noise, the loop continues.
    FrameFault(TransportError),
    /// A complete frame that the application parser rejected.
    ParseFault(SmlParseError),
    /// A parsed record set with the wrong message shape.
    Rejected(RecordError),
    /// A reading was extracted, persisted and published.
    Ingested {
        /// The extracted reading.
        reading: MeterReading,
        /// Whether a row was stored or a duplicate was ignored.
        outcome: InsertOutcome,
    },
}

/// The ingestion step's state: the transport decoder fed by the serial
/// byte stream.
pub struct CoreLoop {
    decoder: TransportDecoder,
    verbose: bool,
}

impl CoreLoop {
    /// Whether skip reasons should be reported by the embedding program.
    pub closed spec fn spec_verbose(&self) -> bool {
        self.verbose
    }

    /// A fresh ingestion step with an empty decoder.
    pub fn new(verbose: bool) -> (r: CoreLoop)
        ensures
            r.spec_verbose() == verbose,
    {
        CoreLoop { decoder: decoder_new(), verbose }
    }

    /// Whether skip reasons should be reported.
    pub fn verbose(&self) -> (r: bool)
        ensures
            r == self.spec_verbose(),
    {
        self.verbose
    }

    /// Drives one payload through parse, extraction, store and cache.
    ///
    /// Parse and shape failures are reported as skips and change nothing.
    /// An extracted reading is first persisted — a duplicate ingestion
    /// timestamp is a no-op reported as success — and then published to
    /// the cache.  Only store failures other than the duplicate case, and
    /// a failed wall clock, propagate as fatal.
    pub fn process_payload(
        payload: &[u8],
        database: &Database,
        cache: &mut LatestReadingCell,
    ) -> (r: Result<ByteOutcome, StoreError>)
        ensures
            sml_record_set_of(payload@) matches Err(e) ==> r == Ok::<_, StoreError>(
                ByteOutcome::ParseFault(e),
            ),
            sml_record_set_of(payload@) matches Ok(rs) ==> (rs.messages@.len() != 3 ==> r
                == Ok::<_, StoreError>(ByteOutcome::Rejected(RecordError::WrongMessageCount))),
            sml_record_set_of(payload@) matches Ok(rs) ==> (rs.messages@.len() == 3 ==> match rs
                .messages@[1] {
                RecordMessage::GetListResponse(entries) => r matches Ok(o) ==> (o matches
                    ByteOutcome::Ingested { reading, .. } && reading == spec_extract(entries@)),
                _ => r == Ok::<_, StoreError>(
                    ByteOutcome::Rejected(RecordError::UnexpectedMessageType),
                ),
            }),
            r matches Ok(ByteOutcome::Ingested { reading, outcome }) ==> spec_cell_slot(
                *final(cache),
            ) == Some(reading),
            !(r matches Ok(ByteOutcome::Ingested { .. })) ==> *final(cache) == *old(cache),
            r matches Err(StoreError::Sqlite(e)) ==> e.code != Some(UNIQUE_CONSTRAINT_ERROR as i64),
            r matches Err(e) ==> (e == StoreError::Clock || e is Sqlite),
    {
        let record_set = match parse_record_set(payload) {
            Ok(rs) => rs,
            Err(e) => {
                return Ok(ByteOutcome::ParseFault(e));
            },
        };
        let reading = match MeterReading::parse(&record_set) {
            Ok(r) => r,
            Err(RecordError::WrongMessageCount) => {
                return Ok(ByteOutcome::Rejected(RecordError::WrongMessageCount));
            },
            Err(RecordError::UnexpectedMessageType) => {
                return Ok(ByteOutcome::Rejected(RecordError::UnexpectedMessageType));
            },
        };
        let outcome = match database.insert_reading(&reading) {
            Ok(o) => o,
            Err(e) => {
                return Err(e);
            },
        };
        cache.publish(reading);
        Ok(ByteOutcome::Ingested { reading, outcome })
    }

    /// Feeds one byte of the serial stream to the decoder and, when it
    /// completes a frame, drives the frame through
    /// [`Self::process_payload`].
    pub fn process_byte(
        &mut self,
        byte: u8,
        database: &Database,
        cache: &mut LatestReadingCell,
    ) -> (r: Result<ByteOutcome, StoreError>)
        ensures
            r matches Ok(ByteOutcome::Ingested { reading, outcome }) ==> spec_cell_slot(
                *final(cache),
            ) == Some(reading),
            !(r matches Ok(ByteOutcome::Ingested { .. })) ==> *final(cache) == *old(cache),
            r matches Err(StoreError::Sqlite(e)) ==> e.code != Some(UNIQUE_CONSTRAINT_ERROR as i64),
            r matches Err(e) ==> (e == StoreError::Clock || e is Sqlite),
            final(self).spec_verbose() == old(self).spec_verbose(),
    {
        match decoder_push_byte(&mut self.decoder, byte) {
            DecodeOutcome::Incomplete => Ok(ByteOutcome::NeedMoreBytes),
            DecodeOutcome::Faulty(e) => Ok(ByteOutcome::FrameFault(e)),
            DecodeOutcome::Complete(payload) => Self::process_payload(
                payload.as_slice(),
                database,
                cache,
            ),
        }
    }
}

} // verus!
