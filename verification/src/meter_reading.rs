//! The code dictionary and the extractor: mapping a decoded record set
//! onto one structured reading.

use vstd::prelude::*;

use crate::decimal::{ascii_chars, ascii_to_string, dec_bytes, int_bytes, lemma_dec_bytes_ascii,
    lemma_int_bytes_ascii, lemma_scaled_bytes_ascii, push_i64_dec, push_u64_dec, scaled_bytes,
    scaled_dec};
use crate::obis_code::ObisCode;
use crate::record::{MeterTime, RecordEntry, RecordMessage, RecordSet, ScalarValue};
use crate::unit::{spec_unit_from_u8, spec_unit_str, Unit};

verus! {

/// A cumulative counter value as reported by the meter: the measured
/// quantity is `raw / 10^(-scale)`.
///
/// The scale exponent is applied with exactly this sign convention —
/// `raw / 10^(-scale)`, that is `raw * 10^scale` — because historical
/// data depends on it; it is preserved rather than normalized.
#[derive(Debug, Clone, Copy, PartialEq, Eq, Structural)]
pub struct ScaledValue {
    /// The raw 64-bit counter.
    pub raw: u64,
    /// The decimal scale exponent; zero when the entry carried none.
    pub scale: i8,
}

/// One ingestion result: the structured, partially populated measurement
/// snapshot produced per decoded record set.
#[derive(Debug, Clone, Copy, PartialEq, Eq, Structural)]
pub struct MeterReading {
    /// The meter-internal seconds counter, when reported.
    pub meter_time: Option<u32>,
    /// The cumulative energy counter, when present.
    pub meter_reading: Option<ScaledValue>,
    /// The unit of the energy counter, when recognized.
    pub meter_reading_unit: Option<Unit>,
    /// Instantaneous power of line one, when present.
    pub line_one: Option<i32>,
    /// The unit of line one, when recognized.
    pub line_one_unit: Option<Unit>,
    /// Instantaneous power of line two, when present.
    pub line_two: Option<i32>,
    /// The unit of line two, when recognized.
    pub line_two_unit: Option<Unit>,
    /// Instantaneous power of line three, when present.
    pub line_three: Option<i32>,
    /// The unit of line three, when recognized.
    pub line_three_unit: Option<Unit>,
}

/// The reason a record set is rejected before extraction starts.
#[derive(Debug, Clone, Copy, PartialEq, Eq, Structural)]
pub enum RecordError {
    /// The record set does not hold exactly three messages.
    WrongMessageCount,
    /// The second message is not a data-list response.
    UnexpectedMessageType,
}

/// The identifier octets of the total-energy counter, `1-0:1.8.0`.
pub open spec fn obis_total_energy() -> Seq<u8> {
    seq![1u8, 0u8, 1u8, 8u8, 0u8]
}

/// The identifier octets of line one's power, `1-0:36.7.0`.
pub open spec fn obis_line_one() -> Seq<u8> {
    seq![1u8, 0u8, 36u8, 7u8, 0u8]
}

/// The identifier octets of line two's power, `1-0:56.7.0`.
pub open spec fn obis_line_two() -> Seq<u8> {
    seq![1u8, 0u8, 56u8, 7u8, 0u8]
}

/// The identifier octets of line three's power, `1-0:76.7.0`.
pub open spec fn obis_line_three() -> Seq<u8> {
    seq![1u8, 0u8, 76u8, 7u8, 0u8]
}

/// The code an entry's identifier octets name, when they are well formed.
pub open spec fn spec_entry_code(e: RecordEntry) -> Option<Seq<u8>> {
    if e.obj_name@.len() == 6 {
        Some(e.obj_name@.subrange(0, 5))
    } else {
        None
    }
}

/// The unit an entry carries, when its unit code is recognized.
pub open spec fn spec_entry_unit(e: RecordEntry) -> Option<Unit> {
    match e.unit {
        Some(u) => spec_unit_from_u8(u),
        None => None,
    }
}

/// The scale exponent of an entry; zero when absent.
pub open spec fn spec_entry_scale(e: RecordEntry) -> i8 {
    match e.scaler {
        Some(s) => s,
        None => 0i8,
    }
}

/// The reading with every field unset.
pub open spec fn spec_empty_reading() -> MeterReading {
    MeterReading {
        meter_time: None,
        meter_reading: None,
        meter_reading_unit: None,
        line_one: None,
        line_one_unit: None,
        line_two: None,
        line_two_unit: None,
        line_three: None,
        line_three_unit: None,
    }
}

/// How one entry updates the reading under construction.
///
/// Entries with malformed identifiers, identifiers outside the code
/// dictionary, or values of the wrong runtime type change nothing.
pub open spec fn spec_apply_entry(r: MeterReading, e: RecordEntry) -> MeterReading {
    match spec_entry_code(e) {
        None => r,
        Some(c) => if c == obis_total_energy() {
            match e.value {
                ScalarValue::U64(v) => MeterReading {
                    meter_reading: Some(ScaledValue { raw: v, scale: spec_entry_scale(e) }),
                    meter_reading_unit: spec_entry_unit(e),
                    meter_time: match e.val_time {
                        Some(MeterTime::SecIndex(s)) => Some(s),
                        None => None,
                    },
                    ..r
                },
                _ => r,
            }
        } else if c == obis_line_one() {
            match e.value {
                ScalarValue::I32(v) => MeterReading {
                    line_one: Some(v),
                    line_one_unit: spec_entry_unit(e),
                    ..r
                },
                _ => r,
            }
        } else if c == obis_line_two() {
            match e.value {
                ScalarValue::I32(v) => MeterReading {
                    line_two: Some(v),
                    line_two_unit: spec_entry_unit(e),
                    ..r
                },
                _ => r,
            }
        } else if c == obis_line_three() {
            match e.value {
                ScalarValue::I32(v) => MeterReading {
                    line_three: Some(v),
                    line_three_unit: spec_entry_unit(e),
                    ..r
                },
                _ => r,
            }
        } else {
            r
        },
    }
}

/// The reading extracted from a sequence of data-list entries.
pub open spec fn spec_extract(entries: Seq<RecordEntry>) -> MeterReading
    decreases entries.len(),
{
    if entries.len() == 0 {
        spec_empty_reading()
    } else {
        spec_apply_entry(spec_extract(entries.drop_last()), entries.last())
    }
}

/// Whether an entry leaves every reading unchanged: its identifier is
/// malformed, names a code outside the dictionary, or its value has the
/// wrong runtime type for the code it names.
pub open spec fn spec_entry_is_noop(e: RecordEntry) -> bool {
    forall|r: MeterReading| #[trigger] spec_apply_entry(r, e) == r
}

/// The kind of reading field an identifier addresses.
#[derive(Debug, Clone, Copy, PartialEq, Eq, Structural)]
pub enum FieldKind {
    TotalEnergy,
    LineOne,
    LineTwo,
    LineThree,
    Unknown,
}

/// Which field of the reading the code addresses.
pub open spec fn spec_classify(c: Seq<u8>) -> FieldKind {
    if c == obis_total_energy() {
        FieldKind::TotalEnergy
    } else if c == obis_line_one() {
        FieldKind::LineOne
    } else if c == obis_line_two() {
        FieldKind::LineTwo
    } else if c == obis_line_three() {
        FieldKind::LineThree
    } else {
        FieldKind::Unknown
    }
}

fn classify(code: &ObisCode) -> (r: FieldKind)
    ensures
        r == spec_classify(code@),
{
    let b = code.as_bytes();
    if b[0] == 1 && b[1] == 0 && b[3] == 8 && b[4] == 0 && b[2] == 1 {
        proof {
            assert(code@ =~= obis_total_energy());
        }
        FieldKind::TotalEnergy
    } else if b[0] == 1 && b[1] == 0 && b[3] == 7 && b[4] == 0 && b[2] == 36 {
        proof {
            assert(code@ =~= obis_line_one());
        }
        FieldKind::LineOne
    } else if b[0] == 1 && b[1] == 0 && b[3] == 7 && b[4] == 0 && b[2] == 56 {
        proof {
            assert(code@ =~= obis_line_two());
        }
        FieldKind::LineTwo
    } else if b[0] == 1 && b[1] == 0 && b[3] == 7 && b[4] == 0 && b[2] == 76 {
        proof {
            assert(code@ =~= obis_line_three());
        }
        FieldKind::LineThree
    } else {
        proof {
            if code@ == obis_total_energy() || code@ == obis_line_one() || code@
                == obis_line_two() || code@ == obis_line_three() {
                assert(false);
            }
        }
        FieldKind::Unknown
    }
}

/// The unit an entry carries, when recognized.
fn entry_unit(e: &RecordEntry) -> (r: Option<Unit>)
    ensures
        r == spec_entry_unit(*e),
{
    match e.unit {
        Some(u) => Unit::from_u8(u),
        None => None,
    }
}

/// Applies one entry to the reading under construction.
fn apply_entry(r: MeterReading, e: &RecordEntry) -> (res: MeterReading)
    ensures
        res == spec_apply_entry(r, *e),
{
    let code = match ObisCode::try_from_octet_str(e.obj_name.as_slice()) {
        Ok(code) => code,
        Err(_) => {
            return r;
        },
    };
    match classify(&code) {
        FieldKind::TotalEnergy => {
            match &e.value {
                ScalarValue::U64(v) => {
                    let scale = match e.scaler {
                        Some(s) => s,
                        None => 0,
                    };
                    let meter_time = match e.val_time {
                        Some(MeterTime::SecIndex(s)) => Some(s),
                        None => None,
                    };
                    MeterReading {
                        meter_reading: Some(ScaledValue { raw: *v, scale }),
                        meter_reading_unit: entry_unit(e),
                        meter_time,
                        ..r
                    }
                },
                _ => r,
            }
        },
        FieldKind::LineOne => {
            match &e.value {
                ScalarValue::I32(v) => MeterReading {
                    line_one: Some(*v),
                    line_one_unit: entry_unit(e),
                    ..r
                },
                _ => r,
            }
        },
        FieldKind::LineTwo => {
            match &e.value {
                ScalarValue::I32(v) => MeterReading {
                    line_two: Some(*v),
                    line_two_unit: entry_unit(e),
                    ..r
                },
                _ => r,
            }
        },
        FieldKind::LineThree => {
            match &e.value {
                ScalarValue::I32(v) => MeterReading {
                    line_three: Some(*v),
                    line_three_unit: entry_unit(e),
                    ..r
                },
                _ => r,
            }
        },
        FieldKind::Unknown => r,
    }
}

impl MeterReading {
    /// The reading with every field unset.
    pub fn empty() -> (r: MeterReading)
        ensures
            r == spec_empty_reading(),
    {
        MeterReading {
            meter_time: None,
            meter_reading: None,
            meter_reading_unit: None,
            line_one: None,
            line_one_unit: None,
            line_two: None,
            line_two_unit: None,
            line_three: None,
            line_three_unit: None,
        }
    }

    /// Produces exactly one reading from a decoded record set.
    ///
    /// The record set must hold exactly three messages, the second a
    /// data-list response; every shape of entry list then yields a
    /// reading, with malformed or unmapped entries skipped.
    pub fn parse(record_set: &RecordSet) -> (r: Result<MeterReading, RecordError>)
        ensures
            record_set.messages@.len() != 3 ==> r == Err::<MeterReading, _>(
                RecordError::WrongMessageCount,
            ),
            record_set.messages@.len() == 3 ==> match record_set.messages@[1] {
                RecordMessage::GetListResponse(entries) => r == Ok::<_, RecordError>(
                    spec_extract(entries@),
                ),
                _ => r == Err::<MeterReading, _>(RecordError::UnexpectedMessageType),
            },
    {
        if record_set.messages.len() != 3 {
            return Err(RecordError::WrongMessageCount);
        }
        let entries = match &record_set.messages[1] {
            RecordMessage::GetListResponse(entries) => entries,
            _ => {
                return Err(RecordError::UnexpectedMessageType);
            },
        };
        let mut reading = MeterReading::empty();
        let mut i: usize = 0;
        proof {
            assert(entries@.subrange(0, 0) =~= Seq::<RecordEntry>::empty());
        }
        while i < entries.len()
            invariant
                i <= entries@.len(),
                reading == spec_extract(entries@.subrange(0, i as int)),
            decreases entries@.len() - i,
        {
            reading = apply_entry(reading, &entries[i]);
            proof {
                let pre = entries@.subrange(0, i as int);
                let post = entries@.subrange(0, (i + 1) as int);
                assert(post.drop_last() =~= pre);
                assert(post.last() == entries@[i as int]);
            }
            i = i + 1;
        }
        proof {
            assert(entries@.subrange(0, entries@.len() as int) =~= entries@);
        }
        Ok(reading)
    }
}

/// Unmapped identifiers are pure no-ops: dropping such an entry anywhere
/// in the list never changes the extraction result.
pub proof fn lemma_noop_entry_skipped(prefix: Seq<RecordEntry>, e: RecordEntry, suffix: Seq<
    RecordEntry,
>)
    requires
        spec_entry_is_noop(e),
    ensures
        spec_extract(prefix + seq![e] + suffix) == spec_extract(prefix + suffix),
    decreases suffix.len(),
{
    if suffix.len() == 0 {
        assert((prefix + seq![e] + suffix).drop_last() =~= prefix);
        assert((prefix + seq![e] + suffix).last() == e);
        assert(prefix + suffix =~= prefix);
    } else {
        let sub = suffix.drop_last();
        lemma_noop_entry_skipped(prefix, e, sub);
        assert((prefix + seq![e] + suffix).drop_last() =~= prefix + seq![e] + sub);
        assert((prefix + seq![e] + suffix).last() == suffix.last());
        assert((prefix + suffix).drop_last() =~= prefix + sub);
        assert((prefix + suffix).last() == suffix.last());
    }
}

/// An entry whose identifier names a code outside the dictionary — or no
/// code at all — is a pure no-op for extraction.
pub proof fn lemma_unmapped_entry_is_noop(e: RecordEntry)
    requires
        match spec_entry_code(e) {
            None => true,
            Some(c) => spec_classify(c) == FieldKind::Unknown,
        },
    ensures
        spec_entry_is_noop(e),
{
    assert forall|r: MeterReading| #[trigger] spec_apply_entry(r, e) == r by {}
}

/// A total-energy entry whose value is not a 64-bit unsigned integer is a
/// pure no-op: the energy counter is never coerced from another type.
pub proof fn lemma_total_energy_wrong_type_is_noop(e: RecordEntry)
    requires
        spec_entry_code(e) == Some(obis_total_energy()),
        !(e.value matches ScalarValue::U64(_)),
    ensures
        spec_entry_is_noop(e),
{
    assert forall|r: MeterReading| #[trigger] spec_apply_entry(r, e) == r by {}
}

/// The text of an optional meter-time counter.
pub open spec fn spec_opt_time_text(v: Option<u32>) -> Seq<char> {
    match v {
        Some(t) => ascii_chars(dec_bytes(t as nat)),
        None => "Unknown"@,
    }
}

/// The text of an optional scaled counter value.
pub open spec fn spec_opt_scaled_text(v: Option<ScaledValue>) -> Seq<char> {
    match v {
        Some(sv) => ascii_chars(scaled_bytes(sv.raw as nat, sv.scale as int)),
        None => "Unknown"@,
    }
}

/// The text of an optional unit.
pub open spec fn spec_opt_unit_text(v: Option<Unit>) -> Seq<char> {
    match v {
        Some(u) => spec_unit_str(u)@,
        None => "Unknown"@,
    }
}

/// The text of an optional line-power value.
pub open spec fn spec_opt_power_text(v: Option<i32>) -> Seq<char> {
    match v {
        Some(p) => ascii_chars(int_bytes(p as int)),
        None => "Unknown"@,
    }
}

/// The single-line rendering of a reading: meter time, energy counter
/// with unit, and the three line powers with units.
pub open spec fn spec_display_compact(r: MeterReading) -> Seq<char> {
    spec_opt_time_text(r.meter_time) + "s, "@ + spec_opt_scaled_text(r.meter_reading) + " "@
        + spec_opt_unit_text(r.meter_reading_unit) + ", "@ + spec_opt_power_text(r.line_one)
        + " "@ + spec_opt_unit_text(r.line_one_unit) + ", "@ + spec_opt_power_text(r.line_two)
        + " "@ + spec_opt_unit_text(r.line_two_unit) + ", "@ + spec_opt_power_text(r.line_three)
        + " "@ + spec_opt_unit_text(r.line_three_unit)
}

fn push_opt_time(s: &mut String, v: Option<u32>)
    ensures
        final(s)@ == old(s)@ + spec_opt_time_text(v),
{
    match v {
        Some(t) => {
            let mut buf: Vec<u8> = Vec::new();
            push_u64_dec(&mut buf, t as u64);
            proof {
                lemma_dec_bytes_ascii(t as nat);
            }
            let txt = ascii_to_string(buf);
            s.append(txt.as_str());
        },
        None => s.append("Unknown"),
    }
}

fn push_opt_scaled(s: &mut String, v: Option<ScaledValue>)
    ensures
        final(s)@ == old(s)@ + spec_opt_scaled_text(v),
{
    match v {
        Some(sv) => {
            let buf = scaled_dec(sv.raw, sv.scale);
            proof {
                lemma_scaled_bytes_ascii(sv.raw as nat, sv.scale as int);
            }
            let txt = ascii_to_string(buf);
            s.append(txt.as_str());
        },
        None => s.append("Unknown"),
    }
}

fn push_opt_unit(s: &mut String, v: Option<Unit>)
    ensures
        final(s)@ == old(s)@ + spec_opt_unit_text(v),
{
    match v {
        Some(u) => s.append(u.as_str()),
        None => s.append("Unknown"),
    }
}

fn push_opt_power(s: &mut String, v: Option<i32>)
    ensures
        final(s)@ == old(s)@ + spec_opt_power_text(v),
{
    match v {
        Some(p) => {
            let mut buf: Vec<u8> = Vec::new();
            push_i64_dec(&mut buf, p as i64);
            proof {
                lemma_int_bytes_ascii(p as int);
            }
            let txt = ascii_to_string(buf);
            s.append(txt.as_str());
        },
        None => s.append("Unknown"),
    }
}

/// The multi-line rendering of a reading: one labelled line per field
/// group, each ending in a line break.
pub open spec fn spec_display_full(r: MeterReading) -> Seq<char> {
    "Meter Reading: "@ + spec_opt_scaled_text(r.meter_reading) + " "@ + spec_opt_unit_text(
        r.meter_reading_unit,
    ) + "\nMeter Time: "@ + spec_opt_time_text(r.meter_time) + "\nLine One: "@
        + spec_opt_power_text(r.line_one) + " "@ + spec_opt_unit_text(r.line_one_unit)
        + "\nLine Two: "@ + spec_opt_power_text(r.line_two) + " "@ + spec_opt_unit_text(
        r.line_two_unit,
    ) + "\nLine Three: "@ + spec_opt_power_text(r.line_three) + " "@ + spec_opt_unit_text(
        r.line_three_unit,
    ) + "\n"@
}

impl MeterReading {
    /// Renders the reading over several labelled lines.
    pub fn display_full(&self) -> (r: String)
        ensures
            r@ == spec_display_full(*self),
    {
        let mut s = String::new();
        s.append("Meter Reading: ");
        push_opt_scaled(&mut s, self.meter_reading);
        s.append(" ");
        push_opt_unit(&mut s, self.meter_reading_unit);
        s.append("\nMeter Time: ");
        push_opt_time(&mut s, self.meter_time);
        s.append("\nLine One: ");
        push_opt_power(&mut s, self.line_one);
        s.append(" ");
        push_opt_unit(&mut s, self.line_one_unit);
        s.append("\nLine Two: ");
        push_opt_power(&mut s, self.line_two);
        s.append(" ");
        push_opt_unit(&mut s, self.line_two_unit);
        s.append("\nLine Three: ");
        push_opt_power(&mut s, self.line_three);
        s.append(" ");
        push_opt_unit(&mut s, self.line_three_unit);
        s.append("\n");
        proof {
            assert(s@ =~= spec_display_full(*self));
        }
        s
    }

    /// Renders the reading on a single line.
    pub fn display_compact(&self) -> (r: String)
        ensures
            r@ == spec_display_compact(*self),
    {
        let mut s = String::new();
        push_opt_time(&mut s, self.meter_time);
        s.append("s, ");
        push_opt_scaled(&mut s, self.meter_reading);
        s.append(" ");
        push_opt_unit(&mut s, self.meter_reading_unit);
        s.append(", ");
        push_opt_power(&mut s, self.line_one);
        s.append(" ");
        push_opt_unit(&mut s, self.line_one_unit);
        s.append(", ");
        push_opt_power(&mut s, self.line_two);
        s.append(" ");
        push_opt_unit(&mut s, self.line_two_unit);
        s.append(", ");
        push_opt_power(&mut s, self.line_three);
        s.append(" ");
        push_opt_unit(&mut s, self.line_three_unit);
        proof {
            assert(s@ =~= spec_display_compact(*self));
        }
        s
    }
}

} // verus!
