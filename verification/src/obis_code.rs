//! Identifier codes for measured quantities, as defined by OBIS
//! (IEC 62056-61).
//!
//! A code names one measured quantity through five significant octets; its
//! textual form is `"a-b:c.d.e"`.  Raw six-octet identifiers carry a fixed
//! sentinel as their final octet, which is not part of the code.

use vstd::prelude::*;
use vstd::string::StringSliceAdditionalSpecFns;

use crate::decimal::{
    all_ascii, ascii_chars, ascii_to_string, dec_bytes, lemma_dec_bytes_ascii, push_u64_dec,
};

verus! {

/// A code as defined by OBIS, identified by its five significant octets.
#[derive(Debug, Clone, PartialEq, Eq, PartialOrd, Ord)]
pub struct ObisCode {
    inner: [u8; 5],
}

/// The error type returned when parsing an [`ObisCode`] from another type.
#[derive(Clone, Copy, Debug, PartialEq, Eq, Structural)]
pub enum ObisParseError {
    /// A component of the textual form held a number that is too large
    /// (greater than 255).
    Overflow,
    /// An unexpected separator was parsed.
    UnexpectedSeparator,
    /// The raw octet sequence has an invalid length.
    InvalidLength,
    /// The raw octet sequence's last byte is not the fixed sentinel.
    InvalidLastByte,
}

impl View for ObisCode {
    type V = Seq<u8>;

    closed spec fn view(&self) -> Seq<u8> {
        self.inner@
    }
}

/// The separator expected between components `idx` and `idx + 1` of the
/// textual form: `-`, `:`, `.`, `.`.
pub open spec fn spec_separator(idx: int) -> u8 {
    if idx == 0 {
        45u8
    } else if idx == 1 {
        58u8
    } else {
        46u8
    }
}

/// Whether `b` is an ASCII decimal digit.
pub open spec fn is_digit_byte(b: u8) -> bool {
    48 <= b <= 57
}

/// One step of the textual parse: consume byte `b` with component
/// accumulator `vals` and current component index `val_idx`.
pub open spec fn spec_parse_step(vals: Seq<u8>, val_idx: int, b: u8) -> Result<
    (Seq<u8>, int),
    ObisParseError,
> {
    if is_digit_byte(b) {
        let v = vals[val_idx] * 10 + (b - 48);
        if v > 255 {
            Err(ObisParseError::Overflow)
        } else {
            Ok((vals.update(val_idx, v as u8), val_idx))
        }
    } else if val_idx < 4 && b == spec_separator(val_idx) {
        Ok((vals, val_idx + 1))
    } else {
        Err(ObisParseError::UnexpectedSeparator)
    }
}

/// The textual parse from position `i` on, given the state reached so far.
pub open spec fn spec_parse_from(bytes: Seq<u8>, i: int, vals: Seq<u8>, val_idx: int) -> Result<
    Seq<u8>,
    ObisParseError,
>
    decreases bytes.len() - i,
{
    if i < 0 || i >= bytes.len() {
        Ok(vals)
    } else {
        match spec_parse_step(vals, val_idx, bytes[i]) {
            Err(e) => Err(e),
            Ok((vals2, idx2)) => spec_parse_from(bytes, i + 1, vals2, idx2),
        }
    }
}

/// What parsing a textual identifier yields: the five component octets, or
/// the error naming the first offending byte.
pub open spec fn spec_parse_obis(bytes: Seq<u8>) -> Result<Seq<u8>, ObisParseError> {
    spec_parse_from(bytes, 0, seq![0u8, 0u8, 0u8, 0u8, 0u8], 0)
}

/// The canonical text of the five component octets `b`:
/// `"b0-b1:b2.b3.b4"`, each component in decimal.
pub open spec fn spec_obis_text(b: Seq<u8>) -> Seq<u8> {
    dec_bytes(b[0] as nat) + seq![45u8] + dec_bytes(b[1] as nat) + seq![58u8] + dec_bytes(
        b[2] as nat,
    ) + seq![46u8] + dec_bytes(b[3] as nat) + seq![46u8] + dec_bytes(b[4] as nat)
}

/// The canonical text of a raw six-octet identifier: the text of its five
/// significant octets.
pub open spec fn spec_canonical_text(octets: Seq<u8>) -> Seq<u8> {
    spec_obis_text(octets.subrange(0, 5))
}

impl ObisCode {
    /// Parses an OBIS code from a raw octet sequence such as
    /// `&[1, 2, 3, 4, 5, 255]`.
    ///
    /// The sequence must hold exactly six octets; the final octet is the
    /// sentinel and is not part of the code.
    pub fn try_from_octet_str(value: &[u8]) -> (r: Result<ObisCode, ObisParseError>)
        ensures
            value@.len() != 6 ==> r == Err::<ObisCode, _>(ObisParseError::InvalidLength),
            value@.len() == 6 ==> (r matches Ok(c) && c@ == value@.subrange(0, 5)),
    {
        if value.len() != 6 {
            return Err(ObisParseError::InvalidLength);
        }
        let inner = [value[0], value[1], value[2], value[3], value[4]];
        proof {
            assert(inner@ =~= value@.subrange(0, 5));
        }
        Ok(ObisCode { inner })
    }

    /// Parses an OBIS code from a raw octet sequence known to be valid,
    /// such as a fixed identifier of the code dictionary.
    pub fn from_octet_str(value: &[u8]) -> (r: ObisCode)
        requires
            value@.len() == 6,
        ensures
            r@ == value@.subrange(0, 5),
    {
        match Self::try_from_octet_str(value) {
            Ok(code) => code,
            Err(_) => vstd::pervasive::unreached(),
        }
    }

    /// Parses an OBIS code from its textual form, such as `"1-0:1.8.0"`.
    pub fn try_from_str(s: &str) -> (r: Result<ObisCode, ObisParseError>)
        ensures
            r matches Ok(c) ==> spec_parse_obis(s.spec_bytes()) == Ok::<_, ObisParseError>(c@),
            r matches Err(e) ==> spec_parse_obis(s.spec_bytes()) == Err::<Seq<u8>, _>(e),
    {
        let bytes = s.as_bytes();
        let mut vals: Vec<u8> = vec![0u8, 0u8, 0u8, 0u8, 0u8];
        let mut val_idx: usize = 0;
        let mut idx: usize = 0;
        proof {
            assert(vals@ =~= seq![0u8, 0u8, 0u8, 0u8, 0u8]);
        }
        while idx < bytes.len()
            invariant
                idx <= bytes@.len(),
                val_idx <= 4,
                vals@.len() == 5,
                spec_parse_obis(s.spec_bytes()) == spec_parse_from(
                    bytes@,
                    idx as int,
                    vals@,
                    val_idx as int,
                ),
                bytes@ == s.spec_bytes(),
            decreases bytes@.len() - idx,
        {
            let b = bytes[idx];
            if 48 <= b && b <= 57 {
                let n = b - 48;
                let cur = vals[val_idx];
                let v: u16 = cur as u16 * 10 + n as u16;
                if v > 255 {
                    return Err(ObisParseError::Overflow);
                }
                vals.set(val_idx, v as u8);
            } else if val_idx < 4 && b == separator(val_idx) {
                val_idx = val_idx + 1;
            } else {
                return Err(ObisParseError::UnexpectedSeparator);
            }
            idx = idx + 1;
        }
        let inner = [vals[0], vals[1], vals[2], vals[3], vals[4]];
        proof {
            assert(inner@ =~= vals@);
        }
        Ok(ObisCode { inner })
    }

    /// Parses an OBIS code from a textual form known to be valid, such as
    /// a fixed identifier of the code dictionary.
    pub fn from_str(s: &str) -> (r: ObisCode)
        requires
            spec_parse_obis(s.spec_bytes()) matches Ok(_),
        ensures
            spec_parse_obis(s.spec_bytes()) == Ok::<_, ObisParseError>(r@),
    {
        match Self::try_from_str(s) {
            Ok(code) => code,
            Err(_) => vstd::pervasive::unreached(),
        }
    }

    /// Views this OBIS code as its five significant octets.
    pub fn as_bytes(&self) -> (r: &[u8; 5])
        ensures
            r@ == self@,
    {
        &self.inner
    }

    /// The textual form of this code, `"a-b:c.d.e"`.
    pub fn to_text(&self) -> (r: String)
        ensures
            r@ == ascii_chars(spec_obis_text(self@)),
    {
        let mut out: Vec<u8> = Vec::new();
        push_u64_dec(&mut out, self.inner[0] as u64);
        out.push(45);
        push_u64_dec(&mut out, self.inner[1] as u64);
        out.push(58);
        push_u64_dec(&mut out, self.inner[2] as u64);
        out.push(46);
        push_u64_dec(&mut out, self.inner[3] as u64);
        out.push(46);
        push_u64_dec(&mut out, self.inner[4] as u64);
        proof {
            assert(out@ =~= spec_obis_text(self@));
            lemma_dec_bytes_ascii(self@[0] as nat);
            lemma_dec_bytes_ascii(self@[1] as nat);
            lemma_dec_bytes_ascii(self@[2] as nat);
            lemma_dec_bytes_ascii(self@[3] as nat);
            lemma_dec_bytes_ascii(self@[4] as nat);
            assert(all_ascii(out@));
        }
        ascii_to_string(out)
    }
}

impl Default for ObisCode {
    /// The all-zero code.
    fn default() -> (r: Self)
        ensures
            r@ == seq![0u8, 0u8, 0u8, 0u8, 0u8],
    {
        let r = ObisCode { inner: [0, 0, 0, 0, 0] };
        proof {
            assert(r@ =~= seq![0u8, 0u8, 0u8, 0u8, 0u8]);
        }
        r
    }
}

/// The separator byte expected after component `idx` of the textual form.
fn separator(idx: usize) -> (r: u8)
    requires
        idx < 4,
    ensures
        r == spec_separator(idx as int),
{
    if idx == 0 {
        45
    } else if idx == 1 {
        58
    } else {
        46
    }
}

/// Every valid six-octet identifier round-trips through the code
/// dictionary: the textual form of the code built from it is the
/// identifier's canonical text.
pub proof fn lemma_octets_round_trip(octets: Seq<u8>, code: ObisCode)
    requires
        octets.len() == 6,
        code@ == octets.subrange(0, 5),
    ensures
        spec_obis_text(code@) == spec_canonical_text(octets),
{
}

/// The textual parse restricted to the byte range `[i, j)`: the state it
/// reaches, or the error on the way.
pub open spec fn spec_run(bytes: Seq<u8>, i: int, j: int, vals: Seq<u8>, val_idx: int) -> Result<
    (Seq<u8>, int),
    ObisParseError,
>
    decreases j - i,
{
    if i >= j {
        Ok((vals, val_idx))
    } else {
        match spec_parse_step(vals, val_idx, bytes[i]) {
            Err(e) => Err(e),
            Ok((vals2, idx2)) => spec_run(bytes, i + 1, j, vals2, idx2),
        }
    }
}

/// Splitting the whole parse at any position `j`: first the segment up to
/// `j`, then the rest from the state it reached.
proof fn lemma_parse_split(bytes: Seq<u8>, i: int, j: int, vals: Seq<u8>, val_idx: int)
    requires
        0 <= i <= j <= bytes.len(),
    ensures
        spec_parse_from(bytes, i, vals, val_idx) == match spec_run(bytes, i, j, vals, val_idx) {
            Err(e) => Err::<Seq<u8>, _>(e),
            Ok((vals2, idx2)) => spec_parse_from(bytes, j, vals2, idx2),
        },
    decreases j - i,
{
    if i < j {
        match spec_parse_step(vals, val_idx, bytes[i]) {
            Err(_) => {},
            Ok((vals2, idx2)) => {
                lemma_parse_split(bytes, i + 1, j, vals2, idx2);
            },
        }
    }
}

/// Consuming the decimal digits of `v` with a zeroed component
/// accumulates exactly `v`, with no overflow on the way.
proof fn lemma_run_digits(bytes: Seq<u8>, i: int, vals: Seq<u8>, val_idx: int, v: nat)
    requires
        v <= 255,
        vals.len() == 5,
        0 <= val_idx <= 4,
        vals[val_idx] == 0u8,
        0 <= i,
        i + dec_bytes(v).len() <= bytes.len(),
        forall|k: int| 0 <= k < dec_bytes(v).len() ==> #[trigger] bytes[i + k] == dec_bytes(v)[k],
    ensures
        spec_run(bytes, i, i + dec_bytes(v).len(), vals, val_idx) == Ok::<_, ObisParseError>(
            (vals.update(val_idx, v as u8), val_idx),
        ),
    decreases v,
{
    reveal_with_fuel(spec_run, 3);
    if v < 10 {
        let b = (48 + v) as u8;
        assert(dec_bytes(v) =~= seq![b]);
        assert(bytes[i + 0] == dec_bytes(v)[0]);
        assert(bytes[i] == b);
        assert(is_digit_byte(b));
        assert(vals[val_idx] * 10 + (b - 48) == v);
        assert(spec_parse_step(vals, val_idx, b) == Ok::<_, ObisParseError>(
            (vals.update(val_idx, v as u8), val_idx),
        ));
    } else {
        let head = dec_bytes(v / 10);
        let last = (48 + v % 10) as u8;
        assert(dec_bytes(v) == head.push(last));
        assert forall|k: int| 0 <= k < head.len() implies #[trigger] bytes[i + k] == head[k] by {
            assert(bytes[i + k] == dec_bytes(v)[k]);
            assert(head[k] == dec_bytes(v)[k]);
        }
        lemma_run_digits(bytes, i, vals, val_idx, v / 10);
        let mid = vals.update(val_idx, (v / 10) as u8);
        lemma_parse_split_run(bytes, i, i + head.len(), i + dec_bytes(v).len(), vals, val_idx);
        assert(bytes[i + head.len() as int] == dec_bytes(v)[head.len() as int]);
        assert(bytes[i + head.len()] == last);
        assert(is_digit_byte(last));
        assert(mid[val_idx] * 10 + (last - 48) == v);
        assert(spec_parse_step(mid, val_idx, last) == Ok::<_, ObisParseError>(
            (mid.update(val_idx, v as u8), val_idx),
        ));
        assert(mid.update(val_idx, v as u8) =~= vals.update(val_idx, v as u8));
    }
}

/// Composing two adjacent runs.
proof fn lemma_parse_split_run(bytes: Seq<u8>, i: int, j: int, k: int, vals: Seq<u8>, val_idx: int)
    requires
        0 <= i <= j <= k <= bytes.len(),
    ensures
        spec_run(bytes, i, k, vals, val_idx) == match spec_run(bytes, i, j, vals, val_idx) {
            Err(e) => Err::<(Seq<u8>, int), _>(e),
            Ok((vals2, idx2)) => spec_run(bytes, j, k, vals2, idx2),
        },
    decreases j - i,
{
    if i < j {
        match spec_parse_step(vals, val_idx, bytes[i]) {
            Err(_) => {},
            Ok((vals2, idx2)) => {
                lemma_parse_split_run(bytes, i + 1, j, k, vals2, idx2);
            },
        }
    }
}

/// Consuming one expected separator advances to the next component.
proof fn lemma_run_separator(bytes: Seq<u8>, i: int, vals: Seq<u8>, val_idx: int)
    requires
        0 <= val_idx < 4,
        0 <= i,
        i + 1 <= bytes.len(),
        bytes[i] == spec_separator(val_idx),
    ensures
        spec_run(bytes, i, i + 1, vals, val_idx) == Ok::<_, ObisParseError>((vals, val_idx + 1)),
{
    reveal_with_fuel(spec_run, 2);
    assert(!is_digit_byte(bytes[i]));
}

/// The canonical text of any code parses back to that code: the code
/// dictionary's textual form round-trips.
pub proof fn lemma_text_round_trip(c: Seq<u8>)
    requires
        c.len() == 5,
    ensures
        spec_parse_obis(spec_obis_text(c)) == Ok::<Seq<u8>, ObisParseError>(c),
{
    let text = spec_obis_text(c);
    let d0 = dec_bytes(c[0] as nat);
    let d1 = dec_bytes(c[1] as nat);
    let d2 = dec_bytes(c[2] as nat);
    let d3 = dec_bytes(c[3] as nat);
    let d4 = dec_bytes(c[4] as nat);
    let v0 = seq![0u8, 0u8, 0u8, 0u8, 0u8];
    let p0 = d0.len() as int;
    let p1 = p0 + 1 + d1.len();
    let p2 = p1 + 1 + d2.len();
    let p3 = p2 + 1 + d3.len();
    let p4 = p3 + 1 + d4.len();
    assert(text.len() == p4);

    let v1 = v0.update(0, c[0]);
    let v2 = v1.update(1, c[1]);
    let v3 = v2.update(2, c[2]);
    let v4 = v3.update(3, c[3]);
    let v5 = v4.update(4, c[4]);

    assert(forall|k: int| 0 <= k < d0.len() ==> text[0 + k] == d0[k]);
    lemma_run_digits(text, 0, v0, 0, c[0] as nat);
    lemma_parse_split_run(text, 0, p0, p0 + 1, v0, 0);
    assert(text[p0] == 45u8);
    lemma_run_separator(text, p0, v1, 0);
    assert(spec_run(text, 0, p0 + 1, v0, 0) == Ok::<_, ObisParseError>((v1, 1int)));

    assert(forall|k: int| 0 <= k < d1.len() ==> text[p0 + 1 + k] == d1[k]);
    assert(v1[1] == 0u8);
    lemma_run_digits(text, p0 + 1, v1, 1, c[1] as nat);
    lemma_parse_split_run(text, 0, p0 + 1, p1, v0, 0);
    lemma_parse_split_run(text, 0, p1, p1 + 1, v0, 0);
    assert(text[p1] == 58u8);
    lemma_run_separator(text, p1, v2, 1);
    assert(spec_run(text, 0, p1 + 1, v0, 0) == Ok::<_, ObisParseError>((v2, 2int)));

    assert(forall|k: int| 0 <= k < d2.len() ==> text[p1 + 1 + k] == d2[k]);
    assert(v2[2] == 0u8);
    lemma_run_digits(text, p1 + 1, v2, 2, c[2] as nat);
    lemma_parse_split_run(text, 0, p1 + 1, p2, v0, 0);
    lemma_parse_split_run(text, 0, p2, p2 + 1, v0, 0);
    assert(text[p2] == 46u8);
    lemma_run_separator(text, p2, v3, 2);
    assert(spec_run(text, 0, p2 + 1, v0, 0) == Ok::<_, ObisParseError>((v3, 3int)));

    assert(forall|k: int| 0 <= k < d3.len() ==> text[p2 + 1 + k] == d3[k]);
    assert(v3[3] == 0u8);
    lemma_run_digits(text, p2 + 1, v3, 3, c[3] as nat);
    lemma_parse_split_run(text, 0, p2 + 1, p3, v0, 0);
    lemma_parse_split_run(text, 0, p3, p3 + 1, v0, 0);
    assert(text[p3] == 46u8);
    lemma_run_separator(text, p3, v4, 3);
    assert(spec_run(text, 0, p3 + 1, v0, 0) == Ok::<_, ObisParseError>((v4, 4int)));

    assert(forall|k: int| 0 <= k < d4.len() ==> text[p3 + 1 + k] == d4[k]);
    assert(v4[4] == 0u8);
    lemma_run_digits(text, p3 + 1, v4, 4, c[4] as nat);
    lemma_parse_split_run(text, 0, p3 + 1, p4, v0, 0);
    assert(spec_run(text, 0, p4, v0, 0) == Ok::<_, ObisParseError>((v5, 4int)));

    lemma_parse_split(text, 0, p4, v0, 0);
    assert(spec_parse_from(text, p4, v5, 4) == Ok::<Seq<u8>, ObisParseError>(v5));
    assert(v5 =~= c);
}


/// Parsing a textual identifier fails only with the two textual error
/// kinds: a component overflow or an unexpected separator.
pub proof fn lemma_text_error_kinds(bytes: Seq<u8>)
    ensures
        spec_parse_obis(bytes) matches Err(e) ==> (e == ObisParseError::Overflow || e
            == ObisParseError::UnexpectedSeparator),
{
    lemma_parse_from_error_kinds(bytes, 0, seq![0u8, 0u8, 0u8, 0u8, 0u8], 0);
}

proof fn lemma_parse_from_error_kinds(bytes: Seq<u8>, i: int, vals: Seq<u8>, val_idx: int)
    ensures
        spec_parse_from(bytes, i, vals, val_idx) matches Err(e) ==> (e == ObisParseError::Overflow
            || e == ObisParseError::UnexpectedSeparator),
    decreases bytes.len() - i,
{
    if 0 <= i < bytes.len() {
        match spec_parse_step(vals, val_idx, bytes[i]) {
            Err(_) => {},
            Ok((vals2, idx2)) => {
                lemma_parse_from_error_kinds(bytes, i + 1, vals2, idx2);
            },
        }
    }
}

/// A textual identifier holding a byte that is neither a decimal digit
/// nor one of the separator bytes is always rejected.
pub proof fn lemma_foreign_byte_rejected(bytes: Seq<u8>, i: int)
    requires
        0 <= i < bytes.len(),
        !is_digit_byte(bytes[i]),
        bytes[i] != 45u8,
        bytes[i] != 58u8,
        bytes[i] != 46u8,
    ensures
        spec_parse_obis(bytes) matches Err(_),
{
    lemma_parse_from_foreign_byte(bytes, 0, seq![0u8, 0u8, 0u8, 0u8, 0u8], 0, i);
}

proof fn lemma_parse_from_foreign_byte(bytes: Seq<u8>, j: int, vals: Seq<u8>, val_idx: int, i: int)
    requires
        0 <= j <= i < bytes.len(),
        !is_digit_byte(bytes[i]),
        bytes[i] != 45u8,
        bytes[i] != 58u8,
        bytes[i] != 46u8,
    ensures
        spec_parse_from(bytes, j, vals, val_idx) matches Err(_),
    decreases i - j,
{
    if j == i {
        assert(bytes[i] != spec_separator(val_idx));
    } else {
        match spec_parse_step(vals, val_idx, bytes[j]) {
            Err(_) => {},
            Ok((vals2, idx2)) => {
                lemma_parse_from_foreign_byte(bytes, j + 1, vals2, idx2, i);
            },
        }
    }
}

} // verus!
