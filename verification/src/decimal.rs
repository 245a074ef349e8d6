//! Decimal rendering of integers and scaled values as ASCII text.
//!
//! Readings are persisted and displayed as decimal text; the functions
//! here produce that text and are the basis for the statement builder of
//! the store and for the textual form of identifier codes.

use vstd::prelude::*;

verus! {

/// The decimal digits of `n`, most significant first, as ASCII bytes.
pub open spec fn dec_bytes(n: nat) -> Seq<u8>
    decreases n,
{
    if n < 10 {
        seq![(48 + n) as u8]
    } else {
        dec_bytes(n / 10).push((48 + n % 10) as u8)
    }
}

/// `k` ASCII zero digits.
pub open spec fn zero_bytes(k: nat) -> Seq<u8> {
    Seq::new(k, |i: int| 48u8)
}

/// The decimal digits of the integer `n`, with a leading minus sign when
/// `n` is negative.
pub open spec fn int_bytes(n: int) -> Seq<u8> {
    if n < 0 {
        seq![45u8] + dec_bytes((-n) as nat)
    } else {
        dec_bytes(n as nat)
    }
}

/// The value `raw / 10^(-scale)` as decimal text.
///
/// A non-negative scale multiplies by a power of ten, so the digits of
/// `raw` are followed by `scale` zeros.  A negative scale places a decimal
/// point `-scale` digits from the right, padding with zeros when `raw` has
/// fewer digits than that.
pub open spec fn scaled_bytes(raw: nat, scale: int) -> Seq<u8> {
    let d = dec_bytes(raw);
    if scale >= 0 {
        d + zero_bytes(scale as nat)
    } else {
        let k = (-scale) as nat;
        if d.len() > k {
            d.subrange(0, d.len() - k) + seq![46u8] + d.subrange(d.len() - k, d.len() as int)
        } else {
            seq![48u8, 46u8] + zero_bytes((k - d.len()) as nat) + d
        }
    }
}

/// The characters that a sequence of ASCII bytes denotes.
pub open spec fn ascii_chars(bs: Seq<u8>) -> Seq<char> {
    bs.map(|i: int, b: u8| b as char)
}

/// Whether every byte of `bs` is ASCII.
pub open spec fn all_ascii(bs: Seq<u8>) -> bool {
    forall|i: int| 0 <= i < bs.len() ==> bs[i] < 128
}

pub proof fn lemma_dec_bytes_ascii(n: nat)
    ensures
        all_ascii(dec_bytes(n)),
        dec_bytes(n).len() >= 1,
    decreases n,
{
    if n >= 10 {
        lemma_dec_bytes_ascii(n / 10);
    }
}

pub proof fn lemma_int_bytes_ascii(n: int)
    ensures
        all_ascii(int_bytes(n)),
{
    if n < 0 {
        lemma_dec_bytes_ascii((-n) as nat);
    } else {
        lemma_dec_bytes_ascii(n as nat);
    }
}

pub proof fn lemma_scaled_bytes_ascii(raw: nat, scale: int)
    ensures
        all_ascii(scaled_bytes(raw, scale)),
{
    lemma_dec_bytes_ascii(raw);
    let d = dec_bytes(raw);
    let r = scaled_bytes(raw, scale);
    if scale >= 0 {
        assert forall|i: int| 0 <= i < r.len() implies r[i] < 128 by {
            if i < d.len() {
                assert(r[i] == d[i]);
            } else {
                assert(r[i] == 48u8);
            }
        }
    } else {
        let k = (-scale) as nat;
        if d.len() > k {
            assert forall|i: int| 0 <= i < r.len() implies r[i] < 128 by {
                if i < d.len() - k {
                    assert(r[i] == d[i]);
                } else if i == d.len() - k {
                    assert(r[i] == 46u8);
                } else {
                    assert(r[i] == d[i - 1]);
                }
            }
        } else {
            assert forall|i: int| 0 <= i < r.len() implies r[i] < 128 by {
                if i == 0 {
                    assert(r[i] == 48u8);
                } else if i == 1 {
                    assert(r[i] == 46u8);
                } else if i < 2 + (k - d.len()) {
                    assert(r[i] == 48u8);
                } else {
                    assert(r[i] == d[i - 2 - (k - d.len())]);
                }
            }
        }
    }
}

/// Appends the decimal digits of `n` to `out`.
pub fn push_u64_dec(out: &mut Vec<u8>, n: u64)
    ensures
        final(out)@ == old(out)@ + dec_bytes(n as nat),
    decreases n,
{
    if n < 10 {
        out.push(48 + n as u8);
        assert(out@ =~= old(out)@ + dec_bytes(n as nat));
    } else {
        push_u64_dec(out, n / 10);
        out.push(48 + (n % 10) as u8);
        assert(out@ =~= old(out)@ + dec_bytes(n as nat));
    }
}

/// Appends the decimal form of the signed integer `n` to `out`.
pub fn push_i64_dec(out: &mut Vec<u8>, n: i64)
    ensures
        final(out)@ == old(out)@ + int_bytes(n as int),
{
    if n < 0 {
        out.push(45);
        let mag: u64 = if n == i64::MIN {
            9223372036854775808u64
        } else {
            (-n) as u64
        };
        assert(mag == -(n as int));
        push_u64_dec(out, mag);
        assert(out@ =~= old(out)@ + int_bytes(n as int));
    } else {
        push_u64_dec(out, n as u64);
    }
}

/// Appends `k` ASCII zero digits to `out`.
fn push_zeros(out: &mut Vec<u8>, k: usize)
    ensures
        final(out)@ == old(out)@ + zero_bytes(k as nat),
{
    let mut i: usize = 0;
    while i < k
        invariant
            i <= k,
            out@ == old(out)@ + zero_bytes(i as nat),
        decreases k - i,
    {
        out.push(48);
        assert(out@ =~= old(out)@ + zero_bytes((i + 1) as nat));
        i = i + 1;
    }
}

/// The decimal text of `raw / 10^(-scale)`.
pub fn scaled_dec(raw: u64, scale: i8) -> (r: Vec<u8>)
    ensures
        r@ == scaled_bytes(raw as nat, scale as int),
{
    let mut digits: Vec<u8> = Vec::new();
    push_u64_dec(&mut digits, raw);
    assert(digits@ =~= dec_bytes(raw as nat));
    if scale >= 0 {
        push_zeros(&mut digits, scale as usize);
        digits
    } else {
        let k: usize = (-(scale as i32)) as usize;
        if digits.len() > k {
            let at = digits.len() - k;
            digits.insert(at, 46);
            proof {
                let d = dec_bytes(raw as nat);
                assert(digits@ =~= d.subrange(0, d.len() - k) + seq![46u8] + d.subrange(
                    d.len() - k,
                    d.len() as int,
                ));
            }
            digits
        } else {
            let mut out: Vec<u8> = Vec::new();
            out.push(48);
            out.push(46);
            assert(out@ =~= seq![48u8, 46u8]);
            push_zeros(&mut out, k - digits.len());
            let ghost with_zeros = out@;
            let mut i: usize = 0;
            while i < digits.len()
                invariant
                    i <= digits@.len(),
                    out@ == with_zeros + digits@.subrange(0, i as int),
                decreases digits@.len() - i,
            {
                let b = digits[i];
                out.push(b);
                assert(out@ =~= with_zeros + digits@.subrange(0, (i + 1) as int));
                i = i + 1;
            }
            proof {
                assert(digits@.subrange(0, digits@.len() as int) =~= digits@);
                assert(out@ =~= scaled_bytes(raw as nat, scale as int));
            }
            out
        }
    }
}

/// Relies on `String::from_utf8`: ASCII bytes decode to the characters
/// with the same code points.  The fallback value is never produced, since
/// ASCII input is always valid UTF-8.
#[verifier::external_body]
pub fn ascii_to_string(bytes: Vec<u8>) -> (r: String)
    requires
        all_ascii(bytes@),
    ensures
        r@ == ascii_chars(bytes@),
{
    String::from_utf8(bytes).unwrap_or_default()
}

} // verus!
