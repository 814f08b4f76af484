//! Byte-level JSON building blocks.
//!
//! The wire format of this layer is JSON over POST. Requests are encoded by
//! composing the primitives here: decimal rendering of 64-bit integers,
//! escaped JSON strings, and literal framing text. Every executable function
//! is proved to produce exactly the bytes that its specification function
//! describes, so the contracts of the request types can pin their bodies
//! down to the byte.

use vstd::prelude::*;
use vstd::string::StringSliceAdditionalSpecFns;

verus! {

use crate::Error;

/// The UTF-8 bytes of a piece of literal framing text (braces, keys, colons).
pub open spec fn lit(s: &str) -> Seq<u8> {
    s.spec_bytes()
}

// ---------------------------------------------------------------------------
// Decimal rendering of integers (ids encode as bare JSON numbers).
// ---------------------------------------------------------------------------

/// Decimal digits of `n`, most significant first, no sign and no padding.
pub open spec fn dec_digits(n: nat) -> Seq<u8>
    decreases n,
{
    if n < 10 {
        seq![(48 + n) as u8]
    } else {
        dec_digits(n / 10) + seq![(48 + n % 10) as u8]
    }
}

/// The JSON rendering of a signed integer: an optional minus sign followed
/// by the decimal digits of the magnitude.
pub open spec fn int_bytes(v: int) -> Seq<u8> {
    if v < 0 {
        seq![45u8] + dec_digits((-v) as nat)
    } else {
        dec_digits(v as nat)
    }
}

/// Writes the decimal digits of `n` onto `out`.
fn push_u64_digits(out: &mut Vec<u8>, n: u64)
    ensures
        final(out)@ == old(out)@ + dec_digits(n as nat),
{
    let mut tmp: Vec<u8> = Vec::new();
    let mut m: u64 = n;
    while m >= 10
        invariant
            dec_digits(n as nat) == dec_digits(m as nat) + tmp@.reverse(),
        decreases m,
    {
        let ghost m0 = m as nat;
        let d: u8 = 48 + (m % 10) as u8;
        let ghost pre = tmp@;
        tmp.push(d);
        m = m / 10;
        proof {
            assert(dec_digits(m0) == dec_digits(m0 / 10) + seq![(48 + m0 % 10) as u8]);
            assert(pre.push(d).reverse() =~= seq![d] + pre.reverse());
            assert(dec_digits(n as nat) =~= dec_digits(m as nat) + tmp@.reverse());
        }
    }
    out.push(48 + m as u8);
    let ghost base = out@;
    assert(base =~= old(out)@ + dec_digits(m as nat));
    let mut j: usize = tmp.len();
    while j > 0
        invariant
            j <= tmp@.len(),
            out@ == base + tmp@.reverse().take(tmp@.len() - j),
            dec_digits(n as nat) == dec_digits(m as nat) + tmp@.reverse(),
            base =~= old(out)@ + dec_digits(m as nat),
        decreases j,
    {
        let ghost k = tmp@.len() - j;
        out.push(tmp[j - 1]);
        j = j - 1;
        proof {
            assert(tmp@.reverse()[k] == tmp@[j as int]);
            assert(tmp@.reverse().take(k + 1) =~= tmp@.reverse().take(k).push(tmp@[j as int]));
        }
    }
    proof {
        assert(tmp@.reverse().take(tmp@.len() as int) =~= tmp@.reverse());
        assert(out@ =~= old(out)@ + dec_digits(n as nat));
    }
}

/// Writes the JSON rendering of `v` onto `out`.
pub fn push_int(out: &mut Vec<u8>, v: i64)
    ensures
        final(out)@ == old(out)@ + int_bytes(v as int),
{
    if v >= 0 {
        push_u64_digits(out, v as u64);
    } else {
        out.push(45);
        let mag: u64 = if v == i64::MIN {
            9223372036854775808
        } else {
            (-v) as u64
        };
        assert(mag as int == -(v as int));
        let ghost pre = out@;
        assert(pre =~= old(out)@ + seq![45u8]);
        push_u64_digits(out, mag);
        assert(out@ =~= old(out)@ + int_bytes(v as int));
    }
}

// ---------------------------------------------------------------------------
// JSON strings (usernames, file references, query ids encode as strings).
// ---------------------------------------------------------------------------

/// A lowercase hexadecimal digit.
pub open spec fn hex_digit(n: u8) -> u8 {
    if n < 10 {
        (48 + n) as u8
    } else {
        (87 + n) as u8
    }
}

/// The escape of one byte of UTF-8 text inside a JSON string: quote and
/// backslash get a backslash escape, control bytes get their short escape or
/// the `\u00XX` form, and every other byte stands for itself.
pub open spec fn escape_byte(b: u8) -> Seq<u8> {
    if b == 34 {
        seq![92u8, 34u8]
    } else if b == 92 {
        seq![92u8, 92u8]
    } else if b == 8 {
        seq![92u8, 98u8]
    } else if b == 9 {
        seq![92u8, 116u8]
    } else if b == 10 {
        seq![92u8, 110u8]
    } else if b == 12 {
        seq![92u8, 102u8]
    } else if b == 13 {
        seq![92u8, 114u8]
    } else if b < 32 {
        seq![92u8, 117u8, 48u8, 48u8, hex_digit(b / 16), hex_digit(b % 16)]
    } else {
        seq![b]
    }
}

/// The concatenated escapes of a run of UTF-8 text.
pub open spec fn escaped_bytes(b: Seq<u8>) -> Seq<u8>
    decreases b.len(),
{
    if b.len() == 0 {
        Seq::empty()
    } else {
        escaped_bytes(b.drop_last()) + escape_byte(b.last())
    }
}

/// The JSON string form of a piece of text given by its UTF-8 bytes:
/// a double quote, the escaped text, a double quote.
pub open spec fn json_string_bytes(b: Seq<u8>) -> Seq<u8> {
    seq![34u8] + escaped_bytes(b) + seq![34u8]
}

/// The JSON string form of a piece of text given by its characters.
pub open spec fn json_str(s: Seq<char>) -> Seq<u8> {
    json_string_bytes(vstd::utf8::encode_utf8(s))
}

fn push_hex_digit(out: &mut Vec<u8>, n: u8)
    requires
        n < 16,
    ensures
        final(out)@ == old(out)@ + seq![hex_digit(n)],
{
    if n < 10 {
        out.push(48 + n);
    } else {
        out.push(87 + n);
    }
}

/// Writes the JSON string form of `s` onto `out`.
pub fn push_json_string(out: &mut Vec<u8>, s: &str)
    ensures
        final(out)@ == old(out)@ + json_str(s@),
{
    out.push(34);
    let bytes = s.as_bytes();
    let ghost text = bytes@;
    let n = bytes.len();
    let mut i: usize = 0;
    while i < n
        invariant
            i <= n,
            n == text.len(),
            bytes@ == text,
            text == vstd::utf8::encode_utf8(s@),
            out@ == old(out)@ + seq![34u8] + escaped_bytes(text.take(i as int)),
        decreases n - i,
    {
        let b = bytes[i];
        if b == 34 {
            out.push(92);
            out.push(34);
        } else if b == 92 {
            out.push(92);
            out.push(92);
        } else if b == 8 {
            out.push(92);
            out.push(98);
        } else if b == 9 {
            out.push(92);
            out.push(116);
        } else if b == 10 {
            out.push(92);
            out.push(110);
        } else if b == 12 {
            out.push(92);
            out.push(102);
        } else if b == 13 {
            out.push(92);
            out.push(114);
        } else if b < 32 {
            out.push(92);
            out.push(117);
            out.push(48);
            out.push(48);
            push_hex_digit(out, b / 16);
            push_hex_digit(out, b % 16);
        } else {
            out.push(b);
        }
        proof {
            assert(text.take(i + 1).drop_last() =~= text.take(i as int));
            assert(text.take(i + 1).last() == text[i as int]);
            assert(out@ =~= old(out)@ + seq![34u8] + escaped_bytes(text.take(i + 1)));
        }
        i = i + 1;
    }
    out.push(34);
    proof {
        assert(text.take(n as int) =~= text);
        assert(out@ =~= old(out)@ + json_str(s@));
    }
}

/// Writes the UTF-8 bytes of `s` onto `out`, unquoted and unescaped; for the
/// literal framing text of a JSON object.
pub fn push_text(out: &mut Vec<u8>, s: &str)
    ensures
        final(out)@ == old(out)@ + lit(s),
{
    let bytes = s.as_bytes();
    out.extend_from_slice(bytes);
}

/// Writes `true` or `false` onto `out`.
pub fn push_bool(out: &mut Vec<u8>, b: bool)
    ensures
        final(out)@ == old(out)@ + bool_bytes(b),
{
    if b {
        push_text(out, "true");
    } else {
        push_text(out, "false");
    }
}

/// The JSON rendering of a boolean.
pub open spec fn bool_bytes(b: bool) -> Seq<u8> {
    if b {
        lit("true")
    } else {
        lit("false")
    }
}

// ---------------------------------------------------------------------------
// Decoding of strict integer identifiers.
// ---------------------------------------------------------------------------

/// Is `b` an ASCII decimal digit?
pub open spec fn is_dec_digit(b: u8) -> bool {
    48 <= b && b <= 57
}

/// The value of a run of decimal digits, most significant first.
pub open spec fn digits_value(s: Seq<u8>) -> int
    decreases s.len(),
{
    if s.len() == 0 {
        0
    } else {
        digits_value(s.drop_last()) * 10 + (s.last() - 48)
    }
}

/// Every byte of `s` is a decimal digit.
pub open spec fn all_digits(s: Seq<u8>) -> bool {
    forall|i: int| 0 <= i < s.len() ==> is_dec_digit(#[trigger] s[i])
}

/// A canonical run of digits: non-empty and without a superfluous leading
/// zero.
pub open spec fn is_canonical_digits(s: Seq<u8>) -> bool {
    &&& s.len() > 0
    &&& all_digits(s)
    &&& (s.len() > 1 ==> s[0] != 48)
}

/// The texts accepted as a JSON integer: canonical digits, optionally after
/// a minus sign that is not followed by zero.
pub open spec fn is_json_integer(s: Seq<u8>) -> bool {
    if s.len() > 0 && s[0] == 45 {
        is_canonical_digits(s.skip(1)) && digits_value(s.skip(1)) != 0
    } else {
        is_canonical_digits(s)
    }
}

/// The value denoted by a JSON integer text.
pub open spec fn json_integer_value(s: Seq<u8>) -> int {
    if s.len() > 0 && s[0] == 45 {
        -digits_value(s.skip(1))
    } else {
        digits_value(s)
    }
}

/// A JSON integer text whose value fits the primitive of the identifier
/// kinds.
pub open spec fn is_i64_json_integer(s: Seq<u8>) -> bool {
    is_json_integer(s) && i64::MIN <= json_integer_value(s) <= i64::MAX
}

proof fn lemma_digits_value_nonneg(s: Seq<u8>)
    requires
        all_digits(s),
    ensures
        digits_value(s) >= 0,
    decreases s.len(),
{
    if s.len() > 0 {
        assert(all_digits(s.drop_last()));
        lemma_digits_value_nonneg(s.drop_last());
    }
}

proof fn lemma_dec_digits_all_digits(n: nat)
    ensures
        all_digits(dec_digits(n)),
        dec_digits(n).len() > 0,
        n >= 1 ==> dec_digits(n)[0] != 48,
    decreases n,
{
    if n < 10 {
        assert(dec_digits(n) == seq![(48 + n) as u8]);
    } else {
        lemma_dec_digits_all_digits(n / 10);
        assert forall|i: int| 0 <= i < dec_digits(n).len() implies is_dec_digit(
            #[trigger] dec_digits(n)[i],
        ) by {
            if i < dec_digits(n / 10).len() {
                assert(dec_digits(n)[i] == dec_digits(n / 10)[i]);
            }
        }
    }
}

proof fn lemma_dec_digits_value(n: nat)
    ensures
        digits_value(dec_digits(n)) == n,
    decreases n,
{
    if n < 10 {
        let s = seq![(48 + n) as u8];
        assert(dec_digits(n) == s);
        assert(s.drop_last() =~= Seq::<u8>::empty());
        assert(digits_value(Seq::<u8>::empty()) == 0);
        assert(s.last() == (48 + n) as u8);
        assert(digits_value(s) == digits_value(s.drop_last()) * 10 + (s.last() - 48));
    } else {
        lemma_dec_digits_value(n / 10);
        let s = dec_digits(n);
        assert(s == dec_digits(n / 10) + seq![(48 + n % 10) as u8]);
        assert(s.drop_last() =~= dec_digits(n / 10));
        assert(s.last() == (48 + n % 10) as u8);
        assert(digits_value(s) == digits_value(s.drop_last()) * 10 + (s.last() - 48));
    }
}

/// Law: the wire rendering of an integer identifier is a canonical JSON
/// integer, and it denotes exactly the rendered value — so an id that is
/// encoded and decoded comes back unchanged.
pub proof fn lemma_int_bytes_round_trip(v: i64)
    ensures
        is_i64_json_integer(int_bytes(v as int)),
        json_integer_value(int_bytes(v as int)) == v as int,
{
    if v >= 0 {
        lemma_dec_digits_all_digits(v as nat);
        lemma_dec_digits_value(v as nat);
        assert(int_bytes(v as int) == dec_digits(v as nat));
        assert(is_dec_digit(dec_digits(v as nat)[0]));
    } else {
        let mag = (-(v as int)) as nat;
        lemma_dec_digits_all_digits(mag);
        lemma_dec_digits_value(mag);
        let s = int_bytes(v as int);
        assert(s == seq![45u8] + dec_digits(mag));
        assert(s[0] == 45);
        assert(s.skip(1) =~= dec_digits(mag));
    }
}

/// Parses the strict wire form of an integer identifier.
///
/// Accepts exactly the canonical JSON integers whose value fits a signed
/// 64-bit primitive, and returns the malformed-identifier error on anything
/// else — in particular on a JSON string such as `"123"`, which is never
/// coerced.
pub fn parse_json_integer(bytes: &[u8]) -> (r: Result<i64, Error>)
    ensures
        match r {
            Ok(v) => is_i64_json_integer(bytes@) && v as int == json_integer_value(bytes@),
            Err(e) => e == Error::MalformedIdentifier && !is_i64_json_integer(bytes@),
        },
{
    let n = bytes.len();
    let neg = n > 0 && bytes[0] == 45;
    let start: usize = if neg {
        1
    } else {
        0
    };
    let ghost digits = bytes@.skip(start as int);
    proof {
        assert(bytes@.skip(0) =~= bytes@);
    }
    if n == start {
        return Err(Error::MalformedIdentifier);
    }
    if bytes[start] == 48 && n - start > 1 {
        // a superfluous leading zero is not canonical
        return Err(Error::MalformedIdentifier);
    }
    let mut acc: u64 = 0;
    let mut overflow = false;
    let mut i: usize = start;
    while i < n
        invariant
            start <= i <= n,
            n == bytes@.len(),
            neg ==> start == 1 && bytes@[0] == 45,
            !neg ==> start == 0 && (n > 0 ==> bytes@[0] != 45),
            digits == bytes@.skip(start as int),
            all_digits(digits.take(i - start)),
            !overflow ==> acc as int == digits_value(digits.take(i - start)),
            overflow ==> digits_value(digits.take(i - start)) > u64::MAX as int,
        decreases n - i,
    {
        let b = bytes[i];
        if b < 48 || b > 57 {
            assert(!all_digits(digits)) by {
                assert(digits[i - start] == bytes@[i as int]);
            }
            return Err(Error::MalformedIdentifier);
        }
        let d = (b - 48) as u64;
        let ghost prev = digits.take(i - start);
        proof {
            assert(digits.take(i + 1 - start).drop_last() =~= prev);
            assert(digits.take(i + 1 - start).last() == bytes@[i as int]);
        }
        if !overflow {
            if acc > (u64::MAX - d) / 10 {
                proof {
                    assert(acc * 10 + d > u64::MAX) by (nonlinear_arith)
                        requires
                            acc > (u64::MAX - d) / 10,
                            0 <= d < 10,
                    ;
                }
                overflow = true;
            } else {
                proof {
                    assert(acc * 10 + d <= u64::MAX) by (nonlinear_arith)
                        requires
                            acc <= (u64::MAX - d) / 10,
                            0 <= d < 10,
                    ;
                }
                acc = acc * 10 + d;
            }
        } else {
            proof {
                lemma_digits_value_nonneg(prev);
                assert(digits_value(prev) * 10 > u64::MAX as int) by (nonlinear_arith)
                    requires
                        digits_value(prev) > u64::MAX as int,
                ;
            }
        }
        i = i + 1;
    }
    proof {
        assert(digits.take(n - start) =~= digits);
    }
    if overflow {
        return Err(Error::MalformedIdentifier);
    }
    if neg {
        if acc == 0 {
            // the digits denote zero: `-0` is not a wire integer
            return Err(Error::MalformedIdentifier);
        }
        if acc > 9223372036854775808 {
            return Err(Error::MalformedIdentifier);
        }
        if acc == 9223372036854775808 {
            Ok(i64::MIN)
        } else {
            Ok(-(acc as i64))
        }
    } else {
        if acc > 9223372036854775807 {
            return Err(Error::MalformedIdentifier);
        }
        Ok(acc as i64)
    }
}

} // verus!
