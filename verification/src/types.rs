//! COSEM data types such as timestamps or fixed point numbers.
//!
//! Every decoder operates on a slice that begins at the literal `(` opening
//! a value field, and is specified exactly over the slice's byte sequence.

use vstd::prelude::*;

use crate::Error;
use crate::text::all_digits;
use crate::text::digit_val;
use crate::text::digits_value;
use crate::text::find_byte;
use crate::text::find_byte_from;
use crate::text::hex_pair_spec;
use crate::text::hex_val;
use crate::text::is_digit;
use crate::text::is_hex_digit;
use crate::text::lemma_digits_value_bound;
use crate::text::lemma_find_byte_in_range;
use crate::text::lemma_p10_increases;
use crate::text::lemma_p10_mul;
use crate::text::lemma_p10_pos;
use crate::text::lemma_p10_value_19;
use crate::text::p10;
use crate::text::parse_hex_pair;
use crate::text::parse_u64;
use crate::text::parse_u64_spec;
use crate::text::pow10;
use crate::text::subvec;

verus! {

/// The literal `(` opening a value field.
pub const LPAREN: u8 = 40;

/// The literal `)` closing a value field.
pub const RPAREN: u8 = 41;

/// The literal `.` of a fixed-point numeral.
pub const DOT: u8 = 46;

// ---------------------------------------------------------------------------
// Octet strings
// ---------------------------------------------------------------------------

/// Octet strings as defined by tag 9: an even run of hexadecimal characters,
/// two characters per octet.
#[derive(Debug, Clone)]
pub struct OctetString(Vec<u8>);

impl View for OctetString {
    type V = Seq<u8>;

    closed spec fn view(&self) -> Seq<u8> {
        self.0@
    }
}

/// Whether every two-character group of `chars` is a pair of hexadecimal
/// digits.  A trailing odd character is ignored, as decoding ignores it.
pub open spec fn octets_ok(chars: Seq<u8>) -> bool {
    forall|i: int|
        0 <= i < chars.len() / 2 ==> is_hex_digit(#[trigger] chars[2 * i]) && is_hex_digit(
            chars[2 * i + 1],
        )
}

/// The octets denoted by the hexadecimal characters of `chars`.
pub open spec fn octets_value(chars: Seq<u8>) -> Seq<u8> {
    Seq::new(
        (chars.len() / 2) as nat,
        |i: int| (hex_val(chars[2 * i]) * 16 + hex_val(chars[2 * i + 1])) as u8,
    )
}

impl OctetString {
    /// What parsing a fixed-length octet string yields: the `length`
    /// characters after the opening parenthesis.
    pub open spec fn spec_parse(body: Seq<u8>, length: int) -> Result<Seq<u8>, Error> {
        if 0 <= length && length + 1 <= body.len() {
            Ok(body.subrange(1, length + 1))
        } else {
            Err(Error::InvalidFormat)
        }
    }

    /// What parsing a bounded variable-length octet string yields: the
    /// characters between the parentheses, provided no more than
    /// `max_length`.
    pub open spec fn spec_parse_max(body: Seq<u8>, max_length: int) -> Result<Seq<u8>, Error> {
        match find_byte_from(body, RPAREN, 0) {
            None => Err(Error::InvalidFormat),
            Some(j) => if j - 1 > max_length {
                Err(Error::InvalidFormat)
            } else {
                Self::spec_parse(body, j - 1)
            },
        }
    }

    /// Parse a fixed length string from an OBIS body.
    pub fn parse(body: &[u8], length: usize) -> (r: Result<OctetString, Error>)
        ensures
            match r {
                Ok(o) => Self::spec_parse(body@, length as int) == Ok::<_, Error>(o@),
                Err(e) => Self::spec_parse(body@, length as int) == Err::<Seq<u8>, _>(e),
            },
    {
        if length < body.len() {
            Ok(OctetString(subvec(body, 1, length + 1)))
        } else {
            Err(Error::InvalidFormat)
        }
    }

    /// Parse a variable length string with a max length from an OBIS body.
    pub fn parse_max(body: &[u8], max_length: usize) -> (r: Result<OctetString, Error>)
        requires
            body@.len() > 0,
            body@[0] == LPAREN,
        ensures
            match r {
                Ok(o) => Self::spec_parse_max(body@, max_length as int) == Ok::<_, Error>(o@),
                Err(e) => Self::spec_parse_max(body@, max_length as int) == Err::<Seq<u8>, _>(e),
            },
    {
        match find_byte(body, RPAREN, 0) {
            None => Err(Error::InvalidFormat),
            Some(j) => {
                proof {
                    lemma_find_byte_in_range(body@, RPAREN, 0);
                }
                let end: usize = j - 1;
                if end > max_length {
                    Err(Error::InvalidFormat)
                } else {
                    Self::parse(body, end)
                }
            },
        }
    }

    /// Yield this octet string as the underlying octets.
    pub fn as_octets(&self) -> (r: Result<Vec<u8>, Error>)
        ensures
            match r {
                Ok(v) => octets_ok(self@) && v@ == octets_value(self@),
                Err(e) => !octets_ok(self@) && e == Error::InvalidFormat,
            },
    {
        let n: usize = self.0.len();
        let count: usize = n / 2;
        let mut out: Vec<u8> = Vec::new();
        let mut i: usize = 0;
        while i < count
            invariant
                0 <= i <= count,
                count == self@.len() / 2,
                n == self@.len(),
                out@.len() == i,
                forall|k: int|
                    0 <= k < i ==> is_hex_digit(#[trigger] self@[2 * k]) && is_hex_digit(
                        self@[2 * k + 1],
                    ) && out@[k] == octets_value(self@)[k],
            decreases count - i,
        {
            match parse_hex_pair(self.0[2 * i], self.0[2 * i + 1]) {
                Ok(b) => {
                    out.push(b);
                },
                Err(e) => {
                    return Err(e);
                },
            }
            i = i + 1;
        }
        proof {
            assert(out@ =~= octets_value(self@));
        }
        Ok(out)
    }
}

// ---------------------------------------------------------------------------
// Timestamps
// ---------------------------------------------------------------------------

/// Timestamps.
#[derive(Debug, Clone, Copy, PartialEq, Eq, Structural)]
pub struct TST {
    pub year: u8,
    pub month: u8,
    pub day: u8,
    pub hour: u8,
    pub minute: u8,
    pub second: u8,
    /// Daylight savings time.
    pub dst: bool,
}

/// The value of the two decimal digits of `body` at `i` and `i + 1`.
pub open spec fn spec_two_digits(body: Seq<u8>, i: int) -> Option<u8>
    recommends
        0 <= i && i + 2 <= body.len(),
{
    if is_digit(body[i]) && is_digit(body[i + 1]) {
        Some((digit_val(body[i]) * 10 + digit_val(body[i + 1])) as u8)
    } else {
        None
    }
}

fn two_digits(body: &[u8], i: usize) -> (r: Option<u8>)
    requires
        i + 2 <= body@.len(),
    ensures
        r == spec_two_digits(body@, i as int),
{
    let a: u8 = body[i];
    let b: u8 = body[i + 1];
    if 48 <= a && a <= 57 && 48 <= b && b <= 57 {
        Some((a - 48) * 10 + (b - 48))
    } else {
        None
    }
}

impl TST {
    /// What parsing a timestamp yields: six two-digit fields at offsets
    /// 1, 3, 5, 7, 9, 11 and the daylight-saving mark at offset 13.
    pub open spec fn spec_parse(body: Seq<u8>) -> Result<TST, Error> {
        if body.len() < 15 {
            Err(Error::InvalidFormat)
        } else {
            match (
                spec_two_digits(body, 1),
                spec_two_digits(body, 3),
                spec_two_digits(body, 5),
                spec_two_digits(body, 7),
                spec_two_digits(body, 9),
                spec_two_digits(body, 11),
            ) {
                (Some(y), Some(mo), Some(d), Some(h), Some(mi), Some(s)) => if body[13] == 83 {
                    Ok(
                        (TST {
                            year: y,
                            month: mo,
                            day: d,
                            hour: h,
                            minute: mi,
                            second: s,
                            dst: true,
                        }),
                    )
                } else if body[13] == 87 {
                    Ok(
                        (TST {
                            year: y,
                            month: mo,
                            day: d,
                            hour: h,
                            minute: mi,
                            second: s,
                            dst: false,
                        }),
                    )
                } else {
                    Err(Error::InvalidFormat)
                },
                _ => Err(Error::InvalidFormat),
            }
        }
    }

    pub fn parse(body: &[u8]) -> (r: Result<TST, Error>)
        ensures
            r == Self::spec_parse(body@),
    {
        if body.len() < 15 {
            return Err(Error::InvalidFormat);
        }
        match (
            two_digits(body, 1),
            two_digits(body, 3),
            two_digits(body, 5),
            two_digits(body, 7),
            two_digits(body, 9),
            two_digits(body, 11),
        ) {
            (Some(y), Some(mo), Some(d), Some(h), Some(mi), Some(s)) => {
                let mark: u8 = body[13];
                if mark == 83 {
                    Ok(
                        TST {
                            year: y,
                            month: mo,
                            day: d,
                            hour: h,
                            minute: mi,
                            second: s,
                            dst: true,
                        },
                    )
                } else if mark == 87 {
                    Ok(
                        TST {
                            year: y,
                            month: mo,
                            day: d,
                            hour: h,
                            minute: mi,
                            second: s,
                            dst: false,
                        },
                    )
                } else {
                    Err(Error::InvalidFormat)
                }
            },
            _ => Err(Error::InvalidFormat),
        }
    }
}

// ---------------------------------------------------------------------------
// Fixed point unsigned decimals
// ---------------------------------------------------------------------------

/// Fixed length unsigned doubles as defined by tag 6: an integer mantissa
/// together with the position of the decimal point.
#[derive(Debug, Clone, Copy, PartialEq, Eq, Structural)]
pub struct UFixedDouble {
    /// The mantissa: the digits of the numeral with the point removed.
    pub buffer: u64,
    /// How many of the mantissa's digits stand right of the point.
    pub point: u8,
}

impl UFixedDouble {
    /// What parsing a fixed-point numeral of `length` digits with `point`
    /// fractional digits yields: `length + 1` characters are consumed after
    /// the opening parenthesis, split into an integer part and a fractional
    /// part around the point character, and combined into one mantissa.
    pub open spec fn spec_parse(body: Seq<u8>, length: int, point: int) -> Result<
        UFixedDouble,
        Error,
    >
        recommends
            0 <= point <= length,
    {
        if body.len() < length + 2 {
            Err(Error::InvalidFormat)
        } else {
            let upper = body.subrange(1, 1 + length - point);
            let lower = body.subrange(2 + length - point, length + 2);
            match (parse_u64_spec(upper), parse_u64_spec(lower)) {
                (Ok(u), Ok(l)) => Ok(
                    (UFixedDouble {
                        buffer: (u * p10(point as nat) + l) as u64,
                        point: point as u8,
                    }),
                ),
                _ => Err(Error::InvalidFormat),
            }
        }
    }

    pub fn parse(body: &[u8], length: usize, point: u8) -> (r: Result<UFixedDouble, Error>)
        requires
            point as int <= length as int,
            length <= 19,
        ensures
            r == Self::spec_parse(body@, length as int, point as int),
    {
        if body.len() < length + 2 {
            return Err(Error::InvalidFormat);
        }
        let split: usize = 1 + length - point as usize;
        let upper = subvec(body, 1, split);
        let lower = subvec(body, split + 1, length + 2);
        match (parse_u64(upper.as_slice()), parse_u64(lower.as_slice())) {
            (Ok(u), Ok(l)) => {
                proof {
                    lemma_digits_value_bound(upper@);
                    lemma_digits_value_bound(lower@);
                    lemma_p10_mul((length - point) as nat, point as nat);
                    lemma_p10_increases(length as nat, 19);
                    lemma_p10_value_19();
                    lemma_p10_pos(point as nat);
                    assert(u * p10(point as nat) + l < p10(length as nat)) by (nonlinear_arith)
                        requires
                            u < p10((length - point as int) as nat),
                            l < p10(point as nat),
                            p10((length - point as int) as nat) * p10(point as nat) == p10(
                                length as nat,
                            ),
                            p10(point as nat) >= 1,
                    ;
                }
                let scale: u64 = pow10(point);
                Ok(UFixedDouble { buffer: u * scale + l, point })
            },
            _ => Err(Error::InvalidFormat),
        }
    }
}

// ---------------------------------------------------------------------------
// Fixed width unsigned integers
// ---------------------------------------------------------------------------

/// Fixed length unsigned integers as defined by tags 15-21.
#[derive(Debug, Clone, Copy, PartialEq, Eq, Structural)]
pub struct UFixedInteger(pub u64);

impl UFixedInteger {
    /// What parsing a fixed-width integer yields: the `length` digits after
    /// the opening parenthesis, read as one decimal numeral.
    pub open spec fn spec_parse(body: Seq<u8>, length: int) -> Result<UFixedInteger, Error> {
        if 0 <= length && length + 1 <= body.len() {
            match parse_u64_spec(body.subrange(1, length + 1)) {
                Ok(v) => Ok((UFixedInteger(v))),
                Err(e) => Err(e),
            }
        } else {
            Err(Error::InvalidFormat)
        }
    }

    pub fn parse(body: &[u8], length: usize) -> (r: Result<UFixedInteger, Error>)
        ensures
            r == Self::spec_parse(body@, length as int),
    {
        if length < body.len() {
            let digits = subvec(body, 1, length + 1);
            match parse_u64(digits.as_slice()) {
                Ok(v) => Ok(UFixedInteger(v)),
                Err(e) => Err(e),
            }
        } else {
            Err(Error::InvalidFormat)
        }
    }
}

// ---------------------------------------------------------------------------
// Laws of the field decoders
// ---------------------------------------------------------------------------

/// The fixed-width decimal rendering of `v`, most significant digit first.
pub open spec fn encode_digits(v: nat, width: nat) -> Seq<u8>
    decreases width,
{
    if width == 0 {
        Seq::empty()
    } else {
        encode_digits(v / 10, (width - 1) as nat).push((48 + v % 10) as u8)
    }
}

pub proof fn lemma_encode_digits(v: nat, width: nat)
    requires
        v < p10(width),
    ensures
        encode_digits(v, width).len() == width,
        all_digits(encode_digits(v, width)),
        digits_value(encode_digits(v, width)) == v,
    decreases width,
{
    if width > 0 {
        lemma_encode_digits(v / 10, (width - 1) as nat);
        let e = encode_digits(v, width);
        assert(e.drop_last() =~= encode_digits(v / 10, (width - 1) as nat));
        assert(digits_value(e) == (v / 10) * 10 + v % 10);
    }
}

/// A fixed-point value field as the meter renders it: `(`, the integer
/// digits, the point, the fractional digits.
pub open spec fn encode_fixed(m: nat, length: nat, point: nat) -> Seq<u8>
    recommends
        point < length,
{
    seq![LPAREN] + encode_digits(m / p10(point), (length - point) as nat) + seq![DOT]
        + encode_digits(m % p10(point), point)
}

/// Round trip of the fixed-point decoder: rendering a mantissa `m` at width
/// `length` with `point` fractional digits and decoding it yields exactly
/// `m` with the same point, so the denoted quantity `m / 10^point` is
/// reproduced exactly.
pub proof fn lemma_fixed_point_round_trip(m: nat, length: nat, point: nat)
    requires
        1 <= point < length <= 19,
        m < p10(length),
    ensures
        UFixedDouble::spec_parse(encode_fixed(m, length, point), length as int, point as int)
            == Ok::<_, Error>((UFixedDouble { buffer: m as u64, point: point as u8 })),
{
    let pp = p10(point);
    lemma_p10_pos(point);
    vstd::arithmetic::div_mod::lemma_fundamental_div_mod(m as int, pp as int);
    lemma_p10_mul((length - point) as nat, point);
    assert(m / pp < p10((length - point) as nat)) by (nonlinear_arith)
        requires
            pp >= 1,
            m < p10((length - point) as nat) * pp,
            m == p10((length - point) as nat) * pp * ((m as int) / (pp as int)) + ((m as int) % (
            pp as int)) || m == pp * ((m as int) / (pp as int)) + ((m as int) % (pp as int)),
            m == pp * ((m as int) / (pp as int)) + ((m as int) % (pp as int)),
            0 <= ((m as int) % (pp as int)) < pp,
    ;
    assert(m % pp < pp);
    lemma_encode_digits(m / pp, (length - point) as nat);
    lemma_encode_digits(m % pp, point);
    let body = encode_fixed(m, length, point);
    let upper = encode_digits(m / pp, (length - point) as nat);
    let lower = encode_digits(m % pp, point);
    assert(body.len() == length + 2);
    assert(body.subrange(1, 1 + length as int - point as int) =~= upper);
    assert(body.subrange(2 + length as int - point as int, length as int + 2) =~= lower);
    lemma_p10_increases(length, 19);
    lemma_p10_value_19();
    assert((m / pp) * pp + m % pp == m) by (nonlinear_arith)
        requires
            pp >= 1,
            m == pp * ((m as int) / (pp as int)) + ((m as int) % (pp as int)),
    ;
}

/// Field decoding is deterministic and side-effect free: it is a function
/// of the input slice alone, so equal inputs decode equally.
pub proof fn lemma_decode_deterministic(b1: Seq<u8>, b2: Seq<u8>, length: int, point: int)
    requires
        b1 == b2,
    ensures
        OctetString::spec_parse(b1, length) == OctetString::spec_parse(b2, length),
        OctetString::spec_parse_max(b1, length) == OctetString::spec_parse_max(b2, length),
        TST::spec_parse(b1) == TST::spec_parse(b2),
        UFixedDouble::spec_parse(b1, length, point) == UFixedDouble::spec_parse(b2, length, point),
        UFixedInteger::spec_parse(b1, length) == UFixedInteger::spec_parse(b2, length),
{
}

} // verus!
