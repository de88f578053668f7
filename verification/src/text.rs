//! Byte-level scanning and numeral parsing shared by the frame extractor and
//! the field decoders.
//!
//! Telegram text is handled as raw bytes; every helper here has an exact
//! specification over `Seq<u8>`.

use vstd::prelude::*;

use crate::Error;

verus! {

/// Carriage return.
pub const CR: u8 = 13;

/// Line feed.
pub const LF: u8 = 10;

// ---------------------------------------------------------------------------
// Decimal digits
// ---------------------------------------------------------------------------

pub open spec fn is_digit(b: u8) -> bool {
    48 <= b <= 57
}

pub open spec fn digit_val(b: u8) -> nat
    recommends
        is_digit(b),
{
    (b - 48) as nat
}

pub open spec fn all_digits(s: Seq<u8>) -> bool {
    forall|i: int| 0 <= i < s.len() ==> is_digit(#[trigger] s[i])
}

/// The value of a string of decimal digits, most significant first.
pub open spec fn digits_value(s: Seq<u8>) -> nat
    recommends
        all_digits(s),
    decreases s.len(),
{
    if s.len() == 0 {
        0
    } else {
        digits_value(s.drop_last()) * 10 + digit_val(s.last())
    }
}

/// Ten to the power `e`.
pub open spec fn p10(e: nat) -> nat
    decreases e,
{
    if e == 0 {
        1
    } else {
        10 * p10((e - 1) as nat)
    }
}

pub proof fn lemma_p10_pos(e: nat)
    ensures
        p10(e) >= 1,
    decreases e,
{
    if e > 0 {
        lemma_p10_pos((e - 1) as nat);
    }
}

pub proof fn lemma_p10_increases(a: nat, b: nat)
    requires
        a <= b,
    ensures
        p10(a) <= p10(b),
    decreases b,
{
    if a < b && b > 0 {
        lemma_p10_increases(a, (b - 1) as nat);
    }
}

pub proof fn lemma_p10_value_19()
    ensures
        p10(19) == 10000000000000000000,
{
    reveal_with_fuel(p10, 21);
}

pub proof fn lemma_p10_mul(a: nat, b: nat)
    ensures
        p10(a) * p10(b) == p10(a + b),
    decreases a,
{
    if a == 0 {
        assert(p10(0) * p10(b) == p10(b)) by (nonlinear_arith)
            requires
                p10(0) == 1,
        ;
    } else {
        lemma_p10_mul((a - 1) as nat, b);
        assert(p10(a) * p10(b) == 10 * (p10((a - 1) as nat) * p10(b)))
            by (nonlinear_arith)
            requires
                p10(a) == 10 * p10((a - 1) as nat),
        ;
    }
}

/// Ten to the power `e`, executable.
pub fn pow10(e: u8) -> (r: u64)
    requires
        e <= 19,
    ensures
        r == p10(e as nat),
{
    proof {
        lemma_p10_value_19();
    }
    let mut acc: u64 = 1;
    let mut i: u8 = 0;
    while i < e
        invariant
            0 <= i <= e,
            e <= 19,
            acc == p10(i as nat),
            p10(19) == 10000000000000000000,
        decreases e - i,
    {
        proof {
            lemma_p10_increases(i as nat, 18);
        }
        acc = acc * 10;
        i = i + 1;
    }
    acc
}

/// A digit string of length `n` denotes a value below `10^n`.
pub proof fn lemma_digits_value_bound(s: Seq<u8>)
    requires
        all_digits(s),
    ensures
        digits_value(s) < p10(s.len()),
    decreases s.len(),
{
    if s.len() > 0 {
        lemma_digits_value_bound(s.drop_last());
    }
}

// ---------------------------------------------------------------------------
// Unsigned decimal parsing
// ---------------------------------------------------------------------------

/// What parsing a decimal numeral yields: the denoted value, provided the
/// string is non-empty, all digits, and the value fits in a `u64`.
pub open spec fn parse_u64_spec(s: Seq<u8>) -> Result<u64, Error> {
    if s.len() > 0 && all_digits(s) && digits_value(s) <= u64::MAX {
        Ok(digits_value(s) as u64)
    } else {
        Err(Error::InvalidFormat)
    }
}

pub fn parse_u64(s: &[u8]) -> (r: Result<u64, Error>)
    ensures
        r == parse_u64_spec(s@),
{
    let len: usize = s.len();
    let mut acc: u64 = 0;
    let mut over: bool = false;
    let mut i: usize = 0;
    while i < len
        invariant
            0 <= i <= len,
            len == s@.len(),
            all_digits(s@.subrange(0, i as int)),
            !over ==> acc == digits_value(s@.subrange(0, i as int)),
            over ==> digits_value(s@.subrange(0, i as int)) > u64::MAX,
        decreases len - i,
    {
        let b: u8 = s[i];
        proof {
            assert(s@.subrange(0, i + 1).drop_last() =~= s@.subrange(0, i as int));
            assert(s@.subrange(0, i + 1).last() == s@[i as int]);
        }
        if b < 48 || b > 57 {
            proof {
                assert(!all_digits(s@));
            }
            return Err(Error::InvalidFormat);
        }
        let d: u64 = (b - 48) as u64;
        if over {
            proof {
                let p = s@.subrange(0, i as int);
                assert(digits_value(s@.subrange(0, i + 1)) == digits_value(p) * 10 + digit_val(b));
            }
        } else if acc > (u64::MAX - d) / 10 {
            over = true;
            proof {
                let p = s@.subrange(0, i as int);
                assert(digits_value(s@.subrange(0, i + 1)) == acc * 10 + d);
            }
        } else {
            acc = acc * 10 + d;
        }
        i = i + 1;
    }
    proof {
        assert(s@.subrange(0, len as int) =~= s@);
    }
    if len == 0 || over {
        Err(Error::InvalidFormat)
    } else {
        Ok(acc)
    }
}

// ---------------------------------------------------------------------------
// Hexadecimal digits
// ---------------------------------------------------------------------------

pub open spec fn is_hex_digit(b: u8) -> bool {
    is_digit(b) || (65 <= b <= 70) || (97 <= b <= 102)
}

pub open spec fn hex_val(b: u8) -> nat
    recommends
        is_hex_digit(b),
{
    if is_digit(b) {
        (b - 48) as nat
    } else if 65 <= b <= 70 {
        (b - 55) as nat
    } else {
        (b - 87) as nat
    }
}

fn hex_digit(b: u8) -> (r: Option<u8>)
    ensures
        r matches Some(v) ==> is_hex_digit(b) && v == hex_val(b),
        r is None ==> !is_hex_digit(b),
{
    if 48 <= b && b <= 57 {
        Some(b - 48)
    } else if 65 <= b && b <= 70 {
        Some(b - 55)
    } else if 97 <= b && b <= 102 {
        Some(b - 87)
    } else {
        None
    }
}

/// The 16-bit value of exactly four hexadecimal digits.
pub open spec fn hex16_spec(s: Seq<u8>) -> Result<u16, Error> {
    if s.len() == 4 && is_hex_digit(s[0]) && is_hex_digit(s[1]) && is_hex_digit(s[2])
        && is_hex_digit(s[3]) {
        Ok(
            (((hex_val(s[0]) * 16 + hex_val(s[1])) * 16 + hex_val(s[2])) * 16 + hex_val(
                s[3],
            )) as u16,
        )
    } else {
        Err(Error::InvalidFormat)
    }
}

pub fn parse_hex16(s: &[u8]) -> (r: Result<u16, Error>)
    ensures
        r == hex16_spec(s@),
{
    if s.len() != 4 {
        return Err(Error::InvalidFormat);
    }
    let d0 = hex_digit(s[0]);
    let d1 = hex_digit(s[1]);
    let d2 = hex_digit(s[2]);
    let d3 = hex_digit(s[3]);
    match (d0, d1, d2, d3) {
        (Some(a), Some(b), Some(c), Some(d)) => Ok(
            (((a as u16) * 16 + (b as u16)) * 16 + (c as u16)) * 16 + (d as u16),
        ),
        _ => Err(Error::InvalidFormat),
    }
}

/// The byte denoted by a pair of hexadecimal digits.
pub open spec fn hex_pair_spec(hi: u8, lo: u8) -> Result<u8, Error> {
    if is_hex_digit(hi) && is_hex_digit(lo) {
        Ok((hex_val(hi) * 16 + hex_val(lo)) as u8)
    } else {
        Err(Error::InvalidFormat)
    }
}

pub fn parse_hex_pair(hi: u8, lo: u8) -> (r: Result<u8, Error>)
    ensures
        r == hex_pair_spec(hi, lo),
{
    match (hex_digit(hi), hex_digit(lo)) {
        (Some(a), Some(b)) => Ok(a * 16 + b),
        _ => Err(Error::InvalidFormat),
    }
}

// ---------------------------------------------------------------------------
// Byte sequence comparison and searching
// ---------------------------------------------------------------------------

pub fn bytes_eq(a: &[u8], b: &[u8]) -> (r: bool)
    ensures
        r == (a@ == b@),
{
    let n: usize = a.len();
    if n != b.len() {
        return false;
    }
    let mut i: usize = 0;
    while i < n
        invariant
            0 <= i <= n,
            n == a@.len() && n == b@.len(),
            forall|j: int| 0 <= j < i ==> a@[j] == b@[j],
        decreases n - i,
    {
        if a[i] != b[i] {
            return false;
        }
        i = i + 1;
    }
    proof {
        assert(a@ =~= b@);
    }
    true
}

/// The first position at or after `i` holding byte `b`.
pub open spec fn find_byte_from(s: Seq<u8>, b: u8, i: int) -> Option<int>
    decreases s.len() - i,
{
    if i < 0 || i >= s.len() {
        None
    } else if s[i] == b {
        Some(i)
    } else {
        find_byte_from(s, b, i + 1)
    }
}

pub proof fn lemma_find_byte_in_range(s: Seq<u8>, b: u8, i: int)
    requires
        0 <= i,
    ensures
        find_byte_from(s, b, i) matches Some(j) ==> i <= j < s.len() && s[j] == b && (forall|k: int|
            i <= k < j ==> s[k] != b),
        find_byte_from(s, b, i) is None ==> forall|k: int| i <= k < s.len() ==> s[k] != b,
    decreases s.len() - i,
{
    if 0 <= i < s.len() && s[i] != b {
        lemma_find_byte_in_range(s, b, i + 1);
    }
}

pub fn find_byte(s: &[u8], b: u8, start: usize) -> (r: Option<usize>)
    ensures
        match r {
            Some(j) => find_byte_from(s@, b, start as int) == Some(j as int),
            None => find_byte_from(s@, b, start as int) is None,
        },
{
    let n: usize = s.len();
    let mut i: usize = start;
    while i < n
        invariant
            start <= i,
            n == s@.len(),
            find_byte_from(s@, b, start as int) == find_byte_from(s@, b, i as int),
        decreases n - i,
    {
        if s[i] == b {
            return Some(i);
        }
        i = i + 1;
    }
    None
}

/// True when the blank-line separator `CR LF CR LF` stands at position `i`.
pub open spec fn sep_at(s: Seq<u8>, i: int) -> bool {
    &&& 0 <= i
    &&& i + 4 <= s.len()
    &&& s[i] == CR
    &&& s[i + 1] == LF
    &&& s[i + 2] == CR
    &&& s[i + 3] == LF
}

/// The first position at or after `i` where the blank-line separator stands.
pub open spec fn find_sep_from(s: Seq<u8>, i: int) -> Option<int>
    decreases s.len() - i,
{
    if i < 0 || i + 4 > s.len() {
        None
    } else if sep_at(s, i) {
        Some(i)
    } else {
        find_sep_from(s, i + 1)
    }
}

pub proof fn lemma_find_sep_in_range(s: Seq<u8>, i: int)
    requires
        0 <= i,
    ensures
        find_sep_from(s, i) matches Some(j) ==> i <= j && j + 4 <= s.len() && sep_at(s, j),
    decreases s.len() - i,
{
    if i + 4 <= s.len() && !sep_at(s, i) {
        lemma_find_sep_in_range(s, i + 1);
    }
}

pub fn find_sep(s: &[u8]) -> (r: Option<usize>)
    ensures
        match r {
            Some(j) => find_sep_from(s@, 0) == Some(j as int),
            None => find_sep_from(s@, 0) is None,
        },
{
    let n: usize = s.len();
    if n < 4 {
        return None;
    }
    let mut i: usize = 0;
    while i <= n - 4
        invariant
            0 <= i,
            i <= n - 3,
            n == s@.len(),
            n >= 4,
            find_sep_from(s@, 0) == find_sep_from(s@, i as int),
        decreases n - i,
    {
        if s[i] == CR && s[i + 1] == LF && s[i + 2] == CR && s[i + 3] == LF {
            return Some(i);
        }
        i = i + 1;
    }
    None
}

// ---------------------------------------------------------------------------
// Sub-sequence extraction
// ---------------------------------------------------------------------------

/// An owned copy of `s[from..to]`.
pub fn subvec(s: &[u8], from: usize, to: usize) -> (r: Vec<u8>)
    requires
        0 <= from <= to <= s@.len(),
    ensures
        r@ == s@.subrange(from as int, to as int),
{
    vstd::slice::slice_to_vec(vstd::slice::slice_subrange(s, from, to))
}

// ---------------------------------------------------------------------------
// Line splitting
// ---------------------------------------------------------------------------

/// Drops one trailing carriage return, as line splitting does.
pub open spec fn strip_cr(s: Seq<u8>) -> Seq<u8> {
    if s.len() > 0 && s.last() == CR {
        s.drop_last()
    } else {
        s
    }
}

/// The lines of `s` from position `i` on: segments split at each line feed,
/// each segment stripped of one trailing carriage return, and a final
/// segment without line feed kept as it stands.
pub open spec fn split_lines_from(s: Seq<u8>, i: int) -> Seq<Seq<u8>>
    decreases s.len() - i,
{
    if i < 0 || i >= s.len() {
        Seq::empty()
    } else {
        match find_byte_from(s, LF, i) {
            None => seq![s.subrange(i, s.len() as int)],
            Some(j) => if i <= j < s.len() {
                seq![strip_cr(s.subrange(i, j))] + split_lines_from(s, j + 1)
            } else {
                Seq::empty()
            },
        }
    }
}

pub open spec fn split_lines(s: Seq<u8>) -> Seq<Seq<u8>> {
    split_lines_from(s, 0)
}

fn strip_cr_slice(v: &[u8]) -> (r: Vec<u8>)
    ensures
        r@ == strip_cr(v@),
{
    let n: usize = v.len();
    if n > 0 && v[n - 1] == CR {
        let r = subvec(v, 0, n - 1);
        proof {
            assert(r@ =~= strip_cr(v@));
        }
        r
    } else {
        let r = subvec(v, 0, n);
        proof {
            assert(r@ =~= strip_cr(v@));
        }
        r
    }
}

/// Splits a body into its lines.
pub fn split_into_lines(s: &[u8]) -> (r: Vec<Vec<u8>>)
    ensures
        r.deep_view() == split_lines(s@),
{
    let n: usize = s.len();
    let mut out: Vec<Vec<u8>> = Vec::new();
    let mut i: usize = 0;
    proof {
        assert(out.deep_view() + split_lines_from(s@, 0) =~~= split_lines(s@));
    }
    while i < n
        invariant
            0 <= i <= n,
            n == s@.len(),
            split_lines(s@) == out.deep_view() + split_lines_from(s@, i as int),
        decreases n - i,
    {
        match find_byte(s, LF, i) {
            None => {
                let seg = subvec(s, i, n);
                out.push(seg);
                proof {
                    assert(out.deep_view() =~~= split_lines(s@));
                }
                return out;
            },
            Some(j) => {
                proof {
                    lemma_find_byte_in_range(s@, LF, i as int);
                }
                let seg = strip_cr_slice(vstd::slice::slice_subrange(s, i, j));
                out.push(seg);
                proof {
                    assert(split_lines(s@) =~~= out.deep_view() + split_lines_from(s@, j + 1));
                }
                i = j + 1;
            },
        }
    }
    proof {
        assert(out.deep_view() =~~= split_lines(s@));
    }
    out
}

} // verus!
