//! Numbers written as text: whole numbers, and decimal numbers read as
//! fixed-point values with nine places after the point.
use crate::text::{before, field_len, lemma_field_len_bound};
use vstd::prelude::*;

verus! {

/// How many units of a fixed-point value make one.
pub const NANOS: i64 = 1_000_000_000;

pub open spec fn is_digit(c: char) -> bool {
    0x30 <= c as u32 <= 0x39
}

/// The number that the digit `c` stands for.
pub open spec fn digit_of(c: char) -> nat {
    (c as u32 - 0x30) as nat
}

pub open spec fn all_digits(s: Seq<char>) -> bool {
    forall|i: int| 0 <= i < s.len() ==> is_digit(#[trigger] s[i])
}

/// The number that the decimal digits `s` write; 0 for no digit.
pub open spec fn digits_value(s: Seq<char>) -> nat
    decreases s.len(),
{
    if s.len() == 0 {
        0
    } else {
        digits_value(s.drop_last()) * 10 + digit_of(s.last())
    }
}

/// The number written by `s`, which must be one or more digits and write no
/// more than `max`.
pub open spec fn natural(s: Seq<char>, max: nat) -> Option<nat> {
    if s.len() > 0 && all_digits(s) && digits_value(s) <= max {
        Some(digits_value(s))
    } else {
        None
    }
}

/// The number written by `s`: digits as in [`natural`], after an optional
/// `+`.
pub open spec fn unsigned(s: Seq<char>, max: nat) -> Option<nat> {
    if s.len() > 0 && s[0] == '+' {
        natural(s.skip(1), max)
    } else {
        natural(s, max)
    }
}

/// The number written by `s`: digits after an optional `+` or `-`, the
/// result between `min` and `max`.
pub open spec fn signed(s: Seq<char>, min: int, max: int) -> Option<int>
    recommends
        min <= 0 <= max,
{
    if s.len() > 0 && s[0] == '-' {
        match natural(s.skip(1), (-min) as nat) {
            Some(v) => Some(-(v as int)),
            None => None,
        }
    } else {
        match unsigned(s, max as nat) {
            Some(v) => Some(v as int),
            None => None,
        }
    }
}

pub proof fn lemma_digits_value_grows(s: Seq<char>, n: int)
    requires
        0 <= n <= s.len(),
    ensures
        digits_value(s.take(n)) <= digits_value(s),
    decreases s.len(),
{
    if n < s.len() {
        assert(s.drop_last().take(n) =~= s.take(n));
        lemma_digits_value_grows(s.drop_last(), n);
    } else {
        assert(s.take(n) =~= s);
    }
}

fn digit(c: char) -> (r: Option<u8>)
    ensures
        r is Some <==> is_digit(c),
        r is Some ==> r->0 == digit_of(c) && r->0 <= 9,
{
    let n: u32 = c as u32;
    if 0x30 <= n && n <= 0x39 {
        Some((n - 0x30) as u8)
    } else {
        None
    }
}

/// Reads one or more digits that write no more than `max`.
pub fn parse_digits(s: &[char], max: u32) -> (r: Option<u32>)
    ensures
        r is Some <==> natural(s@, max as nat) is Some,
        r is Some ==> r->0 == natural(s@, max as nat)->0,
{
    if s.len() == 0 {
        return None;
    }
    let mut acc: u64 = 0;
    let mut i: usize = 0;
    while i < s.len()
        invariant
            i <= s.len(),
            all_digits(s@.take(i as int)),
            acc == digits_value(s@.take(i as int)),
            acc <= max,
        decreases s.len() - i,
    {
        let ghost head = s@.take(i + 1);
        assert(head.drop_last() =~= s@.take(i as int));
        match digit(s[i]) {
            Some(d) => {
                acc = acc * 10 + d as u64;
                if acc > max as u64 {
                    proof {
                        lemma_digits_value_grows(s@, i + 1);
                    }
                    return None;
                }
            },
            None => {
                return None;
            },
        }
        i += 1;
    }
    assert(s@.take(s.len() as int) =~= s@);
    Some(acc as u32)
}

/// Reads an unsigned number as `str::parse` does for `u32`, with `max` in
/// place of the type's limit.
pub fn parse_unsigned(s: &[char], max: u32) -> (r: Option<u32>)
    ensures
        r is Some <==> unsigned(s@, max as nat) is Some,
        r is Some ==> r->0 == unsigned(s@, max as nat)->0,
{
    if s.len() > 0 && s[0] == '+' {
        parse_digits(vstd::slice::slice_subrange(s, 1, s.len()), max)
    } else {
        parse_digits(s, max)
    }
}

pub fn parse_u32(s: &[char]) -> (r: Option<u32>)
    ensures
        r is Some <==> unsigned(s@, u32::MAX as nat) is Some,
        r is Some ==> r->0 == unsigned(s@, u32::MAX as nat)->0,
{
    parse_unsigned(s, u32::MAX)
}

pub fn parse_u16(s: &[char]) -> (r: Option<u16>)
    ensures
        r is Some <==> unsigned(s@, u16::MAX as nat) is Some,
        r is Some ==> r->0 == unsigned(s@, u16::MAX as nat)->0,
{
    match parse_unsigned(s, 0xFFFF) {
        Some(v) => Some(v as u16),
        None => None,
    }
}

pub fn parse_u8(s: &[char]) -> (r: Option<u8>)
    ensures
        r is Some <==> unsigned(s@, u8::MAX as nat) is Some,
        r is Some ==> r->0 == unsigned(s@, u8::MAX as nat)->0,
{
    match parse_unsigned(s, 0xFF) {
        Some(v) => Some(v as u8),
        None => None,
    }
}

/// Reads a signed number as `str::parse` does for a signed type whose values
/// lie between `-below` and `max`.
pub fn parse_signed(s: &[char], below: u32, max: u32) -> (r: Option<i64>)
    ensures
        r is Some <==> signed(s@, -(below as int), max as int) is Some,
        r is Some ==> r->0 == signed(s@, -(below as int), max as int)->0,
{
    if s.len() > 0 && s[0] == '-' {
        match parse_digits(vstd::slice::slice_subrange(s, 1, s.len()), below) {
            Some(v) => Some(-(v as i64)),
            None => None,
        }
    } else {
        match parse_unsigned(s, max) {
            Some(v) => Some(v as i64),
            None => None,
        }
    }
}

pub fn parse_i8(s: &[char]) -> (r: Option<i8>)
    ensures
        r is Some <==> signed(s@, i8::MIN as int, i8::MAX as int) is Some,
        r is Some ==> r->0 == signed(s@, i8::MIN as int, i8::MAX as int)->0,
{
    match parse_signed(s, 128, 127) {
        Some(v) => Some(v as i8),
        None => None,
    }
}

pub fn parse_i16(s: &[char]) -> (r: Option<i16>)
    ensures
        r is Some <==> signed(s@, i16::MIN as int, i16::MAX as int) is Some,
        r is Some ==> r->0 == signed(s@, i16::MIN as int, i16::MAX as int)->0,
{
    match parse_signed(s, 32768, 32767) {
        Some(v) => Some(v as i16),
        None => None,
    }
}

pub fn parse_i32(s: &[char]) -> (r: Option<i32>)
    ensures
        r is Some <==> signed(s@, i32::MIN as int, i32::MAX as int) is Some,
        r is Some ==> r->0 == signed(s@, i32::MIN as int, i32::MAX as int)->0,
{
    match parse_signed(s, 2147483648, 2147483647) {
        Some(v) => Some(v as i32),
        None => None,
    }
}

/// The first `places` characters of `frac`, with `0` where `frac` ends
/// earlier.
pub open spec fn padded(frac: Seq<char>, places: nat) -> Seq<char> {
    Seq::new(
        places,
        |k: int|
            if k < frac.len() {
                frac[k]
            } else {
                '0'
            },
    )
}

/// What a decimal number without sign is worth in billionths: digits, then
/// optionally a point and digits, with a digit on at least one side. The
/// part before the point is at most `u32::MAX`; places after the ninth do not
/// count.
pub open spec fn decimal_magnitude(s: Seq<char>) -> Option<nat> {
    let p = field_len(s, '.') as int;
    let whole = s.take(p);
    let frac = if p < s.len() {
        s.skip(p + 1)
    } else {
        Seq::empty()
    };
    if (whole.len() > 0 || frac.len() > 0) && all_digits(whole) && all_digits(frac)
        && digits_value(whole) <= u32::MAX {
        Some(digits_value(whole) * 1_000_000_000 + digits_value(padded(frac, 9)))
    } else {
        None
    }
}

/// What a decimal number is worth in billionths: [`decimal_magnitude`] after
/// an optional `+` or `-`.
pub open spec fn decimal(s: Seq<char>) -> Option<int> {
    if s.len() > 0 && s[0] == '-' {
        match decimal_magnitude(s.skip(1)) {
            Some(v) => Some(-(v as int)),
            None => None,
        }
    } else if s.len() > 0 && s[0] == '+' {
        match decimal_magnitude(s.skip(1)) {
            Some(v) => Some(v as int),
            None => None,
        }
    } else {
        match decimal_magnitude(s) {
            Some(v) => Some(v as int),
            None => None,
        }
    }
}

/// The largest magnitude that [`decimal`] gives.
pub const DECIMAL_MAX: i64 = 4_294_967_295_999_999_999;

pub open spec fn pow10(n: nat) -> nat
    decreases n,
{
    if n == 0 {
        1
    } else {
        10 * pow10((n - 1) as nat)
    }
}

fn all_digits_of(s: &[char]) -> (r: bool)
    ensures
        r == all_digits(s@),
{
    let mut i: usize = 0;
    while i < s.len()
        invariant
            i <= s.len(),
            forall|k: int| 0 <= k < i ==> is_digit(#[trigger] s@[k]),
        decreases s.len() - i,
    {
        if digit(s[i]).is_none() {
            return false;
        }
        i += 1;
    }
    true
}

/// The value of the first `places` digits of `frac`, padded with zeros.
pub fn parse_fraction(frac: &[char], places: u8) -> (r: Option<u64>)
    requires
        places <= 9,
    ensures
        r is Some <==> all_digits(frac@),
        r is Some ==> r->0 == digits_value(padded(frac@, places as nat)) && r->0 < pow10(
            places as nat,
        ),
{
    if !all_digits_of(frac) {
        return None;
    }
    let mut acc: u64 = 0;
    let mut k: u8 = 0;
    let ghost full = padded(frac@, places as nat);
    proof {
        lemma_pow10_nine();
        lemma_pow10_grows(0, 9);
    }
    while k < places
        invariant
            k <= places <= 9,
            full == padded(frac@, places as nat),
            all_digits(frac@),
            acc == digits_value(full.take(k as int)),
            acc < pow10(k as nat),
            pow10(k as nat) <= 1_000_000_000,
        decreases places - k,
    {
        let d: u8 = if (k as usize) < frac.len() {
            match digit(frac[k as usize]) {
                Some(d) => d,
                None => 0,
            }
        } else {
            0
        };
        proof {
            let head = full.take(k + 1);
            assert(head.drop_last() =~= full.take(k as int));
            lemma_pow10_nine();
            assert(pow10((k + 1) as nat) <= pow10(9)) by {
                lemma_pow10_grows((k + 1) as nat, 9);
            }
        }
        acc = acc * 10 + d as u64;
        k += 1;
    }
    assert(full.take(places as int) =~= full);
    Some(acc)
}

/// Digits write less than the power of ten of their number.
pub proof fn lemma_digits_bound(s: Seq<char>)
    requires
        all_digits(s),
    ensures
        digits_value(s) < pow10(s.len()),
    decreases s.len(),
{
    if s.len() > 0 {
        lemma_digits_bound(s.drop_last());
    }
}

/// The first places of digits, padded, write less than the power of ten of
/// their number.
pub proof fn lemma_padded_bound(frac: Seq<char>, places: nat)
    requires
        all_digits(frac),
    ensures
        digits_value(padded(frac, places)) < pow10(places),
{
    let p = padded(frac, places);
    lemma_digits_bound(p);
}

/// No decimal number is worth more than [`DECIMAL_MAX`].
pub proof fn lemma_decimal_bound(s: Seq<char>)
    requires
        decimal(s) is Some,
    ensures
        -DECIMAL_MAX <= decimal(s)->0 <= DECIMAL_MAX,
{
    let body = if s.len() > 0 && (s[0] == '-' || s[0] == '+') {
        s.skip(1)
    } else {
        s
    };
    let p = field_len(body, '.') as int;
    let frac = if p < body.len() {
        body.skip(p + 1)
    } else {
        Seq::empty()
    };
    lemma_padded_bound(frac, 9);
    lemma_pow10_nine();
}

proof fn lemma_pow10_nine()
    ensures
        pow10(9) == 1_000_000_000,
{
    reveal_with_fuel(pow10, 11);
}

proof fn lemma_pow10_grows(a: nat, b: nat)
    requires
        a <= b,
    ensures
        pow10(a) <= pow10(b),
        pow10(a) >= 1,
    decreases b,
{
    if a < b {
        lemma_pow10_grows(a, (b - 1) as nat);
    } else if a > 0 {
        lemma_pow10_grows((a - 1) as nat, (a - 1) as nat);
    }
}

fn parse_decimal_magnitude(s: &[char]) -> (r: Option<i64>)
    ensures
        r is Some <==> decimal_magnitude(s@) is Some,
        r is Some ==> r->0 == decimal_magnitude(s@)->0 && 0 <= r->0 <= DECIMAL_MAX,
{
    let whole = before(s, '.');
    let frac: &[char] = if whole.len() < s.len() {
        vstd::slice::slice_subrange(s, whole.len() + 1, s.len())
    } else {
        vstd::slice::slice_subrange(s, s.len(), s.len())
    };
    proof {
        lemma_field_len_bound(s@, '.');
        let p = field_len(s@, '.') as int;
        if p < s@.len() {
        } else {
            assert(frac@ =~= Seq::<char>::empty());
        }
    }
    if whole.len() == 0 && frac.len() == 0 {
        return None;
    }
    let w: u32 = if whole.len() == 0 {
        0
    } else {
        match parse_digits(whole, u32::MAX) {
            Some(w) => w,
            None => {
                return None;
            },
        }
    };
    match parse_fraction(frac, 9) {
        Some(f) => {
            proof {
                lemma_pow10_nine();
            }
            Some((w as i64) * 1_000_000_000 + f as i64)
        },
        None => None,
    }
}

/// Reads a decimal number into billionths.
pub fn parse_decimal(s: &[char]) -> (r: Option<i64>)
    ensures
        r is Some <==> decimal(s@) is Some,
        r is Some ==> r->0 == decimal(s@)->0 && -DECIMAL_MAX <= r->0 <= DECIMAL_MAX,
{
    if s.len() > 0 && s[0] == '-' {
        match parse_decimal_magnitude(vstd::slice::slice_subrange(s, 1, s.len())) {
            Some(v) => Some(-v),
            None => None,
        }
    } else if s.len() > 0 && s[0] == '+' {
        parse_decimal_magnitude(vstd::slice::slice_subrange(s, 1, s.len()))
    } else {
        parse_decimal_magnitude(s)
    }
}

} // verus!
