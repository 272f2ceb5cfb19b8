//! Exact decimal numbers with nine places after the point, and their reading
//! from text.

use vstd::prelude::*;
use vstd::string::*;
use vstd::utf8::*;

verus! {

/// The number of units that make one: a decimal counts thousand-millionths.
pub const UNITS_PER_ONE: i64 = 1_000_000_000;

/// The bytes that write `0`, `9`, `-` and `.`.
const ZERO: u8 = 48;

const NINE: u8 = 57;

const MINUS: u8 = 45;

const POINT: u8 = 46;

pub open spec fn is_digit(c: char) -> bool {
    '0' <= c <= '9'
}

/// The first position at or after `from` that holds no digit; the length of
/// `s` where digits run to the end.
pub open spec fn digits_end(s: Seq<char>, from: int) -> int
    decreases s.len() - from,
{
    if 0 <= from < s.len() && is_digit(s[from]) {
        digits_end(s, from + 1)
    } else {
        from
    }
}

/// The number that the digits of `s` from `from` up to `to` write.
pub open spec fn digits_value(s: Seq<char>, from: int, to: int) -> int
    decreases to - from,
{
    if from < to {
        digits_value(s, from, to - 1) * 10 + (s[to - 1] as int - '0' as int)
    } else {
        0
    }
}

pub open spec fn pow10(n: int) -> int
    decreases n,
{
    if n <= 0 {
        1
    } else {
        10 * pow10(n - 1)
    }
}

/// The number that `text` writes, in units of a thousand-millionth: an
/// optional `-`, one to nine digits, and optionally a point followed by one
/// to nine digits. `None` for any other text.
pub open spec fn decimal_of(text: Seq<char>) -> Option<int> {
    let negative = text.len() > 0 && text[0] == '-';
    let start: int = if negative { 1 } else { 0 };
    let sign: int = if negative { -1 } else { 1 };
    let dot = digits_end(text, start);
    let whole = digits_value(text, start, dot) * pow10(9);
    if !(1 <= dot - start <= 9) {
        None
    } else if dot == text.len() {
        Some(sign * whole)
    } else if text[dot] != '.' {
        None
    } else {
        let end = digits_end(text, dot + 1);
        let places = end - (dot + 1);
        if end != text.len() || !(1 <= places <= 9) {
            None
        } else {
            Some(sign * (whole + digits_value(text, dot + 1, end) * pow10(9 - places)))
        }
    }
}

/// Where a run of digits ends: within the text, after digits only, and
/// before a character that is no digit.
pub proof fn lemma_digits_end(s: Seq<char>, from: int)
    requires
        0 <= from <= s.len(),
    ensures
        from <= digits_end(s, from) <= s.len(),
        forall|i: int| from <= i < digits_end(s, from) ==> is_digit(#[trigger] s[i]),
        digits_end(s, from) < s.len() ==> !is_digit(s[digits_end(s, from)]),
    decreases s.len() - from,
{
    if from < s.len() && is_digit(s[from]) {
        lemma_digits_end(s, from + 1);
    }
}

/// The powers of ten up to the ninth.
pub proof fn lemma_pow10_values()
    ensures
        pow10(0) == 1,
        pow10(1) == 10,
        pow10(2) == 100,
        pow10(3) == 1_000,
        pow10(4) == 10_000,
        pow10(5) == 100_000,
        pow10(6) == 1_000_000,
        pow10(7) == 10_000_000,
        pow10(8) == 100_000_000,
        pow10(9) == 1_000_000_000,
{
    reveal_with_fuel(pow10, 11);
}

/// Two powers of ten whose exponents add up to nine multiply to the ninth.
pub proof fn lemma_pow10_split(k: int)
    requires
        0 <= k <= 9,
    ensures
        pow10(k) * pow10(9 - k) == 1_000_000_000,
        pow10(k) > 0,
        pow10(9 - k) > 0,
{
    lemma_pow10_values();
    if k == 0 {
    } else if k == 1 {
    } else if k == 2 {
    } else if k == 3 {
    } else if k == 4 {
    } else if k == 5 {
    } else if k == 6 {
    } else if k == 7 {
    } else if k == 8 {
    } else {
    }
}

/// A text that writes a number holds only digits, `-` and `.`.
pub proof fn lemma_decimal_text_is_ascii(text: Seq<char>)
    requires
        decimal_of(text) is Some,
    ensures
        is_ascii_chars(text),
{
    let negative = text.len() > 0 && text[0] == '-';
    let start: int = if negative { 1 } else { 0 };
    lemma_digits_end(text, start);
    let dot = digits_end(text, start);
    if dot < text.len() {
        lemma_digits_end(text, dot + 1);
    }
    assert forall|i: int| 0 <= i < text.len() implies '\0' <= #[trigger] text[i] <= '\u{7f}' by {
        if i < start {
        } else if i < dot {
            assert(is_digit(text[i]));
        } else if i == dot {
        } else {
            assert(is_digit(text[i]));
        }
    }
}

/// The bytes `b` hold the characters of `s`, one byte for each.
pub open spec fn spells(b: Seq<u8>, s: Seq<char>) -> bool {
    &&& b.len() == s.len()
    &&& forall|i: int| 0 <= i < s.len() ==> (#[trigger] b[i]) as int == s[i] as int
}

/// Where the run of digits that begins at `from` ends.
fn scan_digits(b: &[u8], from: usize, Ghost(s): Ghost<Seq<char>>) -> (end: usize)
    requires
        spells(b@, s),
        from <= b@.len(),
    ensures
        end == digits_end(s, from as int),
        from <= end <= b@.len(),
{
    let n: usize = b.len();
    let mut i: usize = from;
    while i < n && b[i] >= ZERO && b[i] <= NINE
        invariant
            spells(b@, s),
            n == b@.len(),
            from <= i <= n,
            digits_end(s, from as int) == digits_end(s, i as int),
        decreases n - i,
    {
        assert(b@[i as int] as int == s[i as int] as int);
        assert(is_digit(s[i as int]));
        i += 1;
    }
    proof {
        if i < n {
            assert(b@[i as int] as int == s[i as int] as int);
            assert(!is_digit(s[i as int]));
        }
    }
    i
}

/// The number written by at most nine digits.
fn read_digits(b: &[u8], from: usize, to: usize, Ghost(s): Ghost<Seq<char>>) -> (value: u64)
    requires
        spells(b@, s),
        from <= to <= b@.len(),
        to - from <= 9,
        forall|i: int| from <= i < to ==> is_digit(#[trigger] s[i]),
    ensures
        value == digits_value(s, from as int, to as int),
        value < pow10(to - from),
{
    let mut value: u64 = 0;
    let mut i: usize = from;
    proof {
        lemma_pow10_values();
    }
    while i < to
        invariant
            spells(b@, s),
            from <= i <= to <= b@.len(),
            to - from <= 9,
            forall|j: int| from <= j < to ==> is_digit(#[trigger] s[j]),
            value == digits_value(s, from as int, i as int),
            value < pow10(i - from),
            pow10(i - from) <= 1_000_000_000,
        decreases to - i,
    {
        proof {
            assert(is_digit(s[i as int]));
            assert(b@[i as int] as int == s[i as int] as int);
            lemma_pow10_values();
            assert(pow10(i + 1 - from) == 10 * pow10(i - from));
        }
        value = value * 10 + (b[i] - ZERO) as u64;
        i += 1;
    }
    value
}

/// The power of ten with exponent `n`, up to the ninth.
fn power_of_ten(n: usize) -> (p: u64)
    requires
        n <= 9,
    ensures
        p == pow10(n as int),
{
    proof {
        lemma_pow10_values();
    }
    let mut p: u64 = 1;
    let mut i: usize = 0;
    while i < n
        invariant
            i <= n <= 9,
            p == pow10(i as int),
            p <= 1_000_000_000,
        decreases n - i,
    {
        proof {
            lemma_pow10_values();
            assert(pow10(i + 1) == 10 * pow10(i as int));
        }
        p = p * 10;
        i += 1;
    }
    p
}

/// An exact decimal number: a whole count of thousand-millionths.
#[derive(Clone, Copy, Debug, PartialEq, Eq, Structural)]
pub struct Decimal {
    units: i64,
}

impl View for Decimal {
    type V = int;

    /// The number, in units of a thousand-millionth.
    closed spec fn view(&self) -> int {
        self.units as int
    }
}

impl Decimal {
    /// The decimal of `units` thousand-millionths.
    pub fn from_units(units: i64) -> (d: Decimal)
        ensures
            d@ == units,
    {
        Decimal { units }
    }

    /// The number in thousand-millionths.
    pub fn units(&self) -> (units: i64)
        ensures
            units == self@,
    {
        self.units
    }

    /// Reads a number written in decimal digits, such as `0`, `1.0`, `0.5`
    /// or `-12.25`: the number comes back exactly where the text is an
    /// optional `-`, one to nine digits and optionally a point with one to
    /// nine digits after it.
    pub fn parse(text: &str) -> (d: Option<Decimal>)
        ensures
            match d {
                Some(d) => decimal_of(text@) == Some(d@),
                None => decimal_of(text@) is None,
            },
    {
        if !text.is_ascii() {
            proof {
                if decimal_of(text@) is Some {
                    lemma_decimal_text_is_ascii(text@);
                }
            }
            return None;
        }
        let b = text.as_bytes();
        let ghost s = text@;
        proof {
            is_ascii_chars_encode_utf8(s);
            is_ascii_chars_nat_bound(s);
            assert forall|i: int| 0 <= i < s.len() implies (#[trigger] b@[i]) as int == s[i] as int by {
                assert((s[i] as nat) < 128);
                assert(s[i] as u8 == encode_utf8(s)[i]);
            }
            assert(spells(b@, s));
            lemma_pow10_values();
        }
        let n: usize = b.len();
        let negative: bool = n > 0 && b[0] == MINUS;
        let start: usize = if negative { 1 } else { 0 };
        proof {
            if n > 0 {
                assert(b@[0] as int == s[0] as int);
            }
            assert(negative == (s.len() > 0 && s[0] == '-'));
            lemma_digits_end(s, start as int);
        }
        let dot: usize = scan_digits(b, start, Ghost(s));
        if dot - start < 1 || dot - start > 9 {
            return None;
        }
        let whole: u64 = read_digits(b, start, dot, Ghost(s));
        let mut magnitude: u64 = whole * 1_000_000_000;
        if dot < n {
            proof {
                assert(b@[dot as int] as int == s[dot as int] as int);
            }
            if b[dot] != POINT {
                return None;
            }
            proof {
                lemma_digits_end(s, dot + 1);
            }
            let end: usize = scan_digits(b, dot + 1, Ghost(s));
            let places: usize = end - (dot + 1);
            if end != n || places < 1 || places > 9 {
                return None;
            }
            let fraction: u64 = read_digits(b, dot + 1, end, Ghost(s));
            let scale: u64 = power_of_ten(9 - places);
            proof {
                lemma_pow10_split(places as int);
                assert(fraction * scale < 1_000_000_000) by (nonlinear_arith)
                    requires
                        fraction < pow10(places as int),
                        scale == pow10(9 - places),
                        pow10(places as int) * pow10(9 - places) == 1_000_000_000,
                        scale > 0,
                ;
            }
            magnitude = magnitude + fraction * scale;
        }
        let units: i64 = if negative { -(magnitude as i64) } else { magnitude as i64 };
        Some(Decimal { units })
    }

    /// Whether the number is less than 0.
    pub fn is_negative(&self) -> (negative: bool)
        ensures
            negative == (self@ < 0),
    {
        self.units < 0
    }

    /// Whether the number is greater than 0 and at most 1.
    pub fn is_share(&self) -> (share: bool)
        ensures
            share == (0 < self@ <= UNITS_PER_ONE),
    {
        0 < self.units && self.units <= UNITS_PER_ONE
    }

    /// The number as a count, where it is whole and not negative.
    pub fn as_u64(&self) -> (count: Option<u64>)
        ensures
            match count {
                Some(c) => self@ == c * UNITS_PER_ONE,
                None => self@ < 0 || self@ % (UNITS_PER_ONE as int) != 0,
            },
    {
        if self.units >= 0 && self.units % UNITS_PER_ONE == 0 {
            Some((self.units / UNITS_PER_ONE) as u64)
        } else {
            None
        }
    }
}

} // verus!
