//! The JSON values that requests, tool arguments and results are made of.
//!
//! Objects keep their members in order; when a name occurs more than once
//! the last occurrence is the one that counts, as in a parser that
//! overwrites earlier members.

use vstd::prelude::*;
use crate::text::{chars_of, decimal, decimal_chars, signed_decimal, str_eq};

verus! {

/// A JSON number.
#[derive(Debug, PartialEq)]
pub enum JsonNumber {
    /// A non-negative integer.
    PosInt(u64),
    /// A negative integer.
    NegInt(i64),
    /// Any other number, held as its shortest decimal rendering: an optional
    /// `-`, digits, and optionally `.` followed by digits.
    Float(String),
}

/// A JSON value.
#[derive(Debug, PartialEq)]
pub enum JsonValue {
    Null,
    Bool(bool),
    Number(JsonNumber),
    Str(String),
    Array(Vec<JsonValue>),
    Object(Vec<(String, JsonValue)>),
}

/// The member called `key` among `entries`: the last one of that name.
pub open spec fn field(entries: Seq<(String, JsonValue)>, key: Seq<char>) -> Option<JsonValue>
    decreases entries.len(),
{
    if entries.len() == 0 {
        None
    } else if entries.last().0@ == key {
        Some(entries.last().1)
    } else {
        field(entries.drop_last(), key)
    }
}

/// The value of a decimal digit character, and 0 for any other character.
pub open spec fn digit_value(c: char) -> nat {
    if '0' <= c && c <= '9' {
        (c as u32 - '0' as u32) as nat
    } else {
        0
    }
}

/// The number that a string of decimal digits denotes.
pub open spec fn digits_value(s: Seq<char>) -> nat
    decreases s.len(),
{
    if s.len() == 0 {
        0
    } else {
        digits_value(s.drop_last()) * 10 + digit_value(s.last())
    }
}

/// The characters of `s` before its first `.`.
pub open spec fn before_dot(s: Seq<char>) -> Seq<char>
    decreases s.len(),
{
    if s.len() == 0 {
        s
    } else if s[0] == '.' {
        Seq::empty()
    } else {
        seq![s[0]] + before_dot(s.drop_first())
    }
}

/// The characters of `s` after its first `.`.
pub open spec fn after_dot(s: Seq<char>) -> Seq<char>
    decreases s.len(),
{
    if s.len() == 0 {
        s
    } else if s[0] == '.' {
        s.drop_first()
    } else {
        after_dot(s.drop_first())
    }
}

/// Whether a decimal rendering starts with a minus sign.
pub open spec fn decimal_negative(t: Seq<char>) -> bool {
    t.len() > 0 && t[0] == '-'
}

/// A decimal rendering without its sign.
pub open spec fn decimal_magnitude(t: Seq<char>) -> Seq<char> {
    if decimal_negative(t) { t.drop_first() } else { t }
}

/// The integral part of the magnitude of a decimal rendering.
pub open spec fn decimal_int_part(t: Seq<char>) -> nat {
    digits_value(before_dot(decimal_magnitude(t)))
}

/// Whether the fractional part of a decimal rendering is not zero.
pub open spec fn decimal_has_fraction(t: Seq<char>) -> bool {
    exists|i: int| 0 <= i < after_dot(decimal_magnitude(t)).len()
        && '1' <= #[trigger] after_dot(decimal_magnitude(t))[i]
        && after_dot(decimal_magnitude(t))[i] <= '9'
}

/// Whether a decimal rendering denotes a number other than zero.
pub open spec fn decimal_nonzero(t: Seq<char>) -> bool {
    decimal_int_part(t) > 0 || decimal_has_fraction(t)
}

impl JsonNumber {
    /// Whether this number is smaller than the integer `min`.
    pub open spec fn spec_below(&self, min: nat) -> bool {
        match self {
            JsonNumber::PosInt(n) => (*n as nat) < min,
            JsonNumber::NegInt(n) => *n < 0 || (*n as int) < min,
            JsonNumber::Float(t) =>
                if decimal_negative(t@) {
                    decimal_nonzero(t@) || 0 < min
                } else {
                    decimal_int_part(t@) < min
                },
        }
    }

    /// Whether this number is larger than the integer `max`.
    pub open spec fn spec_above(&self, max: nat) -> bool {
        match self {
            JsonNumber::PosInt(n) => (*n as nat) > max,
            JsonNumber::NegInt(n) => (*n as int) > max,
            JsonNumber::Float(t) =>
                !decimal_negative(t@) && (decimal_int_part(t@) > max || (
                decimal_int_part(t@) == max && decimal_has_fraction(t@))),
        }
    }

    /// The decimal rendering of this number.
    pub open spec fn spec_text(&self) -> Seq<char> {
        match self {
            JsonNumber::PosInt(n) => decimal(*n as nat),
            JsonNumber::NegInt(n) => signed_decimal(*n as int),
            JsonNumber::Float(t) => t@,
        }
    }
}

/// What a range check needs of a decimal rendering.
pub struct DecimalParts {
    pub negative: bool,
    /// The integral part, or 2^64 where it is at least that large.
    pub int_part: u128,
    pub has_fraction: bool,
}

pub const INT_PART_CAP: u128 = 0x1_0000_0000_0000_0000;

pub open spec fn capped(n: nat) -> nat {
    if n < INT_PART_CAP { n } else { INT_PART_CAP as nat }
}

/// Splits a decimal rendering into sign, integral part and whether a fraction remains.
pub fn decimal_parts(t: &str) -> (r: DecimalParts)
    ensures
        r.negative == decimal_negative(t@),
        r.int_part as nat == capped(decimal_int_part(t@)),
        r.has_fraction == decimal_has_fraction(t@),
{
    let cs = chars_of(t);
    let negative = cs.len() > 0 && cs[0] == '-';
    let start: usize = if negative { 1 } else { 0 };
    let ghost m = decimal_magnitude(t@);
    assert(m =~= cs@.subrange(start as int, cs@.len() as int));
    let mut j: usize = start;
    let mut acc: u128 = 0;
    assert(m.subrange(0, 0) =~= Seq::<char>::empty());
    assert(m.subrange(0, m.len() as int) =~= m);
    while j < cs.len() && cs[j] != '.'
        invariant
            start <= j <= cs@.len(),
            m == cs@.subrange(start as int, cs@.len() as int),
            before_dot(m) == m.subrange(0, j - start) + before_dot(m.subrange(j - start, m.len() as int)),
            after_dot(m) == after_dot(m.subrange(j - start, m.len() as int)),
            acc as nat == capped(digits_value(m.subrange(0, j - start))),
        decreases cs@.len() - j,
    {
        let c = cs[j];
        let d: u128 = if '0' <= c && c <= '9' { (c as u32 - '0' as u32) as u128 } else { 0 };
        proof {
            let k = j - start;
            let rest = m.subrange(k, m.len() as int);
            assert(rest[0] == c);
            assert(rest.drop_first() =~= m.subrange(k + 1, m.len() as int));
            assert(m.subrange(0, k + 1) =~= m.subrange(0, k) + seq![c]);
            assert(m.subrange(0, k + 1).drop_last() =~= m.subrange(0, k));
            let x = digits_value(m.subrange(0, k));
            assert(digits_value(m.subrange(0, k + 1)) == x * 10 + d);
            if x >= INT_PART_CAP {
                assert(x * 10 + d >= INT_PART_CAP) by (nonlinear_arith)
                    requires x >= INT_PART_CAP, d >= 0;
            }
        }
        let next = acc * 10 + d;
        acc = if next < INT_PART_CAP { next } else { INT_PART_CAP };
        j += 1;
    }
    let ghost k = j - start;
    assert(before_dot(m.subrange(k, m.len() as int)) =~= Seq::<char>::empty());
    assert(before_dot(m) =~= m.subrange(0, k));
    let mut has_fraction = false;
    if j < cs.len() {
        let mut i: usize = j + 1;
        assert(after_dot(m) =~= cs@.subrange(j + 1, cs@.len() as int));
        while i < cs.len()
            invariant
                j + 1 <= i <= cs@.len(),
                after_dot(m) == cs@.subrange(j + 1, cs@.len() as int),
                has_fraction == exists|p: int| j + 1 <= p < i && '1' <= #[trigger] cs@[p] && cs@[p] <= '9',
            decreases cs@.len() - i,
        {
            if '1' <= cs[i] && cs[i] <= '9' {
                has_fraction = true;
            }
            i += 1;
        }
        proof {
            let f = after_dot(m);
            if has_fraction {
                let p = choose|p: int| j + 1 <= p < cs@.len() && '1' <= #[trigger] cs@[p] && cs@[p] <= '9';
                assert(f[p - j - 1] == cs@[p]);
            }
            if decimal_has_fraction(t@) {
                let q = choose|q: int| 0 <= q < f.len() && '1' <= #[trigger] f[q] && f[q] <= '9';
                assert(cs@[q + j + 1] == f[q]);
            }
        }
    } else {
        assert(after_dot(m) =~= Seq::<char>::empty());
    }
    DecimalParts { negative, int_part: acc, has_fraction }
}

impl JsonNumber {
    /// The decimal rendering of this number.
    pub fn text_chars(&self) -> (r: Vec<char>)
        ensures
            r@ == self.spec_text(),
    {
        match self {
            JsonNumber::PosInt(n) => decimal_chars(*n),
            JsonNumber::NegInt(n) => {
                if *n < 0 {
                    let m: u64 = (0 - (*n as i128)) as u64;
                    let mut out: Vec<char> = Vec::new();
                    out.push('-');
                    let mut d = decimal_chars(m);
                    out.append(&mut d);
                    assert(out@ =~= signed_decimal(*n as int));
                    out
                } else {
                    decimal_chars(*n as u64)
                }
            }
            JsonNumber::Float(t) => chars_of(t.as_str()),
        }
    }

    /// Whether this number is smaller than the integer `min`.
    pub fn below(&self, min: u64) -> (r: bool)
        ensures
            r == self.spec_below(min as nat),
    {
        match self {
            JsonNumber::PosInt(n) => *n < min,
            JsonNumber::NegInt(n) => *n < 0 || (*n as i128) < (min as i128),
            JsonNumber::Float(t) => {
                let p = decimal_parts(t.as_str());
                if p.negative {
                    p.int_part > 0 || p.has_fraction || 0 < min
                } else {
                    p.int_part < min as u128
                }
            }
        }
    }

    /// Whether this number is larger than the integer `max`.
    pub fn above(&self, max: u64) -> (r: bool)
        ensures
            r == self.spec_above(max as nat),
    {
        match self {
            JsonNumber::PosInt(n) => *n > max,
            JsonNumber::NegInt(n) => (*n as i128) > (max as i128),
            JsonNumber::Float(t) => {
                let p = decimal_parts(t.as_str());
                !p.negative && (p.int_part > max as u128 || (p.int_part == max as u128
                    && p.has_fraction))
            }
        }
    }
}

impl JsonValue {
    /// The member `key` of an object; nothing for any other value.
    pub open spec fn spec_get(&self, key: Seq<char>) -> Option<JsonValue> {
        match self {
            JsonValue::Object(entries) => field(entries@, key),
            _ => None,
        }
    }

    /// The member `key` of an object.
    pub fn get(&self, key: &str) -> (r: Option<&JsonValue>)
        ensures
            match r {
                Some(v) => self.spec_get(key@) == Some(*v),
                None => self.spec_get(key@) is None,
            },
    {
        match self {
            JsonValue::Object(entries) => {
                let mut i = entries.len();
                assert(entries@.subrange(0, i as int) =~= entries@);
                assert(self.spec_get(key@) == field(entries@, key@));
                while i > 0
                    invariant
                        i <= entries@.len(),
                        self.spec_get(key@) == field(entries@, key@),
                        field(entries@, key@) == field(entries@.subrange(0, i as int), key@),
                    decreases i,
                {
                    let e = &entries[i - 1];
                    proof {
                        let s = entries@.subrange(0, i as int);
                        assert(s.drop_last() =~= entries@.subrange(0, i - 1));
                        assert(s.last() == entries@[i - 1]);
                    }
                    if str_eq(e.0.as_str(), key) {
                        assert(field(entries@.subrange(0, i as int), key@) == Some(e.1));
                        return Some(&e.1);
                    }
                    i -= 1;
                }
                None
            }
            _ => None,
        }
    }

    pub fn is_null(&self) -> (r: bool)
        ensures
            r == (*self is Null),
    {
        match self {
            JsonValue::Null => true,
            _ => false,
        }
    }

    pub fn as_str(&self) -> (r: Option<&str>)
        ensures
            match r {
                Some(s) => *self is Str && self->Str_0@ == s@,
                None => !(*self is Str),
            },
    {
        match self {
            JsonValue::Str(s) => Some(s.as_str()),
            _ => None,
        }
    }

    pub fn as_bool(&self) -> (r: Option<bool>)
        ensures
            match r {
                Some(b) => *self == JsonValue::Bool(b),
                None => !(*self is Bool),
            },
    {
        match self {
            JsonValue::Bool(b) => Some(*b),
            _ => None,
        }
    }

    pub fn as_u64(&self) -> (r: Option<u64>)
        ensures
            match r {
                Some(n) => *self == JsonValue::Number(JsonNumber::PosInt(n)),
                None => !(*self is Number && self->Number_0 is PosInt),
            },
    {
        match self {
            JsonValue::Number(JsonNumber::PosInt(n)) => Some(*n),
            _ => None,
        }
    }

    pub fn as_number(&self) -> (r: Option<&JsonNumber>)
        ensures
            match r {
                Some(n) => *self == JsonValue::Number(*n),
                None => !(*self is Number),
            },
    {
        match self {
            JsonValue::Number(n) => Some(n),
            _ => None,
        }
    }
}

} // verus!
