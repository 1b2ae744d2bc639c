use crate::lookahead::FromLookAheadValue;
use crate::scalar::{ScalarAbs, ScalarValue};
use vstd::prelude::*;

verus! {

/// The decimal digit character for one digit value.
pub open spec fn decimal_digit(d: nat) -> char {
    if d == 0 {
        '0'
    } else if d == 1 {
        '1'
    } else if d == 2 {
        '2'
    } else if d == 3 {
        '3'
    } else if d == 4 {
        '4'
    } else if d == 5 {
        '5'
    } else if d == 6 {
        '6'
    } else if d == 7 {
        '7'
    } else if d == 8 {
        '8'
    } else {
        '9'
    }
}

/// The decimal digit characters of a non-negative number, most significant
/// first and without leading zeroes.
pub open spec fn decimal_digits(n: nat) -> Seq<char>
    decreases n,
{
    if n < 10 {
        seq![decimal_digit(n)]
    } else {
        decimal_digits(n / 10).push(decimal_digit(n % 10))
    }
}

/// The canonical decimal text of an integer: a leading minus sign for
/// negative numbers, then the digits.
pub open spec fn decimal_of_int(i: int) -> Seq<char> {
    if i < 0 {
        seq!['-'] + decimal_digits((-i) as nat)
    } else {
        decimal_digits(i as nat)
    }
}

fn digit_char_of(d: u64) -> (r: char)
    requires
        d < 10,
    ensures
        r == decimal_digit(d as nat),
{
    match d {
        0 => '0',
        1 => '1',
        2 => '2',
        3 => '3',
        4 => '4',
        5 => '5',
        6 => '6',
        7 => '7',
        8 => '8',
        _ => '9',
    }
}

fn decimal_digit_chars(n: u64) -> (r: Vec<char>)
    ensures
        r@ == decimal_digits(n as nat),
    decreases n,
{
    if n < 10 {
        let mut v: Vec<char> = Vec::new();
        v.push(digit_char_of(n));
        proof {
            assert(v@ =~= decimal_digits(n as nat));
        }
        v
    } else {
        let mut v = decimal_digit_chars(n / 10);
        v.push(digit_char_of(n % 10));
        v
    }
}

/// Relies on the standard library's collection of a character iterator into
/// a string: the resulting string holds exactly the characters of the
/// vector, in order.
#[verifier::external_body]
fn string_from_chars(v: &Vec<char>) -> (r: String)
    ensures
        r@ == v@,
{
    v.iter().collect()
}

/// Renders an integer as its canonical decimal text.
pub fn decimal_string_i64(i: i64) -> (r: String)
    ensures
        r@ == decimal_of_int(i as int),
{
    if i < 0 {
        let wide: i128 = -(i as i128);
        let mag: u64 = wide as u64;
        let digits = decimal_digit_chars(mag);
        let mut chars: Vec<char> = Vec::new();
        chars.push('-');
        let mut moved = digits;
        chars.append(&mut moved);
        proof {
            assert(chars@ =~= decimal_of_int(i as int));
        }
        string_from_chars(&chars)
    } else {
        let digits = decimal_digit_chars(i as u64);
        string_from_chars(&digits)
    }
}

/// An opaque identifier in its canonical textual form.
///
/// The query layer hands identifiers over either as an integer node or as a
/// string node; both are kept as text, an integer by its decimal rendering.
#[derive(Debug, PartialEq)]
pub struct OpaqueId {
    pub id: String,
}

impl View for OpaqueId {
    type V = Seq<char>;

    open spec fn view(&self) -> Seq<char> {
        self.id@
    }
}

impl Clone for OpaqueId {
    /// A clone denotes the same identifier text as the original.
    fn clone(&self) -> (res: Self)
        ensures
            res@ == self@,
    {
        OpaqueId { id: self.id.clone() }
    }
}

impl FromLookAheadValue for OpaqueId {
    /// An opaque identifier accepts an integer node or a string node.
    open spec fn converts(v: ScalarAbs) -> bool {
        v is Int || v is Text
    }

    open spec fn converted(v: ScalarAbs, r: OpaqueId) -> bool {
        match v {
            ScalarAbs::Int(i) => r@ == decimal_of_int(i as int),
            ScalarAbs::Text(s) => r@ == s,
            _ => false,
        }
    }

    fn from_look_ahead(v: &ScalarValue) -> Option<OpaqueId> {
        match v {
            ScalarValue::Int(i) => Some(OpaqueId { id: decimal_string_i64(*i as i64) }),
            ScalarValue::Text(s) => Some(OpaqueId { id: s.clone() }),
            _ => None,
        }
    }
}

/// A universally unique identifier, held as its 128-bit value.
#[derive(Debug, Clone, Copy, PartialEq, Eq, Structural)]
pub struct UuidValue {
    pub value: u128,
}

/// The 128-bit value denoted by a UUID in standard textual form, or absence
/// when the text is not a well-formed UUID.
pub uninterp spec fn parsed_uuid(s: Seq<char>) -> Option<u128>;

/// Relies on uuid::Uuid::parse_str and uuid::Uuid::as_u128: whether the text
/// is a well-formed UUID, and the 128-bit value it denotes, depend on the
/// characters alone.
#[verifier::external_body]
fn parse_uuid_text(s: &str) -> (r: Option<u128>)
    ensures
        r == parsed_uuid(s@),
{
    uuid::Uuid::parse_str(s).ok().map(|u| u.as_u128())
}

impl FromLookAheadValue for UuidValue {
    /// A UUID accepts a string node holding its standard textual form.
    open spec fn converts(v: ScalarAbs) -> bool {
        v matches ScalarAbs::Text(s) && parsed_uuid(s) is Some
    }

    open spec fn converted(v: ScalarAbs, r: UuidValue) -> bool {
        v matches ScalarAbs::Text(s) && parsed_uuid(s) == Some(r.value)
    }

    fn from_look_ahead(v: &ScalarValue) -> Option<UuidValue> {
        if let ScalarValue::Text(s) = v {
            match parse_uuid_text(s.as_str()) {
                Some(u) => Some(UuidValue { value: u }),
                None => None,
            }
        } else {
            None
        }
    }
}

} // verus!
