//! Session identifiers: 128-bit numbers drawn at random when a connection is
//! accepted, written as 32 hexadecimal digits in five hyphenated groups.

use vstd::arithmetic::power::pow;
use vstd::prelude::*;

verus! {

/// The identity of one session. It is generated, never derived from
/// anything the client sends.
#[derive(Clone, Copy, Debug, PartialEq, Eq, Hash)]
pub struct SessionId {
    value: u128,
}

/// The character that stands for the hexadecimal digit `d`, in lower case.
pub open spec fn hex_char(d: nat) -> char
    recommends
        d < 16,
{
    if d == 0 {
        '0'
    } else if d == 1 {
        '1'
    } else if d == 2 {
        '2'
    } else if d == 3 {
        '3'
    } else if d == 4 {
        '4'
    } else if d == 5 {
        '5'
    } else if d == 6 {
        '6'
    } else if d == 7 {
        '7'
    } else if d == 8 {
        '8'
    } else if d == 9 {
        '9'
    } else if d == 10 {
        'a'
    } else if d == 11 {
        'b'
    } else if d == 12 {
        'c'
    } else if d == 13 {
        'd'
    } else if d == 14 {
        'e'
    } else {
        'f'
    }
}

/// The `k`-th of the 32 hexadecimal digits of `value`, counted from the most
/// significant one.
pub open spec fn hex_digit(value: u128, k: int) -> nat
    recommends
        0 <= k < 32,
{
    ((value as int / pow(16, (31 - k) as nat)) % 16) as nat
}

/// The character at position `i` of the written form of `value`: a hyphen
/// after the 8th, 12th, 16th and 20th digit, a digit everywhere else.
pub open spec fn id_text_char(value: u128, i: int) -> char
    recommends
        0 <= i < 36,
{
    if i == 8 || i == 13 || i == 18 || i == 23 {
        '-'
    } else if i < 8 {
        hex_char(hex_digit(value, i))
    } else if i < 13 {
        hex_char(hex_digit(value, i - 1))
    } else if i < 18 {
        hex_char(hex_digit(value, i - 2))
    } else if i < 23 {
        hex_char(hex_digit(value, i - 3))
    } else {
        hex_char(hex_digit(value, i - 4))
    }
}

/// The written form of the identifier `value`: 36 characters, such as
/// `a1a2a3a4-b1b2-c1c2-d1d2-d3d4d5d6d7d8`.
pub open spec fn id_text(value: u128) -> Seq<char> {
    Seq::new(36, |i: int| id_text_char(value, i))
}

/// Sixteen bytes from `rand::random`, read as one big-endian number. Which
/// number comes out is left open: nothing is assumed of it.
#[verifier::external_body]
fn random_value() -> (value: u128) {
    u128::from_be_bytes(rand::random::<[u8; 16]>())
}

/// The text that the `uuid` crate writes for the identifier whose sixteen
/// bytes are `value` in big-endian order: `uuid::Builder::from_bytes`, then
/// `into_uuid`, then `Display`. The builder keeps the bytes as they are, and
/// `Display` writes them in the lower-case hyphenated form, two digits for
/// each byte, first byte first.
#[verifier::external_body]
fn uuid_text(value: u128) -> (text: String)
    ensures
        text@ == id_text(value),
{
    uuid::Builder::from_bytes(value.to_be_bytes()).into_uuid().to_string()
}

impl View for SessionId {
    type V = u128;

    closed spec fn view(&self) -> u128 {
        self.value
    }
}

impl SessionId {
    /// The identifier with the given number.
    pub fn new(value: u128) -> (id: SessionId)
        ensures
            id@ == value,
    {
        SessionId { value }
    }

    /// A freshly drawn identifier, for a connection that was just accepted.
    pub fn fresh() -> (id: SessionId) {
        SessionId { value: random_value() }
    }

    /// The identifier's number.
    pub fn value(&self) -> (value: u128)
        ensures
            value == self@,
    {
        self.value
    }

    /// The identifier's written form.
    pub fn to_text(&self) -> (text: String)
        ensures
            text@ == id_text(self@),
    {
        uuid_text(self.value)
    }
}

/// The written form always has 36 characters, with hyphens at the four
/// fixed places.
pub proof fn lemma_id_text_shape(value: u128)
    ensures
        id_text(value).len() == 36,
        id_text(value)[8] == '-',
        id_text(value)[13] == '-',
        id_text(value)[18] == '-',
        id_text(value)[23] == '-',
{
}

} // verus!
