//! Identities for tasks and agents.

use vstd::prelude::*;

verus! {

/// A universally unique identifier, held as its 128 bits.
#[derive(Debug, Clone, Copy, PartialEq, Eq, Hash, Structural)]
pub struct Uuid(pub u128);

/// The bits of an identifier that give its version and its variant.
pub const VERSION_AND_VARIANT: u128 = 0x0000_0000_0000_f000_c000_0000_0000_0000;

/// What those bits hold in a random identifier: version 4, variant 1.
pub const RANDOM_VERSION: u128 = 0x0000_0000_0000_4000_8000_0000_0000_0000;

/// `uuid::Uuid::new_v4`, read by `as_u128`: 128 bits, of which 122 are
/// random and the others give version 4 and variant 1.
#[verifier::external_body]
fn random_bits() -> (bits: u128)
    ensures
        bits & VERSION_AND_VARIANT == RANDOM_VERSION,
{
    uuid::Uuid::new_v4().as_u128()
}

/// The character that stands for the hexadecimal digit `d`, in lower
/// case.
pub open spec fn hex_digit(d: nat) -> char {
    if d < 10 {
        crate::text::digit(d)
    } else if d == 10 {
        'a'
    } else if d == 11 {
        'b'
    } else if d == 12 {
        'c'
    } else if d == 13 {
        'd'
    } else if d == 14 {
        'e'
    } else {
        'f'
    }
}

/// The lowest `digits` hexadecimal digits of `value`, the highest of them
/// first.
pub open spec fn hex(value: nat, digits: nat) -> Seq<char>
    decreases digits,
{
    if digits == 0 {
        Seq::empty()
    } else {
        hex(value / 16, (digits - 1) as nat).push(hex_digit(value % 16))
    }
}

/// The 128 bits `bits` as the text of an identifier: 32 hexadecimal
/// digits in lower case, in groups of 8, 4, 4, 4 and 12 with a hyphen
/// between them.
pub open spec fn hyphenated(bits: u128) -> Seq<char> {
    hex(bits as nat / 0x1_0000_0000_0000_0000_0000_0000, 8) + seq!['-'] + hex(
        bits as nat / 0x1_0000_0000_0000_0000_0000,
        4,
    ) + seq!['-'] + hex(bits as nat / 0x1_0000_0000_0000_0000, 4) + seq!['-'] + hex(
        bits as nat / 0x1_0000_0000_0000,
        4,
    ) + seq!['-'] + hex(bits as nat, 12)
}

/// `uuid::Uuid::from_u128`, written by `to_string`: the identifier in
/// lower-case hexadecimal digits, hyphenated.
#[verifier::external_body]
fn hyphenated_text(bits: u128) -> (text: String)
    ensures
        text@ == hyphenated(bits),
{
    uuid::Uuid::from_u128(bits).to_string()
}

impl Uuid {
    /// The identifier as text.
    pub fn to_string(&self) -> (text: String)
        ensures
            text@ == hyphenated(self.0),
    {
        hyphenated_text(self.0)
    }

    /// Whether this identifier says of itself that it is a random one.
    pub open spec fn is_random(&self) -> bool {
        self.0 & VERSION_AND_VARIANT == RANDOM_VERSION
    }

    /// A new random identifier.
    pub fn new_v4() -> (id: Uuid)
        ensures
            id.is_random(),
    {
        Uuid(random_bits())
    }
}

} // verus!
