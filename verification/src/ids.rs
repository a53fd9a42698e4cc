//! 128-bit identifiers.
use crate::text::hex;
use vstd::arithmetic::div_mod::lemma_div_denominator;
use vstd::arithmetic::power::{lemma_pow0, lemma_pow_positive, pow};
use vstd::prelude::*;

verus! {

/// A universally unique identifier, as the number that its sixteen bytes
/// write, most significant byte first.
#[derive(Debug, Clone, Copy, PartialEq, Eq, Structural, PartialOrd, Ord, Hash)]
pub struct Uuid {
    pub value: u128,
}

/// The byte of `value` that has `256` to the power `place` as its weight.
pub open spec fn byte_at(value: u128, place: nat) -> u8 {
    ((value as int / pow(256, place)) % 256) as u8
}

/// The sixteen bytes of an identifier, most significant first.
pub open spec fn uuid_bytes(id: Uuid) -> Seq<u8> {
    Seq::new(16, |i: int| byte_at(id.value, (15 - i) as nat))
}

/// An identifier as 32 hexadecimal digits.
pub open spec fn simple(id: Uuid) -> Seq<char> {
    hex(uuid_bytes(id))
}

/// An identifier in its usual form: hexadecimal digits in groups of 8, 4, 4, 4
/// and 12 with hyphens between them.
pub open spec fn hyphenated(id: Uuid) -> Seq<char> {
    let digits = simple(id);
    digits.subrange(0, 8) + seq!['-'] + digits.subrange(8, 12) + seq!['-'] + digits.subrange(12, 16)
        + seq!['-'] + digits.subrange(16, 20) + seq!['-'] + digits.subrange(20, 32)
}

/// What reading `text` as an identifier gives.
pub uninterp spec fn parsed_uuid(text: Seq<char>) -> Option<u128>;

/// `uuid::Uuid::parse_str`: the identifier that `text` writes in any of the
/// accepted forms, or nothing. Which texts are accepted is left to the name
/// `parsed_uuid`.
#[verifier::external_body]
fn parse_uuid_text(text: &str) -> (r: Option<u128>)
    ensures
        r == parsed_uuid(text@),
{
    uuid::Uuid::parse_str(text).ok().map(|id| id.as_u128())
}

/// `uuid::Uuid`'s `Display`: the hyphenated form, in lower case, which
/// `uuid::Uuid::parse_str` reads back as the same identifier.
#[verifier::external_body]
fn hyphenated_text(value: u128) -> (r: String)
    ensures
        r@ == hyphenated(Uuid { value }),
        parsed_uuid(r@) == Some(value),
{
    uuid::Uuid::from_u128(value).to_string()
}

/// `uuid::Uuid::as_simple`: the 32 hexadecimal digits, in lower case.
#[verifier::external_body]
fn simple_text(value: u128) -> (r: String)
    ensures
        r@ == simple(Uuid { value }),
{
    uuid::Uuid::from_u128(value).as_simple().to_string()
}

/// Whether an identifier is of version 4: its version digit is 4 and its variant
/// bits are binary 10.
pub open spec fn is_version_four(id: Uuid) -> bool {
    id.value as int / 0x1000_0000_0000_0000_0000 % 16 == 4 && id.value as int
        / 0x4000_0000_0000_0000 % 4 == 2
}

/// `uuid::Uuid::new_v4`: a random identifier, whose version digit is 4 and
/// whose variant bits are binary 10.
#[verifier::external_body]
fn random_uuid() -> (r: u128)
    ensures
        r as int / 0x1000_0000_0000_0000_0000 % 16 == 4,
        r as int / 0x4000_0000_0000_0000 % 4 == 2,
{
    uuid::Uuid::new_v4().as_u128()
}

impl Uuid {
    /// The identifier whose bits are all zero.
    pub fn nil() -> (r: Uuid)
        ensures
            r.value == 0,
    {
        Uuid { value: 0 }
    }

    /// A fresh random identifier of version 4.
    pub fn new_v4() -> (r: Uuid)
        ensures
            is_version_four(r),
    {
        Uuid { value: random_uuid() }
    }

    /// Reads an identifier.
    pub fn parse_str(text: &str) -> (r: Option<Uuid>)
        ensures
            r == (match parsed_uuid(text@) {
                Some(value) => Some((Uuid { value })),
                None => None,
            }),
    {
        match parse_uuid_text(text) {
            Some(value) => Some(Uuid { value }),
            None => None,
        }
    }

    /// Writes an identifier in its usual form, which reads back as itself.
    pub fn to_text(&self) -> (r: String)
        ensures
            r@ == hyphenated(*self),
            parsed_uuid(r@) == Some(self.value),
    {
        hyphenated_text(self.value)
    }

    /// Writes an identifier without hyphens.
    pub fn to_simple_text(&self) -> (r: String)
        ensures
            r@ == simple(*self),
    {
        simple_text(self.value)
    }

    /// The sixteen bytes of an identifier.
    pub fn to_bytes(&self) -> (r: Vec<u8>)
        ensures
            r@ == uuid_bytes(*self),
    {
        let mut reversed: Vec<u8> = Vec::new();
        let mut rest: u128 = self.value;
        proof {
            lemma_pow0(256);
        }
        let mut place: usize = 0;
        while place < 16
            invariant
                place <= 16,
                reversed.len() == place,
                rest as int == self.value as int / pow(256, place as nat),
                forall|k: int|
                    0 <= k < place ==> #[trigger] reversed@[k] == byte_at(self.value, k as nat),
            decreases 16 - place,
        {
            reversed.push((rest % 256) as u8);
            proof {
                lemma_pow_positive(256, place as nat);
                lemma_div_denominator(self.value as int, pow(256, place as nat), 256);
                reveal(pow);
                assert(pow(256, place as nat) * 256 == pow(256, (place + 1) as nat))
                    by (nonlinear_arith)
                    requires
                        pow(256, (place + 1) as nat) == 256 * pow(256, place as nat),
                ;
            }
            rest = rest / 256;
            place = place + 1;
        }
        let mut bytes: Vec<u8> = Vec::new();
        let mut left: usize = 16;
        while left > 0
            invariant
                left <= 16,
                reversed.len() == 16,
                bytes.len() == 16 - left,
                forall|k: int| 0 <= k < bytes.len() ==> #[trigger] bytes@[k] == reversed@[15 - k],
            decreases left,
        {
            bytes.push(reversed[left - 1]);
            left = left - 1;
        }
        proof {
            assert(bytes@ =~= uuid_bytes(*self));
        }
        bytes
    }
}

/// The usual form has 36 characters: the 32 digits in their order, and hyphens
/// after the eighth, the twelfth, the sixteenth and the twentieth.
pub proof fn law_hyphens_stand_between_groups(id: Uuid, i: int)
    requires
        0 <= i < 32,
    ensures
        simple(id).len() == 32,
        hyphenated(id).len() == 36,
        hyphenated(id)[8] == '-',
        hyphenated(id)[13] == '-',
        hyphenated(id)[18] == '-',
        hyphenated(id)[23] == '-',
        hyphenated(id)[i + (if i < 8 {
            0int
        } else if i < 12 {
            1
        } else if i < 16 {
            2
        } else if i < 20 {
            3
        } else {
            4
        })] == simple(id)[i],
{
}

/// An identifier of version 4 has the digit 4 in its thirteenth place, and 8, 9,
/// a or b in its seventeenth.
pub proof fn law_version_four_shows_in_the_digits(id: Uuid)
    ensures
        is_version_four(id) <==> (id.value as int / 0x1000_0000_0000_0000_0000) % 16 == 4 && 8 <= (
        id.value as int / 0x1000_0000_0000_0000) % 16 < 12,
{
    let v = id.value as int;
    assert(v / 0x4000_0000_0000_0000 == (v / 0x1000_0000_0000_0000) / 4) by {
        lemma_div_denominator(v, 0x1000_0000_0000_0000, 4);
    }
}

} // verus!
