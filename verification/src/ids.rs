//! Random identities.

use vstd::prelude::*;

use crate::text::{concat2, digits_text, hex_text, zero_padded};

verus! {

/// The number of an identity in one of the accepted notations, or why a text
/// is none.
pub uninterp spec fn uuid_reading(text: Seq<char>) -> Result<u128, Seq<char>>;

/// `uuid::Uuid::parse_str`: the identity that a text denotes, as a number.
#[verifier::external_body]
fn read_uuid(text: &str) -> (r: Result<u128, String>)
    ensures
        match r {
            Ok(number) => uuid_reading(text@) == Ok::<u128, Seq<char>>(number),
            Err(e) => uuid_reading(text@) == Err::<u128, Seq<char>>(e@),
        },
{
    uuid::Uuid::parse_str(text).map(|id| id.as_u128()).map_err(|e| e.to_string())
}

/// The 32 digits of an identity.
pub open spec fn uuid_digits(number: u128) -> Seq<char> {
    zero_padded(hex_text(number as nat), 32)
}

/// An identity in its usual notation: its digits in five groups.
pub open spec fn uuid_text(number: u128) -> Seq<char> {
    let digits = uuid_digits(number);
    digits.subrange(0, 8) + "-"@ + digits.subrange(8, 12) + "-"@ + digits.subrange(12, 16) + "-"@
        + digits.subrange(16, 20) + "-"@ + digits.subrange(20, 32)
}

/// Sixteen to some power.
spec fn sixteen_to(n: nat) -> nat
    decreases n,
{
    if n == 0 {
        1
    } else {
        16 * sixteen_to((n - 1) as nat)
    }
}

proof fn lemma_hex_digits(n: nat, width: nat)
    requires
        width >= 1,
        n < sixteen_to(width),
    ensures
        1 <= digits_text(n, 16).len() <= width,
    decreases n,
{
    if n >= 16 {
        assert(sixteen_to(1) == 16) by {
            reveal_with_fuel(sixteen_to, 2);
        }
        assert(n / 16 < sixteen_to((width - 1) as nat));
        lemma_hex_digits(n / 16, (width - 1) as nat);
    }
}

/// No digit of an identity is left out of its notation, which has 36
/// characters.
pub proof fn an_identity_is_written_in_full(number: u128)
    ensures
        uuid_digits(number).len() == 32,
        uuid_text(number).len() == 36,
{
    assert(sixteen_to(32) == 0x1_0000_0000_0000_0000_0000_0000_0000_0000) by {
        reveal_with_fuel(sixteen_to, 33);
    }
    lemma_hex_digits(number as nat, 32);
    reveal_strlit("-");
}

/// The display form of a `uuid::Uuid` made by `Uuid::from_u128`: its digits in
/// lower case and in five groups, which `Uuid::parse_str` reads back.
#[verifier::external_body]
fn show_uuid(number: u128) -> (r: String)
    ensures
        r@ == uuid_text(number),
        match uuid_reading(r@) {
            Ok(read) => read == number,
            Err(_) => false,
        },
{
    uuid::Uuid::from_u128(number).to_string()
}

/// An identity that is marked as random: version 4 of the usual variant.
pub open spec fn is_random_id(number: u128) -> bool {
    &&& (number >> 76) & 0xF == 4
    &&& (number >> 62) & 3 == 2
}

/// `uuid::Uuid::new_v4`: a random identity, marked as such.  Nothing is claimed
/// of its other bits.
#[verifier::external_body]
fn random_uuid() -> (r: u128)
    ensures
        is_random_id(r),
{
    uuid::Uuid::new_v4().as_u128()
}

/// A fresh identity, as text.
pub(crate) fn fresh_uuid() -> (r: String)
    ensures
        r@.len() == 36,
        match uuid_reading(r@) {
            Ok(number) => is_random_id(number) && r@ == uuid_text(number),
            Err(_) => false,
        },
{
    let number: u128 = random_uuid();
    proof {
        an_identity_is_written_in_full(number);
    }
    show_uuid(number)
}

/// Whether a text denotes an identity.
pub fn is_uuid(text: &str) -> (r: bool)
    ensures
        r == (uuid_reading(text@) is Ok),
{
    match read_uuid(text) {
        Ok(_) => true,
        Err(_) => false,
    }
}

/// Identifies a server connection for as long as the application runs.
#[derive(Debug, Clone, Copy, PartialEq, Eq, Structural)]
pub struct ServerId(pub u128);

impl ServerId {
    /// A random one, marked as such.  Which one is left to chance.
    pub fn new() -> (r: Self)
        ensures
            is_random_id(r.0),
    {
        ServerId(random_uuid())
    }

    /// How it is written; what is written reads back as the same.
    pub fn text(&self) -> (r: String)
        ensures
            r@ == uuid_text(self.0),
            uuid_reading(r@) == Ok::<u128, Seq<char>>(self.0),
    {
        show_uuid(self.0)
    }

    /// Read one.
    pub fn parse(text: &str) -> (r: Result<ServerId, String>)
        ensures
            match uuid_reading(text@) {
                Ok(number) => r == Ok::<ServerId, String>(ServerId(number)),
                Err(e) => r is Err && r->Err_0@ == "invalid server id: "@ + e,
            },
    {
        match read_uuid(text) {
            Ok(number) => Ok(ServerId(number)),
            Err(e) => Err(concat2("invalid server id: ", e.as_str())),
        }
    }
}

/// The error for an identity that no connection has.
pub open spec fn unknown_server(id: ServerId) -> Seq<char> {
    "unknown server id: "@ + uuid_text(id.0)
}

/// The error for an identity that no connection has.
pub fn unknown_server_error(id: ServerId) -> (r: String)
    ensures
        r@ == unknown_server(id),
{
    concat2("unknown server id: ", id.text().as_str())
}

/// An identity is written in groups of eight, four, four, four and twelve
/// digits, with a hyphen between each two, and its digits in order.
pub proof fn an_identity_is_written_in_groups(number: u128, i: int)
    ensures
        uuid_text(number)[8] == '-' && uuid_text(number)[13] == '-',
        uuid_text(number)[18] == '-' && uuid_text(number)[23] == '-',
        0 <= i < 8 ==> uuid_text(number)[i] == zero_padded(hex_text(number as nat), 32)[i],
        8 <= i < 12 ==> uuid_text(number)[i + 1] == zero_padded(hex_text(number as nat), 32)[i],
        12 <= i < 16 ==> uuid_text(number)[i + 2] == zero_padded(hex_text(number as nat), 32)[i],
        16 <= i < 20 ==> uuid_text(number)[i + 3] == zero_padded(hex_text(number as nat), 32)[i],
        20 <= i < 32 ==> uuid_text(number)[i + 4] == zero_padded(hex_text(number as nat), 32)[i],
{
    an_identity_is_written_in_full(number);
    reveal_strlit("-");
}

/// A random identity is marked by its thirteenth digit, which is four, and by
/// the two upper bits of its seventeenth.
pub proof fn a_random_identity_is_marked(number: u128)
    requires
        is_random_id(number),
    ensures
        (number / 0x1000_0000_0000_0000_0000) % 16 == 4,
        (number / 0x4000_0000_0000_0000) % 4 == 2,
{
    assert((number >> 76) & 0xF == (number / 0x1000_0000_0000_0000_0000) % 16) by (bit_vector);
    assert((number >> 62) & 3 == (number / 0x4000_0000_0000_0000) % 4) by (bit_vector);
}

/// An unknown identity is named in the error.
pub proof fn an_unknown_identity_is_named(id: ServerId)
    ensures
        unknown_server(id) == "unknown server id: "@ + uuid_text(id.0),
{
}

} // verus!
