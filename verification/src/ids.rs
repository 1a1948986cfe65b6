//! Identifiers: UUIDs held as their 128-bit value, and their text form.

use vstd::prelude::*;
use vstd::arithmetic::power::pow;

verus! {

/// The nil UUID, `00000000-0000-0000-0000-000000000000`.
pub const NIL_UUID: u128 = 0;

/// The max UUID, `ffffffff-ffff-ffff-ffff-ffffffffffff`.
pub const MAX_UUID: u128 = 0xffff_ffff_ffff_ffff_ffff_ffff_ffff_ffff;

/// The `k`-th hexadecimal digit of `id`, counted from the most significant one.
pub open spec fn uuid_digit(id: u128, k: int) -> int {
    ((id as int) / pow(16, (31 - k) as nat)) % 16
}

/// Lower-case hexadecimal character of a digit below 16.
pub open spec fn hex_char(d: int) -> char {
    if d < 10 {
        (('0' as int) + d) as char
    } else {
        (('a' as int) + d - 10) as char
    }
}

/// Positions of the four hyphens in the hyphenated form.
pub open spec fn is_hyphen_position(i: int) -> bool {
    i == 8 || i == 13 || i == 18 || i == 23
}

/// Which digit stands at position `i` of the hyphenated form.
pub open spec fn digit_at(i: int) -> int {
    if i < 8 {
        i
    } else if i < 13 {
        i - 1
    } else if i < 18 {
        i - 2
    } else if i < 23 {
        i - 3
    } else {
        i - 4
    }
}

/// The hyphenated lower-case text of a UUID, such as `67e55044-10b1-426f-9247-bb680e5fe0c8`.
pub open spec fn uuid_text(id: u128) -> Seq<char> {
    Seq::new(
        36,
        |i: int|
            if is_hyphen_position(i) {
                '-'
            } else {
                hex_char(uuid_digit(id, digit_at(i)))
            },
    )
}

/// A version-4 UUID of the RFC 9562 variant: version nibble 4, variant bits `10`.
pub open spec fn is_random_uuid(id: u128) -> bool {
    &&& (id >> 76u128) & 0xf == 4
    &&& (id >> 62u128) & 0x3 == 2
}

/// What `Uuid::from_str` gives for a text (`None` where it reports an error).
pub uninterp spec fn uuid_parse(text: Seq<char>) -> Option<u128>;

/// `uuid::Uuid::new_v4()`, read as its 128-bit value. The bits come from the operating
/// system's random source; the contract states the version and variant bits that
/// `new_v4` sets on every value.
#[verifier::external_body]
pub(crate) fn new_uuid_v4() -> (id: u128)
    ensures
        is_random_uuid(id),
{
    uuid::Uuid::new_v4().as_u128()
}

/// `Uuid::from_u128(id).to_string()`: the hyphenated lower-case form, through the
/// `Display` impl of `uuid::Uuid`.
#[verifier::external_body]
pub(crate) fn uuid_to_string(id: u128) -> (text: String)
    ensures
        text@ == uuid_text(id),
{
    uuid::Uuid::from_u128(id).to_string()
}

/// `text.parse::<uuid::Uuid>()`, `None` where it fails. The result is named by
/// `uuid_parse`; the contract also states that the hyphenated form of a UUID parses
/// back to that UUID, which the parser of `uuid` accepts.
#[verifier::external_body]
pub(crate) fn parse_uuid(text: &str) -> (id: Option<u128>)
    ensures
        id == uuid_parse(text@),
        forall|u: u128| text@ == uuid_text(u) ==> id == Some(u),
{
    match text.parse::<uuid::Uuid>() {
        Ok(u) => Some(u.as_u128()),
        Err(_) => None,
    }
}

/// A hyphenated UUID text never holds a colon.
pub proof fn lemma_uuid_text_has_no_colon(id: u128)
    ensures
        uuid_text(id).len() == 36,
        forall|i: int| 0 <= i < 36 ==> #[trigger] uuid_text(id)[i] != ':',
{
    assert forall|i: int| 0 <= i < 36 implies #[trigger] uuid_text(id)[i] != ':' by {
        if !is_hyphen_position(i) {
            let d = uuid_digit(id, digit_at(i));
            assert(0 <= d < 16);
        }
    }
}

} // verus!
