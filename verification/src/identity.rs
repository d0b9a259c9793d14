//! Identities: the 128-bit keys that join stored artifacts and index records.
//!
//! An identity is drawn at random when an image is ingested and never changes.
//! Its textual form, thirty-two lowercase hexadecimal digits in five
//! hyphen-separated groups, names the files of the image on disk.

use vstd::prelude::*;

verus! {

/// The bits that mark a value as a random (version 4) identifier.
pub const RANDOM_VERSION_MASK: u128 = 0x0000_0000_0000_f000_c000_0000_0000_0000;

/// What the marked bits of a random identifier hold.
pub const RANDOM_VERSION_BITS: u128 = 0x0000_0000_0000_4000_8000_0000_0000_0000;

/// The number of characters of an identity's text.
pub const TEXT_LENGTH: usize = 36;

/// The 128-bit key of one image.
#[derive(Clone, Copy, Debug, PartialEq, Eq, Hash, Structural)]
pub struct Identity {
    pub value: u128,
}

/// Whether `value` carries the version and variant bits of a random identifier.
pub open spec fn is_random_version(value: u128) -> bool {
    value & RANDOM_VERSION_MASK == RANDOM_VERSION_BITS
}

/// The hexadecimal digit of `value` at `index`, counted from the most
/// significant digit (index 0) to the least significant (index 31).
pub open spec fn nibble(value: u128, index: int) -> u128 {
    (value >> ((124 - 4 * index) as u128)) & 0xf
}

/// The lowercase character of a hexadecimal digit.
pub open spec fn hex_char(digit: u128) -> char {
    if digit < 10 {
        (48 + digit) as char
    } else {
        (87 + digit) as char
    }
}

/// Whether the text holds a hyphen at position `i`.
pub open spec fn is_hyphen_position(i: int) -> bool {
    i == 8 || i == 13 || i == 18 || i == 23
}

/// Which digit stands at position `i` of the text, where that is no hyphen.
pub open spec fn digit_index(i: int) -> int {
    if i < 8 {
        i
    } else if i < 13 {
        i - 1
    } else if i < 18 {
        i - 2
    } else if i < 23 {
        i - 3
    } else {
        i - 4
    }
}

/// The character at position `i` of the text of `value`.
pub open spec fn text_char(value: u128, i: int) -> char {
    if is_hyphen_position(i) {
        '-'
    } else {
        hex_char(nibble(value, digit_index(i)))
    }
}

/// The text of `value`: its digits in groups of 8, 4, 4, 4 and 12, with a
/// hyphen between neighbouring groups.
pub open spec fn hyphenated_text(value: u128) -> Seq<char> {
    Seq::new(36, |i: int| text_char(value, i))
}

/// Whether `c` is a lowercase hexadecimal digit.
pub open spec fn is_hex_char(c: char) -> bool {
    ('0' <= c && c <= '9') || ('a' <= c && c <= 'f')
}

/// What `uuid::Uuid::parse_str` makes of a text: the value it reads, or
/// `None` where it rejects the text.
pub uninterp spec fn parsed_uuid(text: Seq<char>) -> Option<u128>;

/// Whether a text of `length` characters can be an identifier at all: the
/// digits alone are 32 characters, with hyphens 36, in braces 38, and as a
/// URN 45.
pub open spec fn readable_length(length: nat) -> bool {
    length == 32 || length == 36 || length == 38 || length == 45
}

#[verifier::external_type_specification]
#[verifier::external_body]
pub struct ExUuidError(uuid::Error);

/// `uuid::Uuid::new_v4`: a random identifier. Whatever the generator drew,
/// the version and variant bits are those of a random identifier; nothing
/// else is known of the value.
#[verifier::external_body]
fn uuid_new_v4() -> (value: u128)
    ensures
        is_random_version(value),
{
    uuid::Uuid::new_v4().as_u128()
}

/// `uuid::Uuid`'s `to_string`: the lowercase hyphenated form of the value
/// that `uuid::Uuid::from_u128` holds.
#[verifier::external_body]
fn uuid_to_string(value: u128) -> (text: String)
    ensures
        text@ == hyphenated_text(value),
{
    uuid::Uuid::from_u128(value).to_string()
}

/// `uuid::Uuid::parse_str`: reads an identifier in any of the forms the
/// `uuid` crate writes. The contract names the outcome and claims two facts
/// of it: a text in the hyphenated lowercase form is read back as its value,
/// and a text of any other length than the four forms have is rejected. (The
/// crate counts bytes; a text that it reads holds ASCII only, so that its
/// characters are as many.)
#[verifier::external_body]
fn uuid_parse_str(text: &str) -> (r: Result<u128, uuid::Error>)
    ensures
        r.is_ok() == parsed_uuid(text@).is_some(),
        r matches Ok(value) ==> parsed_uuid(text@) == Some(value),
        forall|value: u128|
            text@ == #[trigger] hyphenated_text(value) ==> r.is_ok() && r.unwrap() == value,
        r.is_ok() ==> readable_length(text@.len()),
{
    uuid::Uuid::parse_str(text).map(|id| id.as_u128())
}

proof fn lemma_nibble_bound(value: u128, shift: u128)
    by (bit_vector)
    ensures
        (value >> shift) & 0xf < 16,
{
}

proof fn lemma_hex_char(digit: u128)
    requires
        digit < 16,
    ensures
        is_hex_char(hex_char(digit)),
        hex_char(digit) as int == (if digit < 10 { 48 + digit } else { 87 + digit }),
{
}

/// Every character of the text is a lowercase hexadecimal digit or a hyphen,
/// and hyphens stand exactly at positions 8, 13, 18 and 23.
pub proof fn lemma_text_shape(value: u128)
    ensures
        hyphenated_text(value).len() == 36,
        forall|i: int|
            0 <= i < 36 ==> (if is_hyphen_position(i) {
                #[trigger] hyphenated_text(value)[i] == '-'
            } else {
                is_hex_char(hyphenated_text(value)[i])
            }),
        vstd::utf8::is_ascii_chars(hyphenated_text(value)),
{
    let text = hyphenated_text(value);
    assert forall|i: int| 0 <= i < 36 implies (if is_hyphen_position(i) {
        #[trigger] text[i] == '-'
    } else {
        is_hex_char(text[i])
    }) by {
        if !is_hyphen_position(i) {
            let d = digit_index(i);
            lemma_nibble_bound(value, (124 - 4 * d) as u128);
            lemma_hex_char(nibble(value, d));
        }
    }
    assert forall|i: int| 0 <= i < text.len() implies '\0' <= #[trigger] text[i] <= '\u{7f}' by {
        if !is_hyphen_position(i) {
            assert(is_hex_char(text[i]));
        }
    }
}

proof fn lemma_digits_determine_value(a: u128, b: u128)
    by (bit_vector)
    requires
        (a >> 0) & 0xf == (b >> 0) & 0xf,
        (a >> 4) & 0xf == (b >> 4) & 0xf,
        (a >> 8) & 0xf == (b >> 8) & 0xf,
        (a >> 12) & 0xf == (b >> 12) & 0xf,
        (a >> 16) & 0xf == (b >> 16) & 0xf,
        (a >> 20) & 0xf == (b >> 20) & 0xf,
        (a >> 24) & 0xf == (b >> 24) & 0xf,
        (a >> 28) & 0xf == (b >> 28) & 0xf,
        (a >> 32) & 0xf == (b >> 32) & 0xf,
        (a >> 36) & 0xf == (b >> 36) & 0xf,
        (a >> 40) & 0xf == (b >> 40) & 0xf,
        (a >> 44) & 0xf == (b >> 44) & 0xf,
        (a >> 48) & 0xf == (b >> 48) & 0xf,
        (a >> 52) & 0xf == (b >> 52) & 0xf,
        (a >> 56) & 0xf == (b >> 56) & 0xf,
        (a >> 60) & 0xf == (b >> 60) & 0xf,
        (a >> 64) & 0xf == (b >> 64) & 0xf,
        (a >> 68) & 0xf == (b >> 68) & 0xf,
        (a >> 72) & 0xf == (b >> 72) & 0xf,
        (a >> 76) & 0xf == (b >> 76) & 0xf,
        (a >> 80) & 0xf == (b >> 80) & 0xf,
        (a >> 84) & 0xf == (b >> 84) & 0xf,
        (a >> 88) & 0xf == (b >> 88) & 0xf,
        (a >> 92) & 0xf == (b >> 92) & 0xf,
        (a >> 96) & 0xf == (b >> 96) & 0xf,
        (a >> 100) & 0xf == (b >> 100) & 0xf,
        (a >> 104) & 0xf == (b >> 104) & 0xf,
        (a >> 108) & 0xf == (b >> 108) & 0xf,
        (a >> 112) & 0xf == (b >> 112) & 0xf,
        (a >> 116) & 0xf == (b >> 116) & 0xf,
        (a >> 120) & 0xf == (b >> 120) & 0xf,
        (a >> 124) & 0xf == (b >> 124) & 0xf,
    ensures
        a == b,
{
}

/// The position in the text at which digit `index` stands.
pub open spec fn digit_position(index: int) -> int {
    if index < 8 {
        index
    } else if index < 12 {
        index + 1
    } else if index < 16 {
        index + 2
    } else if index < 20 {
        index + 3
    } else {
        index + 4
    }
}

proof fn lemma_digit_agrees(a: u128, b: u128, index: int)
    requires
        0 <= index < 32,
        hyphenated_text(a)[digit_position(index)] == hyphenated_text(b)[digit_position(index)],
    ensures
        nibble(a, index) == nibble(b, index),
{
    let shift = (124 - 4 * index) as u128;
    lemma_nibble_bound(a, shift);
    lemma_nibble_bound(b, shift);
    lemma_hex_char(nibble(a, index));
    lemma_hex_char(nibble(b, index));
    assert(digit_index(digit_position(index)) == index);
    assert(hyphenated_text(a)[digit_position(index)] == hex_char(nibble(a, index)));
    assert(hyphenated_text(b)[digit_position(index)] == hex_char(nibble(b, index)));
}

/// Two values with the same text are the same value.
pub proof fn lemma_text_injective(a: u128, b: u128)
    requires
        hyphenated_text(a) == hyphenated_text(b),
    ensures
        a == b,
{
    lemma_digit_agrees(a, b, 0);
    lemma_digit_agrees(a, b, 1);
    lemma_digit_agrees(a, b, 2);
    lemma_digit_agrees(a, b, 3);
    lemma_digit_agrees(a, b, 4);
    lemma_digit_agrees(a, b, 5);
    lemma_digit_agrees(a, b, 6);
    lemma_digit_agrees(a, b, 7);
    lemma_digit_agrees(a, b, 8);
    lemma_digit_agrees(a, b, 9);
    lemma_digit_agrees(a, b, 10);
    lemma_digit_agrees(a, b, 11);
    lemma_digit_agrees(a, b, 12);
    lemma_digit_agrees(a, b, 13);
    lemma_digit_agrees(a, b, 14);
    lemma_digit_agrees(a, b, 15);
    lemma_digit_agrees(a, b, 16);
    lemma_digit_agrees(a, b, 17);
    lemma_digit_agrees(a, b, 18);
    lemma_digit_agrees(a, b, 19);
    lemma_digit_agrees(a, b, 20);
    lemma_digit_agrees(a, b, 21);
    lemma_digit_agrees(a, b, 22);
    lemma_digit_agrees(a, b, 23);
    lemma_digit_agrees(a, b, 24);
    lemma_digit_agrees(a, b, 25);
    lemma_digit_agrees(a, b, 26);
    lemma_digit_agrees(a, b, 27);
    lemma_digit_agrees(a, b, 28);
    lemma_digit_agrees(a, b, 29);
    lemma_digit_agrees(a, b, 30);
    lemma_digit_agrees(a, b, 31);
    lemma_digits_determine_value(a, b);
}

impl Identity {
    /// The text of the identity.
    pub open spec fn text(self) -> Seq<char> {
        hyphenated_text(self.value)
    }

    /// The identity with the given value.
    pub fn new(value: u128) -> (id: Identity)
        ensures
            id.value == value,
    {
        Identity { value }
    }

    /// A fresh identity, drawn at random. Two calls may well return
    /// different identities; all that is known is the version marking.
    pub fn generate() -> (id: Identity)
        ensures
            is_random_version(id.value),
    {
        Identity { value: uuid_new_v4() }
    }

    /// Renders the identity as text.
    pub fn to_string(&self) -> (text: String)
        ensures
            text@ == self.text(),
            text@.len() == TEXT_LENGTH,
            text.is_ascii(),
    {
        proof {
            lemma_text_shape(self.value);
        }
        uuid_to_string(self.value)
    }

    /// Reads an identity from text. A text that `to_string` wrote is read
    /// back as the identity it was written from; a text that is neither 32
    /// nor 36, 38 or 45 characters long is none.
    pub fn parse(text: &str) -> (r: Option<Identity>)
        ensures
            r == (match parsed_uuid(text@) {
                Some(value) => Some(Identity { value }),
                None => None,
            }),
            forall|id: Identity| text@ == #[trigger] id.text() ==> r == Some(id),
            !readable_length(text@.len()) ==> r is None,
    {
        match uuid_parse_str(text) {
            Ok(value) => {
                assert forall|id: Identity| text@ == #[trigger] id.text() implies value
                    == id.value by {
                    assert(text@ == hyphenated_text(id.value));
                }
                Some(Identity { value })
            },
            Err(_) => {
                assert forall|id: Identity| text@ == #[trigger] id.text() implies false by {
                    assert(text@ == hyphenated_text(id.value));
                }
                None
            },
        }
    }
}

} // verus!
