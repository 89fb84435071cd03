//! Names of resources at the backend: a UUID or a slug.

use vstd::prelude::*;
use vstd::string::StringSliceAdditionalSpecFns;
use crate::error::CliError;

verus! {

/// The name of a resource at the backend: its UUID or its slug.
#[derive(Debug, Clone, PartialEq, Eq)]
pub enum ResourceId {
    Uuid(u128),
    Slug(String),
}

/// The UUID that `Uuid::parse_str` reads from a text, as a number; `None`
/// where it reads none.
pub uninterp spec fn parsed_uuid(text: Seq<char>) -> Option<u128>;

/// The sixteen digits of the hexadecimal system, in lower case.
pub open spec fn hex_digits() -> Seq<char> {
    seq!['0', '1', '2', '3', '4', '5', '6', '7', '8', '9', 'a', 'b', 'c', 'd', 'e', 'f']
}

/// How many hyphens stand before a place of the text of a UUID.
pub open spec fn hyphens_before(place: int) -> int {
    if place > 23 {
        4
    } else if place > 18 {
        3
    } else if place > 13 {
        2
    } else if place > 8 {
        1
    } else {
        0
    }
}

/// The hexadecimal digit of a UUID at `index`, counted from the most
/// significant of its 32 digits.
pub open spec fn uuid_digit(id: u128, index: int) -> char {
    hex_digits()[((id as int) / vstd::arithmetic::power::pow(16, (31 - index) as nat)) % 16]
}

/// The text of a UUID: its 32 hexadecimal digits in lower case, the most
/// significant first, in groups of 8, 4, 4, 4 and 12 with hyphens between.
pub open spec fn uuid_text(id: u128) -> Seq<char> {
    Seq::new(
        36,
        |place: int|
            if place == 8 || place == 13 || place == 18 || place == 23 {
                '-'
            } else {
                uuid_digit(id, place - hyphens_before(place))
            },
    )
}

/// Calls `uuid::Uuid::parse_str` and hands back the UUID as a number. The
/// contract claims only that the outcome depends on the text alone.
#[verifier::external_body]
pub(crate) fn parse_uuid(text: &str) -> (id: Option<u128>)
    ensures
        id == parsed_uuid(text@),
{
    match uuid::Uuid::parse_str(text) {
        Ok(uuid) => Some(uuid.as_u128()),
        Err(_) => None,
    }
}

/// Formats a UUID by `uuid::Uuid::hyphenated`. The contract claims what the
/// crate documents of that format: lower-case hexadecimal digits of the
/// bytes in their order, hyphens after the digits 8, 12, 16 and 20.
#[verifier::external_body]
pub(crate) fn format_uuid(id: u128) -> (text: String)
    ensures
        text@ == uuid_text(id),
{
    uuid::Uuid::from_u128(id).hyphenated().to_string()
}

/// A slug is written with lower-case letters, digits and hyphens.
pub open spec fn slug_char(c: char) -> bool {
    ('a' <= c <= 'z') || ('0' <= c <= '9') || c == '-'
}

/// A slug is a text of slug characters, and not empty.
pub open spec fn is_slug(text: Seq<char>) -> bool {
    text.len() > 0 && forall|i: int| 0 <= i < text.len() ==> slug_char(#[trigger] text[i])
}

/// A branch name is any text but the empty one.
pub open spec fn is_branch_name(text: Seq<char>) -> bool {
    text.len() > 0
}

/// The text of a resource name.
pub open spec fn resource_text(id: ResourceId) -> Seq<char> {
    match id {
        ResourceId::Uuid(uuid) => uuid_text(uuid),
        ResourceId::Slug(slug) => slug@,
    }
}

/// What reading a text as the name of a resource comes to: a UUID where
/// the text is one, else a slug where it is one, else an error that holds
/// the text.
pub open spec fn reads_as(id: Result<ResourceId, CliError>, text: Seq<char>) -> bool {
    match id {
        Ok(ResourceId::Uuid(uuid)) => parsed_uuid(text) == Some(uuid),
        Ok(ResourceId::Slug(slug)) => parsed_uuid(text) is None && is_slug(text) && slug@ == text,
        Err(e) => parsed_uuid(text) is None && !is_slug(text) && (e matches CliError::ResourceId(
            given,
        ) && given@ == text),
    }
}

/// Tells whether a text is a slug.
pub fn is_valid_slug(text: &str) -> (valid: bool)
    ensures
        valid == is_slug(text@),
{
    broadcast use vstd::slice::group_slice_axioms;
    broadcast use vstd::string::is_ascii_spec_bytes;

    if !text.is_ascii() {
        assert(!is_slug(text@)) by {
            if is_slug(text@) {
                assert forall|i: int| 0 <= i < text@.len() implies '\0' <= #[trigger] text@[i]
                    <= '\u{7f}' by {
                    assert(slug_char(text@[i]));
                }
            }
        }
        return false;
    }
    let bytes = text.as_bytes();
    let n: usize = bytes.len();
    if n == 0 {
        return false;
    }
    let mut i: usize = 0;
    while i < n
        invariant
            i <= n,
            n == bytes@.len(),
            n == text@.len(),
            vstd::string::is_ascii(text),
            bytes@ == text.spec_bytes(),
            forall|j: int| 0 <= j < i ==> slug_char(#[trigger] text@[j]),
        decreases n - i,
    {
        let b: u8 = bytes[i];
        assert(b == text@[i as int] as u8);
        assert('\0' <= text@[i as int] <= '\u{7f}');
        if !((97 <= b && b <= 122) || (48 <= b && b <= 57) || b == 45) {
            assert(!slug_char(text@[i as int]));
            return false;
        }
        assert(slug_char(text@[i as int]));
        i += 1;
    }
    true
}

/// Tells whether a text is a branch name.
pub fn is_valid_branch_name(text: &str) -> (valid: bool)
    ensures
        valid == is_branch_name(text@),
{
    broadcast use vstd::slice::group_slice_axioms;

    let n: usize = text.as_bytes().len();
    proof {
        lemma_bytes_of_text(text@);
    }
    n > 0
}

/// A text has bytes exactly when it has characters.
proof fn lemma_bytes_of_text(text: Seq<char>)
    ensures
        vstd::utf8::encode_utf8(text).len() > 0 <==> text.len() > 0,
{
    vstd::utf8::encode_utf8_decode_utf8(text);
    if text.len() == 0 {
        assert(text =~= Seq::<char>::empty());
        reveal_with_fuel(vstd::utf8::encode_utf8, 1);
    } else {
        if vstd::utf8::encode_utf8(text).len() == 0 {
            assert(vstd::utf8::encode_utf8(text) =~= Seq::<u8>::empty());
            reveal_with_fuel(vstd::utf8::decode_utf8, 1);
        }
    }
}

impl ResourceId {
    /// A copy of the name.
    pub fn copy(&self) -> (copy: ResourceId)
        ensures
            copy == *self,
    {
        match self {
            ResourceId::Uuid(id) => ResourceId::Uuid(*id),
            ResourceId::Slug(slug) => ResourceId::Slug(slug.clone()),
        }
    }

    /// Reads the name of a resource: a UUID where the text is one, and else
    /// a slug. Any other text comes back in the error.
    pub fn from_str(text: &str) -> (id: Result<ResourceId, CliError>)
        ensures
            reads_as(id, text@),
    {
        match parse_uuid(text) {
            Some(uuid) => Ok(ResourceId::Uuid(uuid)),
            None => if is_valid_slug(text) {
                Ok(ResourceId::Slug(text.to_owned()))
            } else {
                Err(CliError::ResourceId(text.to_owned()))
            },
        }
    }

    /// The text of the name: a UUID with hyphens, a slug as it is.
    pub fn to_text(&self) -> (text: String)
        ensures
            text@ == resource_text(*self),
    {
        match self {
            ResourceId::Uuid(id) => format_uuid(*id),
            ResourceId::Slug(slug) => slug.clone(),
        }
    }
}

} // verus!
