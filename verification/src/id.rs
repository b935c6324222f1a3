//! 128-bit identifiers of experiments and binaries, and their text forms.

use vstd::arithmetic::power::pow;
use vstd::prelude::*;

verus! {

/// A universally unique identifier, held as its 128-bit value.
#[derive(Clone, Copy, Debug, PartialEq, Eq, Structural, Hash)]
pub struct Uuid {
    value: u128,
}

/// The sixteen lower-case hexadecimal digits, in order.
pub open spec fn hex_digits() -> Seq<char> {
    seq!['0', '1', '2', '3', '4', '5', '6', '7', '8', '9', 'a', 'b', 'c', 'd', 'e', 'f']
}

/// The `k`-th of the 32 four-bit groups of `value`, the most significant first.
pub open spec fn nibble(value: u128, k: int) -> int {
    (value as int / pow(16, (31 - k) as nat)) % 16
}

/// The 32 hexadecimal digits of `value`, the most significant first.
pub open spec fn simple_text(value: u128) -> Seq<char> {
    Seq::new(32, |k: int| hex_digits()[nibble(value, k)])
}

/// The digits of `value` in groups of 8, 4, 4, 4 and 12, with a hyphen
/// between two groups.
pub open spec fn hyphenated_text(value: u128) -> Seq<char> {
    let digits = simple_text(value);
    digits.subrange(0, 8) + seq!['-'] + digits.subrange(8, 12) + seq!['-'] + digits.subrange(
        12,
        16,
    ) + seq!['-'] + digits.subrange(16, 20) + seq!['-'] + digits.subrange(20, 32)
}

/// The hyphenated form behind the prefix `urn:uuid:`.
pub open spec fn urn_text(value: u128) -> Seq<char> {
    seq!['u', 'r', 'n', ':', 'u', 'u', 'i', 'd', ':'] + hyphenated_text(value)
}

/// The hyphenated form between braces.
pub open spec fn braced_text(value: u128) -> Seq<char> {
    seq!['{'] + hyphenated_text(value) + seq!['}']
}

/// The value that `uuid::Uuid::parse_str` reads from a text, if it reads one.
pub uninterp spec fn parsed_value(text: Seq<char>) -> Option<u128>;

/// Calls `uuid::Uuid::parse_str` and hands out the value it read, as
/// `uuid::Uuid::as_u128` gives it.
///
/// Trusted: the result depends on the text alone, and each of the four text
/// forms that the `uuid` crate writes for a value is read back as that value.
#[verifier::external_body]
fn parse_value(text: &str) -> (r: Option<u128>)
    ensures
        r == parsed_value(text@),
        forall|v: u128| text@ == #[trigger] hyphenated_text(v) ==> r == Some(v),
        forall|v: u128| text@ == #[trigger] simple_text(v) ==> r == Some(v),
        forall|v: u128| text@ == #[trigger] urn_text(v) ==> r == Some(v),
        forall|v: u128| text@ == #[trigger] braced_text(v) ==> r == Some(v),
{
    uuid::Uuid::parse_str(text).ok().map(|u| u.as_u128())
}

/// Calls `uuid::Uuid::from_u128` and formats the identifier with its
/// `Display` impl.
///
/// Trusted: the text is the hyphenated lower-case form of the value.
#[verifier::external_body]
fn format_value(value: u128) -> (s: String)
    ensures
        s@ == hyphenated_text(value),
{
    uuid::Uuid::from_u128(value).to_string()
}

impl Uuid {
    /// The 128-bit value of the identifier.
    pub closed spec fn spec_value(&self) -> u128 {
        self.value
    }

    /// The identifier with the given value.
    pub fn from_u128(value: u128) -> (id: Uuid)
        ensures
            id.spec_value() == value,
    {
        Uuid { value }
    }

    /// The 128-bit value of the identifier.
    #[verifier::when_used_as_spec(spec_value)]
    pub fn as_u128(&self) -> (value: u128)
        ensures
            value == self.spec_value(),
    {
        self.value
    }

    /// Reads an identifier from any text form that the `uuid` crate accepts.
    ///
    /// The hyphenated form that [`Uuid::to_string`] writes is always read
    /// back as the same identifier, and so are the same digits without
    /// hyphens, behind `urn:uuid:` or between braces.
    pub fn parse_str(text: &str) -> (r: Option<Uuid>)
        ensures
            r == read_text(text@),
            forall|id: Uuid| text@ == #[trigger] id.text() ==> r == Some(id),
            forall|id: Uuid| text@ == #[trigger] simple_text(id.spec_value()) ==> r == Some(id),
            forall|id: Uuid| text@ == #[trigger] urn_text(id.spec_value()) ==> r == Some(id),
            forall|id: Uuid| text@ == #[trigger] braced_text(id.spec_value()) ==> r == Some(id),
    {
        match parse_value(text) {
            Some(value) => Some(Uuid { value }),
            None => None,
        }
    }

    /// The hyphenated lower-case text of the identifier.
    pub open spec fn text(&self) -> Seq<char> {
        hyphenated_text(self.spec_value())
    }

    /// The hyphenated lower-case text of the identifier.
    pub fn to_string(&self) -> (s: String)
        ensures
            s@ == self.text(),
    {
        format_value(self.value)
    }
}

/// The identifier that a text stands for, if it stands for one.
pub closed spec fn read_text(text: Seq<char>) -> Option<Uuid> {
    match parsed_value(text) {
        Some(value) => Some(Uuid { value }),
        None => None,
    }
}

} // verus!
