//! The JSON text of protocol frames: how strings are quoted, and what a
//! frame holds once `serde_json` has read it.

use crate::id::hex_digits;
use vstd::prelude::*;

verus! {

/// One field of a JSON object: its name and, where the value is a JSON
/// string, that string.
#[derive(Debug)]
pub struct Field {
    pub name: String,
    pub text: Option<String>,
}

/// One member of the outermost JSON object of a frame: its name and, where
/// the value is itself an object, the fields of that object.
#[derive(Debug)]
pub struct Member {
    pub tag: String,
    pub fields: Option<Vec<Field>>,
}

/// The mathematical value of a [`Field`].
pub struct FieldModel {
    pub name: Seq<char>,
    pub text: Option<Seq<char>>,
}

/// The mathematical value of a [`Member`].
pub struct MemberModel {
    pub tag: Seq<char>,
    pub fields: Option<Seq<FieldModel>>,
}

impl View for Field {
    type V = FieldModel;

    open spec fn view(&self) -> FieldModel {
        FieldModel {
            name: self.name@,
            text: match self.text {
                Some(t) => Some(t@),
                None => None,
            },
        }
    }
}

/// The mathematical value of the fields of a member.
pub open spec fn fields_model(fields: Option<Vec<Field>>) -> Option<Seq<FieldModel>> {
    match fields {
        Some(fs) => Some(fs@.map_values(|f: Field| f@)),
        None => None,
    }
}

impl View for Member {
    type V = MemberModel;

    open spec fn view(&self) -> MemberModel {
        MemberModel { tag: self.tag@, fields: fields_model(self.fields) }
    }
}

/// The mathematical value of a list of members.
pub open spec fn members_model(members: Seq<Member>) -> Seq<MemberModel> {
    members.map_values(|m: Member| m@)
}

/// What stands for the character `c` inside a JSON string.
pub open spec fn escaped_char(c: char) -> Seq<char> {
    if c == '"' {
        seq!['\\', '"']
    } else if c == '\\' {
        seq!['\\', '\\']
    } else if c == '\u{8}' {
        seq!['\\', 'b']
    } else if c == '\t' {
        seq!['\\', 't']
    } else if c == '\n' {
        seq!['\\', 'n']
    } else if c == '\u{c}' {
        seq!['\\', 'f']
    } else if c == '\r' {
        seq!['\\', 'r']
    } else if (c as u32) < 0x20 {
        seq![
            '\\',
            'u',
            '0',
            '0',
            hex_digits()[(c as u32 / 16) as int],
            hex_digits()[(c as u32 % 16) as int],
        ]
    } else {
        seq![c]
    }
}

/// The characters of `s`, each written as it stands inside a JSON string.
pub open spec fn escaped(s: Seq<char>) -> Seq<char>
    decreases s.len(),
{
    if s.len() == 0 {
        Seq::empty()
    } else {
        escaped(s.drop_last()) + escaped_char(s.last())
    }
}

/// The JSON string that holds `s`: its escaped characters between quotes.
pub open spec fn quoted(s: Seq<char>) -> Seq<char> {
    seq!['"'] + escaped(s) + seq!['"']
}

/// The compact JSON text of an object with the one member `tag`, whose value
/// is an object with the one field `name`, whose value is the string `value`.
pub open spec fn nested_text(tag: Seq<char>, name: Seq<char>, value: Seq<char>) -> Seq<char> {
    seq!['{'] + quoted(tag) + seq![':', '{'] + quoted(name) + seq![':'] + quoted(value) + seq![
        '}',
        '}',
    ]
}

/// What reading [`nested_text`] gives: the one member that it writes down.
pub open spec fn nested_reading(tag: Seq<char>, name: Seq<char>, value: Seq<char>) -> Result<
    Seq<MemberModel>,
    Seq<char>,
> {
    Ok(seq![MemberModel { tag, fields: Some(seq![FieldModel { name, text: Some(value) }]) }])
}

/// The mathematical value of what reading a frame gave.
pub open spec fn reading_model(r: Result<Vec<Member>, String>) -> Result<
    Seq<MemberModel>,
    Seq<char>,
> {
    match r {
        Ok(members) => Ok(members_model(members@)),
        Err(why) => Err(why@),
    }
}

/// What `serde_json::from_str` makes of a text that is read as a JSON
/// object: the members of the object, or the message of the error.
pub uninterp spec fn parsed_members(text: Seq<char>) -> Result<Seq<MemberModel>, Seq<char>>;

/// Calls `serde_json::Value`'s `Display` impl on a JSON string value.
///
/// Trusted: the text is the string between quotes, with `"`, `\` and the
/// characters below U+0020 escaped as `serde_json` escapes them and every
/// other character unchanged.
#[verifier::external_body]
pub(crate) fn quote(text: &str) -> (s: String)
    ensures
        s@ == quoted(text@),
{
    serde_json::Value::String(text.to_owned()).to_string()
}

/// Calls `serde_json::from_str` for a `serde_json::Map` and copies the
/// members out: of each member its name and, where `Value::as_object` gives
/// an object, of each field its name and what `Value::as_str` gives.
///
/// Trusted: the result depends on the text alone, and the compact text of a
/// one-member object around a one-field object around a string is read as
/// exactly that.
#[verifier::external_body]
fn parse_members(text: &str) -> (r: Result<Vec<Member>, String>)
    ensures
        reading_model(r) == parsed_members(text@),
        forall|tag: Seq<char>, name: Seq<char>, value: Seq<char>|
            text@ == #[trigger] nested_text(tag, name, value) ==> reading_model(r)
                == nested_reading(tag, name, value),
{
    match serde_json::from_str::<serde_json::Map<String, serde_json::Value>>(text) {
        Ok(map) => Ok(map.into_iter().map(|(tag, value)| Member {
            tag,
            fields: value.as_object().map(|o| o.iter().map(|(name, v)| Field {
                name: name.clone(),
                text: v.as_str().map(str::to_owned),
            }).collect()),
        }).collect()),
        Err(why) => Err(why.to_string()),
    }
}

/// Reads a text frame as a JSON object and hands out its members, or the
/// words of `serde_json` for why the text is no JSON object.
///
/// The compact text of a one-member object around a one-field object
/// around a string, as [`nested_text`] writes it, is read as exactly that.
pub fn read_frame(text: &str) -> (r: Result<Vec<Member>, String>)
    ensures
        reading_model(r) == parsed_members(text@),
        forall|tag: Seq<char>, name: Seq<char>, value: Seq<char>|
            text@ == #[trigger] nested_text(tag, name, value) ==> reading_model(r)
                == nested_reading(tag, name, value),
{
    parse_members(text)
}

} // verus!
