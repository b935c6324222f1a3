//! Encoding and decoding of protocol frames.
//!
//! A frame is the compact JSON text of one message: an object with one
//! member, named after the kind of the message, around the fields of the
//! message.

use crate::commands::{
    IncomingMessage, MonitorErrorMessage, MonitorMessage, OutgoingMessage, Report, UploadMessage,
};
use crate::id::{read_text, Uuid};
use crate::json::{
    fields_model, members_model, nested_text, parsed_members, quote, quoted, read_frame,
    reading_model, Field, FieldModel, Member, MemberModel,
};
use vstd::prelude::*;
use vstd::string::StringExecFns;
use vstd::utf8::*;

verus! {

/// The name under which an incoming message travels.
pub open spec fn incoming_tag(m: IncomingMessage) -> Seq<char> {
    match m {
        IncomingMessage::UploadMessage(_) => "UploadMessage"@,
        IncomingMessage::MonitorMessage(_) => "MonitorMessage"@,
    }
}

/// The name of the one field of an incoming message.
pub open spec fn incoming_field(m: IncomingMessage) -> Seq<char> {
    match m {
        IncomingMessage::UploadMessage(_) => "binary"@,
        IncomingMessage::MonitorMessage(_) => "experiment"@,
    }
}

/// The identifier that an incoming message carries.
pub open spec fn incoming_id(m: IncomingMessage) -> Uuid {
    match m {
        IncomingMessage::UploadMessage(u) => u.binary,
        IncomingMessage::MonitorMessage(u) => u.experiment,
    }
}

/// The frame of an incoming message.
pub open spec fn incoming_text(m: IncomingMessage) -> Seq<char> {
    nested_text(incoming_tag(m), incoming_field(m), incoming_id(m).text())
}

/// The frame of an outgoing message.
pub open spec fn outgoing_text(r: Report) -> Seq<char> {
    match r {
        Report::Parse(info) => "{\"ParseMessage\":{\"info\":"@ + quoted(info) + "}}"@,
        Report::AlreadyMonitoring => "{\"MonitorErrorMessage\":{\"AlreadyMonitoring\":{}}}"@,
        Report::ScriptRun(info) => "{\"MonitorErrorMessage\":{\"ScriptRunError\":{\"info\":"@
            + quoted(info) + "}}}"@,
        Report::Connection(info) => "{\"MonitorErrorMessage\":{\"ConnectionError\":{\"info\":"@
            + quoted(info) + "}}}"@,
    }
}

impl IncomingMessage {
    /// The frame of the message.
    pub fn encode(&self) -> (s: String)
        ensures
            s@ == incoming_text(*self),
    {
        let id = match self {
            IncomingMessage::UploadMessage(u) => u.binary,
            IncomingMessage::MonitorMessage(u) => u.experiment,
        };
        let tag = match self {
            IncomingMessage::UploadMessage(_) => "UploadMessage",
            IncomingMessage::MonitorMessage(_) => "MonitorMessage",
        };
        let name = match self {
            IncomingMessage::UploadMessage(_) => "binary",
            IncomingMessage::MonitorMessage(_) => "experiment",
        };
        proof {
            reveal_strlit("{");
            reveal_strlit(":{");
            reveal_strlit(":");
            reveal_strlit("}}");
        }
        let mut s = "{".to_owned();
        s.append(quote(tag).as_str());
        s.append(":{");
        s.append(quote(name).as_str());
        s.append(":");
        s.append(quote(id.to_string().as_str()).as_str());
        s.append("}}");
        assert(s@ =~= incoming_text(*self));
        s
    }
}

impl OutgoingMessage {
    /// The frame of the message. Every message has one.
    pub fn encode(&self) -> (s: String)
        ensures
            s@ == outgoing_text(self@),
    {
        match self {
            OutgoingMessage::ParseMessage(m) => {
                let mut s = "{\"ParseMessage\":{\"info\":".to_owned();
                s.append(quote(m.info.as_str()).as_str());
                s.append("}}");
                s
            },
            OutgoingMessage::MonitorErrorMessage(MonitorErrorMessage::AlreadyMonitoring(_)) => {
                "{\"MonitorErrorMessage\":{\"AlreadyMonitoring\":{}}}".to_owned()
            },
            OutgoingMessage::MonitorErrorMessage(MonitorErrorMessage::ScriptRunError(m)) => {
                let mut s = "{\"MonitorErrorMessage\":{\"ScriptRunError\":{\"info\":".to_owned();
                s.append(quote(m.info.as_str()).as_str());
                s.append("}}}");
                s
            },
            OutgoingMessage::MonitorErrorMessage(MonitorErrorMessage::ConnectionError(m)) => {
                let mut s = "{\"MonitorErrorMessage\":{\"ConnectionError\":{\"info\":".to_owned();
                s.append(quote(m.info.as_str()).as_str());
                s.append("}}}");
                s
            },
        }
    }
}

/// Why the members of a frame are no message.
#[derive(Clone, Copy, Debug, PartialEq, Eq, Structural)]
pub enum ShapeFault {
    /// The frame does not hold exactly one member.
    NotOneMember,
    /// The member is named after no kind of message.
    UnknownTag,
    /// The value of the member is no object.
    NotAnObject,
    /// The object lacks the field of the message.
    MissingField,
    /// The value of the field is no string.
    NotAString,
    /// The string is no identifier.
    NotAnId,
}

/// Why a frame could not be decoded. Each error carries a diagnostic for the
/// control server.
#[derive(Clone, Debug, PartialEq, Eq)]
pub enum DecodeError {
    /// The bytes are no UTF-8 text.
    NotUtf8(String),
    /// The text is no message that the agent knows.
    UnknownShape(String),
}

/// The mathematical value of a [`DecodeError`].
pub enum DecodeFault {
    NotUtf8(Seq<char>),
    UnknownShape(Seq<char>),
}

impl View for DecodeError {
    type V = DecodeFault;

    open spec fn view(&self) -> DecodeFault {
        match self {
            DecodeError::NotUtf8(info) => DecodeFault::NotUtf8(info@),
            DecodeError::UnknownShape(info) => DecodeFault::UnknownShape(info@),
        }
    }
}

impl DecodeFault {
    /// The diagnostic of the fault.
    pub open spec fn info(self) -> Seq<char> {
        match self {
            DecodeFault::NotUtf8(info) => info,
            DecodeFault::UnknownShape(info) => info,
        }
    }
}

/// The first of `fields` with the given name.
pub open spec fn first_named(fields: Seq<FieldModel>, name: Seq<char>) -> Option<FieldModel>
    decreases fields.len(),
{
    if fields.len() == 0 {
        None
    } else if fields.first().name == name {
        Some(fields.first())
    } else {
        first_named(fields.drop_first(), name)
    }
}

/// The identifier in the field `name` of a member's value.
pub open spec fn id_of(fields: Option<Seq<FieldModel>>, name: Seq<char>) -> Result<
    Uuid,
    ShapeFault,
> {
    match fields {
        None => Err(ShapeFault::NotAnObject),
        Some(fs) => match first_named(fs, name) {
            None => Err(ShapeFault::MissingField),
            Some(f) => match f.text {
                None => Err(ShapeFault::NotAString),
                Some(t) => match read_text(t) {
                    Some(id) => Ok(id),
                    None => Err(ShapeFault::NotAnId),
                },
            },
        },
    }
}

/// The message that the members of a frame stand for: the frame holds one
/// member, named after a kind of message, whose value is an object that
/// holds the identifier of the message under its field name. Other fields of
/// that object are passed over.
pub open spec fn message_of(members: Seq<MemberModel>) -> Result<IncomingMessage, ShapeFault> {
    if members.len() != 1 {
        Err(ShapeFault::NotOneMember)
    } else if members[0].tag == "MonitorMessage"@ {
        match id_of(members[0].fields, "experiment"@) {
            Ok(id) => Ok(IncomingMessage::MonitorMessage(MonitorMessage { experiment: id })),
            Err(fault) => Err(fault),
        }
    } else if members[0].tag == "UploadMessage"@ {
        match id_of(members[0].fields, "binary"@) {
            Ok(id) => Ok(IncomingMessage::UploadMessage(UploadMessage { binary: id })),
            Err(fault) => Err(fault),
        }
    } else {
        Err(ShapeFault::UnknownTag)
    }
}

/// The members that the frame of a message holds.
pub open spec fn members_of(m: IncomingMessage) -> Seq<MemberModel> {
    seq![
        MemberModel {
            tag: incoming_tag(m),
            fields: Some(
                seq![FieldModel { name: incoming_field(m), text: Some(incoming_id(m).text()) }],
            ),
        },
    ]
}

/// Whether a string holds exactly the given text.
fn holds(s: &String, text: &str) -> (b: bool)
    ensures
        b == (s@ == text@),
{
    let other = text.to_owned();
    *s == other
}

/// Looks up the first of `fields` with the given name.
fn find_field<'a>(fields: &'a Vec<Field>, name: &str) -> (r: Option<&'a Field>)
    ensures
        match r {
            Some(f) => first_named(fields@.map_values(|f: Field| f@), name@) == Some(f@),
            None => first_named(fields@.map_values(|f: Field| f@), name@) is None,
        },
{
    let ghost model = fields@.map_values(|f: Field| f@);
    let mut i: usize = 0;
    assert(model.skip(0) =~= model);
    while i < fields.len()
        invariant
            i <= fields.len(),
            model == fields@.map_values(|f: Field| f@),
            first_named(model, name@) == first_named(model.skip(i as int), name@),
        decreases fields.len() - i,
    {
        assert(model.skip(i as int).first() == fields[i as int]@);
        assert(model.skip(i as int).drop_first() =~= model.skip(i + 1));
        if holds(&fields[i].name, name) {
            return Some(&fields[i]);
        }
        i += 1;
    }
    assert(model.skip(i as int).len() == 0);
    None
}

/// Reads the identifier in the field `name` of a member's value.
fn read_id(fields: &Option<Vec<Field>>, name: &str) -> (r: Result<Uuid, ShapeFault>)
    ensures
        r == id_of(fields_model(*fields), name@),
        forall|id: Uuid|
            fields_model(*fields) == Some(
                seq![FieldModel { name: name@, text: Some(#[trigger] id.text()) }],
            ) ==> r == Ok::<Uuid, ShapeFault>(id),
{
    match fields {
        None => Err(ShapeFault::NotAnObject),
        Some(fs) => match find_field(fs, name) {
            None => Err(ShapeFault::MissingField),
            Some(f) => match &f.text {
                None => Err(ShapeFault::NotAString),
                Some(t) => {
                    assert forall|id: Uuid|
                        fields_model(*fields) == Some(
                            seq![FieldModel { name: name@, text: Some(#[trigger] id.text()) }],
                        ) implies t@ == id.text() by {
                        let one = seq![FieldModel { name: name@, text: Some(id.text()) }];
                        assert(one.first().name == name@);
                        assert(first_named(one, name@) == Some(one.first()));
                    }
                    match Uuid::parse_str(t.as_str()) {
                        Some(id) => Ok(id),
                        None => Err(ShapeFault::NotAnId),
                    }
                },
            },
        },
    }
}

/// Reads the message that the members of a frame stand for.
///
/// The members that the frame of a message holds are always read as that
/// message.
pub fn read_members(members: &Vec<Member>) -> (r: Result<IncomingMessage, ShapeFault>)
    ensures
        r == message_of(members_model(members@)),
        forall|m: IncomingMessage|
            members_model(members@) == #[trigger] members_of(m) ==> r == Ok::<
                IncomingMessage,
                ShapeFault,
            >(m),
{
    proof {
        reveal_strlit("MonitorMessage");
        reveal_strlit("UploadMessage");
    }
    if members.len() != 1 {
        assert forall|m: IncomingMessage|
            members_model(members@) == #[trigger] members_of(m) implies false by {
            assert(members_of(m).len() == 1);
        }
        return Err(ShapeFault::NotOneMember);
    }
    let member = &members[0];
    assert(members_model(members@)[0] == member@);
    let r = if holds(&member.tag, "MonitorMessage") {
        match read_id(&member.fields, "experiment") {
            Ok(id) => Ok(IncomingMessage::MonitorMessage(MonitorMessage { experiment: id })),
            Err(fault) => Err(fault),
        }
    } else if holds(&member.tag, "UploadMessage") {
        match read_id(&member.fields, "binary") {
            Ok(id) => Ok(IncomingMessage::UploadMessage(UploadMessage { binary: id })),
            Err(fault) => Err(fault),
        }
    } else {
        Err(ShapeFault::UnknownTag)
    };
    assert forall|m: IncomingMessage|
        members_model(members@) == #[trigger] members_of(m) implies r == Ok::<
        IncomingMessage,
        ShapeFault,
    >(m) by {
        let id = incoming_id(m);
        assert(members_of(m)[0] == member@);
        assert(fields_model(member.fields) == Some(
            seq![FieldModel { name: incoming_field(m), text: Some(id.text()) }],
        ));
        match m {
            IncomingMessage::MonitorMessage(mm) => {
                assert(member.tag@ == "MonitorMessage"@);
                assert(mm.experiment == id);
            },
            IncomingMessage::UploadMessage(um) => {
                assert(member.tag@ == "UploadMessage"@);
                assert(member.tag@ != "MonitorMessage"@);
                assert(um.binary == id);
            },
        }
    }
    r
}

/// The words for a fault in the shape of a frame.
pub open spec fn fault_text(fault: ShapeFault) -> Seq<char> {
    match fault {
        ShapeFault::NotOneMember => "expected exactly one message kind"@,
        ShapeFault::UnknownTag =>
            "unknown message kind, expected `UploadMessage` or `MonitorMessage`"@,
        ShapeFault::NotAnObject => "expected the fields of the message as an object"@,
        ShapeFault::MissingField => "missing identifier field"@,
        ShapeFault::NotAString => "expected the identifier as a string"@,
        ShapeFault::NotAnId => "invalid identifier"@,
    }
}

/// The diagnostic for bytes that are no UTF-8 text, around the words of the
/// standard library for what is wrong with them.
pub open spec fn not_utf8_info(why: Seq<char>) -> Seq<char> {
    "Invalid UTF-8 sequence: "@ + why
}

/// The diagnostic for a text that is no known message, around the words for
/// what is wrong with it.
pub open spec fn unknown_shape_info(why: Seq<char>) -> Seq<char> {
    "Request contains unknown message: "@ + why
}

/// What a frame is decoded to, given what reading its text as JSON gave.
pub open spec fn interpretation(reading: Result<Seq<MemberModel>, Seq<char>>) -> Result<
    IncomingMessage,
    DecodeFault,
> {
    match reading {
        Err(why) => Err(DecodeFault::UnknownShape(unknown_shape_info(why))),
        Ok(members) => match message_of(members) {
            Ok(m) => Ok(m),
            Err(fault) => Err(DecodeFault::UnknownShape(unknown_shape_info(fault_text(fault)))),
        },
    }
}

/// What a text frame is decoded to.
pub open spec fn text_decoding(text: Seq<char>) -> Result<IncomingMessage, DecodeFault> {
    interpretation(parsed_members(text))
}

/// What a frame is decoded to.
pub open spec fn decoding(bytes: Seq<u8>) -> Result<IncomingMessage, DecodeFault> {
    if valid_utf8(bytes) {
        text_decoding(decode_utf8(bytes))
    } else {
        Err(DecodeFault::NotUtf8(not_utf8_info(utf8_fault(bytes))))
    }
}

/// The mathematical value of what decoding gave.
pub open spec fn decoded_model(r: Result<IncomingMessage, DecodeError>) -> Result<
    IncomingMessage,
    DecodeFault,
> {
    match r {
        Ok(m) => Ok(m),
        Err(e) => Err(e@),
    }
}

/// The words of the standard library for what is wrong with bytes that are
/// no UTF-8 text.
pub uninterp spec fn utf8_fault(bytes: Seq<u8>) -> Seq<char>;

/// Calls `core::str::from_utf8`; an error is handed out as the message that
/// its `Display` impl writes.
///
/// Trusted: the call succeeds exactly on UTF-8, the text then has the given
/// bytes as its encoding, and the message of an error depends on the bytes
/// alone.
#[verifier::external_body]
fn text_of(bytes: &[u8]) -> (r: Result<&str, String>)
    ensures
        r is Ok <==> valid_utf8(bytes@),
        r matches Ok(text) ==> encode_utf8(text@) == bytes@,
        r matches Err(why) ==> why@ == utf8_fault(bytes@),
{
    core::str::from_utf8(bytes).map_err(|e| e.to_string())
}

/// The words for a fault in the shape of a frame.
fn describe(fault: ShapeFault) -> (s: &'static str)
    ensures
        s@ == fault_text(fault),
{
    match fault {
        ShapeFault::NotOneMember => "expected exactly one message kind",
        ShapeFault::UnknownTag =>
            "unknown message kind, expected `UploadMessage` or `MonitorMessage`",
        ShapeFault::NotAnObject => "expected the fields of the message as an object",
        ShapeFault::MissingField => "missing identifier field",
        ShapeFault::NotAString => "expected the identifier as a string",
        ShapeFault::NotAnId => "invalid identifier",
    }
}

/// Decodes a frame from what reading its text as JSON gave: the members of
/// the outermost object, or the message of the error.
///
/// The members that the frame of a message holds are always decoded to that
/// message.
pub fn interpret(reading: Result<Vec<Member>, String>) -> (r: Result<IncomingMessage, DecodeError>)
    ensures
        decoded_model(r) == interpretation(reading_model(reading)),
        forall|m: IncomingMessage|
            reading_model(reading) == Ok::<Seq<MemberModel>, Seq<char>>(#[trigger] members_of(m))
                ==> r == Ok::<IncomingMessage, DecodeError>(m),
{
    match reading {
        Err(why) => {
            let mut info = "Request contains unknown message: ".to_owned();
            info.append(why.as_str());
            Err(DecodeError::UnknownShape(info))
        },
        Ok(members) => match read_members(&members) {
            Ok(m) => Ok(m),
            Err(fault) => {
                let mut info = "Request contains unknown message: ".to_owned();
                info.append(describe(fault));
                Err(DecodeError::UnknownShape(info))
            },
        },
    }
}

/// Decodes a text frame.
///
/// The frame of a message is always decoded to that message.
pub fn decode_text(text: &str) -> (r: Result<IncomingMessage, DecodeError>)
    ensures
        decoded_model(r) == text_decoding(text@),
        forall|m: IncomingMessage| text@ == #[trigger] incoming_text(m) ==> r == Ok::<
            IncomingMessage,
            DecodeError,
        >(m),
{
    let reading = read_frame(text);
    assert forall|m: IncomingMessage| text@ == #[trigger] incoming_text(m) implies reading_model(
        reading,
    ) == Ok::<Seq<MemberModel>, Seq<char>>(members_of(m)) by {
        assert(text@ == nested_text(incoming_tag(m), incoming_field(m), incoming_id(m).text()));
    }
    interpret(reading)
}

/// Decodes a frame. Every sequence of bytes is decoded to a message or to an
/// error; an error carries a diagnostic that is not empty.
///
/// Bytes that are no UTF-8 text give [`DecodeError::NotUtf8`]; a text that
/// is no message gives [`DecodeError::UnknownShape`]. The frame of a message
/// is always decoded to that message.
pub fn decode(bytes: &[u8]) -> (r: Result<IncomingMessage, DecodeError>)
    ensures
        decoded_model(r) == decoding(bytes@),
        r matches Err(e) ==> e@.info().len() > 0,
        r matches Err(DecodeError::NotUtf8(_)) <==> !valid_utf8(bytes@),
        forall|m: IncomingMessage| bytes@ == encode_utf8(#[trigger] incoming_text(m)) ==> r == Ok::<
            IncomingMessage,
            DecodeError,
        >(m),
{
    proof {
        reveal_strlit("Invalid UTF-8 sequence: ");
        reveal_strlit("Request contains unknown message: ");
    }
    match text_of(bytes) {
        Err(why) => {
            assert forall|m: IncomingMessage|
                bytes@ == encode_utf8(#[trigger] incoming_text(m)) implies false by {
                encode_utf8_valid_utf8(incoming_text(m));
            }
            let mut info = "Invalid UTF-8 sequence: ".to_owned();
            info.append(why.as_str());
            Err(DecodeError::NotUtf8(info))
        },
        Ok(text) => {
            assert(decode_utf8(bytes@) == text@) by {
                encode_utf8_decode_utf8(text@);
            }
            assert forall|m: IncomingMessage|
                bytes@ == encode_utf8(#[trigger] incoming_text(m)) implies text@ == incoming_text(
                m,
            ) by {
                encode_utf8_decode_utf8(incoming_text(m));
            }
            decode_text(text)
        },
    }
}

} // verus!
