//! The frames that travel between a client and the server: what a client
//! sends, what the server broadcasts, and their JSON text.

use vstd::prelude::*;
use vstd::arithmetic::power::pow;

verus! {

/// The sender identity reserved for messages that the server itself
/// generates.
pub const NIL_ID: u128 = 0;

/// What a client sends over its connection: the text of one chat message.
#[derive(Debug, PartialEq, Eq)]
pub struct WsClientMessage {
    pub content: String,
}

/// What the server broadcasts to the subscribers of a group. On the wire
/// the sender's name travels as the member `sender_display_name`.
#[derive(Debug, PartialEq, Eq)]
pub struct WsServerMessage {
    pub sender_id: u128,
    pub sender_username: String,
    pub content: String,
}

/// The hexadecimal digit for a value below sixteen, in lower case.
pub open spec fn hex_digit(value: int) -> char {
    "0123456789abcdef"@[value]
}

/// The character at position `i` of an identifier's hyphenated text.
pub open spec fn uuid_char(id: u128, i: int) -> char {
    if i == 8 || i == 13 || i == 18 || i == 23 {
        '-'
    } else {
        let digit = if i < 8 {
            i
        } else if i < 13 {
            i - 1
        } else if i < 18 {
            i - 2
        } else if i < 23 {
            i - 3
        } else {
            i - 4
        };
        hex_digit((id as int / pow(16, (31 - digit) as nat)) % 16)
    }
}

/// An identifier as text: its 32 hexadecimal digits, most significant
/// first, in groups of 8, 4, 4, 4 and 12 with a hyphen between groups.
pub open spec fn uuid_text(id: u128) -> Seq<char> {
    Seq::new(36, |i: int| uuid_char(id, i))
}

/// How one character stands inside a JSON string.
pub open spec fn json_escape(c: char) -> Seq<char> {
    if c == '"' {
        seq!['\\', '"']
    } else if c == '\\' {
        seq!['\\', '\\']
    } else if c == '\u{8}' {
        seq!['\\', 'b']
    } else if c == '\t' {
        seq!['\\', 't']
    } else if c == '\n' {
        seq!['\\', 'n']
    } else if c == '\u{c}' {
        seq!['\\', 'f']
    } else if c == '\r' {
        seq!['\\', 'r']
    } else if (c as u32) < 0x20 {
        seq!['\\', 'u', '0', '0', hex_digit(c as u32 as int / 16), hex_digit(c as u32 as int % 16)]
    } else {
        seq![c]
    }
}

/// A text with each character as it stands inside a JSON string.
pub open spec fn json_escaped(text: Seq<char>) -> Seq<char>
    decreases text.len(),
{
    if text.len() == 0 {
        Seq::empty()
    } else {
        json_escape(text[0]) + json_escaped(text.drop_first())
    }
}

/// A text as a JSON string: escaped, between double quotes.
pub open spec fn json_quoted(text: Seq<char>) -> Seq<char> {
    seq!['"'] + json_escaped(text) + seq!['"']
}

/// Where `text` is one JSON document, an object, with a member `key` whose
/// value is a string: that string; of several members `key` the last one
/// counts. `None` for every other text.
pub uninterp spec fn json_string_member(text: Seq<char>, key: Seq<char>) -> Option<Seq<char>>;

/// The identifier that a text spells, in any of the forms that the uuid
/// crate reads; `None` for a text that spells none.
pub uninterp spec fn uuid_parsed(text: Seq<char>) -> Option<u128>;

/// `uuid::Uuid::parse_str`, and `Uuid::as_u128` on what it found: the
/// identifier that the text spells. An error, which the crate returns
/// for a text that spells none, is mapped to `None`.
#[verifier::external_body]
pub(crate) fn uuid_from_text(text: &str) -> (id: Option<u128>)
    ensures
        id == uuid_parsed(text@),
{
    uuid::Uuid::parse_str(text).ok().map(|id| id.as_u128())
}

/// `uuid::Uuid::from_u128` and the `Display` of the identifier it makes:
/// the hyphenated lower-case form.
#[verifier::external_body]
pub(crate) fn uuid_to_text(id: u128) -> (text: String)
    ensures
        text@ == uuid_text(id),
{
    uuid::Uuid::from_u128(id).to_string()
}

/// `serde_json::to_string` on a string slice: the slice as a JSON string.
/// Quote, backslash and the characters below U+0020 are escaped, all others
/// stand as they are. Writing a string into memory cannot fail.
#[verifier::external_body]
pub(crate) fn json_quote(text: &str) -> (quoted: String)
    ensures
        quoted@ == json_quoted(text@),
{
    serde_json::to_string(text).unwrap_or_default()
}

/// `serde_json::from_str` into a `serde_json::Value`, then `Value::get`
/// and `Value::as_str`: the string under `key` of the object that `text`
/// holds. Text that is no JSON document, a document that is no object, an
/// object without the member and a member that is no string all give
/// `None`.
#[verifier::external_body]
pub(crate) fn json_member_text(text: &str, key: &str) -> (found: Option<String>)
    ensures
        found.is_some() == json_string_member(text@, key@).is_some(),
        found matches Some(value) ==> json_string_member(text@, key@) == Some(value@),
{
    let document: serde_json::Value = serde_json::from_str(text).ok()?;
    document.get(key)?.as_str().map(str::to_owned)
}

/// The JSON text of a broadcast frame: an object with the members
/// `sender_id`, `sender_display_name` and `content`, in this order.
pub open spec fn server_frame_text(sender_id: u128, sender_display_name: Seq<char>, content: Seq<char>) -> Seq<char> {
    "{\"sender_id\":\""@ + uuid_text(sender_id) + "\",\"sender_display_name\":"@ + json_quoted(
        sender_display_name,
    ) + ",\"content\":"@ + json_quoted(content) + "}"@
}

/// The JSON text of a client frame.
pub open spec fn client_frame_text(content: Seq<char>) -> Seq<char> {
    "{\"content\":"@ + json_quoted(content) + "}"@
}

/// What a broadcast frame carries, if it is well formed: the sender's
/// identifier (`sender_id`) and name (`sender_display_name`) and the
/// `content`.
pub open spec fn server_frame_parts(text: Seq<char>) -> Option<(u128, Seq<char>, Seq<char>)> {
    match (
        json_string_member(text, "sender_id"@),
        json_string_member(text, "sender_display_name"@),
        json_string_member(text, "content"@),
    ) {
        (Some(id_text), Some(name), Some(content)) => match uuid_parsed(id_text) {
            Some(id) => Some((id, name, content)),
            None => None,
        },
        _ => None,
    }
}

/// The content of the chat message that a client frame carries, if the
/// frame is well formed.
pub open spec fn client_frame_content(text: Seq<char>) -> Option<Seq<char>> {
    json_string_member(text, "content"@)
}

/// The JSON object with the single member `key`, a string.
pub open spec fn single_member_object(key: Seq<char>, value: Seq<char>) -> Seq<char> {
    "{"@ + json_quoted(key) + ":"@ + json_quoted(value) + "}"@
}

/// Writes the JSON object with the single member `key`, a string.
pub fn single_member_json(key: &str, value: &str) -> (text: String)
    ensures
        text@ == single_member_object(key@, value@),
{
    let mut text = String::from_str("{");
    let quoted_key = json_quote(key);
    text.append(quoted_key.as_str());
    text.append(":");
    let quoted = json_quote(value);
    text.append(quoted.as_str());
    text.append("}");
    text
}

impl WsServerMessage {
    /// Whether the server itself generated the message.
    pub open spec fn system(&self) -> bool {
        self.sender_id == NIL_ID
    }

    /// Whether the server itself generated the message.
    pub fn is_system(&self) -> (yes: bool)
        ensures
            yes == self.system(),
    {
        self.sender_id == NIL_ID
    }

    /// The frame as JSON text, as it is published and written to clients.
    pub fn encode(&self) -> (text: String)
        ensures
            text@ == server_frame_text(self.sender_id, self.sender_username@, self.content@),
    {
        let mut text = String::from_str("{\"sender_id\":\"");
        let id = uuid_to_text(self.sender_id);
        text.append(id.as_str());
        text.append("\",\"sender_display_name\":");
        let name = json_quote(self.sender_username.as_str());
        text.append(name.as_str());
        text.append(",\"content\":");
        let content = json_quote(self.content.as_str());
        text.append(content.as_str());
        text.append("}");
        text
    }
}

impl WsServerMessage {
    /// The message that the members of a frame make, if the frame had all
    /// three and the first spells an identifier.
    pub fn from_members(
        sender_id: Option<u128>,
        sender_username: Option<String>,
        content: Option<String>,
    ) -> (message: Option<WsServerMessage>)
        ensures
            message is Some <==> sender_id is Some && sender_username is Some && content is Some,
            message matches Some(m) ==> sender_id == Some(m.sender_id) && sender_username == Some(
                m.sender_username,
            ) && content == Some(m.content),
    {
        match (sender_id, sender_username, content) {
            (Some(sender_id), Some(sender_username), Some(content)) => Some(
                WsServerMessage { sender_id, sender_username, content },
            ),
            _ => None,
        }
    }

    /// Reads a broadcast frame. A frame that is no JSON object with
    /// strings under `sender_id`, `sender_display_name` and `content`, the
    /// first of which spells an identifier, is malformed and gives `None`.
    pub fn parse(text: &str) -> (message: Option<WsServerMessage>)
        ensures
            message is Some <==> server_frame_parts(text@) is Some,
            message matches Some(m) ==> server_frame_parts(text@) == Some(
                (m.sender_id, m.sender_username@, m.content@),
            ),
    {
        let sender_id = match json_member_text(text, "sender_id") {
            Some(id_text) => uuid_from_text(id_text.as_str()),
            None => None,
        };
        let sender_username = json_member_text(text, "sender_display_name");
        let content = json_member_text(text, "content");
        WsServerMessage::from_members(sender_id, sender_username, content)
    }
}

impl WsClientMessage {
    /// The frame as JSON text, as a client writes it to its connection.
    pub fn encode(&self) -> (text: String)
        ensures
            text@ == client_frame_text(self.content@),
    {
        let mut text = String::from_str("{\"content\":");
        let content = json_quote(self.content.as_str());
        text.append(content.as_str());
        text.append("}");
        text
    }

    /// The message that a frame's member `content` makes, if the frame had
    /// one.
    pub fn from_content(content: Option<String>) -> (message: Option<WsClientMessage>)
        ensures
            message.is_some() == content.is_some(),
            message matches Some(m) ==> content == Some(m.content),
    {
        match content {
            Some(content) => Some(WsClientMessage { content }),
            None => None,
        }
    }

    /// Reads a client frame. A frame that is no JSON object with a string
    /// under `content` is malformed and gives `None`.
    pub fn parse(text: &str) -> (message: Option<WsClientMessage>)
        ensures
            message.is_some() == client_frame_content(text@).is_some(),
            message matches Some(m) ==> client_frame_content(text@) == Some(m.content@),
    {
        WsClientMessage::from_content(json_member_text(text, "content"))
    }
}

} // verus!
