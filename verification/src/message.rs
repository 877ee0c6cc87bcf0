//! Messages and the endpoints they travel between, and their JSON form.

use vstd::prelude::*;
use crate::json::{put, reads, Json, JsonValue, Member, Number, NumberValue};

verus! {

/// One end of a conversation.
#[derive(Debug, PartialEq, Eq)]
pub enum Origin {
    /// A chat on the chat platform: with `user_id` a user within the chat,
    /// without it the chat itself.
    Tg { chat_id: i64, user_id: Option<i64> },
    /// An automated responder.
    Brain { name: String },
}

/// What an [`Origin`] denotes.
pub ghost enum OriginView {
    Tg { chat_id: i64, user_id: Option<i64> },
    Brain { name: Seq<char> },
}

impl View for Origin {
    type V = OriginView;

    open spec fn view(&self) -> OriginView {
        match self {
            Origin::Tg { chat_id, user_id } => OriginView::Tg {
                chat_id: *chat_id,
                user_id: *user_id,
            },
            Origin::Brain { name } => OriginView::Brain { name: name@ },
        }
    }
}

/// A message: who sent it, whom it is for, and a payload that is carried
/// through as it is.
#[derive(Debug, PartialEq, Eq)]
pub struct Message {
    pub from: Origin,
    pub to: Origin,
    pub text: Json,
}

/// What a [`Message`] denotes.
pub ghost struct MessageView {
    pub from: OriginView,
    pub to: OriginView,
    pub text: JsonValue,
}

impl View for Message {
    type V = MessageView;

    open spec fn view(&self) -> MessageView {
        MessageView { from: self.from@, to: self.to@, text: self.text@ }
    }
}

/// Why a line gave no message.
#[derive(Debug, Clone, Copy, PartialEq, Eq)]
pub enum DecodeError {
    /// The line is not JSON text.
    Syntax,
    /// The sender's `channel` is there but is not a string.
    ChannelNotString,
    /// The value does not have the shape of a message.
    Shape,
}

/// An integer field: there, a number, and within `i64`.
pub open spec fn int_field(field: Option<JsonValue>) -> Option<i64> {
    match field {
        Some(JsonValue::Number(n)) => n.as_i64(),
        _ => None,
    }
}

/// An optional integer field: left out or null for none, else as
/// [`int_field`]. The outer `None` says that the field is ill-formed.
pub open spec fn optional_int_field(field: Option<JsonValue>) -> Option<Option<i64>> {
    match field {
        None => Some(None),
        Some(JsonValue::Null) => Some(None),
        _ => match int_field(field) {
            Some(i) => Some(Some(i)),
            None => None,
        },
    }
}

/// A string field: there, and a string.
pub open spec fn string_field(field: Option<JsonValue>) -> Option<Seq<char>> {
    match field {
        Some(JsonValue::String(s)) => Some(s),
        _ => None,
    }
}

/// The endpoint that `value` spells out: an object whose `channel` is `"tg"`
/// or `"brain"`, with the fields of that variant.
pub open spec fn origin_of(value: JsonValue) -> Option<OriginView> {
    match string_field(value.get("channel"@)) {
        Some(tag) => if tag == "tg"@ {
            match (int_field(value.get("chat_id"@)), optional_int_field(value.get("user_id"@))) {
                (Some(chat_id), Some(user_id)) => Some(OriginView::Tg { chat_id, user_id }),
                _ => None,
            }
        } else if tag == "brain"@ {
            match string_field(value.get("name"@)) {
                Some(name) => Some(OriginView::Brain { name }),
                None => None,
            }
        } else {
            None
        },
        None => None,
    }
}

/// The JSON form of an endpoint.
pub open spec fn origin_json(origin: OriginView) -> JsonValue {
    match origin {
        OriginView::Tg { chat_id, user_id } => JsonValue::Object(
            Map::empty().insert("channel"@, JsonValue::String("tg"@)).insert(
                "chat_id"@,
                JsonValue::Number(NumberValue::Int(chat_id as int)),
            ).insert(
                "user_id"@,
                match user_id {
                    Some(u) => JsonValue::Number(NumberValue::Int(u as int)),
                    None => JsonValue::Null,
                },
            ),
        ),
        OriginView::Brain { name } => JsonValue::Object(
            Map::empty().insert("channel"@, JsonValue::String("brain"@)).insert(
                "name"@,
                JsonValue::String(name),
            ),
        ),
    }
}

/// Whether the sender of `value` has a `channel` that is not a string.
pub open spec fn sender_channel_not_string(value: JsonValue) -> bool {
    match value.get("from"@) {
        Some(from) => match from.get("channel"@) {
            Some(channel) => !(channel is String),
            None => false,
        },
        None => false,
    }
}

/// The message that `value` spells out: an object with `from` and `to`, each
/// an endpoint, and `text`, which may be any value.
pub open spec fn message_of(value: JsonValue) -> Result<MessageView, DecodeError> {
    if sender_channel_not_string(value) {
        Err(DecodeError::ChannelNotString)
    } else {
        match (value.get("from"@), value.get("to"@), value.get("text"@)) {
            (Some(from), Some(to), Some(text)) => match (origin_of(from), origin_of(to)) {
                (Some(from), Some(to)) => Ok(MessageView { from, to, text }),
                _ => Err(DecodeError::Shape),
            },
            _ => Err(DecodeError::Shape),
        }
    }
}

/// The JSON form of a message.
pub open spec fn message_json(message: MessageView) -> JsonValue {
    JsonValue::Object(
        Map::empty().insert("from"@, origin_json(message.from)).insert(
            "to"@,
            origin_json(message.to),
        ).insert("text"@, message.text),
    )
}

/// The words of the JSON form all differ.
pub proof fn lemma_words_differ()
    ensures
        "from"@ != "to"@,
        "from"@ != "text"@,
        "to"@ != "text"@,
        "channel"@ != "chat_id"@,
        "channel"@ != "user_id"@,
        "channel"@ != "name"@,
        "chat_id"@ != "user_id"@,
        "tg"@ != "brain"@,
{
    reveal_strlit("from");
    reveal_strlit("to");
    reveal_strlit("text");
    reveal_strlit("channel");
    reveal_strlit("chat_id");
    reveal_strlit("user_id");
    reveal_strlit("name");
    reveal_strlit("tg");
    reveal_strlit("brain");
    assert("from"@.len() != "to"@.len());
    assert("to"@.len() != "text"@.len());
    assert("channel"@.len() != "name"@.len());
    assert("tg"@.len() != "brain"@.len());
    assert("from"@[0] != "text"@[0]);
    assert("channel"@[3] != "chat_id"@[3]);
    assert("channel"@[0] != "user_id"@[0]);
    assert("chat_id"@[0] != "user_id"@[0]);
}

/// Every endpoint is read back from its JSON form.
pub proof fn law_endpoint_is_read_back(origin: OriginView)
    ensures
        origin_of(origin_json(origin)) == Some(origin),
{
    lemma_words_differ();
}

/// Decoding undoes encoding: every message is read back from its JSON form,
/// whatever its endpoints and its payload.
pub proof fn law_decoding_undoes_encoding(message: MessageView)
    ensures
        message_of(message_json(message)) == Ok::<MessageView, DecodeError>(message),
{
    lemma_words_differ();
    law_endpoint_is_read_back(message.from);
    law_endpoint_is_read_back(message.to);
}

/// Reads an integer field.
fn read_int(field: Option<&Json>) -> (r: Option<i64>)
    ensures
        r == int_field(
            match field {
                Some(json) => Some(json@),
                None => None,
            },
        ),
{
    match field {
        Some(Json::Number(n)) => n.as_i64(),
        _ => None,
    }
}

/// Reads an optional integer field.
fn read_optional_int(field: Option<&Json>) -> (r: Option<Option<i64>>)
    ensures
        r == optional_int_field(
            match field {
                Some(json) => Some(json@),
                None => None,
            },
        ),
{
    match field {
        None => Some(None),
        Some(Json::Null) => Some(None),
        _ => match read_int(field) {
            Some(i) => Some(Some(i)),
            None => None,
        },
    }
}

impl Origin {
    /// Reads an endpoint from its JSON form.
    pub fn decode(json: &Json) -> (r: Option<Origin>)
        ensures
            r matches Some(origin) ==> origin_of(json@) == Some(origin@),
            r is None ==> origin_of(json@) is None,
    {
        match json.get("channel") {
            Some(Json::String(tag)) => {
                if reads(tag, "tg") {
                    let chat = read_int(json.get("chat_id"));
                    let user = read_optional_int(json.get("user_id"));
                    match (chat, user) {
                        (Some(chat_id), Some(user_id)) => Some(Origin::Tg { chat_id, user_id }),
                        _ => None,
                    }
                } else if reads(tag, "brain") {
                    match json.get("name") {
                        Some(Json::String(name)) => Some(Origin::Brain { name: name.clone() }),
                        _ => None,
                    }
                } else {
                    None
                }
            },
            _ => None,
        }
    }

    /// Writes the endpoint in its JSON form.
    pub fn encode(&self) -> (json: Json)
        ensures
            json@ == origin_json(self@),
    {
        let mut members: Vec<Member> = Vec::new();
        match self {
            Origin::Tg { chat_id, user_id } => {
                put(&mut members, "channel", Json::String(String::from_str("tg")));
                put(&mut members, "chat_id", Json::Number(Number::Int(*chat_id)));
                let user = match user_id {
                    Some(u) => Json::Number(Number::Int(*u)),
                    None => Json::Null,
                };
                put(&mut members, "user_id", user);
            },
            Origin::Brain { name } => {
                put(&mut members, "channel", Json::String(String::from_str("brain")));
                put(&mut members, "name", Json::String(name.clone()));
            },
        }
        Json::Object(members)
    }

    /// A copy that denotes the same endpoint.
    pub fn duplicate(&self) -> (copy: Origin)
        ensures
            copy@ == self@,
    {
        match self {
            Origin::Tg { chat_id, user_id } => Origin::Tg { chat_id: *chat_id, user_id: *user_id },
            Origin::Brain { name } => Origin::Brain { name: name.clone() },
        }
    }
}

impl Message {
    /// Reads a message from its JSON form.
    pub fn decode(json: &Json) -> (r: Result<Message, DecodeError>)
        ensures
            r matches Ok(message) ==> message_of(json@) == Ok::<MessageView, DecodeError>(
                message@,
            ),
            r matches Err(error) ==> message_of(json@) == Err::<MessageView, DecodeError>(error),
    {
        let sender = json.get("from");
        let channel_is_string = match sender {
            Some(from) => match from.get("channel") {
                Some(Json::String(_)) => true,
                Some(_) => false,
                None => true,
            },
            None => true,
        };
        if !channel_is_string {
            return Err(DecodeError::ChannelNotString);
        }
        match (sender, json.get("to"), json.get("text")) {
            (Some(from), Some(to), Some(text)) => match (Origin::decode(from), Origin::decode(to)) {
                (Some(from), Some(to)) => Ok(Message { from, to, text: text.duplicate() }),
                _ => Err(DecodeError::Shape),
            },
            _ => Err(DecodeError::Shape),
        }
    }

    /// Writes the message in its JSON form.
    pub fn encode(&self) -> (json: Json)
        ensures
            json@ == message_json(self@),
    {
        let mut members: Vec<Member> = Vec::new();
        put(&mut members, "from", self.from.encode());
        put(&mut members, "to", self.to.encode());
        put(&mut members, "text", self.text.duplicate());
        Json::Object(members)
    }
}

} // verus!
