//! Whom a reply goes to, and what it says.

use vstd::prelude::*;
use crate::json::{Json, JsonValue};
use crate::message::{Message, MessageView, Origin, OriginView};
use crate::wire::{json_text, render, Unwritable};

verus! {

/// Where the reply to a message from `from` goes. A user who writes in their
/// own private chat, whose id is the user's, is answered in that chat; nobody
/// else is answered.
pub open spec fn destination(from: OriginView) -> Option<OriginView> {
    match from {
        OriginView::Tg { chat_id, user_id: Some(user) } => if user == chat_id {
            Some(OriginView::Tg { chat_id, user_id: None })
        } else {
            None
        },
        _ => None,
    }
}

/// How a payload reads in a reply: a string as it is, any other value as its
/// JSON text; `None` where that text cannot be written.
pub open spec fn shown(text: JsonValue) -> Option<Seq<char>> {
    match text {
        JsonValue::String(s) => Some(s),
        _ => json_text(text),
    }
}

/// The question asked about a payload that reads `shown`.
pub open spec fn question(shown: Seq<char>) -> Seq<char> {
    "А что значит "@ + shown + "?"@
}

/// The reply sent to `to` about a payload that reads `shown`.
pub open spec fn canned_reply(to: OriginView, shown: Seq<char>) -> MessageView {
    MessageView {
        from: OriginView::Brain { name: "niege"@ },
        to,
        text: JsonValue::Array(
            seq![JsonValue::String("Я не поняла"@), JsonValue::String(question(shown))],
        ),
    }
}

/// The replies to `message`, given how its payload reads: one where the
/// sender has a destination, none where it has not.
pub open spec fn replies_showing(message: MessageView, shown: Seq<char>) -> Seq<MessageView> {
    match destination(message.from) {
        Some(to) => seq![canned_reply(to, shown)],
        None => Seq::empty(),
    }
}

/// The replies to `message`; `None` where one is due and the payload cannot
/// be written.
pub open spec fn replies(message: MessageView) -> Option<Seq<MessageView>> {
    match destination(message.from) {
        Some(to) => match shown(message.text) {
            Some(shown) => Some(seq![canned_reply(to, shown)]),
            None => None,
        },
        None => Some(Seq::empty()),
    }
}

/// What each of `messages` denotes, in order.
pub open spec fn messages_view(messages: Seq<Message>) -> Seq<MessageView> {
    messages.map_values(|m: Message| m@)
}

/// The destination of the reply to a message from `from`.
pub fn build_dst(from: &Origin) -> (dst: Option<Origin>)
    ensures
        dst matches Some(to) ==> destination(from@) == Some(to@),
        dst is None ==> destination(from@) is None,
{
    match from {
        Origin::Tg { chat_id, user_id: Some(user) } => if *user == *chat_id {
            Some(Origin::Tg { chat_id: *chat_id, user_id: None })
        } else {
            None
        },
        _ => None,
    }
}

/// How the payload `text` reads in a reply.
pub fn show(text: &Json) -> (r: Result<String, Unwritable>)
    ensures
        r matches Ok(s) ==> shown(text@) == Some(s@),
        r is Err ==> shown(text@) is None,
{
    match text {
        Json::String(s) => Ok(s.clone()),
        _ => render(text),
    }
}

/// The reply sent to `to` about a payload that reads `shown`.
pub fn compose(to: Origin, shown: &str) -> (reply: Message)
    ensures
        reply@ == canned_reply(to@, shown@),
{
    let mut asked = String::from_str("А что значит ");
    asked.append(shown);
    asked.append("?");
    let mut text: Vec<Json> = Vec::new();
    text.push(Json::String(String::from_str("Я не поняла")));
    text.push(Json::String(asked));
    proof {
        crate::json::lemma_items_view_index(text@);
        assert(crate::json::items_view(text@) =~= seq![
            JsonValue::String("Я не поняла"@),
            JsonValue::String(question(shown@)),
        ]);
    }
    Message { from: Origin::Brain { name: String::from_str("niege") }, to, text: Json::Array(text) }
}

/// The replies to `message`, given how its payload reads.
pub fn reply_showing(message: &Message, shown: &str) -> (out: Vec<Message>)
    ensures
        messages_view(out@) == replies_showing(message@, shown@),
{
    let mut out: Vec<Message> = Vec::new();
    match build_dst(&message.from) {
        Some(to) => {
            out.push(compose(to, shown));
        },
        None => {},
    }
    assert(messages_view(out@) =~= replies_showing(message@, shown@));
    out
}

/// The replies to `message`: exactly one where its sender has a destination,
/// none where it has not.
pub fn reply(message: &Message) -> (r: Result<Vec<Message>, Unwritable>)
    ensures
        r matches Ok(out) ==> replies(message@) == Some(messages_view(out@)),
        r is Err ==> replies(message@) is None,
{
    match build_dst(&message.from) {
        Some(_) => match show(&message.text) {
            Ok(shown) => Ok(reply_showing(message, shown.as_str())),
            Err(error) => Err(error),
        },
        None => {
            let out: Vec<Message> = Vec::new();
            assert(messages_view(out@) =~= Seq::<MessageView>::empty());
            Ok(out)
        },
    }
}

/// A sender whose user id is the chat's id is answered in that chat, with the
/// user id dropped.
pub proof fn law_private_chat_is_answered(chat_id: i64)
    ensures
        destination(OriginView::Tg { chat_id, user_id: Some(chat_id) }) == Some(
            OriginView::Tg { chat_id, user_id: None },
        ),
{
}

/// No other sender has a destination, and a message from one gets no reply:
/// a user in a chat that is not their own, a chat itself, a responder.
pub proof fn law_others_are_not_answered(message: MessageView)
    requires
        match message.from {
            OriginView::Tg { chat_id, user_id: Some(user) } => user != chat_id,
            OriginView::Tg { chat_id, user_id: None } => true,
            OriginView::Brain { name } => true,
        },
    ensures
        destination(message.from) is None,
        replies(message) == Some(Seq::<MessageView>::empty()),
        forall|shown: Seq<char>| #[trigger] replies_showing(message, shown).len() == 0,
{
}

} // verus!
