use niege::json::{Json, Member, Number};
use niege::message::{DecodeError, Message, Origin};
use niege::wire::parse;

fn json(text: &str) -> Json {
    parse(text).unwrap()
}

fn decode(text: &str) -> Result<Message, DecodeError> {
    Message::decode(&json(text))
}

fn member(key: &str, value: Json) -> Member {
    Member { key: key.to_string(), value }
}

fn string(text: &str) -> Json {
    Json::String(text.to_string())
}

#[test]
fn origin_decodes_a_chat_with_a_user() {
    assert_eq!(
        Origin::decode(&json("{\"channel\":\"tg\",\"chat_id\":42,\"user_id\":7}")),
        Some(Origin::Tg { chat_id: 42, user_id: Some(7) })
    );
    assert_eq!(
        Origin::decode(&json("{\"channel\":\"tg\",\"chat_id\":-9223372036854775808,\"user_id\":9223372036854775807}")),
        Some(Origin::Tg { chat_id: i64::MIN, user_id: Some(i64::MAX) })
    );
}

#[test]
fn origin_decodes_a_chat_without_a_user() {
    let chat = Some(Origin::Tg { chat_id: 42, user_id: None });
    assert_eq!(Origin::decode(&json("{\"channel\":\"tg\",\"chat_id\":42,\"user_id\":null}")), chat);
    assert_eq!(Origin::decode(&json("{\"channel\":\"tg\",\"chat_id\":42}")), chat);
}

#[test]
fn origin_decodes_a_responder() {
    assert_eq!(
        Origin::decode(&json("{\"channel\":\"brain\",\"name\":\"niege\"}")),
        Some(Origin::Brain { name: "niege".to_string() })
    );
    assert_eq!(
        Origin::decode(&json("{\"name\":\"\",\"channel\":\"brain\",\"chat_id\":\"unused\"}")),
        Some(Origin::Brain { name: String::new() })
    );
}

#[test]
fn origin_refuses_an_unknown_channel() {
    assert_eq!(Origin::decode(&json("{\"channel\":\"irc\",\"chat_id\":42,\"name\":\"x\"}")), None);
    assert_eq!(Origin::decode(&json("{\"channel\":\"TG\",\"chat_id\":42}")), None);
    assert_eq!(Origin::decode(&json("{\"channel\":\"\",\"chat_id\":42}")), None);
    assert_eq!(Origin::decode(&json("{\"chat_id\":42}")), None);
    assert_eq!(Origin::decode(&json("{\"channel\":null,\"chat_id\":42}")), None);
}

#[test]
fn origin_refuses_fields_of_the_wrong_kind() {
    assert_eq!(Origin::decode(&json("{\"channel\":\"tg\"}")), None);
    assert_eq!(Origin::decode(&json("{\"channel\":\"tg\",\"chat_id\":\"42\"}")), None);
    assert_eq!(Origin::decode(&json("{\"channel\":\"tg\",\"chat_id\":42.0}")), None);
    assert_eq!(Origin::decode(&json("{\"channel\":\"tg\",\"chat_id\":null}")), None);
    assert_eq!(Origin::decode(&json("{\"channel\":\"tg\",\"chat_id\":9223372036854775808}")), None);
    assert_eq!(Origin::decode(&json("{\"channel\":\"tg\",\"chat_id\":42,\"user_id\":\"7\"}")), None);
    assert_eq!(Origin::decode(&json("{\"channel\":\"tg\",\"chat_id\":42,\"user_id\":7.5}")), None);
    assert_eq!(Origin::decode(&json("{\"channel\":\"tg\",\"chat_id\":42,\"user_id\":18446744073709551615}")), None);
    assert_eq!(Origin::decode(&json("{\"channel\":\"brain\"}")), None);
    assert_eq!(Origin::decode(&json("{\"channel\":\"brain\",\"name\":5}")), None);
    assert_eq!(Origin::decode(&json("{\"channel\":\"brain\",\"name\":null}")), None);
}

#[test]
fn origin_refuses_what_is_no_object() {
    assert_eq!(Origin::decode(&json("5")), None);
    assert_eq!(Origin::decode(&json("\"tg\"")), None);
    assert_eq!(Origin::decode(&json("[{\"channel\":\"brain\",\"name\":\"x\"}]")), None);
    assert_eq!(Origin::decode(&json("null")), None);
}

#[test]
fn origin_encodes_its_variant_under_channel() {
    assert_eq!(
        Origin::Tg { chat_id: 42, user_id: Some(7) }.encode(),
        Json::Object(vec![
            member("channel", string("tg")),
            member("chat_id", Json::Number(Number::Int(42))),
            member("user_id", Json::Number(Number::Int(7))),
        ])
    );
    assert_eq!(
        Origin::Tg { chat_id: -1, user_id: None }.encode(),
        Json::Object(vec![
            member("channel", string("tg")),
            member("chat_id", Json::Number(Number::Int(-1))),
            member("user_id", Json::Null),
        ])
    );
    assert_eq!(
        Origin::Brain { name: "niege".to_string() }.encode(),
        Json::Object(vec![member("channel", string("brain")), member("name", string("niege"))])
    );
}

#[test]
fn origin_duplicate_copies_the_endpoint() {
    for origin in [
        Origin::Tg { chat_id: 1, user_id: Some(2) },
        Origin::Tg { chat_id: 1, user_id: None },
        Origin::Brain { name: "x".to_string() },
    ] {
        assert_eq!(origin.duplicate(), origin);
    }
}

#[test]
fn message_decodes_the_canonical_shape() {
    assert_eq!(
        decode("{\"from\":{\"channel\":\"tg\",\"chat_id\":42,\"user_id\":42},\"to\":{\"channel\":\"brain\",\"name\":\"x\"},\"text\":\"hi\"}"),
        Ok(Message {
            from: Origin::Tg { chat_id: 42, user_id: Some(42) },
            to: Origin::Brain { name: "x".to_string() },
            text: string("hi"),
        })
    );
}

#[test]
fn message_carries_any_payload() {
    let around = |text: &str| {
        format!("{{\"from\":{{\"channel\":\"brain\",\"name\":\"a\"}},\"to\":{{\"channel\":\"brain\",\"name\":\"b\"}},\"text\":{}}}", text)
    };
    for text in ["null", "true", "5", "1.5", "\"s\"", "[1,[2,{\"k\":null}]]", "{\"from\":5}"] {
        let message = decode(&around(text)).unwrap();
        assert_eq!(message.text, json(text));
    }
}

#[test]
fn message_ignores_members_it_does_not_know() {
    assert_eq!(
        decode("{\"id\":1,\"from\":{\"channel\":\"brain\",\"name\":\"a\",\"x\":[]},\"to\":{\"channel\":\"tg\",\"chat_id\":1},\"text\":null,\"more\":{}}"),
        Ok(Message {
            from: Origin::Brain { name: "a".to_string() },
            to: Origin::Tg { chat_id: 1, user_id: None },
            text: Json::Null,
        })
    );
}

#[test]
fn message_refuses_a_sender_channel_that_is_no_string() {
    assert_eq!(decode("{\"from\":{\"channel\":5}}"), Err(DecodeError::ChannelNotString));
    assert_eq!(decode("{\"from\":{\"channel\":null},\"to\":{\"channel\":\"brain\",\"name\":\"x\"},\"text\":\"hi\"}"), Err(DecodeError::ChannelNotString));
    assert_eq!(decode("{\"from\":{\"channel\":[\"tg\"],\"chat_id\":1},\"to\":{\"channel\":\"brain\",\"name\":\"x\"},\"text\":\"hi\"}"), Err(DecodeError::ChannelNotString));
}

#[test]
fn message_refuses_any_other_shape() {
    let shape = Err(DecodeError::Shape);
    assert_eq!(decode("{\"from\": 5}"), shape);
    assert_eq!(decode("5"), shape);
    assert_eq!(decode("[]"), shape);
    assert_eq!(decode("{}"), shape);
    assert_eq!(decode("\"not json\""), shape);
    assert_eq!(decode("{\"from\":{\"chat_id\":1},\"to\":{\"channel\":\"brain\",\"name\":\"x\"},\"text\":\"hi\"}"), shape);
    assert_eq!(decode("{\"from\":{\"channel\":\"irc\"},\"to\":{\"channel\":\"brain\",\"name\":\"x\"},\"text\":\"hi\"}"), shape);
    assert_eq!(decode("{\"from\":{\"channel\":\"brain\",\"name\":\"x\"},\"to\":{\"channel\":5},\"text\":\"hi\"}"), shape);
    assert_eq!(decode("{\"from\":{\"channel\":\"brain\",\"name\":\"x\"},\"text\":\"hi\"}"), shape);
    assert_eq!(decode("{\"to\":{\"channel\":\"brain\",\"name\":\"x\"},\"text\":\"hi\"}"), shape);
    assert_eq!(decode("{\"from\":{\"channel\":\"brain\",\"name\":\"x\"},\"to\":{\"channel\":\"brain\",\"name\":\"x\"}}"), shape);
}

#[test]
fn message_encodes_its_three_members() {
    let message = Message {
        from: Origin::Brain { name: "niege".to_string() },
        to: Origin::Tg { chat_id: 42, user_id: None },
        text: Json::Array(vec![string("a"), string("b")]),
    };
    assert_eq!(
        message.encode(),
        Json::Object(vec![
            member("from", Json::Object(vec![member("channel", string("brain")), member("name", string("niege"))])),
            member(
                "to",
                Json::Object(vec![
                    member("channel", string("tg")),
                    member("chat_id", Json::Number(Number::Int(42))),
                    member("user_id", Json::Null),
                ])
            ),
            member("text", Json::Array(vec![string("a"), string("b")])),
        ])
    );
}

#[test]
fn decoding_undoes_encoding() {
    let origins = || {
        vec![
            Origin::Tg { chat_id: 42, user_id: Some(42) },
            Origin::Tg { chat_id: -5, user_id: Some(i64::MAX) },
            Origin::Tg { chat_id: i64::MIN, user_id: None },
            Origin::Brain { name: "niege".to_string() },
            Origin::Brain { name: "с пробелом \"и\" кавычками".to_string() },
        ]
    };
    let texts = || {
        vec![
            Json::Null,
            string("hi"),
            Json::Number(Number::Uint(u64::MAX)),
            Json::Number(Number::Real("0.1".to_string())),
            Json::Array(vec![Json::Bool(false), Json::Object(vec![member("from", Json::Null)])]),
            Json::Object(vec![member("channel", Json::Number(Number::Int(5)))]),
        ]
    };
    for from in origins() {
        for to in origins() {
            for text in texts() {
                let message = Message { from: from.duplicate(), to: to.duplicate(), text };
                assert_eq!(Message::decode(&message.encode()), Ok(message));
            }
        }
    }
}
