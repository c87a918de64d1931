use ruma_events::codec::EventJson;
use ruma_events::content::{AnyEventContent, CustomEventContent, EventType};
use ruma_events::error::{DecodeError, EventError, InvalidInput};
use ruma_events::events::typing::TypingEventContent;
use ruma_events::identifiers::{EventId, RoomId, UserId};
use ruma_events::json::{json_eq, JsonValue};
use ruma_events::event::TypedEvent;
use ruma_events::room::avatar::{AvatarEventContent, ImageInfo};
use ruma_events::room::join_rules::{JoinRule, JoinRulesEventContent};
use ruma_events::room::name::NameEventContent;
use ruma_events::unsigned::UnsignedData;

fn jstr(s: &str) -> JsonValue {
    JsonValue::Str(s.to_string())
}

fn jobj(fields: Vec<(&str, JsonValue)>) -> JsonValue {
    JsonValue::Obj(fields.into_iter().map(|(k, v)| (k.to_string(), v)).collect())
}

fn expect_err(r: Result<TypedEvent, EventError>) -> EventError {
    match r {
        Err(e) => e,
        Ok(_) => panic!("expected an error"),
    }
}

fn envelope(event_type: &str, content: JsonValue) -> JsonValue {
    jobj(vec![
        ("content", content),
        ("event_id", jstr("$h29iv0s8:example.com")),
        ("origin_server_ts", JsonValue::Int(1)),
        ("sender", jstr("@carl:example.com")),
        ("state_key", jstr("")),
        ("type", jstr(event_type)),
    ])
}

#[test]
fn valid_name_is_kept_verbatim() {
    let content = NameEventContent::new("The room name".to_string()).unwrap();
    assert_eq!(content.name(), Some("The room name"));
}

#[test]
fn name_of_255_bytes_is_accepted() {
    let name: String = std::iter::repeat('X').take(255).collect();
    let content = NameEventContent::new(name.clone()).unwrap();
    assert_eq!(content.name(), Some(name.as_str()));
}

#[test]
fn name_length_limit_counts_bytes_not_chars() {
    // 128 two-byte characters: 128 chars but 256 bytes, over the limit.
    let name: String = std::iter::repeat('\u{00e9}').take(128).collect();
    assert_eq!(name.len(), 256);
    let result = NameEventContent::new(name);
    assert_eq!(result.unwrap_err(), InvalidInput::NameTooLong);
}

#[test]
fn too_long_name_reports_its_reason() {
    let name: String = std::iter::repeat('X').take(256).collect();
    let err = NameEventContent::new(name).unwrap_err();
    assert_eq!(err, InvalidInput::NameTooLong);
    assert_eq!(
        err.reason(),
        "a room name cannot be more than 255 bytes".to_string()
    );
}

#[test]
fn round_trip_preserves_every_observable_field() {
    let event = TypedEvent {
        content: AnyEventContent::RoomName(
            NameEventContent::new("The room name".to_string()).unwrap(),
        ),
        event_id: EventId::parse("$h29iv0s8:example.com".to_string()).unwrap(),
        origin_server_ts: 1,
        prev_content: Some(AnyEventContent::RoomName(
            NameEventContent::new("The old name".to_string()).unwrap(),
        )),
        room_id: Some(RoomId::parse("!n8f893n9:example.com".to_string()).unwrap()),
        sender: UserId::parse("@carl:example.com".to_string()).unwrap(),
        state_key: Some("".to_string()),
        unsigned: UnsignedData {
            age: Some(100),
            transaction_id: None,
        },
    };

    let wire = event.serialize();
    let back = EventJson::from_value(wire).deserialize().unwrap();

    match &back.content {
        AnyEventContent::RoomName(c) => assert_eq!(c.name(), Some("The room name")),
        _ => panic!("wrong content kind after round trip"),
    }
    match &back.prev_content {
        Some(AnyEventContent::RoomName(c)) => assert_eq!(c.name(), Some("The old name")),
        _ => panic!("wrong previous content after round trip"),
    }
    assert_eq!(back.event_id.as_str(), "$h29iv0s8:example.com");
    assert_eq!(back.room_id.as_ref().map(|r| r.as_str()), Some("!n8f893n9:example.com"));
    assert_eq!(back.sender.as_str(), "@carl:example.com");
    assert_eq!(back.origin_server_ts, 1);
    assert_eq!(back.state_key.as_deref(), Some(""));
    assert_eq!(back.unsigned.age, Some(100));
    assert_eq!(back.unsigned.transaction_id, None);
    // Serializing again reproduces the same wire object.
    assert!(json_eq(&event.serialize(), &back.serialize()));
}

#[test]
fn unknown_discriminant_round_trips_losslessly() {
    let content = jobj(vec![
        ("gadget", jstr("spinner")),
        ("level", JsonValue::Int(3)),
        ("parts", JsonValue::Arr(vec![jstr("a"), jstr("b")])),
    ]);
    let wire = envelope("m.custom.widget", content.deep_clone());
    let event = EventJson::from_value(wire).deserialize().unwrap();

    match &event.content {
        AnyEventContent::Custom(c) => {
            assert_eq!(c.event_type, "m.custom.widget".to_string());
            assert!(json_eq(&c.data, &content));
        }
        _ => panic!("unknown discriminant must fall back to custom content"),
    }

    let reserialized = event.serialize();
    assert!(json_eq(reserialized.get("content").unwrap(), &content));
    match reserialized.get("type").unwrap() {
        JsonValue::Str(t) => assert_eq!(t, "m.custom.widget"),
        _ => panic!("type must be a string"),
    }
}

#[test]
fn serialized_output_omits_empty_unsigned_and_absent_prev_content() {
    let event = TypedEvent {
        content: AnyEventContent::RoomName(
            NameEventContent::new("The room name".to_string()).unwrap(),
        ),
        event_id: EventId::parse("$h29iv0s8:example.com".to_string()).unwrap(),
        origin_server_ts: 1,
        prev_content: None,
        room_id: None,
        sender: UserId::parse("@carl:example.com".to_string()).unwrap(),
        state_key: Some("".to_string()),
        unsigned: UnsignedData::default(),
    };
    let wire = event.serialize();
    assert!(wire.get("unsigned").is_none());
    assert!(wire.get("prev_content").is_none());
    assert!(wire.get("room_id").is_none());
    assert!(wire.get("content").is_some());
}

#[test]
fn malformed_envelopes_give_structural_errors() {
    let no_type = jobj(vec![
        ("content", jobj(vec![])),
        ("event_id", jstr("$h29iv0s8:example.com")),
        ("origin_server_ts", JsonValue::Int(1)),
        ("sender", jstr("@carl:example.com")),
    ]);
    assert_eq!(
        expect_err(EventJson::from_value(no_type).deserialize()),
        EventError::Decode(DecodeError::MissingType)
    );

    let bad_sender = envelope("m.room.name", jobj(vec![]));
    let bad_sender = match bad_sender {
        JsonValue::Obj(mut fields) => {
            for f in fields.iter_mut() {
                if f.0 == "sender" {
                    f.1 = jstr("not a user id");
                }
            }
            JsonValue::Obj(fields)
        }
        _ => unreachable!(),
    };
    assert_eq!(
        expect_err(EventJson::from_value(bad_sender).deserialize()),
        EventError::Decode(DecodeError::BadSender)
    );

    let not_object = jstr("just a string");
    assert_eq!(
        expect_err(EventJson::from_value(not_object).deserialize()),
        EventError::Decode(DecodeError::NotAnObject)
    );

    let bad_ts = envelope("m.room.name", jobj(vec![]));
    let bad_ts = match bad_ts {
        JsonValue::Obj(mut fields) => {
            for f in fields.iter_mut() {
                if f.0 == "origin_server_ts" {
                    f.1 = JsonValue::Int(-5);
                }
            }
            JsonValue::Obj(fields)
        }
        _ => unreachable!(),
    };
    assert_eq!(
        expect_err(EventJson::from_value(bad_ts).deserialize()),
        EventError::Decode(DecodeError::BadTimestamp)
    );
}

#[test]
fn validation_error_is_distinct_from_decode_error() {
    let long_name: String = std::iter::repeat('X').take(256).collect();
    let wire = envelope("m.room.name", jobj(vec![("name", JsonValue::Str(long_name))]));
    assert_eq!(
        expect_err(EventJson::from_value(wire).deserialize()),
        EventError::Invalid(InvalidInput::NameTooLong)
    );

    let bad_name_type = envelope("m.room.name", jobj(vec![("name", JsonValue::Int(5))]));
    assert_eq!(
        expect_err(EventJson::from_value(bad_name_type).deserialize()),
        EventError::Invalid(InvalidInput::BadNameField)
    );
}

#[test]
fn get_raw_is_available_when_validation_fails() {
    let long_name: String = std::iter::repeat('X').take(256).collect();
    let wire = envelope("m.room.name", jobj(vec![("name", JsonValue::Str(long_name.clone()))]));
    let holder = EventJson::from_value(wire);
    assert!(holder.deserialize().is_err());
    let raw = holder.get_raw();
    match raw.get("content").unwrap().get("name").unwrap() {
        JsonValue::Str(s) => assert_eq!(s, &long_name),
        _ => panic!("raw JSON must be intact"),
    }
}

#[test]
fn join_rules_decode_and_serialize() {
    let wire = envelope("m.room.join_rules", jobj(vec![("join_rule", jstr("invite"))]));
    let event = EventJson::from_value(wire).deserialize().unwrap();
    match &event.content {
        AnyEventContent::RoomJoinRules(c) => assert_eq!(c.join_rule, JoinRule::Invite),
        _ => panic!("expected a join rules event"),
    }
    let content = JoinRulesEventContent { join_rule: JoinRule::Public };
    assert!(json_eq(&content.to_json(), &jobj(vec![("join_rule", jstr("public"))])));
    assert_eq!(JoinRule::parse("knock"), Some(JoinRule::Knock));
    assert_eq!(JoinRule::parse("Knock"), None);
    assert_eq!(JoinRule::Private.as_str(), "private");

    let unknown = envelope("m.room.join_rules", jobj(vec![("join_rule", jstr("open"))]));
    assert_eq!(
        expect_err(EventJson::from_value(unknown).deserialize()),
        EventError::Invalid(InvalidInput::UnknownJoinRule)
    );
}

#[test]
fn typing_decode_and_serialize() {
    let wire = envelope(
        "m.typing",
        jobj(vec![(
            "user_ids",
            JsonValue::Arr(vec![jstr("@alice:example.com"), jstr("@bob:example.com")]),
        )]),
    );
    let event = EventJson::from_value(wire).deserialize().unwrap();
    match &event.content {
        AnyEventContent::Typing(c) => {
            assert_eq!(
                c.user_ids,
                vec!["@alice:example.com".to_string(), "@bob:example.com".to_string()]
            );
        }
        _ => panic!("expected a typing event"),
    }

    let content = TypingEventContent { user_ids: vec!["@carl:example.com".to_string()] };
    let expected = jobj(vec![(
        "user_ids",
        JsonValue::Arr(vec![jstr("@carl:example.com")]),
    )]);
    assert!(json_eq(&content.to_json(), &expected));

    let bad = envelope("m.typing", jobj(vec![("user_ids", jstr("@carl:example.com"))]));
    assert_eq!(
        expect_err(EventJson::from_value(bad).deserialize()),
        EventError::Invalid(InvalidInput::BadUserIdsField)
    );
}

#[test]
fn avatar_decode_and_serialize() {
    let wire = envelope(
        "m.room.avatar",
        jobj(vec![
            ("info", jobj(vec![("h", JsonValue::Int(32)), ("w", JsonValue::Int(64))])),
            ("url", jstr("mxc://example.com/abc123")),
        ]),
    );
    let event = EventJson::from_value(wire).deserialize().unwrap();
    let content = match &event.content {
        AnyEventContent::RoomAvatar(c) => c,
        _ => panic!("expected an avatar event"),
    };
    assert_eq!(content.url, "mxc://example.com/abc123".to_string());
    let info = content.info.as_ref().unwrap();
    assert_eq!(info.height, Some(32));
    assert_eq!(info.width, Some(64));
    assert_eq!(info.mimetype, None);

    let rebuilt = AvatarEventContent {
        info: Some(ImageInfo { height: Some(32), width: Some(64), mimetype: None, size: None }),
        url: content.url.clone(),
    };
    let reserialized = rebuilt.to_json();
    let expected = jobj(vec![
        ("info", jobj(vec![("h", JsonValue::Int(32)), ("w", JsonValue::Int(64))])),
        ("url", jstr("mxc://example.com/abc123")),
    ]);
    assert!(json_eq(&reserialized, &expected));

    let missing_url = envelope("m.room.avatar", jobj(vec![]));
    assert_eq!(
        expect_err(EventJson::from_value(missing_url).deserialize()),
        EventError::Invalid(InvalidInput::BadUrlField)
    );
}

#[test]
fn identifier_validation_consults_the_validator() {
    assert!(UserId::parse("@carl:example.com".to_string()).is_ok());
    assert!(UserId::parse("carl".to_string()).is_err());
    assert!(RoomId::parse("!n8f893n9:example.com".to_string()).is_ok());
    assert!(RoomId::parse("n8f893n9".to_string()).is_err());
    assert!(EventId::parse("$h29iv0s8:example.com".to_string()).is_ok());
    assert!(EventId::parse("h29iv0s8".to_string()).is_err());
}

#[test]
fn event_type_registry_is_open_and_exact() {
    assert_eq!(EventType::parse("m.room.name").as_str(), "m.room.name");
    assert_eq!(EventType::parse("M.ROOM.NAME").as_str(), "M.ROOM.NAME");
    match EventType::parse("m.custom.widget") {
        EventType::Custom(s) => assert_eq!(s, "m.custom.widget".to_string()),
        _ => panic!("unknown discriminants must stay custom"),
    }
    match EventType::parse("m.typing") {
        EventType::Typing => {}
        _ => panic!("known discriminants must be recognized"),
    }
}

#[test]
fn unsigned_with_transaction_id_round_trips() {
    let event = TypedEvent {
        content: AnyEventContent::Custom(CustomEventContent {
            event_type: "m.custom.widget".to_string(),
            data: jobj(vec![("k", JsonValue::Bool(true))]),
        }),
        event_id: EventId::parse("$h29iv0s8:example.com".to_string()).unwrap(),
        origin_server_ts: 42,
        prev_content: None,
        room_id: None,
        sender: UserId::parse("@carl:example.com".to_string()).unwrap(),
        state_key: None,
        unsigned: UnsignedData {
            age: None,
            transaction_id: Some("txn-1".to_string()),
        },
    };
    let back = EventJson::from_value(event.serialize()).deserialize().unwrap();
    assert_eq!(back.unsigned.transaction_id.as_deref(), Some("txn-1"));
    assert_eq!(back.unsigned.age, None);
    assert!(back.state_key.is_none());
}
