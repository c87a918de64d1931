use ruma_events::codec::EventJson;
use ruma_events::content::AnyEventContent;
use ruma_events::identifiers::{EventId, RoomId, UserId};
use ruma_events::json::{json_eq, JsonValue};
use ruma_events::event::TypedEvent;
use ruma_events::room::name::NameEventContent;
use ruma_events::unsigned::UnsignedData;

fn jstr(s: &str) -> JsonValue {
    JsonValue::Str(s.to_string())
}

fn jobj(fields: Vec<(&str, JsonValue)>) -> JsonValue {
    JsonValue::Obj(fields.into_iter().map(|(k, v)| (k.to_string(), v)).collect())
}

fn name_content(name: &str) -> NameEventContent {
    NameEventContent::new(name.to_string()).unwrap()
}

#[test]
fn serialization_with_optional_fields_as_none() {
    let name_event = TypedEvent {
        content: AnyEventContent::RoomName(name_content("The room name")),
        event_id: EventId::parse("$h29iv0s8:example.com".to_string()).unwrap(),
        origin_server_ts: 1,
        prev_content: None,
        room_id: None,
        sender: UserId::parse("@carl:example.com".to_string()).unwrap(),
        state_key: Some("".to_string()),
        unsigned: UnsignedData::default(),
    };

    let actual = name_event.serialize();
    let expected = jobj(vec![
        ("content", jobj(vec![("name", jstr("The room name"))])),
        ("event_id", jstr("$h29iv0s8:example.com")),
        ("origin_server_ts", JsonValue::Int(1)),
        ("sender", jstr("@carl:example.com")),
        ("state_key", jstr("")),
        ("type", jstr("m.room.name")),
    ]);

    assert!(json_eq(&actual, &expected));
}

#[test]
fn serialization_with_all_fields() {
    let name_event = TypedEvent {
        content: AnyEventContent::RoomName(name_content("The room name")),
        event_id: EventId::parse("$h29iv0s8:example.com".to_string()).unwrap(),
        origin_server_ts: 1,
        prev_content: Some(AnyEventContent::RoomName(name_content("The old name"))),
        room_id: Some(RoomId::parse("!n8f893n9:example.com".to_string()).unwrap()),
        sender: UserId::parse("@carl:example.com".to_string()).unwrap(),
        state_key: Some("".to_string()),
        unsigned: UnsignedData {
            age: Some(100),
            ..UnsignedData::default()
        },
    };

    let actual = name_event.serialize();
    let expected = jobj(vec![
        ("content", jobj(vec![("name", jstr("The room name"))])),
        ("event_id", jstr("$h29iv0s8:example.com")),
        ("origin_server_ts", JsonValue::Int(1)),
        ("prev_content", jobj(vec![("name", jstr("The old name"))])),
        ("room_id", jstr("!n8f893n9:example.com")),
        ("sender", jstr("@carl:example.com")),
        ("state_key", jstr("")),
        ("type", jstr("m.room.name")),
        ("unsigned", jobj(vec![("age", JsonValue::Int(100))])),
    ]);

    assert!(json_eq(&actual, &expected));
}

fn decoded_name(event_json: JsonValue) -> Option<String> {
    let event = EventJson::from_value(event_json).deserialize().unwrap();
    match event.content {
        AnyEventContent::RoomName(c) => c.name().map(|n| n.to_string()),
        _ => panic!("expected a room name event"),
    }
}

#[test]
fn absent_field_as_none() {
    let json_data = jobj(vec![
        ("content", jobj(vec![])),
        ("event_id", jstr("$h29iv0s8:example.com")),
        ("origin_server_ts", JsonValue::Int(1)),
        ("sender", jstr("@carl:example.com")),
        ("state_key", jstr("")),
        ("type", jstr("m.room.name")),
    ]);
    assert_eq!(decoded_name(json_data), None);
}

#[test]
fn name_fails_validation_when_too_long() {
    // "XXXX .." 256 times
    let long_string: String = std::iter::repeat('X').take(256).collect();
    assert_eq!(long_string.len(), 256);

    let long_content_json = jobj(vec![("name", JsonValue::Str(long_string))]);
    let result = NameEventContent::from_json(&long_content_json);
    assert!(result.is_err(), "Result should be invalid: {:?}", result);
}

#[test]
fn json_with_empty_name_creates_content_as_none() {
    let long_content_json = jobj(vec![("name", jstr(""))]);
    let content = NameEventContent::from_json(&long_content_json).unwrap();
    assert!(content.name().is_none());
}

#[test]
fn new_with_empty_name_creates_content_as_none() {
    let content = NameEventContent::new(String::new()).unwrap();
    assert!(content.name().is_none());
}

#[test]
fn null_field_as_none() {
    let json_data = jobj(vec![
        ("content", jobj(vec![("name", JsonValue::Null)])),
        ("event_id", jstr("$h29iv0s8:example.com")),
        ("origin_server_ts", JsonValue::Int(1)),
        ("sender", jstr("@carl:example.com")),
        ("state_key", jstr("")),
        ("type", jstr("m.room.name")),
    ]);
    assert_eq!(decoded_name(json_data), None);
}

#[test]
fn empty_string_as_none() {
    let json_data = jobj(vec![
        ("content", jobj(vec![("name", jstr(""))])),
        ("event_id", jstr("$h29iv0s8:example.com")),
        ("origin_server_ts", JsonValue::Int(1)),
        ("sender", jstr("@carl:example.com")),
        ("state_key", jstr("")),
        ("type", jstr("m.room.name")),
    ]);
    assert_eq!(decoded_name(json_data), None);
}

#[test]
fn nonempty_field_as_some() {
    let name = Some("The room name".to_string());
    let json_data = jobj(vec![
        ("content", jobj(vec![("name", jstr("The room name"))])),
        ("event_id", jstr("$h29iv0s8:example.com")),
        ("origin_server_ts", JsonValue::Int(1)),
        ("sender", jstr("@carl:example.com")),
        ("state_key", jstr("")),
        ("type", jstr("m.room.name")),
    ]);

    assert_eq!(decoded_name(json_data), name);
}
