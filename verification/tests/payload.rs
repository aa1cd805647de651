use mmrs::MMBody;

#[test]
fn create_body() {
    let x: MMBody = MMBody::new();
    assert_eq!(x.text, None);
}

#[test]
fn modify_body() {
    let mut x: MMBody = MMBody::new();

    x.text = Some("Hello world!".to_string());
    assert_eq!(x.text, Some("Hello world!".to_string()));
}

#[test]
fn json_check() {
    let x: MMBody = MMBody {
        text: Some("Hello, world!".to_string()),
        channel: None,
        username: None,
        icon_url: None,
        icon_emoji: None,
        attachments: None,
        message_type: None,
        props: None,
    };

    let body = x.to_json().unwrap();

    assert_eq!(body, "{\"text\":\"Hello, world!\"}");
}

#[test]
fn empty_payload_yields_empty_object() {
    let x: MMBody = MMBody::new();
    assert_eq!(x.to_json().unwrap(), "{}");
}

#[test]
fn every_field_starts_unset() {
    let x: MMBody = MMBody::new();
    assert_eq!(x.text, None);
    assert_eq!(x.channel, None);
    assert_eq!(x.username, None);
    assert_eq!(x.icon_url, None);
    assert_eq!(x.icon_emoji, None);
    assert_eq!(x.attachments, None);
    assert_eq!(x.message_type, None);
    assert_eq!(x.props, None);
}

#[test]
fn every_field_round_trips() {
    let mut x: MMBody = MMBody::new();
    x.text = Some("a".to_string());
    x.channel = Some("b".to_string());
    x.username = Some("c".to_string());
    x.icon_url = Some("d".to_string());
    x.icon_emoji = Some("e".to_string());
    x.attachments = Some("f".to_string());
    x.message_type = Some("g".to_string());
    x.props = Some("h".to_string());
    assert_eq!(x.text, Some("a".to_string()));
    assert_eq!(x.channel, Some("b".to_string()));
    assert_eq!(x.username, Some("c".to_string()));
    assert_eq!(x.icon_url, Some("d".to_string()));
    assert_eq!(x.icon_emoji, Some("e".to_string()));
    assert_eq!(x.attachments, Some("f".to_string()));
    assert_eq!(x.message_type, Some("g".to_string()));
    assert_eq!(x.props, Some("h".to_string()));
}

#[test]
fn all_fields_serialize_in_declaration_order() {
    let x: MMBody = MMBody {
        text: Some("a".to_string()),
        channel: Some("b".to_string()),
        username: Some("c".to_string()),
        icon_url: Some("d".to_string()),
        icon_emoji: Some("e".to_string()),
        attachments: Some("f".to_string()),
        message_type: Some("g".to_string()),
        props: Some("h".to_string()),
    };
    assert_eq!(
        x.to_json().unwrap(),
        "{\"text\":\"a\",\"channel\":\"b\",\"username\":\"c\",\"icon_url\":\"d\",\
         \"icon_emoji\":\"e\",\"attachments\":\"f\",\"type\":\"g\",\"props\":\"h\"}"
    );
}

#[test]
fn unset_fields_are_omitted_not_null() {
    let mut x: MMBody = MMBody::new();
    x.channel = Some("town-square".to_string());
    x.props = Some("p".to_string());
    let body = x.to_json().unwrap();
    assert_eq!(body, "{\"channel\":\"town-square\",\"props\":\"p\"}");
    assert!(!body.contains("null"));
    assert!(!body.contains("text"));
    assert!(!body.contains("username"));
}

#[test]
fn message_type_serializes_under_wire_key_type() {
    let mut x: MMBody = MMBody::new();
    x.message_type = Some("custom_slash".to_string());
    assert_eq!(x.to_json().unwrap(), "{\"type\":\"custom_slash\"}");
}

#[test]
fn identical_assignments_serialize_identically() {
    let mut x: MMBody = MMBody::new();
    x.text = Some("same".to_string());
    x.icon_emoji = Some(":tada:".to_string());
    let mut y: MMBody = MMBody::new();
    y.text = Some("same".to_string());
    y.icon_emoji = Some(":tada:".to_string());
    assert_eq!(x.to_json().unwrap(), y.to_json().unwrap());
}

#[test]
fn special_characters_are_escaped() {
    let mut x: MMBody = MMBody::new();
    x.text = Some("a\"b\\c\nd\te\rf\u{8}g\u{c}h\u{1}i\u{1f}j".to_string());
    assert_eq!(
        x.to_json().unwrap(),
        "{\"text\":\"a\\\"b\\\\c\\nd\\te\\rf\\bg\\fh\\u0001i\\u001fj\"}"
    );
}

#[test]
fn escaped_output_matches_reference_encoder() {
    let original = "line1\nline2\t\"quoted\" \\slash\\ \u{1}control\u{1f} unicode: \u{e9}\u{4e16}";
    let mut x: MMBody = MMBody::new();
    x.text = Some(original.to_string());
    let body = x.to_json().unwrap();

    let mut object = serde_json::Map::new();
    object.insert(
        "text".to_string(),
        serde_json::Value::String(original.to_string()),
    );
    let reference = serde_json::to_string(&serde_json::Value::Object(object)).unwrap();
    assert_eq!(body, reference);

    let parsed: serde_json::Value = serde_json::from_str(&body).unwrap();
    assert_eq!(parsed.get("text").unwrap().as_str().unwrap(), original);
}
