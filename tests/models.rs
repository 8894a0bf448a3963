use huelight::json::{decimal_text, Json};
use huelight::models::createuser::User;
use huelight::models::light::{parse_light_id, LightState};

fn parse(text: &str) -> serde_json::Value {
    serde_json::from_str(text).unwrap()
}

#[test]
fn user_serialization_omits_username_when_none() {
    let user = User::with_devicetype("device");
    let serialized = user.to_json_text();
    assert_eq!("{\"devicetype\":\"device\"}".to_string(), serialized);
}

#[test]
fn user_serialization_omits_devicetype_when_none() {
    let user = User::with_username("myusername");
    let serialized = user.to_json_text();
    assert_eq!("{\"username\":\"myusername\"}".to_string(), serialized);
}

#[test]
fn user_serialization_escapes_quotes() {
    let user = User::with_devicetype("my \"lamp\"");
    assert_eq!(user.to_json_text(), "{\"devicetype\":\"my \\\"lamp\\\"\"}");
    assert_eq!(user.devicetype(), Some("my \"lamp\""));
    assert_eq!(user.username(), None);
}

#[test]
fn light_state_serialization_omits_on_when_none() {
    let light_state = LightState::default()
        .with_brightness(10)
        .with_hue(11)
        .with_saturation(12);

    let expected = parse(r#"{"bri": 10, "hue": 11, "sat": 12}"#);

    let serialized = light_state.to_json_text();
    let actual = parse(&serialized);

    assert_eq!(expected, actual);
}

#[test]
fn light_state_serialization_omits_bri_when_none() {
    let light_state = LightState::default()
        .with_on(true)
        .with_hue(11)
        .with_saturation(12);

    let expected = parse(r#"{"on": true, "hue": 11, "sat": 12}"#);

    let serialized = light_state.to_json_text();
    let actual = parse(&serialized);

    assert_eq!(expected, actual);
}

#[test]
fn light_state_serialization_omits_hue_when_none() {
    let light_state = LightState::default()
        .with_on(true)
        .with_brightness(11)
        .with_saturation(12);

    let expected = parse(r#"{"on": true, "bri": 11, "sat": 12}"#);

    let serialized = light_state.to_json_text();
    let actual = parse(&serialized);

    assert_eq!(expected, actual);
}

#[test]
fn light_state_serialization_omits_sat_when_none() {
    let light_state = LightState::default()
        .with_on(true)
        .with_hue(11)
        .with_brightness(12);

    let expected = parse(r#"{"on": true, "hue": 11, "bri": 12}"#);

    let serialized = light_state.to_json_text();
    let actual = parse(&serialized);

    assert_eq!(expected, actual);
}

#[test]
fn light_state_text_keeps_field_order_and_has_no_null() {
    let s = LightState::default().with_saturation(0).with_on(false).with_hue(65535);
    assert_eq!(s.to_json_text(), "{\"on\":false,\"hue\":65535,\"sat\":0}");
    assert_eq!(LightState::default().to_json_text(), "{}");
}

#[test]
fn light_state_decodes_from_its_members() {
    let s = LightState::default().with_on(true).with_brightness(254);
    let j = Json::Object(s.json_members());
    assert_eq!(LightState::from_json(&j), Some(s));
}

#[test]
fn light_state_rejects_out_of_range_and_accepts_null() {
    let j = Json::Object(vec![
        ("bri".to_string(), Json::Number(Some(256))),
    ]);
    assert_eq!(LightState::from_json(&j), None);
    let j = Json::Object(vec![
        ("bri".to_string(), Json::Null),
        ("xy".to_string(), Json::Array(vec![])),
        ("hue".to_string(), Json::Number(Some(0))),
    ]);
    assert_eq!(
        LightState::from_json(&j),
        Some(LightState::default().with_hue(0))
    );
    let j = Json::Object(vec![("on".to_string(), Json::Number(Some(1)))]);
    assert_eq!(LightState::from_json(&j), None);
}

#[test]
fn decimal_text_writes_digits() {
    assert_eq!(decimal_text(0), "0");
    assert_eq!(decimal_text(7), "7");
    assert_eq!(decimal_text(65535), "65535");
    assert_eq!(decimal_text(u64::MAX), "18446744073709551615");
}

#[test]
fn light_ids_are_decimal_and_fit_in_32_bits() {
    assert_eq!(parse_light_id("1"), Some(1));
    assert_eq!(parse_light_id("007"), Some(7));
    assert_eq!(parse_light_id("4294967295"), Some(u32::MAX));
    assert_eq!(parse_light_id("4294967296"), None);
    assert_eq!(parse_light_id(""), None);
    assert_eq!(parse_light_id("1a"), None);
    assert_eq!(parse_light_id("-1"), None);
}

#[test]
fn user_serialization_escapes_control_characters() {
    let user = User::with_devicetype("a\u{1}b\n\\\u{1f}");
    assert_eq!(
        user.to_json_text(),
        "{\"devicetype\":\"a\\u0001b\\n\\\\\\u001f\"}"
    );
}
