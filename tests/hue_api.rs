use std::cell::RefCell;

use huelight::client::{Header, HueClient};
use huelight::error::{CoreError, CoreResult, HueBridgeError};
use huelight::hue_api::{
    async_create_user, async_get_all_lights, create_user_from_text, describe_light,
    get_all_lights_from_text, set_light_state_request, toggle_message, toggled_state, truncated,
    HueApi, HueApiV1,
};
use huelight::logger::{ILogger, Logger};
use huelight::models::hueerror::HueResponseEntry;
use huelight::models::light::{Light, LightState};

/// A transport that answers every request with fixed text and remembers
/// what it was asked.
struct MockHueClient {
    answer: String,
    requests: RefCell<Vec<(String, String, usize)>>,
}

impl MockHueClient {
    fn new(answer: &str) -> Self {
        MockHueClient {
            answer: answer.to_string(),
            requests: RefCell::new(Vec::new()),
        }
    }
}

impl HueClient for MockHueClient {
    fn post_json(&mut self, url: &str, body: &str, headers: Vec<Header>) -> CoreResult<String> {
        self.requests
            .borrow_mut()
            .push((url.to_string(), body.to_string(), headers.len()));
        Ok(self.answer.clone())
    }

    fn get(&mut self, url: &str, headers: Vec<Header>) -> CoreResult<String> {
        self.requests
            .borrow_mut()
            .push((url.to_string(), String::new(), headers.len()));
        Ok(self.answer.clone())
    }

    fn put_json(&mut self, url: &str, body: &str, headers: Vec<Header>) -> CoreResult<String> {
        self.requests
            .borrow_mut()
            .push((url.to_string(), body.to_string(), headers.len()));
        Ok(self.answer.clone())
    }
}

/// A transport that never reaches the bridge.
struct Unreachable;

impl HueClient for Unreachable {
    fn post_json(&mut self, _url: &str, _body: &str, _headers: Vec<Header>) -> CoreResult<String> {
        Err(CoreError::UnexpectedResponse("unreachable".to_string()))
    }

    fn get(&mut self, _url: &str, _headers: Vec<Header>) -> CoreResult<String> {
        Err(CoreError::UnexpectedResponse("unreachable".to_string()))
    }

    fn put_json(&mut self, _url: &str, _body: &str, _headers: Vec<Header>) -> CoreResult<String> {
        Err(CoreError::UnexpectedResponse("unreachable".to_string()))
    }
}

const TWO_LIGHTS: &str = r#"{
    "1": {
        "state": {
            "on": true,
            "bri": 200,
            "hue": 50000,
            "sat": 150
        },
        "name": "Living Room Light",
        "type": "Extended color light"
    },
    "2": {
        "state": {
            "on": false,
            "bri": 100,
            "hue": 30000,
            "sat": 100
        },
        "name": "Bedroom Light",
        "type": "Dimmable light"
    }
}"#;

fn logged(logger: &Logger, text: &str) -> bool {
    logger.entries().iter().any(|entry| entry.contains(text))
}

#[test]
fn hue_api_async_create_user_successresponse_logs_username() {
    let mut mock_hue_client = MockHueClient::new(r#"[{"success":{"username":"testusername"}}]"#);
    let mut logger = Logger::default();

    let result = async_create_user("127.0.0.1", "device", &mut mock_hue_client, &mut logger);

    assert!(result.is_ok());
    assert!(logged(&logger, "User created successfully! Username: testusername"));
}

#[test]
fn client_async_create_user_successresponse_logs_username() {
    let mut fake_client = MockHueClient::new(r#"[{"success":{"username":"testusername"}}]"#);
    let mut logger = Logger::default();

    let result = async_create_user("127.0.0.1", "device", &mut fake_client, &mut logger);

    assert!(result.is_ok());
    assert!(logged(&logger, "User created successfully! Username: testusername"));
}

#[test]
fn create_user_returns_the_username_and_sends_the_device_type() {
    let mut client = MockHueClient::new(r#"[{"success":{"username":"testusername"}}]"#);
    let mut logger = Logger::default();

    let user = async_create_user("127.0.0.1", "device", &mut client, &mut logger).unwrap();

    assert_eq!(user.username(), Some("testusername"));
    assert_eq!(user.devicetype(), None);
    let requests = client.requests.borrow();
    assert_eq!(requests.len(), 1);
    assert_eq!(requests[0].0, "http://127.0.0.1/api");
    assert_eq!(requests[0].1, "{\"devicetype\":\"device\"}");
    assert_eq!(requests[0].2, 1);
}

#[test]
fn hue_api_async_create_user_errorresponse_logs_error() {
    let mut mock_hue_client = MockHueClient::new(
        r#"[{"error":{"type":101,"address":"/","description":"link button not pressed"}}]"#,
    );
    let mut logger = Logger::default();

    let result = async_create_user("127.0.0.1", "device", &mut mock_hue_client, &mut logger);

    assert!(matches!(
        result,
        Err(CoreError::Bridge(HueBridgeError::LinkButtonNotPressed))
    ));
    assert!(logged(
        &logger,
        "Error creating user: 101 - / - link button not pressed"
    ));
}

#[test]
fn create_user_other_error_keeps_code_and_description() {
    let mut logger = Logger::default();
    let result = create_user_from_text(
        r#"[{"error":{"type":7,"address":"/","description":"invalid value"}}]"#,
        &mut logger,
    );
    match result {
        Err(CoreError::Bridge(HueBridgeError::Other { code, message })) => {
            assert_eq!(code, "7");
            assert_eq!(message, "invalid value");
        }
        other => panic!("unexpected {:?}", other),
    }
    let result = create_user_from_text(
        r#"[{"error":{"type":-3,"address":"/","description":"odd"}}]"#,
        &mut logger,
    );
    assert!(matches!(
        result,
        Err(CoreError::Bridge(HueBridgeError::Other { ref code, .. })) if code == "-3"
    ));
}

#[test]
fn create_user_empty_answer_is_unexpected() {
    let mut logger = Logger::default();
    let result = create_user_from_text("[]", &mut logger);
    assert!(matches!(result, Err(CoreError::UnexpectedResponse(ref m)) if m.ends_with("Raw (truncated): []")));
    assert!(logged(&logger, "unrecognized JSON format"));
}

#[test]
fn create_user_unparseable_answer_is_a_serialization_error() {
    let mut logger = Logger::default();
    let result = create_user_from_text("not json at all", &mut logger);
    assert!(matches!(result, Err(CoreError::Serialization(_))));
    assert!(logged(
        &logger,
        "Failed to parse CreateUserResponse JSON: "
    ));
    assert!(logged(&logger, "Raw (truncated): not json at all"));

    let mut logger = Logger::default();
    let result = create_user_from_text(r#"[{"neither":1}]"#, &mut logger);
    assert!(matches!(result, Err(CoreError::Serialization(_))));
    assert_eq!(logger.entries().len(), 1);
}

#[test]
fn create_user_transport_failure_is_passed_on() {
    let mut logger = Logger::default();
    let result = async_create_user("127.0.0.1", "device", &mut Unreachable, &mut logger);
    assert!(matches!(result, Err(CoreError::UnexpectedResponse(ref m)) if m == "unreachable"));
    assert!(logger.entries().is_empty());
}

#[test]
fn hue_api_async_get_all_lights_logs_light_information() {
    let mock_hue_client = MockHueClient::new(TWO_LIGHTS);
    let logger = Logger::default();

    let mut api = HueApiV1::new(mock_hue_client, logger);

    let result = api.async_get_all_lights("123.12.123", "");

    let parsed_result = result.unwrap();
    let expected_light1 = Light {
        name: "Living Room Light".to_string(),
        _type: "Extended color light".to_string(),
        state: LightState::default()
            .with_on(true)
            .with_brightness(200)
            .with_hue(50000)
            .with_saturation(150),
    };

    let expected_light2 = Light {
        name: "Bedroom Light".to_string(),
        _type: "Dimmable light".to_string(),
        state: LightState::default()
            .with_on(false)
            .with_brightness(100)
            .with_hue(30000)
            .with_saturation(100),
    };

    let light1 = parsed_result.0.get(&1).unwrap();
    let light2 = parsed_result.0.get(&2).unwrap();

    assert_eq!(light1, &expected_light1);
    assert_eq!(light2, &expected_light2);
    assert_eq!(parsed_result.0.len(), 2);
    assert_eq!(
        api.client.requests.borrow()[0].0,
        "http://123.12.123/api//lights"
    );
}

#[test]
fn client_async_get_all_lights_logs_light_information() {
    let mut fake_client = MockHueClient::new(TWO_LIGHTS);
    let mut logger = Logger::default();

    let result = async_get_all_lights("127.0.0.1", "", &mut fake_client, &mut logger);

    assert!(result.is_ok());
    for (id, light) in &result.unwrap().0 {
        logger.log(&describe_light(*id, light));
    }
    assert!(logged(&logger, "Light ID: 1, On: true, Name: Living Room Light, Type: Extended color light, Brightness: 200, Hue: 50000, Saturation: 150"));
    assert!(logged(&logger, "Light ID: 2, On: false, Name: Bedroom Light, Type: Dimmable light, Brightness: 100, Hue: 30000, Saturation: 100"));
}

#[test]
fn lights_of_the_wrong_shape_are_a_serialization_error() {
    let mut logger = Logger::default();
    let result = get_all_lights_from_text(r#"{"x": {"state": {}, "name": "a", "type": "b"}}"#, &mut logger);
    assert!(matches!(result, Err(CoreError::Serialization(_))));
    assert!(logged(&logger, "Failed to parse lights JSON: "));
    let result = get_all_lights_from_text("[]", &mut logger);
    assert!(matches!(result, Err(CoreError::Serialization(_))));
}

#[test]
fn light_state_round_trips_through_the_lights_list() {
    let state = LightState::default()
        .with_on(true)
        .with_brightness(255)
        .with_hue(0)
        .with_saturation(1);
    let body = format!(
        "{{\"9\":{{\"state\":{},\"name\":\"n\",\"type\":\"t\"}}}}",
        state.to_json_text()
    );
    let mut logger = Logger::default();
    let lights = get_all_lights_from_text(&body, &mut logger).unwrap();
    assert_eq!(lights.0.get(&9).unwrap().state, state);
}

#[test]
fn async_set_light_state_invalid_response_returns_serialization_error() {
    let mock_hue_client = MockHueClient::new("this cannot be serialized");
    let logger = Logger::default();

    let state = LightState::default();

    let mut api = HueApiV1::new(mock_hue_client, logger);

    let result = api.async_set_light_state("ipaddress", "username", 1, &state);

    assert!(matches!(result, Err(CoreError::Serialization(_))));
    assert!(logged(&api.logger, "Raw (truncated): this cannot be serialized"));
}

#[test]
fn async_set_light_state_valid_response_returns_model() {
    let mock_hue_client = MockHueClient::new(
        r#"[ { "error": { "type": 7, "address": "/lights/2/state/bri", "description": "invalid value, null,, for parameter, bri" } }, { "success": { "/lights/2/state/on": false } }]"#,
    );
    let logger = Logger::default();
    let state = LightState::default();

    let mut api = HueApiV1::new(mock_hue_client, logger);

    let result = api
        .async_set_light_state("ipaddress", "username", 1, &state)
        .unwrap();

    assert_eq!(2, result.len());

    let has_success = result
        .iter()
        .any(|e| matches!(e, HueResponseEntry::Success { .. }));
    let has_error = result
        .iter()
        .any(|e| matches!(e, HueResponseEntry::Error { .. }));

    assert!(has_success);
    assert!(has_error);
    assert!(matches!(result[0], HueResponseEntry::Error { ref error } if error._type == 7));
    assert!(matches!(result[1], HueResponseEntry::Success { .. }));
}

#[test]
fn set_light_state_sends_only_set_fields() {
    let state = LightState::default().with_brightness(200);
    let (url, body) = set_light_state_request("10.0.0.2", "me", 42, &state);
    assert_eq!(url, "http://10.0.0.2/api/me/lights/42/state");
    assert_eq!(body, "{\"bri\":200}");
}

#[test]
fn toggle_reads_the_current_state() {
    let mut logger = Logger::default();
    let lights = get_all_lights_from_text(TWO_LIGHTS, &mut logger).unwrap();
    assert_eq!(
        toggled_state(&lights, 1).unwrap(),
        LightState::default().with_on(false)
    );
    assert_eq!(
        toggled_state(&lights, 2).unwrap(),
        LightState::default().with_on(true)
    );
    assert!(matches!(
        toggled_state(&lights, 3),
        Err(CoreError::Bridge(HueBridgeError::LightNotFound))
    ));
}

#[test]
fn toggle_message_looks_for_the_on_path() {
    let mut logger = Logger::default();
    let mut api = HueApiV1::new(
        MockHueClient::new(r#"[{"success":{"/lights/2/state/on":true}}]"#),
        Logger::default(),
    );
    let response = api
        .async_set_light_state("ip", "u", 2, &LightState::default().with_on(true))
        .unwrap();
    assert_eq!(toggle_message(&response, 2), "Successfully toggled the light 2!");
    assert_eq!(toggle_message(&response, 3), "Failed to toggle light 3!");
    logger.log("done");
    assert_eq!(logger.entries(), vec!["done\n".to_string()]);
}

#[test]
fn describe_light_reads_unset_as_off_and_zero() {
    let light = Light {
        state: LightState::default(),
        name: "Hall".to_string(),
        _type: "On/Off plug-in unit".to_string(),
    };
    assert_eq!(
        describe_light(5, &light),
        "Light ID: 5, On: false, Name: Hall, Type: On/Off plug-in unit, Brightness: 0, Hue: 0, Saturation: 0"
    );
}

#[test]
fn snippets_stop_at_two_hundred_characters() {
    let long: String = "\u{e9}".repeat(250);
    assert_eq!(truncated(&long).chars().count(), 200);
    assert_eq!(truncated("short"), "short");
}
