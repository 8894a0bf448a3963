use huelight::client::{validate_headers, Header};
use huelight::error::CoreError;

#[test]
fn header_to_header_map_invalid_header_name_gives_invalid_name_error() {
    let h_name = "";
    let h_value = "value";

    let header = Header::new(h_name, h_value);

    let result = validate_headers(&vec![header]);

    assert!(matches!(result, Err(CoreError::InvalidReqwestHeaderName(_))));
}

#[test]
fn header_to_header_map_invalid_header_value_gives_invalid_value_error() {
    let h_name = "valid-name";
    let h_value = "Control\x01char";

    let header = Header::new(h_name, h_value);

    let result = validate_headers(&vec![header]);

    assert!(matches!(result, Err(CoreError::InvalidReqwestHeaderValue(_))));
}

#[test]
fn header_to_header_map_valid_header_value_and_name_gives_headermap() {
    let h_name = "Content-Type";
    let h_value = "application/json";

    let header = Header::new(h_name, h_value);

    let result = validate_headers(&vec![header]);

    let mut header_map = reqwest::header::HeaderMap::new();
    for (name, value) in result.unwrap() {
        header_map.append(name, value);
    }
    let val = header_map.get(h_name);
    let hv = val.unwrap().to_str().unwrap();
    assert_eq!(hv, h_value);
}

#[test]
fn first_invalid_header_decides_the_error() {
    let headers = vec![
        Header::new("Accept", "text/plain"),
        Header::new("X-Ok", "bad\nvalue"),
        Header::new("bad name", "fine"),
    ];
    assert!(matches!(
        validate_headers(&headers),
        Err(CoreError::InvalidReqwestHeaderValue(_))
    ));
}

#[test]
fn header_name_with_a_space_is_invalid() {
    let headers = vec![Header::new("Content Type", "application/json")];
    assert!(matches!(
        validate_headers(&headers),
        Err(CoreError::InvalidReqwestHeaderName(_))
    ));
}

#[test]
fn header_value_may_hold_a_tab_and_non_ascii() {
    let headers = vec![Header::new("X-Note", "a\tb \u{e9}")];
    let pairs = validate_headers(&headers).unwrap();
    assert_eq!(pairs.len(), 1);
    assert_eq!(pairs[0].0.as_str(), "x-note");
}

#[test]
fn header_name_outside_ascii_is_invalid() {
    let headers = vec![Header::new("caf\u{e9}", "x")];
    assert!(matches!(
        validate_headers(&headers),
        Err(CoreError::InvalidReqwestHeaderName(_))
    ));
}

#[test]
fn no_headers_validate_to_nothing() {
    assert_eq!(validate_headers(&Vec::new()).unwrap().len(), 0);
}
