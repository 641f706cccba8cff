use interra_client::auth::authorize;
use interra_client::config::{parse_port, validate_settings};
use interra_client::errors::ClientError;

#[test]
fn ports_parse_within_range() {
    assert_eq!(parse_port("1"), Ok(1));
    assert_eq!(parse_port("8080"), Ok(8080));
    assert_eq!(parse_port("65535"), Ok(65535));
    assert_eq!(parse_port("007"), Ok(7));
}

#[test]
fn bad_ports_are_configuration_errors() {
    assert_eq!(parse_port(""), Err(ClientError::Configuration));
    assert_eq!(parse_port("0"), Err(ClientError::Configuration));
    assert_eq!(parse_port("65536"), Err(ClientError::Configuration));
    assert_eq!(parse_port("99999999999999999999"), Err(ClientError::Configuration));
    assert_eq!(parse_port("80a"), Err(ClientError::Configuration));
    assert_eq!(parse_port("-1"), Err(ClientError::Configuration));
    assert_eq!(parse_port("8 0"), Err(ClientError::Configuration));
}

#[test]
fn settings_validate_when_complete() {
    let settings = validate_settings(
        Some("hub.local".to_string()),
        Some("5000".to_string()),
        Some("user".to_string()),
        Some("pass".to_string()),
    )
    .unwrap();
    assert_eq!(settings.host, "hub.local");
    assert_eq!(settings.port, 5000);
    assert_eq!(settings.username, "user");
    assert_eq!(settings.password, "pass");
}

#[test]
fn missing_or_malformed_settings_are_fatal() {
    let err = validate_settings(
        None,
        Some("5000".to_string()),
        Some("u".to_string()),
        Some("p".to_string()),
    );
    assert!(matches!(err, Err(ClientError::Configuration)));
    let err = validate_settings(
        Some("h".to_string()),
        Some("not a port".to_string()),
        Some("u".to_string()),
        Some("p".to_string()),
    );
    assert!(matches!(err, Err(ClientError::Configuration)));
    let err = validate_settings(
        Some("h".to_string()),
        Some("5000".to_string()),
        None,
        Some("p".to_string()),
    );
    assert!(matches!(err, Err(ClientError::Configuration)));
    let err = validate_settings(
        Some("h".to_string()),
        Some("5000".to_string()),
        Some("u".to_string()),
        None,
    );
    assert!(matches!(err, Err(ClientError::Configuration)));
}

#[test]
fn matching_token_authorizes() {
    assert!(authorize(Some("sesame"), "sesame").is_ok());
}

#[test]
fn decoy_tokens_get_called_out() {
    let err = authorize(Some("not what you think it is"), "sesame").unwrap_err();
    assert_eq!(err.message, "nice try");
    let err = authorize(Some("what you think it is"), "sesame").unwrap_err();
    assert_eq!(err.message, "nice try");
}

#[test]
fn other_tokens_are_refused() {
    let err = authorize(Some("wrong"), "sesame").unwrap_err();
    assert_eq!(err.message, "who are you");
    let err = authorize(None, "sesame").unwrap_err();
    assert_eq!(err.message, "who are you");
}

#[test]
fn decoy_that_matches_the_expected_token_authorizes() {
    assert!(authorize(Some("not what you think it is"), "not what you think it is").is_ok());
}
