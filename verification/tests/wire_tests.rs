use interra_client::engine::LineClass;
use interra_client::errors::ClientError;
use interra_client::models::FanSpeed;
use interra_client::wire::{
    classify_line, decode_ac_info, decode_ac_records, decode_light_records, decode_lights,
    extract_token, probe_line_no_data, reply_data,
};

#[test]
fn heartbeat_echo_lines_are_classified_as_echoes() {
    let echo = "{\"data\":{\"readValue\":\"1\",\"isActive\":true,\"id\":108},\"meta\":{\"requestType\":19}}";
    assert_eq!(classify_line(echo), LineClass::Echo);
}

#[test]
fn real_lines_are_classified_as_replies() {
    let reply = "{\"data\":{\"id\":13,\"isActive\":true},\"meta\":{}}";
    assert_eq!(classify_line(reply), LineClass::Reply);
    let no_id = "{\"data\":{},\"meta\":{}}";
    assert_eq!(classify_line(no_id), LineClass::Reply);
    let no_data = "{\"meta\":{}}";
    assert_eq!(classify_line(no_data), LineClass::Reply);
}

#[test]
fn unparseable_lines_are_malformed() {
    assert_eq!(classify_line("not json"), LineClass::Malformed);
    assert_eq!(classify_line(""), LineClass::Malformed);
}

#[test]
fn echo_stream_ends_at_first_real_line() {
    let lines = vec![
        "{\"data\":{\"id\":108},\"meta\":{}}",
        "{\"data\":{\"id\":108},\"meta\":{}}",
        "{\"data\":[{\"id\":13,\"isActive\":true}],\"meta\":{}}",
    ];
    let classes: Vec<LineClass> = lines.iter().map(|l| classify_line(l)).collect();
    let picked = interra_client::engine::select_reply(&classes);
    assert_eq!(picked, Some(2));
}

#[test]
fn probe_acknowledgement_shape() {
    assert!(probe_line_no_data("{\"meta\":{\"requestType\":19}}"));
    assert!(!probe_line_no_data("{\"data\":{\"id\":108},\"meta\":{}}"));
    assert!(!probe_line_no_data("garbage"));
}

#[test]
fn token_extraction() {
    assert_eq!(
        extract_token("{\"meta\":{\"authID\":\"abc123\"},\"data\":null}"),
        Ok("\"abc123\"".to_string())
    );
    assert_eq!(extract_token("{\"meta\":{}}"), Ok("null".to_string()));
    assert_eq!(extract_token("{}"), Ok("null".to_string()));
    assert_eq!(extract_token("no json here"), Err(ClientError::Transport));
}

#[test]
fn reply_data_extraction() {
    assert_eq!(
        reply_data("{\"data\":[1,2],\"meta\":{}}"),
        Ok("[1,2]".to_string())
    );
    assert_eq!(reply_data("{\"meta\":{}}"), Ok("null".to_string()));
    assert_eq!(reply_data("oops"), Err(ClientError::MalformedResponse));
}

#[test]
fn stubbed_lights_round_trip() {
    // A stubbed hub reply carrying the two fixtures.
    let line = "{\"data\":[{\"id\":13,\"isActive\":true},{\"id\":146,\"isActive\":false}],\"meta\":{}}";
    let data = reply_data(line).unwrap();
    let lights = decode_lights(&data).unwrap();
    assert_eq!(lights.len(), 2);
    assert_eq!(lights[0].id, "ceilingLights");
    assert!(lights[0].active);
    assert_eq!(lights[1].id, "shelfLight");
    assert!(!lights[1].active);
}

#[test]
fn unknown_light_ids_decode_to_the_sentinel() {
    let lights = decode_lights("[{\"id\":9,\"isActive\":true}]").unwrap();
    assert_eq!(lights.len(), 1);
    assert_eq!(lights[0].id, "???");
}

#[test]
fn malformed_light_arrays_are_rejected() {
    assert_eq!(decode_light_records("not json"), Err(ClientError::MalformedResponse));
    assert_eq!(decode_light_records("{}"), Err(ClientError::MalformedResponse));
    assert_eq!(
        decode_light_records("[{\"isActive\":true}]"),
        Err(ClientError::MalformedResponse)
    );
    assert_eq!(
        decode_light_records("[{\"id\":70000,\"isActive\":true}]"),
        Err(ClientError::MalformedResponse)
    );
    assert_eq!(
        decode_light_records("[{\"id\":13}]"),
        Err(ClientError::MalformedResponse)
    );
    assert_eq!(
        decode_light_records("[{\"id\":13,\"isActive\":\"yes\"}]"),
        Err(ClientError::MalformedResponse)
    );
}

#[test]
fn ac_records_decode_with_defaulted_value() {
    let records = decode_ac_records(
        "[{\"id\":57,\"isActive\":true},{\"id\":62,\"isActive\":true,\"readValue\":\"22\"}]",
    )
    .unwrap();
    assert_eq!(records.len(), 2);
    assert_eq!(records[0].id, 57);
    assert!(records[0].active);
    assert_eq!(records[0].value, "");
    assert_eq!(records[1].id, 62);
    assert_eq!(records[1].value, "22");
}

#[test]
fn malformed_ac_arrays_are_rejected() {
    assert_eq!(decode_ac_records("null"), Err(ClientError::MalformedResponse));
    assert_eq!(
        decode_ac_records("[{\"id\":300,\"isActive\":true}]"),
        Err(ClientError::MalformedResponse)
    );
    assert_eq!(
        decode_ac_records("[{\"id\":62,\"isActive\":true,\"readValue\":5}]"),
        Err(ClientError::MalformedResponse)
    );
}

#[test]
fn ac_info_folds_the_records() {
    let data = "[{\"id\":60,\"isActive\":true,\"readValue\":\"23.40\"},\
                {\"id\":62,\"isActive\":true,\"readValue\":\"22\"},\
                {\"id\":67,\"isActive\":true,\"readValue\":\"01\"},\
                {\"id\":57,\"isActive\":false}]";
    let ac = decode_ac_info(data).unwrap();
    assert_eq!(ac.room_temp.as_deref(), Some("23.40"));
    assert_eq!(ac.set_temp, Some(22));
    assert_eq!(ac.fan_speed, Some(FanSpeed::Slow));
    assert_eq!(ac.active, Some(false));
}
