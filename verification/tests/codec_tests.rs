use interra_client::codec::{
    encode_action_payload, encode_auth_frame, encode_frame, encode_query_payload,
    encode_switch_light_payload, probe_frame, str_eq, u64_dec,
};

#[test]
fn decimal_rendering() {
    assert_eq!(u64_dec(0), "0");
    assert_eq!(u64_dec(7), "7");
    assert_eq!(u64_dec(108), "108");
    assert_eq!(u64_dec(65535), "65535");
    assert_eq!(u64_dec(500), "500");
}

#[test]
fn string_equality() {
    assert!(str_eq("", ""));
    assert!(str_eq("abc", "abc"));
    assert!(!str_eq("abc", "abd"));
    assert!(!str_eq("abc", "ab"));
    assert!(!str_eq("ab", "abc"));
}

#[test]
fn frame_without_data_or_flags() {
    let frame = encode_frame(None, 20, "\"tok\"", None);
    assert_eq!(
        frame,
        "{'data':null,'meta':{'authID':\"tok\",'content_type':null,'error':null,\
         'errorCode':null,'flags':null,'requestType':20,'scheme':null,\
         'serverDateTime':null,'server_version':null,'version':null}}\n"
    );
}

#[test]
fn frame_with_data_and_flags() {
    let frame = encode_frame(Some("{'x':1}"), 14, "null", Some("{'f':2}"));
    assert_eq!(
        frame,
        "{'data':{'x':1},'meta':{'authID':null,'content_type':null,'error':null,\
         'errorCode':null,'flags':{'f':2},'requestType':14,'scheme':null,\
         'serverDateTime':null,'server_version':null,'version':null}}\n"
    );
}

#[test]
fn auth_frame() {
    let frame = encode_auth_frame("user", "pass");
    assert_eq!(
        frame,
        "{'data':{'userName':'user','password':'pass'},'meta':{'authID':null,\
         'content_type':null,'error':null,'errorCode':null,'flags':null,\
         'requestType':500,'scheme':null,'serverDateTime':null,\
         'server_version':null,'version':null}}\n"
    );
}

#[test]
fn switch_light_payloads() {
    assert_eq!(
        encode_switch_light_payload(13, true),
        "{'actionType':'1','id':'13','url':null,'value':'0'}"
    );
    assert_eq!(
        encode_switch_light_payload(146, false),
        "{'actionType':'2','id':'146','url':null,'value':'0'}"
    );
}

#[test]
fn query_payloads() {
    assert_eq!(encode_query_payload(12, 1), "{'id':'12','objectType':'1'}");
    assert_eq!(encode_query_payload(12, 4), "{'id':'12','objectType':'4'}");
}

#[test]
fn action_payloads() {
    assert_eq!(
        encode_action_payload(64),
        "{'actionType':13,'id':'64','url':null,'value':'0'}"
    );
    assert_eq!(
        encode_action_payload(57),
        "{'actionType':13,'id':'57','url':null,'value':'0'}"
    );
}

#[test]
fn probe_frame_shape() {
    assert_eq!(probe_frame(), "{}\n");
}
