use focus_capture::auth::compute_auth_response;
use focus_capture::protocol::build_apply_request;
use focus_capture::protocol::build_enumerate_request;
use focus_capture::protocol::build_identify;

#[test]
fn auth_response_matches_reference() {
    // Independently computed: base64(sha256(base64(sha256(pw ++ salt)) ++ challenge)).
    let auth = compute_auth_response("D9IoZgkKlJOD9nFj", "s1", "c1");
    assert_eq!(auth, "KW0C4RxmJR6AjIZ/hVX7WN6Qpp51Vwweuj8644CRlKE=");
}

#[test]
fn auth_response_matches_second_reference() {
    let auth = compute_auth_response("pw", "salt", "challenge");
    assert_eq!(auth, "u2LyppGkAjwgvCNaKsAc4tztRWLqv1i85slC7KiH71Q=");
}

#[test]
fn auth_response_is_reproducible() {
    let first = compute_auth_response("pw", "s", "c");
    let second = compute_auth_response("pw", "s", "c");
    assert_eq!(first, second);
}

#[test]
fn identify_without_auth() {
    let msg = build_identify(None);
    assert_eq!(msg, "{\"op\":1,\"d\":{\"rpcVersion\":1}}");
}

#[test]
fn identify_with_auth() {
    let msg = build_identify(Some("abc+/="));
    assert_eq!(msg, "{\"op\":1,\"d\":{\"rpcVersion\":1,\"authentication\":\"abc+/=\"}}");
}

#[test]
fn enumerate_request_text() {
    let msg = build_enumerate_request("Application Audio Capture (BETA)");
    assert_eq!(
        msg,
        "{\"op\":6,\"d\":{\"requestType\":\"GetInputPropertiesListPropertyItems\",\"requestId\":\"list-window-items\",\"requestData\":{\"inputName\":\"Application Audio Capture (BETA)\",\"propertyName\":\"window\"}}}"
    );
}

#[test]
fn apply_request_text() {
    let msg = build_apply_request("Input", "[App.exe]: Song");
    assert_eq!(
        msg,
        "{\"op\":6,\"d\":{\"requestType\":\"SetInputSettings\",\"requestId\":\"setAppAudio\",\"requestData\":{\"inputName\":\"Input\",\"inputSettings\":{\"window\":\"[App.exe]: Song\"},\"overlay\":true}}}"
    );
}

#[test]
fn apply_request_escapes_the_value() {
    let msg = build_apply_request("In\"put", "a\\b\"c\nd");
    assert_eq!(
        msg,
        "{\"op\":6,\"d\":{\"requestType\":\"SetInputSettings\",\"requestId\":\"setAppAudio\",\"requestData\":{\"inputName\":\"In\\\"put\",\"inputSettings\":{\"window\":\"a\\\\b\\\"c\\u000ad\"},\"overlay\":true}}}"
    );
}

#[test]
fn request_texts_parse_as_json() {
    let msg = build_apply_request("Input", "quote \" backslash \\ tab \t end");
    let parsed: serde_json::Value = serde_json::from_str(&msg).expect("valid JSON");
    assert_eq!(
        parsed["d"]["requestData"]["inputSettings"]["window"],
        serde_json::Value::String("quote \" backslash \\ tab \t end".to_string())
    );
}
