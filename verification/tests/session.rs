use focus_capture::session::ControlSession;
use focus_capture::session::SessionPhase;

#[test]
fn greeting_with_challenge_yields_authenticated_identify() {
    let mut session = ControlSession::new("D9IoZgkKlJOD9nFj".to_string());
    let greeting = "{\"op\":0,\"d\":{\"rpcVersion\":1,\"authentication\":{\"challenge\":\"c1\",\"salt\":\"s1\"}}}";
    let identify = session.on_greeting(greeting).expect("greeting is well-formed");
    assert_eq!(
        identify,
        "{\"op\":1,\"d\":{\"rpcVersion\":1,\"authentication\":\"KW0C4RxmJR6AjIZ/hVX7WN6Qpp51Vwweuj8644CRlKE=\"}}"
    );
    assert_eq!(session.phase, SessionPhase::AwaitIdentifyAck);
}

#[test]
fn greeting_without_challenge_yields_plain_identify() {
    let mut session = ControlSession::new("unused".to_string());
    let greeting = "{\"op\":0,\"d\":{\"rpcVersion\":1}}";
    let identify = session.on_greeting(greeting).expect("greeting is well-formed");
    assert_eq!(identify, "{\"op\":1,\"d\":{\"rpcVersion\":1}}");
}

#[test]
fn non_object_authentication_is_ignored() {
    let mut session = ControlSession::new("pw".to_string());
    let greeting = "{\"op\":0,\"d\":{\"authentication\":\"not-an-object\"}}";
    let identify = session.on_greeting(greeting).expect("greeting is well-formed");
    assert_eq!(identify, "{\"op\":1,\"d\":{\"rpcVersion\":1}}");
}

#[test]
fn malformed_greeting_fails_the_session() {
    let mut session = ControlSession::new("pw".to_string());
    let outcome = session.on_greeting("this is not json");
    let error = outcome.expect_err("frame is not JSON");
    assert!(!error.describe().is_empty());
    assert_eq!(session.phase, SessionPhase::Failed);
}

#[test]
fn enumerate_response_items_are_extracted_in_order() {
    let mut session = ControlSession::new("pw".to_string());
    let _ = session.on_greeting("{\"op\":0,\"d\":{}}").expect("well-formed");
    session.acknowledge_identify();
    let request = session.begin_enumerate("Input");
    assert!(request.contains("GetInputPropertiesListPropertyItems"));
    let response = "{\"op\":7,\"d\":{\"requestId\":\"list-window-items\",\"responseData\":{\"items\":[{\"value\":\"[A.exe]: one\"},{\"value\":7},{\"name\":\"no value\"},{\"value\":\"[A.exe]: two\"}]}}}";
    let items = session.on_enumerate_response(response).expect("well-formed");
    assert_eq!(items, vec!["[A.exe]: one".to_string(), "[A.exe]: two".to_string()]);
    assert_eq!(session.phase, SessionPhase::Ready);
}

#[test]
fn response_without_items_yields_no_candidates() {
    let mut session = ControlSession::new("pw".to_string());
    let _ = session.on_greeting("{\"op\":0,\"d\":{}}").expect("well-formed");
    session.acknowledge_identify();
    let _ = session.begin_enumerate("Input");
    let items = session.on_enumerate_response("{\"op\":7,\"d\":{}}").expect("well-formed");
    assert!(items.is_empty());
}

#[test]
fn malformed_enumerate_response_fails_the_session() {
    let mut session = ControlSession::new("pw".to_string());
    let _ = session.on_greeting("{\"op\":0,\"d\":{}}").expect("well-formed");
    session.acknowledge_identify();
    let _ = session.begin_enumerate("Input");
    let outcome = session.on_enumerate_response("{{{");
    assert!(outcome.is_err());
    assert_eq!(session.phase, SessionPhase::Failed);
}

#[test]
fn apply_round_trip_returns_to_ready() {
    let mut session = ControlSession::new("pw".to_string());
    let _ = session.on_greeting("{\"op\":0,\"d\":{}}").expect("well-formed");
    session.acknowledge_identify();
    let request = session.begin_apply("Input", "[A.exe]: one");
    assert!(request.contains("SetInputSettings"));
    assert!(request.contains("\"overlay\":true"));
    assert_eq!(session.phase, SessionPhase::AwaitApplyResponse);
    session.acknowledge_apply();
    assert_eq!(session.phase, SessionPhase::Ready);
}
