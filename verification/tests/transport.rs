use audio_capture::error::CaptureError;
use audio_capture::transport::WebRTCState;
use std::sync::Arc;
use webrtc::api::APIBuilder;

#[test]
fn new_registry_is_empty() {
    let state = WebRTCState::new();
    assert!(!state.has_engine());
    assert!(!state.has_peer_connection());
}

#[test]
fn first_request_builds_the_engine() {
    let mut state = WebRTCState::new();
    let engine = state.get_api().expect("the default codecs register");
    assert!(state.has_engine());
    assert!(!state.has_peer_connection());
    assert_eq!(Arc::strong_count(&engine), 2);
}

#[test]
fn every_request_returns_the_same_engine() {
    let mut state = WebRTCState::new();
    let first = state.get_api().expect("the default codecs register");
    let second = state.get_api().expect("the engine is there");
    let third = state.get_api().expect("the engine is there");
    assert!(Arc::ptr_eq(&first, &second));
    assert!(Arc::ptr_eq(&first, &third));
    assert_eq!(Arc::strong_count(&first), 4);
    assert!(!state.has_peer_connection());
}

#[test]
fn offered_engine_fills_an_empty_slot() {
    let mut state = WebRTCState::new();
    let offered = Arc::new(APIBuilder::new().build());
    let returned = state.provide_engine(Ok(Arc::clone(&offered))).expect("the slot was empty");
    assert!(Arc::ptr_eq(&offered, &returned));
    assert!(state.has_engine());
    let again = state.get_api().expect("the engine is there");
    assert!(Arc::ptr_eq(&offered, &again));
    assert_eq!(Arc::strong_count(&offered), 4);
}

#[test]
fn second_engine_never_replaces_the_first() {
    let mut state = WebRTCState::new();
    let first = state.get_api().expect("the default codecs register");
    let other = Arc::new(APIBuilder::new().build());
    let returned = state.provide_engine(Ok(Arc::clone(&other))).expect("the engine is there");
    assert!(Arc::ptr_eq(&first, &returned));
    assert!(!Arc::ptr_eq(&other, &returned));
    assert_eq!(Arc::strong_count(&other), 1);
    let failed = state.provide_engine(Err("ignored".to_string())).expect("the engine is there");
    assert!(Arc::ptr_eq(&first, &failed));
}

#[test]
fn failed_registration_leaves_the_slot_empty() {
    let mut state = WebRTCState::new();
    let result = state.provide_engine(Err("unknown".to_string()));
    match result {
        Err(error) => {
            assert_eq!(error, CaptureError::CodecRegistration("unknown".to_string()));
            assert_eq!(error.message(), "Failed to register default codecs: unknown");
        }
        Ok(_) => panic!("a failed registration must not yield an engine"),
    }
    assert!(!state.has_engine());
    let engine = state.get_api().expect("the default codecs register");
    assert!(state.has_engine());
    assert_eq!(Arc::strong_count(&engine), 2);
}
