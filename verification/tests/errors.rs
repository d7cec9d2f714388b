use audio_capture::error::CaptureError;
use audio_capture::error::CastTarget;
use audio_capture::error::TransitionTarget;
use audio_capture::greeting::greet;

#[test]
fn initialization_error_message() {
    let error = CaptureError::Initialization("no plugins".to_string());
    assert_eq!(error.message(), "Failed to initialize GStreamer: no plugins");
}

#[test]
fn construction_error_message() {
    let error = CaptureError::Construction("syntax error".to_string());
    assert_eq!(error.message(), "Failed to create pipeline: syntax error");
}

#[test]
fn lookup_error_message() {
    assert_eq!(CaptureError::Lookup.message(), "Failed to get sink element from pipeline");
}

#[test]
fn transition_error_messages() {
    let start = CaptureError::Transition(TransitionTarget::Playing, "busy".to_string());
    assert_eq!(start.message(), "Failed to set pipeline to playing: busy");
    let stop = CaptureError::Transition(TransitionTarget::Stopped, "busy".to_string());
    assert_eq!(stop.message(), "Failed to stop pipeline: busy");
}

#[test]
fn cast_error_messages() {
    assert_eq!(CaptureError::Cast(CastTarget::Pipeline).message(), "Failed to cast to pipeline");
    assert_eq!(
        CaptureError::Cast(CastTarget::DeliverySink).message(),
        "Failed to cast element to AppSink"
    );
}

#[test]
fn codec_registration_error_message() {
    let error = CaptureError::CodecRegistration("unknown".to_string());
    assert_eq!(error.message(), "Failed to register default codecs: unknown");
}

#[test]
fn message_with_empty_detail_keeps_the_prefix() {
    let error = CaptureError::Construction(String::new());
    assert_eq!(error.message(), "Failed to create pipeline: ");
}

#[test]
fn message_keeps_non_ascii_detail() {
    let error = CaptureError::Initialization("périphérique occupé".to_string());
    assert_eq!(error.message(), "Failed to initialize GStreamer: périphérique occupé");
}

#[test]
fn greet_formats_the_name() {
    assert_eq!(greet("Ada"), "Hello, Ada! You've been greeted from Rust!");
    assert_eq!(greet(""), "Hello, ! You've been greeted from Rust!");
}
