//! The error taxonomy shared by every operation, and the message each error
//! surfaces as.

use vstd::prelude::*;
use vstd::string::*;

verus! {

/// What a constructed object was expected to be when a kind check failed.
#[derive(Clone, Copy, Debug, PartialEq, Eq, Structural)]
pub enum CastTarget {
    /// The object built from the graph description is not a whole pipeline.
    Pipeline,
    /// The element found under the sink name is not a delivery sink.
    DeliverySink,
}

/// The state a pipeline was asked to reach when the framework refused.
#[derive(Clone, Copy, Debug, PartialEq, Eq, Structural)]
pub enum TransitionTarget {
    /// The running state, requested by a start.
    Playing,
    /// The fully stopped state, requested by a stop.
    Stopped,
}

/// Every way an operation of this library can fail.
///
/// Variants that carry a `String` hold the framework's own description of
/// what went wrong.
#[derive(Debug, PartialEq, Eq)]
pub enum CaptureError {
    /// The media framework failed to initialize.
    Initialization(String),
    /// The graph description is malformed or names unavailable elements.
    Construction(String),
    /// The delivery sink is missing from the constructed graph.
    Lookup,
    /// The framework rejected a state change.
    Transition(TransitionTarget, String),
    /// A constructed object is not of the expected kind.
    Cast(CastTarget),
    /// The transport engine's codec setup failed.
    CodecRegistration(String),
}

impl CaptureError {
    /// The text of the message that this error surfaces as.
    pub open spec fn message_text(self) -> Seq<char> {
        match self {
            CaptureError::Initialization(detail) => "Failed to initialize GStreamer: "@ + detail@,
            CaptureError::Construction(detail) => "Failed to create pipeline: "@ + detail@,
            CaptureError::Lookup => "Failed to get sink element from pipeline"@,
            CaptureError::Transition(TransitionTarget::Playing, detail) =>
                "Failed to set pipeline to playing: "@ + detail@,
            CaptureError::Transition(TransitionTarget::Stopped, detail) =>
                "Failed to stop pipeline: "@ + detail@,
            CaptureError::Cast(CastTarget::Pipeline) => "Failed to cast to pipeline"@,
            CaptureError::Cast(CastTarget::DeliverySink) => "Failed to cast element to AppSink"@,
            CaptureError::CodecRegistration(detail) =>
                "Failed to register default codecs: "@ + detail@,
        }
    }

    /// Renders the error as the message shown to the caller of a command.
    pub fn message(&self) -> (text: String)
        ensures
            text@ == self.message_text(),
    {
        match self {
            CaptureError::Initialization(detail) => String::from_str(
                "Failed to initialize GStreamer: ",
            ).concat(detail.as_str()),
            CaptureError::Construction(detail) => String::from_str(
                "Failed to create pipeline: ",
            ).concat(detail.as_str()),
            CaptureError::Lookup => String::from_str("Failed to get sink element from pipeline"),
            CaptureError::Transition(TransitionTarget::Playing, detail) => String::from_str(
                "Failed to set pipeline to playing: ",
            ).concat(detail.as_str()),
            CaptureError::Transition(TransitionTarget::Stopped, detail) => String::from_str(
                "Failed to stop pipeline: ",
            ).concat(detail.as_str()),
            CaptureError::Cast(CastTarget::Pipeline) => String::from_str(
                "Failed to cast to pipeline",
            ),
            CaptureError::Cast(CastTarget::DeliverySink) => String::from_str(
                "Failed to cast element to AppSink",
            ),
            CaptureError::CodecRegistration(detail) => String::from_str(
                "Failed to register default codecs: ",
            ).concat(detail.as_str()),
        }
    }
}

} // verus!
