//! The pipeline controller: the one capture pipeline of the process, and the
//! start and stop operations that move it between idle and running.
//!
//! The controller never touches the media framework itself. An operation is a
//! conversation: the caller reports an event, the controller answers with the
//! next action, the caller performs it and reports what came of it, until the
//! controller answers with an action that ends the operation. The caller
//! holds the controller exclusively for the whole conversation, so operations
//! never interleave.

use crate::error::CaptureError;
use crate::error::CastTarget;
use crate::error::TransitionTarget;
use vstd::prelude::*;

verus! {

/// The graph that a start builds: capture, convert, resample, encode, payload,
/// delivery sink. The framework consumes it verbatim.
pub const PIPELINE_DESCRIPTION: &'static str =
    "autoaudiosrc ! audioconvert ! audioresample ! opusenc ! rtpopuspay ! appsink name=sink";

/// The name under which the graph description declares its delivery sink.
pub const SINK_NAME: &'static str = "sink";

/// How many buffers may wait in the delivery sink.
pub const SINK_CAPACITY: u32 = 10;

/// How the delivery sink is configured before the pipeline runs.
#[derive(Clone, Copy, Debug, PartialEq, Eq, Structural)]
pub struct SinkSettings {
    /// Whether the sink signals each buffer as it becomes ready.
    pub emit_signals: bool,
    /// The bound on buffers in flight.
    pub max_buffers: u32,
    /// Whether the sink may drop buffers silently when the bound is reached.
    pub drop: bool,
}

/// The settings of the delivery sink: asynchronous signalling on, a small
/// bounded queue, and no silent dropping, so that backpressure shows as a
/// stall rather than as loss.
pub open spec fn delivery_sink_settings() -> SinkSettings {
    SinkSettings { emit_signals: true, max_buffers: SINK_CAPACITY, drop: false }
}

/// What the caller reports to the controller during a start.
#[derive(Debug, PartialEq, Eq)]
pub enum StartEvent<P> {
    /// A start was requested.
    Requested,
    /// The graph was built and is a pipeline.
    GraphBuilt,
    /// The framework rejected the graph description, with its reason.
    GraphRejected(String),
    /// The graph was built but is not a pipeline.
    GraphNotPipeline,
    /// The delivery sink was found in the graph.
    SinkFound,
    /// No element of the graph bears the sink's name.
    SinkMissing,
    /// The element that bears the sink's name is not a delivery sink.
    SinkNotDeliverySink,
    /// The sink's settings were applied.
    SinkConfigured,
    /// The delivery callback was registered with the sink.
    CallbackRegistered,
    /// The pipeline reached its running state; its handle is handed over.
    Playing(P),
    /// The framework refused to run the pipeline, with its reason.
    PlayRejected(String),
}

/// What the controller asks of the caller during a start.
#[derive(Debug, PartialEq, Eq)]
pub enum StartAction {
    /// Build a graph from this description and check that it is a pipeline.
    BuildGraph(&'static str),
    /// Look up the element of this name and check that it is a delivery sink.
    FindSink(&'static str),
    /// Apply these settings to the sink.
    ConfigureSink(SinkSettings),
    /// Register the delivery callback with the sink.
    RegisterCallback,
    /// Ask the framework to run the pipeline.
    Play,
    /// The start is complete and the pipeline is stored: reset the buffer
    /// counter and report success.
    Started,
    /// Capture was running already and nothing was done: report success.
    AlreadyRunning,
    /// The start failed: discard whatever was built and report the error.
    Failed(CaptureError),
}

impl StartAction {
    /// Whether this action ends the start.
    pub open spec fn is_final(self) -> bool {
        self is Started || self is AlreadyRunning || self is Failed
    }

    /// What a start that ended with this action returns to its caller.
    pub open spec fn outcome(self) -> Result<(), CaptureError> {
        match self {
            StartAction::Failed(error) => Err(error),
            _ => Ok(()),
        }
    }
}

/// What the caller reports to the controller during a stop.
#[derive(Debug, PartialEq, Eq)]
pub enum StopEvent {
    /// A stop was requested.
    Requested,
    /// The released pipeline reached its fully stopped state.
    TornDown,
    /// The framework reported an error while stopping the released pipeline.
    TeardownRejected(String),
}

/// What the controller asks of the caller during a stop.
#[derive(Debug, PartialEq, Eq)]
pub enum StopAction<P> {
    /// The controller has released this pipeline: bring it to its fully
    /// stopped state.
    Teardown(P),
    /// The pipeline is stopped: report success.
    Stopped,
    /// Capture was not running and nothing was done: report success.
    NotRunning,
    /// The framework failed to stop the pipeline: report the error. The
    /// controller is idle all the same.
    Failed(CaptureError),
}

impl<P> StopAction<P> {
    /// Whether this action ends the stop.
    pub open spec fn is_final(self) -> bool {
        !(self is Teardown)
    }

    /// What a stop that ended with this action returns to its caller.
    pub open spec fn outcome(self) -> Result<(), CaptureError> {
        match self {
            StopAction::Failed(error) => Err(error),
            _ => Ok(()),
        }
    }
}

/// The controller as a state machine: idle, or running the pipeline it holds.
pub ghost enum CaptureState<P> {
    Idle,
    Running(P),
}

/// One step of a start: the state that follows and the action asked for.
///
/// While running, every event is answered alike: nothing changes and nothing
/// is to be done. While idle, each report of success leads to the step after
/// it, each report of failure ends the start with its error, and only a
/// pipeline that has reached its running state is stored.
pub open spec fn start_model<P>(state: CaptureState<P>, event: StartEvent<P>) -> (
    CaptureState<P>,
    StartAction,
) {
    match state {
        CaptureState::Running(_) => (state, StartAction::AlreadyRunning),
        CaptureState::Idle => match event {
            StartEvent::Requested => (state, StartAction::BuildGraph(PIPELINE_DESCRIPTION)),
            StartEvent::GraphBuilt => (state, StartAction::FindSink(SINK_NAME)),
            StartEvent::GraphRejected(reason) => (
                state,
                StartAction::Failed(CaptureError::Construction(reason)),
            ),
            StartEvent::GraphNotPipeline => (
                state,
                StartAction::Failed(CaptureError::Cast(CastTarget::Pipeline)),
            ),
            StartEvent::SinkFound => (state, StartAction::ConfigureSink(delivery_sink_settings())),
            StartEvent::SinkMissing => (state, StartAction::Failed(CaptureError::Lookup)),
            StartEvent::SinkNotDeliverySink => (
                state,
                StartAction::Failed(CaptureError::Cast(CastTarget::DeliverySink)),
            ),
            StartEvent::SinkConfigured => (state, StartAction::RegisterCallback),
            StartEvent::CallbackRegistered => (state, StartAction::Play),
            StartEvent::Playing(pipeline) => (CaptureState::Running(pipeline), StartAction::Started),
            StartEvent::PlayRejected(reason) => (
                state,
                StartAction::Failed(CaptureError::Transition(TransitionTarget::Playing, reason)),
            ),
        },
    }
}

/// One step of a stop: the state that follows and the action asked for.
///
/// A running controller answers every event by releasing its pipeline for
/// teardown, and is idle from then on whatever the teardown reports. An idle
/// controller has nothing to release: a request is a no-op, and a report of
/// the teardown ends the stop with success or with the framework's error.
pub open spec fn stop_model<P>(state: CaptureState<P>, event: StopEvent) -> (
    CaptureState<P>,
    StopAction<P>,
) {
    match state {
        CaptureState::Running(pipeline) => (CaptureState::Idle, StopAction::Teardown(pipeline)),
        CaptureState::Idle => match event {
            StopEvent::Requested => (state, StopAction::NotRunning),
            StopEvent::TornDown => (state, StopAction::Stopped),
            StopEvent::TeardownRejected(reason) => (
                state,
                StopAction::Failed(CaptureError::Transition(TransitionTarget::Stopped, reason)),
            ),
        },
    }
}

/// The single capture pipeline of the process: the slot that owns its handle
/// and the flag that says whether it is running.
///
/// `P` is the framework's pipeline handle. The slot is filled exactly while
/// the flag is set; no operation ever leaves the two in disagreement.
pub struct AudioState<P> {
    pipeline: Option<P>,
    is_playing: bool,
}

impl<P> View for AudioState<P> {
    type V = CaptureState<P>;

    open spec fn view(&self) -> CaptureState<P> {
        match self.slot() {
            Some(pipeline) if self.flag() => CaptureState::Running(pipeline),
            _ => CaptureState::Idle,
        }
    }
}

impl<P> AudioState<P> {
    /// The content of the pipeline slot.
    pub closed spec fn slot(&self) -> Option<P> {
        self.pipeline
    }

    /// The running flag.
    pub closed spec fn flag(&self) -> bool {
        self.is_playing
    }

    /// The flag is set exactly when the slot holds a pipeline.
    pub open spec fn consistent(&self) -> bool {
        self.flag() == self.slot().is_some()
    }

    #[verifier::type_invariant]
    spec fn slot_matches_flag(&self) -> bool {
        self.consistent()
    }

    /// An idle controller with an empty slot.
    pub fn new() -> (state: AudioState<P>)
        ensures
            state@ == CaptureState::<P>::Idle,
            state.consistent(),
    {
        AudioState { pipeline: None, is_playing: false }
    }

    /// Whether capture is running.
    pub fn is_playing(&self) -> (playing: bool)
        ensures
            playing == (self@ is Running),
            playing == self.flag(),
            self.consistent(),
    {
        proof {
            use_type_invariant(self);
        }
        self.is_playing
    }

    /// Whether the slot holds a pipeline.
    pub fn holds_pipeline(&self) -> (held: bool)
        ensures
            held == self.slot().is_some(),
            held == self.flag(),
    {
        proof {
            use_type_invariant(self);
        }
        self.pipeline.is_some()
    }

    /// Takes one step of a start: consumes the caller's report and answers
    /// with the next action.
    pub fn start_audio_capture(&mut self, event: StartEvent<P>) -> (action: StartAction)
        ensures
            (final(self)@, action) == start_model(old(self)@, event),
            final(self).consistent(),
    {
        proof {
            use_type_invariant(&*self);
        }
        if self.is_playing {
            return StartAction::AlreadyRunning;
        }
        match event {
            StartEvent::Requested => StartAction::BuildGraph(PIPELINE_DESCRIPTION),
            StartEvent::GraphBuilt => StartAction::FindSink(SINK_NAME),
            StartEvent::GraphRejected(reason) => StartAction::Failed(
                CaptureError::Construction(reason),
            ),
            StartEvent::GraphNotPipeline => StartAction::Failed(
                CaptureError::Cast(CastTarget::Pipeline),
            ),
            StartEvent::SinkFound => StartAction::ConfigureSink(
                SinkSettings { emit_signals: true, max_buffers: SINK_CAPACITY, drop: false },
            ),
            StartEvent::SinkMissing => StartAction::Failed(CaptureError::Lookup),
            StartEvent::SinkNotDeliverySink => StartAction::Failed(
                CaptureError::Cast(CastTarget::DeliverySink),
            ),
            StartEvent::SinkConfigured => StartAction::RegisterCallback,
            StartEvent::CallbackRegistered => StartAction::Play,
            StartEvent::Playing(pipeline) => {
                *self = AudioState { pipeline: Some(pipeline), is_playing: true };
                StartAction::Started
            },
            StartEvent::PlayRejected(reason) => StartAction::Failed(
                CaptureError::Transition(TransitionTarget::Playing, reason),
            ),
        }
    }

    /// Takes one step of a stop: consumes the caller's report and answers
    /// with the next action.
    pub fn stop_audio_capture(&mut self, event: StopEvent) -> (action: StopAction<P>)
        ensures
            (final(self)@, action) == stop_model(old(self)@, event),
            final(self).consistent(),
    {
        proof {
            use_type_invariant(&*self);
        }
        let mut released = AudioState { pipeline: None, is_playing: false };
        std::mem::swap(self, &mut released);
        match released.pipeline {
            Some(pipeline) => StopAction::Teardown(pipeline),
            None => match event {
                StopEvent::Requested => StopAction::NotRunning,
                StopEvent::TornDown => StopAction::Stopped,
                StopEvent::TeardownRejected(reason) => StopAction::Failed(
                    CaptureError::Transition(TransitionTarget::Stopped, reason),
                ),
            },
        }
    }
}

} // verus!
