//! Initialization of the media framework: run lazily, once per process, with
//! the first outcome kept for every later caller.

use crate::error::CaptureError;
use vstd::prelude::*;

verus! {

/// What is known of the framework's initialization.
#[derive(Debug, PartialEq, Eq)]
pub enum MediaInit {
    /// Initialization has not run yet.
    Pending,
    /// Initialization ran and succeeded.
    Ready,
    /// Initialization ran and failed, with the framework's reason. Nothing can
    /// recover from this before the process restarts.
    Failed(String),
}

/// What the caller reports while initializing.
#[derive(Debug, PartialEq, Eq)]
pub enum InitEvent {
    /// Initialization was requested.
    Requested,
    /// The framework initialized.
    Initialized,
    /// The framework failed to initialize, with its reason.
    InitializationFailed(String),
}

/// What the caller is asked to do while initializing.
#[derive(Debug, PartialEq, Eq)]
pub enum InitAction {
    /// Run the framework's initialization and report how it went.
    Run,
    /// The framework is initialized: report success.
    Succeeded,
    /// The framework failed to initialize: report the error.
    Failed(CaptureError),
}

impl InitAction {
    /// Whether this action ends the request.
    pub open spec fn is_final(self) -> bool {
        !(self is Run)
    }

    /// What a request that ended with this action returns to its caller.
    pub open spec fn outcome(self) -> Result<(), CaptureError> {
        match self {
            InitAction::Failed(error) => Err(error),
            _ => Ok(()),
        }
    }
}

/// One step of an initialization request: the state that follows and the
/// action asked for.
///
/// Once an outcome is recorded it answers every event and never changes.
/// Until then a request asks for the framework's initialization to run, and
/// the first report of how it went is recorded.
pub open spec fn init_model(state: MediaInit, event: InitEvent) -> (MediaInit, InitAction) {
    match state {
        MediaInit::Ready => (state, InitAction::Succeeded),
        MediaInit::Failed(reason) => (
            state,
            InitAction::Failed(CaptureError::Initialization(reason)),
        ),
        MediaInit::Pending => match event {
            InitEvent::Requested => (state, InitAction::Run),
            InitEvent::Initialized => (MediaInit::Ready, InitAction::Succeeded),
            InitEvent::InitializationFailed(reason) => (
                MediaInit::Failed(reason),
                InitAction::Failed(CaptureError::Initialization(reason)),
            ),
        },
    }
}

impl MediaInit {
    /// The state before anything has asked for the framework.
    pub fn new() -> (state: MediaInit)
        ensures
            state == MediaInit::Pending,
    {
        MediaInit::Pending
    }

    /// Takes one step of an initialization request: consumes the caller's
    /// report and answers with the next action.
    pub fn initialize_gstreamer(&mut self, event: InitEvent) -> (action: InitAction)
        ensures
            (*final(self), action) == init_model(*old(self), event),
    {
        match self {
            MediaInit::Ready => InitAction::Succeeded,
            MediaInit::Failed(reason) => InitAction::Failed(
                CaptureError::Initialization(reason.clone()),
            ),
            MediaInit::Pending => match event {
                InitEvent::Requested => InitAction::Run,
                InitEvent::Initialized => {
                    *self = MediaInit::Ready;
                    InitAction::Succeeded
                },
                InitEvent::InitializationFailed(reason) => {
                    *self = MediaInit::Failed(reason.clone());
                    InitAction::Failed(CaptureError::Initialization(reason))
                },
            },
        }
    }
}

/// Initialization runs at most once: as soon as an outcome is recorded, no
/// event changes it or asks for another run, and every request gets the
/// recorded outcome.
pub proof fn recorded_outcome_is_kept(state: MediaInit, event: InitEvent)
    requires
        !(state is Pending),
    ensures
        init_model(state, event).0 == state,
        init_model(state, event).1.is_final(),
        init_model(state, event).1 == init_model(state, InitEvent::Requested).1,
{
}

} // verus!
