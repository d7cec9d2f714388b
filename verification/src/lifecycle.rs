//! Whole start and stop operations, and the laws they obey.
//!
//! The controller works step by step. This module says what a complete
//! operation amounts to, given how the framework behaves while it runs, proves
//! that the step-by-step conversation arrives at exactly that, and derives
//! the properties that callers rely on: idempotence, failure containment, and
//! a status that always tells the last effective transition.

use crate::error::CaptureError;
use crate::error::CastTarget;
use crate::error::TransitionTarget;
use crate::pipeline::delivery_sink_settings;
use crate::pipeline::start_model;
use crate::pipeline::stop_model;
use crate::pipeline::CaptureState;
use crate::pipeline::StartAction;
use crate::pipeline::StartEvent;
use crate::pipeline::StopAction;
use crate::pipeline::StopEvent;
use crate::pipeline::PIPELINE_DESCRIPTION;
use crate::pipeline::SINK_NAME;
use vstd::prelude::*;

verus! {

/// How the framework answers a request to build the graph.
pub ghost enum GraphReport {
    Built,
    Rejected(String),
    NotPipeline,
}

/// How the framework answers a lookup of the delivery sink.
pub ghost enum SinkReport {
    Found,
    Missing,
    NotDeliverySink,
}

/// How the framework answers a request to run the pipeline.
pub ghost enum PlayReport<P> {
    Playing(P),
    Rejected(String),
}

/// How the framework behaves during one start.
pub ghost struct Framework<P> {
    pub graph: GraphReport,
    pub sink: SinkReport,
    pub play: PlayReport<P>,
}

/// How the framework answers a request to stop a released pipeline.
pub ghost enum TeardownReport {
    TornDown,
    Rejected(String),
}

/// What a complete start does: the state it leaves and the result it returns.
///
/// A running controller stays as it is and the start succeeds. An idle
/// controller builds the graph, finds the sink and runs the pipeline; the
/// first of these to fail decides the error and the controller stays idle.
/// Only when all succeed does the controller run the new pipeline.
pub open spec fn start_effect<P>(state: CaptureState<P>, framework: Framework<P>) -> (
    CaptureState<P>,
    Result<(), CaptureError>,
) {
    let idle = CaptureState::<P>::Idle;
    match state {
        CaptureState::Running(_) => (state, Ok(())),
        CaptureState::Idle => match framework.graph {
            GraphReport::Rejected(reason) => (idle, Err(CaptureError::Construction(reason))),
            GraphReport::NotPipeline => (idle, Err(CaptureError::Cast(CastTarget::Pipeline))),
            GraphReport::Built => match framework.sink {
                SinkReport::Missing => (idle, Err(CaptureError::Lookup)),
                SinkReport::NotDeliverySink => (
                    idle,
                    Err(CaptureError::Cast(CastTarget::DeliverySink)),
                ),
                SinkReport::Found => match framework.play {
                    PlayReport::Playing(pipeline) => (CaptureState::Running(pipeline), Ok(())),
                    PlayReport::Rejected(reason) => (
                        idle,
                        Err(CaptureError::Transition(TransitionTarget::Playing, reason)),
                    ),
                },
            },
        },
    }
}

/// What a complete stop does: the state it leaves and the result it returns.
///
/// The controller is idle afterwards in every case. Stopping an idle
/// controller succeeds without doing anything; stopping a running one
/// releases the pipeline and returns what its teardown reported.
pub open spec fn stop_effect<P>(state: CaptureState<P>, teardown: TeardownReport) -> (
    CaptureState<P>,
    Result<(), CaptureError>,
) {
    let idle = CaptureState::<P>::Idle;
    match state {
        CaptureState::Idle => (idle, Ok(())),
        CaptureState::Running(_) => match teardown {
            TeardownReport::TornDown => (idle, Ok(())),
            TeardownReport::Rejected(reason) => (
                idle,
                Err(CaptureError::Transition(TransitionTarget::Stopped, reason)),
            ),
        },
    }
}

/// The event by which the framework answers an action of a start.
pub open spec fn start_report<P>(framework: Framework<P>, action: StartAction) -> StartEvent<P> {
    match action {
        StartAction::BuildGraph(_) => match framework.graph {
            GraphReport::Built => StartEvent::GraphBuilt,
            GraphReport::Rejected(reason) => StartEvent::GraphRejected(reason),
            GraphReport::NotPipeline => StartEvent::GraphNotPipeline,
        },
        StartAction::FindSink(_) => match framework.sink {
            SinkReport::Found => StartEvent::SinkFound,
            SinkReport::Missing => StartEvent::SinkMissing,
            SinkReport::NotDeliverySink => StartEvent::SinkNotDeliverySink,
        },
        StartAction::ConfigureSink(_) => StartEvent::SinkConfigured,
        StartAction::RegisterCallback => StartEvent::CallbackRegistered,
        StartAction::Play => match framework.play {
            PlayReport::Playing(pipeline) => StartEvent::Playing(pipeline),
            PlayReport::Rejected(reason) => StartEvent::PlayRejected(reason),
        },
        _ => StartEvent::Requested,
    }
}

/// The event by which the framework answers an action of a stop.
pub open spec fn stop_report<P>(teardown: TeardownReport, action: StopAction<P>) -> StopEvent {
    match action {
        StopAction::Teardown(_) => match teardown {
            TeardownReport::TornDown => StopEvent::TornDown,
            TeardownReport::Rejected(reason) => StopEvent::TeardownRejected(reason),
        },
        _ => StopEvent::Requested,
    }
}

/// The conversation of a start, from `event` on: the controller steps, the
/// framework answers, until an action ends the start or `patience` answers
/// have been used.
pub open spec fn start_conversation<P>(
    state: CaptureState<P>,
    event: StartEvent<P>,
    framework: Framework<P>,
    patience: nat,
) -> (CaptureState<P>, StartAction)
    decreases patience,
{
    let (next, action) = start_model(state, event);
    if action.is_final() || patience == 0 {
        (next, action)
    } else {
        start_conversation(
            next,
            start_report(framework, action),
            framework,
            (patience - 1) as nat,
        )
    }
}

/// The conversation of a stop, from `event` on.
pub open spec fn stop_conversation<P>(
    state: CaptureState<P>,
    event: StopEvent,
    teardown: TeardownReport,
    patience: nat,
) -> (CaptureState<P>, StopAction<P>)
    decreases patience,
{
    let (next, action) = stop_model(state, event);
    if action.is_final() || patience == 0 {
        (next, action)
    } else {
        stop_conversation(next, stop_report(teardown, action), teardown, (patience - 1) as nat)
    }
}

/// A start takes at most this many answers from the framework.
pub open spec fn start_patience() -> nat {
    5
}

/// A stop takes at most this many answers from the framework.
pub open spec fn stop_patience() -> nat {
    1
}

/// The conversation of a start always ends, and it leaves the state and
/// returns the result of a complete start.
pub proof fn start_conversation_has_start_effect<P>(
    state: CaptureState<P>,
    framework: Framework<P>,
)
    ensures
        ({
            let (end, action) = start_conversation(
                state,
                StartEvent::Requested,
                framework,
                start_patience(),
            );
            action.is_final() && (end, action.outcome()) == start_effect(state, framework)
        }),
{
    reveal_with_fuel(start_conversation, 7);
}

/// The conversation of a stop always ends, and it leaves the state and returns
/// the result of a complete stop.
pub proof fn stop_conversation_has_stop_effect<P>(state: CaptureState<P>, teardown: TeardownReport)
    ensures
        ({
            let (end, action) = stop_conversation(
                state,
                StopEvent::Requested,
                teardown,
                stop_patience(),
            );
            action.is_final() && (end, action.outcome()) == stop_effect(state, teardown)
        }),
{
    reveal_with_fuel(stop_conversation, 3);
}

/// The actions that the conversation of a start asks for, in order.
pub open spec fn start_actions<P>(
    state: CaptureState<P>,
    event: StartEvent<P>,
    framework: Framework<P>,
    patience: nat,
) -> Seq<StartAction>
    decreases patience,
{
    let (next, action) = start_model(state, event);
    if action.is_final() || patience == 0 {
        seq![action]
    } else {
        seq![action] + start_actions(
            next,
            start_report(framework, action),
            framework,
            (patience - 1) as nat,
        )
    }
}

/// A start that meets no failure asks for every step once and in order: build
/// the fixed graph, find the sink by its name, configure it, register the
/// callback, run the pipeline; then it is complete.
pub proof fn unhindered_start_takes_each_step_in_order<P>(framework: Framework<P>)
    requires
        framework.graph is Built,
        framework.sink is Found,
        framework.play is Playing,
    ensures
        start_actions(
            CaptureState::Idle,
            StartEvent::Requested,
            framework,
            start_patience(),
        ) == seq![
            StartAction::BuildGraph(PIPELINE_DESCRIPTION),
            StartAction::FindSink(SINK_NAME),
            StartAction::ConfigureSink(delivery_sink_settings()),
            StartAction::RegisterCallback,
            StartAction::Play,
            StartAction::Started,
        ],
{
    reveal_with_fuel(start_actions, 7);
}

/// A start asks for nothing more once a step has failed: after a rejected
/// graph the only further action is the one that ends the start.
pub proof fn rejected_graph_ends_the_conversation<P>(framework: Framework<P>, reason: String)
    requires
        framework.graph == GraphReport::Rejected(reason),
    ensures
        start_actions(
            CaptureState::Idle,
            StartEvent::Requested,
            framework,
            start_patience(),
        ) == seq![
            StartAction::BuildGraph(PIPELINE_DESCRIPTION),
            StartAction::Failed(CaptureError::Construction(reason)),
        ],
{
    reveal_with_fuel(start_actions, 3);
}

/// Starting twice in a row, where the first start succeeds: the controller
/// is running after both, the second succeeds as well, and the second is over
/// with its first answer, before anything is built.
pub proof fn start_twice_starts_once<P>(
    state: CaptureState<P>,
    first: Framework<P>,
    second: Framework<P>,
)
    requires
        start_effect(state, first).1 is Ok,
    ensures
        ({
            let once = start_effect(state, first).0;
            let (twice, second_result) = start_effect(once, second);
            &&& once is Running
            &&& twice == once
            &&& second_result is Ok
            &&& start_conversation(once, StartEvent::Requested, second, start_patience()) == (
                once,
                StartAction::AlreadyRunning,
            )
        }),
{
    reveal_with_fuel(start_conversation, 2);
}

/// Stopping twice in a row: the controller is idle after the first stop and
/// after the second, whatever the teardown reported, and the second succeeds
/// without releasing anything.
pub proof fn stop_twice_stays_idle<P>(
    state: CaptureState<P>,
    first: TeardownReport,
    second: TeardownReport,
)
    ensures
        ({
            let (once, first_result) = stop_effect(state, first);
            let (twice, second_result) = stop_effect(once, second);
            &&& once is Idle
            &&& twice is Idle
            &&& second_result is Ok
            &&& stop_conversation(once, StopEvent::Requested, second, stop_patience()) == (
                once,
                StopAction::<P>::NotRunning,
            )
        }),
{
    reveal_with_fuel(stop_conversation, 2);
}

/// A start that fails leaves no trace: it can only fail on an idle
/// controller, and the controller is idle afterwards.
pub proof fn failed_start_stays_idle<P>(state: CaptureState<P>, framework: Framework<P>)
    ensures
        start_effect(state, framework).1 is Err ==> state is Idle && start_effect(
            state,
            framework,
        ).0 is Idle,
{
}

/// A graph description that the framework rejects makes the start of an idle
/// controller fail with a construction error that carries the framework's
/// reason, and the controller stays idle.
pub proof fn rejected_graph_fails_construction<P>(framework: Framework<P>, reason: String)
    requires
        framework.graph == GraphReport::Rejected(reason),
    ensures
        start_effect(CaptureState::Idle, framework) == (
            CaptureState::<P>::Idle,
            Err::<(), CaptureError>(CaptureError::Construction(reason)),
        ),
{
}

/// One call of the command surface, with how the framework behaves during it.
pub ghost enum Call<P> {
    Start(Framework<P>),
    Stop(TeardownReport),
}

/// The state that a call leaves.
pub open spec fn after_call<P>(state: CaptureState<P>, call: Call<P>) -> CaptureState<P> {
    match call {
        Call::Start(framework) => start_effect(state, framework).0,
        Call::Stop(teardown) => stop_effect(state, teardown).0,
    }
}

/// Whether a call changes the state: a start of an idle controller that
/// succeeds, or a stop of a running one. Every other call is a no-op or a
/// failed start.
pub open spec fn takes_effect<P>(state: CaptureState<P>, call: Call<P>) -> bool {
    match call {
        Call::Start(framework) => state is Idle && start_effect(state, framework).1 is Ok,
        Call::Stop(_) => state is Running,
    }
}

/// The state that a sequence of calls leaves.
pub open spec fn after_calls<P>(state: CaptureState<P>, calls: Seq<Call<P>>) -> CaptureState<P>
    decreases calls.len(),
{
    if calls.len() == 0 {
        state
    } else {
        after_call(after_calls(state, calls.drop_last()), calls.last())
    }
}

/// The last call of a sequence that changed the state, if any did.
pub open spec fn last_effective<P>(state: CaptureState<P>, calls: Seq<Call<P>>) -> Option<Call<P>>
    decreases calls.len(),
{
    if calls.len() == 0 {
        None
    } else if takes_effect(after_calls(state, calls.drop_last()), calls.last()) {
        Some(calls.last())
    } else {
        last_effective(state, calls.drop_last())
    }
}

/// After any sequence of starts and stops the controller is running if the
/// last call that changed its state was a start, idle if that call was a stop,
/// and as it was at the beginning if no call changed its state.
pub proof fn status_tells_last_effective_call<P>(state: CaptureState<P>, calls: Seq<Call<P>>)
    ensures
        match last_effective(state, calls) {
            Some(Call::Start(_)) => after_calls(state, calls) is Running,
            Some(Call::Stop(_)) => after_calls(state, calls) is Idle,
            None => after_calls(state, calls) == state,
        },
    decreases calls.len(),
{
    if calls.len() > 0 {
        status_tells_last_effective_call(state, calls.drop_last());
    }
}

} // verus!
