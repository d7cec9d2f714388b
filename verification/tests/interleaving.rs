use audio_capture::pipeline::AudioState;
use audio_capture::pipeline::StartAction;
use audio_capture::pipeline::StartEvent;
use audio_capture::pipeline::StopAction;
use audio_capture::pipeline::StopEvent;
use audio_capture::transport::WebRTCState;
use std::sync::Arc;
use std::sync::Mutex;

/// Starts capture under the lock, with a framework that succeeds unless told
/// otherwise and numbers the graphs it builds.
fn locked_start(state: &Mutex<AudioState<usize>>, built: &mut usize, device_busy: bool) -> bool {
    let mut guard = state.lock().unwrap();
    let mut pipeline = None;
    let mut event = StartEvent::Requested;
    loop {
        event = match guard.start_audio_capture(event) {
            StartAction::BuildGraph(_) => {
                *built += 1;
                pipeline = Some(*built);
                StartEvent::GraphBuilt
            }
            StartAction::FindSink(_) => StartEvent::SinkFound,
            StartAction::ConfigureSink(_) => StartEvent::SinkConfigured,
            StartAction::RegisterCallback => StartEvent::CallbackRegistered,
            StartAction::Play => {
                let ready = pipeline.take().unwrap();
                if device_busy {
                    *built -= 1;
                    StartEvent::PlayRejected("device busy".to_string())
                } else {
                    StartEvent::Playing(ready)
                }
            }
            StartAction::Started | StartAction::AlreadyRunning => return true,
            StartAction::Failed(_) => return false,
        };
    }
}

/// Stops capture under the lock, and counts the pipelines torn down.
fn locked_stop(state: &Mutex<AudioState<usize>>, torn_down: &mut usize) -> bool {
    let mut guard = state.lock().unwrap();
    let mut event = StopEvent::Requested;
    loop {
        event = match guard.stop_audio_capture(event) {
            StopAction::Teardown(_) => {
                *torn_down += 1;
                StopEvent::TornDown
            }
            StopAction::Stopped | StopAction::NotRunning => return true,
            StopAction::Failed(_) => return false,
        };
    }
}

#[test]
fn interleaved_callers_keep_slot_and_flag_in_step() {
    let state = Mutex::new(AudioState::new());
    let mut built = 0;
    let mut torn_down = 0;
    let mut expected_running = false;
    let mut seed: u32 = 0x2545_f491;
    for _ in 0..2000 {
        seed = seed.wrapping_mul(1_664_525).wrapping_add(1_013_904_223);
        match (seed >> 16) % 3 {
            0 => {
                assert!(locked_start(&state, &mut built, false));
                expected_running = true;
            }
            1 => {
                assert_eq!(locked_start(&state, &mut built, true), expected_running);
            }
            _ => {
                assert!(locked_stop(&state, &mut torn_down));
                expected_running = false;
            }
        }
        let guard = state.lock().unwrap();
        assert_eq!(guard.is_playing(), guard.holds_pipeline());
        assert_eq!(guard.is_playing(), expected_running);
        assert_eq!(built - torn_down, if expected_running { 1 } else { 0 });
    }
    assert!(built > 100);
}

#[test]
fn callers_sharing_the_registry_share_one_engine() {
    let state = Arc::new(Mutex::new(WebRTCState::new()));
    let callers: Vec<Arc<Mutex<WebRTCState>>> = (0..8).map(|_| Arc::clone(&state)).collect();
    let mut engines = Vec::new();
    for caller in &callers {
        engines.push(caller.lock().unwrap().get_api().expect("the default codecs register"));
    }
    for engine in &engines {
        assert!(Arc::ptr_eq(engine, &engines[0]));
    }
    assert_eq!(Arc::strong_count(&engines[0]), 9);
}
