use audio_capture::counter::classify_delivery;
use audio_capture::counter::BufferCounter;
use audio_capture::counter::Delivery;
use audio_capture::counter::FlowSignal;
use audio_capture::counter::Observation;
use audio_capture::counter::PROGRESS_INTERVAL;

const SILENT: Delivery = Delivery { signal: FlowSignal::Consumed, observation: Observation::Silent };

const FAULTED: Delivery =
    Delivery { signal: FlowSignal::Faulted, observation: Observation::RetrievalFailed };

fn progress(count: usize) -> Delivery {
    Delivery { signal: FlowSignal::Consumed, observation: Observation::Progress(count) }
}

#[test]
fn progress_interval_is_one_hundred() {
    assert_eq!(PROGRESS_INTERVAL, 100);
}

#[test]
fn first_buffer_is_consumed_silently() {
    assert_eq!(classify_delivery(true, 0), SILENT);
}

#[test]
fn hundredth_buffer_is_observed() {
    assert_eq!(classify_delivery(true, 98), SILENT);
    assert_eq!(classify_delivery(true, 99), progress(100));
    assert_eq!(classify_delivery(true, 100), SILENT);
    assert_eq!(classify_delivery(true, 199), progress(200));
    assert_eq!(classify_delivery(true, 12_345_699), progress(12_345_700));
}

#[test]
fn count_wraps_to_zero_at_the_top() {
    assert_eq!(classify_delivery(true, usize::MAX), progress(0));
    assert_eq!(classify_delivery(true, usize::MAX - 1), SILENT);
}

#[test]
fn unretrieved_buffer_faults_whatever_the_count() {
    assert_eq!(classify_delivery(false, 0), FAULTED);
    assert_eq!(classify_delivery(false, 99), FAULTED);
    assert_eq!(classify_delivery(false, usize::MAX), FAULTED);
}

#[test]
fn new_counter_reads_zero() {
    let counter = BufferCounter::new();
    assert_eq!(counter.read(), 0);
}

#[test]
fn counter_reaches_the_number_of_delivered_buffers() {
    let counter = BufferCounter::new();
    let mut observed = Vec::new();
    for _ in 0..350 {
        let delivery = counter.on_new_sample(true);
        assert_eq!(delivery.signal, FlowSignal::Consumed);
        if let Observation::Progress(count) = delivery.observation {
            observed.push(count);
        }
    }
    assert_eq!(counter.read(), 350);
    assert_eq!(observed, vec![100, 200, 300]);
}

#[test]
fn failed_retrieval_does_not_count() {
    let counter = BufferCounter::new();
    assert_eq!(counter.on_new_sample(true), SILENT);
    assert_eq!(counter.on_new_sample(false), FAULTED);
    assert_eq!(counter.on_new_sample(false), FAULTED);
    assert_eq!(counter.read(), 1);
    assert_eq!(counter.on_new_sample(true), SILENT);
    assert_eq!(counter.read(), 2);
}

#[test]
fn reset_returns_the_count_to_zero() {
    let counter = BufferCounter::new();
    for _ in 0..99 {
        counter.on_new_sample(true);
    }
    assert_eq!(counter.read(), 99);
    counter.reset();
    assert_eq!(counter.read(), 0);
    for _ in 0..99 {
        assert_eq!(counter.on_new_sample(true), SILENT);
    }
    assert_eq!(counter.on_new_sample(true), progress(100));
}

#[test]
fn counter_never_exceeds_what_was_delivered_before_stop() {
    let counter = BufferCounter::new();
    counter.reset();
    let after_start = counter.read();
    let mut seen = Vec::new();
    for _ in 0..40 {
        counter.on_new_sample(true);
        seen.push(counter.read());
    }
    assert!(seen.iter().all(|count| after_start <= *count));
    assert_eq!(counter.read(), 40);
}
