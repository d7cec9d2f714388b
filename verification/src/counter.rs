//! The buffer counter and the decision taken for each delivered buffer.
//!
//! The delivery sink calls back on the framework's own thread, once per
//! buffer. The callback must never wait for a caller thread, so the counter is
//! a lock-free atomic; what to do with one delivery is a pure function of
//! whether the buffer could be retrieved and of the count read by the
//! increment.

use std::sync::atomic::AtomicUsize;
use std::sync::atomic::Ordering;
use vstd::prelude::*;

verus! {

/// A progress observation is emitted each time the count of delivered buffers
/// reaches a multiple of this interval.
pub const PROGRESS_INTERVAL: usize = 100;

/// What the delivery callback signals upstream.
#[derive(Clone, Copy, Debug, PartialEq, Eq, Structural)]
pub enum FlowSignal {
    /// The buffer was consumed.
    Consumed,
    /// The delivery subsystem failed; the framework treats the sink as faulted.
    Faulted,
}

/// What the delivery callback reports for observability.
#[derive(Clone, Copy, Debug, PartialEq, Eq, Structural)]
pub enum Observation {
    /// Nothing to report.
    Silent,
    /// The count of delivered buffers has reached this multiple of the interval.
    Progress(usize),
    /// The delivered buffer could not be retrieved.
    RetrievalFailed,
}

/// The outcome of one invocation of the delivery callback.
#[derive(Clone, Copy, Debug, PartialEq, Eq, Structural)]
pub struct Delivery {
    pub signal: FlowSignal,
    pub observation: Observation,
}

/// The count that follows `previous`: one more, wrapping to zero at the top
/// of the range as the atomic increment does.
pub open spec fn count_after(previous: usize) -> usize {
    if previous == usize::MAX {
        0
    } else {
        (previous + 1) as usize
    }
}

/// The outcome of a delivery, given whether the buffer could be retrieved and
/// the count before this delivery.
///
/// A retrieved buffer is consumed, and observed as progress exactly when the
/// count including it is a multiple of the interval. A buffer that could not
/// be retrieved faults the sink, whatever the count.
pub open spec fn delivery_of(retrieved: bool, previous: usize) -> Delivery {
    if !retrieved {
        Delivery { signal: FlowSignal::Faulted, observation: Observation::RetrievalFailed }
    } else if count_after(previous) % PROGRESS_INTERVAL == 0 {
        Delivery {
            signal: FlowSignal::Consumed,
            observation: Observation::Progress(count_after(previous)),
        }
    } else {
        Delivery { signal: FlowSignal::Consumed, observation: Observation::Silent }
    }
}

/// Decides the outcome of one delivery from the count before it.
pub fn classify_delivery(retrieved: bool, previous: usize) -> (delivery: Delivery)
    ensures
        delivery == delivery_of(retrieved, previous),
{
    if !retrieved {
        return Delivery { signal: FlowSignal::Faulted, observation: Observation::RetrievalFailed };
    }
    let count: usize = if previous == usize::MAX {
        0
    } else {
        previous + 1
    };
    if count % PROGRESS_INTERVAL == 0 {
        Delivery { signal: FlowSignal::Consumed, observation: Observation::Progress(count) }
    } else {
        Delivery { signal: FlowSignal::Consumed, observation: Observation::Silent }
    }
}

/// The number of buffers delivered since the last successful start.
///
/// Shared between the delivery thread, which increments it, and caller
/// threads, which reset and read it. All access is atomic and none of it
/// blocks. Because other threads may touch the counter at any moment, no
/// operation can promise what a later read returns.
pub struct BufferCounter {
    count: AtomicUsize,
}

impl BufferCounter {
    /// A counter that starts at zero.
    pub fn new() -> BufferCounter {
        BufferCounter { count: AtomicUsize::new(0) }
    }

    /// Sets the count back to zero.
    pub fn reset(&self) {
        self.count.store(0, Ordering::Relaxed);
    }

    /// Reads the current count.
    pub fn read(&self) -> usize {
        self.count.load(Ordering::Relaxed)
    }

    /// Handles one invocation of the delivery callback.
    ///
    /// A buffer that could not be retrieved leaves the count alone and faults
    /// the sink. A retrieved buffer increments the count atomically, and the
    /// outcome is the one decided for the count that the increment replaced.
    pub fn on_new_sample(&self, retrieved: bool) -> (delivery: Delivery)
        ensures
            exists|previous: usize| delivery == #[trigger] delivery_of(retrieved, previous),
            !retrieved ==> delivery == delivery_of(false, 0),
    {
        if retrieved {
            let previous: usize = self.count.fetch_add(1, Ordering::Relaxed);
            classify_delivery(true, previous)
        } else {
            classify_delivery(false, 0)
        }
    }
}

} // verus!
