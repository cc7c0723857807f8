//! How far one sync is.

use std::sync::atomic::{AtomicU8, Ordering};
use std::sync::Arc;
use vstd::prelude::*;

verus! {

/// Progress once everything has been fetched. The fetch is the whole network
/// leg of a sync, and reports nothing while it runs.
pub const PROGRESS_FETCHED: u8 = 20;

/// Progress once every table has been written.
pub const PROGRESS_STORED: u8 = 95;

/// Progress once the run is over, whatever its outcome.
pub const PROGRESS_FINISHED: u8 = 100;

/// Seconds between two times a running sync saves its progress.
pub const HEARTBEAT_SECS: u64 = 2;

/// Progress of one sync in percent. It never goes back.
///
/// Every rise is published in a counter that others follow through a handle. A
/// handle only reads: the progress alone writes to its counter, and keeps what
/// it wrote beside it.
#[derive(Debug)]
pub struct SyncProgress {
    percent: u8,
    counter: Arc<AtomicU8>,
}

/// A handle on the counter of a [`SyncProgress`], to follow it from elsewhere.
#[derive(Debug, Clone)]
pub struct ProgressHandle {
    counter: Arc<AtomicU8>,
}

impl ProgressHandle {
    /// The counter that is read.
    pub closed spec fn counter(&self) -> AtomicU8 {
        *self.counter
    }

    /// The progress as it was published last. Others publish at any time, so
    /// that nothing is said of the value here; it is the `percent` of the
    /// progress that the handle was taken from. As with any atomic, a load
    /// cannot release.
    pub fn load(&self, order: Ordering) -> (out: u8)
        requires
            !(order is Release || order is AcqRel),
    {
        self.counter.load(order)
    }
}

/// The greater of the two.
pub open spec fn raised(percent: u8, value: u8) -> u8 {
    if percent < value {
        value
    } else {
        percent
    }
}

impl View for SyncProgress {
    type V = u8;

    closed spec fn view(&self) -> u8 {
        self.percent
    }
}

impl Default for SyncProgress {
    fn default() -> (out: Self)
        ensures
            out@ == 0,
    {
        Self::new()
    }
}

impl SyncProgress {
    /// The counter that the progress is published in.
    pub closed spec fn counter(&self) -> AtomicU8 {
        *self.counter
    }

    /// A sync that has just begun.
    pub fn new() -> (out: Self)
        ensures
            out@ == 0,
    {
        SyncProgress { percent: 0, counter: Arc::new(AtomicU8::new(0)) }
    }

    /// A second handle on the same counter, for whoever follows the progress.
    pub fn handle(&self) -> (out: ProgressHandle)
        ensures
            out.counter() == self.counter(),
    {
        ProgressHandle { counter: Arc::clone(&self.counter) }
    }

    /// The progress as it stands.
    pub fn percent(&self) -> (out: u8)
        ensures
            out == self@,
    {
        self.percent
    }

    /// Progress is at least this.
    pub fn raise_to(&mut self, value: u8)
        ensures
            final(self)@ == raised(old(self)@, value),
            final(self)@ >= old(self)@,
            final(self).counter() == old(self).counter(),
    {
        if self.percent < value {
            self.percent = value;
        }
        self.counter.fetch_max(value, Ordering::Relaxed);
    }

    /// Everything has been fetched; writing is about to begin.
    pub fn fetched(&mut self)
        ensures
            final(self)@ == raised(old(self)@, PROGRESS_FETCHED),
            final(self)@ >= old(self)@,
            final(self).counter() == old(self).counter(),
    {
        self.raise_to(PROGRESS_FETCHED);
    }

    /// Every table has been written.
    pub fn stored(&mut self)
        ensures
            final(self)@ == raised(old(self)@, PROGRESS_STORED),
            final(self)@ >= old(self)@,
            final(self).counter() == old(self).counter(),
    {
        self.raise_to(PROGRESS_STORED);
    }

    /// The run is over, whatever its outcome.
    pub fn finished(&mut self)
        ensures
            final(self)@ == raised(old(self)@, PROGRESS_FINISHED),
            final(self)@ >= old(self)@,
            final(self).counter() == old(self).counter(),
    {
        self.raise_to(PROGRESS_FINISHED);
    }
}

/// Progress never goes back, and it does not matter in which order milestones
/// are reported.
pub proof fn progress_never_goes_back(percent: u8, first: u8, second: u8)
    ensures
        raised(percent, first) >= percent,
        raised(raised(percent, first), second) == raised(raised(percent, second), first),
{
}

/// A run that has not passed a hundred ends at a hundred, wherever it stopped.
pub proof fn finished_run_is_at_a_hundred(percent: u8)
    requires
        percent <= 100,
    ensures
        raised(percent, PROGRESS_FINISHED) == 100,
{
}

} // verus!
