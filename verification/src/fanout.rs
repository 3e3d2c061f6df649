//! Bounded fan-out of the bulk peer announcements.
//!
//! The reconciliation plan yields one streaming announcement per
//! scheduler shard.  At most `MAX_CONCURRENT_ANNOUNCES` of them may be
//! in flight at once; the rest queue.  When any in-flight announcement
//! reports a frame-send timeout, all announcements still awaited are
//! detached — they keep running unobserved — and the bulk announcement
//! as a whole reports success, so one slow scheduler cannot stall
//! daemon startup.  The surrounding daemon spawns the streams and
//! feeds each completion back in.

use vstd::prelude::*;
use crate::MAX_CONCURRENT_ANNOUNCES;
use crate::error::AnnounceError;

verus! {

/// Admission gate bounding how many streaming announcements run at
/// once.
pub struct AnnounceGate {
    /// Announcements admitted and not yet reported finished.
    pub in_flight: usize,
}

impl AnnounceGate {
    /// No more than the concurrency bound is ever admitted.
    pub open spec fn wf(self) -> bool {
        self.in_flight <= MAX_CONCURRENT_ANNOUNCES
    }

    /// Creates the admission gate with nothing in flight.
    pub fn new() -> (r: Self)
        ensures
            r.in_flight == 0,
            r.wf(),
    {
        AnnounceGate { in_flight: 0 }
    }

    /// Asks to start one more streaming announcement.  Admission is
    /// granted exactly while fewer than `MAX_CONCURRENT_ANNOUNCES` are
    /// in flight; a refused caller must wait for a completion.
    pub fn try_acquire(&mut self) -> (ok: bool)
        requires
            old(self).wf(),
        ensures
            final(self).wf(),
            ok == (old(self).in_flight < MAX_CONCURRENT_ANNOUNCES),
            ok ==> final(self).in_flight == old(self).in_flight + 1,
            !ok ==> final(self).in_flight == old(self).in_flight,
    {
        if self.in_flight < MAX_CONCURRENT_ANNOUNCES {
            self.in_flight = self.in_flight + 1;
            true
        } else {
            false
        }
    }

    /// Reports that one admitted announcement finished.
    pub fn release(&mut self)
        requires
            old(self).wf(),
            old(self).in_flight > 0,
        ensures
            final(self).in_flight == old(self).in_flight - 1,
            final(self).wf(),
    {
        self.in_flight = self.in_flight - 1;
    }
}

/// Law: however the admission gate is driven, no more than
/// `MAX_CONCURRENT_ANNOUNCES` streaming announcements hold it at once.
/// Every operation of `AnnounceGate` preserves `wf`, and `wf` bounds
/// the in-flight count.
pub proof fn lemma_gate_bounds_concurrency(g: AnnounceGate)
    requires
        g.wf(),
    ensures
        g.in_flight <= MAX_CONCURRENT_ANNOUNCES,
{
}

/// How one streaming announcement ended.
#[derive(Debug, Clone, Copy, PartialEq, Eq, Structural)]
pub enum StreamOutcome {
    /// Every frame was sent within the timeout.
    Delivered,
    /// A frame send exceeded `REQUEST_TIMEOUT_MS`.
    TimedOut,
    /// The stream failed for another reason; it is logged and the
    /// siblings are still awaited.
    Failed,
}

/// Tracks which spawned announcements are still awaited.
pub struct FanOutWait {
    /// Announcements spawned and still awaited.
    pub remaining: usize,
    /// True once a timeout escape detached the rest.
    pub detached: bool,
}

impl FanOutWait {
    /// Starts waiting for `spawned` announcements.
    pub fn new(spawned: usize) -> (r: Self)
        ensures
            r.remaining == spawned,
            !r.detached,
    {
        FanOutWait { remaining: spawned, detached: false }
    }

    /// Whether any announcement is still awaited.
    pub fn waiting(&self) -> (r: bool)
        ensures
            r == (self.remaining > 0),
    {
        self.remaining > 0
    }

    /// Digests the completion of one awaited announcement.  A timeout
    /// detaches everything still awaited — the timeout escape — while
    /// any other outcome just stops the wait for that one stream.
    pub fn on_stream_finished(&mut self, outcome: StreamOutcome)
        requires
            old(self).remaining > 0,
            !old(self).detached,
        ensures
            outcome == StreamOutcome::TimedOut ==> final(self).detached && final(self).remaining
                == 0,
            outcome != StreamOutcome::TimedOut ==> !final(self).detached && final(self).remaining
                == old(self).remaining - 1,
    {
        match outcome {
            StreamOutcome::TimedOut => {
                self.detached = true;
                self.remaining = 0;
            },
            _ => {
                self.remaining = self.remaining - 1;
            },
        }
    }

    /// The verdict of the bulk peer announcement once nothing is
    /// awaited any more: it succeeds whatever the streams reported —
    /// per-stream failures are only logged, and a timeout ends the
    /// wait early by design.
    pub fn verdict(&self) -> (r: Result<(), AnnounceError>)
        requires
            self.remaining == 0,
        ensures
            r is Ok,
    {
        Ok(())
    }
}

} // verus!
