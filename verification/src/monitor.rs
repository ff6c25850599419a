//! Error-rate monitors that decide when a link is too degraded to use.
//!
//! Two independent monitors run at different points in the link lifecycle:
//!
//! * [`Aerm`] - the Alignment Error Rate Monitor, active only while *proving* a link
//!   during initial alignment. It counts signal units received in error and aborts
//!   proving once the count reaches a threshold.
//! * [`Suerm`] - the Signal Unit Error Rate Monitor, active while the link is *in
//!   service*. It is a leaky bucket: `+1` per errored SU, `-1` for every `D` signal
//!   units received, and it declares a link failure when the count reaches `T`.
//!
//! "In error" means that the check bits of the received SU did not match.

use vstd::prelude::*;

verus! {

/// Default AERM abort threshold for **normal** proving.
pub const AERM_THRESHOLD_NORMAL: u32 = 4;

/// Default AERM abort threshold for **emergency** proving.
pub const AERM_THRESHOLD_EMERGENCY: u32 = 1;

/// Default SUERM failure threshold `T`.
pub const SUERM_THRESHOLD: u32 = 64;

/// Default SUERM leak interval `D`: one decrement per this many received SUs.
pub const SUERM_DECREMENT_INTERVAL: u32 = 256;

/// A counter one step up, stopping at the largest value it can hold.
pub open spec fn count_up(count: nat) -> nat {
    if count < u32::MAX {
        count + 1
    } else {
        u32::MAX as nat
    }
}

/// The mathematical value of an [`Aerm`].
pub struct AermView {
    /// Signal units received in error in this proving attempt.
    pub count: nat,
    /// The count at which proving is aborted.
    pub threshold: nat,
}

impl AermView {
    /// A monitor at the start of a proving attempt.
    pub open spec fn fresh(threshold: nat) -> AermView {
        AermView { count: 0, threshold }
    }

    /// The monitor after one more errored signal unit.
    pub open spec fn after_error(self) -> AermView {
        AermView { count: count_up(self.count), ..self }
    }

    /// Whether the count has reached the threshold.
    pub open spec fn is_tripped(self) -> bool {
        self.count >= self.threshold
    }
}

/// Alignment Error Rate Monitor.
///
/// Reset at the start of each proving attempt, incremented for every errored SU
/// seen during proving, and consulted to decide whether the proving period may
/// complete. The threshold differs for normal versus emergency proving.
#[derive(Debug, Clone)]
pub struct Aerm {
    count: u32,
    threshold: u32,
}

impl View for Aerm {
    type V = AermView;

    closed spec fn view(&self) -> AermView {
        AermView { count: self.count as nat, threshold: self.threshold as nat }
    }
}

impl Aerm {
    /// Create an AERM with the given abort threshold.
    pub fn new(threshold: u32) -> (aerm: Self)
        ensures
            aerm@ == AermView::fresh(threshold as nat),
    {
        Aerm { count: 0, threshold }
    }

    /// Reset the counter and set the threshold for a fresh proving attempt (normal or
    /// emergency).
    pub fn restart(&mut self, threshold: u32)
        ensures
            final(self)@ == AermView::fresh(threshold as nat),
    {
        self.count = 0;
        self.threshold = threshold;
    }

    /// Record one signal unit received in error during proving.
    ///
    /// Returns `true` once the count has reached the threshold, meaning proving must
    /// be aborted.
    pub fn record_error(&mut self) -> (tripped: bool)
        ensures
            final(self)@ == old(self)@.after_error(),
            tripped == final(self)@.is_tripped(),
    {
        self.count = self.count.saturating_add(1);
        self.is_tripped()
    }

    /// The current error count.
    pub fn count(&self) -> (count: u32)
        ensures
            count == self@.count,
    {
        self.count
    }

    /// The configured abort threshold.
    pub fn threshold(&self) -> (threshold: u32)
        ensures
            threshold == self@.threshold,
    {
        self.threshold
    }

    /// Whether the monitor has reached its abort threshold.
    pub fn is_tripped(&self) -> (tripped: bool)
        ensures
            tripped == self@.is_tripped(),
    {
        self.count >= self.threshold
    }
}

/// The mathematical value of a [`Suerm`].
pub struct SuermView {
    /// The level of the bucket.
    pub count: nat,
    /// The level at which the link has failed.
    pub threshold: nat,
    /// The number of received signal units per leak.
    pub decrement_interval: nat,
    /// Signal units received since the last leak.
    pub received_since_leak: nat,
    /// Whether a failure has been declared.
    pub failed: bool,
}

impl SuermView {
    /// A monitor of a freshly in-service link.
    pub open spec fn fresh(threshold: nat, decrement_interval: nat) -> SuermView {
        SuermView { count: 0, threshold, decrement_interval, received_since_leak: 0, failed: false }
    }

    /// The signal units counted towards the next leak are fewer than an interval.
    pub open spec fn wf(self) -> bool {
        &&& self.received_since_leak == 0 || self.received_since_leak < self.decrement_interval
        &&& self.decrement_interval <= u32::MAX
        &&& self.count <= u32::MAX
    }

    /// Whether the next received signal unit completes a leak interval.
    pub open spec fn leaks(self) -> bool {
        self.received_since_leak + 1 >= self.decrement_interval
    }

    /// The level after one more signal unit: raised by an error, then lowered by one,
    /// never below zero, if the unit completes an interval.
    pub open spec fn next_count(self, in_error: bool) -> nat {
        let raised = if in_error {
            count_up(self.count)
        } else {
            self.count
        };
        if self.leaks() && raised > 0 {
            (raised - 1) as nat
        } else {
            raised
        }
    }

    /// The monitor after one more received signal unit.
    pub open spec fn recorded(self, in_error: bool) -> SuermView {
        SuermView {
            count: self.next_count(in_error),
            received_since_leak: if self.leaks() {
                0
            } else {
                self.received_since_leak + 1
            },
            failed: self.failed || self.next_count(in_error) >= self.threshold,
            ..self
        }
    }
}

/// Signal Unit Error Rate Monitor.
///
/// A saturating leaky-bucket counter: `+1` for each errored SU, `-1` (never below
/// zero) once per `decrement_interval` signal units received. When the count reaches
/// `threshold`, the link has failed and must be taken out of service.
#[derive(Debug, Clone)]
pub struct Suerm {
    count: u32,
    threshold: u32,
    decrement_interval: u32,
    received_since_leak: u32,
    failed: bool,
}

impl View for Suerm {
    type V = SuermView;

    closed spec fn view(&self) -> SuermView {
        SuermView {
            count: self.count as nat,
            threshold: self.threshold as nat,
            decrement_interval: self.decrement_interval as nat,
            received_since_leak: self.received_since_leak as nat,
            failed: self.failed,
        }
    }
}

impl Suerm {
    /// Create a SUERM with failure threshold `T` and leak interval `D`.
    pub fn new(threshold: u32, decrement_interval: u32) -> (suerm: Self)
        ensures
            suerm@ == SuermView::fresh(threshold as nat, decrement_interval as nat),
            suerm@.wf(),
    {
        Suerm { count: 0, threshold, decrement_interval, received_since_leak: 0, failed: false }
    }

    /// Reset the monitor for a freshly in-service link.
    pub fn reset(&mut self)
        ensures
            final(self)@ == SuermView::fresh(old(self)@.threshold, old(self)@.decrement_interval),
            final(self)@.wf(),
    {
        self.count = 0;
        self.received_since_leak = 0;
        self.failed = false;
    }

    /// Record one received signal unit. `in_error` is `true` when the check bits did
    /// not match. Returns `true` when the failure threshold is reached.
    pub fn record(&mut self, in_error: bool) -> (failed: bool)
        requires
            old(self)@.wf(),
        ensures
            final(self)@ == old(self)@.recorded(in_error),
            final(self)@.wf(),
            failed == final(self)@.failed,
    {
        self.received_since_leak = self.received_since_leak + 1;
        if in_error {
            self.count = self.count.saturating_add(1);
        }
        if self.received_since_leak >= self.decrement_interval {
            self.received_since_leak = 0;
            self.count = self.count.saturating_sub(1);
        }
        if self.count >= self.threshold {
            self.failed = true;
        }
        self.failed
    }

    /// The current bucket count.
    pub fn count(&self) -> (count: u32)
        ensures
            count == self@.count,
    {
        self.count
    }

    /// Whether the monitor has declared a link failure.
    pub fn is_failed(&self) -> (failed: bool)
        ensures
            failed == self@.failed,
    {
        self.failed
    }
}

} // verus!
