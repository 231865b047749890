//! Counters that many transfers update at once: uploads in flight and their
//! peak, and the request counts that set off maintenance.

use std::sync::atomic::{AtomicU32, Ordering};
use vstd::prelude::*;

verus! {

/// Uploads in flight, and the most that ever were in flight at once.
#[derive(Debug)]
pub struct UploadCounters {
    pub in_flight: AtomicU32,
    pub peak_in_flight: AtomicU32,
}

/// Requests counted towards the next maintenance run of each kind.
#[derive(Debug)]
pub struct MaintenanceCounters {
    pub memory_release_requests: AtomicU32,
    pub db_analyze_requests: AtomicU32,
}

/// The peak after `value` was seen: the larger of the two.
pub open spec fn spec_peak_after(peak: u32, value: u32) -> u32 {
    if value > peak {
        value
    } else {
        peak
    }
}

/// The peak after `value` was seen, given the peak before.
pub fn peak_after(peak: u32, value: u32) -> (next: u32)
    ensures
        next == spec_peak_after(peak, value),
{
    if value > peak {
        value
    } else {
        peak
    }
}

/// Raises the peak held in `counter` to `value` where `value` is larger, in
/// one atomic step, and returns the peak that then holds. Other transfers
/// may raise the counter at the same time, so only this is known of the
/// result: it is no smaller than `value`.
pub fn update_peak(counter: &AtomicU32, value: u32) -> (peak: u32)
    ensures
        peak >= value,
{
    let before = counter.fetch_max(value, Ordering::Relaxed);
    peak_after(before, value)
}

/// The count after one more request, wrapping at 32 bits.
pub open spec fn count_after(before: u32) -> u32 {
    if before == u32::MAX {
        0
    } else {
        (before + 1) as u32
    }
}

/// Whether maintenance is due with the request that follows `before`
/// counted ones: every `interval` requests, and never where `interval` is 0.
pub open spec fn spec_is_due(before: u32, interval: u32) -> bool {
    interval != 0 && count_after(before) % interval == 0
}

/// Whether maintenance is due with the request that follows `before` counted ones.
pub fn is_due(before: u32, interval: u32) -> (due: bool)
    ensures
        due == spec_is_due(before, interval),
{
    if interval == 0 {
        return false;
    }
    let next = before.wrapping_add(1);
    next % interval == 0
}

impl Default for UploadCounters {
    fn default() -> (counters: Self) {
        UploadCounters { in_flight: AtomicU32::new(0), peak_in_flight: AtomicU32::new(0) }
    }
}

impl UploadCounters {
    /// Counts an upload that begins. Answers with the uploads then in
    /// flight and with the peak, which is no smaller.
    pub fn upload_started(&self) -> (counts: (u32, u32))
        ensures
            counts.1 >= counts.0,
    {
        let in_flight = self.in_flight.fetch_add(1, Ordering::Relaxed).wrapping_add(1);
        let peak = update_peak(&self.peak_in_flight, in_flight);
        (in_flight, peak)
    }

    /// Counts an upload that ended, however it ended. Answers with the
    /// uploads then in flight.
    pub fn upload_finished(&self) -> (in_flight: u32) {
        self.in_flight.fetch_sub(1, Ordering::Relaxed).wrapping_sub(1)
    }
}

impl MaintenanceCounters {
    /// Counters at zero.
    pub fn new() -> (counters: Self) {
        MaintenanceCounters {
            memory_release_requests: AtomicU32::new(0),
            db_analyze_requests: AtomicU32::new(0),
        }
    }

    /// Counts one request on `counter` and says whether maintenance is due
    /// with it: whether the count, with this request, is a multiple of the
    /// interval. With an interval of 0 nothing is counted and nothing is due;
    /// with an interval of 1 maintenance is due with every request. Other
    /// transfers count on the same counter, so the count itself is known only
    /// to be some count.
    pub fn should_run(counter: &AtomicU32, interval: u32) -> (due: bool)
        ensures
            interval == 0 ==> !due,
            interval == 1 ==> due,
            exists|before: u32| due == spec_is_due(before, interval),
    {
        if interval == 0 {
            assert(false == spec_is_due(0u32, interval));
            return false;
        }
        let before = counter.fetch_add(1, Ordering::Relaxed);
        let due = is_due(before, interval);
        assert(due == spec_is_due(before, interval));
        due
    }
}

/// The peak never falls and never lags: after a value was seen it is at
/// least the peak before and at least the value, and it is one of the two.
pub proof fn lemma_peak_is_running_maximum(peak: u32, value: u32)
    ensures
        spec_peak_after(peak, value) >= peak,
        spec_peak_after(peak, value) >= value,
        spec_peak_after(peak, value) == peak || spec_peak_after(peak, value) == value,
        spec_peak_after(spec_peak_after(peak, value), value) == spec_peak_after(peak, value),
{
}

/// With an interval of 1 maintenance is due with every request, and with a
/// larger one it is due exactly when the count reaches a multiple of it.
pub proof fn lemma_due_every_interval(before: u32, interval: u32)
    requires
        interval >= 1,
        before < u32::MAX,
    ensures
        interval == 1 ==> spec_is_due(before, interval),
        spec_is_due(before, interval) <==> (before + 1) % (interval as int) == 0,
{
}

} // verus!
