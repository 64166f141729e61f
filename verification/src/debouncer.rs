//! The debouncing gate that rate-limits change notifications.

use vstd::prelude::*;

verus! {

/// A rate-limit gate over a stream of change events.
///
/// Timestamps are moments on a monotonic clock, in a fixed unit of time; the
/// gate does nothing with them but compare differences. An event that comes
/// at least `delay` after the last fire fires immediately. An earlier event
/// is deferred: it arms a single-shot timer for `last_fired + delay` (if one
/// is not armed already), and the deferred fire happens when the caller
/// reports that the timer went off. Between two consecutive fires — immediate
/// or deferred — at least `delay` elapses, and an event that did not fire
/// immediately is never lost: the timer it armed stays armed until it fires.
#[derive(Debug, Clone, Copy, PartialEq, Eq, Structural)]
pub struct Debouncer {
    pub delay: u64,
    pub last_fired: u64,
    pub timer_deadline: u64,
    pub timer_active: bool,
}

impl Debouncer {
    /// The internal invariant: an armed timer always points at the end of
    /// the quiet period that started at the last fire.
    pub open spec fn wf(&self) -> bool {
        self.timer_active ==> self.timer_deadline == self.last_fired + self.delay
    }

    /// Whether an event arriving at `now` fires immediately.
    pub open spec fn spec_fires(&self, now: u64) -> bool {
        now - self.last_fired >= self.delay
    }

    /// A fresh gate: the construction instant counts as the last fire, and no
    /// timer is armed.
    pub fn new(delay: u64, now: u64) -> (d: Debouncer)
        ensures
            d.wf(),
            d.delay == delay,
            d.last_fired == now,
            !d.timer_active,
    {
        Debouncer { delay, last_fired: now, timer_deadline: 0, timer_active: false }
    }

    /// Report that an event to be debounced occurred at `now`.
    ///
    /// Returns `true` when the event should be processed immediately — at
    /// least `delay` has passed since the last fire — and `false` when it is
    /// deferred to the timer, which is then armed for `last_fired + delay`.
    pub fn trigger(&mut self, now: u64) -> (fire: bool)
        requires
            old(self).wf(),
            old(self).last_fired <= now,
            now + old(self).delay <= u64::MAX,
        ensures
            final(self).wf(),
            final(self).delay == old(self).delay,
            fire == old(self).spec_fires(now),
            fire ==> now - old(self).last_fired >= old(self).delay,
            fire ==> final(self).last_fired == now && !final(self).timer_active,
            !fire ==> final(self).last_fired == old(self).last_fired && final(self).timer_active
                && final(self).timer_deadline == old(self).last_fired + old(self).delay,
    {
        let elapsed = now - self.last_fired;
        if elapsed >= self.delay {
            self.timer_active = false;
            self.last_fired = now;
            true
        } else {
            if !self.timer_active {
                self.timer_deadline = now + (self.delay - elapsed);
            }
            self.timer_active = true;
            false
        }
    }

    /// Whether the timer is armed; a deferred fire is pending exactly while
    /// it is.
    pub fn timer_active(&self) -> (b: bool)
        ensures
            b == self.timer_active,
    {
        self.timer_active
    }

    /// The armed timer's deadline.
    pub fn timer_deadline(&self) -> (t: u64)
        ensures
            t == self.timer_deadline,
    {
        self.timer_deadline
    }

    /// Complete a deferred fire: the armed timer went off at `now`. A
    /// single-shot timer never goes off before its deadline, so `now` is at
    /// least `last_fired + delay`.
    pub fn timer_fired(&mut self, now: u64)
        requires
            old(self).wf(),
            old(self).timer_active,
            now >= old(self).timer_deadline,
        ensures
            final(self).wf(),
            final(self).delay == old(self).delay,
            !final(self).timer_active,
            final(self).last_fired == now,
            now - old(self).last_fired >= old(self).delay,
    {
        self.timer_active = false;
        self.last_fired = now;
    }
}

/// Between consecutive fires, at least `delay` elapses: whichever way the
/// gate fires at `now` — an immediate `trigger` or the armed timer going off
/// — the fire comes at least `delay` after `last_fired`, which records the
/// time of the previous fire (or of construction).
pub proof fn lemma_fires_separated(d: Debouncer, now: u64)
    requires
        d.wf(),
        d.last_fired <= now,
    ensures
        d.spec_fires(now) ==> now - d.last_fired >= d.delay,
        d.timer_active && now >= d.timer_deadline ==> now - d.last_fired >= d.delay,
{
}

} // verus!
