//! The component worker's decision logic: how publisher messages change the
//! bookkeeping, and when the component broadcasts a new severity.

use crate::component_state::{bucket_has, bucket_mult, ComponentState};
use crate::debouncer::Debouncer;
use crate::filter::Filter;
use crate::health::Health;
use crate::report::Report;
use crate::signal::{Signal, SignalView};
use vstd::prelude::*;

verus! {

/// The component worker's debounce interval, in milliseconds: a component
/// re-broadcasts its severity at most once per tenth of a second per burst.
pub const COMPONENT_DEBOUNCE_MILLIS: u64 = 100;

/// Messages sent to the component worker by its publishers. Report requests
/// are not queued through this type: they are answered synchronously from the
/// current state and bypass the debouncer.
pub enum ComponentMessage {
    /// A new publisher starts emitting this signal.
    StartPublishing(Signal),
    /// A publisher replaces its old signal with a new one, as one atomic
    /// step: no state in which the old signal is gone and the new one is
    /// missing is ever observable.
    ChangeHealth(Signal, Signal),
    /// A publisher stops; its last signal is withdrawn.
    StopPublishing(Signal),
}

/// The multiplicity the state records for the given signal content, in the
/// bucket of the signal's own severity.
pub open spec fn sig_mult(s: &ComponentState, k: SignalView) -> int {
    bucket_mult(s.signals@[k.state.severity()]@, k)
}

/// How one publisher message shifts the bookkeeping: at most one signal is
/// withdrawn and at most one added; every other multiplicity, and every other
/// severity's count, stays as it was.
pub open spec fn signals_shifted(
    pre: ComponentState,
    post: ComponentState,
    removed: Option<SignalView>,
    added: Option<SignalView>,
) -> bool {
    &&& post.name == pre.name
    &&& forall|k: SignalView| #[trigger]
        sig_mult(&post, k) == sig_mult(&pre, k) - (if removed == Some(k) {
            1int
        } else {
            0
        }) + (if added == Some(k) {
            1int
        } else {
            0
        })
    &&& forall|i: int|
        0 <= i < 5 ==> (#[trigger] post.counts@[i]) as int == pre.counts@[i] - (
        if removed matches Some(r) && r.state.severity() == i {
            1int
        } else {
            0
        }) + (if added matches Some(a) && a.state.severity() == i {
            1int
        } else {
            0
        })
}

/// The state a component worker carries between messages: the publisher
/// bookkeeping, the last severity it broadcast, and its debouncing gate.
pub struct ComponentWorker {
    pub state: ComponentState,
    pub last_published: Health,
    pub debouncer: Debouncer,
}

impl ComponentWorker {
    /// The worker's invariant: valid bookkeeping and a valid gate.
    pub open spec fn wf(&self) -> bool {
        self.state.wf() && self.debouncer.wf()
    }

    /// Whether the worker's broadcast slot and the aggregator must be told
    /// about `h`: two consecutive `Nominal` values are suppressed; every
    /// other fired update is published, because the attribute payloads may
    /// have changed even when the severity has not.
    pub open spec fn should_publish(&self, h: Health) -> bool {
        h != self.last_published || h != Health::Nominal
    }

    /// What a message must satisfy to be handled: room for one more signal
    /// where one is added, and a tracked signal where one is withdrawn
    /// (publishers pair every withdrawal with an earlier addition).
    pub open spec fn can_handle(&self, msg: ComponentMessage) -> bool {
        match msg {
            ComponentMessage::StartPublishing(sig) => self.state.counts@[sig@.state.severity()]
                < usize::MAX,
            ComponentMessage::ChangeHealth(old_sig, new_sig) => bucket_has(
                self.state.signals@[old_sig@.state.severity()]@,
                old_sig@,
            ) && (old_sig@.state.severity() == new_sig@.state.severity()
                || self.state.counts@[new_sig@.state.severity()] < usize::MAX),
            ComponentMessage::StopPublishing(sig) => bucket_has(
                self.state.signals@[sig@.state.severity()]@,
                sig@,
            ),
        }
    }

    /// A fresh worker for a component with the given name: empty bookkeeping,
    /// `Nominal` last broadcast, and a gate with the given delay whose quiet
    /// period starts at `now`.
    pub fn new(name: String, delay: u64, now: u64) -> (w: ComponentWorker)
        ensures
            w.wf(),
            w.state.name@ == name@,
            forall|i: int| 0 <= i < 5 ==> w.state.counts@[i] == 0,
            w.state.spec_state() == Health::Nominal,
            w.last_published == Health::Nominal,
            w.debouncer.delay == delay,
            w.debouncer.last_fired == now,
            !w.debouncer.timer_active,
    {
        ComponentWorker {
            state: ComponentState::new(name),
            last_published: Health::Nominal,
            debouncer: Debouncer::new(delay, now),
        }
    }

    /// Apply one publisher message at time `now`: update the bookkeeping as
    /// the message says, consult the debouncer, and — when the event fires
    /// and the suppression rule allows — adopt and return the severity to
    /// broadcast. Both mutations of a `ChangeHealth` are applied before the
    /// debouncer is consulted.
    #[verifier::rlimit(50)]
    pub fn handle_message(&mut self, msg: ComponentMessage, now: u64) -> (publish: Option<
        Health,
    >)
        requires
            old(self).wf(),
            old(self).can_handle(msg),
            old(self).debouncer.last_fired <= now,
            now + old(self).debouncer.delay <= u64::MAX,
        ensures
            final(self).wf(),
            final(self).debouncer.delay == old(self).debouncer.delay,
            (msg matches ComponentMessage::StartPublishing(sig) ==> signals_shifted(
                old(self).state,
                final(self).state,
                None,
                Some(sig@),
            )),
            (msg matches ComponentMessage::ChangeHealth(o, n) ==> signals_shifted(
                old(self).state,
                final(self).state,
                Some(o@),
                Some(n@),
            )),
            (msg matches ComponentMessage::StopPublishing(sig) ==> signals_shifted(
                old(self).state,
                final(self).state,
                Some(sig@),
                None,
            )),
            ({
                let fired = old(self).debouncer.spec_fires(now);
                let h = final(self).state.spec_state();
                &&& (fired && old(self).should_publish(h) ==> publish == Some(h)
                    && final(self).last_published == h)
                &&& (!(fired && old(self).should_publish(h)) ==> publish is None
                    && final(self).last_published == old(self).last_published)
                &&& (fired ==> !final(self).debouncer.timer_active
                    && final(self).debouncer.last_fired == now)
                &&& (!fired ==> final(self).debouncer.timer_active
                    && final(self).debouncer.timer_deadline == old(self).debouncer.last_fired
                        + old(self).debouncer.delay
                    && final(self).debouncer.last_fired == old(self).debouncer.last_fired)
            }),
    {
        let ghost pre = self.state;
        match msg {
            ComponentMessage::StartPublishing(sig) => {
                let ghost sv = sig@;
                self.state.add_publisher_signal(sig);
                proof {
                    lemma_shift_add(pre, self.state, sv);
                }
            },
            ComponentMessage::ChangeHealth(old_sig, new_sig) => {
                let ghost ov = old_sig@;
                let ghost nv = new_sig@;
                self.state.remove_publisher_signal(old_sig);
                let ghost mid = self.state;
                proof {
                    lemma_shift_remove(pre, mid, ov);
                }
                self.state.add_publisher_signal(new_sig);
                proof {
                    lemma_shift_add(mid, self.state, nv);
                    lemma_shift_compose(pre, mid, self.state, ov, nv);
                }
            },
            ComponentMessage::StopPublishing(sig) => {
                let ghost sv = sig@;
                self.state.remove_publisher_signal(sig);
                proof {
                    lemma_shift_remove(pre, self.state, sv);
                }
            },
        }
        let fired = self.debouncer.trigger(now);
        if fired {
            let h = self.state.state();
            if h != self.last_published || h != Health::Nominal {
                self.last_published = h;
                Some(h)
            } else {
                None
            }
        } else {
            None
        }
    }

    /// The armed debounce timer went off at `now`: this always fires, and the
    /// suppression rule alone decides whether the severity is broadcast.
    pub fn handle_timer(&mut self, now: u64) -> (publish: Option<Health>)
        requires
            old(self).wf(),
            old(self).debouncer.timer_active,
            now >= old(self).debouncer.timer_deadline,
        ensures
            final(self).wf(),
            final(self).debouncer.delay == old(self).debouncer.delay,
            final(self).state.name == old(self).state.name,
            final(self).state.counts == old(self).state.counts,
            final(self).state.signals == old(self).state.signals,
            !final(self).debouncer.timer_active,
            final(self).debouncer.last_fired == now,
            now - old(self).debouncer.last_fired >= old(self).debouncer.delay,
            ({
                let h = old(self).state.spec_state();
                &&& (old(self).should_publish(h) ==> publish == Some(h)
                    && final(self).last_published == h)
                &&& (!old(self).should_publish(h) ==> publish is None && final(self).last_published
                    == old(self).last_published)
            }),
    {
        self.debouncer.timer_fired(now);
        let h = self.state.state();
        if h != self.last_published || h != Health::Nominal {
            self.last_published = h;
            Some(h)
        } else {
            None
        }
    }

    /// Answer a report request from the current state. Report generation is
    /// synchronous and bypasses the debouncer entirely.
    pub fn get_report(&mut self, filter: Filter) -> (r: Report)
        requires
            old(self).wf(),
        ensures
            final(self).wf(),
            final(self).state.name == old(self).state.name,
            final(self).state.counts == old(self).state.counts,
            final(self).state.signals == old(self).state.signals,
            final(self).last_published == old(self).last_published,
            final(self).debouncer == old(self).debouncer,
            r.wf(),
            r@.name == old(self).state.name@,
            r@.state == old(self).state.spec_state(),
            r@.counts == old(self).state.counts@,
            forall|i: int|
                0 <= i < 5 ==> #[trigger] r@.signals[i] == if filter.spec_includes(
                    Health::from_severity(i),
                ) {
                    crate::report::bucket_views(old(self).state.signals@[i]@)
                } else {
                    Seq::<(SignalView, int)>::empty()
                },
    {
        self.state.make_report(filter)
    }
}

/// What a component broadcasts is the maximum severity among its publishers'
/// current signals: whenever a worker publishes `h` — and `h` is always the
/// state's computed severity — no tracked signal is more severe than `h`,
/// and unless `h` is `Nominal`, some tracked signal sits exactly at `h`.
pub proof fn lemma_published_is_max_severity(w: &ComponentWorker, h: Health)
    requires
        w.wf(),
        h == w.state.spec_state(),
    ensures
        forall|i: int, j: int|
            0 <= i < 5 && 0 <= j < w.state.signals@[i]@.len()
                ==> (#[trigger] w.state.signals@[i]@[j]).0@.state.severity() <= h.severity(),
        h.severity() > 0 ==> w.state.signals@[h.severity()]@.len() > 0,
{
    crate::component_state::lemma_state_is_max_severity(&w.state);
}

/// Adding one signal shifts the bookkeeping by exactly that signal.
proof fn lemma_shift_add(pre: ComponentState, post: ComponentState, sv: SignalView)
    requires
        pre.wf(),
        post.name == pre.name,
        post.counts@.len() == 5,
        post.signals@.len() == 5,
        post.counts@[sv.state.severity()] == pre.counts@[sv.state.severity()] + 1,
        forall|i: int|
            0 <= i < 5 && i != sv.state.severity() ==> #[trigger] post.counts@[i] == pre.counts@[i],
        forall|i: int|
            0 <= i < 5 && i != sv.state.severity() ==> #[trigger] post.signals@[i]
                == pre.signals@[i],
        bucket_mult(post.signals@[sv.state.severity()]@, sv) == bucket_mult(
            pre.signals@[sv.state.severity()]@,
            sv,
        ) + 1,
        forall|k: SignalView|
            k != sv ==> #[trigger] bucket_mult(post.signals@[sv.state.severity()]@, k)
                == bucket_mult(pre.signals@[sv.state.severity()]@, k),
    ensures
        signals_shifted(pre, post, None, Some(sv)),
{
    assert forall|k: SignalView| #[trigger]
        sig_mult(&post, k) == sig_mult(&pre, k) + (if Some(sv) == Some(k) {
            1int
        } else {
            0
        }) by {
        let i = k.state.severity();
        if i != sv.state.severity() {
            assert(post.signals@[i] == pre.signals@[i]);
        }
    }
}

/// Withdrawing one signal shifts the bookkeeping by exactly that signal.
proof fn lemma_shift_remove(pre: ComponentState, post: ComponentState, sv: SignalView)
    requires
        pre.wf(),
        post.name == pre.name,
        post.counts@.len() == 5,
        post.signals@.len() == 5,
        post.counts@[sv.state.severity()] == pre.counts@[sv.state.severity()] - 1,
        forall|i: int|
            0 <= i < 5 && i != sv.state.severity() ==> #[trigger] post.counts@[i] == pre.counts@[i],
        forall|i: int|
            0 <= i < 5 && i != sv.state.severity() ==> #[trigger] post.signals@[i]
                == pre.signals@[i],
        bucket_mult(post.signals@[sv.state.severity()]@, sv) == bucket_mult(
            pre.signals@[sv.state.severity()]@,
            sv,
        ) - 1,
        forall|k: SignalView|
            k != sv ==> #[trigger] bucket_mult(post.signals@[sv.state.severity()]@, k)
                == bucket_mult(pre.signals@[sv.state.severity()]@, k),
    ensures
        signals_shifted(pre, post, Some(sv), None),
{
    assert forall|k: SignalView| #[trigger]
        sig_mult(&post, k) == sig_mult(&pre, k) - (if Some(sv) == Some(k) {
            1int
        } else {
            0
        }) by {
        let i = k.state.severity();
        if i != sv.state.severity() {
            assert(post.signals@[i] == pre.signals@[i]);
        }
    }
}

/// A withdrawal followed by an addition shifts the bookkeeping by both.
proof fn lemma_shift_compose(
    pre: ComponentState,
    mid: ComponentState,
    post: ComponentState,
    removed: SignalView,
    added: SignalView,
)
    requires
        signals_shifted(pre, mid, Some(removed), None),
        signals_shifted(mid, post, None, Some(added)),
    ensures
        signals_shifted(pre, post, Some(removed), Some(added)),
{
    assert forall|k: SignalView| #[trigger]
        sig_mult(&post, k) == sig_mult(&pre, k) - (if Some(removed) == Some(k) {
            1int
        } else {
            0
        }) + (if Some(added) == Some(k) {
            1int
        } else {
            0
        }) by {
        assert(sig_mult(&mid, k) == sig_mult(&pre, k) - (if Some(removed) == Some(k) {
            1int
        } else {
            0
        }));
    }
}

} // verus!
