//! A publisher's local state and the messages it hands to its component.

use crate::attribute::Attribute;
use crate::component::ComponentMessage;
use crate::health::Health;
use crate::signal::{attr_views, dedup_by_name, nominal_view, Signal, SignalView};
use vstd::prelude::*;

verus! {

/// The signal content that publishing a severity with the given attributes
/// produces: duplicate attribute names collapse to the first occurrence.
pub open spec fn signal_view_of(state: Health, attributes: Seq<Attribute>) -> SignalView {
    SignalView { state, attrs: dedup_by_name(attr_views(attributes)).to_set() }
}

/// A publisher represents a single source of health information for a
/// component. It tracks exactly one current signal, initially the
/// nominal-empty one.
///
/// The publisher itself decides only what changed; every transition is handed
/// back as the [`ComponentMessage`] the owning component worker must receive.
/// The caller owns delivery, and simply drops the message when the component
/// is gone: a publisher whose component has died becomes inert.
#[derive(Debug)]
pub struct Publisher {
    pub signal: Signal,
}

/// How one `publish(state, attributes)` call changes a publisher: when the
/// new signal equals the current one the call is a no-op and sends nothing;
/// otherwise the publisher adopts the new signal and sends one atomic
/// `ChangeHealth` carrying the old and the new signal.
pub open spec fn publish_transition(
    pre: Publisher,
    post: Publisher,
    m: Option<ComponentMessage>,
    state: Health,
    attributes: Seq<Attribute>,
) -> bool {
    if signal_view_of(state, attributes) == pre.signal@ {
        post == pre && m is None
    } else {
        &&& post.signal@ == signal_view_of(state, attributes)
        &&& m matches Some(ComponentMessage::ChangeHealth(o, n)) && o == pre.signal && n@
            == signal_view_of(state, attributes)
    }
}

impl Publisher {
    /// A fresh publisher, together with the registration message that tells
    /// the component it started publishing the nominal-empty signal.
    pub fn new() -> (r: (Publisher, ComponentMessage))
        ensures
            r.0.signal@ == nominal_view(),
            r.1 matches ComponentMessage::StartPublishing(s) && s@ == nominal_view(),
    {
        (
            Publisher { signal: Signal::nominal() },
            ComponentMessage::StartPublishing(Signal::nominal()),
        )
    }

    /// Get the publisher's current signal.
    pub fn signal(&self) -> (s: &Signal)
        ensures
            *s == self.signal,
    {
        &self.signal
    }

    /// Set the publisher's signal to one with the given severity and
    /// attributes.
    pub fn publish(&mut self, state: Health, attributes: Vec<Attribute>) -> (m: Option<
        ComponentMessage,
    >)
        ensures
            publish_transition(*old(self), *final(self), m, state, attributes@),
    {
        self.change_signal(Signal::new(state, attributes))
    }

    /// Adopt `new_signal` unless it equals the current signal; hand back the
    /// change message when a change happened.
    pub fn change_signal(&mut self, new_signal: Signal) -> (m: Option<ComponentMessage>)
        ensures
            new_signal@ == old(self).signal@ ==> m is None && *final(self) == *old(self),
            new_signal@ != old(self).signal@ ==> final(self).signal == new_signal && (
            m matches Some(ComponentMessage::ChangeHealth(o, n)) && o == old(self).signal && n@
                == new_signal@),
    {
        if new_signal == self.signal {
            None
        } else {
            let copy = new_signal.clone();
            let mut old_signal = new_signal;
            core::mem::swap(&mut self.signal, &mut old_signal);
            Some(ComponentMessage::ChangeHealth(old_signal, copy))
        }
    }

    /// The message a publisher leaves behind when it is dropped: it stops
    /// publishing its current signal. The publisher's own state returns to
    /// nominal, so dropping it twice would withdraw nothing further.
    pub fn stop(&mut self) -> (m: ComponentMessage)
        ensures
            final(self).signal@ == nominal_view(),
            m matches ComponentMessage::StopPublishing(s) && s == old(self).signal,
    {
        let mut old_signal = Signal::nominal();
        core::mem::swap(&mut self.signal, &mut old_signal);
        ComponentMessage::StopPublishing(old_signal)
    }
}

impl Clone for Publisher {
    /// Cloning creates an independent publisher that starts from the
    /// nominal-empty signal: it does not copy the source's current signal,
    /// and — taking the source by shared reference — cannot change it.
    fn clone(&self) -> (r: Self)
        ensures
            r.signal@ == nominal_view(),
    {
        Publisher { signal: Signal::nominal() }
    }
}

/// Publisher round trip: after `publish(state, attributes)`, a second
/// `publish` with the same severity and attributes is a no-op — the publisher
/// is unchanged and no message is sent.
pub proof fn lemma_republish_is_noop(
    p0: Publisher,
    p1: Publisher,
    m1: Option<ComponentMessage>,
    p2: Publisher,
    m2: Option<ComponentMessage>,
    state: Health,
    attributes: Seq<Attribute>,
)
    requires
        publish_transition(p0, p1, m1, state, attributes),
        publish_transition(p1, p2, m2, state, attributes),
    ensures
        p2 == p1,
        m2 is None,
{
}

} // verus!
