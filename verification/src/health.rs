//! The five-level severity scale used throughout the pipeline.

use vstd::prelude::*;

verus! {

/// Represents the health/severity of an individual component or of the entire
/// process.
///
/// Ordering reflects severity from best to worst:
/// `Nominal < Degraded < Critical < Down < Unrecoverable`.
///
/// Typical aggregation picks the maximum (most severe) state among inputs.
#[derive(Debug, Clone, Copy, PartialEq, Eq, Structural, Hash)]
pub enum Health {
    /// Everything is functioning as expected.
    Nominal,
    /// Functionality is available but with minor impairment or risk.
    Degraded,
    /// Severe impairment that materially affects functionality.
    Critical,
    /// Service or component is effectively down/unavailable, but recoverable.
    Down,
    /// Unrecoverable failure requiring deeper intervention.
    Unrecoverable,
}

/// The number of distinct severity levels.
pub const NUM_HEALTH_STATES: usize = 5;

impl Health {
    /// The position of this severity on the scale, from 0 (`Nominal`)
    /// to 4 (`Unrecoverable`). Higher is more severe.
    pub open spec fn severity(self) -> int {
        match self {
            Health::Nominal => 0,
            Health::Degraded => 1,
            Health::Critical => 2,
            Health::Down => 3,
            Health::Unrecoverable => 4,
        }
    }

    /// The severity with the given position on the scale.
    pub open spec fn from_severity(i: int) -> Health {
        if i == 1 {
            Health::Degraded
        } else if i == 2 {
            Health::Critical
        } else if i == 3 {
            Health::Down
        } else if i == 4 {
            Health::Unrecoverable
        } else {
            Health::Nominal
        }
    }

    /// The position of this severity on the scale, usable as an index into
    /// per-severity tables.
    pub fn index(&self) -> (i: usize)
        ensures
            i == self.severity(),
    {
        match self {
            Health::Nominal => 0,
            Health::Degraded => 1,
            Health::Critical => 2,
            Health::Down => 3,
            Health::Unrecoverable => 4,
        }
    }

    /// The severity at the given position on the scale; positions outside the
    /// scale map to `Nominal`.
    pub fn at_index(i: usize) -> (h: Health)
        ensures
            h == Health::from_severity(i as int),
    {
        if i == 1 {
            Health::Degraded
        } else if i == 2 {
            Health::Critical
        } else if i == 3 {
            Health::Down
        } else if i == 4 {
            Health::Unrecoverable
        } else {
            Health::Nominal
        }
    }

    /// The more severe of the two states.
    pub fn worst(self, other: Health) -> (h: Health)
        ensures
            h.severity() == if self.severity() >= other.severity() {
                self.severity()
            } else {
                other.severity()
            },
            h == self || h == other,
    {
        if self.index() >= other.index() {
            self
        } else {
            other
        }
    }

    /// The name of the severity, as shown on dashboards and in serialized
    /// reports.
    pub fn as_str(&self) -> (s: &'static str)
        ensures
            self == Health::Nominal ==> s@ == "Nominal"@,
            self == Health::Degraded ==> s@ == "Degraded"@,
            self == Health::Critical ==> s@ == "Critical"@,
            self == Health::Down ==> s@ == "Down"@,
            self == Health::Unrecoverable ==> s@ == "Unrecoverable"@,
    {
        match self {
            Health::Nominal => "Nominal",
            Health::Degraded => "Degraded",
            Health::Critical => "Critical",
            Health::Down => "Down",
            Health::Unrecoverable => "Unrecoverable",
        }
    }
}

/// Round-trip between a severity and its position on the scale.
pub proof fn lemma_severity_roundtrip(h: Health)
    ensures
        Health::from_severity(h.severity()) == h,
{
}

impl Default for Health {
    /// The default severity is `Nominal`.
    fn default() -> (h: Self)
        ensures
            h == Health::Nominal,
    {
        Health::Nominal
    }
}

impl PartialOrd for Health {
    fn partial_cmp(&self, other: &Self) -> (r: Option<core::cmp::Ordering>) {
        let a = self.index();
        let b = other.index();
        if a < b {
            Some(core::cmp::Ordering::Less)
        } else if a == b {
            Some(core::cmp::Ordering::Equal)
        } else {
            Some(core::cmp::Ordering::Greater)
        }
    }
}

impl vstd::std_specs::cmp::PartialOrdSpecImpl for Health {
    open spec fn obeys_partial_cmp_spec() -> bool {
        true
    }

    open spec fn partial_cmp_spec(&self, other: &Self) -> Option<core::cmp::Ordering> {
        if self.severity() < other.severity() {
            Some(core::cmp::Ordering::Less)
        } else if self.severity() == other.severity() {
            Some(core::cmp::Ordering::Equal)
        } else {
            Some(core::cmp::Ordering::Greater)
        }
    }
}

} // verus!
