//! Bit-set filters controlling the detail level of health reports.

use crate::health::Health;
use vstd::prelude::*;

verus! {

/// Controls the information collected in health reports: one bit per
/// severity. A report lists individual publisher signals only for severities
/// whose bit is set; summary counts are always included.
#[derive(Debug, Clone, Copy, PartialEq, Eq, Structural)]
pub struct Filter {
    pub bits: u32,
}

impl Filter {
    /// A filter that selects no severity: reports carry counts only.
    pub fn empty() -> (f: Filter)
        ensures
            f.bits == 0,
            forall|h: Health| !f.spec_includes(h),
    {
        let f = Filter { bits: 0 };
        proof {
            assert forall|h: Health| !f.spec_includes(h) by {
                assert(0u32 & (1u32 << (h.severity() as u32)) == 0) by (bit_vector);
            }
        }
        f
    }

    /// A filter that selects every severity.
    pub fn all() -> (f: Filter)
        ensures
            f.bits == 0x1f,
            forall|h: Health| f.spec_includes(h),
    {
        let f = Filter { bits: 0x1f };
        proof {
            assert forall|h: Health| f.spec_includes(h) by {
                let s = h.severity() as u32;
                assert(s <= 4 ==> 0x1fu32 & (1u32 << s) != 0) by (bit_vector);
            }
        }
        f
    }

    /// The filter selecting publisher signals with `Nominal` health state.
    pub fn nominal() -> (f: Filter)
        ensures
            f.bits == 1,
    {
        Filter { bits: 1 }
    }

    /// The filter selecting publisher signals with `Degraded` health state.
    pub fn degraded() -> (f: Filter)
        ensures
            f.bits == 2,
    {
        Filter { bits: 2 }
    }

    /// The filter selecting publisher signals with `Critical` health state.
    pub fn critical() -> (f: Filter)
        ensures
            f.bits == 4,
    {
        Filter { bits: 4 }
    }

    /// The filter selecting publisher signals with `Down` health state.
    pub fn down() -> (f: Filter)
        ensures
            f.bits == 8,
    {
        Filter { bits: 8 }
    }

    /// The filter selecting publisher signals with `Unrecoverable` health
    /// state.
    pub fn unrecoverable() -> (f: Filter)
        ensures
            f.bits == 16,
    {
        Filter { bits: 16 }
    }

    /// The raw bit set, one bit per severity in scale order.
    pub fn bits(&self) -> (b: u32)
        ensures
            b == self.bits,
    {
        self.bits
    }

    /// The filter selecting what either filter selects.
    pub fn union(self, other: Filter) -> (f: Filter)
        ensures
            f.bits == self.bits | other.bits,
    {
        Filter { bits: self.bits | other.bits }
    }

    /// Whether signals of the given severity are selected.
    pub open spec fn spec_includes(self, h: Health) -> bool {
        self.bits & (1u32 << (h.severity() as u32)) != 0
    }

    /// Whether signals of the given severity are selected.
    pub fn includes(&self, h: Health) -> (r: bool)
        ensures
            r == self.spec_includes(h),
    {
        let i = h.index();
        self.bits & (1u32 << (i as u32)) != 0
    }
}

} // verus!
