//! Signals: the unit of health publication.

use crate::attribute::{Attribute, AttributeView};
use crate::health::Health;
use crate::text::str_eq;
use vstd::prelude::*;

verus! {

/// A health severity together with a set of named attributes, published by a
/// single publisher at a point in time. A signal is immutable once
/// constructed.
///
/// The attribute collection behaves as a set keyed by name: when the same
/// name occurs more than once at construction, the first occurrence wins.
/// Two signals are equal when they carry the same severity and the same set
/// of attributes, whatever order the attributes were given in.
#[derive(Debug)]
pub struct Signal {
    pub state: Health,
    pub attributes: Vec<Attribute>,
}

/// The mathematical content of a [`Signal`]: its severity and its attributes
/// as a set.
#[verifier::ext_equal]
pub struct SignalView {
    pub state: Health,
    pub attrs: Set<AttributeView>,
}

/// The views of a sequence of attributes, in order.
pub open spec fn attr_views(s: Seq<Attribute>) -> Seq<AttributeView> {
    s.map_values(|a: Attribute| a@)
}

/// Whether some attribute in the sequence carries the given name.
pub open spec fn has_name(s: Seq<AttributeView>, name: Seq<char>) -> bool {
    exists|i: int| 0 <= i < s.len() && s[i].name == name
}

/// Whether all attributes in the sequence carry pairwise distinct names.
pub open spec fn unique_names(s: Seq<AttributeView>) -> bool {
    forall|i: int, j: int| 0 <= i < j < s.len() ==> s[i].name != s[j].name
}

/// The subsequence that keeps, for each attribute name, only the first
/// attribute given with that name.
pub open spec fn dedup_by_name(s: Seq<AttributeView>) -> Seq<AttributeView>
    decreases s.len(),
{
    if s.len() == 0 {
        Seq::empty()
    } else {
        let d = dedup_by_name(s.drop_last());
        if has_name(d, s.last().name) {
            d
        } else {
            d.push(s.last())
        }
    }
}

/// Keeping the first attribute of each name leaves pairwise distinct names,
/// and exactly the names that were given.
pub proof fn lemma_dedup_by_name(s: Seq<AttributeView>)
    ensures
        unique_names(dedup_by_name(s)),
        forall|n: Seq<char>|
            #![trigger has_name(dedup_by_name(s), n)]
            #![trigger has_name(s, n)]
            has_name(dedup_by_name(s), n) <==> has_name(s, n),
    decreases s.len(),
{
    if s.len() == 0 {
    } else {
        lemma_dedup_by_name(s.drop_last());
        let d = dedup_by_name(s.drop_last());
        assert forall|n: Seq<char>| has_name(dedup_by_name(s), n) implies has_name(s, n) by {
            if has_name(d, n) {
                assert(has_name(s.drop_last(), n));
                let i = choose|i: int| 0 <= i < s.drop_last().len() && s.drop_last()[i].name == n;
                assert(s[i].name == n);
            }
        }
        assert forall|n: Seq<char>| has_name(s, n) implies has_name(dedup_by_name(s), n) by {
            let i = choose|i: int| 0 <= i < s.len() && s[i].name == n;
            if i < s.len() - 1 {
                assert(s.drop_last()[i].name == n);
                assert(has_name(d, n));
            }
            if has_name(d, n) {
                let k = choose|k: int| 0 <= k < d.len() && d[k].name == n;
                assert(dedup_by_name(s)[k].name == n);
            } else {
                assert(s[i] == s.last());
                assert(dedup_by_name(s)[d.len() as int].name == n);
            }
        }
    }
}

impl View for Signal {
    type V = SignalView;

    open spec fn view(&self) -> SignalView {
        SignalView { state: self.state, attrs: attr_views(self.attributes@).to_set() }
    }
}

/// The view of the canonical initial signal: `Nominal`, with no attributes.
pub open spec fn nominal_view() -> SignalView {
    SignalView { state: Health::Nominal, attrs: Set::empty() }
}

/// Whether some attribute in the vector carries the given name.
fn contains_name(s: &Vec<Attribute>, name: &str) -> (r: bool)
    ensures
        r == has_name(attr_views(s@), name@),
{
    let mut i: usize = 0;
    while i < s.len()
        invariant
            0 <= i <= s@.len(),
            forall|j: int| 0 <= j < i ==> attr_views(s@)[j].name != name@,
        decreases s@.len() - i,
    {
        if str_eq(s[i].name().as_str(), name) {
            assert(attr_views(s@)[i as int].name == name@);
            return true;
        }
        i += 1;
    }
    false
}

impl Signal {
    /// Build a signal with the given severity and attributes. When two
    /// attributes carry the same name, the one given first wins.
    pub fn new(state: Health, attributes: Vec<Attribute>) -> (r: Signal)
        ensures
            r.state == state,
            attr_views(r.attributes@) == dedup_by_name(attr_views(attributes@)),
            unique_names(attr_views(r.attributes@)),
            r@ == (SignalView {
                state,
                attrs: dedup_by_name(attr_views(attributes@)).to_set(),
            }),
    {
        let views = Ghost(attr_views(attributes@));
        let mut out: Vec<Attribute> = Vec::new();
        let mut i: usize = 0;
        while i < attributes.len()
            invariant
                0 <= i <= attributes@.len(),
                views@ == attr_views(attributes@),
                attr_views(out@) == dedup_by_name(views@.take(i as int)),
            decreases attributes@.len() - i,
        {
            let ghost prefix = views@.take(i as int);
            let ghost next = views@.take(i + 1int);
            assert(next.drop_last() =~= prefix);
            assert(next.last() == attributes@[i as int]@);
            let a = &attributes[i];
            if !contains_name(&out, a.name().as_str()) {
                let c = a.clone();
                out.push(c);
                assert(attr_views(out@) =~= dedup_by_name(prefix).push(a@));
            }
            i += 1;
        }
        assert(views@.take(attributes@.len() as int) =~= views@);
        proof {
            lemma_dedup_by_name(attr_views(attributes@));
        }
        Signal { state, attributes: out }
    }

    /// The canonical initial signal: `Nominal` severity, no attributes.
    pub fn nominal() -> (r: Signal)
        ensures
            r.state == Health::Nominal,
            r.attributes@.len() == 0,
            r@ == nominal_view(),
    {
        let r = Signal { state: Health::Nominal, attributes: Vec::new() };
        assert(r@.attrs =~= Set::empty());
        r
    }

    /// The severity this signal reports.
    pub fn state(&self) -> (h: Health)
        ensures
            h == self.state,
            h == self@.state,
    {
        self.state
    }

    /// The attributes this signal carries.
    pub fn attributes(&self) -> (r: &Vec<Attribute>)
        ensures
            *r == self.attributes,
    {
        &self.attributes
    }
}

impl Clone for Signal {
    /// The clone carries the same severity and the same attributes, in the
    /// same order.
    fn clone(&self) -> (r: Self)
        ensures
            r.state == self.state,
            attr_views(r.attributes@) == attr_views(self.attributes@),
            r@ == self@,
    {
        let r = Signal { state: self.state, attributes: self.attributes.clone() };
        assert(attr_views(r.attributes@) =~= attr_views(self.attributes@));
        assert(r@ =~= self@);
        r
    }
}

/// Whether every attribute of `a` also occurs in `b`.
fn attrs_subset(a: &Vec<Attribute>, b: &Vec<Attribute>) -> (r: bool)
    ensures
        r == attr_views(a@).to_set().subset_of(attr_views(b@).to_set()),
{
    let mut i: usize = 0;
    while i < a.len()
        invariant
            0 <= i <= a@.len(),
            forall|j: int| 0 <= j < i ==> attr_views(b@).to_set().contains(attr_views(a@)[j]),
        decreases a@.len() - i,
    {
        if !contains_attr(b, &a[i]) {
            assert(attr_views(a@).to_set().contains(attr_views(a@)[i as int]));
            return false;
        }
        i += 1;
    }
    assert forall|v: AttributeView| attr_views(a@).to_set().contains(v) implies attr_views(
        b@,
    ).to_set().contains(v) by {
        let j = choose|j: int| 0 <= j < attr_views(a@).len() && attr_views(a@)[j] == v;
        assert(attr_views(b@).to_set().contains(attr_views(a@)[j]));
    }
    true
}

/// Whether the vector holds an attribute equal (name and value) to `x`.
fn contains_attr(s: &Vec<Attribute>, x: &Attribute) -> (r: bool)
    ensures
        r == attr_views(s@).to_set().contains(x@),
{
    let mut i: usize = 0;
    while i < s.len()
        invariant
            0 <= i <= s@.len(),
            forall|j: int| 0 <= j < i ==> attr_views(s@)[j] != x@,
        decreases s@.len() - i,
    {
        if s[i] == *x {
            assert(attr_views(s@)[i as int] == x@);
            return true;
        }
        i += 1;
    }
    assert(!attr_views(s@).contains(x@));
    false
}

impl PartialEq for Signal {
    fn eq(&self, other: &Self) -> (r: bool)
        ensures
            r == (self@ == other@),
    {
        let r = self.state.index() == other.state.index() && attrs_subset(
            &self.attributes,
            &other.attributes,
        ) && attrs_subset(&other.attributes, &self.attributes);
        proof {
            if r {
                assert(self@.attrs =~= other@.attrs);
                assert(self@ =~= other@);
            }
        }
        r
    }
}

impl vstd::std_specs::cmp::PartialEqSpecImpl for Signal {
    open spec fn obeys_eq_spec() -> bool {
        true
    }

    open spec fn eq_spec(&self, other: &Self) -> bool {
        self@ == other@
    }
}

} // verus!
