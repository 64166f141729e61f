//! Name/value pairs carried by signals.

use crate::attribute_string::AttributeString;
use crate::attribute_value::{AttributeValue, ValueView};
use crate::text::{lemma_str_cmp_equal, str_cmp_spec, str_compare};
use vstd::prelude::*;
use vstd::std_specs::cmp::{PartialEqSpec, PartialOrdSpec};

verus! {

/// A name/value pair used to provide context about a signal.
///
/// Equality considers both name and value; ordering considers the name alone,
/// so two attributes with the same name compare equal whatever their values.
#[derive(Debug)]
pub struct Attribute {
    pub name: AttributeString,
    pub value: AttributeValue,
}

/// The mathematical content of an [`Attribute`]: its name's characters and
/// its value's content.
#[verifier::ext_equal]
pub struct AttributeView {
    pub name: Seq<char>,
    pub value: ValueView,
}

impl View for Attribute {
    type V = AttributeView;

    open spec fn view(&self) -> AttributeView {
        AttributeView { name: self.name@, value: self.value@ }
    }
}

impl Attribute {
    /// Create a new attribute with the given name and value.
    pub fn new(name: AttributeString, value: AttributeValue) -> (r: Self)
        ensures
            r.name == name,
            r.value == value,
            r@ == (AttributeView { name: name@, value: value@ }),
    {
        Attribute { name, value }
    }

    /// Get the name of the attribute.
    pub fn name(&self) -> (r: &AttributeString)
        ensures
            *r == self.name,
            r@ == self@.name,
    {
        &self.name
    }

    /// Get the value of the attribute.
    pub fn value(&self) -> (r: &AttributeValue)
        ensures
            *r == self.value,
            r@ == self@.value,
    {
        &self.value
    }
}

impl Clone for Attribute {
    /// The clone holds the same name and value as the original.
    fn clone(&self) -> (r: Self)
        ensures
            r@ == self@,
    {
        Attribute { name: self.name.clone(), value: self.value.clone() }
    }
}

impl PartialEq for Attribute {
    fn eq(&self, other: &Self) -> (r: bool)
        ensures
            r == (self@ == other@),
    {
        self.name == other.name && self.value == other.value
    }
}

impl vstd::std_specs::cmp::PartialEqSpecImpl for Attribute {
    open spec fn obeys_eq_spec() -> bool {
        true
    }

    open spec fn eq_spec(&self, other: &Self) -> bool {
        self@ == other@
    }
}

impl PartialOrd for Attribute {
    fn partial_cmp(&self, other: &Self) -> (r: Option<core::cmp::Ordering>) {
        Some(str_compare(self.name.as_str(), other.name.as_str()))
    }
}

impl vstd::std_specs::cmp::PartialOrdSpecImpl for Attribute {
    open spec fn obeys_partial_cmp_spec() -> bool {
        true
    }

    open spec fn partial_cmp_spec(&self, other: &Self) -> Option<core::cmp::Ordering> {
        Some(str_cmp_spec(self@.name, other@.name))
    }
}

impl<T, U> From<(T, U)> for Attribute where
    AttributeString: From<T>,
    AttributeValue: From<U>,
 {
    /// Builds the attribute from a `(name, value)` pair.
    fn from(kv: (T, U)) -> (r: Self) {
        let (k, v) = kv;
        Attribute { name: AttributeString::from(k), value: AttributeValue::from(v) }
    }
}

impl<T, U> vstd::std_specs::convert::FromSpecImpl<(T, U)> for Attribute where
    AttributeString: From<T>,
    AttributeValue: From<U>,
 {
    open spec fn obeys_from_spec() -> bool {
        false
    }

    open spec fn from_spec(kv: (T, U)) -> Self {
        arbitrary()
    }
}

impl core::hash::Hash for Attribute {
    /// Relies on `str::hash`: the attribute hashes by its name's characters
    /// alone, so attributes with equal names collide whatever their values.
    #[verifier::external_body]
    fn hash<H: core::hash::Hasher>(&self, state: &mut H) {
        self.name().as_str().hash(state)
    }
}

/// Attributes with equal names compare equal under ordering, regardless of
/// value; they still compare unequal under structural equality when their
/// values differ.
pub proof fn lemma_attribute_eq_by_name(a: Attribute, b: Attribute)
    ensures
        (a.partial_cmp_spec(&b) == Some(core::cmp::Ordering::Equal)) <==> a@.name == b@.name,
        a@.name == b@.name && a@.value != b@.value ==> !a.eq_spec(&b),
{
    lemma_str_cmp_equal(a@.name, b@.name);
}

} // verus!
