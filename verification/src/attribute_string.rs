//! Strings used in signal attributes.

use crate::text::{lemma_str_cmp_equal, str_cmp_spec, str_compare, str_eq};
use vstd::prelude::*;
use vstd::std_specs::cmp::PartialOrdSpec;

verus! {

/// A string used in a signal's attributes.
///
/// Two attribute strings are the same when they hold the same characters; the
/// static/boxed distinction is a storage detail and never observable through
/// comparisons.
#[derive(Debug, Eq)]
pub enum AttributeString {
    /// A string with static lifetime.
    Static(&'static str),
    /// A boxed string.
    Boxed(String),
}

impl View for AttributeString {
    type V = Seq<char>;

    open spec fn view(&self) -> Seq<char> {
        match self {
            AttributeString::Static(s) => s.view(),
            AttributeString::Boxed(s) => s.view(),
        }
    }
}

impl AttributeString {
    /// Create a new `AttributeString` from a static string.
    pub fn new(value: &'static str) -> (r: Self)
        ensures
            r == AttributeString::Static(value),
            r@ == value@,
    {
        AttributeString::Static(value)
    }

    /// Get the attribute string as a string slice.
    pub fn as_str(&self) -> (s: &str)
        ensures
            s@ == self@,
    {
        match self {
            AttributeString::Static(s) => s,
            AttributeString::Boxed(s) => s.as_str(),
        }
    }
}

impl Clone for AttributeString {
    /// The clone holds the same characters as the original.
    fn clone(&self) -> (r: Self)
        ensures
            r@ == self@,
    {
        match self {
            AttributeString::Static(s) => AttributeString::Static(s),
            AttributeString::Boxed(s) => AttributeString::Boxed(s.clone()),
        }
    }
}

impl PartialEq for AttributeString {
    fn eq(&self, other: &Self) -> (r: bool)
        ensures
            r == (self@ == other@),
    {
        str_eq(self.as_str(), other.as_str())
    }
}

impl vstd::std_specs::cmp::PartialEqSpecImpl for AttributeString {
    open spec fn obeys_eq_spec() -> bool {
        true
    }

    open spec fn eq_spec(&self, other: &Self) -> bool {
        self@ == other@
    }
}

impl PartialOrd for AttributeString {
    fn partial_cmp(&self, other: &Self) -> (r: Option<core::cmp::Ordering>) {
        Some(str_compare(self.as_str(), other.as_str()))
    }
}

impl vstd::std_specs::cmp::PartialOrdSpecImpl for AttributeString {
    open spec fn obeys_partial_cmp_spec() -> bool {
        true
    }

    open spec fn partial_cmp_spec(&self, other: &Self) -> Option<core::cmp::Ordering> {
        Some(str_cmp_spec(self@, other@))
    }
}

/// Attribute strings order by their characters: they compare `Equal` exactly
/// when they hold the same characters.
pub proof fn lemma_attribute_string_cmp_equal(a: AttributeString, b: AttributeString)
    ensures
        (a.partial_cmp_spec(&b) == Some(core::cmp::Ordering::Equal)) <==> a@ == b@,
{
    lemma_str_cmp_equal(a@, b@);
}

impl From<String> for AttributeString {
    /// Wraps the string in the boxed variant.
    fn from(s: String) -> (r: Self) {
        AttributeString::Boxed(s)
    }
}

impl vstd::std_specs::convert::FromSpecImpl<String> for AttributeString {
    open spec fn obeys_from_spec() -> bool {
        true
    }

    open spec fn from_spec(s: String) -> Self {
        AttributeString::Boxed(s)
    }
}

impl From<&str> for AttributeString {
    /// Copies the slice into the boxed variant.
    fn from(s: &str) -> (r: Self) {
        AttributeString::Boxed(s.to_owned())
    }
}

// A fresh `String` cannot be written down as a spec-level value, so this
// conversion promises nothing through `From`; `as_str` exposes the content.
impl vstd::std_specs::convert::FromSpecImpl<&str> for AttributeString {
    open spec fn obeys_from_spec() -> bool {
        false
    }

    open spec fn from_spec(s: &str) -> Self {
        arbitrary()
    }
}

/// Relies on `str::into_string`: the returned `String` holds the characters
/// of the boxed slice.
#[verifier::external_body]
fn box_str_into_string(s: Box<str>) -> (r: String)
    ensures
        r@ == s@,
{
    s.into_string()
}

impl From<Box<str>> for AttributeString {
    /// Moves the boxed slice into the boxed variant.
    fn from(s: Box<str>) -> (r: Self) {
        AttributeString::Boxed(box_str_into_string(s))
    }
}

// As above: the boxed slice becomes a fresh `String`, which has no
// spec-level name; the conversion promises nothing through `From`.
impl vstd::std_specs::convert::FromSpecImpl<Box<str>> for AttributeString {
    open spec fn obeys_from_spec() -> bool {
        false
    }

    open spec fn from_spec(s: Box<str>) -> Self {
        arbitrary()
    }
}

impl core::hash::Hash for AttributeString {
    /// Relies on `str::hash`: equal strings feed the hasher identically, so
    /// both variants hash by content alone.
    #[verifier::external_body]
    fn hash<H: core::hash::Hasher>(&self, state: &mut H) {
        self.as_str().hash(state)
    }
}

impl core::borrow::Borrow<str> for AttributeString {
    /// Exposes the characters; agrees with `as_str`.
    fn borrow(&self) -> &str {
        self.as_str()
    }
}

} // verus!
