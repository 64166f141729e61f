//! The value portion of a signal attribute.

use crate::attribute_string::AttributeString;
use vstd::prelude::*;

verus! {

/// The value portion of a signal attribute: a tagged union over a signed
/// integer, a floating-point value, a string, and a boolean.
///
/// A floating-point value is carried as the bit pattern of its IEEE-754
/// double-precision representation, so that the library can reason about it
/// as a plain 64-bit word; callers that work with `f64` convert with
/// `f64::to_bits` / `f64::from_bits`.
#[non_exhaustive]
#[derive(Debug)]
pub enum AttributeValue {
    /// A signed integer value.
    Int(i64),
    /// A floating-point value, as the bit pattern of an IEEE-754 double.
    Double(u64),
    /// A string value.
    String(AttributeString),
    /// A boolean value.
    Boolean(bool),
}

/// The mathematical content of an [`AttributeValue`]: the same union with the
/// string replaced by its characters.
pub enum ValueView {
    Int(i64),
    Double(u64),
    Str(Seq<char>),
    Bool(bool),
}

impl View for AttributeValue {
    type V = ValueView;

    open spec fn view(&self) -> ValueView {
        match self {
            AttributeValue::Int(i) => ValueView::Int(*i),
            AttributeValue::Double(d) => ValueView::Double(*d),
            AttributeValue::String(s) => ValueView::Str(s@),
            AttributeValue::Boolean(b) => ValueView::Bool(*b),
        }
    }
}

impl Clone for AttributeValue {
    /// The clone holds the same content as the original.
    fn clone(&self) -> (r: Self)
        ensures
            r@ == self@,
    {
        match self {
            AttributeValue::Int(i) => AttributeValue::Int(*i),
            AttributeValue::Double(d) => AttributeValue::Double(*d),
            AttributeValue::String(s) => AttributeValue::String(s.clone()),
            AttributeValue::Boolean(b) => AttributeValue::Boolean(*b),
        }
    }
}

impl PartialEq for AttributeValue {
    fn eq(&self, other: &Self) -> (r: bool)
        ensures
            r == (self@ == other@),
    {
        match (self, other) {
            (AttributeValue::Int(a), AttributeValue::Int(b)) => a == b,
            (AttributeValue::Double(a), AttributeValue::Double(b)) => a == b,
            (AttributeValue::String(a), AttributeValue::String(b)) => a == b,
            (AttributeValue::Boolean(a), AttributeValue::Boolean(b)) => a == b,
            _ => false,
        }
    }
}

impl vstd::std_specs::cmp::PartialEqSpecImpl for AttributeValue {
    open spec fn obeys_eq_spec() -> bool {
        true
    }

    open spec fn eq_spec(&self, other: &Self) -> bool {
        self@ == other@
    }
}

impl From<String> for AttributeValue {
    /// Wraps the string as a boxed string value.
    fn from(s: String) -> (r: Self) {
        AttributeValue::String(AttributeString::from(s))
    }
}

impl vstd::std_specs::convert::FromSpecImpl<String> for AttributeValue {
    open spec fn obeys_from_spec() -> bool {
        true
    }

    open spec fn from_spec(s: String) -> Self {
        AttributeValue::String(AttributeString::Boxed(s))
    }
}

impl From<&str> for AttributeValue {
    /// Copies the slice into a boxed string value.
    fn from(s: &str) -> (r: Self) {
        AttributeValue::String(AttributeString::from(s))
    }
}

// A fresh `String` cannot be written down as a spec-level value, so this
// conversion promises nothing through `From`; `as_str` exposes the content.
impl vstd::std_specs::convert::FromSpecImpl<&str> for AttributeValue {
    open spec fn obeys_from_spec() -> bool {
        false
    }

    open spec fn from_spec(s: &str) -> Self {
        arbitrary()
    }
}

impl From<Box<str>> for AttributeValue {
    /// Moves the boxed slice into a boxed string value.
    fn from(s: Box<str>) -> (r: Self) {
        AttributeValue::String(AttributeString::from(s))
    }
}

// As above: the boxed slice becomes a fresh `String`, which has no
// spec-level name; the conversion promises nothing through `From`.
impl vstd::std_specs::convert::FromSpecImpl<Box<str>> for AttributeValue {
    open spec fn obeys_from_spec() -> bool {
        false
    }

    open spec fn from_spec(s: Box<str>) -> Self {
        arbitrary()
    }
}

impl From<bool> for AttributeValue {
    /// Wraps the boolean.
    fn from(b: bool) -> (r: Self) {
        AttributeValue::Boolean(b)
    }
}

impl vstd::std_specs::convert::FromSpecImpl<bool> for AttributeValue {
    open spec fn obeys_from_spec() -> bool {
        true
    }

    open spec fn from_spec(b: bool) -> Self {
        AttributeValue::Boolean(b)
    }
}

impl From<i64> for AttributeValue {
    /// Wraps the integer.
    fn from(i: i64) -> (r: Self) {
        AttributeValue::Int(i)
    }
}

impl vstd::std_specs::convert::FromSpecImpl<i64> for AttributeValue {
    open spec fn obeys_from_spec() -> bool {
        true
    }

    open spec fn from_spec(i: i64) -> Self {
        AttributeValue::Int(i)
    }
}

} // verus!
