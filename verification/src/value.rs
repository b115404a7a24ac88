//! The closed variant type a store persists, and the fallible narrowing
//! each typed accessor performs on it.

use crate::error::Error;
use crate::safety_data::{SafetyData, SafetyDataView};
use vstd::prelude::*;
use vstd::string::StringExecFns;

verus! {

/// The mathematical content of a stored [`Value`].
pub enum ValueView {
    Text(Seq<char>),
    Safety(SafetyDataView),
}

/// A storable value: either text (owner account, waypoint) or a
/// structured safety record. Accessors narrow a value to the variant they
/// expect and fail with a typed error on a mismatch, never an unchecked
/// cast.
#[derive(Debug, PartialEq, Eq)]
pub enum Value {
    Text(String),
    Safety(SafetyData),
}

impl View for Value {
    type V = ValueView;

    open spec fn view(&self) -> ValueView {
        match self {
            Value::Text(s) => ValueView::Text(s@),
            Value::Safety(d) => ValueView::Safety(d@),
        }
    }
}

impl Clone for Value {
    fn clone(&self) -> (r: Self)
        ensures
            r@ == self@,
    {
        match self {
            Value::Text(s) => Value::Text(String::from_str(s.as_str())),
            Value::Safety(d) => Value::Safety(d.clone()),
        }
    }
}

/// What narrowing a value to text yields.
pub open spec fn spec_string_of(v: ValueView) -> Result<Seq<char>, Error> {
    match v {
        ValueView::Text(s) => Ok(s),
        ValueView::Safety(_) => Err(Error::UnexpectedValueType),
    }
}

/// What narrowing a value to a safety record yields.
pub open spec fn spec_safety_of(v: ValueView) -> Result<SafetyDataView, Error> {
    match v {
        ValueView::Safety(d) => Ok(d),
        ValueView::Text(_) => Err(Error::UnexpectedValueType),
    }
}

impl Value {
    /// Narrows to the text variant.
    pub fn string(self) -> (r: Result<String, Error>)
        ensures
            match r {
                Ok(s) => spec_string_of(self@) == Ok::<Seq<char>, Error>(s@),
                Err(e) => spec_string_of(self@) == Err::<Seq<char>, Error>(e),
            },
    {
        match self {
            Value::Text(s) => Ok(s),
            Value::Safety(_) => Err(Error::UnexpectedValueType),
        }
    }

    /// Narrows to the safety-record variant.
    pub fn safety_data(self) -> (r: Result<SafetyData, Error>)
        ensures
            match r {
                Ok(d) => spec_safety_of(self@) == Ok::<SafetyDataView, Error>(d@),
                Err(e) => spec_safety_of(self@) == Err::<SafetyDataView, Error>(e),
            },
    {
        match self {
            Value::Safety(d) => Ok(d),
            Value::Text(_) => Err(Error::UnexpectedValueType),
        }
    }
}

/// A read result handed back by a store: the stored value.
pub struct Record {
    pub value: Value,
}

} // verus!
