//! A number written either as an integer or as a string.

use vstd::prelude::*;
use crate::number::{parse_i32, spec_parse_i32};
use crate::options::{signed_decimal, signed_decimal_of};
use crate::text::{copy_string, str_eq};

verus! {

#[derive(Debug, Clone, PartialEq, Eq)]
pub enum IntOrString {
    Int(i32),
    String(String),
}


impl IntOrString {
    /// A string that reads as a decimal `i32` becomes that integer; any
    /// other string stays a string.
    pub fn from_string(s: String) -> (r: IntOrString)
        ensures
            spec_parse_i32(s@) matches Some(v) ==> r == IntOrString::Int(v),
            spec_parse_i32(s@) is None ==> r == IntOrString::String(s),
    {
        match parse_i32(s.as_str()) {
            Some(v) => IntOrString::Int(v),
            None => IntOrString::String(s),
        }
    }

    /// Equal to the integer `other`: only an `Int` of that value is.
    pub fn eq_int(&self, other: i32) -> (r: bool)
        ensures
            r == (*self == IntOrString::Int(other)),
    {
        match self {
            IntOrString::Int(i) => *i == other,
            IntOrString::String(_) => false,
        }
    }

    /// Equal to the text `other`: an `Int` when the text reads as its
    /// value, a `String` when the texts are the same.
    pub fn eq_str(&self, other: &str) -> (r: bool)
        ensures
            self matches IntOrString::Int(i) ==> r == (spec_parse_i32(other@) == Some(*i)),
            self matches IntOrString::String(s) ==> r == (s@ == other@),
    {
        match self {
            IntOrString::Int(i) => match parse_i32(other) {
                Some(v) => v == *i,
                None => false,
            },
            IntOrString::String(s) => str_eq(s.as_str(), other),
        }
    }

    /// The value as text.
    pub fn to_string(&self) -> (r: String)
        ensures
            self matches IntOrString::Int(i) ==> r@ == signed_decimal_of(*i as int),
            self matches IntOrString::String(s) ==> r@ == s@,
    {
        match self {
            IntOrString::Int(i) => signed_decimal(*i as i64),
            IntOrString::String(s) => copy_string(s),
        }
    }
}

impl From<i32> for IntOrString {
    fn from(i: i32) -> (r: IntOrString) {
        IntOrString::Int(i)
    }
}

impl vstd::std_specs::convert::FromSpecImpl<i32> for IntOrString {
    open spec fn obeys_from_spec() -> bool {
        true
    }

    open spec fn from_spec(i: i32) -> IntOrString {
        IntOrString::Int(i)
    }
}

impl From<String> for IntOrString {
    fn from(s: String) -> (r: IntOrString) {
        IntOrString::from_string(s)
    }
}

impl vstd::std_specs::convert::FromSpecImpl<String> for IntOrString {
    open spec fn obeys_from_spec() -> bool {
        true
    }

    open spec fn from_spec(s: String) -> IntOrString {
        match spec_parse_i32(s@) {
            Some(v) => IntOrString::Int(v),
            None => IntOrString::String(s),
        }
    }
}

} // verus!
