//! `ParsedValue` is the value-level twin of [`ParseResult`]: the same
//! tri-state wrapper under the name some callers use for it.  Both types
//! decode tokens identically through [`TryParse`].

use vstd::prelude::*;

use crate::parse_result::{spec_parse_field, ParseResultV, TryParse};
use crate::text;

verus! {

/// One decoded column: the value, the undecodable raw token, or nothing.
#[derive(Clone, Debug, PartialEq)]
pub enum ParsedValue<T> {
    Missing,
    Fallback(String),
    Parsed(T),
}

impl<T: DeepView> DeepView for ParsedValue<T> {
    type V = ParseResultV<T::V>;

    open spec fn deep_view(&self) -> ParseResultV<T::V> {
        match self {
            ParsedValue::Missing => ParseResultV::Missing,
            ParsedValue::Fallback(s) => ParseResultV::Fallback(s@),
            ParsedValue::Parsed(v) => ParseResultV::Parsed(v.deep_view()),
        }
    }
}

impl<T> ParsedValue<T> {
    /// An absent value.
    pub fn new() -> (r: Self)
        ensures
            r is Missing,
    {
        ParsedValue::Missing
    }

    /// Wraps a successfully decoded value.
    pub fn some(value: T) -> (r: Self)
        ensures
            r == ParsedValue::Parsed(value),
    {
        ParsedValue::Parsed(value)
    }

    /// Wraps the raw token of a failed decode.
    pub fn fallback(message: String) -> (r: Self)
        ensures
            r == ParsedValue::<T>::Fallback(message),
    {
        ParsedValue::Fallback(message)
    }

    pub fn is_none(&self) -> (r: bool)
        ensures
            r == (self is Missing),
    {
        matches!(self, ParsedValue::Missing)
    }

    pub fn is_some(&self) -> (r: bool)
        ensures
            r == (self is Parsed),
    {
        matches!(self, ParsedValue::Parsed(_))
    }

    pub fn is_fallback(&self) -> (r: bool)
        ensures
            r == (self is Fallback),
    {
        matches!(self, ParsedValue::Fallback(_))
    }

    /// The raw token kept by a `Fallback`, if this is one.
    pub fn unwrap_fallback(self) -> (r: Option<String>)
        ensures
            match self {
                ParsedValue::Fallback(msg) => r == Some(msg),
                _ => r is None,
            },
    {
        if let ParsedValue::Fallback(msg) = self {
            Some(msg)
        } else {
            None
        }
    }
}

impl<T: TryParse> ParsedValue<T> {
    /// Reads one raw token exactly as [`crate::ParseResult::parse`] does.
    pub fn parse(input: &str) -> (r: Self)
        ensures
            r.deep_view() == spec_parse_field::<T>(input@),
    {
        if text::str_eq(input, "-") {
            ParsedValue::Missing
        } else {
            match T::try_parse(input) {
                Ok(value) => ParsedValue::Parsed(value),
                Err(original) => ParsedValue::Fallback(original),
            }
        }
    }
}

} // verus!
