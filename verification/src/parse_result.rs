//! The tri-state value model: every scalar column of the format is read into
//! a [`ParseResult`], which is `Parsed` on success, `Fallback` with the
//! original token when the token cannot be decoded, and `Missing` for the
//! explicit absence marker `"-"` or an absent column.

use vstd::prelude::*;

use crate::num;
use crate::text;

verus! {

/// One decoded column: the value, the undecodable raw token, or nothing.
///
/// A value is never both `Fallback` and `Missing`; the raw token is kept so
/// that malformed input degrades to diagnosable data instead of halting the
/// parse.
#[derive(Clone, Debug, PartialEq)]
pub enum ParseResult<T> {
    Missing,
    Fallback(String),
    Parsed(T),
}

/// The mathematical image of a [`ParseResult`]: raw tokens become character
/// sequences and values their own deep views.
#[verifier::ext_equal]
pub enum ParseResultV<V> {
    Missing,
    Fallback(Seq<char>),
    Parsed(V),
}

impl<T: DeepView> DeepView for ParseResult<T> {
    type V = ParseResultV<T::V>;

    open spec fn deep_view(&self) -> ParseResultV<T::V> {
        match self {
            ParseResult::Missing => ParseResultV::Missing,
            ParseResult::Fallback(s) => ParseResultV::Fallback(s@),
            ParseResult::Parsed(v) => ParseResultV::Parsed(v.deep_view()),
        }
    }
}

/// A type whose values can be decoded from a raw token.
///
/// `parse_spec` fixes, for every token, whether decoding succeeds and which
/// value (as a deep view) it yields; `try_parse` must follow it exactly and
/// hand back the original token on failure.
pub trait TryParse: Sized + DeepView {
    spec fn parse_spec(s: Seq<char>) -> Option<Self::V>;

    fn try_parse(input: &str) -> (r: Result<Self, String>)
        ensures
            match r {
                Ok(v) => Self::parse_spec(input@) == Some(v.deep_view()),
                Err(e) => Self::parse_spec(input@) is None && e@ == input@,
            },
    ;
}

/// What reading one token into a tri-state field yields: the token `"-"` is
/// always `Missing`, a decodable token is `Parsed`, anything else falls back
/// to the raw token.
pub open spec fn spec_parse_field<T: TryParse>(s: Seq<char>) -> ParseResultV<T::V> {
    if s == "-"@ {
        ParseResultV::Missing
    } else {
        match T::parse_spec(s) {
            Some(v) => ParseResultV::Parsed(v),
            None => ParseResultV::Fallback(s),
        }
    }
}

/// The tri-state rule: the explicit absence marker `"-"` reads as
/// `Missing` for every decoded type.
pub proof fn lemma_dash_is_missing<T: TryParse>()
    ensures
        spec_parse_field::<T>("-"@) is Missing,
{
}

/// A string column never falls back: every token but the absence marker
/// reads as `Parsed` and keeps its characters.
pub proof fn lemma_string_always_parses(s: Seq<char>)
    ensures
        s != "-"@ ==> spec_parse_field::<String>(s) == ParseResultV::<Seq<char>>::Parsed(s),
{
}

impl<T> ParseResult<T> {
    /// An absent value.
    pub fn new() -> (r: Self)
        ensures
            r is Missing,
    {
        ParseResult::Missing
    }

    /// Wraps a successfully decoded value.
    pub fn some(value: T) -> (r: Self)
        ensures
            r == ParseResult::Parsed(value),
    {
        ParseResult::Parsed(value)
    }

    /// Wraps the raw token of a failed decode.
    pub fn fallback(message: String) -> (r: Self)
        ensures
            r == ParseResult::<T>::Fallback(message),
    {
        ParseResult::Fallback(message)
    }

    pub fn is_none(&self) -> (r: bool)
        ensures
            r == (self is Missing),
    {
        matches!(self, ParseResult::Missing)
    }

    pub fn is_some(&self) -> (r: bool)
        ensures
            r == (self is Parsed),
    {
        matches!(self, ParseResult::Parsed(_))
    }

    pub fn is_fallback(&self) -> (r: bool)
        ensures
            r == (self is Fallback),
    {
        matches!(self, ParseResult::Fallback(_))
    }

    /// The raw token kept by a `Fallback`, if this is one.
    pub fn unwrap_fallback(self) -> (r: Option<String>)
        ensures
            match self {
                ParseResult::Fallback(msg) => r == Some(msg),
                _ => r is None,
            },
    {
        if let ParseResult::Fallback(msg) = self {
            Some(msg)
        } else {
            None
        }
    }
}

impl<T: TryParse> ParseResult<T> {
    /// Reads one raw token: `"-"` is `Missing`, a decodable token is
    /// `Parsed`, and any other token is kept as `Fallback`.
    pub fn parse(input: &str) -> (r: Self)
        ensures
            r.deep_view() == spec_parse_field::<T>(input@),
    {
        if text::str_eq(input, "-") {
            ParseResult::Missing
        } else {
            match T::try_parse(input) {
                Ok(value) => ParseResult::Parsed(value),
                Err(original) => ParseResult::Fallback(original),
            }
        }
    }
}

/// A value that can render itself as text.
pub trait DisplayText {
    spec fn spec_text(&self) -> Seq<char>;

    fn display_text(&self) -> (r: String)
        ensures
            r@ == self.spec_text(),
    ;
}

impl DisplayText for String {
    open spec fn spec_text(&self) -> Seq<char> {
        self@
    }

    fn display_text(&self) -> (r: String)
        ensures
            r@ == self.spec_text(),
    {
        self.clone()
    }
}

impl<T: DisplayText> ParseResult<T> {
    /// The value's text, a fallback's raw token marked as such, or nothing.
    pub fn format_display(&self) -> (r: Option<String>)
        ensures
            match self {
                ParseResult::Parsed(v) => r is Some && r->Some_0@ == v.spec_text(),
                ParseResult::Fallback(s) => r is Some && r->Some_0@ == s@ + " (fallback)"@,
                ParseResult::Missing => r is None,
            },
    {
        match self {
            ParseResult::Parsed(value) => Some(value.display_text()),
            ParseResult::Fallback(original) => {
                let mut out = original.clone();
                out.append(" (fallback)");
                Some(out)
            }
            ParseResult::Missing => None,
        }
    }
}

impl TryParse for String {
    open spec fn parse_spec(s: Seq<char>) -> Option<Seq<char>> {
        Some(s)
    }

    fn try_parse(input: &str) -> (r: Result<Self, String>)
        ensures
            match r {
                Ok(v) => Self::parse_spec(input@) == Some(v.deep_view()),
                Err(e) => Self::parse_spec(input@) is None && e@ == input@,
            },
    {
        Ok(String::from_str(input))
    }
}

impl TryParse for i32 {
    open spec fn parse_spec(s: Seq<char>) -> Option<i32> {
        num::spec_parse_i32(s)
    }

    fn try_parse(input: &str) -> (r: Result<Self, String>)
        ensures
            match r {
                Ok(v) => Self::parse_spec(input@) == Some(v.deep_view()),
                Err(e) => Self::parse_spec(input@) is None && e@ == input@,
            },
    {
        let chars = text::to_chars(input);
        match num::parse_i32_chars(&chars) {
            Some(value) => Ok(value),
            None => Err(String::from_str(input)),
        }
    }
}

} // verus!
