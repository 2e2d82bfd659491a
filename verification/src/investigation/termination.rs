//! Why a sounding ended, carried by the terminator line `-1`.

use vstd::prelude::*;

use crate::parse_result::{DisplayText, ParseResult, ParseResultV, TryParse};
use crate::text;

verus! {

#[derive(Clone, Debug, PartialEq)]
pub struct Termination {
    pub token: ParseResult<TerminationToken>,
}

#[verifier::ext_equal]
pub struct TerminationV {
    pub token: ParseResultV<TerminationToken>,
}

impl DeepView for Termination {
    type V = TerminationV;

    open spec fn deep_view(&self) -> TerminationV {
        TerminationV { token: self.token.deep_view() }
    }
}

pub open spec fn spec_termination_empty() -> TerminationV {
    TerminationV { token: ParseResultV::Missing }
}

impl Default for Termination {
    fn default() -> (r: Termination)
        ensures
            r.deep_view() == spec_termination_empty(),
    {
        Termination { token: ParseResult::Missing }
    }
}

#[derive(Clone, Copy, Debug, PartialEq, Eq, Hash, Structural)]
pub enum TerminationToken {
    Unknown,
    TM,
    KI,
    KL,
    KA,
    KK,
    MS,
    KN,
    JA,
}

impl DeepView for TerminationToken {
    type V = TerminationToken;

    open spec fn deep_view(&self) -> TerminationToken {
        *self
    }
}

impl TryParse for TerminationToken {
    open spec fn parse_spec(s: Seq<char>) -> Option<TerminationToken> {
        let u = text::spec_upper(s);
        if u == "TM"@ {
            Some(TerminationToken::TM)
        } else if u == "KI"@ {
            Some(TerminationToken::KI)
        } else if u == "KL"@ {
            Some(TerminationToken::KL)
        } else if u == "KA"@ {
            Some(TerminationToken::KA)
        } else if u == "KK"@ {
            Some(TerminationToken::KK)
        } else if u == "MS"@ {
            Some(TerminationToken::MS)
        } else if u == "KN"@ {
            Some(TerminationToken::KN)
        } else if u == "JA"@ {
            Some(TerminationToken::JA)
        } else {
            None
        }
    }

    fn try_parse(input: &str) -> (r: Result<Self, String>)
        ensures
            match r {
                Ok(v) => Self::parse_spec(input@) == Some(v.deep_view()),
                Err(e) => Self::parse_spec(input@) is None && e@ == input@,
            },
    {
        if text::upper_eq(input, "TM") {
            Ok(TerminationToken::TM)
        } else if text::upper_eq(input, "KI") {
            Ok(TerminationToken::KI)
        } else if text::upper_eq(input, "KL") {
            Ok(TerminationToken::KL)
        } else if text::upper_eq(input, "KA") {
            Ok(TerminationToken::KA)
        } else if text::upper_eq(input, "KK") {
            Ok(TerminationToken::KK)
        } else if text::upper_eq(input, "MS") {
            Ok(TerminationToken::MS)
        } else if text::upper_eq(input, "KN") {
            Ok(TerminationToken::KN)
        } else if text::upper_eq(input, "JA") {
            Ok(TerminationToken::JA)
        } else {
            Err(String::from_str(input))
        }
    }
}

impl DisplayText for TerminationToken {
    open spec fn spec_text(&self) -> Seq<char> {
        match self {
            TerminationToken::TM => "Dense soil layer"@,
            TerminationToken::KI => "Estimated rock or boulder"@,
            TerminationToken::KL => "Rock, boulder or bedrock contact"@,
            TerminationToken::KA => "Bedrock contact (verified rock)"@,
            TerminationToken::KK => "Bedrock surface (verified with trial pit)"@,
            TerminationToken::MS => "Specified depth"@,
            TerminationToken::KN => "Bridging between stones and boulders"@,
            TerminationToken::JA => "Continues as another investigation"@,
            TerminationToken::Unknown => "Unknown reason"@,
        }
    }

    fn display_text(&self) -> (r: String)
        ensures
            r@ == self.spec_text(),
    {
        match self {
            TerminationToken::TM => String::from_str("Dense soil layer"),
            TerminationToken::KI => String::from_str("Estimated rock or boulder"),
            TerminationToken::KL => String::from_str("Rock, boulder or bedrock contact"),
            TerminationToken::KA => String::from_str("Bedrock contact (verified rock)"),
            TerminationToken::KK => String::from_str("Bedrock surface (verified with trial pit)"),
            TerminationToken::MS => String::from_str("Specified depth"),
            TerminationToken::KN => String::from_str("Bridging between stones and boulders"),
            TerminationToken::JA => String::from_str("Continues as another investigation"),
            TerminationToken::Unknown => String::from_str("Unknown reason"),
        }
    }
}

} // verus!
