use vstd::prelude::*;

use crate::error::SleeperError;
use crate::json::{JsonValue, JsonView};
use crate::sport::{lower_chars, matches_code};

verus! {

use vstd::string::StringExecFns;

/// A player's injury designation. `Out` is a member of the set, but no
/// status code maps to it today; only the short codes below have parses.
#[derive(Clone, Copy, Debug, PartialEq, Eq)]
pub enum InjuryStatus {
    Healthy,
    InjuredReserve,
    Covid,
    NotActive,
    Out,
    PUP,
    Questionable,
    Suspended,
}

/// The status a short code names, compared ignoring ASCII letter case
/// against the fixed code table.
pub open spec fn spec_injury_of(s: Seq<char>) -> Option<InjuryStatus> {
    if lower_chars(s) == "questionable"@ {
        Some(InjuryStatus::Questionable)
    } else if lower_chars(s) == "cov"@ {
        Some(InjuryStatus::Covid)
    } else if lower_chars(s) == "ir"@ {
        Some(InjuryStatus::InjuredReserve)
    } else if lower_chars(s) == "na"@ {
        Some(InjuryStatus::NotActive)
    } else if lower_chars(s) == "pup"@ {
        Some(InjuryStatus::PUP)
    } else if lower_chars(s) == "sus"@ {
        Some(InjuryStatus::Suspended)
    } else {
        None
    }
}

impl InjuryStatus {
    /// Parses an injury short code, ignoring ASCII letter case. An unknown
    /// code is rejected with `InvalidInjuryStatus` carrying the code as it
    /// was given.
    pub fn from_str(s: &str) -> (r: Result<InjuryStatus, SleeperError>)
        ensures
            match r {
                Ok(status) => spec_injury_of(s@) == Some(status),
                Err(e) => spec_injury_of(s@) is None && (e matches
                    SleeperError::InvalidInjuryStatus(raw) && raw@ == s@),
            },
    {
        if matches_code(s, "questionable") {
            Ok(InjuryStatus::Questionable)
        } else if matches_code(s, "cov") {
            Ok(InjuryStatus::Covid)
        } else if matches_code(s, "ir") {
            Ok(InjuryStatus::InjuredReserve)
        } else if matches_code(s, "na") {
            Ok(InjuryStatus::NotActive)
        } else if matches_code(s, "pup") {
            Ok(InjuryStatus::PUP)
        } else if matches_code(s, "sus") {
            Ok(InjuryStatus::Suspended)
        } else {
            Err(SleeperError::InvalidInjuryStatus(String::from_str(s)))
        }
    }

    /// Reads a status out of a decoded JSON value: a string parses as a
    /// short code, null means a healthy player, and any other shape is
    /// rejected with the sentinel text.
    pub fn from_json(node: &JsonValue) -> (r: Result<InjuryStatus, SleeperError>)
        ensures
            match node.deep_view() {
                JsonView::Str(code) => match r {
                    Ok(status) => spec_injury_of(code) == Some(status),
                    Err(e) => spec_injury_of(code) is None && (e matches
                        SleeperError::InvalidInjuryStatus(raw) && raw@ == code),
                },
                JsonView::Null => r == Ok::<InjuryStatus, SleeperError>(InjuryStatus::Healthy),
                _ => r matches Err(e) && (e matches SleeperError::InvalidInjuryStatus(raw)
                    && raw@ == "{ an object }"@),
            },
    {
        match node {
            JsonValue::Str(s) => InjuryStatus::from_str(s.as_str()),
            JsonValue::Null => Ok(InjuryStatus::Healthy),
            _ => Err(SleeperError::InvalidInjuryStatus(String::from_str("{ an object }"))),
        }
    }

    /// Treats an absent status exactly like null: a healthy player.
    pub fn from_opt_string(s: Option<String>) -> (r: Result<Self, SleeperError>)
        ensures
            match s {
                Some(code) => match r {
                    Ok(status) => spec_injury_of(code@) == Some(status),
                    Err(e) => spec_injury_of(code@) is None && (e matches
                        SleeperError::InvalidInjuryStatus(raw) && raw@ == code@),
                },
                None => r == Ok::<InjuryStatus, SleeperError>(InjuryStatus::Healthy),
            },
    {
        match s {
            Some(code) => InjuryStatus::from_str(code.as_str()),
            None => Ok(InjuryStatus::Healthy),
        }
    }
}

/// The human-readable label of a status.
pub open spec fn spec_injury_label(status: InjuryStatus) -> Seq<char> {
    match status {
        InjuryStatus::Healthy => "Healthy"@,
        InjuryStatus::InjuredReserve => "Injured Reserve"@,
        InjuryStatus::Covid => "COVID-19"@,
        InjuryStatus::NotActive => "Inactive"@,
        InjuryStatus::Out => "Out"@,
        InjuryStatus::PUP => "PUP"@,
        InjuryStatus::Questionable => "Questionable"@,
        InjuryStatus::Suspended => "Suspended"@,
    }
}

impl InjuryStatus {
    /// Renders the status for people, not for request paths.
    pub fn label(&self) -> (r: String)
        ensures
            r@ == spec_injury_label(*self),
    {
        match self {
            InjuryStatus::Healthy => String::from_str("Healthy"),
            InjuryStatus::InjuredReserve => String::from_str("Injured Reserve"),
            InjuryStatus::Covid => String::from_str("COVID-19"),
            InjuryStatus::NotActive => String::from_str("Inactive"),
            InjuryStatus::Out => String::from_str("Out"),
            InjuryStatus::PUP => String::from_str("PUP"),
            InjuryStatus::Questionable => String::from_str("Questionable"),
            InjuryStatus::Suspended => String::from_str("Suspended"),
        }
    }
}

/// Law: each code of the fixed table, already lowercase, parses to its
/// own member.
pub proof fn lemma_injury_code_table()
    ensures
        spec_injury_of("questionable"@) == Some(InjuryStatus::Questionable),
        spec_injury_of("cov"@) == Some(InjuryStatus::Covid),
        spec_injury_of("ir"@) == Some(InjuryStatus::InjuredReserve),
        spec_injury_of("na"@) == Some(InjuryStatus::NotActive),
        spec_injury_of("pup"@) == Some(InjuryStatus::PUP),
        spec_injury_of("sus"@) == Some(InjuryStatus::Suspended),
{
    reveal_strlit("questionable");
    reveal_strlit("cov");
    reveal_strlit("ir");
    reveal_strlit("na");
    reveal_strlit("pup");
    reveal_strlit("sus");
    assert(lower_chars("questionable"@) =~= "questionable"@);
    assert(lower_chars("cov"@) =~= "cov"@);
    assert(lower_chars("ir"@) =~= "ir"@);
    assert(lower_chars("na"@) =~= "na"@);
    assert(lower_chars("pup"@) =~= "pup"@);
    assert(lower_chars("sus"@) =~= "sus"@);
    assert("cov"@[0] == 'c' && "pup"@[0] == 'p' && "sus"@[0] == 's');
    assert("ir"@[0] == 'i' && "na"@[0] == 'n');
}

/// Law: no status code parses to `Out`; the member exists without a
/// parser path, deliberately.
pub proof fn lemma_no_code_for_out(s: Seq<char>)
    ensures
        spec_injury_of(s) != Some(InjuryStatus::Out),
{
}

} // verus!
