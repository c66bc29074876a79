use vstd::prelude::*;

verus! {

use vstd::string::StringExecFns;

/// The closed set of failure kinds shared by every client operation.
///
/// A transport failure carries the status code the transport observed, if it
/// observed one, as a plain `u16`. A shape mismatch carries the name of the
/// type the decoder was aiming at. The two parsing errors carry the string
/// that was rejected.
#[derive(Clone, Debug, PartialEq, Eq)]
pub enum SleeperError {
    DeserializationError(String),
    NetworkError(Option<u16>),
    InvalidSport(String),
    InvalidInjuryStatus(String),
}

/// The message an error prints, with the rejected string quoted inside
/// the two parsing messages.
pub open spec fn spec_error_text(e: SleeperError) -> Seq<char> {
    match e {
        SleeperError::DeserializationError(_) => {
            "could not deserialize Sleeper response into provided type"@
        },
        SleeperError::NetworkError(_) => "request to Sleeper failed"@,
        SleeperError::InvalidSport(raw) => {
            "could parse String into SleeperSport: \""@ + raw@ + "\" was not a valid sport"@
        },
        SleeperError::InvalidInjuryStatus(raw) => {
            "could parse String into PlayerStatus: \""@ + raw@
                + "\" was not a valid injury designation"@
        },
    }
}

impl SleeperError {
    /// Renders the error's message.
    pub fn describe(&self) -> (r: String)
        ensures
            r@ == spec_error_text(*self),
    {
        match self {
            SleeperError::DeserializationError(_) => {
                String::from_str("could not deserialize Sleeper response into provided type")
            },
            SleeperError::NetworkError(_) => String::from_str("request to Sleeper failed"),
            SleeperError::InvalidSport(raw) => {
                let mut text = String::from_str("could parse String into SleeperSport: \"");
                text.append(raw.as_str());
                text.append("\" was not a valid sport");
                text
            },
            SleeperError::InvalidInjuryStatus(raw) => {
                let mut text = String::from_str("could parse String into PlayerStatus: \"");
                text.append(raw.as_str());
                text.append("\" was not a valid injury designation");
                text
            },
        }
    }
}

/// Whether `e` is a shape-mismatch error naming the target type `ty`.
pub open spec fn is_deser_err(e: SleeperError, ty: Seq<char>) -> bool {
    e matches SleeperError::DeserializationError(t) && t@ == ty
}

} // verus!
