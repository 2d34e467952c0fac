//! Errors of the chart computation.
use vstd::prelude::*;

verus! {

/// Why a chart could not be computed.
#[derive(Clone, Debug, PartialEq, Eq)]
pub enum AstroError {
    /// The ephemeris engine reported a failure; the text is its diagnostic.
    EphemerisError(String),
    /// The configuration could not be used, such as an unusable ephemeris path.
    InvalidInput(String),
}

impl AstroError {
    /// An engine failure carrying exactly the text `msg`.
    pub open spec fn is_ephemeris_with(self, msg: Seq<char>) -> bool {
        match self {
            AstroError::EphemerisError(m) => m@ == msg,
            AstroError::InvalidInput(_) => false,
        }
    }

    /// A configuration failure carrying exactly the text `msg`.
    pub open spec fn is_invalid_input_with(self, msg: Seq<char>) -> bool {
        match self {
            AstroError::EphemerisError(_) => false,
            AstroError::InvalidInput(m) => m@ == msg,
        }
    }

    /// The error given when the lock around the ephemeris path store was
    /// poisoned by a panic of another holder.
    pub fn poisoned_path_lock() -> (r: AstroError)
        ensures
            r.is_invalid_input_with("ephemeris path lock poisoned"@),
    {
        AstroError::InvalidInput("ephemeris path lock poisoned".to_string())
    }
}

} // verus!
