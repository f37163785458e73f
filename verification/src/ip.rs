//! The outcome of asking for the caller's public address.

use vstd::prelude::*;

verus! {

/// The public address could not be found out.
#[derive(Clone, Copy, Debug, PartialEq, Eq, Structural)]
pub enum IPGuessError {
    Failed,
}

impl IPGuessError {
    /// The text shown for the error.
    pub fn message(&self) -> (text: String)
        ensures
            text@ == "Failed to get external IP."@,
    {
        "Failed to get external IP.".to_owned()
    }
}

/// What a detection attempt amounts to: the address it found, or `Failed` where it
/// found none.
pub fn guess_outcome<A>(found: Option<A>) -> (r: Result<A, IPGuessError>)
    ensures
        r == match found {
            Some(ip) => Ok::<A, IPGuessError>(ip),
            None => Err::<A, IPGuessError>(IPGuessError::Failed),
        },
{
    match found {
        Some(ip) => Ok(ip),
        None => Err(IPGuessError::Failed),
    }
}

} // verus!
