//! Checks of the settings of a generation that the library can hold: the
//! integer ones. The floating-point sampling settings are checked where they
//! are held.

use crate::error::AISDKError;
use crate::stream_text::{decimal_digits, decimal_text};
use vstd::prelude::*;

verus! {

/// Checks that a limit on output tokens, when there is one, allows at least
/// one token; a limit of zero is an invalid `maxOutputTokens` argument.
pub fn check_max_output_tokens(max_output_tokens: Option<u32>) -> (r: Result<(), AISDKError>)
    ensures
        match max_output_tokens {
            Some(m) if m < 1 => r matches Err(AISDKError::InvalidArgument { parameter: p, value: v, message: msg })
                && p@ == "maxOutputTokens"@ && v@ == decimal_digits(m as nat) && msg@
                == "maxOutputTokens must be >= 1"@,
            _ => r is Ok,
        },
{
    match max_output_tokens {
        Some(m) => {
            if m < 1 {
                let value = decimal_text(m as u64);
                Err(AISDKError::invalid_argument("maxOutputTokens", value.as_str(), "maxOutputTokens must be >= 1"))
            } else {
                Ok(())
            }
        },
        None => Ok(()),
    }
}

} // verus!
