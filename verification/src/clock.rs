//! The clock of the runtime, the one thing that the library asks of the outside.

use anchor_lang::prelude::{Clock, ProgramError, SolanaSysvar};
use vstd::prelude::*;

verus! {

/// The error that the runtime's clock lookup returns. Nothing is read from it.
#[verifier::external_type_specification]
#[verifier::external_body]
pub struct ExProgramError(anchor_lang::prelude::ProgramError);

/// Asks the runtime for the clock, through `Clock::get` of `anchor_lang`, and hands out
/// its `unix_timestamp`, or the error with which the lookup failed, as it does wherever no
/// runtime answers. The body is trusted, not verified, and nothing is claimed of what
/// comes back: the time is whatever the runtime says it is.
#[verifier::external_body]
pub(crate) fn unix_timestamp() -> (now: Result<i64, ProgramError>) {
    match Clock::get() {
        Ok(clock) => Ok(clock.unix_timestamp),
        Err(e) => Err(e),
    }
}

} // verus!
