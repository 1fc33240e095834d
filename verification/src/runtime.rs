use vstd::prelude::*;
use anchor_lang::prelude::Clock;
use anchor_lang::prelude::ProgramError;
use anchor_lang::prelude::SolanaSysvar;

verus! {

/// The runtime's error type, of which nothing is known here.
#[verifier::external_type_specification]
#[verifier::external_body]
pub struct ExProgramError(ProgramError);

/// Calls `Clock::get` of solana-program and hands out the `unix_timestamp` of
/// the clock that it returns, or its error. The reading is the runtime's: the
/// contract claims nothing of it.
#[verifier::external_body]
pub(crate) fn runtime_unix_timestamp() -> (reading: Result<i64, ProgramError>) {
    match Clock::get() {
        Ok(clock) => Ok(clock.unix_timestamp),
        Err(error) => Err(error),
    }
}

} // verus!
