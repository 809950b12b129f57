//! The transfer-hook whitelist: outbound transfers clear only when the
//! destination's owning program stands on a stored whitelist, which only
//! the whitelist's authority may replace.

use crate::market::contains_program;
use vstd::prelude::*;

verus! {

/// Ways a transfer-hook operation can be refused.
#[derive(Clone, Copy, Debug, PartialEq, Eq, Structural)]
pub enum TransferHookError {
    DestinationNotWhitelisted,
    Unauthorized,
}

/// The stored whitelist of programs allowed to receive transfers, and the
/// authority that may change it.
pub struct WhitelistConfig {
    pub whitelisted_programs: Vec<u64>,
    pub authority: u64,
}

/// Clears a transfer: succeeds exactly when the destination account's
/// owning program is whitelisted.
pub fn transfer_hook(config: &WhitelistConfig, destination_owner: u64) -> (r: Result<
    (),
    TransferHookError,
>)
    ensures
        r is Ok <==> config.whitelisted_programs@.contains(destination_owner),
        r matches Err(e) ==> e == TransferHookError::DestinationNotWhitelisted,
{
    if contains_program(&config.whitelisted_programs, destination_owner) {
        Ok(())
    } else {
        Err(TransferHookError::DestinationNotWhitelisted)
    }
}

/// Creates the whitelist with its initial programs; the caller becomes its
/// authority.
pub fn initialize_whitelist(programs: Vec<u64>, authority: u64) -> (config: WhitelistConfig)
    ensures
        config.whitelisted_programs@ == programs@,
        config.authority == authority,
{
    WhitelistConfig { whitelisted_programs: programs, authority }
}

/// Replaces the whitelist wholesale. Only the stored authority may do so;
/// anyone else leaves it untouched.
pub fn update_whitelist(config: &mut WhitelistConfig, authority: u64, programs: Vec<u64>) -> (r:
    Result<(), TransferHookError>)
    ensures
        old(config).authority != authority ==> r == Err::<(), TransferHookError>(
            TransferHookError::Unauthorized,
        ) && *final(config) == *old(config),
        old(config).authority == authority ==> {
            &&& r == Ok::<(), TransferHookError>(())
            &&& final(config).whitelisted_programs@ == programs@
            &&& final(config).authority == old(config).authority
        },
{
    if config.authority != authority {
        return Err(TransferHookError::Unauthorized);
    }
    config.whitelisted_programs = programs;
    Ok(())
}

} // verus!
