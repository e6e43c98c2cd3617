use vstd::prelude::*;

use crate::delegation::revoke_step;
use crate::errors::StakingError;
use crate::staking::{
    stake_checks_pass, stake_error, stake_step, unstake_checks_pass, unstake_step,
};
use crate::state::StakePosition;

verus! {

/// Stake entry succeeds at most once per record lifetime: from any position
/// on which entry's preconditions hold, the position after a successful
/// entry rejects a second entry, and rejects it precisely because the stake
/// record already exists.  Only an intervening close can make entry possible
/// again.
pub proof fn lemma_stake_entry_exclusive(p: StakePosition, now: i64, holder_signed: bool)
    requires
        stake_checks_pass(p, holder_signed),
    ensures
        !stake_checks_pass(stake_step(p, now), holder_signed),
        stake_error(stake_step(p, now), holder_signed) == StakingError::RecordAlreadyExists,
{
}

/// Both entry gates are enforced, in the order the machine checks them: a
/// signed entry attempt on an asset that is not a single edition fails with
/// `TokenNotNFT` whatever the balance; a signed attempt on a single-edition
/// asset with a balance other than one fails with `TokenAccountEmpty`.
pub proof fn lemma_stake_entry_rejections(p: StakePosition, holder_signed: bool)
    requires
        holder_signed,
    ensures
        p.edition.max_supply != Some(0u64) ==> !stake_checks_pass(p, holder_signed)
            && stake_error(p, holder_signed) == StakingError::TokenNotNFT,
        p.edition.max_supply == Some(0u64) && p.holder_account.balance != 1
            ==> !stake_checks_pass(p, holder_signed) && stake_error(p, holder_signed)
            == StakingError::TokenAccountEmpty,
{
}

/// Round trip: from any position on which stake entry's preconditions hold,
/// entering and then exiting the stake is always possible, and it restores
/// the holder account to an unfrozen state with the balance unchanged —
/// still exactly one unit.
pub proof fn lemma_stake_round_trip(p: StakePosition, now: i64, holder_signed: bool)
    requires
        stake_checks_pass(p, holder_signed),
    ensures
        unstake_checks_pass(stake_step(p, now), holder_signed),
        !unstake_step(stake_step(p, now)).holder_account.frozen,
        unstake_step(stake_step(p, now)).holder_account.balance == p.holder_account.balance,
        p.holder_account.balance == 1,
{
}

/// Revocation is idempotent: on a position with no delegation in force, a
/// revocation leaves the position exactly as it was.
pub proof fn lemma_revoke_without_delegation_is_noop(p: StakePosition)
    requires
        !p.holder_account.delegated,
    ensures
        revoke_step(p) == p,
{
}

} // verus!
