use vstd::prelude::*;

use crate::errors::StakingError;
use crate::state::{NFTRecord, RewardAccount, RewardMint};

verus! {

/// The reward owed at ledger time `now` to a stake entered at `staked_at`:
/// exactly the elapsed duration, one reward unit per unit of ledger time.
/// `staked_at` is the original stake-entry time, never a "last claimed"
/// time, so repeated claims accrue from the same origin.
pub open spec fn reward_of(staked_at: i64, now: i64) -> int {
    now - staked_at
}

/// The elapsed-duration computation is representable: it is non-negative and
/// its subtraction does not overflow the signed 64-bit ledger time.
pub open spec fn reward_representable(staked_at: i64, now: i64) -> bool {
    0 <= reward_of(staked_at, now) <= i64::MAX
}

/// The reward owed for a stake entered at `staked_at`, computed at ledger
/// time `now` with overflow-safe subtraction.  A negative or overflowing
/// duration fails closed with `ArithmeticFault`; it never wraps or clamps.
pub fn compute_reward(staked_at: i64, now: i64) -> (r: Result<u64, StakingError>)
    ensures
        reward_representable(staked_at, now) ==> r == Ok::<u64, StakingError>(
            reward_of(staked_at, now) as u64,
        ),
        !reward_representable(staked_at, now) ==> r == Err::<u64, StakingError>(
            StakingError::ArithmeticFault,
        ),
{
    match now.checked_sub(staked_at) {
        Some(duration) => {
            if duration < 0 {
                Err(StakingError::ArithmeticFault)
            } else {
                Ok(duration as u64)
            }
        },
        None => Err(StakingError::ArithmeticFault),
    }
}

/// All preconditions of a reward issuance hold: the holder signed, a stake
/// record exists, the elapsed duration is representable, and minting it
/// overflows neither the reward supply nor the holder's reward balance.
pub open spec fn rewards_checks_pass(
    record: Option<NFTRecord>,
    mint: RewardMint,
    acct: RewardAccount,
    now: i64,
    holder_signed: bool,
) -> bool {
    &&& holder_signed
    &&& record is Some
    &&& reward_representable(record->Some_0.staked_at, now)
    &&& mint.supply + reward_of(record->Some_0.staked_at, now) <= u64::MAX
    &&& acct.balance + reward_of(record->Some_0.staked_at, now) <= u64::MAX
}

/// The error reported for a reward issuance, by the order in which the
/// preconditions are checked: signature, record existence, then any
/// arithmetic fault (negative duration, or overflow of a balance).
pub open spec fn rewards_error(
    record: Option<NFTRecord>,
    holder_signed: bool,
) -> StakingError {
    if !holder_signed {
        StakingError::UnauthorizedSigner
    } else if record is None {
        StakingError::RecordNotFound
    } else {
        StakingError::ArithmeticFault
    }
}

/// Reward issuance: reads the stake record (never mutating it), computes the
/// elapsed duration since `staked_at`, and mints that many reward units to
/// the holder, growing the reward supply by the same amount.  On any failure
/// neither the mint nor the account changes.  Returns the amount minted.
pub fn send_rewards(
    record: &Option<NFTRecord>,
    mint: &mut RewardMint,
    acct: &mut RewardAccount,
    now: i64,
    holder_signed: bool,
) -> (r: Result<u64, StakingError>)
    ensures
        r is Ok <==> rewards_checks_pass(*record, *old(mint), *old(acct), now, holder_signed),
        rewards_checks_pass(*record, *old(mint), *old(acct), now, holder_signed) ==> {
            let reward = reward_of(record->Some_0.staked_at, now);
            &&& r == Ok::<u64, StakingError>(reward as u64)
            &&& final(mint).supply == old(mint).supply + reward
            &&& final(acct).balance == old(acct).balance + reward
        },
        !rewards_checks_pass(*record, *old(mint), *old(acct), now, holder_signed) ==> {
            &&& *final(mint) == *old(mint)
            &&& *final(acct) == *old(acct)
            &&& r == Err::<u64, StakingError>(rewards_error(*record, holder_signed))
        },
{
    if !holder_signed {
        return Err(StakingError::UnauthorizedSigner);
    }
    let staked_at: i64 = match record {
        Some(r) => r.staked_at,
        None => {
            return Err(StakingError::RecordNotFound);
        },
    };
    let reward = compute_reward(staked_at, now)?;
    let new_supply: u64 = match mint.supply.checked_add(reward) {
        Some(s) => s,
        None => {
            return Err(StakingError::ArithmeticFault);
        },
    };
    let new_balance: u64 = match acct.balance.checked_add(reward) {
        Some(b) => b,
        None => {
            return Err(StakingError::ArithmeticFault);
        },
    };
    mint.supply = new_supply;
    acct.balance = new_balance;
    Ok(reward)
}

} // verus!
