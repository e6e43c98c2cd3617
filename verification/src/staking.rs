use vstd::prelude::*;

use crate::errors::StakingError;
use crate::state::{HolderAccount, NFTRecord, StakePosition};

verus! {

/// All preconditions of stake entry hold: the holder signed, the asset is a
/// single edition, the holder holds exactly one unit, no stake record exists
/// yet, and the delegated authority has been approved (it, not the holder,
/// performs the freeze).
pub open spec fn stake_checks_pass(p: StakePosition, holder_signed: bool) -> bool {
    &&& holder_signed
    &&& p.edition.max_supply == Some(0u64)
    &&& p.holder_account.balance == 1
    &&& p.record is None
    &&& p.holder_account.delegated
}

/// The error reported for stake entry, by the order in which the
/// preconditions are checked: signature, edition attribute, balance,
/// record absence, delegation.
pub open spec fn stake_error(p: StakePosition, holder_signed: bool) -> StakingError {
    if !holder_signed {
        StakingError::UnauthorizedSigner
    } else if p.edition.max_supply != Some(0u64) {
        StakingError::TokenNotNFT
    } else if p.holder_account.balance != 1 {
        StakingError::TokenAccountEmpty
    } else if p.record is Some {
        StakingError::RecordAlreadyExists
    } else {
        StakingError::UnauthorizedSigner
    }
}

/// The position after a successful stake entry at ledger time `now`: a stake
/// record is allocated with `staked_at = now` and the holder account is
/// frozen under the delegated authority.  Nothing else changes.
pub open spec fn stake_step(p: StakePosition, now: i64) -> StakePosition {
    StakePosition {
        holder_account: HolderAccount { frozen: true, ..p.holder_account },
        record: Some(NFTRecord { staked_at: now }),
        ..p
    }
}

/// Stake entry: validates the preconditions, then creates the stake record
/// and freezes the holder account as one atomic unit.  On any failure the
/// position is left untouched.
pub fn stake_nft(p: &mut StakePosition, now: i64, holder_signed: bool) -> (r: Result<
    (),
    StakingError,
>)
    ensures
        r is Ok <==> stake_checks_pass(*old(p), holder_signed),
        stake_checks_pass(*old(p), holder_signed) ==> *final(p) == stake_step(*old(p), now),
        !stake_checks_pass(*old(p), holder_signed) ==> *final(p) == *old(p) && r == Err::<
            (),
            StakingError,
        >(stake_error(*old(p), holder_signed)),
{
    if !holder_signed {
        return Err(StakingError::UnauthorizedSigner);
    }
    if p.edition.max_supply != Some(0u64) {
        return Err(StakingError::TokenNotNFT);
    }
    if p.holder_account.balance != 1 {
        return Err(StakingError::TokenAccountEmpty);
    }
    if p.record.is_some() {
        return Err(StakingError::RecordAlreadyExists);
    }
    if !p.holder_account.delegated {
        return Err(StakingError::UnauthorizedSigner);
    }
    p.record = Some(NFTRecord { staked_at: now });
    p.holder_account.frozen = true;
    Ok(())
}

/// All preconditions of stake exit hold: the holder signed, a stake record
/// exists, the asset is still a single edition, the balance is still exactly
/// one (it cannot have changed while frozen), and the delegated authority
/// still holds its approval (it performs the thaw).
pub open spec fn unstake_checks_pass(p: StakePosition, holder_signed: bool) -> bool {
    &&& holder_signed
    &&& p.record is Some
    &&& p.edition.max_supply == Some(0u64)
    &&& p.holder_account.balance == 1
    &&& p.holder_account.delegated
}

/// The error reported for stake exit, by the order in which the
/// preconditions are checked.
pub open spec fn unstake_error(p: StakePosition, holder_signed: bool) -> StakingError {
    if !holder_signed {
        StakingError::UnauthorizedSigner
    } else if p.record is None {
        StakingError::RecordNotFound
    } else if p.edition.max_supply != Some(0u64) {
        StakingError::TokenNotNFT
    } else if p.holder_account.balance != 1 {
        StakingError::TokenAccountEmpty
    } else {
        StakingError::UnauthorizedSigner
    }
}

/// The position after a successful stake exit: the holder account is thawed.
/// The stake record is deliberately kept — destroying it is a separate,
/// holder-initiated close.
pub open spec fn unstake_step(p: StakePosition) -> StakePosition {
    StakePosition {
        holder_account: HolderAccount { frozen: false, ..p.holder_account },
        ..p
    }
}

/// Stake exit: validates the preconditions, then thaws the holder account.
/// The stake record, and in particular its `staked_at` time, is not touched.
pub fn unstake_nft(p: &mut StakePosition, holder_signed: bool) -> (r: Result<(), StakingError>)
    ensures
        r is Ok <==> unstake_checks_pass(*old(p), holder_signed),
        unstake_checks_pass(*old(p), holder_signed) ==> *final(p) == unstake_step(*old(p)),
        !unstake_checks_pass(*old(p), holder_signed) ==> *final(p) == *old(p) && r == Err::<
            (),
            StakingError,
        >(unstake_error(*old(p), holder_signed)),
{
    if !holder_signed {
        return Err(StakingError::UnauthorizedSigner);
    }
    if p.record.is_none() {
        return Err(StakingError::RecordNotFound);
    }
    if p.edition.max_supply != Some(0u64) {
        return Err(StakingError::TokenNotNFT);
    }
    if p.holder_account.balance != 1 {
        return Err(StakingError::TokenAccountEmpty);
    }
    if !p.holder_account.delegated {
        return Err(StakingError::UnauthorizedSigner);
    }
    p.holder_account.frozen = false;
    Ok(())
}

/// The position after a successful close: the stake record is destroyed and
/// its storage reclaimed by the holder.  Nothing else changes; in particular
/// no check is made that the account was thawed first.
pub open spec fn close_step(p: StakePosition) -> StakePosition {
    StakePosition { record: None, ..p }
}

/// Record close: destroys the stake record.  It is permitted unconditionally
/// once the caller is the holder — there is no "must be unstaked" check.
pub fn close_record(p: &mut StakePosition, holder_signed: bool) -> (r: Result<(), StakingError>)
    ensures
        r is Ok <==> holder_signed && old(p).record is Some,
        holder_signed && old(p).record is Some ==> *final(p) == close_step(*old(p)),
        !holder_signed ==> *final(p) == *old(p) && r == Err::<(), StakingError>(
            StakingError::UnauthorizedSigner,
        ),
        holder_signed && old(p).record is None ==> *final(p) == *old(p) && r == Err::<
            (),
            StakingError,
        >(StakingError::RecordNotFound),
{
    if !holder_signed {
        return Err(StakingError::UnauthorizedSigner);
    }
    if p.record.is_none() {
        return Err(StakingError::RecordNotFound);
    }
    p.record = None;
    Ok(())
}

} // verus!
