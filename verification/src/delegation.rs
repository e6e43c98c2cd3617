use vstd::prelude::*;

use crate::errors::StakingError;
use crate::state::{HolderAccount, StakePosition};

verus! {

/// All preconditions of a delegation grant hold: the holder signed and holds
/// exactly one unit of the asset.
pub open spec fn delegate_checks_pass(p: StakePosition, holder_signed: bool) -> bool {
    &&& holder_signed
    &&& p.holder_account.balance == 1
}

/// The error reported for a delegation grant: a missing signature first,
/// then the balance check.
pub open spec fn delegate_error(p: StakePosition, holder_signed: bool) -> StakingError {
    if !holder_signed {
        StakingError::UnauthorizedSigner
    } else {
        StakingError::TokenAccountEmpty
    }
}

/// The position after a successful grant: the delegated authority is
/// approved for the holder account.  Re-granting while a grant is in force
/// is accepted and leaves the same approval in place.
pub open spec fn delegate_step(p: StakePosition) -> StakePosition {
    StakePosition { holder_account: HolderAccount { delegated: true, ..p.holder_account }, ..p }
}

/// Delegation grant: authorizes the program-derived delegated authority to
/// act on the holder account for up to one unit of the asset.  Ownership is
/// never transferred.
pub fn delegate_nft(p: &mut StakePosition, holder_signed: bool) -> (r: Result<(), StakingError>)
    ensures
        r is Ok <==> delegate_checks_pass(*old(p), holder_signed),
        delegate_checks_pass(*old(p), holder_signed) ==> *final(p) == delegate_step(*old(p)),
        !delegate_checks_pass(*old(p), holder_signed) ==> *final(p) == *old(p) && r == Err::<
            (),
            StakingError,
        >(delegate_error(*old(p), holder_signed)),
{
    if !holder_signed {
        return Err(StakingError::UnauthorizedSigner);
    }
    if p.holder_account.balance != 1 {
        return Err(StakingError::TokenAccountEmpty);
    }
    p.holder_account.delegated = true;
    Ok(())
}

/// The position after a revocation: no delegation is in force.  Revoking
/// when none exists changes nothing.
pub open spec fn revoke_step(p: StakePosition) -> StakePosition {
    StakePosition { holder_account: HolderAccount { delegated: false, ..p.holder_account }, ..p }
}

/// Delegation revocation: removes any existing approval of the delegated
/// authority.  It succeeds as a no-op when no delegation exists.
pub fn undelegate_nft(p: &mut StakePosition, holder_signed: bool) -> (r: Result<(), StakingError>)
    ensures
        r is Ok <==> holder_signed,
        holder_signed ==> *final(p) == revoke_step(*old(p)),
        holder_signed && !old(p).holder_account.delegated ==> *final(p) == *old(p),
        !holder_signed ==> *final(p) == *old(p) && r == Err::<(), StakingError>(
            StakingError::UnauthorizedSigner,
        ),
{
    if !holder_signed {
        return Err(StakingError::UnauthorizedSigner);
    }
    p.holder_account.delegated = false;
    Ok(())
}

} // verus!
