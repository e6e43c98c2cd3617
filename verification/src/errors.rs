use vstd::prelude::*;

verus! {

/// The failure kinds of the staking operations.
///
/// Every operation is all-or-nothing: when one of these is returned the
/// operation has left no state change behind.
#[derive(Clone, Copy, Debug, PartialEq, Eq, Structural)]
pub enum StakingError {
    /// The asset's "maximum issuable copies" attribute is not zero, so more
    /// than one copy of the token could be issued: it is not a single-edition
    /// asset.
    TokenNotNFT,
    /// The holder's token account does not hold exactly one unit of the asset
    /// at a stake or unstake boundary.
    TokenAccountEmpty,
    /// The reward-duration subtraction, or the reward minting, would overflow
    /// or produce a negative duration.
    ArithmeticFault,
    /// The operation was attempted by a party lacking the required signature
    /// or delegated right (the holder, or the delegated authority).
    UnauthorizedSigner,
    /// No stake record exists for the (holder, asset) pair.
    RecordNotFound,
    /// A stake record already exists for the (holder, asset) pair.
    RecordAlreadyExists,
}

} // verus!
