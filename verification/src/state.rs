use vstd::prelude::*;

verus! {

/// A holder's token account for one specific asset, as the staking rules see
/// it: the balance of the asset, whether the account is frozen under the
/// delegated authority's custody, and whether the delegated authority
/// currently holds an approval to act on the account.
#[derive(Clone, Copy, PartialEq, Eq, Structural, Debug)]
pub struct HolderAccount {
    /// Units of the asset held (exactly 1 for a held single-edition asset).
    pub balance: u64,
    /// True while the account is locked against balance-changing operations.
    pub frozen: bool,
    /// True while the delegated authority is approved to act on the account.
    pub delegated: bool,
}

/// The asset's edition attribute: `max_supply == Some(0)` certifies that no
/// further copies can ever be issued, i.e. the asset is a true single-edition
/// non-fungible item.
#[derive(Clone, Copy, PartialEq, Eq, Structural, Debug)]
pub struct MasterEdition {
    /// Maximum number of additional issuable copies, if capped.
    pub max_supply: Option<u64>,
}

/// The durable stake record for one (holder, asset) pair.  Its existence is
/// the source of truth for "this asset is currently staked"; `staked_at` is
/// written once at stake entry and never updated afterwards.
#[derive(Clone, Copy, PartialEq, Eq, Structural, Debug)]
pub struct NFTRecord {
    /// Ledger time at which the stake was entered.
    pub staked_at: i64,
}

/// Everything the staking state machine reads or writes for one
/// (holder, asset) pair.
#[derive(Clone, Copy, PartialEq, Eq, Structural, Debug)]
pub struct StakePosition {
    /// The holder's token account for the asset.
    pub holder_account: HolderAccount,
    /// The asset's edition attribute.
    pub edition: MasterEdition,
    /// The stake record, present exactly while the pair is staked or awaiting
    /// an explicit close.
    pub record: Option<NFTRecord>,
}

/// The fungible reward token definition.  Its supply only ever grows as
/// rewards are issued.
#[derive(Clone, Copy, PartialEq, Eq, Structural, Debug)]
pub struct RewardMint {
    /// Total units of the reward token ever minted.
    pub supply: u64,
}

/// The holder's account for the reward token.
#[derive(Clone, Copy, PartialEq, Eq, Structural, Debug)]
pub struct RewardAccount {
    /// Units of the reward token held.
    pub balance: u64,
}

} // verus!
