use vstd::prelude::*;

use crate::state::{HolderAccount, MasterEdition, RewardMint, StakePosition};

verus! {

/// The creator entry attached to an asset's descriptive metadata.
#[derive(Clone, Copy, PartialEq, Eq, Structural, Debug)]
pub struct CreatorInfo {
    /// Whether the creator co-signed the creation and is therefore verified.
    pub verified: bool,
    /// The creator's share of royalties, in percent.
    pub share: u8,
}

/// The descriptive metadata attached to a token definition: a name, a
/// symbol, a resource location, royalty terms, and whether the descriptor
/// may later be changed.
pub struct AssetDescriptor {
    pub name: String,
    pub symbol: String,
    pub uri: String,
    /// Royalty taken on secondary sales, in basis points.
    pub seller_fee_basis_points: u16,
    /// The sole creator entry, if one is recorded.
    pub creator: Option<CreatorInfo>,
    /// True if the descriptor may be updated after creation.
    pub is_mutable: bool,
}

/// Asset creation: defines a new single-supply, zero-precision asset with
/// the given descriptive metadata, issues its one unit to the creating
/// holder, and caps further issuance at zero copies, which is what later
/// certifies the asset as a single edition.  The holder starts unfrozen,
/// undelegated, and unstaked.
pub fn create_nft(name: String, symbol: String, uri: String) -> (r: (
    AssetDescriptor,
    StakePosition,
))
    ensures
        r.0.name@ == name@,
        r.0.symbol@ == symbol@,
        r.0.uri@ == uri@,
        r.0.seller_fee_basis_points == 0,
        r.0.creator == Some((CreatorInfo { verified: true, share: 100u8 })),
        !r.0.is_mutable,
        r.1 == (StakePosition {
            holder_account: HolderAccount { balance: 1u64, frozen: false, delegated: false },
            edition: MasterEdition { max_supply: Some(0u64) },
            record: None,
        }),
{
    let descriptor = AssetDescriptor {
        name,
        symbol,
        uri,
        seller_fee_basis_points: 0,
        creator: Some(CreatorInfo { verified: true, share: 100 }),
        is_mutable: false,
    };
    let position = StakePosition {
        holder_account: HolderAccount { balance: 1, frozen: false, delegated: false },
        edition: MasterEdition { max_supply: Some(0) },
        record: None,
    };
    (descriptor, position)
}

/// Reward-mint initialization: defines the fungible reward token, with a
/// fixed descriptor and nothing issued yet.  Its minting authority is the
/// deterministically derived identity of [`crate::authority`], so issuance
/// needs no stored key.
pub fn initialize_mint() -> (r: (RewardMint, AssetDescriptor))
    ensures
        r.0.supply == 0,
        r.1.name@ == "Reward Token"@,
        r.1.symbol@ == "RWT"@,
        r.1.uri@ == ""@,
        r.1.seller_fee_basis_points == 0,
        r.1.creator is None,
        r.1.is_mutable,
{
    let descriptor = AssetDescriptor {
        name: "Reward Token".to_owned(),
        symbol: "RWT".to_owned(),
        uri: "".to_owned(),
        seller_fee_basis_points: 0,
        creator: None,
        is_mutable: true,
    };
    (RewardMint { supply: 0 }, descriptor)
}

} // verus!
