use vstd::prelude::*;

verus! {

/// The address that the ledger's program-derived-address scheme assigns to a
/// seed under a program id: a pure function of the two, re-derivable
/// identically in every process, so the program never stores a key for it.
pub uninterp spec fn derived_address_of(seed: Seq<char>, program_id: Seq<u8>) -> Seq<u8>;

/// Whether the scheme finds a viable bump seed for this seed under this
/// program id.  Like the address itself this is a pure function of the two:
/// the search is a deterministic sweep, so whether it succeeds is a fact of
/// (seed, program id), true for all practical inputs and false only in the
/// statistically improbable case that every bump yields a curve point.
pub uninterp spec fn derivation_viable(seed: Seq<char>, program_id: Seq<u8>) -> bool;

/// Relies on `Pubkey::try_find_program_address` of solana-pubkey (the type
/// anchor-lang re-exports): the derived address and bump, and whether any
/// bump is viable at all, depend only on the seeds and the program id, and
/// an address is 32 bytes.  `None` is returned exactly when no bump seed is
/// viable.
#[verifier::external_body]
fn find_derived_address(seed: &str, program_id: &Vec<u8>) -> (r: Option<Vec<u8>>)
    requires
        program_id@.len() == 32,
    ensures
        (r is Some) == derivation_viable(seed@, program_id@),
        r matches Some(a) ==> a@ == derived_address_of(seed@, program_id@) && a@.len() == 32,
{
    let mut array = [0u8; 32];
    array.copy_from_slice(program_id.as_slice());
    let program = solana_pubkey::Pubkey::new_from_array(array);
    solana_pubkey::Pubkey::try_find_program_address(&[seed.as_bytes()], &program)
        .map(|(address, _bump)| address.to_bytes().to_vec())
}

/// A program-controlled identity: the delegated custody authority or the
/// reward-minting authority.  It holds no key material — only the 32-byte
/// derived address, which anyone can re-derive from the namespace label.
pub struct DelegatedAuthority {
    pub address: Vec<u8>,
}

impl DelegatedAuthority {
    /// The identity is a well-formed ledger address.
    pub open spec fn wf(self) -> bool {
        self.address@.len() == 32
    }
}

/// Derives the custody authority that freezes and thaws holder accounts,
/// from its fixed namespace label under the given program id.  It succeeds
/// exactly when the label is viable under that program id.
pub fn derive_staking_authority(program_id: &Vec<u8>) -> (r: Option<DelegatedAuthority>)
    requires
        program_id@.len() == 32,
    ensures
        (r is Some) == derivation_viable("staking_Authority"@, program_id@),
        r matches Some(a) ==> a.wf() && a.address@ == derived_address_of(
            "staking_Authority"@,
            program_id@,
        ),
{
    match find_derived_address("staking_Authority", program_id) {
        Some(address) => Some(DelegatedAuthority { address }),
        None => None,
    }
}

/// Derives the reward-minting authority from its fixed namespace label under
/// the given program id.  It succeeds exactly when the label is viable under
/// that program id.
pub fn derive_mint_authority(program_id: &Vec<u8>) -> (r: Option<DelegatedAuthority>)
    requires
        program_id@.len() == 32,
    ensures
        (r is Some) == derivation_viable("mint-authority"@, program_id@),
        r matches Some(a) ==> a.wf() && a.address@ == derived_address_of(
            "mint-authority"@,
            program_id@,
        ),
{
    match find_derived_address("mint-authority", program_id) {
        Some(address) => Some(DelegatedAuthority { address }),
        None => None,
    }
}

/// The derivation is stateless and deterministic: two identities derived
/// from the same namespace label under the same program id are the same
/// identity, so no authority state ever needs storing or synchronizing.
pub proof fn lemma_authority_derivation_deterministic(
    a1: DelegatedAuthority,
    a2: DelegatedAuthority,
    seed: Seq<char>,
    program_id: Seq<u8>,
)
    requires
        a1.address@ == derived_address_of(seed, program_id),
        a2.address@ == derived_address_of(seed, program_id),
    ensures
        a1.address@ == a2.address@,
{
}

} // verus!
