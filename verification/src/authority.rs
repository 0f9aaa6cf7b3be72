use vstd::prelude::*;
use anchor_lang::solana_program::pubkey::{Pubkey, PubkeyError};
use crate::key::{Key, ID};

verus! {

/// Why a derivation gave no address. Nothing is read from a value of it here.
#[verifier::external_type_specification]
#[verifier::external_body]
pub struct ExPubkeyError(PubkeyError);

/// The address that `Pubkey::create_program_address` derives from a list of
/// seeds under a program's address, or `None` where it derives none.
pub uninterp spec fn program_address(seeds: Seq<Seq<u8>>, program_id: Seq<u8>) -> Option<Seq<u8>>;

/// The bytes of each seed of a list.
pub open spec fn seed_bytes(seeds: Seq<Vec<u8>>) -> Seq<Seq<u8>> {
    seeds.map_values(|s: Vec<u8>| s@)
}

/// Calls `Pubkey::create_program_address`: the derivation is a hash of the
/// seeds and the program's address, so the same arguments give the same
/// address wherever it runs.
#[verifier::external_body]
fn create_program_address(seeds: &Vec<Vec<u8>>, program_id: &Key) -> (r: Result<Key, PubkeyError>)
    ensures
        match r {
            Ok(k) => program_address(seed_bytes(seeds@), program_id@) == Some(k@),
            Err(_) => program_address(seed_bytes(seeds@), program_id@) is None,
        },
{
    let seeds: Vec<&[u8]> = seeds.iter().map(|s| s.as_slice()).collect();
    let address = Pubkey::create_program_address(&seeds, &Pubkey::from(program_id.bytes))?;
    Ok(Key { bytes: address.to_bytes() })
}

/// The keyless identity that signs for a record's transfers. It holds no
/// secret: whoever has the base and the bump of a record can rebuild it.
#[derive(Clone, Copy, Debug, PartialEq, Eq)]
pub struct AuthorityDelegate {
    pub base: Key,
    pub bump: u8,
}

impl AuthorityDelegate {
    /// The seeds that stand for this authority: the base key, then the bump.
    pub open spec fn seeds(self) -> Seq<Seq<u8>> {
        seq![self.base@, seq![self.bump]]
    }

    /// The seeds with which the ledger is asked to accept this authority's
    /// signature.
    pub fn signer_seeds(&self) -> (r: Vec<Vec<u8>>)
        ensures
            seed_bytes(r@) == self.seeds(),
    {
        let mut bump: Vec<u8> = Vec::new();
        bump.push(self.bump);
        let mut seeds: Vec<Vec<u8>> = Vec::new();
        seeds.push(self.base.to_vec());
        seeds.push(bump);
        seeds
    }

    /// The address of this authority under this program, if base and bump
    /// derive one.
    pub fn address(&self) -> (r: Option<Key>)
        ensures
            match r {
                Some(k) => program_address(self.seeds(), ID@) == Some(k@),
                None => program_address(self.seeds(), ID@) is None,
            },
    {
        let seeds = self.signer_seeds();
        match create_program_address(&seeds, &crate::key::id()) {
            Ok(k) => Some(k),
            Err(_) => None,
        }
    }
}

} // verus!
