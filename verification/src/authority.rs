//! Who may do what: the fixed system authority that privileged operations
//! answer to, and the derived identity that signs for a market's escrow.

use crate::error::ErrorCode;
use crate::pubkey::{
    base58_address, decode_base58, program_address, search_program_address, seeds_view, Pubkey,
};
use vstd::prelude::*;

verus! {

/// The system authority, as a base58 string.
pub const OWNER: &'static str = "9sjC1DmEhMXHwmSNaq3jQrfAFzfSrPBooDjDDjukuyoR";

/// First seed of a market's escrow authority: the text `vault-auth`.
pub const VAULT_AUTH_SEED: [u8; 10] = [118, 97, 117, 108, 116, 45, 97, 117, 116, 104];

/// First seed of a position's address: the text `position`.
pub const POSITION_SEED: [u8; 8] = [112, 111, 115, 105, 116, 105, 111, 110];

/// Whether `key` is the system authority: the address that `OWNER` spells.
pub open spec fn is_owner(key: Pubkey) -> bool {
    base58_address(OWNER@) == Some(key@)
}

/// The address of the system authority, or `None` if `OWNER` spells none.
pub fn owner_pubkey() -> (owner: Option<Pubkey>)
    ensures
        base58_address(OWNER@) == match owner {
            Some(k) => Some(k@),
            None => None,
        },
        owner matches Some(k) ==> is_owner(k),
        owner is None ==> forall|k: Pubkey| !is_owner(k),
{
    decode_base58(OWNER)
}

/// Compares a caller with the authority that was decoded.
///
/// Succeeds exactly when there is an authority and the caller is it.
pub fn check_authority(caller: &Pubkey, authority: &Option<Pubkey>) -> (r: Result<(), ErrorCode>)
    ensures
        r is Ok <==> *authority == Some(*caller),
        r is Err ==> r == Err::<(), ErrorCode>(ErrorCode::Unauthorized),
{
    match authority {
        Some(owner) => {
            if *caller == *owner {
                Ok(())
            } else {
                Err(ErrorCode::Unauthorized)
            }
        },
        None => Err(ErrorCode::Unauthorized),
    }
}

/// The guard of every privileged operation: succeeds exactly when `caller`
/// is the system authority.
pub fn require_owner(caller: &Pubkey) -> (r: Result<(), ErrorCode>)
    ensures
        r is Ok <==> is_owner(*caller),
        r is Err ==> r == Err::<(), ErrorCode>(ErrorCode::Unauthorized),
{
    let authority = owner_pubkey();
    proof {
        if let Some(k) = authority {
            Pubkey::lemma_view_injective(k, *caller);
        }
    }
    check_authority(caller, &authority)
}

/// The seeds from which a market's escrow authority is derived: the fixed
/// prefix, then the market's own address.
pub open spec fn vault_seeds(market: Pubkey) -> Seq<Seq<u8>> {
    seq![VAULT_AUTH_SEED@, market@]
}

/// The seeds with which the escrow authority signs: the seeds it is derived
/// from, then the bump seed that completes the derivation.
pub open spec fn signer_seeds(market: Pubkey, bump: u8) -> Seq<Seq<u8>> {
    seq![VAULT_AUTH_SEED@, market@, seq![bump]]
}

/// The seeds from which the address of a position is derived: the fixed
/// prefix, the market's address, the participant's address.
pub open spec fn position_seeds(market: Pubkey, bettor: Pubkey) -> Seq<Seq<u8>> {
    seq![POSITION_SEED@, market@, bettor@]
}

/// Copies a run of bytes into a vector.
fn copy_bytes(src: &[u8]) -> (v: Vec<u8>)
    ensures
        v@ == src@,
{
    let mut v: Vec<u8> = Vec::new();
    let mut i: usize = 0;
    while i < src.len()
        invariant
            i <= src.len(),
            v@ == src@.subrange(0, i as int),
        decreases src.len() - i,
    {
        v.push(src[i]);
        i += 1;
    }
    assert(src@.subrange(0, src@.len() as int) == src@);
    v
}

/// Builds the seeds from which a market's escrow authority is derived.
pub fn vault_authority_seeds(market: &Pubkey) -> (seeds: Vec<Vec<u8>>)
    ensures
        seeds_view(seeds@) == vault_seeds(*market),
{
    let mut seeds: Vec<Vec<u8>> = Vec::new();
    seeds.push(copy_bytes(VAULT_AUTH_SEED.as_slice()));
    seeds.push(market.to_vec());
    assert(seeds_view(seeds@) =~= vault_seeds(*market));
    seeds
}

/// Builds the seeds with which a market's escrow authority signs a transfer
/// out of escrow.
pub fn vault_signer_seeds(market: &Pubkey, bump: u8) -> (seeds: Vec<Vec<u8>>)
    ensures
        seeds_view(seeds@) == signer_seeds(*market, bump),
{
    let mut last: Vec<u8> = Vec::new();
    last.push(bump);
    let mut seeds: Vec<Vec<u8>> = Vec::new();
    seeds.push(copy_bytes(VAULT_AUTH_SEED.as_slice()));
    seeds.push(market.to_vec());
    seeds.push(last);
    assert(seeds_view(seeds@) =~= signer_seeds(*market, bump));
    seeds
}

/// Derives the identity that controls a market's escrow, together with the
/// bump seed that proves the derivation. The identity depends on the
/// market's address and the program alone.
pub fn find_vault_authority(market: &Pubkey, program_id: &Pubkey) -> (found: Option<(Pubkey, u8)>)
    ensures
        program_address(vault_seeds(*market), program_id@) == match found {
            Some((k, bump)) => Some((k@, bump)),
            None => None,
        },
{
    let seeds = vault_authority_seeds(market);
    search_program_address(&seeds, program_id)
}

/// Derives the address under which the position of `bettor` in `market` is
/// kept, together with its bump seed.
pub fn find_position_address(market: &Pubkey, bettor: &Pubkey, program_id: &Pubkey) -> (found:
    Option<(Pubkey, u8)>)
    ensures
        program_address(position_seeds(*market, *bettor), program_id@) == match found {
            Some((k, bump)) => Some((k@, bump)),
            None => None,
        },
{
    let mut seeds: Vec<Vec<u8>> = Vec::new();
    seeds.push(copy_bytes(POSITION_SEED.as_slice()));
    seeds.push(market.to_vec());
    seeds.push(bettor.to_vec());
    assert(seeds_view(seeds@) =~= position_seeds(*market, *bettor));
    search_program_address(&seeds, program_id)
}

} // verus!
