//! Account addresses: 32-byte identities that name participants, markets,
//! holding accounts and asset kinds.

use core::str::FromStr;
use vstd::prelude::*;

verus! {

/// A 32-byte account address.
///
/// The bytes are held as plain values, so that comparisons and seed
/// construction can be reasoned about directly.
#[derive(Clone, Copy, Debug)]
pub struct Pubkey {
    pub bytes: [u8; 32],
}

impl View for Pubkey {
    type V = Seq<u8>;

    open spec fn view(&self) -> Seq<u8> {
        self.bytes@
    }
}

impl Pubkey {
    /// Wraps 32 raw bytes as an address.
    pub fn new_from_array(bytes: [u8; 32]) -> (key: Pubkey)
        ensures
            key.bytes == bytes,
            key@ == bytes@,
    {
        Pubkey { bytes }
    }

    /// The raw bytes of the address.
    pub fn to_bytes(&self) -> (bytes: [u8; 32])
        ensures
            bytes == self.bytes,
            bytes@ == self@,
    {
        self.bytes
    }

    /// The bytes of the address as an owned vector, in order.
    pub fn to_vec(&self) -> (v: Vec<u8>)
        ensures
            v@ == self@,
    {
        let mut v: Vec<u8> = Vec::new();
        let mut i: usize = 0;
        while i < 32
            invariant
                i <= 32,
                v@ == self@.subrange(0, i as int),
            decreases 32 - i,
        {
            v.push(self.bytes[i]);
            i += 1;
        }
        v
    }

    /// Two addresses with the same bytes are the same address.
    pub proof fn lemma_view_injective(a: Pubkey, b: Pubkey)
        ensures
            a@ == b@ <==> a == b,
    {
        if a@ == b@ {
            assert(a.bytes =~= b.bytes);
        }
    }
}

impl PartialEq for Pubkey {
    /// Byte-wise comparison.
    fn eq(&self, other: &Pubkey) -> (r: bool) {
        let mut i: usize = 0;
        while i < 32
            invariant
                i <= 32,
                forall|j: int| 0 <= j < i ==> self.bytes[j] == other.bytes[j],
            decreases 32 - i,
        {
            if self.bytes[i] != other.bytes[i] {
                return false;
            }
            i += 1;
        }
        proof {
            assert(self.bytes =~= other.bytes);
        }
        true
    }
}

impl Eq for Pubkey {

}

impl vstd::std_specs::cmp::PartialEqSpecImpl for Pubkey {
    open spec fn obeys_eq_spec() -> bool {
        true
    }

    open spec fn eq_spec(&self, other: &Pubkey) -> bool {
        *self == *other
    }
}

impl Default for Pubkey {
    /// The all-zero address, which blank records carry.
    fn default() -> (key: Pubkey)
        ensures
            key@ == Seq::new(32, |i: int| 0u8),
    {
        Pubkey { bytes: [0u8; 32] }
    }
}

/// The address that a base58 string spells, if it spells one: the result of
/// `solana_pubkey::Pubkey::from_str` on the string's characters.
pub uninterp spec fn base58_address(text: Seq<char>) -> Option<Seq<u8>>;

/// The program-derived address for `seeds` under `program_id`, with the bump
/// seed that completes it, if one exists: the result of
/// `solana_pubkey::Pubkey::try_find_program_address`.
pub uninterp spec fn program_address(seeds: Seq<Seq<u8>>, program_id: Seq<u8>) -> Option<
    (Seq<u8>, u8),
>;

/// The byte strings that a list of seeds holds, in order.
pub open spec fn seeds_view(seeds: Seq<Vec<u8>>) -> Seq<Seq<u8>> {
    seeds.map_values(|seed: Vec<u8>| seed@)
}

/// Decodes a base58 string into an address.
///
/// Calls `Pubkey::from_str` of `solana_pubkey`, which `anchor_lang` hands
/// on. It decodes at most 44 base58 characters into exactly 32 bytes and
/// reports any other input as an error. Assumed without proof: the call
/// returns, and its answer depends on the characters of `text` alone. A
/// decoding error is reported as `None`.
#[verifier::external_body]
pub(crate) fn decode_base58(text: &str) -> (key: Option<Pubkey>)
    ensures
        base58_address(text@) == match key {
            Some(k) => Some(k@),
            None => None,
        },
{
    match anchor_lang::prelude::Pubkey::from_str(text) {
        Ok(key) => Some(Pubkey { bytes: key.to_bytes() }),
        Err(_) => None,
    }
}

/// Searches for the program-derived address of `seeds` under `program_id`.
///
/// Calls `Pubkey::try_find_program_address` of `solana_pubkey`, which
/// `anchor_lang` hands on. It tries the bump seeds from 255 downwards and
/// returns the first address that does not lie on the signature curve, or
/// `None` when there is none or when there are more or longer seeds than it
/// admits. Assumed without proof: the call returns, and its answer depends
/// on the seeds and the program address alone.
#[verifier::external_body]
pub(crate) fn search_program_address(seeds: &Vec<Vec<u8>>, program_id: &Pubkey) -> (found: Option<
    (Pubkey, u8),
>)
    ensures
        program_address(seeds_view(seeds@), program_id@) == match found {
            Some((k, bump)) => Some((k@, bump)),
            None => None,
        },
{
    let slices: Vec<&[u8]> = seeds.iter().map(|seed| seed.as_slice()).collect();
    let program = anchor_lang::prelude::Pubkey::new_from_array(program_id.bytes);
    match anchor_lang::prelude::Pubkey::try_find_program_address(&slices, &program) {
        Some((key, bump)) => Some((Pubkey { bytes: key.to_bytes() }, bump)),
        None => None,
    }
}

} // verus!
