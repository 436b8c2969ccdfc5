use vstd::prelude::*;

use crate::digest::{sha256, sha256_digest};

verus! {

/// The all-zero 32-byte string, the sub id of a contract's default asset.
pub open spec fn zero_sub_id() -> Seq<u8> {
    Seq::new(32, |i: int| 0u8)
}

/// The asset id of the asset minted by `contract` under `sub_id`:
/// SHA-256 over the contract id followed by the sub id.
pub open spec fn asset_id_of(sub_id: Seq<u8>, contract: Seq<u8>) -> Seq<u8> {
    sha256_digest(contract + sub_id)
}

/// The 64 bytes `first` followed by `second`.
fn concat_32(first: &[u8; 32], second: &[u8; 32]) -> (out: Vec<u8>)
    ensures
        out@ == first@ + second@,
{
    let mut out: Vec<u8> = Vec::with_capacity(64);
    let mut i: usize = 0;
    while i < 32
        invariant
            i <= 32,
            out@ == first@.subrange(0, i as int),
        decreases 32 - i,
    {
        out.push(first[i]);
        i = i + 1;
    }
    assert(out@ == first@);
    let mut j: usize = 0;
    while j < 32
        invariant
            j <= 32,
            out@ == first@ + second@.subrange(0, j as int),
        decreases 32 - j,
    {
        out.push(second[j]);
        j = j + 1;
    }
    assert(second@.subrange(0, 32) == second@);
    out
}

/// Computes the AssetId by hashing the contract ID and sub ID together.
pub fn get_asset_id(sub_id: [u8; 32], contract: [u8; 32]) -> (asset_id: [u8; 32])
    ensures
        asset_id@ == asset_id_of(sub_id@, contract@),
{
    let preimage = concat_32(&contract, &sub_id);
    sha256(preimage.as_slice())
}

/// Computes the default AssetId using a sub ID of all zeros.
pub fn get_default_asset_id(contract: [u8; 32]) -> (asset_id: [u8; 32])
    ensures
        asset_id@ == asset_id_of(zero_sub_id(), contract@),
{
    let default_sub_id: [u8; 32] = [0u8; 32];
    assert(default_sub_id@ =~= zero_sub_id());
    get_asset_id(default_sub_id, contract)
}

/// The address that carries the same 32 bytes as `contract_id`.
pub fn convert_id(contract_id: [u8; 32]) -> (address: [u8; 32])
    ensures
        address == contract_id,
{
    contract_id
}

/// Distinct (contract, sub id) pairs are hashed from distinct byte strings:
/// two asset ids of 32-byte contract and sub ids can only agree where SHA-256
/// maps two different inputs to one digest.
pub proof fn lemma_asset_id_preimages_distinct(
    sub_a: Seq<u8>,
    contract_a: Seq<u8>,
    sub_b: Seq<u8>,
    contract_b: Seq<u8>,
)
    requires
        sub_a.len() == 32,
        contract_a.len() == 32,
        sub_b.len() == 32,
        contract_b.len() == 32,
        sub_a != sub_b || contract_a != contract_b,
    ensures
        contract_a + sub_a != contract_b + sub_b,
{
    if contract_a + sub_a == contract_b + sub_b {
        assert((contract_a + sub_a).subrange(0, 32) =~= contract_a);
        assert((contract_b + sub_b).subrange(0, 32) =~= contract_b);
        assert((contract_a + sub_a).subrange(32, 64) =~= sub_a);
        assert((contract_b + sub_b).subrange(32, 64) =~= sub_b);
    }
}

} // verus!
