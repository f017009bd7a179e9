//! Asset-id helpers: canonical ordering of a pool's assets and the
//! derivation of asset ids and share sub-ids from the chain's hash rule.

use vstd::prelude::*;

use sha2::{Digest, Sha256};

use crate::data_structures::{id_lt, lex_lt, AssetId, Bits256, Bytes32, ContractId, Id32};

verus! {

/// The SHA-256 digest of a byte string.
pub uninterp spec fn sha256_of(data: Seq<u8>) -> Seq<u8>;

/// Relies on sha2::Sha256 (SHA-256 of FIPS 180-4): the digest is a
/// pure function of the input bytes alone, and is 32 bytes long.
#[verifier::external_body]
fn sha256_digest(data: &Vec<u8>) -> (r: Vec<u8>)
    ensures
        r@ == sha256_of(data@),
        r@.len() == 32,
{
    Sha256::digest(data.as_slice()).to_vec()
}

/// Appends a copy of `src` to `dst`.
fn append_bytes(dst: &mut Vec<u8>, src: &Vec<u8>)
    ensures
        final(dst)@ == old(dst)@ + src@,
{
    let ghost dst0 = dst@;
    let mut i: usize = 0;
    while i < src.len()
        invariant
            i <= src@.len(),
            dst@ == dst0 + src@.take(i as int),
        decreases src@.len() - i,
    {
        dst.push(src[i]);
        proof {
            assert(dst0 + src@.take(i as int) + seq![src@[i as int]] =~= dst0 + src@.take(
                i + 1,
            ));
        }
        i = i + 1;
    }
    proof {
        assert(dst0 + src@.take(src@.len() as int) =~= dst0 + src@);
    }
}

/// Liquidity locked forever when a pool is first filled, so that the
/// pool can never be fully drained.
pub const MINIMUM_LIQUIDITY: u64 = 1000;

/// Scales a whole-token count to its 9-decimal representation.
pub fn to_9_decimal(num: u64) -> (r: u64)
    requires
        num * 1_000_000_000 <= u64::MAX,
    ensures
        r == num * 1_000_000_000,
{
    num * 1_000_000_000
}

/// The asset id a contract mints for a sub id: the SHA-256 digest of
/// the contract id followed by the sub id.
pub fn get_asset_id(sub_id: Bytes32, contract: ContractId) -> (r: AssetId)
    requires
        sub_id.wf(),
        contract.wf(),
    ensures
        r.bytes@ == sha256_of(contract.bytes@ + sub_id.bytes@),
        r.wf(),
{
    let mut preimage: Vec<u8> = Vec::new();
    append_bytes(&mut preimage, &contract.bytes);
    append_bytes(&mut preimage, &sub_id.bytes);
    Id32 { bytes: sha256_digest(&preimage) }
}

/// The sub id of a pool's liquidity share token: the SHA-256 digest
/// of the pool's two asset ids, in order.
pub fn get_share_sub_id(asset_pair: &(AssetId, AssetId)) -> (r: Bytes32)
    requires
        asset_pair.0.wf(),
        asset_pair.1.wf(),
    ensures
        r.bytes@ == sha256_of(asset_pair.0.bytes@ + asset_pair.1.bytes@),
        r.wf(),
{
    let mut preimage: Vec<u8> = Vec::new();
    append_bytes(&mut preimage, &asset_pair.0.bytes);
    append_bytes(&mut preimage, &asset_pair.1.bytes);
    Id32 { bytes: sha256_digest(&preimage) }
}

/// Arranges a pair of asset ids in canonical (ascending) order.
pub fn order_token_ids(pair: (AssetId, AssetId)) -> (r: (AssetId, AssetId))
    requires
        pair.0.wf(),
        pair.1.wf(),
    ensures
        lex_lt(pair.0.bytes@, pair.1.bytes@) ==> r == pair,
        !lex_lt(pair.0.bytes@, pair.1.bytes@) ==> r == (pair.1, pair.0),
        r.0.wf(),
        r.1.wf(),
{
    let (a, b) = pair;
    if id_lt(&a, &b) {
        (a, b)
    } else {
        (b, a)
    }
}

/// Arranges a pair of sub-ids in the order their asset ids dictate.
pub fn order_sub_ids(asset_ids: (AssetId, AssetId), sub_ids: (Bits256, Bits256)) -> (r: (
    Bits256,
    Bits256,
))
    requires
        asset_ids.0.wf(),
        asset_ids.1.wf(),
    ensures
        lex_lt(asset_ids.0.bytes@, asset_ids.1.bytes@) ==> r == sub_ids,
        !lex_lt(asset_ids.0.bytes@, asset_ids.1.bytes@) ==> r == (sub_ids.1, sub_ids.0),
{
    let (s0, s1) = sub_ids;
    if id_lt(&asset_ids.0, &asset_ids.1) {
        (s0, s1)
    } else {
        (s1, s0)
    }
}

} // verus!
