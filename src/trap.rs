//! The identifier of assets that a failed cross-chain execution trapped.
use vstd::prelude::*;

use crate::location::{
    encode_asset, encode_asset_list, encode_location, encode_versioned_assets, location_wf,
    assets_wf, push_location, push_versioned_assets, MultiAsset, MultiLocation,
};

verus! {

/// The 32-byte BLAKE2b-256 digest of `data`.
pub uninterp spec fn blake2_256_of(data: Seq<u8>) -> Seq<u8>;

/// Relies on `sp_core::Blake2Hasher`'s `Hasher::hash`, which returns
/// `sp_crypto_hashing::blake2_256(data)`: the BLAKE2b-256 digest of the
/// bytes, which depends on them alone.
#[verifier::external_body]
fn blake2_256(data: &Vec<u8>) -> (r: [u8; 32])
    ensures
        r@ == blake2_256_of(data@),
{
    <sp_core::Blake2Hasher as sp_core::Hasher>::hash(data.as_slice()).0
}

/// The bytes that identify trapped assets: the encoding of the origin
/// followed by the encoding of the assets as a versioned collection.
pub open spec fn trap_preimage(origin: MultiLocation, assets: Seq<MultiAsset>) -> Seq<u8> {
    encode_location(origin) + encode_versioned_assets(assets)
}

/// The identifier of `assets` trapped at `origin`.
pub open spec fn trap_hash(origin: MultiLocation, assets: Seq<MultiAsset>) -> Seq<u8> {
    blake2_256_of(trap_preimage(origin, assets))
}

/// Builds the bytes that identify `assets` trapped at `origin`.
pub fn trap_preimage_bytes(origin: &MultiLocation, assets: &Vec<MultiAsset>) -> (r: Vec<u8>)
    requires
        location_wf(*origin),
        assets_wf(assets@),
    ensures
        r@ == trap_preimage(*origin, assets@),
{
    let mut out: Vec<u8> = Vec::new();
    push_location(&mut out, origin);
    push_versioned_assets(&mut out, assets);
    assert(out@ =~= trap_preimage(*origin, assets@));
    out
}

/// The identifier of `assets` trapped at `origin`: the BLAKE2b-256 digest of
/// their encoding.
pub fn determine_hash(origin: &MultiLocation, assets: &Vec<MultiAsset>) -> (r: [u8; 32])
    requires
        location_wf(*origin),
        assets_wf(assets@),
    ensures
        r@ == trap_hash(*origin, assets@),
{
    let bytes = trap_preimage_bytes(origin, assets);
    blake2_256(&bytes)
}

/// Whether two locations are structurally equal.
pub open spec fn same_location(a: MultiLocation, b: MultiLocation) -> bool {
    a.parents == b.parents && a.interior@ == b.interior@
}

/// Whether two asset lists are structurally equal.
pub open spec fn same_assets(a: Seq<MultiAsset>, b: Seq<MultiAsset>) -> bool {
    &&& a.len() == b.len()
    &&& forall|i: int|
        0 <= i < a.len() ==> same_location(#[trigger] a[i].id, b[i].id) && a[i].amount == b[i].amount
}

proof fn lemma_same_asset_list(a: Seq<MultiAsset>, b: Seq<MultiAsset>)
    requires
        same_assets(a, b),
    ensures
        encode_asset_list(a) == encode_asset_list(b),
    decreases a.len(),
{
    if a.len() > 0 {
        lemma_same_asset_list(a.drop_last(), b.drop_last());
        assert(same_location(a[a.len() - 1].id, b[b.len() - 1].id));
        assert(encode_asset(a.last()) == encode_asset(b.last()));
    }
}

/// Structurally equal origins and asset lists have the same trap
/// identifier, whatever process or machine computes it.
pub proof fn lemma_hash_stability(
    origin_a: MultiLocation,
    assets_a: Seq<MultiAsset>,
    origin_b: MultiLocation,
    assets_b: Seq<MultiAsset>,
)
    requires
        same_location(origin_a, origin_b),
        same_assets(assets_a, assets_b),
    ensures
        trap_hash(origin_a, assets_a) == trap_hash(origin_b, assets_b),
{
    lemma_same_asset_list(assets_a, assets_b);
}

} // verus!
