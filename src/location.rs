//! Cross-consensus locations and assets, and their SCALE byte encoding.
use vstd::prelude::*;

use crate::account::AccountId;
use crate::compact::{compact, push_compact};

verus! {

/// The most junctions that a location may have.
pub const MAX_JUNCTIONS: usize = 8;

/// The network that an account belongs to.
#[derive(Clone, Copy, Debug, PartialEq, Eq)]
pub enum NetworkId {
    Any,
    Polkadot,
    Kusama,
}

/// One step of a location's interior path.
#[derive(Clone, Copy, Debug, PartialEq, Eq)]
pub enum Junction {
    Parachain(u32),
    AccountId32 { network: NetworkId, id: AccountId },
    PalletInstance(u8),
    GeneralIndex(u128),
}

/// A location relative to the current consensus: `parents` steps up, then
/// the junctions of `interior` down.
#[derive(Clone, Debug)]
pub struct MultiLocation {
    pub parents: u8,
    pub interior: Vec<Junction>,
}

/// A fungible amount of the asset class that a location identifies.
#[derive(Clone, Debug)]
pub struct MultiAsset {
    pub id: MultiLocation,
    pub amount: u128,
}

/// Whether a location has at most `MAX_JUNCTIONS` junctions.
pub open spec fn location_wf(l: MultiLocation) -> bool {
    l.interior@.len() <= MAX_JUNCTIONS
}

/// Whether every asset's location has at most `MAX_JUNCTIONS` junctions.
pub open spec fn assets_wf(s: Seq<MultiAsset>) -> bool {
    forall|i: int| 0 <= i < s.len() ==> location_wf(#[trigger] s[i].id)
}

/// The byte that encodes a network.
pub open spec fn network_code(n: NetworkId) -> u8 {
    match n {
        NetworkId::Any => 0,
        NetworkId::Polkadot => 2,
        NetworkId::Kusama => 3,
    }
}

/// The encoding of one junction: its variant index, then its fields.
pub open spec fn encode_junction(j: Junction) -> Seq<u8> {
    match j {
        Junction::Parachain(id) => seq![0u8] + compact(id as u128),
        Junction::AccountId32 { network, id } => seq![1u8, network_code(network)] + id@,
        Junction::PalletInstance(i) => seq![4u8, i],
        Junction::GeneralIndex(i) => seq![5u8] + compact(i),
    }
}

/// The encodings of the junctions of `s`, one after another.
pub open spec fn encode_junctions(s: Seq<Junction>) -> Seq<u8>
    decreases s.len(),
{
    if s.len() == 0 {
        seq![]
    } else {
        encode_junctions(s.drop_last()) + encode_junction(s.last())
    }
}

/// The encoding of a location: the parent count, the number of junctions,
/// then the junctions.
pub open spec fn encode_location(l: MultiLocation) -> Seq<u8> {
    seq![l.parents, l.interior@.len() as u8] + encode_junctions(l.interior@)
}

/// The encoding of a fungible asset: a concrete class, its location, a
/// fungible amount in compact form.
pub open spec fn encode_asset(a: MultiAsset) -> Seq<u8> {
    seq![0u8] + encode_location(a.id) + seq![0u8] + compact(a.amount)
}

/// The encodings of the assets of `s`, one after another.
pub open spec fn encode_asset_list(s: Seq<MultiAsset>) -> Seq<u8>
    decreases s.len(),
{
    if s.len() == 0 {
        seq![]
    } else {
        encode_asset_list(s.drop_last()) + encode_asset(s.last())
    }
}

/// The encoding of a versioned asset collection: the version tag 1, the
/// number of assets in compact form, then the assets.
pub open spec fn encode_versioned_assets(s: Seq<MultiAsset>) -> Seq<u8> {
    seq![1u8] + compact(s.len() as u128) + encode_asset_list(s)
}

/// Appends the encoding of one junction.
pub fn push_junction(out: &mut Vec<u8>, j: &Junction)
    ensures
        final(out)@ == old(out)@ + encode_junction(*j),
{
    match j {
        Junction::Parachain(id) => {
            out.push(0u8);
            push_compact(out, *id as u128);
        },
        Junction::AccountId32 { network, id } => {
            out.push(1u8);
            let code: u8 = match network {
                NetworkId::Any => 0,
                NetworkId::Polkadot => 2,
                NetworkId::Kusama => 3,
            };
            out.push(code);
            let ghost start = out@;
            let mut i: usize = 0;
            while i < 32
                invariant
                    0 <= i <= 32,
                    id@.len() == 32,
                    out@ == start + id@.subrange(0, i as int),
                decreases 32 - i,
            {
                out.push(id[i]);
                i = i + 1;
                assert(out@ =~= start + id@.subrange(0, i as int));
            }
            assert(id@.subrange(0, 32) =~= id@);
        },
        Junction::PalletInstance(i) => {
            out.push(4u8);
            out.push(*i);
        },
        Junction::GeneralIndex(i) => {
            out.push(5u8);
            push_compact(out, *i);
        },
    }
    assert(final(out)@ =~= old(out)@ + encode_junction(*j));
}

/// Appends the encoding of a location.
pub fn push_location(out: &mut Vec<u8>, l: &MultiLocation)
    requires
        location_wf(*l),
    ensures
        final(out)@ == old(out)@ + encode_location(*l),
{
    out.push(l.parents);
    out.push(l.interior.len() as u8);
    let ghost start = out@;
    let mut i: usize = 0;
    assert(l.interior@.subrange(0, 0) =~= Seq::<Junction>::empty());
    while i < l.interior.len()
        invariant
            0 <= i <= l.interior@.len(),
            out@ == start + encode_junctions(l.interior@.subrange(0, i as int)),
        decreases l.interior@.len() - i,
    {
        push_junction(out, &l.interior[i]);
        assert(l.interior@.subrange(0, i + 1).drop_last() =~= l.interior@.subrange(0, i as int));
        i = i + 1;
        assert(out@ =~= start + encode_junctions(l.interior@.subrange(0, i as int)));
    }
    assert(l.interior@.subrange(0, l.interior@.len() as int) =~= l.interior@);
    assert(out@ =~= old(out)@ + encode_location(*l));
}

/// Appends the encoding of one fungible asset.
pub fn push_asset(out: &mut Vec<u8>, a: &MultiAsset)
    requires
        location_wf(a.id),
    ensures
        final(out)@ == old(out)@ + encode_asset(*a),
{
    out.push(0u8);
    push_location(out, &a.id);
    out.push(0u8);
    push_compact(out, a.amount);
    assert(final(out)@ =~= old(out)@ + encode_asset(*a));
}

/// Appends the encoding of a versioned asset collection.
pub fn push_versioned_assets(out: &mut Vec<u8>, assets: &Vec<MultiAsset>)
    requires
        assets_wf(assets@),
    ensures
        final(out)@ == old(out)@ + encode_versioned_assets(assets@),
{
    out.push(1u8);
    push_compact(out, assets.len() as u128);
    let ghost start = out@;
    let mut i: usize = 0;
    assert(assets@.subrange(0, 0) =~= Seq::<MultiAsset>::empty());
    while i < assets.len()
        invariant
            0 <= i <= assets@.len(),
            assets_wf(assets@),
            out@ == start + encode_asset_list(assets@.subrange(0, i as int)),
        decreases assets@.len() - i,
    {
        assert(location_wf(assets@[i as int].id));
        push_asset(out, &assets[i]);
        assert(assets@.subrange(0, i + 1).drop_last() =~= assets@.subrange(0, i as int));
        i = i + 1;
        assert(out@ =~= start + encode_asset_list(assets@.subrange(0, i as int)));
    }
    assert(assets@.subrange(0, assets@.len() as int) =~= assets@);
    assert(out@ =~= old(out)@ + encode_versioned_assets(assets@));
}

} // verus!
