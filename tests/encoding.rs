use sp_core::Hasher;
use xcm_testnet::account::bob;
use xcm_testnet::compact::push_compact;
use xcm_testnet::location::{Junction, MultiAsset, MultiLocation, NetworkId};
use xcm_testnet::trap::{determine_hash, trap_preimage_bytes};

fn compact(n: u128) -> Vec<u8> {
    let mut out = vec![];
    push_compact(&mut out, n);
    out
}

#[test]
fn compact_values() {
    assert_eq!(compact(0), vec![0]);
    assert_eq!(compact(1), vec![4]);
    assert_eq!(compact(63), vec![252]);
    assert_eq!(compact(64), vec![1, 1]);
    assert_eq!(compact(16383), vec![0xfd, 0xff]);
    assert_eq!(compact(16384), vec![2, 0, 1, 0]);
    assert_eq!(compact(1 << 30), vec![3, 0, 0, 0, 0x40]);
    assert_eq!(compact(300_000_000_000_000), vec![15, 0x00, 0xc0, 0x6e, 0x31, 0xd9, 0x10, 0x01]);
    let mut max = vec![0x33];
    max.extend([0xff; 16]);
    assert_eq!(compact(u128::MAX), max);
}

fn origin() -> MultiLocation {
    MultiLocation { parents: 1, interior: vec![Junction::Parachain(3000)] }
}

fn assets() -> Vec<MultiAsset> {
    vec![MultiAsset {
        id: MultiLocation { parents: 0, interior: vec![Junction::PalletInstance(50), Junction::GeneralIndex(0)] },
        amount: 1,
    }]
}

#[test]
fn trap_preimage_layout() {
    let bytes = trap_preimage_bytes(&origin(), &assets());
    // origin: parents 1, one junction, Parachain(3000) with 3000 in compact form
    let mut expected = vec![1, 1, 0, 0xe1, 0x2e];
    // version 1, one asset, concrete (0, [PalletInstance(50), GeneralIndex(0)]), fungible 1
    expected.extend([1, 4, 0, 0, 2, 4, 50, 5, 0, 0, 4]);
    assert_eq!(bytes, expected);
}

#[test]
fn account_junction_layout() {
    let l = MultiLocation {
        parents: 0,
        interior: vec![Junction::AccountId32 { network: NetworkId::Kusama, id: bob() }],
    };
    let bytes = trap_preimage_bytes(&l, &vec![]);
    let mut expected = vec![0, 1, 1, 3];
    expected.extend([5u8; 32]);
    expected.extend([1, 0]);
    assert_eq!(bytes, expected);
}

#[test]
fn trap_hash_is_stable() {
    let h1 = determine_hash(&origin(), &assets());
    let h2 = determine_hash(&origin().clone(), &assets().clone());
    assert_eq!(h1, h2);
    let preimage = trap_preimage_bytes(&origin(), &assets());
    assert_eq!(h1, sp_core::Blake2Hasher::hash(&preimage).0);
    assert_ne!(h1.to_vec(), preimage);
    let mut other = assets();
    other[0].amount = 2;
    assert_ne!(determine_hash(&origin(), &other), h1);
}
