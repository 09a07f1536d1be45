use xcm_testnet::account::{alice, bob, sovereign_account, UNITS};
use xcm_testnet::chain::{AssetAccount, DispatchError, Event};
use xcm_testnet::events::{expect_events, last_events};
use xcm_testnet::location::{Junction, MultiAsset, MultiLocation, NetworkId};
use xcm_testnet::network::{TestNet, WeightLimit, ASSETS_PALLET_INDEX};

fn sibling(id: u32) -> MultiLocation {
    MultiLocation { parents: 1, interior: vec![Junction::Parachain(id)] }
}

fn local_account(id: [u8; 32]) -> MultiLocation {
    MultiLocation { parents: 0, interior: vec![Junction::AccountId32 { network: NetworkId::Any, id }] }
}

fn local_asset(index: u128, amount: u128) -> Vec<MultiAsset> {
    vec![MultiAsset {
        id: MultiLocation {
            parents: 0,
            interior: vec![Junction::PalletInstance(ASSETS_PALLET_INDEX), Junction::GeneralIndex(index)],
        },
        amount,
    }]
}

fn transfer_300(net: &mut TestNet) -> Result<(), DispatchError> {
    net.limited_reserve_transfer_assets(
        3000,
        &alice(),
        &sibling(2000),
        &local_account(bob()),
        &local_asset(0, 300 * UNITS),
        0,
        WeightLimit::Limited(399_600_000_000),
    )
}

#[test]
fn transfer_from_2k_to_3k() {
    let mut net = TestNet::new();
    net.reset();

    assert_eq!(transfer_300(&mut net), Ok(()));
    assert_eq!(net.para_3k.asset_balance(0, &alice()), 2_000 * UNITS - 300 * UNITS);

    assert_eq!(net.para_2k.asset_balance(0, &bob()), 300 * UNITS);
}

#[test]
fn reset_restores_genesis() {
    let mut net = TestNet::new();
    assert_eq!(transfer_300(&mut net), Ok(()));
    net.reset();
    assert_eq!(net.para_3k.asset_balance(0, &alice()), 2000 * UNITS);
    assert_eq!(net.para_2k.asset_balance(0, &bob()), 0);
    assert_eq!(net.para_2k.asset_balance(0, &alice()), 10 * UNITS);
    assert!(net.para_3k.events.is_empty());
    assert!(net.para_2k.events.is_empty());
    net.reset();
    assert_eq!(net.para_3k.asset_balance(0, &alice()), 2000 * UNITS);
}

#[test]
fn insufficient_balance_is_noop() {
    let mut net = TestNet::new();
    let r = net.limited_reserve_transfer_assets(
        3000,
        &alice(),
        &sibling(2000),
        &local_account(bob()),
        &local_asset(0, 10_000 * UNITS),
        0,
        WeightLimit::Limited(399_600_000_000),
    );
    assert_eq!(r, Err(DispatchError::BalanceLow));
    assert_eq!(net.para_3k.asset_balance(0, &alice()), 2000 * UNITS);
    assert_eq!(net.para_2k.asset_balance(0, &bob()), 0);
    assert_eq!(net.para_2k.asset_balance(0, &alice()), 10 * UNITS);
    assert!(net.para_3k.events.is_empty());
}

#[test]
fn unknown_destination_is_rejected() {
    let mut net = TestNet::new();
    let r = net.limited_reserve_transfer_assets(
        3000,
        &alice(),
        &sibling(9999),
        &local_account(bob()),
        &local_asset(0, 300 * UNITS),
        0,
        WeightLimit::Limited(399_600_000_000),
    );
    assert_eq!(r, Err(DispatchError::UnknownDestination));
    assert_eq!(net.para_3k.asset_balance(0, &alice()), 2000 * UNITS);
    assert!(net.para_3k.events.is_empty());
}

#[test]
fn asset_total_conserved_after_transfer() {
    let mut net = TestNet::new();
    let before: u128 = net.para_2k.holdings.iter().chain(net.para_3k.holdings.iter())
        .filter(|h| h.id == 0).map(|h| h.balance).sum();
    assert_eq!(transfer_300(&mut net), Ok(()));
    let after: u128 = net.para_2k.holdings.iter().chain(net.para_3k.holdings.iter())
        .filter(|h| h.id == 0).map(|h| h.balance).sum();
    assert_eq!(before, 2010 * UNITS);
    assert_eq!(after, before);
}

#[test]
fn native_balances_unchanged_by_transfer() {
    let mut net = TestNet::new();
    let total = |n: &TestNet| -> u128 {
        n.relay.native.iter().chain(n.para_2k.native.iter()).chain(n.para_3k.native.iter())
            .map(|e| e.1).sum()
    };
    let before = total(&net);
    assert_eq!(before, (2002 + 10 + 200 + 200 + 3000) * UNITS);
    assert_eq!(transfer_300(&mut net), Ok(()));
    assert_eq!(total(&net), before);
    assert_eq!(net.relay.free_balance(&sovereign_account(2000)), 10 * UNITS);
}

#[test]
fn two_runs_after_reset_observe_the_same() {
    let mut a = TestNet::new();
    let mut b = TestNet::new();
    assert_eq!(transfer_300(&mut b), Ok(()));
    a.reset();
    b.reset();
    let ra = transfer_300(&mut a);
    let rb = transfer_300(&mut b);
    assert_eq!(ra, rb);
    for who in [alice(), bob()] {
        assert_eq!(a.para_2k.asset_balance(0, &who), b.para_2k.asset_balance(0, &who));
        assert_eq!(a.para_3k.asset_balance(0, &who), b.para_3k.asset_balance(0, &who));
    }
    assert_eq!(last_events(&a.para_3k, 5), last_events(&b.para_3k, 5));
}

#[test]
fn transfer_records_events_on_both_sides() {
    let mut net = TestNet::new();
    assert_eq!(transfer_300(&mut net), Ok(()));
    let sent = Event::ReserveTransferred {
        asset: 0,
        from: alice(),
        dest: 2000,
        beneficiary: bob(),
        amount: 300 * UNITS,
    };
    let arrived = Event::Deposited { asset: 0, origin: 3000, owner: bob(), amount: 300 * UNITS };
    assert!(expect_events(&net.para_3k, vec![sent]));
    assert!(expect_events(&net.para_2k, vec![arrived]));
    assert!(!expect_events(&net.para_2k, vec![sent]));
    assert!(expect_events(&net.para_2k, vec![]));
}

#[test]
fn event_tail_is_idempotent() {
    let mut net = TestNet::new();
    assert_eq!(transfer_300(&mut net), Ok(()));
    assert_eq!(transfer_300(&mut net), Ok(()));
    let first = last_events(&net.para_3k, 1);
    let second = last_events(&net.para_3k, 1);
    assert_eq!(first, second);
    assert_eq!(first.len(), 1);
    assert_eq!(last_events(&net.para_3k, 10).len(), 2);
    assert_eq!(last_events(&net.para_3k, 0).len(), 0);
}

#[test]
fn transfer_back_from_2k() {
    let mut net = TestNet::new();
    assert_eq!(transfer_300(&mut net), Ok(()));
    let r = net.limited_reserve_transfer_assets(
        2000,
        &bob(),
        &sibling(3000),
        &local_account(alice()),
        &local_asset(0, 100 * UNITS),
        0,
        WeightLimit::Unlimited,
    );
    assert_eq!(r, Ok(()));
    assert_eq!(net.para_2k.asset_balance(0, &bob()), 200 * UNITS);
    assert_eq!(net.para_3k.asset_balance(0, &alice()), 1800 * UNITS);
}

#[test]
fn malformed_calls_are_rejected() {
    let mut net = TestNet::new();
    let limit = WeightLimit::Limited(399_600_000_000);
    let mut two = local_asset(0, UNITS);
    two.extend(local_asset(0, UNITS));
    assert_eq!(
        net.limited_reserve_transfer_assets(3000, &alice(), &sibling(2000), &local_account(bob()), &two, 0, limit),
        Err(DispatchError::BadAssets)
    );
    assert_eq!(
        net.limited_reserve_transfer_assets(3000, &alice(), &sibling(2000), &local_account(bob()), &local_asset(0, UNITS), 1, limit),
        Err(DispatchError::BadAssets)
    );
    assert_eq!(
        net.limited_reserve_transfer_assets(3000, &alice(), &sibling(2000), &sibling(2000), &local_asset(0, UNITS), 0, limit),
        Err(DispatchError::BadBeneficiary)
    );
    assert_eq!(
        net.limited_reserve_transfer_assets(3000, &alice(), &local_account(bob()), &local_account(bob()), &local_asset(0, UNITS), 0, limit),
        Err(DispatchError::UnknownDestination)
    );
    assert_eq!(
        net.limited_reserve_transfer_assets(3000, &alice(), &sibling(3000), &local_account(bob()), &local_asset(0, UNITS), 0, limit),
        Err(DispatchError::UnknownDestination)
    );
    assert_eq!(
        net.limited_reserve_transfer_assets(4000, &alice(), &sibling(2000), &local_account(bob()), &local_asset(0, UNITS), 0, limit),
        Err(DispatchError::UnknownSource)
    );
    assert_eq!(
        net.limited_reserve_transfer_assets(3000, &alice(), &sibling(2000), &local_account(bob()), &local_asset(1, UNITS), 0, limit),
        Err(DispatchError::UnknownAsset)
    );
    assert_eq!(net.para_3k.asset_balance(0, &alice()), 2000 * UNITS);
}

#[test]
fn overflowing_deposit_is_rejected() {
    let mut net = TestNet::new();
    net.para_2k.set_asset_balance(0, &bob(), u128::MAX);
    assert_eq!(transfer_300(&mut net), Err(DispatchError::Overflow));
    assert_eq!(net.para_3k.asset_balance(0, &alice()), 2000 * UNITS);
    assert_eq!(net.para_2k.asset_balance(0, &bob()), u128::MAX);
}

#[test]
fn set_asset_balance_updates_or_adds() {
    let mut net = TestNet::new();
    net.para_3k.set_asset_balance(0, &alice(), 5);
    net.para_3k.set_asset_balance(0, &bob(), 7);
    assert_eq!(net.para_3k.asset_balance(0, &alice()), 5);
    assert_eq!(net.para_3k.asset_balance(0, &bob()), 7);
    assert_eq!(net.para_3k.holdings.len(), 2);
    assert_eq!(net.para_3k.holdings[1], AssetAccount { id: 0, who: bob(), balance: 7 });
}
