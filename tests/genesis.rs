use xcm_testnet::account::{alice, bob, charlie, dave, sovereign_account, BOB_INITIAL_BALANCE, UNITS};
use xcm_testnet::chain::{AssetAccount, AssetDef, AssetMetadata};
use xcm_testnet::config::{default_parachains_host_configuration, MAX_CODE_SIZE, MAX_POV_SIZE};
use xcm_testnet::genesis::{build_chain, para_2k_ext, para_3k_ext, rococo_ext, GenesisError, GenesisSpec};

#[test]
fn well_known_accounts() {
    assert_eq!(alice(), [4u8; 32]);
    assert_eq!(bob(), [5u8; 32]);
    assert_eq!(charlie(), [6u8; 32]);
    assert_eq!(dave(), [7u8; 32]);
}

#[test]
fn sovereign_account_of_2000() {
    let mut expected = [0u8; 32];
    expected[..8].copy_from_slice(&[b'p', b'a', b'r', b'a', 0xd0, 0x07, 0, 0]);
    assert_eq!(sovereign_account(2000), expected);
    assert_ne!(sovereign_account(2000), sovereign_account(3000));
}

#[test]
fn relay_genesis() {
    let relay = rococo_ext();
    assert_eq!(relay.free_balance(&alice()), 2002 * UNITS);
    assert_eq!(relay.free_balance(&sovereign_account(2000)), 10 * UNITS);
    assert_eq!(relay.free_balance(&bob()), 0);
    assert_eq!(relay.block_number, 1);
    assert!(relay.events.is_empty());
    assert_eq!(relay.safe_xcm_version, Some(2));
    assert_eq!(relay.parachain_id, None);
    assert_eq!(relay.host_config, Some(default_parachains_host_configuration()));
}

#[test]
fn host_configuration_values() {
    let c = default_parachains_host_configuration();
    assert_eq!(c.validation_upgrade_delay, 5);
    assert_eq!(c.code_retention_period, 1200);
    assert_eq!(c.max_code_size, MAX_CODE_SIZE);
    assert_eq!(c.max_pov_size, MAX_POV_SIZE);
    assert_eq!(c.max_head_data_size, 32 * 1024);
    assert_eq!(c.max_upward_queue_count, 8);
    assert_eq!(c.max_upward_queue_size, 1024 * 1024);
    assert_eq!(c.ump_service_total_weight, 4_000_000_000);
    assert_eq!(c.max_upward_message_size, 50 * 1024);
    assert_eq!(c.hrmp_channel_max_total_size, 8 * 1024);
    assert_eq!(c.hrmp_channel_max_message_size, 1024 * 1024);
    assert_eq!(c.n_delay_tranches, 25);
    assert_eq!(c.zeroth_delay_tranche_width, 0);
}

#[test]
fn para_genesis() {
    let para2 = para_2k_ext();
    assert_eq!(para2.parachain_id, Some(2000));
    assert_eq!(para2.free_balance(&alice()), 200 * UNITS);
    assert_eq!(para2.free_balance(&bob()), BOB_INITIAL_BALANCE);
    assert_eq!(para2.free_balance(&charlie()), 1000 * UNITS);
    assert_eq!(para2.free_balance(&dave()), 1000 * UNITS);
    assert_eq!(para2.asset_balance(0, &alice()), 10 * UNITS);
    assert!(para2.has_asset(0));
    assert!(!para2.has_asset(1));
    assert_eq!(para2.metadata[0].symbol, b"TEST".to_vec());
    assert_eq!(para2.metadata[0].name, b"TestCoin".to_vec());
    assert_eq!(para2.safe_xcm_version, Some(2));

    let para3 = para_3k_ext();
    assert_eq!(para3.parachain_id, Some(3000));
    assert_eq!(para3.free_balance(&alice()), 200 * UNITS);
    assert_eq!(para3.asset_balance(0, &alice()), 2000 * UNITS);
    assert_eq!(para3.assets[0], AssetDef { id: 0, admin: alice(), is_sufficient: true, min_balance: UNITS });
    assert_eq!(para3.block_number, 1);
}

fn spec(assets: Vec<AssetDef>, metadata: Vec<AssetMetadata>, accounts: Vec<AssetAccount>) -> GenesisSpec {
    GenesisSpec {
        balances: vec![(alice(), UNITS)],
        assets,
        metadata,
        accounts,
        parachain_id: Some(7),
        safe_xcm_version: Some(2),
        host_config: None,
    }
}

fn asset(id: u32, min_balance: u128) -> AssetDef {
    AssetDef { id, admin: alice(), is_sufficient: true, min_balance }
}

#[test]
fn build_chain_accepts_consistent_genesis() {
    let c = build_chain(spec(
        vec![asset(0, 1), asset(1, 1)],
        vec![AssetMetadata { id: 1, symbol: vec![], name: vec![], decimals: 0 }],
        vec![AssetAccount { id: 1, who: bob(), balance: 9 }],
    ))
    .ok()
    .unwrap();
    assert_eq!(c.asset_balance(1, &bob()), 9);
    assert_eq!(c.free_balance(&alice()), UNITS);
    assert_eq!(c.parachain_id, Some(7));
    assert_eq!(c.block_number, 1);
}

#[test]
fn build_chain_refuses_unknown_asset_funding() {
    let r = build_chain(spec(vec![asset(0, 1)], vec![], vec![AssetAccount { id: 3, who: bob(), balance: 9 }]));
    assert_eq!(r.err(), Some(GenesisError::GenesisMalformed));
}

#[test]
fn build_chain_refuses_unknown_asset_metadata() {
    let r = build_chain(spec(
        vec![asset(0, 1)],
        vec![AssetMetadata { id: 2, symbol: vec![], name: vec![], decimals: 0 }],
        vec![],
    ));
    assert_eq!(r.err(), Some(GenesisError::GenesisMalformed));
}

#[test]
fn build_chain_refuses_duplicate_or_zero_min_assets() {
    assert_eq!(build_chain(spec(vec![asset(0, 1), asset(0, 2)], vec![], vec![])).err(), Some(GenesisError::GenesisMalformed));
    assert_eq!(build_chain(spec(vec![asset(0, 0)], vec![], vec![])).err(), Some(GenesisError::GenesisMalformed));
}
