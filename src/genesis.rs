//! Genesis construction: a declarative description of a chain's initial
//! state, its validation, and the three chains of the test network.
use vstd::prelude::*;

use crate::account::{
    alice, bob, charlie, dave, filled, sovereign_account, sovereign_account_spec, AccountId,
    ALICE_BYTE, BOB_BYTE, BOB_INITIAL_BALANCE, CHARLIE_BYTE, DAVE_BYTE, UNITS,
};
use crate::chain::{registered, AssetAccount, AssetDef, AssetMetadata, ChainState};
use crate::config::{default_host_config, default_parachains_host_configuration, HostConfig};

verus! {

/// The declarative description of a chain's initial state.
pub struct GenesisSpec {
    pub balances: Vec<(AccountId, u128)>,
    pub assets: Vec<AssetDef>,
    pub metadata: Vec<AssetMetadata>,
    pub accounts: Vec<AssetAccount>,
    pub parachain_id: Option<u32>,
    pub safe_xcm_version: Option<u32>,
    pub host_config: Option<HostConfig>,
}

/// Why a genesis description was refused.
#[derive(Clone, Copy, Debug, PartialEq, Eq)]
pub enum GenesisError {
    /// The description is inconsistent: an asset id is declared twice, an
    /// asset has a zero minimum balance, or metadata or a pre-funded balance
    /// names an asset that is not declared.
    GenesisMalformed,
}

/// Whether a genesis description is consistent.
pub open spec fn genesis_wf(
    assets: Seq<AssetDef>,
    metadata: Seq<AssetMetadata>,
    accounts: Seq<AssetAccount>,
) -> bool {
    &&& forall|i: int, j: int|
        0 <= i < j < assets.len() ==> #[trigger] assets[i].id != #[trigger] assets[j].id
    &&& forall|i: int| 0 <= i < assets.len() ==> #[trigger] assets[i].min_balance > 0
    &&& forall|i: int| 0 <= i < metadata.len() ==> registered(assets, #[trigger] metadata[i].id)
    &&& forall|i: int| 0 <= i < accounts.len() ==> registered(assets, #[trigger] accounts[i].id)
}

/// Whether asset `id` is declared in `assets`.
pub fn asset_registered(assets: &Vec<AssetDef>, id: u32) -> (r: bool)
    ensures
        r == registered(assets@, id),
{
    let mut i: usize = 0;
    while i < assets.len()
        invariant
            0 <= i <= assets@.len(),
            forall|j: int| 0 <= j < i ==> #[trigger] assets@[j].id != id,
        decreases assets@.len() - i,
    {
        if assets[i].id == id {
            return true;
        }
        i = i + 1;
    }
    false
}

/// Checks a genesis description for consistency.
pub fn check_genesis(
    assets: &Vec<AssetDef>,
    metadata: &Vec<AssetMetadata>,
    accounts: &Vec<AssetAccount>,
) -> (r: bool)
    ensures
        r == genesis_wf(assets@, metadata@, accounts@),
{
    let mut i: usize = 0;
    while i < assets.len()
        invariant
            0 <= i <= assets@.len(),
            forall|a: int, b: int|
                0 <= a < b < assets@.len() && a < i ==> #[trigger] assets@[a].id
                    != #[trigger] assets@[b].id,
            forall|a: int| 0 <= a < i ==> #[trigger] assets@[a].min_balance > 0,
        decreases assets@.len() - i,
    {
        if assets[i].min_balance == 0 {
            return false;
        }
        let mut j: usize = i + 1;
        while j < assets.len()
            invariant
                i < assets@.len(),
                i + 1 <= j <= assets@.len(),
                forall|b: int| i < b < j ==> assets@[i as int].id != #[trigger] assets@[b].id,
            decreases assets@.len() - j,
        {
            if assets[i].id == assets[j].id {
                return false;
            }
            j = j + 1;
        }
        i = i + 1;
    }
    let mut m: usize = 0;
    while m < metadata.len()
        invariant
            0 <= m <= metadata@.len(),
            forall|a: int| 0 <= a < m ==> registered(assets@, #[trigger] metadata@[a].id),
        decreases metadata@.len() - m,
    {
        if !asset_registered(assets, metadata[m].id) {
            return false;
        }
        m = m + 1;
    }
    let mut k: usize = 0;
    while k < accounts.len()
        invariant
            0 <= k <= accounts@.len(),
            forall|a: int| 0 <= a < k ==> registered(assets@, #[trigger] accounts@[a].id),
        decreases accounts@.len() - k,
    {
        if !asset_registered(assets, accounts[k].id) {
            return false;
        }
        k = k + 1;
    }
    true
}

/// Whether `c` is the chain state that `spec` describes, at block 1 with no
/// events.
pub open spec fn built_from(c: ChainState, spec: GenesisSpec) -> bool {
    &&& c.native@ == spec.balances@
    &&& c.assets@ == spec.assets@
    &&& c.metadata@ == spec.metadata@
    &&& c.holdings@ == spec.accounts@
    &&& c.parachain_id == spec.parachain_id
    &&& c.safe_xcm_version == spec.safe_xcm_version
    &&& c.host_config == spec.host_config
    &&& c.block_number == 1
    &&& c.events@.len() == 0
}

/// Builds a chain state from its genesis description, at block 1 with no
/// events, or refuses an inconsistent description.
pub fn build_chain(spec: GenesisSpec) -> (r: Result<ChainState, GenesisError>)
    ensures
        genesis_wf(spec.assets@, spec.metadata@, spec.accounts@) <==> r is Ok,
        r is Ok ==> built_from(r->Ok_0, spec),
        r is Err ==> r->Err_0 == GenesisError::GenesisMalformed,
{
    if !check_genesis(&spec.assets, &spec.metadata, &spec.accounts) {
        return Err(GenesisError::GenesisMalformed);
    }
    Ok(
        ChainState {
            native: spec.balances,
            assets: spec.assets,
            metadata: spec.metadata,
            holdings: spec.accounts,
            parachain_id: spec.parachain_id,
            safe_xcm_version: spec.safe_xcm_version,
            host_config: spec.host_config,
            block_number: 1,
            events: Vec::new(),
        },
    )
}

/// The symbol of the test asset, "TEST".
pub open spec fn test_symbol() -> Seq<u8> {
    seq![84u8, 69u8, 83u8, 84u8]
}

/// The name of the test asset, "TestCoin".
pub open spec fn test_name() -> Seq<u8> {
    seq![84u8, 101u8, 115u8, 116u8, 67u8, 111u8, 105u8, 110u8]
}

/// The safe XCM version that every chain of the network starts with.
pub const SAFE_XCM_VERSION: u32 = 2;

/// The asset that both parachains register.
pub const TEST_ASSET: u32 = 0;

/// Whether `c` holds the registry that both parachains start with: asset 0,
/// administered by Alice, sufficient, with a minimum balance of one unit and
/// the metadata ("TEST", "TestCoin", 3).
pub open spec fn has_test_asset_registry(c: ChainState) -> bool {
    &&& c.assets@.len() == 1
    &&& c.assets@[0].id == TEST_ASSET
    &&& c.assets@[0].admin@ == filled(ALICE_BYTE)
    &&& c.assets@[0].is_sufficient
    &&& c.assets@[0].min_balance == UNITS
    &&& c.metadata@.len() == 1
    &&& c.metadata@[0].id == TEST_ASSET
    &&& c.metadata@[0].symbol@ == test_symbol()
    &&& c.metadata@[0].name@ == test_name()
    &&& c.metadata@[0].decimals == 3
}

/// The relay chain's genesis state.
pub open spec fn is_relay_genesis(c: ChainState) -> bool {
    &&& c.native@.len() == 2
    &&& c.native@[0].0@ == filled(ALICE_BYTE)
    &&& c.native@[0].1 == 2002 * UNITS
    &&& c.native@[1].0@ == sovereign_account_spec(2000)
    &&& c.native@[1].1 == 10 * UNITS
    &&& c.assets@.len() == 0
    &&& c.metadata@.len() == 0
    &&& c.holdings@.len() == 0
    &&& c.parachain_id == None::<u32>
    &&& c.safe_xcm_version == Some(SAFE_XCM_VERSION)
    &&& c.host_config == Some(default_host_config())
    &&& c.block_number == 1
    &&& c.events@.len() == 0
}

/// Parachain 3000's genesis state.
pub open spec fn is_para_3k_genesis(c: ChainState) -> bool {
    &&& c.native@.len() == 1
    &&& c.native@[0].0@ == filled(ALICE_BYTE)
    &&& c.native@[0].1 == 200 * UNITS
    &&& has_test_asset_registry(c)
    &&& c.holdings@.len() == 1
    &&& c.holdings@[0].id == TEST_ASSET
    &&& c.holdings@[0].who@ == filled(ALICE_BYTE)
    &&& c.holdings@[0].balance == 2000 * UNITS
    &&& c.parachain_id == Some(3000u32)
    &&& c.safe_xcm_version == Some(SAFE_XCM_VERSION)
    &&& c.host_config == None::<HostConfig>
    &&& c.block_number == 1
    &&& c.events@.len() == 0
}

/// Parachain 2000's genesis state.
pub open spec fn is_para_2k_genesis(c: ChainState) -> bool {
    &&& c.native@.len() == 4
    &&& c.native@[0].0@ == filled(ALICE_BYTE)
    &&& c.native@[0].1 == 200 * UNITS
    &&& c.native@[1].0@ == filled(BOB_BYTE)
    &&& c.native@[1].1 == BOB_INITIAL_BALANCE
    &&& c.native@[2].0@ == filled(CHARLIE_BYTE)
    &&& c.native@[2].1 == 1000 * UNITS
    &&& c.native@[3].0@ == filled(DAVE_BYTE)
    &&& c.native@[3].1 == 1000 * UNITS
    &&& has_test_asset_registry(c)
    &&& c.holdings@.len() == 1
    &&& c.holdings@[0].id == TEST_ASSET
    &&& c.holdings@[0].who@ == filled(ALICE_BYTE)
    &&& c.holdings@[0].balance == 10 * UNITS
    &&& c.parachain_id == Some(2000u32)
    &&& c.safe_xcm_version == Some(SAFE_XCM_VERSION)
    &&& c.host_config == None::<HostConfig>
    &&& c.block_number == 1
    &&& c.events@.len() == 0
}

/// The test asset's registry entry and metadata.
fn test_asset_registry() -> (r: (Vec<AssetDef>, Vec<AssetMetadata>))
    ensures
        r.0@.len() == 1,
        r.0@[0].id == TEST_ASSET,
        r.0@[0].admin@ == filled(ALICE_BYTE),
        r.0@[0].is_sufficient,
        r.0@[0].min_balance == UNITS,
        r.1@.len() == 1,
        r.1@[0].id == TEST_ASSET,
        r.1@[0].symbol@ == test_symbol(),
        r.1@[0].name@ == test_name(),
        r.1@[0].decimals == 3,
{
    let assets = vec![AssetDef { id: TEST_ASSET, admin: alice(), is_sufficient: true, min_balance: UNITS }];
    let symbol: Vec<u8> = vec![84u8, 69u8, 83u8, 84u8];
    let name: Vec<u8> = vec![84u8, 101u8, 115u8, 116u8, 67u8, 111u8, 105u8, 110u8];
    assert(symbol@ =~= test_symbol());
    assert(name@ =~= test_name());
    let metadata = vec![AssetMetadata { id: TEST_ASSET, symbol, name, decimals: 3 }];
    (assets, metadata)
}

/// Builds the relay chain's genesis state: Alice holds 2002 units and the
/// sovereign account of parachain 2000 holds 10; the host configuration is
/// the default one and the safe XCM version is 2.
pub fn rococo_ext() -> (r: ChainState)
    ensures
        is_relay_genesis(r),
{
    let spec = GenesisSpec {
        balances: vec![(alice(), 2002 * UNITS), (sovereign_account(2000), 10 * UNITS)],
        assets: Vec::new(),
        metadata: Vec::new(),
        accounts: Vec::new(),
        parachain_id: None,
        safe_xcm_version: Some(SAFE_XCM_VERSION),
        host_config: Some(default_parachains_host_configuration()),
    };
    match build_chain(spec) {
        Ok(c) => c,
        Err(_) => vstd::pervasive::unreached(),
    }
}

/// Builds parachain 3000's genesis state: Alice holds 200 units natively
/// and 2000 units of asset 0.
pub fn para_3k_ext() -> (r: ChainState)
    ensures
        is_para_3k_genesis(r),
{
    let (assets, metadata) = test_asset_registry();
    let spec = GenesisSpec {
        balances: vec![(alice(), 200 * UNITS)],
        assets,
        metadata,
        accounts: vec![AssetAccount { id: TEST_ASSET, who: alice(), balance: 2000 * UNITS }],
        parachain_id: Some(3000),
        safe_xcm_version: Some(SAFE_XCM_VERSION),
        host_config: None,
    };
    assert(registered(spec.assets@, 0));
    match build_chain(spec) {
        Ok(c) => c,
        Err(_) => vstd::pervasive::unreached(),
    }
}

/// Builds parachain 2000's genesis state: Alice holds 200 units natively,
/// Bob, Charlie and Dave 1000 each, and Alice holds 10 units of asset 0.
pub fn para_2k_ext() -> (r: ChainState)
    ensures
        is_para_2k_genesis(r),
{
    let (assets, metadata) = test_asset_registry();
    let spec = GenesisSpec {
        balances: vec![
            (alice(), 200 * UNITS),
            (bob(), BOB_INITIAL_BALANCE),
            (charlie(), 1000 * UNITS),
            (dave(), 1000 * UNITS),
        ],
        assets,
        metadata,
        accounts: vec![AssetAccount { id: TEST_ASSET, who: alice(), balance: 10 * UNITS }],
        parachain_id: Some(2000),
        safe_xcm_version: Some(SAFE_XCM_VERSION),
        host_config: None,
    };
    assert(registered(spec.assets@, 0));
    match build_chain(spec) {
        Ok(c) => c,
        Err(_) => vstd::pervasive::unreached(),
    }
}

} // verus!
