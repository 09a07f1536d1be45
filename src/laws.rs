//! Properties of the test network that hold for every input.
use vstd::prelude::*;

use crate::account::AccountId;
use crate::chain::{
    balance_of, native_of, native_total, registered, total_of, ChainState, DispatchError,
};
use crate::network::{is_genesis, reserve_transfer_post, TestNet};

verus! {

/// Whether every observation of chain `a` gives the same value on chain `b`:
/// balances, totals, registered assets, ids, versions, configuration, block
/// number and events.
pub open spec fn chain_observes_same(a: ChainState, b: ChainState) -> bool {
    &&& forall|w: Seq<u8>| #[trigger] native_of(a.native@, w) == native_of(b.native@, w)
    &&& native_total(a.native@) == native_total(b.native@)
    &&& forall|k: u32, w: Seq<u8>| #[trigger] balance_of(a.holdings@, k, w) == balance_of(b.holdings@, k, w)
    &&& forall|k: u32| #[trigger] total_of(a.holdings@, k) == total_of(b.holdings@, k)
    &&& forall|k: u32| #[trigger] registered(a.assets@, k) == registered(b.assets@, k)
    &&& a.parachain_id == b.parachain_id
    &&& a.safe_xcm_version == b.safe_xcm_version
    &&& a.host_config == b.host_config
    &&& a.block_number == b.block_number
    &&& a.events@ == b.events@
}

/// Whether every observation of network `a` gives the same value on `b`.
pub open spec fn observes_same(a: TestNet, b: TestNet) -> bool {
    &&& chain_observes_same(a.relay, b.relay)
    &&& chain_observes_same(a.para_2k, b.para_2k)
    &&& chain_observes_same(a.para_3k, b.para_3k)
}

/// The sum of all native balances over the relay chain and both parachains,
/// sovereign accounts included.
pub open spec fn network_native_total(net: TestNet) -> int {
    native_total(net.relay.native@) + native_total(net.para_2k.native@) + native_total(
        net.para_3k.native@,
    )
}

/// The sum of all holdings of asset `id` over both parachains.
pub open spec fn network_asset_total(net: TestNet, id: u32) -> int {
    total_of(net.para_2k.holdings@, id) + total_of(net.para_3k.holdings@, id)
}

proof fn lemma_same_chain(a: ChainState, b: ChainState)
    requires
        a.native@ == b.native@,
        a.holdings@ == b.holdings@,
        a.assets@ == b.assets@,
        a.parachain_id == b.parachain_id,
        a.safe_xcm_version == b.safe_xcm_version,
        a.host_config == b.host_config,
        a.block_number == b.block_number,
        a.events@ == b.events@,
    ensures
        chain_observes_same(a, b),
{
}

/// Two networks that were just reset cannot be told apart by any
/// observation.
pub proof fn lemma_reset_determinism(a: TestNet, b: TestNet)
    requires
        is_genesis(a),
        is_genesis(b),
    ensures
        observes_same(a, b),
{
    assert(a.relay.native@[0].0 =~= b.relay.native@[0].0);
    assert(a.relay.native@[1].0 =~= b.relay.native@[1].0);
    assert(a.relay.native@ =~= b.relay.native@);
    assert(a.relay.holdings@ =~= b.relay.holdings@);
    assert(a.relay.assets@ =~= b.relay.assets@);
    assert(a.relay.events@ =~= b.relay.events@);
    lemma_same_chain(a.relay, b.relay);

    assert forall|i: int| 0 <= i < 4 implies a.para_2k.native@[i].0 =~= b.para_2k.native@[i].0 by {}
    assert(a.para_2k.native@ =~= b.para_2k.native@);
    assert(a.para_2k.holdings@[0].who =~= b.para_2k.holdings@[0].who);
    assert(a.para_2k.holdings@ =~= b.para_2k.holdings@);
    assert(a.para_2k.assets@[0].admin =~= b.para_2k.assets@[0].admin);
    assert(a.para_2k.assets@ =~= b.para_2k.assets@);
    assert(a.para_2k.events@ =~= b.para_2k.events@);
    lemma_same_chain(a.para_2k, b.para_2k);

    assert(a.para_3k.native@[0].0 =~= b.para_3k.native@[0].0);
    assert(a.para_3k.native@ =~= b.para_3k.native@);
    assert(a.para_3k.holdings@[0].who =~= b.para_3k.holdings@[0].who);
    assert(a.para_3k.holdings@ =~= b.para_3k.holdings@);
    assert(a.para_3k.assets@[0].admin =~= b.para_3k.assets@[0].admin);
    assert(a.para_3k.assets@ =~= b.para_3k.assets@);
    assert(a.para_3k.events@ =~= b.para_3k.events@);
    lemma_same_chain(a.para_3k, b.para_3k);
}

/// The same reserve transfer, applied to two networks that no observation
/// tells apart, has the same outcome and leaves two networks that no
/// observation tells apart. With `lemma_reset_determinism`, any sequence of
/// transfers after a reset is observed the same way in every run.
pub proof fn lemma_transfer_determinism(
    a: TestNet,
    b: TestNet,
    a2: TestNet,
    b2: TestNet,
    src: u32,
    asset: u32,
    from: AccountId,
    dest: u32,
    beneficiary: AccountId,
    amount: u128,
    ra: Result<(), DispatchError>,
    rb: Result<(), DispatchError>,
)
    requires
        observes_same(a, b),
        reserve_transfer_post(a, a2, src, asset, from, dest, beneficiary, amount, ra),
        reserve_transfer_post(b, b2, src, asset, from, dest, beneficiary, amount, rb),
    ensures
        ra == rb,
        observes_same(a2, b2),
{
}

/// A reserve transfer, whatever its outcome, leaves the sum of all native
/// balances of the network unchanged.
pub proof fn lemma_native_conservation(
    before: TestNet,
    after: TestNet,
    src: u32,
    asset: u32,
    from: AccountId,
    dest: u32,
    beneficiary: AccountId,
    amount: u128,
    r: Result<(), DispatchError>,
)
    requires
        reserve_transfer_post(before, after, src, asset, from, dest, beneficiary, amount, r),
    ensures
        network_native_total(after) == network_native_total(before),
{
}

/// A reserve transfer, whatever its outcome, leaves the sum of all holdings
/// of every asset over both parachains unchanged: nothing is minted, burnt
/// or left in flight.
pub proof fn lemma_asset_conservation(
    before: TestNet,
    after: TestNet,
    src: u32,
    asset: u32,
    from: AccountId,
    dest: u32,
    beneficiary: AccountId,
    amount: u128,
    r: Result<(), DispatchError>,
    id: u32,
)
    requires
        reserve_transfer_post(before, after, src, asset, from, dest, beneficiary, amount, r),
    ensures
        network_asset_total(after, id) == network_asset_total(before, id),
{
}

/// A reserve transfer keeps every chain's parachain id, safe XCM version,
/// host configuration and block number: each parachain still publishes the
/// id under which the network knows it.
pub proof fn lemma_identity_kept(
    before: TestNet,
    after: TestNet,
    src: u32,
    asset: u32,
    from: AccountId,
    dest: u32,
    beneficiary: AccountId,
    amount: u128,
    r: Result<(), DispatchError>,
)
    requires
        reserve_transfer_post(before, after, src, asset, from, dest, beneficiary, amount, r),
    ensures
        after.relay.parachain_id == before.relay.parachain_id,
        after.para_2k.parachain_id == before.para_2k.parachain_id,
        after.para_3k.parachain_id == before.para_3k.parachain_id,
        after.relay.safe_xcm_version == before.relay.safe_xcm_version,
        after.para_2k.safe_xcm_version == before.para_2k.safe_xcm_version,
        after.para_3k.safe_xcm_version == before.para_3k.safe_xcm_version,
        after.relay.host_config == before.relay.host_config,
        after.para_2k.block_number == before.para_2k.block_number,
        after.para_3k.block_number == before.para_3k.block_number,
{
}

} // verus!
