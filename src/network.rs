//! The test network: one relay chain and two parachains, with reset to
//! genesis and reserve-backed asset transfers between the parachains.
use vstd::prelude::*;

use crate::account::AccountId;
use crate::chain::{balance_of, registered, total_of, ChainState, DispatchError, Event};
use crate::location::{Junction, MultiAsset, MultiLocation};
use crate::genesis::{
    is_para_2k_genesis, is_para_3k_genesis, is_relay_genesis, para_2k_ext, para_3k_ext,
    rococo_ext,
};

verus! {

/// The id of the first parachain.
pub const PARA_2K: u32 = 2000;

/// The id of the second parachain.
pub const PARA_3K: u32 = 3000;

/// The pallet-instance byte under which each parachain publishes its
/// assets pallet.
pub const ASSETS_PALLET_INDEX: u8 = 50;

/// The most execution weight that a transfer may buy on the destination.
#[derive(Clone, Copy, Debug, PartialEq, Eq)]
pub enum WeightLimit {
    Unlimited,
    Limited(u64),
}

/// The sibling parachain that a destination names: `(1, [Parachain(id)])`.
pub open spec fn dest_para(l: MultiLocation) -> Option<u32> {
    if l.parents == 1 && l.interior@.len() == 1 {
        match l.interior@[0] {
            Junction::Parachain(id) => Some(id),
            _ => None,
        }
    } else {
        None
    }
}

/// The local account that a beneficiary names: `(0, [AccountId32 { id, .. }])`.
pub open spec fn beneficiary_account(l: MultiLocation) -> Option<AccountId> {
    if l.parents == 0 && l.interior@.len() == 1 {
        match l.interior@[0] {
            Junction::AccountId32 { network: _, id } => Some(id),
            _ => None,
        }
    } else {
        None
    }
}

/// The asset of the local assets pallet that a location names:
/// `(0, [PalletInstance(ASSETS_PALLET_INDEX), GeneralIndex(id)])`.
pub open spec fn local_asset(l: MultiLocation) -> Option<u32> {
    if l.parents == 0 && l.interior@.len() == 2 {
        match (l.interior@[0], l.interior@[1]) {
            (Junction::PalletInstance(p), Junction::GeneralIndex(i)) => if p == ASSETS_PALLET_INDEX
                && i <= u32::MAX {
                Some(i as u32)
            } else {
                None
            },
            _ => None,
        }
    } else {
        None
    }
}

/// The asset and amount that a transfer's asset list and fee item name:
/// exactly one asset of the local assets pallet, which also pays the fee.
pub open spec fn single_local_asset(assets: Seq<MultiAsset>, fee_asset_item: u32) -> Option<
    (u32, u128),
> {
    if assets.len() == 1 && fee_asset_item == 0 {
        match local_asset(assets[0].id) {
            Some(id) => Some((id, assets[0].amount)),
            None => None,
        }
    } else {
        None
    }
}

/// A relay chain bound to the parachains 2000 and 3000.
pub struct TestNet {
    pub relay: ChainState,
    pub para_2k: ChainState,
    pub para_3k: ChainState,
}

/// Whether every chain of `net` is in its genesis state.
pub open spec fn is_genesis(net: TestNet) -> bool {
    &&& is_relay_genesis(net.relay)
    &&& is_para_2k_genesis(net.para_2k)
    &&& is_para_3k_genesis(net.para_3k)
}

/// The outcome that a reserve transfer of `amount` of asset `asset` from
/// `from` on chain `src` to `beneficiary` on chain `dest` has.
pub open spec fn move_outcome(
    src: ChainState,
    dest: ChainState,
    asset: u32,
    from: Seq<u8>,
    beneficiary: Seq<u8>,
    amount: u128,
) -> Result<(), DispatchError> {
    if !registered(src.assets@, asset) {
        Err(DispatchError::UnknownAsset)
    } else if balance_of(src.holdings@, asset, from) < amount {
        Err(DispatchError::BalanceLow)
    } else if !registered(dest.assets@, asset) {
        Err(DispatchError::UnknownAsset)
    } else if balance_of(dest.holdings@, asset, beneficiary) + amount > u128::MAX {
        Err(DispatchError::Overflow)
    } else {
        Ok(())
    }
}

/// `after` is `before` with the balance of `who` in asset `asset` changed
/// by `delta`, and nothing else changed but the events.
pub open spec fn ledger_changed(
    before: ChainState,
    after: ChainState,
    asset: u32,
    who: Seq<u8>,
    delta: int,
) -> bool {
    &&& forall|k: u32, w: Seq<u8>|
        #[trigger] balance_of(after.holdings@, k, w) == balance_of(before.holdings@, k, w) + if k
            == asset && w == who {
            delta
        } else {
            0
        }
    &&& forall|k: u32|
        #[trigger] total_of(after.holdings@, k) == total_of(before.holdings@, k) + if k == asset {
            delta
        } else {
            0
        }
    &&& after.native == before.native
    &&& after.assets == before.assets
    &&& after.metadata == before.metadata
    &&& after.parachain_id == before.parachain_id
    &&& after.safe_xcm_version == before.safe_xcm_version
    &&& after.host_config == before.host_config
    &&& after.block_number == before.block_number
}

/// What a reserve transfer from chain `src_id` to chain `dest_id` does to
/// the two chains: on success the sender is debited and the beneficiary
/// credited, each chain recording one event; on failure nothing changes.
pub open spec fn moved(
    src_before: ChainState,
    dest_before: ChainState,
    src_after: ChainState,
    dest_after: ChainState,
    src_id: u32,
    dest_id: u32,
    asset: u32,
    from: AccountId,
    beneficiary: AccountId,
    amount: u128,
    r: Result<(), DispatchError>,
) -> bool {
    &&& r == move_outcome(src_before, dest_before, asset, from@, beneficiary@, amount)
    &&& r is Ok ==> {
        &&& ledger_changed(src_before, src_after, asset, from@, -amount)
        &&& ledger_changed(dest_before, dest_after, asset, beneficiary@, amount as int)
        &&& src_after.events@ == src_before.events@.push(
            Event::ReserveTransferred { asset, from, dest: dest_id, beneficiary, amount },
        )
        &&& dest_after.events@ == dest_before.events@.push(
            Event::Deposited { asset, origin: src_id, owner: beneficiary, amount },
        )
    }
    &&& r is Err ==> src_after == src_before && dest_after == dest_before
}

/// What `TestNet::reserve_transfer` does to the network.
pub open spec fn reserve_transfer_post(
    before: TestNet,
    after: TestNet,
    src: u32,
    asset: u32,
    from: AccountId,
    dest: u32,
    beneficiary: AccountId,
    amount: u128,
    r: Result<(), DispatchError>,
) -> bool {
    &&& after.relay == before.relay
    &&& src == PARA_3K && dest == PARA_2K ==> moved(
        before.para_3k,
        before.para_2k,
        after.para_3k,
        after.para_2k,
        src,
        dest,
        asset,
        from,
        beneficiary,
        amount,
        r,
    )
    &&& src == PARA_2K && dest == PARA_3K ==> moved(
        before.para_2k,
        before.para_3k,
        after.para_2k,
        after.para_3k,
        src,
        dest,
        asset,
        from,
        beneficiary,
        amount,
        r,
    )
    &&& src != PARA_2K && src != PARA_3K ==> r == Err::<(), DispatchError>(
        DispatchError::UnknownSource,
    ) && after == before
    &&& (src == PARA_2K || src == PARA_3K) && (dest == src || (dest != PARA_2K && dest
        != PARA_3K)) ==> r == Err::<(), DispatchError>(DispatchError::UnknownDestination) && after
        == before
}

/// Moves `amount` of asset `asset` from `from` on `src` to `beneficiary` on
/// `dest`, or changes nothing and says why not.
fn move_asset(
    src: &mut ChainState,
    dest: &mut ChainState,
    src_id: u32,
    dest_id: u32,
    asset: u32,
    from: &AccountId,
    beneficiary: &AccountId,
    amount: u128,
) -> (r: Result<(), DispatchError>)
    ensures
        moved(
            *old(src),
            *old(dest),
            *final(src),
            *final(dest),
            src_id,
            dest_id,
            asset,
            *from,
            *beneficiary,
            amount,
            r,
        ),
{
    if !src.has_asset(asset) {
        return Err(DispatchError::UnknownAsset);
    }
    let held = src.asset_balance(asset, from);
    if held < amount {
        return Err(DispatchError::BalanceLow);
    }
    if !dest.has_asset(asset) {
        return Err(DispatchError::UnknownAsset);
    }
    let owned = dest.asset_balance(asset, beneficiary);
    if owned > u128::MAX - amount {
        return Err(DispatchError::Overflow);
    }
    src.set_asset_balance(asset, from, held - amount);
    src.events.push(
        Event::ReserveTransferred {
            asset,
            from: *from,
            dest: dest_id,
            beneficiary: *beneficiary,
            amount,
        },
    );
    dest.set_asset_balance(asset, beneficiary, owned + amount);
    dest.events.push(Event::Deposited { asset, origin: src_id, owner: *beneficiary, amount });
    Ok(())
}

fn parse_dest(l: &MultiLocation) -> (r: Option<u32>)
    ensures
        r == dest_para(*l),
{
    if l.parents == 1 && l.interior.len() == 1 {
        match l.interior[0] {
            Junction::Parachain(id) => Some(id),
            _ => None,
        }
    } else {
        None
    }
}

fn parse_beneficiary(l: &MultiLocation) -> (r: Option<AccountId>)
    ensures
        r == beneficiary_account(*l),
{
    if l.parents == 0 && l.interior.len() == 1 {
        match l.interior[0] {
            Junction::AccountId32 { network: _, id } => Some(id),
            _ => None,
        }
    } else {
        None
    }
}

fn parse_assets(assets: &Vec<MultiAsset>, fee_asset_item: u32) -> (r: Option<(u32, u128)>)
    ensures
        r == single_local_asset(assets@, fee_asset_item),
{
    if assets.len() != 1 || fee_asset_item != 0 {
        return None;
    }
    let l = &assets[0].id;
    if l.parents == 0 && l.interior.len() == 2 {
        match (l.interior[0], l.interior[1]) {
            (Junction::PalletInstance(p), Junction::GeneralIndex(i)) => if p == ASSETS_PALLET_INDEX
                && i <= u32::MAX as u128 {
                Some((i as u32, assets[0].amount))
            } else {
                None
            },
            _ => None,
        }
    } else {
        None
    }
}

impl TestNet {
    /// Builds the network with every chain in its genesis state.
    pub fn new() -> (r: TestNet)
        ensures
            is_genesis(r),
    {
        TestNet { relay: rococo_ext(), para_2k: para_2k_ext(), para_3k: para_3k_ext() }
    }

    /// Returns every chain to its genesis state.
    pub fn reset(&mut self)
        ensures
            is_genesis(*final(self)),
    {
        *self = TestNet::new();
    }

    /// The parachain with id `id`, if the network has one.
    pub fn para(&self, id: u32) -> (r: Option<&ChainState>)
        ensures
            id == PARA_2K ==> r == Some(&self.para_2k),
            id == PARA_3K ==> r == Some(&self.para_3k),
            id != PARA_2K && id != PARA_3K ==> r is None,
    {
        if id == PARA_2K {
            Some(&self.para_2k)
        } else if id == PARA_3K {
            Some(&self.para_3k)
        } else {
            None
        }
    }

    /// Dispatches, on parachain `src`, a reserve transfer of `amount` of
    /// asset `asset` from `from` to `beneficiary` on parachain `dest`, and
    /// delivers it. A rejected transfer changes nothing.
    pub fn reserve_transfer(
        &mut self,
        src: u32,
        asset: u32,
        from: &AccountId,
        dest: u32,
        beneficiary: &AccountId,
        amount: u128,
    ) -> (r: Result<(), DispatchError>)
        ensures
            reserve_transfer_post(
                *old(self),
                *final(self),
                src,
                asset,
                *from,
                dest,
                *beneficiary,
                amount,
                r,
            ),
    {
        if src != PARA_2K && src != PARA_3K {
            return Err(DispatchError::UnknownSource);
        }
        if src == PARA_3K && dest == PARA_2K {
            move_asset(
                &mut self.para_3k,
                &mut self.para_2k,
                src,
                dest,
                asset,
                from,
                beneficiary,
                amount,
            )
        } else if src == PARA_2K && dest == PARA_3K {
            move_asset(
                &mut self.para_2k,
                &mut self.para_3k,
                src,
                dest,
                asset,
                from,
                beneficiary,
                amount,
            )
        } else {
            Err(DispatchError::UnknownDestination)
        }
    }

    /// Dispatches, on parachain `src` and signed by `origin`, a limited
    /// reserve transfer of `assets` to `beneficiary` on `dest`, and delivers
    /// it. The destination must be a sibling parachain, the beneficiary a
    /// local account there, and the assets exactly one asset of the local
    /// assets pallet, which pays the fee. The weight limit is a budget that
    /// every transfer of this network stays within.
    pub fn limited_reserve_transfer_assets(
        &mut self,
        src: u32,
        origin: &AccountId,
        dest: &MultiLocation,
        beneficiary: &MultiLocation,
        assets: &Vec<MultiAsset>,
        fee_asset_item: u32,
        weight_limit: WeightLimit,
    ) -> (r: Result<(), DispatchError>)
        ensures
            single_local_asset(assets@, fee_asset_item) is None ==> r == Err::<(), DispatchError>(
                DispatchError::BadAssets,
            ) && *final(self) == *old(self),
            single_local_asset(assets@, fee_asset_item) is Some && beneficiary_account(*beneficiary)
                is None ==> r == Err::<(), DispatchError>(DispatchError::BadBeneficiary) && *final(
                self) == *old(self),
            single_local_asset(assets@, fee_asset_item) is Some && beneficiary_account(*beneficiary)
                is Some && dest_para(*dest) is None ==> r == Err::<(), DispatchError>(
                DispatchError::UnknownDestination,
            ) && *final(self) == *old(self),
            single_local_asset(assets@, fee_asset_item) is Some && beneficiary_account(*beneficiary)
                is Some && dest_para(*dest) is Some ==> reserve_transfer_post(
                *old(self),
                *final(self),
                src,
                single_local_asset(assets@, fee_asset_item)->Some_0.0,
                *origin,
                dest_para(*dest)->Some_0,
                beneficiary_account(*beneficiary)->Some_0,
                single_local_asset(assets@, fee_asset_item)->Some_0.1,
                r,
            ),
    {
        let (asset, amount) = match parse_assets(assets, fee_asset_item) {
            Some(p) => p,
            None => return Err(DispatchError::BadAssets),
        };
        let who = match parse_beneficiary(beneficiary) {
            Some(w) => w,
            None => return Err(DispatchError::BadBeneficiary),
        };
        let id = match parse_dest(dest) {
            Some(i) => i,
            None => return Err(DispatchError::UnknownDestination),
        };
        self.reserve_transfer(src, asset, origin, id, &who, amount)
    }
}

} // verus!
