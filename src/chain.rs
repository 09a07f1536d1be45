//! The state of one emulated chain: native balances, an asset registry with
//! per-account asset balances, the block number and the emitted events.
use vstd::prelude::*;

use crate::account::AccountId;
use crate::config::HostConfig;

verus! {

/// An entry of the asset registry.
#[derive(Clone, Copy, Debug, PartialEq, Eq)]
pub struct AssetDef {
    pub id: u32,
    pub admin: AccountId,
    pub is_sufficient: bool,
    pub min_balance: u128,
}

/// Descriptive metadata of a registered asset.
#[derive(Clone, Debug)]
pub struct AssetMetadata {
    pub id: u32,
    pub symbol: Vec<u8>,
    pub name: Vec<u8>,
    pub decimals: u8,
}

/// The balance that one account holds of one asset.
#[derive(Clone, Copy, Debug, PartialEq, Eq)]
pub struct AssetAccount {
    pub id: u32,
    pub who: AccountId,
    pub balance: u128,
}

/// An event that a chain records.
#[derive(Clone, Copy, Debug, PartialEq, Eq)]
pub enum Event {
    /// `amount` of asset `asset` left `from` towards `beneficiary` on
    /// parachain `dest`.
    ReserveTransferred { asset: u32, from: AccountId, dest: u32, beneficiary: AccountId, amount: u128 },
    /// `amount` of asset `asset` arrived for `owner` from parachain `origin`.
    Deposited { asset: u32, origin: u32, owner: AccountId, amount: u128 },
}

/// Why a dispatched call was rejected; a rejected call changes nothing.
#[derive(Clone, Copy, Debug, PartialEq, Eq)]
pub enum DispatchError {
    /// The sending parachain is not part of the network.
    UnknownSource,
    /// The destination is not another parachain of the network.
    UnknownDestination,
    /// The asset is not registered where it must be withdrawn or deposited.
    UnknownAsset,
    /// The assets are not exactly one asset of the local assets pallet that
    /// also pays the fee.
    BadAssets,
    /// The beneficiary is not a local account of the destination.
    BadBeneficiary,
    /// The sender holds less of the asset than the amount.
    BalanceLow,
    /// The beneficiary's balance would exceed the largest representable one.
    Overflow,
}

/// The state of one chain.
pub struct ChainState {
    pub native: Vec<(AccountId, u128)>,
    pub assets: Vec<AssetDef>,
    pub metadata: Vec<AssetMetadata>,
    pub holdings: Vec<AssetAccount>,
    pub parachain_id: Option<u32>,
    pub safe_xcm_version: Option<u32>,
    pub host_config: Option<HostConfig>,
    pub block_number: u32,
    pub events: Vec<Event>,
}

/// Native balance of `who`: the first entry for it, or zero.
pub open spec fn native_of(s: Seq<(AccountId, u128)>, who: Seq<u8>) -> u128
    decreases s.len(),
{
    if s.len() == 0 {
        0
    } else if s[0].0@ == who {
        s[0].1
    } else {
        native_of(s.skip(1), who)
    }
}

/// Balance of `who` in asset `id`: the first entry for the pair, or zero.
pub open spec fn balance_of(s: Seq<AssetAccount>, id: u32, who: Seq<u8>) -> u128
    decreases s.len(),
{
    if s.len() == 0 {
        0
    } else if s[0].id == id && s[0].who@ == who {
        s[0].balance
    } else {
        balance_of(s.skip(1), id, who)
    }
}

/// What one entry adds to the total of asset `id`.
pub open spec fn share(e: AssetAccount, id: u32) -> int {
    if e.id == id {
        e.balance as int
    } else {
        0
    }
}

/// The sum of all holdings of asset `id`.
pub open spec fn total_of(s: Seq<AssetAccount>, id: u32) -> int
    decreases s.len(),
{
    if s.len() == 0 {
        0
    } else {
        total_of(s.drop_last(), id) + share(s.last(), id)
    }
}

/// The sum of all native balances.
pub open spec fn native_total(s: Seq<(AccountId, u128)>) -> int
    decreases s.len(),
{
    if s.len() == 0 {
        0
    } else {
        native_total(s.drop_last()) + s.last().1 as int
    }
}

/// Whether asset `id` is registered.
pub open spec fn registered(assets: Seq<AssetDef>, id: u32) -> bool {
    exists|i: int| 0 <= i < assets.len() && #[trigger] assets[i].id == id
}

proof fn lemma_balance_update(s: Seq<AssetAccount>, i: int, e: AssetAccount, id: u32, who: Seq<u8>)
    requires
        0 <= i < s.len(),
        s[i].id == e.id,
        s[i].who@ == e.who@,
        forall|j: int| 0 <= j < i ==> !(s[j].id == e.id && s[j].who@ == e.who@),
    ensures
        balance_of(s.update(i, e), id, who) == if id == e.id && who == e.who@ {
            e.balance
        } else {
            balance_of(s, id, who)
        },
    decreases i,
{
    if i > 0 {
        lemma_balance_update(s.skip(1), i - 1, e, id, who);
        assert(s.update(i, e).skip(1) =~= s.skip(1).update(i - 1, e));
        assert(!(s[0].id == e.id && s[0].who@ == e.who@));
    } else {
        assert(s.update(i, e).skip(1) =~= s.skip(1));
    }
}

proof fn lemma_balance_push(s: Seq<AssetAccount>, e: AssetAccount, id: u32, who: Seq<u8>)
    requires
        forall|j: int| 0 <= j < s.len() ==> !(s[j].id == e.id && s[j].who@ == e.who@),
    ensures
        balance_of(s.push(e), id, who) == if id == e.id && who == e.who@ {
            e.balance
        } else {
            balance_of(s, id, who)
        },
        balance_of(s, e.id, e.who@) == 0,
    decreases s.len(),
{
    if s.len() > 0 {
        lemma_balance_push(s.skip(1), e, id, who);
        assert(s.push(e).skip(1) =~= s.skip(1).push(e));
    } else {
        assert(s.push(e).skip(1) =~= s);
    }
}

proof fn lemma_total_update(s: Seq<AssetAccount>, i: int, e: AssetAccount, id: u32)
    requires
        0 <= i < s.len(),
    ensures
        total_of(s.update(i, e), id) == total_of(s, id) - share(s[i], id) + share(e, id),
    decreases s.len(),
{
    if i < s.len() - 1 {
        lemma_total_update(s.drop_last(), i, e, id);
        assert(s.update(i, e).drop_last() =~= s.drop_last().update(i, e));
    } else {
        assert(s.update(i, e).drop_last() =~= s.drop_last());
    }
}

/// Whether two accounts are the same.
pub fn same_account(a: &AccountId, b: &AccountId) -> (r: bool)
    ensures
        r == (a@ == b@),
        r == (a == b),
{
    let mut i: usize = 0;
    while i < 32
        invariant
            0 <= i <= 32,
            a@.len() == 32,
            b@.len() == 32,
            forall|j: int| 0 <= j < i ==> a@[j] == b@[j],
        decreases 32 - i,
    {
        if a[i] != b[i] {
            return false;
        }
        i = i + 1;
    }
    assert(a@ =~= b@);
    assert(*a =~= *b);
    true
}

impl ChainState {
    /// The native balance of `who`.
    pub fn free_balance(&self, who: &AccountId) -> (r: u128)
        ensures
            r == native_of(self.native@, who@),
    {
        let mut i: usize = 0;
        assert(self.native@.skip(0) =~= self.native@);
        while i < self.native.len()
            invariant
                0 <= i <= self.native@.len(),
                native_of(self.native@, who@) == native_of(self.native@.skip(i as int), who@),
            decreases self.native@.len() - i,
        {
            let ghost rest = self.native@.skip(i as int);
            assert(rest.skip(1) =~= self.native@.skip(i as int + 1));
            if same_account(&self.native[i].0, who) {
                return self.native[i].1;
            }
            i = i + 1;
        }
        0
    }

    /// The index of the first holding of asset `id` by `who`, if any.
    fn find_holding(&self, id: u32, who: &AccountId) -> (r: Option<usize>)
        ensures
            match r {
                Some(i) => {
                    &&& i < self.holdings@.len()
                    &&& self.holdings@[i as int].id == id
                    &&& self.holdings@[i as int].who@ == who@
                    &&& forall|j: int|
                        0 <= j < i ==> !(#[trigger] self.holdings@[j].id == id
                            && self.holdings@[j].who@ == who@)
                    &&& balance_of(self.holdings@, id, who@) == self.holdings@[i as int].balance
                },
                None => {
                    &&& forall|j: int|
                        0 <= j < self.holdings@.len() ==> !(#[trigger] self.holdings@[j].id == id
                            && self.holdings@[j].who@ == who@)
                    &&& balance_of(self.holdings@, id, who@) == 0
                },
            },
    {
        let mut i: usize = 0;
        assert(self.holdings@.skip(0) =~= self.holdings@);
        while i < self.holdings.len()
            invariant
                0 <= i <= self.holdings@.len(),
                balance_of(self.holdings@, id, who@) == balance_of(
                    self.holdings@.skip(i as int),
                    id,
                    who@,
                ),
                forall|j: int|
                    0 <= j < i ==> !(#[trigger] self.holdings@[j].id == id
                        && self.holdings@[j].who@ == who@),
            decreases self.holdings@.len() - i,
        {
            let ghost rest = self.holdings@.skip(i as int);
            assert(rest.skip(1) =~= self.holdings@.skip(i as int + 1));
            if self.holdings[i].id == id && same_account(&self.holdings[i].who, who) {
                return Some(i);
            }
            i = i + 1;
        }
        None
    }

    /// The balance of `who` in asset `id`.
    pub fn asset_balance(&self, id: u32, who: &AccountId) -> (r: u128)
        ensures
            r == balance_of(self.holdings@, id, who@),
    {
        match self.find_holding(id, who) {
            Some(i) => self.holdings[i].balance,
            None => 0,
        }
    }

    /// Whether asset `id` is registered on this chain.
    pub fn has_asset(&self, id: u32) -> (r: bool)
        ensures
            r == registered(self.assets@, id),
    {
        let mut i: usize = 0;
        while i < self.assets.len()
            invariant
                0 <= i <= self.assets@.len(),
                forall|j: int| 0 <= j < i ==> #[trigger] self.assets@[j].id != id,
            decreases self.assets@.len() - i,
        {
            if self.assets[i].id == id {
                return true;
            }
            i = i + 1;
        }
        false
    }

    /// Sets the balance of `who` in asset `id` to `v`, leaving every other
    /// balance as it was.
    pub fn set_asset_balance(&mut self, id: u32, who: &AccountId, v: u128)
        ensures
            forall|k: u32, w: Seq<u8>|
                #[trigger] balance_of(final(self).holdings@, k, w) == if k == id && w == who@ {
                    v
                } else {
                    balance_of(old(self).holdings@, k, w)
                },
            forall|k: u32|
                #[trigger] total_of(final(self).holdings@, k) == total_of(old(self).holdings@, k) + if k
                    == id {
                    v - balance_of(old(self).holdings@, id, who@)
                } else {
                    0
                },
            final(self).native == old(self).native,
            final(self).assets == old(self).assets,
            final(self).metadata == old(self).metadata,
            final(self).parachain_id == old(self).parachain_id,
            final(self).safe_xcm_version == old(self).safe_xcm_version,
            final(self).host_config == old(self).host_config,
            final(self).block_number == old(self).block_number,
            final(self).events == old(self).events,
    {
        let e = AssetAccount { id, who: *who, balance: v };
        match self.find_holding(id, who) {
            Some(i) => {
                proof {
                    let s = self.holdings@;
                    assert forall|k: u32, w: Seq<u8>|
                        #[trigger] balance_of(s.update(i as int, e), k, w) == if k == id && w
                            == who@ {
                            v
                        } else {
                            balance_of(s, k, w)
                        } by {
                        lemma_balance_update(s, i as int, e, k, w);
                    }
                    assert forall|k: u32|
                        #[trigger] total_of(s.update(i as int, e), k) == total_of(s, k) + if k
                            == id {
                            v - balance_of(s, id, who@)
                        } else {
                            0
                        } by {
                        lemma_total_update(s, i as int, e, k);
                    }
                }
                self.holdings.set(i, e);
            },
            None => {
                proof {
                    let s = self.holdings@;
                    assert forall|k: u32, w: Seq<u8>|
                        #[trigger] balance_of(s.push(e), k, w) == if k == id && w == who@ {
                            v
                        } else {
                            balance_of(s, k, w)
                        } by {
                        lemma_balance_push(s, e, k, w);
                    }
                    assert forall|k: u32|
                        #[trigger] total_of(s.push(e), k) == total_of(s, k) + if k == id {
                            v - balance_of(s, id, who@)
                        } else {
                            0
                        } by {
                        assert(s.push(e).drop_last() =~= s);
                    }
                }
                self.holdings.push(e);
            },
        }
    }
}

} // verus!
