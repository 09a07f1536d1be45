//! Accounts, balances and the well-known test accounts.
use vstd::prelude::*;

verus! {

/// A 32-byte account identifier.
pub type AccountId = [u8; 32];

/// Balances are counted in base units.
pub type Balance = u128;

/// One unit of the native token, in base units.
pub const UNITS: u128 = 1_000_000_000_000;

/// The starting native balance of `BOB` on parachain 2000.
pub const BOB_INITIAL_BALANCE: u128 = 1000 * UNITS;

/// The byte that fills each of the well-known accounts.
pub const ALICE_BYTE: u8 = 4;
pub const BOB_BYTE: u8 = 5;
pub const CHARLIE_BYTE: u8 = 6;
pub const DAVE_BYTE: u8 = 7;


/// The account whose 32 bytes all equal `b`.
pub open spec fn filled(b: u8) -> Seq<u8> {
    Seq::new(32, |_i: int| b)
}

/// The type tag that parachain identifiers carry when turned into accounts.
pub open spec fn para_tag() -> Seq<u8> {
    seq![0x70u8, 0x61u8, 0x72u8, 0x61u8]
}

/// The little-endian bytes of a 32-bit integer.
pub open spec fn le_u32(v: u32) -> Seq<u8> {
    seq![
        (v % 256) as u8,
        ((v / 256) % 256) as u8,
        ((v / 65536) % 256) as u8,
        ((v / 16777216) % 256) as u8,
    ]
}

/// The sovereign account of parachain `id` on its relay chain: the tag
/// `"para"`, then the id in little-endian, then zeros up to 32 bytes.
pub open spec fn sovereign_account_spec(id: u32) -> Seq<u8> {
    para_tag() + le_u32(id) + Seq::new(24, |_i: int| 0u8)
}

/// Builds the account whose 32 bytes all equal `b`.
pub fn account_filled(b: u8) -> (r: AccountId)
    ensures
        r@ == filled(b),
{
    let r: [u8; 32] = [b; 32];
    assert(r@ =~= filled(b));
    r
}

/// The account of Alice: 32 bytes of 4.
pub fn alice() -> (r: AccountId)
    ensures
        r@ == filled(ALICE_BYTE),
{
    account_filled(ALICE_BYTE)
}

/// The account of Bob: 32 bytes of 5.
pub fn bob() -> (r: AccountId)
    ensures
        r@ == filled(BOB_BYTE),
{
    account_filled(BOB_BYTE)
}

/// The account of Charlie: 32 bytes of 6.
pub fn charlie() -> (r: AccountId)
    ensures
        r@ == filled(CHARLIE_BYTE),
{
    account_filled(CHARLIE_BYTE)
}

/// The account of Dave: 32 bytes of 7.
pub fn dave() -> (r: AccountId)
    ensures
        r@ == filled(DAVE_BYTE),
{
    account_filled(DAVE_BYTE)
}

/// The sovereign account of parachain `id` on the relay chain.
pub fn sovereign_account(id: u32) -> (r: AccountId)
    ensures
        r@ == sovereign_account_spec(id),
{
    let mut r: [u8; 32] = [0u8; 32];
    r[0] = 0x70u8;
    r[1] = 0x61u8;
    r[2] = 0x72u8;
    r[3] = 0x61u8;
    r[4] = (id % 256) as u8;
    r[5] = ((id / 256) % 256) as u8;
    r[6] = ((id / 65536) % 256) as u8;
    r[7] = ((id / 16777216) % 256) as u8;
    assert(r@ =~= sovereign_account_spec(id));
    r
}

} // verus!
