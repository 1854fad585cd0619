//! The shared presale record and its creation.

use vstd::prelude::*;

verus! {

/// A ledger identity: the 256-bit address of an account, held as two plain
/// halves so that verified code can compare and copy it structurally. A host
/// converts its own address type to and from these 32 bytes.
#[derive(Clone, Copy, Debug, PartialEq, Eq, Structural)]
pub struct AccountId {
    /// The first 16 bytes of the address, big-endian.
    pub hi: u128,
    /// The last 16 bytes of the address, big-endian.
    pub lo: u128,
}

/// The single shared presale record. Created once; the five identity fields
/// and the sale parameters are write-once, while `total_sold` and `is_active`
/// change only through the operations of this crate.
#[derive(Clone, Copy, Debug, PartialEq, Eq, Structural)]
pub struct Presale {
    /// The sole authorized administrator, fixed at creation.
    pub admin: AccountId,
    /// The asset being sold, fixed at creation.
    pub token_mint: AccountId,
    /// The account that receives settlement currency, fixed at creation.
    pub treasury: AccountId,
    /// The account holding unsold tokens, controlled by the program's
    /// derived authority, fixed at creation.
    pub presale_token_account: AccountId,
    /// Tokens granted per unit of settlement currency.
    pub rate: u64,
    /// First second (inclusive) at which purchases are accepted.
    pub presale_start: i64,
    /// Last second (inclusive) at which purchases are accepted.
    pub presale_end: i64,
    /// Smallest settlement-currency amount a single purchase may spend.
    pub min_purchase: u64,
    /// Largest settlement-currency amount a single purchase may spend.
    pub max_purchase: u64,
    /// Cumulative tokens issued across all purchases; never decreases.
    pub total_sold: u64,
    /// Administrator-controlled switch, independent of the time window.
    pub is_active: bool,
}

/// True when the two records agree on every write-once field: the four
/// identities and the sale parameters. Every operation preserves this; only
/// `total_sold` and `is_active` ever change after creation.
pub open spec fn same_config(a: Presale, b: Presale) -> bool {
    &&& a.admin == b.admin
    &&& a.token_mint == b.token_mint
    &&& a.treasury == b.treasury
    &&& a.presale_token_account == b.presale_token_account
    &&& a.rate == b.rate
    &&& a.presale_start == b.presale_start
    &&& a.presale_end == b.presale_end
    &&& a.min_purchase == b.min_purchase
    &&& a.max_purchase == b.max_purchase
}

/// Creates the presale record: copies every identity and parameter verbatim,
/// starts the tally at zero, and switches the sale on.
///
/// The host's account-binding layer is responsible for the creation-time
/// constraints that live outside this record (the sale token account's asset
/// equals `token_mint` and its owner is the derived authority) and for
/// making the record a singleton.
pub fn initialize(
    admin: AccountId,
    token_mint: AccountId,
    treasury: AccountId,
    presale_token_account: AccountId,
    rate: u64,
    presale_start: i64,
    presale_end: i64,
    min_purchase: u64,
    max_purchase: u64,
) -> (p: Presale)
    ensures
        p.admin == admin,
        p.token_mint == token_mint,
        p.treasury == treasury,
        p.presale_token_account == presale_token_account,
        p.rate == rate,
        p.presale_start == presale_start,
        p.presale_end == presale_end,
        p.min_purchase == min_purchase,
        p.max_purchase == max_purchase,
        p.total_sold == 0,
        p.is_active,
{
    Presale {
        admin,
        token_mint,
        treasury,
        presale_token_account,
        rate,
        presale_start,
        presale_end,
        min_purchase,
        max_purchase,
        total_sold: 0,
        is_active: true,
    }
}

} // verus!
