//! The token standard's ledger, as this library sees it.
//!
//! `FungibleToken` keeps its balances in contract storage under its prefix.
//! This library makes one token per storage, guarded by a marker key, so the
//! balances and the supply are determined by the token value it owns; this
//! rests on nothing else writing under the token's prefix.
use vstd::prelude::*;
use near_contract_standards::fungible_token::FungibleToken;
use near_sdk::AccountId;

verus! {

#[verifier::external_type_specification]
#[verifier::external_body]
pub struct ExFungibleToken(FungibleToken);

/// The balances the token holds, keyed by account id.
pub uninterp spec fn token_balances(t: FungibleToken) -> Map<Seq<char>, u128>;

/// The total supply the token records.
pub uninterp spec fn token_supply(t: FungibleToken) -> u128;

/// The storage, in bytes, that one account entry of the token occupies.
pub uninterp spec fn token_entry_bytes(t: FungibleToken) -> u64;

/// The separators an account id may hold between its parts.
pub open spec fn is_separator(c: char) -> bool {
    c == '-' || c == '_' || c == '.'
}

/// The characters an account id may hold.
pub open spec fn is_id_char(c: char) -> bool {
    ('a' <= c && c <= 'z') || ('0' <= c && c <= '9') || is_separator(c)
}

/// A well-formed account id: 2 to 64 characters from `a-z`, `0-9`, `-`, `_`
/// and `.`, neither starting nor ending with a separator, and with no two
/// separators next to each other.
pub open spec fn is_account_id(s: Seq<char>) -> bool {
    &&& 2 <= s.len() <= 64
    &&& forall|i: int| 0 <= i < s.len() ==> is_id_char(#[trigger] s[i])
    &&& !is_separator(s[0])
    &&& !is_separator(s[s.len() - 1])
    &&& forall|i: int| 0 <= i < s.len() - 1 ==> !(is_separator(#[trigger] s[i]) && is_separator(s[i + 1]))
}

/// Relies on `AccountId::validate`: it accepts exactly the well-formed ids.
/// Its length test counts bytes, but every accepted character is ASCII, so
/// for an accepted id bytes and characters agree.
#[verifier::external_body]
pub(crate) fn valid_account_id(s: &String) -> (r: bool)
    ensures
        r == is_account_id(s@),
{
    AccountId::validate(s).is_ok()
}

/// The storage prefix of the token's balances, the byte `a`.
pub const TOKEN_PREFIX: u8 = 0x61;

/// The storage key written when the contract is created, the byte `i`.
pub const INIT_MARKER: u8 = 0x69;

/// Relies on `env::storage_write`: it stores an empty value under `key` and
/// reports whether the key held a value before. That depends on the
/// contract's storage, so nothing is stated of it.
#[verifier::external_body]
fn write_marker(key: u8) -> (existed: bool) {
    near_sdk::env::storage_write(&[key], &[])
}

/// The outcome of marking the contract's storage as initialised. Only
/// `claim_storage` makes one, and a claim is fresh only where no marker was
/// there before, so the runtime hands out at most one fresh claim per storage.
pub struct StorageClaim {
    fresh: bool,
}

impl StorageClaim {
    /// Whether the marker was absent when the claim was made.
    pub closed spec fn is_fresh(&self) -> bool {
        self.fresh
    }

    pub fn fresh(&self) -> (r: bool)
        ensures
            r == self.is_fresh(),
    {
        self.fresh
    }
}

/// Marks the contract's storage as initialised. The claim is fresh where the
/// marker was not there yet.
pub fn claim_storage() -> (r: StorageClaim) {
    let existed = write_marker(INIT_MARKER);
    StorageClaim { fresh: !existed }
}

/// Relies on `FungibleToken::new`: the new token's supply is zero, and its
/// balances are what the contract's storage holds under `prefix`. A fresh
/// claim means no token was made over this storage before, so that is nothing,
/// on the premise that nothing but this library writes under the prefix.
#[verifier::external_body]
pub(crate) fn token_new(_claim: StorageClaim, prefix: u8) -> (r: FungibleToken)
    requires
        _claim.is_fresh(),
        prefix == TOKEN_PREFIX,
    ensures
        token_balances(r).dom() == Set::<Seq<char>>::empty(),
        token_supply(r) == 0,
{
    FungibleToken::new(vec![prefix])
}

/// Relies on the `total_supply` field of `FungibleToken`.
#[verifier::external_body]
pub(crate) fn token_total_supply(t: &FungibleToken) -> (r: u128)
    ensures
        r == token_supply(*t),
{
    t.total_supply
}

/// Relies on the `account_storage_usage` field of `FungibleToken`.
#[verifier::external_body]
pub(crate) fn token_account_bytes(t: &FungibleToken) -> (r: u64)
    ensures
        r == token_entry_bytes(*t),
{
    t.account_storage_usage
}

/// Relies on `LookupMap::get` over the token's `accounts`.
#[verifier::external_body]
pub(crate) fn token_balance(t: &FungibleToken, account: &String) -> (r: Option<u128>)
    requires
        is_account_id(account@),
    ensures
        r == (if token_balances(*t).contains_key(account@) {
            Some(token_balances(*t)[account@])
        } else {
            None::<u128>
        }),
{
    t.accounts.get(&account.parse::<AccountId>().unwrap())
}

/// Relies on `FungibleToken::internal_register_account`: it adds the account
/// with a zero balance, and panics if it is present.
#[verifier::external_body]
pub(crate) fn token_register(t: &mut FungibleToken, account: &String)
    requires
        is_account_id(account@),
        !token_balances(*old(t)).contains_key(account@),
    ensures
        token_balances(*final(t)) == token_balances(*old(t)).insert(account@, 0u128),
        token_supply(*final(t)) == token_supply(*old(t)),
        token_entry_bytes(*final(t)) == token_entry_bytes(*old(t)),
{
    t.internal_register_account(&account.parse::<AccountId>().unwrap())
}

/// Relies on `FungibleToken::internal_deposit`: it adds `amount` to the
/// account's balance and to the supply, and panics where either overflows or
/// the account is absent.
#[verifier::external_body]
pub(crate) fn token_deposit(t: &mut FungibleToken, account: &String, amount: u128)
    requires
        is_account_id(account@),
        token_balances(*old(t)).contains_key(account@),
        token_balances(*old(t))[account@] + amount <= u128::MAX,
        token_supply(*old(t)) + amount <= u128::MAX,
    ensures
        token_balances(*final(t)) == token_balances(*old(t)).insert(
            account@,
            (token_balances(*old(t))[account@] + amount) as u128,
        ),
        token_supply(*final(t)) == token_supply(*old(t)) + amount,
        token_entry_bytes(*final(t)) == token_entry_bytes(*old(t)),
{
    t.internal_deposit(&account.parse::<AccountId>().unwrap(), amount)
}

/// Relies on `FungibleToken::internal_withdraw`: it takes `amount` from the
/// account's balance and from the supply, and panics where either would go
/// below zero or the account is absent.
#[verifier::external_body]
pub(crate) fn token_withdraw(t: &mut FungibleToken, account: &String, amount: u128)
    requires
        is_account_id(account@),
        token_balances(*old(t)).contains_key(account@),
        amount <= token_balances(*old(t))[account@],
        amount <= token_supply(*old(t)),
    ensures
        token_balances(*final(t)) == token_balances(*old(t)).insert(
            account@,
            (token_balances(*old(t))[account@] - amount) as u128,
        ),
        token_supply(*final(t)) == token_supply(*old(t)) - amount,
        token_entry_bytes(*final(t)) == token_entry_bytes(*old(t)),
{
    t.internal_withdraw(&account.parse::<AccountId>().unwrap(), amount)
}

/// Relies on `LookupMap::remove` over the token's `accounts`: the entry goes,
/// the supply field is not touched.
#[verifier::external_body]
pub(crate) fn token_remove(t: &mut FungibleToken, account: &String)
    requires
        is_account_id(account@),
    ensures
        token_balances(*final(t)) == token_balances(*old(t)).remove(account@),
        token_supply(*final(t)) == token_supply(*old(t)),
        token_entry_bytes(*final(t)) == token_entry_bytes(*old(t)),
{
    t.accounts.remove(&account.parse::<AccountId>().unwrap());
}

} // verus!
