use fungible_token::contract::{CallContext, Contract, FtEvent};
use fungible_token::error::LedgerError;
use fungible_token::metadata::{Metadata, DATA_IMAGE_SVG_NEAR_ICON};
use fungible_token::token::claim_storage;
use fungible_token::storage::{
    bounds_for_entry, cost_of_bytes, reconcile_storage, Settlement, StorageBalance,
    STORAGE_PRICE_PER_BYTE,
};
use near_sdk::test_utils::accounts;

const TOTAL_SUPPLY: u128 = 1_000_000_000_000_000;

fn account(i: usize) -> String {
    accounts(i).to_string()
}

fn ctx(caller: &str, attached: u128) -> CallContext {
    CallContext { predecessor_id: caller.to_string(), attached }
}

fn contract_for(owner: &str, supply: u128) -> Contract {
    let (contract, _) = Contract::new_default_meta(owner.to_string(), supply).unwrap();
    contract
}

fn register(contract: &mut Contract, who: &str) {
    let min = contract.storage_balance_bounds().min;
    contract.storage_deposit(&ctx(who, min), None, None).unwrap();
}

fn valid_metadata() -> Metadata {
    Metadata {
        spec: "ft-1.0.0".to_string(),
        name: "Token".to_string(),
        symbol: "TKN".to_string(),
        icon: None,
        reference: None,
        reference_hash: None,
        decimals: 18,
    }
}

#[test]
fn test_new() {
    let contract = contract_for(&account(1), TOTAL_SUPPLY);
    assert_eq!(contract.ft_total_supply(), TOTAL_SUPPLY);
    assert_eq!(contract.ft_balance_of(&account(1)), TOTAL_SUPPLY);
}

#[test]
fn test_transfer() {
    let mut contract = contract_for(&account(2), TOTAL_SUPPLY);
    let min = contract.storage_balance_bounds().min;
    contract.storage_deposit(&ctx(&account(1), min), None, None).unwrap();
    let transfer_amount = TOTAL_SUPPLY / 3;
    contract.ft_transfer(&ctx(&account(2), 1), account(1), transfer_amount, None).unwrap();
    assert_eq!(contract.ft_balance_of(&account(2)), TOTAL_SUPPLY - transfer_amount);
    assert_eq!(contract.ft_balance_of(&account(1)), transfer_amount);
}

#[test]
fn initial_mint_event_names_owner_and_memo() {
    let (contract, event) = Contract::new_default_meta("x.near".to_string(), TOTAL_SUPPLY).unwrap();
    assert_eq!(
        event,
        FtEvent::Mint {
            owner_id: "x.near".to_string(),
            amount: TOTAL_SUPPLY,
            memo: Some("Initial tokens supply is minted".to_string()),
        }
    );
    assert_eq!(contract.ft_metadata().symbol, "EXAMPLE");
    assert_eq!(contract.ft_metadata().decimals, 24);
    assert_eq!(contract.ft_metadata().icon.as_deref(), Some(DATA_IMAGE_SVG_NEAR_ICON));
    assert_eq!(contract.ft_metadata().spec, "ft-1.0.0");
    assert_eq!(contract.ft_metadata().reference, None);
}

#[test]
fn new_rejects_invalid_metadata() {
    let mut bad = valid_metadata();
    bad.spec = "ft-2.0.0".to_string();
    assert_eq!(Contract::new("x.near".to_string(), 1, bad).err(), Some(LedgerError::InvalidMetadata));
    let mut bad = valid_metadata();
    bad.name = String::new();
    assert_eq!(Contract::new("x.near".to_string(), 1, bad).err(), Some(LedgerError::InvalidMetadata));
    let mut bad = valid_metadata();
    bad.reference = Some("https://example.org/ref.json".to_string());
    assert_eq!(Contract::new("x.near".to_string(), 1, bad).err(), Some(LedgerError::InvalidMetadata));
    let mut bad = valid_metadata();
    bad.decimals = 39;
    assert_eq!(Contract::new("x.near".to_string(), 1, bad).err(), Some(LedgerError::InvalidMetadata));
}

#[test]
fn new_accepts_reference_with_hash() {
    let mut meta = valid_metadata();
    meta.reference = Some("https://example.org/ref.json".to_string());
    meta.reference_hash = Some(vec![7u8; 32]);
    let (contract, _) = Contract::new("x.near".to_string(), 5, meta.clone()).unwrap();
    assert_eq!(contract.ft_metadata(), &meta);
    assert_eq!(contract.ft_total_supply(), 5);
}

#[test]
fn new_rejects_invalid_owner_id() {
    assert_eq!(
        Contract::new_default_meta("Not A Valid Id".to_string(), 1).err(),
        Some(LedgerError::InvalidAccountId)
    );
}

#[test]
fn balance_of_unregistered_is_zero() {
    let contract = contract_for("x.near", TOTAL_SUPPLY);
    assert_eq!(contract.ft_balance_of(&"y.near".to_string()), 0);
    assert_eq!(contract.ft_balance_of(&"Not A Valid Id".to_string()), 0);
    assert_eq!(contract.storage_balance_of(&"y.near".to_string()), None);
}

#[test]
fn queries_repeat_without_change() {
    let contract = contract_for("x.near", TOTAL_SUPPLY);
    let x = "x.near".to_string();
    assert_eq!(contract.ft_balance_of(&x), contract.ft_balance_of(&x));
    assert_eq!(contract.ft_total_supply(), contract.ft_total_supply());
    assert_eq!(contract.ft_metadata(), contract.ft_metadata());
}

#[test]
fn registration_at_minimum_keeps_exactly_the_minimum() {
    let mut contract = contract_for("x.near", TOTAL_SUPPLY);
    let bounds = contract.storage_balance_bounds();
    assert!(bounds.min > 0);
    assert_eq!(bounds.max, Some(bounds.min));
    let receipt = contract.storage_deposit(&ctx("y.near", bounds.min), None, None).unwrap();
    assert_eq!(receipt.settlement, Settlement { charged: bounds.min, refund: 0, released: 0 });
    assert_eq!(receipt.event, None);
    assert_eq!(contract.ft_balance_of(&"y.near".to_string()), 0);
    assert_eq!(
        contract.storage_balance_of(&"y.near".to_string()),
        Some(StorageBalance { total: bounds.min, available: 0 })
    );
}

#[test]
fn registration_refunds_excess_payment() {
    let mut contract = contract_for("x.near", TOTAL_SUPPLY);
    let min = contract.storage_balance_bounds().min;
    let receipt = contract.storage_deposit(&ctx("x.near", min + 500), Some("z.near".to_string()), None).unwrap();
    assert_eq!(receipt.settlement, Settlement { charged: min, refund: 500, released: 0 });
    assert!(contract.storage_balance_of(&"z.near".to_string()).is_some());
}

#[test]
fn registration_below_minimum_is_refused() {
    let mut contract = contract_for("x.near", TOTAL_SUPPLY);
    let min = contract.storage_balance_bounds().min;
    assert_eq!(
        contract.storage_deposit(&ctx("y.near", min - 1), None, None).err(),
        Some(LedgerError::DepositOutOfBounds)
    );
    assert_eq!(contract.storage_balance_of(&"y.near".to_string()), None);
}

#[test]
fn registration_of_invalid_id_is_refused() {
    let mut contract = contract_for("x.near", TOTAL_SUPPLY);
    let min = contract.storage_balance_bounds().min;
    assert_eq!(
        contract.storage_deposit(&ctx("x.near", min), Some("Bad Id".to_string()), None).err(),
        Some(LedgerError::InvalidAccountId)
    );
}

#[test]
fn registering_twice_refunds_everything() {
    let mut contract = contract_for("x.near", TOTAL_SUPPLY);
    let receipt = contract.storage_deposit(&ctx("x.near", 77), None, None).unwrap();
    assert_eq!(receipt.settlement, Settlement { charged: 0, refund: 77, released: 0 });
    assert_eq!(contract.ft_balance_of(&"x.near".to_string()), TOTAL_SUPPLY);
}

#[test]
fn transfer_scenario_splits_a_third() {
    let mut contract = contract_for("x.near", TOTAL_SUPPLY);
    register(&mut contract, "y.near");
    let receipt = contract
        .ft_transfer(&ctx("x.near", 1), "y.near".to_string(), 333_333_333_333_333, None)
        .unwrap();
    assert_eq!(contract.ft_balance_of(&"x.near".to_string()), 666_666_666_666_667);
    assert_eq!(contract.ft_balance_of(&"y.near".to_string()), 333_333_333_333_333);
    assert_eq!(contract.ft_total_supply(), TOTAL_SUPPLY);
    assert_eq!(receipt.settlement, Settlement { charged: 0, refund: 1, released: 0 });
    assert_eq!(
        receipt.event,
        Some(FtEvent::Transfer {
            old_owner_id: "x.near".to_string(),
            new_owner_id: "y.near".to_string(),
            amount: 333_333_333_333_333,
            memo: None,
        })
    );
}

#[test]
fn transfer_conserves_supply() {
    let mut contract = contract_for("x.near", 100);
    register(&mut contract, "y.near");
    let x = "x.near".to_string();
    let y = "y.near".to_string();
    contract.transfer(&x, &y, 40, Some("rent".to_string())).unwrap();
    contract.transfer(&y, &x, 15, None).unwrap();
    assert_eq!(contract.ft_balance_of(&x), 75);
    assert_eq!(contract.ft_balance_of(&y), 25);
    assert_eq!(contract.ft_balance_of(&x) + contract.ft_balance_of(&y), contract.ft_total_supply());
}

#[test]
fn transfer_to_self_is_refused() {
    let mut contract = contract_for("x.near", 100);
    let x = "x.near".to_string();
    assert_eq!(contract.transfer(&x, &x, 10, None).err(), Some(LedgerError::SelfTransfer));
    assert_eq!(contract.transfer(&x, &x, 1000, None).err(), Some(LedgerError::SelfTransfer));
    assert_eq!(contract.ft_balance_of(&x), 100);
}

#[test]
fn transfer_of_zero_is_refused() {
    let mut contract = contract_for("x.near", 100);
    register(&mut contract, "y.near");
    assert_eq!(
        contract.transfer(&"x.near".to_string(), &"y.near".to_string(), 0, None).err(),
        Some(LedgerError::ZeroAmount)
    );
}

#[test]
fn transfer_from_unregistered_is_refused() {
    let mut contract = contract_for("x.near", 100);
    assert_eq!(
        contract.ft_transfer(&ctx("u.near", 1), "x.near".to_string(), 5, None).err(),
        Some(LedgerError::AccountNotRegistered("u.near".to_string()))
    );
    assert_eq!(contract.ft_balance_of(&"x.near".to_string()), 100);
    assert_eq!(contract.ft_total_supply(), 100);
}

#[test]
fn transfer_to_unregistered_is_refused() {
    let mut contract = contract_for("x.near", 100);
    assert_eq!(
        contract.transfer(&"x.near".to_string(), &"u.near".to_string(), 5, None).err(),
        Some(LedgerError::AccountNotRegistered("u.near".to_string()))
    );
    assert_eq!(contract.ft_balance_of(&"x.near".to_string()), 100);
}

#[test]
fn transfer_beyond_balance_is_refused() {
    let mut contract = contract_for("x.near", 100);
    register(&mut contract, "y.near");
    assert_eq!(
        contract.transfer(&"x.near".to_string(), &"y.near".to_string(), 101, None).err(),
        Some(LedgerError::InsufficientBalance)
    );
    assert_eq!(contract.ft_balance_of(&"y.near".to_string()), 0);
}

#[test]
fn transfer_without_payment_is_refused() {
    let mut contract = contract_for("x.near", 100);
    register(&mut contract, "y.near");
    assert_eq!(
        contract.ft_transfer(&ctx("x.near", 0), "y.near".to_string(), 5, None).err(),
        Some(LedgerError::InsufficientAttachedPayment)
    );
    assert_eq!(contract.ft_balance_of(&"x.near".to_string()), 100);
}

#[test]
fn mint_up_to_the_ceiling() {
    let mut contract = contract_for("x.near", 0);
    let x = "x.near".to_string();
    let event = contract.deposit(&x, u128::MAX, None).unwrap();
    assert_eq!(event, FtEvent::Mint { owner_id: x.clone(), amount: u128::MAX, memo: None });
    assert_eq!(contract.ft_total_supply(), u128::MAX);
    assert_eq!(contract.deposit(&x, 1, None).err(), Some(LedgerError::BalanceOverflow));
    assert_eq!(contract.ft_balance_of(&x), u128::MAX);
}

#[test]
fn mint_overflowing_supply_through_another_account() {
    let mut contract = contract_for("x.near", u128::MAX - 10);
    register(&mut contract, "y.near");
    let y = "y.near".to_string();
    assert_eq!(contract.deposit(&y, 11, None).err(), Some(LedgerError::BalanceOverflow));
    contract.deposit(&y, 10, None).unwrap();
    assert_eq!(contract.ft_total_supply(), u128::MAX);
}

#[test]
fn mint_to_unregistered_is_refused() {
    let mut contract = contract_for("x.near", 0);
    assert_eq!(
        contract.deposit(&"u.near".to_string(), 1, None).err(),
        Some(LedgerError::AccountNotRegistered("u.near".to_string()))
    );
}

#[test]
fn burn_lowers_balance_and_supply() {
    let mut contract = contract_for("x.near", 100);
    let x = "x.near".to_string();
    let event = contract.withdraw(&x, 30, Some("burn".to_string())).unwrap();
    assert_eq!(event, FtEvent::Burn { owner_id: x.clone(), amount: 30, memo: Some("burn".to_string()) });
    assert_eq!(contract.ft_balance_of(&x), 70);
    assert_eq!(contract.ft_total_supply(), 70);
    assert_eq!(contract.withdraw(&x, 71, None).err(), Some(LedgerError::InsufficientBalance));
}

#[test]
fn unregister_with_balance_needs_force() {
    let mut contract = contract_for("x.near", 100);
    register(&mut contract, "y.near");
    contract.transfer(&"x.near".to_string(), &"y.near".to_string(), 30, None).unwrap();
    let min = contract.storage_balance_bounds().min;
    assert_eq!(
        contract.storage_unregister(&ctx("y.near", 1), Some(false)).err(),
        Some(LedgerError::NonZeroBalance)
    );
    assert_eq!(
        contract.storage_unregister(&ctx("y.near", 1), None).err(),
        Some(LedgerError::NonZeroBalance)
    );
    let receipt = contract.storage_unregister(&ctx("y.near", 1), Some(true)).unwrap();
    assert_eq!(receipt.settlement, Settlement { charged: 0, refund: 1, released: min });
    assert_eq!(
        receipt.event,
        Some(FtEvent::Burn { owner_id: "y.near".to_string(), amount: 30, memo: None })
    );
    assert_eq!(contract.ft_total_supply(), 70);
    assert_eq!(contract.ft_balance_of(&"y.near".to_string()), 0);
    assert_eq!(contract.storage_balance_of(&"y.near".to_string()), None);
}

#[test]
fn unregister_empty_account_needs_no_force() {
    let mut contract = contract_for("x.near", 100);
    register(&mut contract, "y.near");
    let receipt = contract.storage_unregister(&ctx("y.near", 0), None).unwrap();
    assert_eq!(receipt.event, None);
    assert_eq!(contract.ft_total_supply(), 100);
    assert_eq!(
        contract.storage_unregister(&ctx("y.near", 0), None).err(),
        Some(LedgerError::AccountNotFound)
    );
}

#[test]
fn storage_withdraw_has_nothing_available() {
    let contract = contract_for("x.near", 100);
    let min = contract.storage_balance_bounds().min;
    assert_eq!(
        contract.storage_withdraw(&ctx("x.near", 1), None),
        Ok(StorageBalance { total: min, available: 0 })
    );
    assert_eq!(
        contract.storage_withdraw(&ctx("x.near", 1), Some(0)),
        Ok(StorageBalance { total: min, available: 0 })
    );
    assert_eq!(
        contract.storage_withdraw(&ctx("x.near", 1), Some(1)),
        Err(LedgerError::InsufficientStorageBalance)
    );
    assert_eq!(
        contract.storage_withdraw(&ctx("u.near", 1), None),
        Err(LedgerError::AccountNotRegistered("u.near".to_string()))
    );
}

#[test]
fn storage_cost_is_bytes_times_price() {
    assert_eq!(STORAGE_PRICE_PER_BYTE, 10_000_000_000_000_000_000);
    assert_eq!(cost_of_bytes(0), 0);
    assert_eq!(cost_of_bytes(125), 1_250_000_000_000_000_000_000);
    assert_eq!(cost_of_bytes(u64::MAX), u64::MAX as u128 * STORAGE_PRICE_PER_BYTE);
    let bounds = bounds_for_entry(3);
    assert_eq!(bounds.min, 30_000_000_000_000_000_000);
    assert_eq!(bounds.max, Some(30_000_000_000_000_000_000));
}

#[test]
fn reconcile_charges_growth_and_returns_shrinkage() {
    let price = STORAGE_PRICE_PER_BYTE;
    assert_eq!(
        reconcile_storage(100, 110, 10 * price + 7),
        Ok(Settlement { charged: 10 * price, refund: 7, released: 0 })
    );
    assert_eq!(
        reconcile_storage(100, 110, 10 * price - 1),
        Err(LedgerError::InsufficientStoragePayment)
    );
    assert_eq!(
        reconcile_storage(110, 100, 3),
        Ok(Settlement { charged: 0, refund: 3, released: 10 * price })
    );
    assert_eq!(reconcile_storage(50, 50, 9), Ok(Settlement { charged: 0, refund: 9, released: 0 }));
}

#[test]
fn account_entry_size_is_measured() {
    let contract = contract_for("x.near", 1);
    let min = contract.storage_balance_bounds().min;
    assert_eq!(min % STORAGE_PRICE_PER_BYTE, 0);
    assert_eq!(min / STORAGE_PRICE_PER_BYTE, 125);
}

#[test]
fn second_initialisation_is_refused() {
    let (first, _) = Contract::new_default_meta(account(2), TOTAL_SUPPLY).unwrap();
    assert_eq!(
        Contract::new_default_meta(account(1), 1).err(),
        Some(LedgerError::AlreadyInitialized)
    );
    assert_eq!(
        Contract::new(account(1), 1, valid_metadata()).err(),
        Some(LedgerError::AlreadyInitialized)
    );
    assert_eq!(first.ft_total_supply(), TOTAL_SUPPLY);
    assert_eq!(first.ft_balance_of(&account(2)), TOTAL_SUPPLY);
    assert_eq!(first.ft_balance_of(&account(1)), 0);
}

#[test]
fn account_ids_follow_the_naming_rule() {
    let mut contract = contract_for("x.near", 1);
    let min = contract.storage_balance_bounds().min;
    let too_long = "a".repeat(65);
    for bad in ["a", "-ab", "ab-", "a..b", "a_-b", "Ab", "a b", too_long.as_str()] {
        assert_eq!(
            contract.storage_deposit(&ctx("x.near", min), Some(bad.to_string()), None).err(),
            Some(LedgerError::InvalidAccountId),
            "{}",
            bad
        );
    }
    let longest = "b".repeat(64);
    for good in ["ab", "a-b.c_d", "0x1", longest.as_str()] {
        assert!(contract.storage_deposit(&ctx("x.near", min), Some(good.to_string()), None).is_ok());
        assert!(contract.storage_balance_of(&good.to_string()).is_some());
    }
}

#[test]
fn transfer_with_long_memo_goes_through() {
    let mut contract = contract_for("x.near", 100);
    register(&mut contract, "y.near");
    let memo = "m".repeat(20_000);
    let event = contract
        .transfer(&"x.near".to_string(), &"y.near".to_string(), 5, Some(memo.clone()))
        .unwrap();
    assert_eq!(
        event,
        FtEvent::Transfer {
            old_owner_id: "x.near".to_string(),
            new_owner_id: "y.near".to_string(),
            amount: 5,
            memo: Some(memo),
        }
    );
    assert_eq!(contract.ft_balance_of(&"y.near".to_string()), 5);
}

#[test]
fn creation_needs_a_fresh_claim() {
    let claim = claim_storage();
    assert!(claim.fresh());
    let (contract, event) =
        Contract::new_on_claim(claim, "x.near".to_string(), 10, valid_metadata()).unwrap();
    assert_eq!(
        event,
        FtEvent::Mint {
            owner_id: "x.near".to_string(),
            amount: 10,
            memo: Some("Initial tokens supply is minted".to_string()),
        }
    );
    let again = claim_storage();
    assert!(!again.fresh());
    assert_eq!(
        Contract::new_on_claim(again, "y.near".to_string(), 1, valid_metadata()).err(),
        Some(LedgerError::AlreadyInitialized)
    );
    assert_eq!(contract.ft_total_supply(), 10);
    assert_eq!(contract.ft_balance_of(&"x.near".to_string()), 10);
    assert_eq!(contract.ft_balance_of(&"y.near".to_string()), 0);
}

#[test]
fn claim_checks_come_after_input_checks() {
    let mut bad = valid_metadata();
    bad.symbol = String::new();
    assert_eq!(
        Contract::new_on_claim(claim_storage(), "x.near".to_string(), 1, bad).err(),
        Some(LedgerError::InvalidMetadata)
    );
    assert_eq!(
        Contract::new_on_claim(claim_storage(), "X".to_string(), 1, valid_metadata()).err(),
        Some(LedgerError::InvalidAccountId)
    );
}
