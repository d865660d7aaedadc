use fungible_token::contract::Contract;
use fungible_token::error::FtError;
use fungible_token::metadata::{FungibleTokenMetadata, FT_METADATA_SPEC};

const TOTAL_SUPPLY: u128 = 1_000_000_000_000_000;
const DEFAULT_GAS: u64 = 300_000_000_000_000;

fn owner() -> String {
    "bob".to_string()
}

fn user1() -> String {
    "charlie".to_string()
}

fn user2() -> String {
    "danny".to_string()
}

fn example_metadata() -> FungibleTokenMetadata {
    FungibleTokenMetadata {
        spec: FT_METADATA_SPEC.to_string(),
        name: "Example NEAR fungible token".to_string(),
        symbol: "EXAMPLE".to_string(),
        icon: None,
        reference: None,
        reference_hash: None,
        decimals: 24,
    }
}

fn setup() -> Contract {
    Contract::new(owner(), TOTAL_SUPPLY, example_metadata()).unwrap()
}

fn register(contract: &mut Contract, account: String) {
    let min = contract.storage_balance_bounds().min;
    contract.storage_deposit(account, min, None, None).unwrap();
}

#[test]
fn test_new() {
    let contract = setup();
    assert_eq!(contract.ft_total_supply(), TOTAL_SUPPLY);
    assert_eq!(contract.ft_balance_of(owner()), TOTAL_SUPPLY);
}

#[test]
fn test_metadata() {
    let contract = setup();
    assert_eq!(contract.ft_metadata().decimals, 24);
    assert!(contract.ft_metadata().icon.is_none());
    assert!(!contract.ft_metadata().spec.is_empty());
    assert!(!contract.ft_metadata().name.is_empty());
    assert!(!contract.ft_metadata().symbol.is_empty());
}

#[test]
fn test_deposit() {
    let mut contract = setup();
    let min = contract.storage_balance_bounds().min;
    assert!(contract.storage_balance_of(user1()).is_none());
    contract.storage_deposit(user1(), min, None, None).unwrap();
    let storage_balance = contract.storage_balance_of(user1()).unwrap();
    assert_eq!(storage_balance.total, contract.storage_balance_bounds().min);
    assert_eq!(storage_balance.available, 0);
}

#[test]
fn test_deposit_on_behalf_of_another_user() {
    let mut contract = setup();
    let min = contract.storage_balance_bounds().min;
    assert!(contract.storage_balance_of(user2()).is_none());
    contract.storage_deposit(user1(), min, Some(user2()), None).unwrap();
    let storage_balance = contract.storage_balance_of(user2()).unwrap();
    assert_eq!(storage_balance.total, contract.storage_balance_bounds().min);
    assert_eq!(storage_balance.available, 0);
    assert!(contract.storage_balance_of(user1()).is_none());
}

#[test]
fn test_deposit_panics_on_less_amount() {
    let mut contract = setup();
    assert!(contract.storage_balance_of(user1()).is_none());
    assert_eq!(
        contract.storage_deposit(user1(), 100, None, None),
        Err(FtError::InsufficientDeposit)
    );
    assert!(contract.storage_balance_of(user1()).is_none());
}

#[test]
fn test_deposit_account_twice() {
    let mut contract = setup();
    let min = contract.storage_balance_bounds().min;
    contract.storage_deposit(user1(), min, None, None).unwrap();
    let storage_balance = contract.storage_balance_of(user1()).unwrap();
    assert_eq!(storage_balance.total, contract.storage_balance_bounds().min);
    let again = contract.storage_deposit(user1(), min, None, None).unwrap();
    assert_eq!(again.refund, min);
    let storage_balance = contract.storage_balance_of(user1()).unwrap();
    assert_eq!(storage_balance.total, contract.storage_balance_bounds().min);
}

#[test]
fn test_unregister() {
    let mut contract = setup();
    register(&mut contract, user1());
    assert!(contract.storage_balance_of(user1()).is_some());
    assert_eq!(contract.storage_unregister(user1(), 1, None), Ok(true));
    assert!(contract.storage_balance_of(user1()).is_none());
}

#[test]
fn test_unregister_panics_on_zero_deposit() {
    let mut contract = setup();
    register(&mut contract, user1());
    assert!(contract.storage_balance_of(user1()).is_some());
    assert_eq!(
        contract.storage_unregister(user1(), 0, None),
        Err(FtError::InsufficientAuthorizationPayment)
    );
    assert!(contract.storage_balance_of(user1()).is_some());
}

#[test]
fn test_unregister_of_non_registered_account() {
    let mut contract = setup();
    assert_eq!(contract.storage_unregister(user1(), 1, None), Ok(false));
}

#[test]
fn test_unregister_panics_on_non_zero_balance() {
    let mut contract = setup();
    register(&mut contract, user1());
    assert!(contract.storage_balance_of(user1()).is_some());
    let transfer_amount = TOTAL_SUPPLY / 10;
    contract.ft_transfer(owner(), 1, user1(), transfer_amount).unwrap();
    assert_eq!(
        contract.storage_unregister(user1(), 1, None),
        Err(FtError::NonZeroBalance)
    );
    assert_eq!(contract.ft_balance_of(user1()), transfer_amount);
}

#[test]
fn test_unregister_with_force() {
    let mut contract = setup();
    register(&mut contract, user1());
    assert!(contract.storage_balance_of(user1()).is_some());
    let transfer_amount = TOTAL_SUPPLY / 10;
    contract.ft_transfer(owner(), 1, user1(), transfer_amount).unwrap();
    assert_eq!(contract.storage_unregister(user1(), 1, Some(true)), Ok(true));
    assert!(contract.storage_balance_of(user1()).is_none());
    assert_eq!(contract.ft_balance_of(user1()), 0);
    assert_eq!(contract.ft_total_supply(), TOTAL_SUPPLY - transfer_amount);
}

#[test]
fn test_withdraw() {
    let mut contract = setup();
    register(&mut contract, user1());
    let storage_balance = contract.storage_withdraw(user1(), 1, None).unwrap();
    assert_eq!(storage_balance.total, contract.storage_balance_bounds().min);
    assert_eq!(storage_balance.available, 0);
    let storage_balance = contract.storage_withdraw(user1(), 1, None).unwrap();
    assert_eq!(storage_balance.total, contract.storage_balance_bounds().min);
    assert_eq!(storage_balance.available, 0);
}

#[test]
fn test_withdraw_panics_on_non_registered_account() {
    let contract = setup();
    assert_eq!(
        contract.storage_withdraw(user1(), 1, None),
        Err(FtError::NotRegistered)
    );
}

#[test]
fn test_withdraw_panics_on_zero_deposit() {
    let contract = setup();
    assert_eq!(
        contract.storage_withdraw(user1(), 0, None),
        Err(FtError::InsufficientAuthorizationPayment)
    );
}

#[test]
fn test_withdraw_panics_on_amount_greater_than_zero() {
    let contract = setup();
    assert_eq!(
        contract.storage_withdraw(user1(), 1, Some(1)),
        Err(FtError::NotRegistered)
    );
}

#[test]
fn test_transfer() {
    let mut contract = setup();
    register(&mut contract, user1());
    let transfer_amount = TOTAL_SUPPLY / 10;
    contract.ft_transfer(owner(), 1, user1(), transfer_amount).unwrap();
    assert_eq!(contract.ft_balance_of(owner()), TOTAL_SUPPLY - transfer_amount);
    assert_eq!(contract.ft_balance_of(user1()), transfer_amount);
}

#[test]
fn test_transfer_panics_on_self_receiver() {
    let mut contract = setup();
    register(&mut contract, user1());
    let transfer_amount = TOTAL_SUPPLY / 10;
    assert_eq!(
        contract.ft_transfer(owner(), 1, owner(), transfer_amount),
        Err(FtError::InvalidRequest)
    );
}

#[test]
fn test_transfer_panics_on_zero_amount() {
    let mut contract = setup();
    register(&mut contract, user1());
    assert_eq!(
        contract.ft_transfer(owner(), 1, user1(), 0),
        Err(FtError::InvalidRequest)
    );
}

#[test]
fn test_transfer_panics_on_zero_deposit() {
    let mut contract = setup();
    register(&mut contract, user1());
    let transfer_amount = TOTAL_SUPPLY / 10;
    assert_eq!(
        contract.ft_transfer(owner(), 0, user1(), transfer_amount),
        Err(FtError::InsufficientAuthorizationPayment)
    );
}

#[test]
fn test_transfer_panics_on_non_registered_sender() {
    let mut contract = setup();
    let transfer_amount = TOTAL_SUPPLY / 10;
    assert_eq!(
        contract.ft_transfer(user1(), 1, user1(), transfer_amount),
        Err(FtError::InvalidRequest)
    );
}

#[test]
fn test_transfer_panics_on_non_registered_receiver() {
    let mut contract = setup();
    let transfer_amount = TOTAL_SUPPLY / 10;
    assert_eq!(
        contract.ft_transfer(owner(), 1, user1(), transfer_amount),
        Err(FtError::NotRegistered)
    );
    assert_eq!(contract.ft_balance_of(owner()), TOTAL_SUPPLY);
}

#[test]
fn test_transfer_panics_on_amount_greater_than_balance() {
    let mut contract = setup();
    register(&mut contract, user1());
    let transfer_amount = TOTAL_SUPPLY + 10;
    assert_eq!(
        contract.ft_transfer(owner(), 1, user1(), transfer_amount),
        Err(FtError::InsufficientBalance)
    );
}

#[test]
fn test_transfer_call() {
    let mut contract = setup();
    register(&mut contract, user1());
    let transfer_amount = TOTAL_SUPPLY / 10;
    contract
        .ft_transfer_call(owner(), 1, DEFAULT_GAS, user1(), transfer_amount)
        .unwrap();
    assert_eq!(contract.ft_balance_of(owner()), TOTAL_SUPPLY - transfer_amount);
    assert_eq!(contract.ft_balance_of(user1()), transfer_amount);
}

#[test]
fn test_transfer_call_panics_on_self_receiver() {
    let mut contract = setup();
    register(&mut contract, user1());
    let transfer_amount = TOTAL_SUPPLY / 10;
    assert_eq!(
        contract.ft_transfer_call(owner(), 1, DEFAULT_GAS, owner(), transfer_amount),
        Err(FtError::InvalidRequest)
    );
}

#[test]
fn test_transfer_call_panics_on_zero_amount() {
    let mut contract = setup();
    register(&mut contract, user1());
    assert_eq!(
        contract.ft_transfer_call(owner(), 1, DEFAULT_GAS, user1(), 0),
        Err(FtError::InvalidRequest)
    );
}

#[test]
fn test_transfer_call_panics_on_zero_deposit() {
    let mut contract = setup();
    register(&mut contract, user1());
    let transfer_amount = TOTAL_SUPPLY / 10;
    assert_eq!(
        contract.ft_transfer_call(owner(), 0, DEFAULT_GAS, user1(), transfer_amount),
        Err(FtError::InsufficientAuthorizationPayment)
    );
}

#[test]
fn test_transfer_call_panics_on_non_registered_sender() {
    let mut contract = setup();
    let transfer_amount = TOTAL_SUPPLY / 10;
    assert_eq!(
        contract.ft_transfer_call(user1(), 1, DEFAULT_GAS, user1(), transfer_amount),
        Err(FtError::InvalidRequest)
    );
}

#[test]
fn test_transfer_call_panics_on_non_registered_receiver() {
    let mut contract = setup();
    let transfer_amount = TOTAL_SUPPLY / 10;
    assert_eq!(
        contract.ft_transfer_call(owner(), 1, DEFAULT_GAS, user1(), transfer_amount),
        Err(FtError::NotRegistered)
    );
}

#[test]
fn test_transfer_call_panics_on_amount_greater_than_balance() {
    let mut contract = setup();
    register(&mut contract, user1());
    let transfer_amount = TOTAL_SUPPLY + 10;
    assert_eq!(
        contract.ft_transfer_call(owner(), 1, DEFAULT_GAS, user1(), transfer_amount),
        Err(FtError::InsufficientBalance)
    );
}

#[test]
fn test_transfer_call_panics_on_unsufficient_gas() {
    let mut contract = setup();
    register(&mut contract, user1());
    let transfer_amount = TOTAL_SUPPLY / 10;
    assert_eq!(
        contract.ft_transfer_call(owner(), 1, 10_000_000_000_000, user1(), transfer_amount),
        Err(FtError::InsufficientGas)
    );
    assert_eq!(contract.ft_balance_of(owner()), TOTAL_SUPPLY);
}

#[test]
fn test_update_owner_success() {
    let mut contract = setup();
    let new_owner = "bob.testnet".to_string();
    let result = contract.update_owner(owner(), 1, new_owner.clone());
    assert_eq!(result, Ok(true), "Owner should be updated successfully");
    assert_eq!(*contract.owner_id(), new_owner);
}

#[test]
fn test_update_owner_only_owner_can_call() {
    let mut contract = setup();
    let old_owner = "alice.testnet".to_string();
    let new_owner = "bob.testnet".to_string();
    assert_eq!(
        contract.update_owner(old_owner, 1, new_owner),
        Err(FtError::NotOwner)
    );
    assert_eq!(*contract.owner_id(), owner());
}
