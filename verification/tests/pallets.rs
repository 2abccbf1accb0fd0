use ledger_runtime::balances;
use ledger_runtime::support::{Dispatch, DispatchError};
use ledger_runtime::system;

#[test]
fn init_balances() {
    let mut balances = balances::Pallet::new();
    assert_eq!(balances.balance(&"alice".to_string()), 0);
    balances.set_balance(&"alice".to_string(), 100);
    assert_eq!(balances.balance(&"alice".to_string()), 100);
    assert_eq!(balances.balance(&"bob".to_string()), 0);
}

#[test]
fn transfer_balance() {
    let mut balances = balances::Pallet::new();
    balances.set_balance(&"alice".to_string(), 0);
    balances.set_balance(&"bob".to_string(), 0);
    assert_eq!(
        balances.transfer("alice".to_string(), "bob".to_string(), 10),
        Err(DispatchError::InsufficientFunds)
    );

    balances.set_balance(&"alice".to_string(), 10);
    let _ = balances.transfer("alice".to_string(), "bob".to_string(), 10);
    assert_eq!(balances.balance(&"bob".to_string()), 10);
    assert_eq!(balances.balance(&"alice".to_string()), 0)
}

#[test]
fn init_system() {
    let mut system = system::Pallet::new();
    assert_eq!(system.block_number(), 0);

    system.inc_block_number();
    assert_eq!(system.block_number(), 1);

    system.inc_nonce(&"alice".to_string());
    assert_eq!(system.nonce(&"alice".to_string()), 1);
}

#[test]
fn set_balance_round_trip() {
    let mut balances = balances::Pallet::new();
    balances.set_balance(&"alice".to_string(), 42);
    assert_eq!(balances.balance(&"alice".to_string()), 42);
    balances.set_balance(&"alice".to_string(), 7);
    assert_eq!(balances.balance(&"alice".to_string()), 7);
}

#[test]
fn transfer_conserves_total() {
    let mut balances = balances::Pallet::new();
    balances.set_balance(&"alice".to_string(), 60);
    balances.set_balance(&"bob".to_string(), 40);
    assert_eq!(
        balances.transfer("alice".to_string(), "bob".to_string(), 25),
        Ok(())
    );
    assert_eq!(balances.balance(&"alice".to_string()), 35);
    assert_eq!(balances.balance(&"bob".to_string()), 65);
    let total = balances.balance(&"alice".to_string()) + balances.balance(&"bob".to_string());
    assert_eq!(total, 100);
}

#[test]
fn self_transfer_keeps_balance() {
    let mut balances = balances::Pallet::new();
    balances.set_balance(&"alice".to_string(), 50);
    assert_eq!(
        balances.transfer("alice".to_string(), "alice".to_string(), 20),
        Ok(())
    );
    assert_eq!(balances.balance(&"alice".to_string()), 50);
}

#[test]
fn transfer_overflow_is_rejected() {
    let mut balances = balances::Pallet::new();
    balances.set_balance(&"alice".to_string(), 5);
    balances.set_balance(&"bob".to_string(), u128::MAX);
    assert_eq!(
        balances.transfer("alice".to_string(), "bob".to_string(), 1),
        Err(DispatchError::Overflow)
    );
    assert_eq!(balances.balance(&"alice".to_string()), 5);
    assert_eq!(balances.balance(&"bob".to_string()), u128::MAX);
}

#[test]
fn balances_dispatch_routes_transfer() {
    let mut balances = balances::Pallet::new();
    balances.set_balance(&"alice".to_string(), 30);
    let call = balances::Call::Transfer {
        to: "bob".to_string(),
        amount: 12,
    };
    assert_eq!(balances.dispatch("alice".to_string(), call), Ok(()));
    assert_eq!(balances.balance(&"alice".to_string()), 18);
    assert_eq!(balances.balance(&"bob".to_string()), 12);
}

#[test]
fn self_transfer_with_insufficient_funds_is_rejected() {
    let mut balances = balances::Pallet::new();
    balances.set_balance(&"alice".to_string(), 3);
    assert_eq!(
        balances.transfer("alice".to_string(), "alice".to_string(), 4),
        Err(DispatchError::InsufficientFunds)
    );
    assert_eq!(balances.balance(&"alice".to_string()), 3);
}

#[test]
fn self_transfer_overflow_is_rejected() {
    let mut balances = balances::Pallet::new();
    balances.set_balance(&"alice".to_string(), u128::MAX);
    assert_eq!(
        balances.transfer("alice".to_string(), "alice".to_string(), 1),
        Err(DispatchError::Overflow)
    );
    assert_eq!(balances.balance(&"alice".to_string()), u128::MAX);
}

#[test]
fn block_number_saturates_at_the_top() {
    let mut system = system::Pallet {
        block_number: u32::MAX,
        nonce: Vec::new(),
    };
    system.inc_block_number();
    assert_eq!(system.block_number(), u32::MAX);
}

#[test]
fn nonce_saturates_at_the_top() {
    let mut system = system::Pallet {
        block_number: 0,
        nonce: vec![("alice".to_string(), u32::MAX)],
    };
    system.inc_nonce(&"alice".to_string());
    assert_eq!(system.nonce(&"alice".to_string()), u32::MAX);
}

#[test]
fn unknown_accounts_read_zero() {
    let balances = balances::Pallet::new();
    let system = system::Pallet::new();
    assert_eq!(balances.balance(&"nobody".to_string()), 0);
    assert_eq!(system.nonce(&"nobody".to_string()), 0);
}
