use ledger_runtime::balances;
use ledger_runtime::support::DispatchError;
use ledger_runtime::{Block, Extrinsic, Header, Runtime, RuntimeCall};

fn transfer_from(caller: &str, to: &str, amount: u128) -> Extrinsic {
    Extrinsic {
        caller: caller.to_string(),
        call: RuntimeCall::Balances(balances::Call::Transfer {
            to: to.to_string(),
            amount,
        }),
    }
}

#[test]
fn end_to_end_block() {
    let mut runtime = Runtime::new();
    runtime.balances.set_balance(&"alice".to_string(), 100);

    let block = Block {
        header: Header { block_number: 1 },
        extrinsics: vec![
            transfer_from("alice", "bob", 30),
            transfer_from("alice", "charlie", 20),
        ],
    };
    assert_eq!(runtime.execute_block(block), Ok(()));
    assert_eq!(runtime.balances.balance(&"alice".to_string()), 50);
    assert_eq!(runtime.balances.balance(&"bob".to_string()), 30);
    assert_eq!(runtime.balances.balance(&"charlie".to_string()), 20);
    assert_eq!(runtime.system.nonce(&"alice".to_string()), 2);
    assert_eq!(runtime.system.block_number(), 1);
}

#[test]
fn mismatched_block_number_is_fatal() {
    let mut runtime = Runtime::new();
    runtime.balances.set_balance(&"alice".to_string(), 100);

    let block = Block {
        header: Header { block_number: 5 },
        extrinsics: vec![transfer_from("alice", "bob", 30)],
    };
    assert_eq!(
        runtime.execute_block(block),
        Err(DispatchError::BlockNumberMismatch)
    );
    // No extrinsic was applied: balances and nonces are untouched.
    assert_eq!(runtime.balances.balance(&"alice".to_string()), 100);
    assert_eq!(runtime.balances.balance(&"bob".to_string()), 0);
    assert_eq!(runtime.system.nonce(&"alice".to_string()), 0);
    // The block number had already been advanced when validation failed.
    assert_eq!(runtime.system.block_number(), 1);
}

#[test]
fn nonce_advances_even_when_dispatch_fails() {
    let mut runtime = Runtime::new();
    runtime.balances.set_balance(&"alice".to_string(), 10);

    // The middle extrinsic fails with insufficient funds; the block still
    // succeeds, the failing extrinsic is skipped, and every extrinsic bumps
    // its caller's nonce.
    let block = Block {
        header: Header { block_number: 1 },
        extrinsics: vec![
            transfer_from("alice", "bob", 4),
            transfer_from("alice", "bob", 1000),
            transfer_from("alice", "bob", 6),
        ],
    };
    assert_eq!(runtime.execute_block(block), Ok(()));
    assert_eq!(runtime.balances.balance(&"alice".to_string()), 0);
    assert_eq!(runtime.balances.balance(&"bob".to_string()), 10);
    assert_eq!(runtime.system.nonce(&"alice".to_string()), 3);
}

#[test]
fn consecutive_blocks_advance_the_chain() {
    let mut runtime = Runtime::new();
    runtime.balances.set_balance(&"alice".to_string(), 9);

    let first = Block {
        header: Header { block_number: 1 },
        extrinsics: vec![transfer_from("alice", "bob", 4)],
    };
    let second = Block {
        header: Header { block_number: 2 },
        extrinsics: vec![transfer_from("bob", "alice", 1)],
    };
    assert_eq!(runtime.execute_block(first), Ok(()));
    assert_eq!(runtime.execute_block(second), Ok(()));
    assert_eq!(runtime.system.block_number(), 2);
    assert_eq!(runtime.balances.balance(&"alice".to_string()), 6);
    assert_eq!(runtime.balances.balance(&"bob".to_string()), 3);
    assert_eq!(runtime.system.nonce(&"alice".to_string()), 1);
    assert_eq!(runtime.system.nonce(&"bob".to_string()), 1);
}

#[test]
fn empty_block_only_advances_the_number() {
    let mut runtime = Runtime::new();
    let block = Block {
        header: Header { block_number: 1 },
        extrinsics: vec![],
    };
    assert_eq!(runtime.execute_block(block), Ok(()));
    assert_eq!(runtime.system.block_number(), 1);
    assert_eq!(runtime.balances.balance(&"alice".to_string()), 0);
}
