//! The dispatcher's operations, their error surface, and the sell
//! protocol's all-or-nothing behaviour.

use cidacake::address::{derive_history_address, derive_product_address};
use cidacake::dispatch::{finish_sell, process_instruction, Accounts, Outcome, PendingSale};
use cidacake::errors::CakeError;
use cidacake::records::{CakeState, Product, STATE_LEN};

const PROGRAM_ID: [u8; 32] = [9u8; 32];
const OWNER: [u8; 32] = [1u8; 32];
const BUYER: [u8; 32] = [2u8; 32];
const INTRUDER: [u8; 32] = [3u8; 32];

fn fresh_env(caller: [u8; 32]) -> Accounts {
    Accounts {
        caller: caller.to_vec(),
        shop_data: vec![0u8; STATE_LEN],
        product_address: Vec::new(),
        product_data: Vec::new(),
        buyer: BUYER.to_vec(),
        history_address: Vec::new(),
    }
}

fn add_product_payload(name: &str, description: &str, price: u64, stock: u64) -> Vec<u8> {
    let mut v = vec![1u8];
    let mut n = name.as_bytes().to_vec();
    n.resize(32, 0);
    v.extend_from_slice(&n);
    let mut d = description.as_bytes().to_vec();
    d.resize(128, 0);
    v.extend_from_slice(&d);
    v.extend_from_slice(&price.to_le_bytes());
    v.extend_from_slice(&stock.to_le_bytes());
    v
}

fn two_u64_payload(opcode: u8, a: u64, b: u64) -> Vec<u8> {
    let mut v = vec![opcode];
    v.extend_from_slice(&a.to_le_bytes());
    v.extend_from_slice(&b.to_le_bytes());
    v
}

/// An initialized shop owned by `OWNER` with one product in stock.
fn shop_with_product(price: u64, stock: u64) -> Accounts {
    let mut env = fresh_env(OWNER);
    process_instruction(&PROGRAM_ID, &mut env, &[0u8]).unwrap();
    let (address, _) = derive_product_address(&PROGRAM_ID, 0).unwrap();
    env.product_address = address;
    let payload = add_product_payload("Cake", "chocolate", price, stock);
    match process_instruction(&PROGRAM_ID, &mut env, &payload).unwrap() {
        Outcome::Created { data, .. } => env.product_data = data,
        other => panic!("expected a created product, got {:?}", outcome_tag(&other)),
    }
    env
}

fn outcome_tag(o: &Outcome) -> &'static str {
    match o {
        Outcome::Done => "Done",
        Outcome::Created { .. } => "Created",
        Outcome::AwaitTransfer { .. } => "AwaitTransfer",
    }
}

#[test]
fn initialize_writes_fresh_state() {
    let mut env = fresh_env(OWNER);
    let outcome = process_instruction(&PROGRAM_ID, &mut env, &[0u8]).unwrap();
    assert!(matches!(outcome, Outcome::Done));
    let state = CakeState::unpack_from_slice(&env.shop_data).unwrap();
    assert_eq!(state.owner, OWNER.to_vec());
    assert_eq!(state.product_counter, 0);
    assert_eq!(state.history_counter, 0);
}

#[test]
fn initialize_twice_rejected_and_unchanged() {
    let mut env = fresh_env(OWNER);
    process_instruction(&PROGRAM_ID, &mut env, &[0u8]).unwrap();
    let before = env.shop_data.clone();
    let err = process_instruction(&PROGRAM_ID, &mut env, &[0u8]).unwrap_err();
    assert_eq!(err, CakeError::AlreadyInitialized);
    assert_eq!(env.shop_data, before);
}

#[test]
fn initialize_wrong_slot_size_rejected() {
    let mut env = fresh_env(OWNER);
    env.shop_data = vec![0u8; 47];
    let err = process_instruction(&PROGRAM_ID, &mut env, &[0u8]).unwrap_err();
    assert_eq!(err, CakeError::SizeMismatch);
}

#[test]
fn add_product_assigns_id_and_advances_counter() {
    let env = shop_with_product(1_000_000, 100);
    let product = Product::unpack_from_slice(&env.product_data).unwrap();
    assert_eq!(product.id, 0);
    assert_eq!(product.price, 1_000_000);
    assert_eq!(product.stock, 100);
    let state = CakeState::unpack_from_slice(&env.shop_data).unwrap();
    assert_eq!(state.product_counter, 1);
    assert_eq!(state.history_counter, 0);
}

#[test]
fn add_product_wrong_address_rejected() {
    let mut env = fresh_env(OWNER);
    process_instruction(&PROGRAM_ID, &mut env, &[0u8]).unwrap();
    env.product_address = vec![0u8; 32];
    let payload = add_product_payload("Cake", "chocolate", 1, 1);
    let err = process_instruction(&PROGRAM_ID, &mut env, &payload).unwrap_err();
    assert_eq!(err, CakeError::InvalidAddress);
}

#[test]
fn add_stock_raises_stock() {
    let mut env = shop_with_product(5, 10);
    let outcome = process_instruction(&PROGRAM_ID, &mut env, &two_u64_payload(2, 0, 15)).unwrap();
    assert!(matches!(outcome, Outcome::Done));
    let product = Product::unpack_from_slice(&env.product_data).unwrap();
    assert_eq!(product.stock, 25);
}

#[test]
fn add_stock_overflow_rejected() {
    let mut env = shop_with_product(5, u64::MAX - 1);
    let before = env.product_data.clone();
    let err = process_instruction(&PROGRAM_ID, &mut env, &two_u64_payload(2, 0, 2)).unwrap_err();
    assert_eq!(err, CakeError::ArithmeticOverflow);
    assert_eq!(env.product_data, before);
}

#[test]
fn update_price_replaces_price() {
    let mut env = shop_with_product(5, 10);
    process_instruction(&PROGRAM_ID, &mut env, &two_u64_payload(3, 0, 42)).unwrap();
    let product = Product::unpack_from_slice(&env.product_data).unwrap();
    assert_eq!(product.price, 42);
    assert_eq!(product.stock, 10);
}

#[test]
fn update_price_by_stranger_rejected() {
    let mut env = shop_with_product(5, 10);
    let before = env.product_data.clone();
    env.caller = INTRUDER.to_vec();
    let err = process_instruction(&PROGRAM_ID, &mut env, &two_u64_payload(3, 0, 42)).unwrap_err();
    assert_eq!(err, CakeError::Unauthorized);
    assert_eq!(env.product_data, before);
    let product = Product::unpack_from_slice(&env.product_data).unwrap();
    assert_eq!(product.price, 5);
}

#[test]
fn sell_asks_for_the_exact_total() {
    let mut env = shop_with_product(1_000_000, 100);
    let before_product = env.product_data.clone();
    let before_shop = env.shop_data.clone();
    let outcome = process_instruction(&PROGRAM_ID, &mut env, &two_u64_payload(4, 0, 10)).unwrap();
    match outcome {
        Outcome::AwaitTransfer { sale } => {
            assert_eq!(
                sale,
                PendingSale { product_id: 0, quantity: 10, total: 10_000_000 }
            );
        },
        other => panic!("expected a transfer request, got {:?}", outcome_tag(&other)),
    }
    // Payment comes before any local mutation.
    assert_eq!(env.product_data, before_product);
    assert_eq!(env.shop_data, before_shop);
}

#[test]
fn oversell_rejected_and_stock_unchanged() {
    let mut env = shop_with_product(1_000_000, 5);
    let before = env.product_data.clone();
    let err = process_instruction(&PROGRAM_ID, &mut env, &two_u64_payload(4, 0, 6)).unwrap_err();
    assert_eq!(err, CakeError::InsufficientStock);
    assert_eq!(env.product_data, before);
    assert_eq!(Product::unpack_from_slice(&env.product_data).unwrap().stock, 5);
}

#[test]
fn sell_total_overflow_rejected() {
    let mut env = shop_with_product(u64::MAX, 3);
    let err = process_instruction(&PROGRAM_ID, &mut env, &two_u64_payload(4, 0, 2)).unwrap_err();
    assert_eq!(err, CakeError::ArithmeticOverflow);
}

#[test]
fn failed_transfer_leaves_everything_untouched() {
    let mut env = shop_with_product(1_000_000, 100);
    let sale = PendingSale { product_id: 0, quantity: 10, total: 10_000_000 };
    let (haddr, _) = derive_history_address(&PROGRAM_ID, &BUYER, 0, 0).unwrap();
    env.history_address = haddr;
    let before_product = env.product_data.clone();
    let before_shop = env.shop_data.clone();
    let err = finish_sell(&PROGRAM_ID, &mut env, &sale, false, 1_700_000_000).unwrap_err();
    assert_eq!(err, CakeError::ExternalTransferFailed);
    assert_eq!(env.product_data, before_product);
    assert_eq!(env.shop_data, before_shop);
    let state = CakeState::unpack_from_slice(&env.shop_data).unwrap();
    assert_eq!(state.history_counter, 0);
}

#[test]
fn finish_sell_rejects_mismatched_total() {
    let mut env = shop_with_product(1_000_000, 100);
    let sale = PendingSale { product_id: 0, quantity: 10, total: 1 };
    let (haddr, _) = derive_history_address(&PROGRAM_ID, &BUYER, 0, 0).unwrap();
    env.history_address = haddr;
    let before = env.product_data.clone();
    let err = finish_sell(&PROGRAM_ID, &mut env, &sale, true, 0).unwrap_err();
    assert_eq!(err, CakeError::InvalidPayload);
    assert_eq!(env.product_data, before);
}

#[test]
fn finish_sell_wrong_history_address_rejected() {
    let mut env = shop_with_product(1_000_000, 100);
    let sale = PendingSale { product_id: 0, quantity: 10, total: 10_000_000 };
    env.history_address = vec![0u8; 32];
    let err = finish_sell(&PROGRAM_ID, &mut env, &sale, true, 0).unwrap_err();
    assert_eq!(err, CakeError::InvalidAddress);
}

#[test]
fn migrate_history_backfills_one_record() {
    let mut env = fresh_env(OWNER);
    process_instruction(&PROGRAM_ID, &mut env, &[0u8]).unwrap();
    let (haddr, _) = derive_history_address(&PROGRAM_ID, &BUYER, 7, 0).unwrap();
    env.history_address = haddr.clone();
    let mut payload = vec![5u8];
    payload.extend_from_slice(&7u64.to_le_bytes());
    payload.extend_from_slice(&2u64.to_le_bytes());
    payload.extend_from_slice(&999u64.to_le_bytes());
    payload.extend_from_slice(&BUYER);
    payload.extend_from_slice(&(-5i64).to_le_bytes());
    let outcome = process_instruction(&PROGRAM_ID, &mut env, &payload).unwrap();
    match outcome {
        Outcome::Created { address, data, .. } => {
            assert_eq!(address, haddr);
            let entry = cidacake::records::PurchaseHistory::unpack_from_slice(&data).unwrap();
            assert_eq!(entry.product_id, 7);
            assert_eq!(entry.quantity, 2);
            assert_eq!(entry.total_price, 999);
            assert_eq!(entry.buyer, BUYER.to_vec());
            assert_eq!(entry.timestamp, -5);
        },
        other => panic!("expected a created record, got {:?}", outcome_tag(&other)),
    }
    let state = CakeState::unpack_from_slice(&env.shop_data).unwrap();
    assert_eq!(state.history_counter, 1);
}

#[test]
fn close_shop_zeroes_the_state_slot() {
    let mut env = shop_with_product(5, 10);
    let outcome = process_instruction(&PROGRAM_ID, &mut env, &[6u8]).unwrap();
    assert!(matches!(outcome, Outcome::Done));
    assert_eq!(env.shop_data, vec![0u8; STATE_LEN]);
}

#[test]
fn close_product_zeroes_the_product_slot() {
    let mut env = shop_with_product(5, 10);
    let mut payload = vec![7u8];
    payload.extend_from_slice(&0u64.to_le_bytes());
    let outcome = process_instruction(&PROGRAM_ID, &mut env, &payload).unwrap();
    assert!(matches!(outcome, Outcome::Done));
    assert_eq!(env.product_data, vec![0u8; cidacake::records::PRODUCT_LEN]);
}

#[test]
fn close_by_stranger_rejected() {
    let mut env = shop_with_product(5, 10);
    env.caller = INTRUDER.to_vec();
    let err = process_instruction(&PROGRAM_ID, &mut env, &[6u8]).unwrap_err();
    assert_eq!(err, CakeError::Unauthorized);
}

#[test]
fn empty_instruction_rejected() {
    let mut env = fresh_env(OWNER);
    let err = process_instruction(&PROGRAM_ID, &mut env, &[]).unwrap_err();
    assert_eq!(err, CakeError::InvalidPayload);
}

#[test]
fn unknown_opcode_rejected() {
    let mut env = fresh_env(OWNER);
    let err = process_instruction(&PROGRAM_ID, &mut env, &[8u8]).unwrap_err();
    assert_eq!(err, CakeError::UnknownOpcode);
    let err = process_instruction(&PROGRAM_ID, &mut env, &[255u8]).unwrap_err();
    assert_eq!(err, CakeError::UnknownOpcode);
}

#[test]
fn short_payload_rejected_not_sliced() {
    let mut env = shop_with_product(5, 10);
    // Sell wants 16 payload bytes; hand it 15.
    let mut payload = vec![4u8];
    payload.extend_from_slice(&[0u8; 15]);
    let err = process_instruction(&PROGRAM_ID, &mut env, &payload).unwrap_err();
    assert_eq!(err, CakeError::InvalidPayload);
}
