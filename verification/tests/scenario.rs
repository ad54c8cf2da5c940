//! End-to-end walks through the shop's life: create, stock, sell, audit.

use cidacake::address::{derive_history_address, derive_product_address};
use cidacake::dispatch::{finish_sell, process_instruction, Accounts, Outcome};
use cidacake::errors::CakeError;
use cidacake::records::{CakeState, Product, PurchaseHistory, STATE_LEN};

const PROGRAM_ID: [u8; 32] = [9u8; 32];
const OWNER_A: [u8; 32] = [1u8; 32];
const BUYER_B: [u8; 32] = [2u8; 32];
const CALLER_C: [u8; 32] = [3u8; 32];

fn add_product_payload(name: &str, description: &str, price: u64, stock: u64) -> Vec<u8> {
    let mut v = vec![1u8];
    let mut n = name.as_bytes().to_vec();
    n.resize(32, 0);
    v.extend_from_slice(&n);
    let mut d = description.as_bytes().to_vec();
    d.resize(128, 0);
    v.extend_from_slice(&d);
    v.extend_from_slice(&price.to_le_bytes());
    v.extend_from_slice(&stock.to_le_bytes());
    v
}

fn sell_payload(product_id: u64, quantity: u64) -> Vec<u8> {
    let mut v = vec![4u8];
    v.extend_from_slice(&product_id.to_le_bytes());
    v.extend_from_slice(&quantity.to_le_bytes());
    v
}

#[test]
fn full_shop_lifecycle() {
    // Initialize the shop, owner = A.
    let mut env = Accounts {
        caller: OWNER_A.to_vec(),
        shop_data: vec![0u8; STATE_LEN],
        product_address: Vec::new(),
        product_data: Vec::new(),
        buyer: BUYER_B.to_vec(),
        history_address: Vec::new(),
    };
    process_instruction(&PROGRAM_ID, &mut env, &[0u8]).unwrap();
    let state = CakeState::unpack_from_slice(&env.shop_data).unwrap();
    assert_eq!(state.owner, OWNER_A.to_vec());

    // Add a product: id 0 is created and the counter advances to 1.
    let (product_address, _) = derive_product_address(&PROGRAM_ID, 0).unwrap();
    env.product_address = product_address.clone();
    let payload = add_product_payload("Cake", "chocolate", 1_000_000, 100);
    let created = process_instruction(&PROGRAM_ID, &mut env, &payload).unwrap();
    let product_data = match created {
        Outcome::Created { address, data, .. } => {
            assert_eq!(address, product_address);
            data
        },
        _ => panic!("expected the product record to be created"),
    };
    env.product_data = product_data;
    let product = Product::unpack_from_slice(&env.product_data).unwrap();
    assert_eq!(product.id, 0);
    let mut expected_name = b"Cake".to_vec();
    expected_name.resize(32, 0);
    assert_eq!(product.name, expected_name);
    assert_eq!(product.price, 1_000_000);
    assert_eq!(product.stock, 100);
    assert_eq!(
        CakeState::unpack_from_slice(&env.shop_data).unwrap().product_counter,
        1
    );

    // Sell 10 units to buyer B: the dispatcher asks for the payment first.
    let request = process_instruction(&PROGRAM_ID, &mut env, &sell_payload(0, 10)).unwrap();
    let sale = match request {
        Outcome::AwaitTransfer { sale } => sale,
        _ => panic!("expected a transfer request"),
    };
    assert_eq!(sale.total, 10_000_000);

    // The payment succeeds; the sale is completed.
    let (history_address, _) = derive_history_address(&PROGRAM_ID, &BUYER_B, 0, 0).unwrap();
    env.history_address = history_address.clone();
    let finished = finish_sell(&PROGRAM_ID, &mut env, &sale, true, 1_700_000_000).unwrap();
    let history_data = match finished {
        Outcome::Created { address, data, .. } => {
            assert_eq!(address, history_address);
            data
        },
        _ => panic!("expected the history record to be created"),
    };

    // Stock fell to 90, the history counter advanced to 1, and the record
    // carries the exact sale.
    assert_eq!(Product::unpack_from_slice(&env.product_data).unwrap().stock, 90);
    let state = CakeState::unpack_from_slice(&env.shop_data).unwrap();
    assert_eq!(state.history_counter, 1);
    let entry = PurchaseHistory::unpack_from_slice(&history_data).unwrap();
    assert_eq!(entry.product_id, 0);
    assert_eq!(entry.quantity, 10);
    assert_eq!(entry.total_price, 10_000_000);
    assert_eq!(entry.buyer, BUYER_B.to_vec());
    assert_eq!(entry.timestamp, 1_700_000_000);
}

#[test]
fn stranger_cannot_update_price() {
    let mut env = Accounts {
        caller: OWNER_A.to_vec(),
        shop_data: vec![0u8; STATE_LEN],
        product_address: Vec::new(),
        product_data: Vec::new(),
        buyer: BUYER_B.to_vec(),
        history_address: Vec::new(),
    };
    process_instruction(&PROGRAM_ID, &mut env, &[0u8]).unwrap();
    let (product_address, _) = derive_product_address(&PROGRAM_ID, 0).unwrap();
    env.product_address = product_address;
    let payload = add_product_payload("Cake", "chocolate", 1_000_000, 100);
    match process_instruction(&PROGRAM_ID, &mut env, &payload).unwrap() {
        Outcome::Created { data, .. } => env.product_data = data,
        _ => panic!("expected the product record to be created"),
    }

    // Caller C is not the owner: update-price fails, the price stands.
    env.caller = CALLER_C.to_vec();
    let mut update = vec![3u8];
    update.extend_from_slice(&0u64.to_le_bytes());
    update.extend_from_slice(&1u64.to_le_bytes());
    let err = process_instruction(&PROGRAM_ID, &mut env, &update).unwrap_err();
    assert_eq!(err, CakeError::Unauthorized);
    assert_eq!(
        Product::unpack_from_slice(&env.product_data).unwrap().price,
        1_000_000
    );
}
