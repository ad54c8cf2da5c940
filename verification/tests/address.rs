//! Deterministic address derivation, checked against the host primitive it
//! wraps.

use cidacake::address::{derive_history_address, derive_product_address};
use solana_program::pubkey::Pubkey;

const PROGRAM_ID: [u8; 32] = [9u8; 32];

#[test]
fn product_address_deterministic() {
    let first = derive_product_address(&PROGRAM_ID, 0).unwrap();
    let second = derive_product_address(&PROGRAM_ID, 0).unwrap();
    assert_eq!(first, second);
}

#[test]
fn history_address_deterministic() {
    let buyer = [2u8; 32];
    let first = derive_history_address(&PROGRAM_ID, &buyer, 0, 0).unwrap();
    let second = derive_history_address(&PROGRAM_ID, &buyer, 0, 0).unwrap();
    assert_eq!(first, second);
}

#[test]
fn differing_keys_give_differing_addresses() {
    let a = derive_product_address(&PROGRAM_ID, 0).unwrap();
    let b = derive_product_address(&PROGRAM_ID, 1).unwrap();
    assert_ne!(a.0, b.0);

    let buyer_b = [2u8; 32];
    let buyer_c = [3u8; 32];
    let h0 = derive_history_address(&PROGRAM_ID, &buyer_b, 0, 0).unwrap();
    let h1 = derive_history_address(&PROGRAM_ID, &buyer_b, 0, 1).unwrap();
    let h2 = derive_history_address(&PROGRAM_ID, &buyer_c, 0, 0).unwrap();
    assert_ne!(h0.0, h1.0);
    assert_ne!(h0.0, h2.0);
}

#[test]
fn namespaces_do_not_collide() {
    let buyer = [2u8; 32];
    let product = derive_product_address(&PROGRAM_ID, 0).unwrap();
    let history = derive_history_address(&PROGRAM_ID, &buyer, 0, 0).unwrap();
    assert_ne!(product.0, history.0);
}

#[test]
fn derivation_matches_host_primitive() {
    let pid = Pubkey::new_from_array(PROGRAM_ID);
    let (expected, expected_bump) =
        Pubkey::find_program_address(&[b"product", &7u64.to_le_bytes()], &pid);
    let (address, bump) = derive_product_address(&PROGRAM_ID, 7).unwrap();
    assert_eq!(address, expected.to_bytes().to_vec());
    assert_eq!(bump, expected_bump);

    let buyer = [2u8; 32];
    let (expected_h, expected_hb) = Pubkey::find_program_address(
        &[b"history", &buyer, &7u64.to_le_bytes(), &3u64.to_le_bytes()],
        &pid,
    );
    let (haddress, hbump) = derive_history_address(&PROGRAM_ID, &buyer, 7, 3).unwrap();
    assert_eq!(haddress, expected_h.to_bytes().to_vec());
    assert_eq!(hbump, expected_hb);
}

#[test]
fn derived_address_is_not_an_input() {
    let (address, _) = derive_product_address(&PROGRAM_ID, 0).unwrap();
    assert_eq!(address.len(), 32);
    assert_ne!(address, PROGRAM_ID.to_vec());
    assert_ne!(address, b"product".to_vec());
}
