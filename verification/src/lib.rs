//! A ledger-resident record store for a small shop: fixed-size binary records
//! (shop state, product entries, purchase history), a byte-exact codec, a
//! deterministic address-derivation scheme, and an authenticated instruction
//! dispatcher whose operations are all-or-nothing.

pub mod address;
pub mod bytes_util;
pub mod dispatch;
pub mod errors;
pub mod instruction;
pub mod laws;
pub mod records;
