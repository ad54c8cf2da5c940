//! The record codec: three fixed-length binary record kinds, each with a
//! byte-exact little-endian layout, an encoder and a checked decoder.
//!
//! Records live in fixed-capacity storage slots, so every kind has one exact
//! byte length; decoding fails on any other length and encoding always
//! produces exactly that many bytes.

use vstd::prelude::*;
use vstd::bytes::{spec_u64_from_le_bytes, spec_u64_to_le_bytes, u64_to_le_bytes};
use crate::bytes_util::{
    i64_to_le_bytes, read_i64, read_u64, spec_i64_from_le_bytes, spec_i64_to_le_bytes,
    subrange_vec,
};
use crate::errors::CakeError;

verus! {

/// Exact stored length of a `CakeState` record.
pub const STATE_LEN: usize = 48;

/// Exact stored length of a `Product` record.
pub const PRODUCT_LEN: usize = 184;

/// Exact stored length of a `PurchaseHistory` record; the final byte is
/// reserved padding, written as zero and ignored when decoding.
pub const HISTORY_LEN: usize = 65;

/// The one per-shop record: the owning identity and the two monotonically
/// non-decreasing counters that seed every derived address.
#[derive(Debug)]
pub struct CakeState {
    /// 32-byte identity set once at initialization.
    pub owner: Vec<u8>,
    /// Next unused product id.
    pub product_counter: u64,
    /// Next unused history sequence number.
    pub history_counter: u64,
}

/// Mathematical image of a `CakeState`.
pub struct CakeStateView {
    pub owner: Seq<u8>,
    pub product_counter: u64,
    pub history_counter: u64,
}

impl View for CakeState {
    type V = CakeStateView;

    open spec fn view(&self) -> CakeStateView {
        CakeStateView {
            owner: self.owner@,
            product_counter: self.product_counter,
            history_counter: self.history_counter,
        }
    }
}

impl CakeStateView {
    pub open spec fn wf(self) -> bool {
        self.owner.len() == 32
    }

    /// Layout: owner at 0..32, product_counter at 32..40,
    /// history_counter at 40..48.
    pub open spec fn enc(self) -> Seq<u8> {
        self.owner + spec_u64_to_le_bytes(self.product_counter) + spec_u64_to_le_bytes(
            self.history_counter,
        )
    }
}

pub open spec fn spec_decode_state(b: Seq<u8>) -> Option<CakeStateView> {
    if b.len() == STATE_LEN {
        Some(
            CakeStateView {
                owner: b.subrange(0, 32),
                product_counter: spec_u64_from_le_bytes(b.subrange(32, 40)),
                history_counter: spec_u64_from_le_bytes(b.subrange(40, 48)),
            },
        )
    } else {
        None
    }
}

/// Encoding a well-formed state and decoding it back returns it unchanged.
pub proof fn lemma_state_roundtrip(v: CakeStateView)
    requires
        v.wf(),
    ensures
        v.enc().len() == STATE_LEN,
        spec_decode_state(v.enc()) == Some(v),
{
    vstd::bytes::lemma_auto_spec_u64_to_from_le_bytes();
    let b = v.enc();
    assert(b.subrange(0, 32) =~= v.owner);
    assert(b.subrange(32, 40) =~= spec_u64_to_le_bytes(v.product_counter));
    assert(b.subrange(40, 48) =~= spec_u64_to_le_bytes(v.history_counter));
}

impl CakeState {
    pub open spec fn wf(self) -> bool {
        self@.wf()
    }

    /// Encode into the fixed-capacity slot `dst`, which must already have
    /// the record's exact length.
    pub fn pack_into_slice(&self, dst: &mut Vec<u8>)
        requires
            self.wf(),
            old(dst)@.len() == STATE_LEN,
        ensures
            final(dst)@ == self@.enc(),
            final(dst)@.len() == STATE_LEN,
    {
        proof {
            lemma_state_roundtrip(self@);
        }
        let mut out: Vec<u8> = Vec::new();
        out.extend_from_slice(self.owner.as_slice());
        let pc = u64_to_le_bytes(self.product_counter);
        out.extend_from_slice(pc.as_slice());
        let hc = u64_to_le_bytes(self.history_counter);
        out.extend_from_slice(hc.as_slice());
        proof {
            assert(out@ =~= self@.enc());
        }
        *dst = out;
    }

    /// Decode a stored slot; fails exactly when the slot's length is not the
    /// record's exact length.
    pub fn unpack_from_slice(src: &[u8]) -> (r: Result<CakeState, CakeError>)
        ensures
            match r {
                Ok(s) => spec_decode_state(src@) == Some(s@) && s.wf(),
                Err(e) => spec_decode_state(src@) is None && e == CakeError::SizeMismatch,
            },
    {
        if src.len() != STATE_LEN {
            return Err(CakeError::SizeMismatch);
        }
        let owner = subrange_vec(src, 0, 32);
        let product_counter = read_u64(src, 32);
        let history_counter = read_u64(src, 40);
        Ok(CakeState { owner, product_counter, history_counter })
    }
}

/// One product of the shop's inventory, created at the address derived from
/// its id and mutated only through the add-stock and update-price operations.
#[derive(Debug)]
pub struct Product {
    /// Assigned from the shop's product counter at creation, immutable.
    pub id: u64,
    /// Fixed 32-byte text field, zero-padded.
    pub name: Vec<u8>,
    /// Fixed 128-byte text field, zero-padded.
    pub description: Vec<u8>,
    pub price: u64,
    pub stock: u64,
}

/// Mathematical image of a `Product`.
pub struct ProductView {
    pub id: u64,
    pub name: Seq<u8>,
    pub description: Seq<u8>,
    pub price: u64,
    pub stock: u64,
}

impl View for Product {
    type V = ProductView;

    open spec fn view(&self) -> ProductView {
        ProductView {
            id: self.id,
            name: self.name@,
            description: self.description@,
            price: self.price,
            stock: self.stock,
        }
    }
}

impl ProductView {
    pub open spec fn wf(self) -> bool {
        self.name.len() == 32 && self.description.len() == 128
    }

    /// Layout: id at 0..8, name at 8..40, description at 40..168,
    /// price at 168..176, stock at 176..184.
    pub open spec fn enc(self) -> Seq<u8> {
        spec_u64_to_le_bytes(self.id) + self.name + self.description + spec_u64_to_le_bytes(
            self.price,
        ) + spec_u64_to_le_bytes(self.stock)
    }
}

pub open spec fn spec_decode_product(b: Seq<u8>) -> Option<ProductView> {
    if b.len() == PRODUCT_LEN {
        Some(
            ProductView {
                id: spec_u64_from_le_bytes(b.subrange(0, 8)),
                name: b.subrange(8, 40),
                description: b.subrange(40, 168),
                price: spec_u64_from_le_bytes(b.subrange(168, 176)),
                stock: spec_u64_from_le_bytes(b.subrange(176, 184)),
            },
        )
    } else {
        None
    }
}

/// Encoding a well-formed product and decoding it back returns it unchanged.
pub proof fn lemma_product_roundtrip(v: ProductView)
    requires
        v.wf(),
    ensures
        v.enc().len() == PRODUCT_LEN,
        spec_decode_product(v.enc()) == Some(v),
{
    vstd::bytes::lemma_auto_spec_u64_to_from_le_bytes();
    let b = v.enc();
    assert(b.subrange(0, 8) =~= spec_u64_to_le_bytes(v.id));
    assert(b.subrange(8, 40) =~= v.name);
    assert(b.subrange(40, 168) =~= v.description);
    assert(b.subrange(168, 176) =~= spec_u64_to_le_bytes(v.price));
    assert(b.subrange(176, 184) =~= spec_u64_to_le_bytes(v.stock));
}

impl Product {
    pub open spec fn wf(self) -> bool {
        self@.wf()
    }

    /// Build a product, fitting the text fields to their fixed widths:
    /// longer input is silently truncated, shorter input is zero-padded.
    pub fn new(id: u64, name: &[u8], description: &[u8], price: u64, stock: u64) -> (p: Product)
        ensures
            p@ == (ProductView {
                id,
                name: crate::bytes_util::spec_fit(name@, 32),
                description: crate::bytes_util::spec_fit(description@, 128),
                price,
                stock,
            }),
            p.wf(),
    {
        Product {
            id,
            name: crate::bytes_util::fit_bytes(name, 32),
            description: crate::bytes_util::fit_bytes(description, 128),
            price,
            stock,
        }
    }

    /// Encode into the fixed-capacity slot `dst`, which must already have
    /// the record's exact length.
    pub fn pack_into_slice(&self, dst: &mut Vec<u8>)
        requires
            self.wf(),
            old(dst)@.len() == PRODUCT_LEN,
        ensures
            final(dst)@ == self@.enc(),
            final(dst)@.len() == PRODUCT_LEN,
    {
        proof {
            lemma_product_roundtrip(self@);
        }
        let mut out: Vec<u8> = Vec::new();
        let id = u64_to_le_bytes(self.id);
        out.extend_from_slice(id.as_slice());
        out.extend_from_slice(self.name.as_slice());
        out.extend_from_slice(self.description.as_slice());
        let price = u64_to_le_bytes(self.price);
        out.extend_from_slice(price.as_slice());
        let stock = u64_to_le_bytes(self.stock);
        out.extend_from_slice(stock.as_slice());
        proof {
            assert(out@ =~= self@.enc());
        }
        *dst = out;
    }

    /// Decode a stored slot; fails exactly when the slot's length is not the
    /// record's exact length.
    pub fn unpack_from_slice(src: &[u8]) -> (r: Result<Product, CakeError>)
        ensures
            match r {
                Ok(p) => spec_decode_product(src@) == Some(p@) && p.wf(),
                Err(e) => spec_decode_product(src@) is None && e == CakeError::SizeMismatch,
            },
    {
        if src.len() != PRODUCT_LEN {
            return Err(CakeError::SizeMismatch);
        }
        let id = read_u64(src, 0);
        let name = subrange_vec(src, 8, 40);
        let description = subrange_vec(src, 40, 168);
        let price = read_u64(src, 168);
        let stock = read_u64(src, 176);
        Ok(Product { id, name, description, price, stock })
    }
}

/// The immutable record of one completed sale, stored at the address derived
/// from the buyer, the product and the shop's history counter.
#[derive(Debug)]
pub struct PurchaseHistory {
    pub product_id: u64,
    pub quantity: u64,
    /// Equals `quantity * price` at the moment of the sale.
    pub total_price: u64,
    /// 32-byte identity of the buyer.
    pub buyer: Vec<u8>,
    /// Seconds, as read from the external time oracle.
    pub timestamp: i64,
}

/// Mathematical image of a `PurchaseHistory`.
pub struct PurchaseHistoryView {
    pub product_id: u64,
    pub quantity: u64,
    pub total_price: u64,
    pub buyer: Seq<u8>,
    pub timestamp: i64,
}

impl View for PurchaseHistory {
    type V = PurchaseHistoryView;

    open spec fn view(&self) -> PurchaseHistoryView {
        PurchaseHistoryView {
            product_id: self.product_id,
            quantity: self.quantity,
            total_price: self.total_price,
            buyer: self.buyer@,
            timestamp: self.timestamp,
        }
    }
}

impl PurchaseHistoryView {
    pub open spec fn wf(self) -> bool {
        self.buyer.len() == 32
    }

    /// Layout: product_id at 0..8, quantity at 8..16, total_price at 16..24,
    /// buyer at 24..56, timestamp at 56..64, one reserved zero byte at 64.
    pub open spec fn enc(self) -> Seq<u8> {
        spec_u64_to_le_bytes(self.product_id) + spec_u64_to_le_bytes(self.quantity)
            + spec_u64_to_le_bytes(self.total_price) + self.buyer + spec_i64_to_le_bytes(
            self.timestamp,
        ) + seq![0u8]
    }
}

pub open spec fn spec_decode_history(b: Seq<u8>) -> Option<PurchaseHistoryView> {
    if b.len() == HISTORY_LEN {
        Some(
            PurchaseHistoryView {
                product_id: spec_u64_from_le_bytes(b.subrange(0, 8)),
                quantity: spec_u64_from_le_bytes(b.subrange(8, 16)),
                total_price: spec_u64_from_le_bytes(b.subrange(16, 24)),
                buyer: b.subrange(24, 56),
                timestamp: spec_i64_from_le_bytes(b.subrange(56, 64)),
            },
        )
    } else {
        None
    }
}

/// Encoding a well-formed history entry and decoding it back returns it
/// unchanged.
pub proof fn lemma_history_roundtrip(v: PurchaseHistoryView)
    requires
        v.wf(),
    ensures
        v.enc().len() == HISTORY_LEN,
        spec_decode_history(v.enc()) == Some(v),
{
    vstd::bytes::lemma_auto_spec_u64_to_from_le_bytes();
    crate::bytes_util::lemma_i64_le_bytes_roundtrip();
    let b = v.enc();
    assert(b.subrange(0, 8) =~= spec_u64_to_le_bytes(v.product_id));
    assert(b.subrange(8, 16) =~= spec_u64_to_le_bytes(v.quantity));
    assert(b.subrange(16, 24) =~= spec_u64_to_le_bytes(v.total_price));
    assert(b.subrange(24, 56) =~= v.buyer);
    assert(b.subrange(56, 64) =~= spec_i64_to_le_bytes(v.timestamp));
}

impl PurchaseHistory {
    pub open spec fn wf(self) -> bool {
        self@.wf()
    }

    /// Encode into the fixed-capacity slot `dst`, which must already have
    /// the record's exact length.
    pub fn pack_into_slice(&self, dst: &mut Vec<u8>)
        requires
            self.wf(),
            old(dst)@.len() == HISTORY_LEN,
        ensures
            final(dst)@ == self@.enc(),
            final(dst)@.len() == HISTORY_LEN,
    {
        proof {
            lemma_history_roundtrip(self@);
        }
        let mut out: Vec<u8> = Vec::new();
        let product_id = u64_to_le_bytes(self.product_id);
        out.extend_from_slice(product_id.as_slice());
        let quantity = u64_to_le_bytes(self.quantity);
        out.extend_from_slice(quantity.as_slice());
        let total_price = u64_to_le_bytes(self.total_price);
        out.extend_from_slice(total_price.as_slice());
        out.extend_from_slice(self.buyer.as_slice());
        let timestamp = i64_to_le_bytes(self.timestamp);
        out.extend_from_slice(timestamp.as_slice());
        out.push(0u8);
        proof {
            assert(out@ =~= self@.enc());
        }
        *dst = out;
    }

    /// Decode a stored slot; fails exactly when the slot's length is not the
    /// record's exact length.
    pub fn unpack_from_slice(src: &[u8]) -> (r: Result<PurchaseHistory, CakeError>)
        ensures
            match r {
                Ok(h) => spec_decode_history(src@) == Some(h@) && h.wf(),
                Err(e) => spec_decode_history(src@) is None && e == CakeError::SizeMismatch,
            },
    {
        if src.len() != HISTORY_LEN {
            return Err(CakeError::SizeMismatch);
        }
        let product_id = read_u64(src, 0);
        let quantity = read_u64(src, 8);
        let total_price = read_u64(src, 16);
        let buyer = subrange_vec(src, 24, 56);
        let timestamp = read_i64(src, 56);
        Ok(PurchaseHistory { product_id, quantity, total_price, buyer, timestamp })
    }
}

} // verus!
