//! Deterministic address derivation.
//!
//! A record's storage address is a collision-resistant function of a
//! namespace tag and its key fields, found by a bounded walk over 256
//! candidate disambiguator bytes. The hash-derivation primitive itself is
//! supplied by the host and taken on trust; everything stated here of a
//! derived address flows from the primitive being a function of the seeds
//! and the program id alone.

use vstd::prelude::*;
use vstd::bytes::{spec_u64_to_le_bytes, u64_to_le_bytes};

verus! {

/// What the host's address-derivation walk returns for given seeds and
/// program id: the first valid address and its disambiguator byte, or
/// nothing when all 256 candidates fail. The walk is hash-based and depends
/// on its arguments alone, which is what makes a derived address
/// re-derivable by any later caller.
pub uninterp spec fn pda_walk(seeds: Seq<Seq<u8>>, program_id: Seq<u8>) -> Option<(Seq<u8>, u8)>;

/// Relies on `solana_program::pubkey::Pubkey::try_find_program_address`:
/// a walk over bump seeds 255 down to 0 of a sha256-based derivation with a
/// curve-point check, deterministic in `seeds` and `program_id`, returning
/// a 32-byte address and the first viable bump, or `None` after exhaustion.
#[verifier::external_body]
fn try_derive(seeds: &Vec<Vec<u8>>, program_id: &[u8]) -> (r: Option<(Vec<u8>, u8)>)
    requires
        program_id@.len() == 32,
    ensures
        match r {
            Some(p) => pda_walk(seeds@.map_values(|s: Vec<u8>| s@), program_id@) == Some(
                (p.0@, p.1),
            ) && p.0@.len() == 32,
            None => pda_walk(seeds@.map_values(|s: Vec<u8>| s@), program_id@) is None,
        },
{
    let mut arr = [0u8; 32];
    arr.copy_from_slice(program_id);
    let pid = solana_program::pubkey::Pubkey::new_from_array(arr);
    let seed_refs: Vec<&[u8]> = seeds.iter().map(|s| s.as_slice()).collect();
    solana_program::pubkey::Pubkey::try_find_program_address(&seed_refs, &pid)
        .map(|(key, bump)| (key.to_bytes().to_vec(), bump))
}

/// The namespace tag of product records: the bytes of `"product"`.
pub open spec fn spec_product_tag() -> Seq<u8> {
    seq![112u8, 114u8, 111u8, 100u8, 117u8, 99u8, 116u8]
}

fn product_tag() -> (v: Vec<u8>)
    ensures
        v@ == spec_product_tag(),
{
    let mut v: Vec<u8> = Vec::new();
    v.push(112u8);
    v.push(114u8);
    v.push(111u8);
    v.push(100u8);
    v.push(117u8);
    v.push(99u8);
    v.push(116u8);
    proof {
        assert(v@ =~= spec_product_tag());
    }
    v
}

/// The namespace tag of history records: the bytes of `"history"`.
pub open spec fn spec_history_tag() -> Seq<u8> {
    seq![104u8, 105u8, 115u8, 116u8, 111u8, 114u8, 121u8]
}

fn history_tag() -> (v: Vec<u8>)
    ensures
        v@ == spec_history_tag(),
{
    let mut v: Vec<u8> = Vec::new();
    v.push(104u8);
    v.push(105u8);
    v.push(115u8);
    v.push(116u8);
    v.push(111u8);
    v.push(114u8);
    v.push(121u8);
    proof {
        assert(v@ =~= spec_history_tag());
    }
    v
}

/// Key of a product record: the namespace tag and the product id.
pub open spec fn spec_product_seeds(id: u64) -> Seq<Seq<u8>> {
    seq![spec_product_tag(), spec_u64_to_le_bytes(id)]
}

/// The derived address of the product record with id `id`, with its
/// disambiguator, or `None` when the walk is exhausted.
pub open spec fn spec_product_address(program_id: Seq<u8>, id: u64) -> Option<(Seq<u8>, u8)> {
    pda_walk(spec_product_seeds(id), program_id)
}

/// Key of a history record: the namespace tag, the buyer, the product id and
/// the history sequence number in effect when the record was created.
pub open spec fn spec_history_seeds(buyer: Seq<u8>, product_id: u64, index: u64) -> Seq<Seq<u8>> {
    seq![
        spec_history_tag(),
        buyer,
        spec_u64_to_le_bytes(product_id),
        spec_u64_to_le_bytes(index),
    ]
}

/// The derived address of one history record, with its disambiguator, or
/// `None` when the walk is exhausted.
pub open spec fn spec_history_address(
    program_id: Seq<u8>,
    buyer: Seq<u8>,
    product_id: u64,
    index: u64,
) -> Option<(Seq<u8>, u8)> {
    pda_walk(spec_history_seeds(buyer, product_id, index), program_id)
}

/// Derive the storage address of the product record with id `id`.
pub fn derive_product_address(program_id: &[u8], id: u64) -> (r: Option<(Vec<u8>, u8)>)
    requires
        program_id@.len() == 32,
    ensures
        match r {
            Some(p) => spec_product_address(program_id@, id) == Some((p.0@, p.1)) && p.0@.len()
                == 32,
            None => spec_product_address(program_id@, id) is None,
        },
{
    let mut seeds: Vec<Vec<u8>> = Vec::new();
    seeds.push(product_tag());
    seeds.push(u64_to_le_bytes(id));
    let r = try_derive(&seeds, program_id);
    proof {
        assert(seeds@.map_values(|s: Vec<u8>| s@) =~= spec_product_seeds(id));
    }
    r
}

/// Derive the storage address of the history record keyed by `buyer`,
/// `product_id` and the history sequence number `index`.
pub fn derive_history_address(program_id: &[u8], buyer: &[u8], product_id: u64, index: u64) -> (r:
    Option<(Vec<u8>, u8)>)
    requires
        program_id@.len() == 32,
    ensures
        match r {
            Some(p) => spec_history_address(program_id@, buyer@, product_id, index) == Some(
                (p.0@, p.1),
            ) && p.0@.len() == 32,
            None => spec_history_address(program_id@, buyer@, product_id, index) is None,
        },
{
    let mut seeds: Vec<Vec<u8>> = Vec::new();
    seeds.push(history_tag());
    seeds.push(vstd::slice::slice_to_vec(buyer));
    seeds.push(u64_to_le_bytes(product_id));
    seeds.push(u64_to_le_bytes(index));
    let r = try_derive(&seeds, program_id);
    proof {
        assert(seeds@.map_values(|s: Vec<u8>| s@) =~= spec_history_seeds(
            buyer@,
            product_id,
            index,
        ));
    }
    r
}

/// Deterministic addressing: any two derivations made from identical seeds
/// and an identical program id name the identical address and
/// disambiguator — which is how a later operation, or an off-chain reader,
/// re-locates a record without a lookup index.
pub proof fn lemma_derivation_deterministic(
    r1: Option<(Seq<u8>, u8)>,
    r2: Option<(Seq<u8>, u8)>,
    seeds: Seq<Seq<u8>>,
    program_id: Seq<u8>,
)
    requires
        r1 == pda_walk(seeds, program_id),
        r2 == pda_walk(seeds, program_id),
    ensures
        r1 == r2,
{
}

} // verus!
