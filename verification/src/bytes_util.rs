//! Byte-level helpers shared by the record codec: little-endian `i64`
//! conversions, slice extraction, comparison, zero-fill and the
//! truncate-or-pad rule for fixed-width text fields.

use vstd::prelude::*;
use vstd::bytes::{spec_u64_from_le_bytes, spec_u64_to_le_bytes, u64_from_le_bytes, u64_to_le_bytes};
use vstd::slice::{slice_subrange, slice_to_vec};

verus! {

broadcast use vstd::slice::axiom_spec_len;

/// An `i64` is stored as the little-endian bytes of its two's-complement
/// `u64` image.
pub open spec fn spec_i64_to_le_bytes(x: i64) -> Seq<u8> {
    spec_u64_to_le_bytes(x as u64)
}

pub open spec fn spec_i64_from_le_bytes(s: Seq<u8>) -> i64
    recommends
        s.len() == 8,
{
    spec_u64_from_le_bytes(s) as i64
}

pub proof fn lemma_i64_le_bytes_roundtrip()
    ensures
        forall|x: i64|
            {
                &&& #[trigger] spec_i64_to_le_bytes(x).len() == 8
                &&& spec_i64_from_le_bytes(spec_i64_to_le_bytes(x)) == x
            },
{
    vstd::bytes::lemma_auto_spec_u64_to_from_le_bytes();
    assert(forall|x: i64| #[trigger] ((x as u64) as i64) == x) by (bit_vector);
}

pub fn i64_to_le_bytes(x: i64) -> (s: Vec<u8>)
    ensures
        s@ == spec_i64_to_le_bytes(x),
        s@.len() == 8,
{
    proof {
        vstd::bytes::lemma_auto_spec_u64_to_from_le_bytes();
    }
    let image: u64 = #[verifier::truncate] (x as u64);
    u64_to_le_bytes(image)
}

pub fn i64_from_le_bytes(s: &[u8]) -> (x: i64)
    requires
        s@.len() == 8,
    ensures
        x == spec_i64_from_le_bytes(s@),
{
    let image = u64_from_le_bytes(s);
    #[verifier::truncate] (image as i64)
}

/// Read the little-endian `u64` stored at `off`.
pub fn read_u64(src: &[u8], off: usize) -> (x: u64)
    requires
        off + 8 <= src@.len(),
    ensures
        x == spec_u64_from_le_bytes(src@.subrange(off as int, off as int + 8)),
{
    proof {
        vstd::slice::axiom_spec_len(src);
    }
    let sub = slice_subrange(src, off, off + 8);
    u64_from_le_bytes(sub)
}

/// Read the little-endian `i64` stored at `off`.
pub fn read_i64(src: &[u8], off: usize) -> (x: i64)
    requires
        off + 8 <= src@.len(),
    ensures
        x == spec_i64_from_le_bytes(src@.subrange(off as int, off as int + 8)),
{
    proof {
        vstd::slice::axiom_spec_len(src);
    }
    let sub = slice_subrange(src, off, off + 8);
    i64_from_le_bytes(sub)
}

/// Copy `src[start..end]` into an owned buffer.
pub fn subrange_vec(src: &[u8], start: usize, end: usize) -> (r: Vec<u8>)
    requires
        start <= end <= src@.len(),
    ensures
        r@ == src@.subrange(start as int, end as int),
{
    slice_to_vec(slice_subrange(src, start, end))
}

/// An owned copy of a byte buffer.
pub fn copy_bytes(v: &Vec<u8>) -> (r: Vec<u8>)
    ensures
        r@ == v@,
{
    slice_to_vec(v.as_slice())
}

/// Byte-for-byte equality of two buffers.
pub fn bytes_eq(a: &[u8], b: &[u8]) -> (r: bool)
    ensures
        r <==> a@ == b@,
{
    if a.len() != b.len() {
        return false;
    }
    let mut i: usize = 0;
    while i < a.len()
        invariant
            i <= a@.len(),
            a@.len() == b@.len(),
            forall|j: int| 0 <= j < i ==> a@[j] == b@[j],
        decreases a@.len() - i,
    {
        if a[i] != b[i] {
            return false;
        }
        i += 1;
    }
    proof {
        assert(a@ =~= b@);
    }
    true
}

pub open spec fn spec_zeroed(n: nat) -> Seq<u8> {
    Seq::new(n, |i: int| 0u8)
}

/// A buffer of `n` zero bytes, as the host hands out for a fresh slot and as
/// the close operations leave behind.
pub fn zeroed(n: usize) -> (r: Vec<u8>)
    ensures
        r@ == spec_zeroed(n as nat),
{
    let mut r: Vec<u8> = Vec::new();
    let mut i: usize = 0;
    while i < n
        invariant
            i <= n,
            r@ =~= spec_zeroed(i as nat),
        decreases n - i,
    {
        r.push(0u8);
        i += 1;
    }
    proof {
        assert(r@ =~= spec_zeroed(n as nat));
    }
    r
}

/// `s` truncated or zero-padded to exactly `w` bytes.
pub open spec fn spec_fit(s: Seq<u8>, w: nat) -> Seq<u8> {
    Seq::new(w, |i: int| if i < s.len() { s[i] } else { 0u8 })
}

/// Fit arbitrary text bytes into a fixed-width field: longer input is
/// silently truncated, shorter input is zero-padded.
pub fn fit_bytes(src: &[u8], width: usize) -> (r: Vec<u8>)
    ensures
        r@ == spec_fit(src@, width as nat),
{
    let mut r: Vec<u8> = Vec::new();
    let mut i: usize = 0;
    while i < width
        invariant
            i <= width,
            r@ =~= spec_fit(src@, i as nat),
        decreases width - i,
    {
        if i < src.len() {
            r.push(src[i]);
        } else {
            r.push(0u8);
        }
        i += 1;
    }
    proof {
        assert(r@ =~= spec_fit(src@, width as nat));
    }
    r
}

} // verus!
