//! Three-bit fields packed into a `u64`.
//!
//! Both spatial key flavours store a path of octant indices as 3-bit
//! segments of one 64-bit word; these are the shared primitives and the
//! facts about how setting one field affects the rest of the word.

use vstd::prelude::*;

verus! {

pub open spec fn get3_spec(k: u64, off: u64) -> u64 {
    (k >> off) & 7
}

pub open spec fn set3_spec(k: u64, off: u64, v: u64) -> u64 {
    (k & !(7u64 << off)) | (v << off)
}

/// Read the 3-bit field at bit offset `off`.
pub fn get3(k: u64, off: u64) -> (r: u64)
    requires off <= 61,
    ensures
        r == get3_spec(k, off),
        r < 8,
{
    proof {
        lemma_get3_bounded(k, off);
    }
    (k >> off) & 7
}

/// Write `v` into the 3-bit field at bit offset `off`.
pub fn set3(k: u64, off: u64, v: u64) -> (r: u64)
    requires
        off <= 61,
        v < 8,
    ensures r == set3_spec(k, off, v),
{
    (k & !(7u64 << off)) | (v << off)
}

pub broadcast proof fn lemma_get3_bounded(k: u64, off: u64)
    ensures #[trigger] get3_spec(k, off) < 8,
{
    assert((k >> off) & 7 < 8) by (bit_vector);
}

/// Reading back the field that was just written gives the written value.
pub proof fn lemma_set3_same(k: u64, off: u64, v: u64)
    requires
        off <= 61,
        v < 8,
    ensures get3_spec(set3_spec(k, off, v), off) == v,
{
    assert((((k & !(7u64 << off)) | (v << off)) >> off) & 7 == v) by (bit_vector)
        requires off <= 61, v < 8,
    ;
}

/// Writing one field leaves every disjoint field unchanged.
pub proof fn lemma_set3_other(k: u64, off: u64, v: u64, off2: u64)
    requires
        off <= 61,
        off2 <= 61,
        off2 + 3 <= off || off + 3 <= off2,
        v < 8,
    ensures get3_spec(set3_spec(k, off, v), off2) == get3_spec(k, off2),
{
    assert((((k & !(7u64 << off)) | (v << off)) >> off2) & 7 == (k >> off2) & 7) by (bit_vector)
        requires off <= 61, off2 <= 61, off2 + 3 <= off || off + 3 <= off2, v < 8,
    ;
}

/// Writing a field clear of bit 60 leaves bit 60 unchanged.
pub proof fn lemma_set3_bit60(k: u64, off: u64, v: u64)
    requires
        v < 8,
        off + 3 <= 60 || off == 61,
    ensures (set3_spec(k, off, v) >> 60) & 1 == (k >> 60) & 1,
{
    assert((((k & !(7u64 << off)) | (v << off)) >> 60) & 1 == (k >> 60) & 1) by (bit_vector)
        requires v < 8, off + 3 <= 60 || off == 61,
    ;
}

/// Writing the value a field already holds leaves the word unchanged.
pub proof fn lemma_set3_noop(k: u64, off: u64, v: u64)
    requires
        off <= 61,
        v < 8,
        get3_spec(k, off) == v,
    ensures set3_spec(k, off, v) == k,
{
    assert((k & !(7u64 << off)) | ((((k >> off) & 7)) << off) == k) by (bit_vector)
        requires off <= 61,
    ;
}

/// Effect of writing 3-bit segment `d` (bits `3d..3d+3`) on all the
/// segments, the corner field at bit 61, and bit 60.
pub proof fn lemma_set_seg_effect(k: u64, d: int, v: u64)
    requires
        0 <= d < 20,
        v < 8,
    ensures
        get3_spec(set3_spec(k, (3 * d) as u64, v), (3 * d) as u64) == v,
        forall|i: int| 0 <= i < 20 && i != d ==>
            #[trigger] get3_spec(set3_spec(k, (3 * d) as u64, v), (3 * i) as u64)
                == get3_spec(k, (3 * i) as u64),
        get3_spec(set3_spec(k, (3 * d) as u64, v), 61) == get3_spec(k, 61),
        (set3_spec(k, (3 * d) as u64, v) >> 60) & 1 == (k >> 60) & 1,
{
    let off = (3 * d) as u64;
    lemma_set3_same(k, off, v);
    lemma_set3_other(k, off, v, 61);
    lemma_set3_bit60(k, off, v);
    assert forall|i: int| 0 <= i < 20 && i != d implies
        #[trigger] get3_spec(set3_spec(k, off, v), (3 * i) as u64)
            == get3_spec(k, (3 * i) as u64) by {
        lemma_set3_other(k, off, v, (3 * i) as u64);
    }
}

/// Effect of writing the corner field (bits 61..64) on the segments and
/// bit 60.
pub proof fn lemma_set_corner_effect(k: u64, v: u64)
    requires
        v < 8,
    ensures
        get3_spec(set3_spec(k, 61, v), 61) == v,
        forall|i: int| 0 <= i < 20 ==>
            #[trigger] get3_spec(set3_spec(k, 61, v), (3 * i) as u64)
                == get3_spec(k, (3 * i) as u64),
        (set3_spec(k, 61, v) >> 60) & 1 == (k >> 60) & 1,
{
    lemma_set3_same(k, 61, v);
    lemma_set3_bit60(k, 61, v);
    assert forall|i: int| 0 <= i < 20 implies
        #[trigger] get3_spec(set3_spec(k, 61, v), (3 * i) as u64)
            == get3_spec(k, (3 * i) as u64) by {
        lemma_set3_other(k, 61, v, (3 * i) as u64);
    }
}

/// Writing a segment in bits `0..57` leaves bits 57 and up unchanged.
pub proof fn lemma_set3_hi(k: u64, off: u64, v: u64)
    requires
        v < 8,
        off + 3 <= 57,
    ensures
        set3_spec(k, off, v) >> 57 == k >> 57,
        set3_spec(k, off, v) >> 59 == k >> 59,
        (set3_spec(k, off, v) >> 57) & 3 == (k >> 57) & 3,
{
    assert(((k & !(7u64 << off)) | (v << off)) >> 57 == k >> 57
        && ((k & !(7u64 << off)) | (v << off)) >> 59 == k >> 59
        && (((k & !(7u64 << off)) | (v << off)) >> 57) & 3 == (k >> 57) & 3) by (bit_vector)
        requires v < 8, off + 3 <= 57,
    ;
}

/// The raw word with its 5-bit depth field (bits 59..64) set to `d`.
pub open spec fn set_depth5_spec(k: u64, d: u64) -> u64 {
    (k & 0x07ff_ffff_ffff_ffff) | (d << 59)
}

/// Effect of writing the depth field on the depth, the segments and the
/// two bits at 57 and 58.
pub proof fn lemma_set_depth5(k: u64, d: u64)
    requires d < 32,
    ensures
        set_depth5_spec(k, d) >> 59 == d,
        forall|off: u64| off + 3 <= 57 ==>
            #[trigger] get3_spec(set_depth5_spec(k, d), off) == get3_spec(k, off),
        (set_depth5_spec(k, d) >> 57) & 3 == (k >> 57) & 3,
{
    assert(((k & 0x07ff_ffff_ffff_ffffu64) | (d << 59)) >> 59 == d
        && (((k & 0x07ff_ffff_ffff_ffffu64) | (d << 59)) >> 57) & 3 == (k >> 57) & 3
        && forall|off: u64| off + 3 <= 57 ==>
            ((((k & 0x07ff_ffff_ffff_ffffu64) | (d << 59)) >> off) & 7) == ((k >> off) & 7))
        by (bit_vector)
        requires d < 32,
    ;
}

/// Write the depth field (bits 59..64).
pub fn set_depth5(k: u64, d: u64) -> (r: u64)
    requires d < 32,
    ensures r == set_depth5_spec(k, d),
{
    (k & 0x07ff_ffff_ffff_ffff) | (d << 59)
}

/// Writing the depth field twice keeps only the second write.
pub proof fn lemma_set_depth5_twice(k: u64, d: u64, e: u64)
    requires d < 32, e < 32,
    ensures set_depth5_spec(set_depth5_spec(k, d), e) == set_depth5_spec(k, e),
{
    assert((((k & 0x07ff_ffff_ffff_ffffu64) | (d << 59)) & 0x07ff_ffff_ffff_ffffu64) | (e << 59)
        == (k & 0x07ff_ffff_ffff_ffffu64) | (e << 59)) by (bit_vector)
        requires d < 32, e < 32,
    ;
}

/// Writing the depth a word already carries leaves it unchanged.
pub proof fn lemma_set_depth5_noop(k: u64, d: u64)
    requires
        d < 32,
        k >> 59 == d,
    ensures set_depth5_spec(k, d) == k,
{
    assert((k & 0x07ff_ffff_ffff_ffffu64) | ((k >> 59) << 59) == k) by (bit_vector);
}

/// A segment write in bits `0..57` commutes with a depth-field write.
pub proof fn lemma_set3_depth5_commute(k: u64, off: u64, v: u64, d: u64)
    requires v < 8, off + 3 <= 57, d < 32,
    ensures
        set3_spec(set_depth5_spec(k, d), off, v) == set_depth5_spec(set3_spec(k, off, v), d),
{
    assert(((((k & 0x07ff_ffff_ffff_ffffu64) | (d << 59)) & !(7u64 << off)) | (v << off))
        == ((((k & !(7u64 << off)) | (v << off)) & 0x07ff_ffff_ffff_ffffu64) | (d << 59)))
        by (bit_vector)
        requires v < 8, off + 3 <= 57, d < 32,
    ;
}

/// The second write to the same field wins.
pub proof fn lemma_set3_twice(k: u64, off: u64, v: u64, w: u64)
    requires
        off <= 61,
        v < 8,
        w < 8,
    ensures set3_spec(set3_spec(k, off, v), off, w) == set3_spec(k, off, w),
{
    assert((((k & !(7u64 << off)) | (v << off)) & !(7u64 << off)) | (w << off)
        == (k & !(7u64 << off)) | (w << off)) by (bit_vector)
        requires off <= 61, v < 8, w < 8,
    ;
}

} // verus!
