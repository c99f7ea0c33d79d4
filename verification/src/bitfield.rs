//! Bit-field access within 32-bit registers.
//!
//! A GPIO port packs one configuration field per pin into each shared 32-bit
//! register: one bit (output type, output data), two bits (mode, speed,
//! pull-up/down) or four bits (alternate function) per pin. These helpers
//! read and rewrite one pin's slot and are proved to leave every other slot
//! untouched, which is what makes per-pin operations safe on shared port
//! registers.

use vstd::prelude::*;

verus! {

/// The 1-bit field of `r` at bit position `i`.
pub open spec fn field1(r: u32, i: u32) -> u32 {
    (r >> i) & 1
}

/// The 2-bit field of `r` for slot `i` (bits `2*i` and `2*i + 1`).
pub open spec fn field2(r: u32, i: u32) -> u32 {
    (r >> (2 * i)) & 3
}

/// The 4-bit field of `r` for slot `i` (bits `4*i` .. `4*i + 3`).
pub open spec fn field4(r: u32, i: u32) -> u32 {
    (r >> (4 * i)) & 15
}

proof fn lemma_set_field1(r: u32, i: u32, v: u32, j: u32)
    by (bit_vector)
    requires
        i < 32,
        j < 32,
        v < 2,
    ensures
        field1((r & !(1u32 << i)) | (v << i), i) == v,
        j != i ==> field1((r & !(1u32 << i)) | (v << i), j) == field1(r, j),
{
}

proof fn lemma_set_field2(r: u32, i: u32, v: u32, j: u32)
    by (bit_vector)
    requires
        i < 16,
        j < 16,
        v < 4,
    ensures
        field2((r & !(3u32 << (2 * i))) | (v << (2 * i)), i) == v,
        j != i ==> field2((r & !(3u32 << (2 * i))) | (v << (2 * i)), j) == field2(r, j),
{
}

proof fn lemma_set_field4(r: u32, i: u32, v: u32, j: u32)
    by (bit_vector)
    requires
        i < 8,
        j < 8,
        v < 16,
    ensures
        field4((r & !(15u32 << (4 * i))) | (v << (4 * i)), i) == v,
        j != i ==> field4((r & !(15u32 << (4 * i))) | (v << (4 * i)), j) == field4(r, j),
{
}

/// Returns `r` with the 1-bit field at position `i` set to `v`; every other
/// bit keeps its value.
pub fn set_field1(r: u32, i: u32, v: u32) -> (out: u32)
    requires
        i < 32,
        v < 2,
    ensures
        field1(out, i) == v,
        forall|j: u32| j < 32 && j != i ==> field1(out, j) == field1(r, j),
{
    let out = (r & !(1u32 << i)) | (v << i);
    proof {
        assert forall|j: u32| j < 32 && j != i implies field1(out, j) == field1(r, j) by {
            lemma_set_field1(r, i, v, j);
        }
        lemma_set_field1(r, i, v, i);
    }
    out
}

/// Returns `r` with the 2-bit field of slot `i` set to `v`; every other
/// slot keeps its value.
pub fn set_field2(r: u32, i: u32, v: u32) -> (out: u32)
    requires
        i < 16,
        v < 4,
    ensures
        field2(out, i) == v,
        forall|j: u32| j < 16 && j != i ==> field2(out, j) == field2(r, j),
{
    let out = (r & !(3u32 << (2 * i))) | (v << (2 * i));
    proof {
        assert forall|j: u32| j < 16 && j != i implies field2(out, j) == field2(r, j) by {
            lemma_set_field2(r, i, v, j);
        }
        lemma_set_field2(r, i, v, i);
    }
    out
}

/// Returns `r` with the 4-bit field of slot `i` set to `v`; every other
/// slot keeps its value.
pub fn set_field4(r: u32, i: u32, v: u32) -> (out: u32)
    requires
        i < 8,
        v < 16,
    ensures
        field4(out, i) == v,
        forall|j: u32| j < 8 && j != i ==> field4(out, j) == field4(r, j),
{
    let out = (r & !(15u32 << (4 * i))) | (v << (4 * i));
    proof {
        assert forall|j: u32| j < 8 && j != i implies field4(out, j) == field4(r, j) by {
            lemma_set_field4(r, i, v, j);
        }
        lemma_set_field4(r, i, v, i);
    }
    out
}

/// Reads the 1-bit field of `r` at position `i`.
pub fn get_field1(r: u32, i: u32) -> (out: u32)
    requires
        i < 32,
    ensures
        out == field1(r, i),
{
    (r >> i) & 1
}

/// Every field value fits its width: a 1-bit field is below 2, a 2-bit
/// field below 4, a 4-bit field below 16.
pub proof fn lemma_field_bounds(r: u32, i: u32)
    by (bit_vector)
    ensures
        field1(r, i) < 2,
        field2(r, i) < 4,
        field4(r, i) < 16,
{
}

} // verus!
