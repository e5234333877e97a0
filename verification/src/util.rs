//! Byte-sequence comparison helpers shared by the request model and the
//! matchers.

use vstd::prelude::*;
use crate::domain::{lower_byte, lower_bytes};

verus! {

/// Exact byte-for-byte equality of two slices.
pub fn bytes_eq(a: &[u8], b: &[u8]) -> (r: bool)
    ensures
        r == (a@ == b@),
{
    let alen = a.len();
    if alen != b.len() {
        proof {
            assert(a@.len() != b@.len());
        }
        return false;
    }
    let mut i: usize = 0;
    let mut ok = true;
    while i < alen
        invariant
            i <= alen,
            alen == a@.len(),
            alen == b@.len(),
            ok == (forall|j: int| 0 <= j < i ==> a@[j] == b@[j]),
        decreases alen - i,
    {
        if a[i] != b[i] {
            ok = false;
        }
        i += 1;
    }
    proof {
        if ok {
            assert(a@ =~= b@);
        }
    }
    ok
}

/// Equality of two byte slices up to ASCII case.
pub fn lower_bytes_eq(a: &[u8], b: &[u8]) -> (r: bool)
    ensures
        r == (lower_bytes(a@) == lower_bytes(b@)),
{
    let alen = a.len();
    if alen != b.len() {
        proof {
            assert(lower_bytes(a@).len() != lower_bytes(b@).len());
        }
        return false;
    }
    let mut i: usize = 0;
    let mut ok = true;
    while i < alen
        invariant
            i <= alen,
            alen == a@.len(),
            alen == b@.len(),
            ok == (forall|j: int| 0 <= j < i ==> lower_byte(a@[j]) == lower_byte(b@[j])),
        decreases alen - i,
    {
        let x = a[i];
        let y = b[i];
        let lx = if 65 <= x && x <= 90 {
            x + 32
        } else {
            x
        };
        let ly = if 65 <= y && y <= 90 {
            y + 32
        } else {
            y
        };
        if lx != ly {
            ok = false;
        }
        i += 1;
    }
    proof {
        if ok {
            assert(lower_bytes(a@) =~= lower_bytes(b@)) by {
                assert(forall|j: int|
                    0 <= j < alen ==> lower_bytes(a@)[j] == lower_byte(a@[j]) && lower_bytes(b@)[j]
                        == lower_byte(b@[j]));
            }
        } else {
            let j = choose|j: int| 0 <= j < alen && lower_byte(a@[j]) != lower_byte(b@[j]);
            assert(lower_bytes(a@)[j] == lower_byte(a@[j]));
            assert(lower_bytes(b@)[j] == lower_byte(b@[j]));
        }
    }
    ok
}

} // verus!
