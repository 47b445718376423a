//! Word-level helpers shared by the datapath models: two's-complement
//! interpretation, sign extension, and signed comparison on raw 32-bit words.
use vstd::prelude::*;

verus! {

/// The two's-complement signed value of a 32-bit word.
pub open spec fn as_signed(x: u32) -> int {
    if x >= 0x8000_0000 {
        x - 0x1_0000_0000
    } else {
        x as int
    }
}

/// Sign-extend a 12-bit field (already masked to its low 12 bits).
pub open spec fn sext12(x: u32) -> u32 {
    if x & 0x800 == 0 {
        x
    } else {
        x | 0xFFFF_F000u32
    }
}

/// Sign-extend a 13-bit field (already masked to its low 13 bits).
pub open spec fn sext13(x: u32) -> u32 {
    if x & 0x1000 == 0 {
        x
    } else {
        x | 0xFFFF_E000u32
    }
}

/// Sign-extend a 21-bit field (already masked to its low 21 bits).
pub open spec fn sext21(x: u32) -> u32 {
    if x & 0x10_0000 == 0 {
        x
    } else {
        x | 0xFFE0_0000u32
    }
}

/// Signed less-than over raw 32-bit words.
pub fn signed_lt(a: u32, b: u32) -> (r: bool)
    ensures
        r == (as_signed(a) < as_signed(b)),
{
    let a_neg = a >= 0x8000_0000;
    let b_neg = b >= 0x8000_0000;
    if a_neg != b_neg {
        a_neg
    } else {
        a < b
    }
}

/// A vector of `n` zeroed 32-bit words.
pub fn zero_words(n: usize) -> (r: Vec<u32>)
    ensures
        r@.len() == n,
        forall|i: int| 0 <= i < n ==> r@[i] == 0u32,
{
    let mut v: Vec<u32> = Vec::new();
    let mut k: usize = 0;
    while k < n
        invariant
            k <= n,
            v@.len() == k,
            forall|i: int| 0 <= i < k ==> v@[i] == 0u32,
        decreases n - k,
    {
        v.push(0);
        k = k + 1;
    }
    v
}

/// A vector of `n` zeroed bytes.
pub fn zero_bytes(n: usize) -> (r: Vec<u8>)
    ensures
        r@.len() == n,
        forall|i: int| 0 <= i < n ==> r@[i] == 0u8,
{
    let mut v: Vec<u8> = Vec::new();
    let mut k: usize = 0;
    while k < n
        invariant
            k <= n,
            v@.len() == k,
            forall|i: int| 0 <= i < k ==> v@[i] == 0u8,
        decreases n - k,
    {
        v.push(0);
        k = k + 1;
    }
    v
}

} // verus!
