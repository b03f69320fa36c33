//! 64-bit addition and subtraction that hand back the carry or borrow.
use vstd::prelude::*;

verus! {

/// 2 to the 64th.
pub open spec fn two64() -> int {
    0x1_0000_0000_0000_0000
}

/// `a + b + carry`, wrapped to 64 bits, and the carry out of bit 63.
pub fn u64_addc(a: u64, b: u64, carry: u64) -> (r: (u64, u64))
    requires
        carry <= 1,
    ensures
        r.0 == (a + b + carry) % two64(),
        r.1 == (a + b + carry) / two64(),
        r.1 <= 1,
{
    let s: u128 = a as u128 + b as u128 + carry as u128;
    ((s % 0x1_0000_0000_0000_0000u128) as u64, (s / 0x1_0000_0000_0000_0000u128) as u64)
}

/// `a + b`, wrapped to 64 bits, and the carry out of bit 63.
pub fn u64_add(a: u64, b: u64) -> (r: (u64, u64))
    ensures
        r.0 == (a + b) % two64(),
        r.1 == (a + b) / two64(),
        r.1 <= 1,
{
    u64_addc(a, b, 0)
}

/// `a - b - borrow`, wrapped to 64 bits, and 1 when it borrowed.
pub fn u64_subc(a: u64, b: u64, borrow: u64) -> (r: (u64, u64))
    requires
        borrow <= 1,
    ensures
        r.0 == (a - b - borrow) % two64(),
        r.1 == if a < b + borrow {
            1int
        } else {
            0int
        },
{
    let d: i128 = a as i128 - b as i128 - borrow as i128;
    if d < 0 {
        ((d + 0x1_0000_0000_0000_0000i128) as u64, 1)
    } else {
        (d as u64, 0)
    }
}

/// `a - b`, wrapped to 64 bits, and 1 when it borrowed.
pub fn u64_sub(a: u64, b: u64) -> (r: (u64, u64))
    ensures
        r.0 == (a - b) % two64(),
        r.1 == if a < b {
            1int
        } else {
            0int
        },
{
    u64_subc(a, b, 0)
}

} // verus!
