//! Pointer-width modular arithmetic on addresses.
use vstd::prelude::*;
use vstd::arithmetic::div_mod::{lemma_add_mod_noop, lemma_mod_add_multiples_vanish, lemma_mod_multiples_vanish, lemma_small_mod};

use vstd::wrapping::usize_specs;

use crate::Address;

verus! {

/// The number of distinct addresses: two to the pointer width.
pub open spec fn address_space() -> int {
    usize::MAX as int + 1
}

/// `base + n` in pointer-width wraparound arithmetic, for any integer `n`.
pub open spec fn offset_address(base: Address, n: int) -> Address {
    ((base as int + n) % address_space()) as usize
}

/// Adding an unsigned offset with the machine's wrapping addition is
/// addition modulo the address space.
pub proof fn lemma_wrapping_add_is_mod(x: usize, y: usize)
    ensures
        usize_specs::wrapping_add(x, y) == offset_address(x, y as int),
{
    let m = address_space();
    if x + y > usize::MAX {
        lemma_mod_add_multiples_vanish(x + y - m, m);
        lemma_small_mod((x + y - m) as nat, m as nat);
    } else {
        lemma_small_mod((x + y) as nat, m as nat);
    }
}

/// The address `n` bytes past `base`, wrapping at the pointer width.
pub fn add_unsigned(base: Address, n: u64) -> (r: Address)
    ensures
        r == offset_address(base, n as int),
{
    if n <= usize::MAX as u64 {
        proof { lemma_wrapping_add_is_mod(base, n as usize); }
        base.wrapping_add(n as usize)
    } else {
        let m: u64 = usize::MAX as u64 + 1;
        let low: u64 = n % m;
        proof {
            lemma_wrapping_add_is_mod(base, low as usize);
            lemma_small_mod(base as nat, m as nat);
            lemma_add_mod_noop(base as int, n as int, m as int);
            lemma_add_mod_noop(base as int, low as int, m as int);
        }
        base.wrapping_add(low as usize)
    }
}

/// Adding a signed offset in two's complement and reading the result as
/// unsigned is addition modulo the address space.
pub proof fn lemma_wrapping_add_signed_is_mod(x: usize, y: isize)
    ensures
        usize_specs::wrapping_add_signed(x, y) == offset_address(x, y as int),
{
    let m = address_space();
    if x + y > usize::MAX {
        lemma_mod_add_multiples_vanish(x + y - m, m);
        lemma_small_mod((x + y - m) as nat, m as nat);
    } else if x + y < 0 {
        lemma_mod_add_multiples_vanish(x + y, m);
        lemma_small_mod((x + y + m) as nat, m as nat);
    } else {
        lemma_small_mod((x + y) as nat, m as nat);
    }
}

/// The address `n` bytes from `base`, in two's-complement wraparound
/// arithmetic at the pointer width.
pub fn add_signed(base: Address, n: i64) -> (r: Address)
    ensures
        r == offset_address(base, n as int),
{
    if isize::MIN as i64 <= n && n <= isize::MAX as i64 {
        proof { lemma_wrapping_add_signed_is_mod(base, n as isize); }
        base.wrapping_add_signed(n as isize)
    } else if n >= 0 {
        add_unsigned(base, n as u64)
    } else {
        // n + 2^64, which a pointer-width modulus divides away
        let lifted: u64 = (n + 1 + i64::MAX) as u64 + i64::MAX as u64 + 1;
        let r = add_unsigned(base, lifted);
        proof {
            let m = address_space();
            let k: int = if usize::MAX == u32::MAX { 0x1_0000_0000 } else { 1 };
            assert(usize::MAX == u32::MAX || usize::MAX == u64::MAX);
            assert(lifted as int == n as int + k * m) by (nonlinear_arith)
                requires
                    lifted as int == n as int + 0x1_0000_0000_0000_0000,
                    usize::MAX == u32::MAX ==> k == 0x1_0000_0000 && m == 0x1_0000_0000,
                    usize::MAX == u64::MAX ==> k == 1 && m == 0x1_0000_0000_0000_0000,
                    usize::MAX == u32::MAX || usize::MAX == u64::MAX;
            lemma_mod_multiples_vanish(k, base as int + n as int, m);
        }
        r
    }
}

} // verus!
