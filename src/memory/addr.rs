//! Physical addresses and alignment.
use vstd::arithmetic::power2::pow2;
use vstd::bits::{lemma_u64_low_bits_mask_is_mod, lemma_u64_pow2_no_overflow, lemma_u64_shl_is_mul};
use vstd::prelude::*;

verus! {

/// Whether `n` is a power of two that fits in 64 bits.
pub open spec fn spec_is_power_of_two(n: u64) -> bool {
    exists|k: nat| k < 64 && n == #[trigger] pow2(k)
}

#[verifier::when_used_as_spec(spec_is_power_of_two)]
pub fn is_power_of_two(n: u64) -> (r: bool)
    ensures
        r == spec_is_power_of_two(n),
{
    let mut k: u64 = 0;
    while k < 64
        invariant
            k <= 64,
            forall|j: nat| j < k ==> #[trigger] pow2(j) != n,
        decreases 64 - k,
    {
        proof {
            lemma_u64_pow2_no_overflow(k as nat);
            lemma_u64_shl_is_mul(1, k);
        }
        if 1u64 << k == n {
            assert(n == pow2(k as nat));
            return true;
        }
        k = k + 1;
    }
    false
}

/// A power of two is at least 1.
pub proof fn lemma_power_of_two_positive(n: u64)
    requires
        spec_is_power_of_two(n),
    ensures
        n >= 1,
{
    lemma_mask_is_mod(0, n);
}

/// For a power of two `align`, and-ing with `align - 1` gives the remainder modulo `align`.
proof fn lemma_mask_is_mod(x: u64, align: u64)
    requires
        spec_is_power_of_two(align),
    ensures
        align >= 1,
        x & ((align - 1) as u64) == x % align,
{
    let k = choose|k: nat| k < 64 && align == #[trigger] pow2(k);
    lemma_u64_pow2_no_overflow(k);
    lemma_u64_low_bits_mask_is_mod(x, k);
}

/// Errors of address arithmetic.
#[derive(Clone, Copy, Debug, PartialEq, Eq, Structural)]
pub enum AddrError {
    /// The alignment asked for is not a power of two.
    InvalidAlignment,
}

/// A 64-bit physical address, kept apart from virtual addresses and plain integers.
#[derive(Clone, Copy, Debug, PartialEq, Eq, Structural)]
pub struct PhysAddr(pub u64);

impl PhysAddr {
    pub fn new(addr: u64) -> (r: PhysAddr)
        ensures
            r.0 == addr,
    {
        PhysAddr(addr)
    }

    pub fn as_u64(self) -> (r: u64)
        ensures
            r == self.0,
    {
        self.0
    }

    /// The greatest multiple of `align` at or below this address; an error where `align` is
    /// not a power of two.
    pub fn align_down(self, align: u64) -> (r: Result<PhysAddr, AddrError>)
        ensures
            !spec_is_power_of_two(align) ==> r == Err::<PhysAddr, AddrError>(
                AddrError::InvalidAlignment,
            ),
            spec_is_power_of_two(align) ==> (r matches Ok(p) && p.0 == self.0 - self.0 % align),
    {
        if !is_power_of_two(align) {
            return Err(AddrError::InvalidAlignment);
        }
        let a = self.0;
        proof {
            lemma_mask_is_mod(a, align);
        }
        let mask = align - 1;
        assert(a & !mask == a - (a & mask)) by (bit_vector);
        Ok(PhysAddr(a & !mask))
    }
}

/// The least multiple of `align`, a power of two, at or above `addr`.
pub fn align_up(addr: u64, align: u64) -> (r: u64)
    requires
        spec_is_power_of_two(align),
        addr + align - 1 <= u64::MAX,
    ensures
        addr % align == 0 ==> r == addr,
        addr % align != 0 ==> r == addr - addr % align + align,
{
    proof {
        lemma_mask_is_mod(addr, align);
    }
    let mask = align - 1;
    if addr & mask == 0 {
        addr
    } else {
        assert((addr | mask) == addr - (addr & mask) + mask) by (bit_vector);
        (addr | mask) + 1
    }
}

} // verus!
