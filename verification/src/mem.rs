//! Memory model shared by the hook heap and the hook writer: page
//! protection states, allocation records, and the page-alignment
//! arithmetic of the platform controllers.
//!
//! The platform syscalls themselves (anonymous mappings, protection
//! changes, symbol lookup) cannot be verified and live outside this
//! crate; the callers here work on the plain values those calls return:
//! a start address, an allocation size, and a page size.
pub mod error;
pub mod linux;
pub mod table;
pub mod windows;

use vstd::prelude::*;

verus! {

/// Protection of a page range. `Other` preserves a platform-specific
/// raw protection value verbatim, so a guard can restore exactly what
/// it observed on entry.
#[derive(Debug, Clone, Copy, PartialEq, Eq, Structural)]
pub enum MemoryProtection {
    NoAccess,
    ReadWrite,
    ReadExecute,
    Other(usize),
}

/// True for the values an OS can report as its page size: a positive
/// power of two.
pub open spec fn is_page_size(n: usize) -> bool {
    n > 0 && (n & ((n - 1) as usize)) == 0
}

/// A page size in the sense of `is_page_size` is two raised to some
/// exponent below the machine width.
proof fn lemma_page_size_exponent(page_size: usize) -> (n: nat)
    requires
        page_size > 0,
        (page_size & ((page_size - 1) as usize)) == 0,
    ensures
        n < usize::BITS,
        page_size == vstd::arithmetic::power2::pow2(n),
    decreases page_size,
{
    if page_size == 1 {
        vstd::arithmetic::power2::lemma2_to64();
        0
    } else {
        let half: usize = page_size / 2;
        assert(2 * half == page_size && half > 0 && (half & ((half - 1) as usize)) == 0)
            by (bit_vector)
            requires
                page_size > 1,
                (page_size & ((page_size - 1) as usize)) == 0,
                half == page_size / 2,
        ;
        let n0 = lemma_page_size_exponent(half);
        vstd::arithmetic::power2::lemma_pow2_unfold(n0 + 1);
        assert(page_size == vstd::arithmetic::power2::pow2(n0 + 1));
        if n0 + 1 >= usize::BITS {
            if n0 + 1 > usize::BITS {
                vstd::arithmetic::power2::lemma_pow2_strictly_increases(
                    usize::BITS as nat,
                    n0 + 1,
                );
            }
            vstd::arithmetic::power2::lemma2_to64();
            vstd::arithmetic::power2::lemma2_to64_rest();
            assert(false);
        }
        n0 + 1
    }
}

/// Masking an address with the complement of `page_size - 1` yields a
/// multiple of the page size, provided the page size is a power of
/// two.
pub proof fn lemma_mask_is_page_multiple(page_size: usize, address: usize)
    requires
        page_size > 0,
        (page_size & ((page_size - 1) as usize)) == 0,
    ensures
        ((address & !((page_size - 1) as usize)) % page_size) == 0,
{
    let n = lemma_page_size_exponent(page_size);
    vstd::bits::lemma_usize_low_bits_mask_is_mod(address, n);
    let m: usize = (page_size - 1) as usize;
    assert(vstd::bits::low_bits_mask(n) == m);
    assert((address & !m) + (address & m) == address) by (bit_vector);
    vstd::arithmetic::div_mod::lemma_fundamental_div_mod(address as int, page_size as int);
    let q = (address as int) / (page_size as int);
    assert((address & !m) == q * page_size);
    vstd::arithmetic::div_mod::lemma_mod_multiples_basic(q, page_size as int);
}

/// Masking an address with the complement of `page_size - 1` never
/// moves it up, and down by less than one page.
pub proof fn lemma_mask_bounds(page_size: usize, address: usize)
    by (bit_vector)
    requires
        page_size > 0,
    ensures
        (address & !((page_size - 1) as usize)) <= address,
        address < (address & !((page_size - 1) as usize)) + page_size,
{
}

/// A completed allocation, reduced to the three plain values the heap
/// needs: page size, total size, and start address.
pub trait AllocationInfo: Sized {
    /// The page size the allocation was made with.
    spec fn spec_page_size(&self) -> usize;

    /// The total size of the mapping in bytes.
    spec fn spec_allocation_size(&self) -> usize;

    /// The address of the first byte of the mapping.
    spec fn spec_allocation_start(&self) -> u64;

    fn page_size(&self) -> (r: usize)
        ensures
            r == self.spec_page_size(),
    ;

    fn allocation_size(&self) -> (r: usize)
        ensures
            r == self.spec_allocation_size(),
    ;

    fn allocation_start(&self) -> (r: u64)
        ensures
            r == self.spec_allocation_start(),
    ;
}

} // verus!
