use vstd::prelude::*;
use x86_64::structures::paging::{Size1GiB, Size2MiB, Size4KiB};

verus! {

/// A page-size tag: a type whose only job is to name how many bytes one page
/// holds. Page counts are parameterised by such a tag, so that counts of pages
/// of different sizes can never be combined by mistake.
pub trait PageSize {
    /// The number of bytes in one page.
    spec fn spec_size() -> nat;

    /// A page is never empty, and its size fits in a machine word.
    proof fn lemma_size_valid()
        ensures
            0 < Self::spec_size() <= usize::MAX,
    ;

    /// The number of bytes in one page.
    fn size() -> (r: usize)
        ensures
            r == Self::spec_size(),
    ;
}

/// The number of pages of `page_size` bytes that are needed to hold `bytes`
/// bytes: the quotient rounded up.
pub open spec fn ceil_div(bytes: nat, page_size: nat) -> nat
    recommends
        page_size > 0,
{
    ((bytes + page_size - 1) / (page_size as int)) as nat
}

/// The rounded-up quotient covers `bytes`, and one page less would not.
pub proof fn lemma_ceil_div_bounds(bytes: nat, page_size: nat)
    requires
        page_size > 0,
    ensures
        ceil_div(bytes, page_size) * page_size >= bytes,
        bytes > 0 ==> (ceil_div(bytes, page_size) - 1) * page_size < bytes,
{
    lemma_ceil_div_quotient(bytes, page_size);
    let b = bytes as int;
    let p = page_size as int;
    let q: int = b / p;
    let r: int = b % p;
    vstd::arithmetic::div_mod::lemma_fundamental_div_mod(b, p);
    if r == 0 {
        assert(q * p == b && (b > 0 ==> (q - 1) * p < b)) by (nonlinear_arith)
            requires
                b == p * q + r,
                r == 0,
                p > 0,
        ;
    } else {
        assert((q + 1) * p >= b && q * p < b) by (nonlinear_arith)
            requires
                b == p * q + r,
                0 < r < p,
        ;
    }
}

/// Rounding up adds one to the truncated quotient exactly when there is a
/// remainder.
pub proof fn lemma_ceil_div_quotient(bytes: nat, page_size: nat)
    requires
        page_size > 0,
    ensures
        ceil_div(bytes, page_size) == bytes / page_size + (if bytes % page_size == 0 {
            0int
        } else {
            1int
        }),
{
    let b = bytes as int;
    let p = page_size as int;
    let q: int = b / p;
    let r: int = b % p;
    vstd::arithmetic::div_mod::lemma_fundamental_div_mod(b, p);
    if r == 0 {
        vstd::arithmetic::div_mod::lemma_fundamental_div_mod_converse(b + p - 1, p, q, p - 1);
    } else {
        assert(b + p - 1 == (q + 1) * p + (r - 1)) by (nonlinear_arith)
            requires
                b == p * q + r,
        ;
        vstd::arithmetic::div_mod::lemma_fundamental_div_mod_converse(b + p - 1, p, q + 1, r - 1);
    }
}

#[verifier::external_type_specification]
#[verifier::external_body]
pub struct ExSize4KiB(Size4KiB);

#[verifier::external_type_specification]
#[verifier::external_body]
pub struct ExSize2MiB(Size2MiB);

#[verifier::external_type_specification]
#[verifier::external_body]
pub struct ExSize1GiB(Size1GiB);

/// Relies on `<Size4KiB as x86_64::structures::paging::PageSize>::SIZE`,
/// which x86_64 defines as 4096.
#[verifier::external_body]
fn size_4kib() -> (r: usize)
    ensures
        r == 4096,
{
    <Size4KiB as x86_64::structures::paging::PageSize>::SIZE as usize
}

impl PageSize for Size4KiB {
    open spec fn spec_size() -> nat {
        4096
    }

    proof fn lemma_size_valid() {
    }

    fn size() -> (r: usize) {
        size_4kib()
    }
}

/// Relies on `<Size2MiB as x86_64::structures::paging::PageSize>::SIZE`,
/// which x86_64 defines as 512 times the 4 KiB size: 2 MiB.
#[verifier::external_body]
fn size_2mib() -> (r: usize)
    ensures
        r == 0x20_0000,
{
    <Size2MiB as x86_64::structures::paging::PageSize>::SIZE as usize
}

impl PageSize for Size2MiB {
    open spec fn spec_size() -> nat {
        0x20_0000
    }

    proof fn lemma_size_valid() {
    }

    fn size() -> (r: usize) {
        size_2mib()
    }
}

/// Relies on `<Size1GiB as x86_64::structures::paging::PageSize>::SIZE`,
/// which x86_64 defines as 512 times the 2 MiB size: 1 GiB.
#[verifier::external_body]
fn size_1gib() -> (r: usize)
    ensures
        r == 0x4000_0000,
{
    <Size1GiB as x86_64::structures::paging::PageSize>::SIZE as usize
}

impl PageSize for Size1GiB {
    open spec fn spec_size() -> nat {
        0x4000_0000
    }

    proof fn lemma_size_valid() {
    }

    fn size() -> (r: usize) {
        size_1gib()
    }
}

} // verus!
