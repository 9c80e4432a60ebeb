use crate::bytes::Bytes;
use crate::error::UnitError;
use crate::page_size::{ceil_div, lemma_ceil_div_quotient, PageSize};
use core::marker::PhantomData;
use vstd::prelude::*;
use vstd::std_specs::ops::{AddSpec, SubSpec};

verus! {

/// A number of pages, each of the size that the tag `T` names.
///
/// Counts of pages of different sizes are different types: adding a count of
/// 4 KiB pages to a count of 2 MiB pages does not compile.
#[derive(Debug, PartialEq, Eq, PartialOrd, Ord, Hash)]
pub struct NumOfPages<T: PageSize> {
    num_of_pages: usize,
    _marker: PhantomData<T>,
}

impl<T: PageSize> Clone for NumOfPages<T> {
    fn clone(&self) -> (r: Self)
        ensures
            r == *self,
    {
        NumOfPages { num_of_pages: self.num_of_pages, _marker: PhantomData }
    }
}

impl<T: PageSize> Copy for NumOfPages<T> {
}

impl<T: PageSize> View for NumOfPages<T> {
    type V = nat;

    closed spec fn view(&self) -> nat {
        self.num_of_pages as nat
    }
}

impl<T: PageSize> NumOfPages<T> {
    /// Creates a count of `num_of_pages` pages.
    pub fn new(num_of_pages: usize) -> (r: Self)
        ensures
            r@ == num_of_pages,
    {
        NumOfPages { num_of_pages, _marker: PhantomData }
    }

    /// No pages, equivalent to `NumOfPages::new(0)`.
    pub fn zero() -> (r: Self)
        ensures
            r@ == 0,
    {
        NumOfPages::new(0)
    }

    /// Returns the number of pages.
    pub fn as_usize(self) -> (r: usize)
        ensures
            r == self@,
    {
        self.num_of_pages
    }

    /// The number of bytes that these pages hold. The product must fit in a
    /// `usize`; `checked_as_bytes` reports when it does not.
    pub fn as_bytes(self) -> (r: Bytes)
        requires
            self@ * T::spec_size() <= usize::MAX,
        ensures
            r@ == self@ * T::spec_size(),
    {
        let size = T::size();
        Bytes::new(self.num_of_pages * size)
    }

    /// The number of bytes that these pages hold, or `Overflow` where that
    /// number does not fit in a `usize`.
    pub fn checked_as_bytes(self) -> (r: Result<Bytes, UnitError>)
        ensures
            r is Ok <==> self@ * T::spec_size() <= usize::MAX,
            r is Ok ==> r->Ok_0@ == self@ * T::spec_size(),
            r is Err ==> r->Err_0 == UnitError::Overflow,
    {
        proof {
            T::lemma_size_valid();
        }
        let size = T::size();
        if self.num_of_pages <= usize::MAX / size {
            proof {
                assert(self@ * size <= usize::MAX) by (nonlinear_arith)
                    requires
                        self@ <= usize::MAX / size,
                        size > 0,
                ;
            }
            Ok(Bytes::new(self.num_of_pages * size))
        } else {
            proof {
                assert(self@ * size > usize::MAX) by (nonlinear_arith)
                    requires
                        self@ > usize::MAX / size,
                        size > 0,
                ;
            }
            Err(UnitError::Overflow)
        }
    }

    /// The sum of two page counts, or `Overflow` where it does not fit in a
    /// `usize`.
    pub fn checked_add(self, rhs: NumOfPages<T>) -> (r: Result<NumOfPages<T>, UnitError>)
        ensures
            r is Ok <==> self@ + rhs@ <= usize::MAX,
            r is Ok ==> r->Ok_0@ == self@ + rhs@,
            r is Err ==> r->Err_0 == UnitError::Overflow,
    {
        if rhs.num_of_pages <= usize::MAX - self.num_of_pages {
            Ok(NumOfPages::new(self.num_of_pages + rhs.num_of_pages))
        } else {
            Err(UnitError::Overflow)
        }
    }

    /// The difference of two page counts, or `Underflow` where `rhs` is the
    /// larger.
    pub fn checked_sub(self, rhs: NumOfPages<T>) -> (r: Result<NumOfPages<T>, UnitError>)
        ensures
            r is Ok <==> rhs@ <= self@,
            r is Ok ==> r->Ok_0@ == self@ - rhs@,
            r is Err ==> r->Err_0 == UnitError::Underflow,
    {
        if rhs.num_of_pages <= self.num_of_pages {
            Ok(NumOfPages::new(self.num_of_pages - rhs.num_of_pages))
        } else {
            Err(UnitError::Underflow)
        }
    }

    /// The page count taken `rhs` times, or `Overflow` where it does not fit
    /// in a `usize`.
    pub fn checked_mul(self, rhs: usize) -> (r: Result<NumOfPages<T>, UnitError>)
        ensures
            r is Ok <==> self@ * rhs <= usize::MAX,
            r is Ok ==> r->Ok_0@ == self@ * rhs,
            r is Err ==> r->Err_0 == UnitError::Overflow,
    {
        if rhs == 0 || self.num_of_pages <= usize::MAX / rhs {
            proof {
                assert(self@ * rhs <= usize::MAX) by (nonlinear_arith)
                    requires
                        rhs == 0 || self@ <= usize::MAX / rhs,
                ;
            }
            Ok(NumOfPages::new(self.num_of_pages * rhs))
        } else {
            proof {
                assert(self@ * rhs > usize::MAX) by (nonlinear_arith)
                    requires
                        rhs > 0,
                        self@ > usize::MAX / rhs,
                ;
            }
            Err(UnitError::Overflow)
        }
    }
}

impl<T: PageSize> core::ops::Add for NumOfPages<T> {
    type Output = NumOfPages<T>;

    fn add(self, rhs: NumOfPages<T>) -> (r: NumOfPages<T>)
        ensures
            r@ == self@ + rhs@,
    {
        NumOfPages::new(self.num_of_pages + rhs.num_of_pages)
    }
}

impl<T: PageSize> vstd::std_specs::ops::AddSpecImpl for NumOfPages<T> {
    open spec fn obeys_add_spec() -> bool {
        true
    }

    open spec fn add_req(self, rhs: NumOfPages<T>) -> bool {
        self@ + rhs@ <= usize::MAX
    }

    closed spec fn add_spec(self, rhs: NumOfPages<T>) -> NumOfPages<T> {
        NumOfPages {
            num_of_pages: (self.num_of_pages + rhs.num_of_pages) as usize,
            _marker: PhantomData,
        }
    }
}

impl<T: PageSize> core::ops::Add<usize> for NumOfPages<T> {
    type Output = NumOfPages<T>;

    fn add(self, rhs: usize) -> (r: NumOfPages<T>)
        ensures
            r@ == self@ + rhs,
    {
        NumOfPages::new(self.num_of_pages + rhs)
    }
}

impl<T: PageSize> vstd::std_specs::ops::AddSpecImpl<usize> for NumOfPages<T> {
    open spec fn obeys_add_spec() -> bool {
        true
    }

    open spec fn add_req(self, rhs: usize) -> bool {
        self@ + rhs <= usize::MAX
    }

    closed spec fn add_spec(self, rhs: usize) -> NumOfPages<T> {
        NumOfPages { num_of_pages: (self.num_of_pages + rhs) as usize, _marker: PhantomData }
    }
}

impl<T: PageSize> core::ops::AddAssign for NumOfPages<T> {
    fn add_assign(&mut self, rhs: NumOfPages<T>)
        requires
            old(self)@ + rhs@ <= usize::MAX,
        ensures
            final(self)@ == old(self)@ + rhs@,
    {
        self.num_of_pages = self.num_of_pages + rhs.num_of_pages;
    }
}

impl<T: PageSize> core::ops::AddAssign<usize> for NumOfPages<T> {
    fn add_assign(&mut self, rhs: usize)
        requires
            old(self)@ + rhs <= usize::MAX,
        ensures
            final(self)@ == old(self)@ + rhs,
    {
        self.num_of_pages = self.num_of_pages + rhs;
    }
}

impl<T: PageSize> core::ops::Sub for NumOfPages<T> {
    type Output = NumOfPages<T>;

    fn sub(self, rhs: NumOfPages<T>) -> (r: NumOfPages<T>)
        ensures
            r@ == self@ - rhs@,
    {
        NumOfPages::new(self.num_of_pages - rhs.num_of_pages)
    }
}

impl<T: PageSize> vstd::std_specs::ops::SubSpecImpl for NumOfPages<T> {
    open spec fn obeys_sub_spec() -> bool {
        true
    }

    open spec fn sub_req(self, rhs: NumOfPages<T>) -> bool {
        rhs@ <= self@
    }

    closed spec fn sub_spec(self, rhs: NumOfPages<T>) -> NumOfPages<T> {
        NumOfPages {
            num_of_pages: (self.num_of_pages - rhs.num_of_pages) as usize,
            _marker: PhantomData,
        }
    }
}

impl<T: PageSize> core::ops::Sub<usize> for NumOfPages<T> {
    type Output = NumOfPages<T>;

    fn sub(self, rhs: usize) -> (r: NumOfPages<T>)
        ensures
            r@ == self@ - rhs,
    {
        NumOfPages::new(self.num_of_pages - rhs)
    }
}

impl<T: PageSize> vstd::std_specs::ops::SubSpecImpl<usize> for NumOfPages<T> {
    open spec fn obeys_sub_spec() -> bool {
        true
    }

    open spec fn sub_req(self, rhs: usize) -> bool {
        rhs <= self@
    }

    closed spec fn sub_spec(self, rhs: usize) -> NumOfPages<T> {
        NumOfPages { num_of_pages: (self.num_of_pages - rhs) as usize, _marker: PhantomData }
    }
}

impl<T: PageSize> core::ops::SubAssign for NumOfPages<T> {
    fn sub_assign(&mut self, rhs: NumOfPages<T>)
        requires
            rhs@ <= old(self)@,
        ensures
            final(self)@ == old(self)@ - rhs@,
    {
        self.num_of_pages = self.num_of_pages - rhs.num_of_pages;
    }
}

impl<T: PageSize> core::ops::SubAssign<usize> for NumOfPages<T> {
    fn sub_assign(&mut self, rhs: usize)
        requires
            rhs <= old(self)@,
        ensures
            final(self)@ == old(self)@ - rhs,
    {
        self.num_of_pages = self.num_of_pages - rhs;
    }
}

impl<T: PageSize> core::ops::Mul<usize> for NumOfPages<T> {
    type Output = NumOfPages<T>;

    fn mul(self, rhs: usize) -> (r: NumOfPages<T>)
        ensures
            r@ == self@ * rhs,
    {
        NumOfPages::new(self.num_of_pages * rhs)
    }
}

impl<T: PageSize> vstd::std_specs::ops::MulSpecImpl<usize> for NumOfPages<T> {
    open spec fn obeys_mul_spec() -> bool {
        true
    }

    open spec fn mul_req(self, rhs: usize) -> bool {
        self@ * rhs <= usize::MAX
    }

    closed spec fn mul_spec(self, rhs: usize) -> NumOfPages<T> {
        NumOfPages { num_of_pages: (self.num_of_pages * rhs) as usize, _marker: PhantomData }
    }
}

impl<T: PageSize> core::ops::MulAssign<usize> for NumOfPages<T> {
    fn mul_assign(&mut self, rhs: usize)
        requires
            old(self)@ * rhs <= usize::MAX,
        ensures
            final(self)@ == old(self)@ * rhs,
    {
        self.num_of_pages = self.num_of_pages * rhs;
    }
}

impl<T: PageSize> core::ops::Div<usize> for NumOfPages<T> {
    type Output = NumOfPages<T>;

    fn div(self, rhs: usize) -> (r: NumOfPages<T>)
        ensures
            r@ == self@ / (rhs as nat),
    {
        NumOfPages::new(self.num_of_pages / rhs)
    }
}

impl<T: PageSize> vstd::std_specs::ops::DivSpecImpl<usize> for NumOfPages<T> {
    open spec fn obeys_div_spec() -> bool {
        true
    }

    open spec fn div_req(self, rhs: usize) -> bool {
        rhs != 0
    }

    closed spec fn div_spec(self, rhs: usize) -> NumOfPages<T> {
        NumOfPages { num_of_pages: self.num_of_pages / rhs, _marker: PhantomData }
    }
}

impl<T: PageSize> core::ops::DivAssign<usize> for NumOfPages<T> {
    fn div_assign(&mut self, rhs: usize)
        requires
            rhs != 0,
        ensures
            final(self)@ == old(self)@ / (rhs as nat),
    {
        self.num_of_pages = self.num_of_pages / rhs;
    }
}

impl<T: PageSize> From<usize> for NumOfPages<T> {
    fn from(n: usize) -> (r: NumOfPages<T>)
        ensures
            r@ == n,
    {
        NumOfPages::new(n)
    }
}

impl<T: PageSize> vstd::std_specs::convert::FromSpecImpl<usize> for NumOfPages<T> {
    open spec fn obeys_from_spec() -> bool {
        true
    }

    closed spec fn from_spec(n: usize) -> NumOfPages<T> {
        NumOfPages { num_of_pages: n, _marker: PhantomData }
    }
}

/// Adding page counts does not depend on the order of the operands.
pub proof fn lemma_pages_add_commutative<T: PageSize>(a: NumOfPages<T>, b: NumOfPages<T>)
    requires
        a@ + b@ <= usize::MAX,
    ensures
        a.add_spec(b) == b.add_spec(a),
{
}

/// Adding page counts does not depend on how the sums are grouped.
pub proof fn lemma_pages_add_associative<T: PageSize>(
    a: NumOfPages<T>,
    b: NumOfPages<T>,
    c: NumOfPages<T>,
)
    requires
        a@ + b@ + c@ <= usize::MAX,
    ensures
        a.add_spec(b).add_spec(c) == a.add_spec(b.add_spec(c)),
{
}

/// Subtracting what was added gives back the first operand, and adding back
/// what was subtracted does too.
pub proof fn lemma_pages_add_sub_inverse<T: PageSize>(a: NumOfPages<T>, b: NumOfPages<T>)
    ensures
        a@ + b@ <= usize::MAX ==> a.add_spec(b).sub_spec(b) == a,
        b@ <= a@ ==> a.sub_spec(b).add_spec(b) == a,
{
}

/// Converting a page count to bytes and back gives the same page count: the
/// bytes of whole pages need no rounding.
pub proof fn lemma_pages_round_trip<T: PageSize>(n: NumOfPages<T>)
    ensures
        ceil_div(n@ * T::spec_size(), T::spec_size()) == n@,
{
    T::lemma_size_valid();
    let p = T::spec_size() as int;
    lemma_ceil_div_quotient(n@ * T::spec_size(), T::spec_size());
    vstd::arithmetic::div_mod::lemma_div_multiples_vanish(n@ as int, p);
    vstd::arithmetic::div_mod::lemma_mod_multiples_basic(n@ as int, p);
    assert(n@ * p == p * n@) by (nonlinear_arith);
}

} // verus!
