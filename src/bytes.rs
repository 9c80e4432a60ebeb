use crate::error::UnitError;
use crate::num_of_pages::NumOfPages;
use crate::page_size::{ceil_div, lemma_ceil_div_bounds, lemma_ceil_div_quotient, PageSize};
use vstd::prelude::*;
use vstd::std_specs::ops::{AddSpec, SubSpec};

verus! {

/// The decimal digits of `n`, most significant first, without leading zeros.
pub open spec fn decimal(n: nat) -> Seq<char>
    decreases n,
{
    let digit = seq!['0', '1', '2', '3', '4', '5', '6', '7', '8', '9'][(n % 10) as int];
    if n < 10 {
        seq![digit]
    } else {
        decimal(n / 10).push(digit)
    }
}

/// Relies on std's `ToString` for `usize`, which goes through its `Display`:
/// the decimal digits of `n`, with no sign and no leading zeros.
#[verifier::external_body]
fn decimal_text(n: usize) -> (r: String)
    ensures
        r@ == decimal(n as nat),
{
    n.to_string()
}

/// A number of bytes.
#[derive(Debug, Clone, Copy, PartialEq, Eq, Structural, PartialOrd, Ord, Hash)]
pub struct Bytes(usize);

impl View for Bytes {
    type V = nat;

    closed spec fn view(&self) -> nat {
        self.0 as nat
    }
}

impl Bytes {
    /// Creates a byte count of `bytes`.
    pub fn new(bytes: usize) -> (r: Self)
        ensures
            r@ == bytes,
    {
        Bytes(bytes)
    }

    /// The empty extent, equivalent to `Bytes::new(0)`.
    pub fn zero() -> (r: Self)
        ensures
            r@ == 0,
    {
        Bytes::new(0)
    }

    /// Returns the number of bytes.
    pub fn as_usize(self) -> (r: usize)
        ensures
            r == self@,
    {
        self.0
    }

    /// The number of pages of size `T` that are needed to hold these bytes:
    /// the division rounds up, so that the pages always cover the bytes.
    pub fn as_num_of_pages<T: PageSize>(self) -> (r: NumOfPages<T>)
        ensures
            r@ == ceil_div(self@, T::spec_size()),
    {
        proof {
            T::lemma_size_valid();
            lemma_ceil_div_quotient(self@, T::spec_size());
        }
        let size = T::size();
        let whole = self.0 / size;
        if self.0 % size == 0 {
            NumOfPages::new(whole)
        } else {
            proof {
                assert(whole < usize::MAX) by (nonlinear_arith)
                    requires
                        whole == self.0 / size,
                        self.0 % size != 0,
                        self.0 <= usize::MAX,
                        size > 0,
                ;
            }
            NumOfPages::new(whole + 1)
        }
    }

    /// The count as text: the number, then `byte` for exactly one byte and
    /// `bytes` otherwise.
    pub fn to_string(&self) -> (r: String)
        ensures
            r@ == decimal(self@) + (if self@ == 1 {
                " byte"@
            } else {
                " bytes"@
            }),
    {
        let digits = decimal_text(self.0);
        if self.0 == 1 {
            digits.concat(" byte")
        } else {
            digits.concat(" bytes")
        }
    }

    /// The sum of two byte counts, or `Overflow` where it does not fit in a
    /// `usize`.
    pub fn checked_add(self, rhs: Bytes) -> (r: Result<Bytes, UnitError>)
        ensures
            r is Ok <==> self@ + rhs@ <= usize::MAX,
            r is Ok ==> r->Ok_0@ == self@ + rhs@,
            r is Err ==> r->Err_0 == UnitError::Overflow,
    {
        if rhs.0 <= usize::MAX - self.0 {
            Ok(Bytes(self.0 + rhs.0))
        } else {
            Err(UnitError::Overflow)
        }
    }

    /// The difference of two byte counts, or `Underflow` where `rhs` is the
    /// larger.
    pub fn checked_sub(self, rhs: Bytes) -> (r: Result<Bytes, UnitError>)
        ensures
            r is Ok <==> rhs@ <= self@,
            r is Ok ==> r->Ok_0@ == self@ - rhs@,
            r is Err ==> r->Err_0 == UnitError::Underflow,
    {
        if rhs.0 <= self.0 {
            Ok(Bytes(self.0 - rhs.0))
        } else {
            Err(UnitError::Underflow)
        }
    }

    /// The byte count taken `rhs` times, or `Overflow` where it does not fit
    /// in a `usize`.
    pub fn checked_mul(self, rhs: usize) -> (r: Result<Bytes, UnitError>)
        ensures
            r is Ok <==> self@ * rhs <= usize::MAX,
            r is Ok ==> r->Ok_0@ == self@ * rhs,
            r is Err ==> r->Err_0 == UnitError::Overflow,
    {
        if rhs == 0 || self.0 <= usize::MAX / rhs {
            proof {
                assert(self@ * rhs <= usize::MAX) by (nonlinear_arith)
                    requires
                        rhs == 0 || self@ <= usize::MAX / rhs,
                ;
            }
            Ok(Bytes(self.0 * rhs))
        } else {
            proof {
                assert(self@ * rhs > usize::MAX) by (nonlinear_arith)
                    requires
                        rhs > 0,
                        self@ > usize::MAX / rhs,
                ;
            }
            Err(UnitError::Overflow)
        }
    }
}

impl core::ops::Add for Bytes {
    type Output = Bytes;

    fn add(self, rhs: Bytes) -> (r: Bytes)
        ensures
            r@ == self@ + rhs@,
    {
        Bytes(self.0 + rhs.0)
    }
}

impl vstd::std_specs::ops::AddSpecImpl for Bytes {
    open spec fn obeys_add_spec() -> bool {
        true
    }

    open spec fn add_req(self, rhs: Bytes) -> bool {
        self@ + rhs@ <= usize::MAX
    }

    closed spec fn add_spec(self, rhs: Bytes) -> Bytes {
        Bytes((self.0 + rhs.0) as usize)
    }
}

impl core::ops::Add<usize> for Bytes {
    type Output = Bytes;

    fn add(self, rhs: usize) -> (r: Bytes)
        ensures
            r@ == self@ + rhs,
    {
        Bytes(self.0 + rhs)
    }
}

impl vstd::std_specs::ops::AddSpecImpl<usize> for Bytes {
    open spec fn obeys_add_spec() -> bool {
        true
    }

    open spec fn add_req(self, rhs: usize) -> bool {
        self@ + rhs <= usize::MAX
    }

    closed spec fn add_spec(self, rhs: usize) -> Bytes {
        Bytes((self.0 + rhs) as usize)
    }
}

impl core::ops::AddAssign for Bytes {
    fn add_assign(&mut self, rhs: Bytes)
        requires
            old(self)@ + rhs@ <= usize::MAX,
        ensures
            final(self)@ == old(self)@ + rhs@,
    {
        self.0 = self.0 + rhs.0;
    }
}

impl core::ops::AddAssign<usize> for Bytes {
    fn add_assign(&mut self, rhs: usize)
        requires
            old(self)@ + rhs <= usize::MAX,
        ensures
            final(self)@ == old(self)@ + rhs,
    {
        self.0 = self.0 + rhs;
    }
}

impl core::ops::Sub for Bytes {
    type Output = Bytes;

    fn sub(self, rhs: Bytes) -> (r: Bytes)
        ensures
            r@ == self@ - rhs@,
    {
        Bytes(self.0 - rhs.0)
    }
}

impl vstd::std_specs::ops::SubSpecImpl for Bytes {
    open spec fn obeys_sub_spec() -> bool {
        true
    }

    open spec fn sub_req(self, rhs: Bytes) -> bool {
        rhs@ <= self@
    }

    closed spec fn sub_spec(self, rhs: Bytes) -> Bytes {
        Bytes((self.0 - rhs.0) as usize)
    }
}

impl core::ops::Sub<usize> for Bytes {
    type Output = Bytes;

    fn sub(self, rhs: usize) -> (r: Bytes)
        ensures
            r@ == self@ - rhs,
    {
        Bytes(self.0 - rhs)
    }
}

impl vstd::std_specs::ops::SubSpecImpl<usize> for Bytes {
    open spec fn obeys_sub_spec() -> bool {
        true
    }

    open spec fn sub_req(self, rhs: usize) -> bool {
        rhs <= self@
    }

    closed spec fn sub_spec(self, rhs: usize) -> Bytes {
        Bytes((self.0 - rhs) as usize)
    }
}

impl core::ops::SubAssign for Bytes {
    fn sub_assign(&mut self, rhs: Bytes)
        requires
            rhs@ <= old(self)@,
        ensures
            final(self)@ == old(self)@ - rhs@,
    {
        self.0 = self.0 - rhs.0;
    }
}

impl core::ops::SubAssign<usize> for Bytes {
    fn sub_assign(&mut self, rhs: usize)
        requires
            rhs <= old(self)@,
        ensures
            final(self)@ == old(self)@ - rhs,
    {
        self.0 = self.0 - rhs;
    }
}

impl core::ops::Mul<usize> for Bytes {
    type Output = Bytes;

    fn mul(self, rhs: usize) -> (r: Bytes)
        ensures
            r@ == self@ * rhs,
    {
        Bytes(self.0 * rhs)
    }
}

impl vstd::std_specs::ops::MulSpecImpl<usize> for Bytes {
    open spec fn obeys_mul_spec() -> bool {
        true
    }

    open spec fn mul_req(self, rhs: usize) -> bool {
        self@ * rhs <= usize::MAX
    }

    closed spec fn mul_spec(self, rhs: usize) -> Bytes {
        Bytes((self.0 * rhs) as usize)
    }
}

impl core::ops::MulAssign<usize> for Bytes {
    fn mul_assign(&mut self, rhs: usize)
        requires
            old(self)@ * rhs <= usize::MAX,
        ensures
            final(self)@ == old(self)@ * rhs,
    {
        self.0 = self.0 * rhs;
    }
}

impl core::ops::Div<usize> for Bytes {
    type Output = Bytes;

    fn div(self, rhs: usize) -> (r: Bytes)
        ensures
            r@ == self@ / (rhs as nat),
    {
        Bytes(self.0 / rhs)
    }
}

impl vstd::std_specs::ops::DivSpecImpl<usize> for Bytes {
    open spec fn obeys_div_spec() -> bool {
        true
    }

    open spec fn div_req(self, rhs: usize) -> bool {
        rhs != 0
    }

    closed spec fn div_spec(self, rhs: usize) -> Bytes {
        Bytes(self.0 / rhs)
    }
}

impl core::ops::DivAssign<usize> for Bytes {
    fn div_assign(&mut self, rhs: usize)
        requires
            rhs != 0,
        ensures
            final(self)@ == old(self)@ / (rhs as nat),
    {
        self.0 = self.0 / rhs;
    }
}

/// Adding byte counts does not depend on the order of the operands.
pub proof fn lemma_bytes_add_commutative(a: Bytes, b: Bytes)
    requires
        a@ + b@ <= usize::MAX,
    ensures
        a.add_spec(b) == b.add_spec(a),
{
}

/// Adding byte counts does not depend on how the sums are grouped.
pub proof fn lemma_bytes_add_associative(a: Bytes, b: Bytes, c: Bytes)
    requires
        a@ + b@ + c@ <= usize::MAX,
    ensures
        a.add_spec(b).add_spec(c) == a.add_spec(b.add_spec(c)),
{
}

/// Subtracting what was added gives back the first operand, and adding back
/// what was subtracted does too.
pub proof fn lemma_bytes_add_sub_inverse(a: Bytes, b: Bytes)
    ensures
        a@ + b@ <= usize::MAX ==> a.add_spec(b).sub_spec(b) == a,
        b@ <= a@ ==> a.sub_spec(b).add_spec(b) == a,
{
}

/// Converting bytes to pages and back never loses bytes: the result is at
/// least the starting count, and larger exactly when the count is not a whole
/// number of pages.
pub proof fn lemma_bytes_round_trip<T: PageSize>(b: Bytes)
    ensures
        ceil_div(b@, T::spec_size()) * T::spec_size() >= b@,
        ceil_div(b@, T::spec_size()) * T::spec_size() > b@ <==> b@ % T::spec_size() != 0,
{
    T::lemma_size_valid();
    lemma_ceil_div_bounds(b@, T::spec_size());
    lemma_ceil_div_quotient(b@, T::spec_size());
    let n = b@ as int;
    let p = T::spec_size() as int;
    let q: int = n / p;
    let r: int = n % p;
    vstd::arithmetic::div_mod::lemma_fundamental_div_mod(n, p);
    if r == 0 {
        assert(q * p == n) by (nonlinear_arith)
            requires
                n == p * q + r,
                r == 0,
        ;
    } else {
        assert((q + 1) * p > n) by (nonlinear_arith)
            requires
                n == p * q + r,
                r < p,
        ;
    }
}

} // verus!
