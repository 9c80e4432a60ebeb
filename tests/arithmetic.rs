use os_units::{Bytes, NumOfPages, UnitError};
use x86_64::structures::paging::Size4KiB;

#[test]
fn checked_add_bytes() {
    assert_eq!(Bytes::new(3).checked_add(Bytes::new(1)), Ok(Bytes::new(4)));
    assert_eq!(
        Bytes::new(usize::MAX).checked_add(Bytes::new(1)),
        Err(UnitError::Overflow)
    );
    assert_eq!(
        Bytes::new(usize::MAX - 1).checked_add(Bytes::new(1)),
        Ok(Bytes::new(usize::MAX))
    );
}

#[test]
fn checked_sub_bytes() {
    assert_eq!(Bytes::new(3).checked_sub(Bytes::new(3)), Ok(Bytes::zero()));
    assert_eq!(Bytes::new(3).checked_sub(Bytes::new(4)), Err(UnitError::Underflow));
}

#[test]
fn checked_mul_bytes() {
    assert_eq!(Bytes::new(3).checked_mul(4), Ok(Bytes::new(12)));
    assert_eq!(Bytes::new(usize::MAX).checked_mul(0), Ok(Bytes::zero()));
    assert_eq!(Bytes::new(usize::MAX / 2 + 1).checked_mul(2), Err(UnitError::Overflow));
}

#[test]
fn checked_ops_on_pages() {
    let p = NumOfPages::<Size4KiB>::new(3);
    assert_eq!(p.checked_add(NumOfPages::new(1)), Ok(NumOfPages::new(4)));
    assert_eq!(p.checked_sub(NumOfPages::new(5)), Err(UnitError::Underflow));
    assert_eq!(p.checked_mul(usize::MAX), Err(UnitError::Overflow));
    assert_eq!(
        NumOfPages::<Size4KiB>::new(usize::MAX).checked_add(NumOfPages::new(1)),
        Err(UnitError::Overflow)
    );
}

#[test]
fn add_is_commutative_and_associative() {
    let (a, b, c) = (Bytes::new(3), Bytes::new(40), Bytes::new(500));
    assert_eq!(a + b, b + a);
    assert_eq!((a + b) + c, a + (b + c));
    let (p, q) = (NumOfPages::<Size4KiB>::new(7), NumOfPages::<Size4KiB>::new(9));
    assert_eq!(p + q, q + p);
}

#[test]
fn add_then_sub_gives_back() {
    let (a, b) = (Bytes::new(3), Bytes::new(40));
    assert_eq!((a + b) - b, a);
    assert_eq!((b - a) + a, b);
    let (p, q) = (NumOfPages::<Size4KiB>::new(7), NumOfPages::<Size4KiB>::new(9));
    assert_eq!((p + q) - q, p);
}

#[test]
fn bytes_as_text() {
    assert_eq!(Bytes::new(0).to_string(), "0 bytes");
    assert_eq!(Bytes::new(1).to_string(), "1 byte");
    assert_eq!(Bytes::new(2).to_string(), "2 bytes");
    assert_eq!(Bytes::new(4096).to_string(), "4096 bytes");
}

#[test]
fn bytes_order_by_magnitude() {
    assert!(Bytes::new(3) < Bytes::new(4));
    assert!(NumOfPages::<Size4KiB>::new(9) > NumOfPages::new(2));
}
