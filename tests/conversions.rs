use os_units::{Bytes, NumOfPages, PageSize, UnitError};
use x86_64::structures::paging::{Size1GiB, Size2MiB, Size4KiB};

#[test]
fn page_sizes_of_x86_64() {
    assert_eq!(<Size4KiB as PageSize>::size(), 4096);
    assert_eq!(<Size2MiB as PageSize>::size(), 0x20_0000);
    assert_eq!(<Size1GiB as PageSize>::size(), 0x4000_0000);
}

#[test]
fn partial_page_rounds_up() {
    assert_eq!(Bytes::new(4097).as_num_of_pages::<Size4KiB>().as_usize(), 2);
    assert_eq!(Bytes::new(4095).as_num_of_pages::<Size4KiB>().as_usize(), 1);
    assert_eq!(Bytes::new(1).as_num_of_pages::<Size1GiB>().as_usize(), 1);
    assert_eq!(Bytes::new(314159).as_num_of_pages::<Size4KiB>().as_usize(), 77);
}

#[test]
fn whole_pages_do_not_round() {
    assert_eq!(Bytes::new(8192).as_num_of_pages::<Size4KiB>().as_usize(), 2);
    assert_eq!(Bytes::new(0x40_0000).as_num_of_pages::<Size2MiB>().as_usize(), 2);
}

#[test]
fn zero_bytes_need_no_pages() {
    assert_eq!(Bytes::zero().as_num_of_pages::<Size4KiB>().as_usize(), 0);
}

#[test]
fn largest_byte_count_converts_without_overflow() {
    let pages = Bytes::new(usize::MAX).as_num_of_pages::<Size4KiB>();
    assert_eq!(pages.as_usize(), usize::MAX / 4096 + 1);
}

#[test]
fn rounding_covers_bytes_and_no_page_is_spare() {
    for b in [1usize, 4095, 4096, 4097, 10_000, 314159] {
        let pages = Bytes::new(b).as_num_of_pages::<Size4KiB>().as_usize();
        assert!(pages * 4096 >= b);
        assert!((pages - 1) * 4096 < b);
    }
}

#[test]
fn pages_to_bytes_and_back_is_identity() {
    for n in [0usize, 1, 2, 77, 512] {
        let pages = NumOfPages::<Size2MiB>::new(n);
        assert_eq!(pages.as_bytes().as_num_of_pages::<Size2MiB>(), pages);
    }
}

#[test]
fn unaligned_bytes_grow_on_round_trip() {
    let b = Bytes::new(314159);
    let back = b.as_num_of_pages::<Size4KiB>().as_bytes();
    assert_eq!(back, Bytes::new(315392));
    assert!(back > b);
}

#[test]
fn aligned_bytes_survive_round_trip() {
    let b = Bytes::new(0x3000);
    assert_eq!(b.as_num_of_pages::<Size4KiB>().as_bytes(), b);
}

#[test]
fn checked_as_bytes_exact() {
    let pages = NumOfPages::<Size4KiB>::new(3);
    assert_eq!(pages.checked_as_bytes(), Ok(Bytes::new(0x3000)));
}

#[test]
fn checked_as_bytes_overflow() {
    let pages = NumOfPages::<Size4KiB>::new(usize::MAX / 4096 + 1);
    assert_eq!(pages.checked_as_bytes(), Err(UnitError::Overflow));
    let pages = NumOfPages::<Size4KiB>::new(usize::MAX / 4096);
    assert_eq!(pages.checked_as_bytes(), Ok(Bytes::new(usize::MAX / 4096 * 4096)));
}

#[test]
fn page_count_from_usize() {
    let n: NumOfPages<Size1GiB> = NumOfPages::from(5);
    assert_eq!(n.as_usize(), 5);
}
