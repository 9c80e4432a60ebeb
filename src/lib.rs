//! Memory extents measured in bytes and in pages of a fixed size, with
//! verified conversions and checked arithmetic between them.
//!
//! `Bytes` counts bytes; `NumOfPages<T>` counts pages of the size that the tag
//! `T` names (x86_64's `Size4KiB`, `Size2MiB` and `Size1GiB` are tags here).
//! Bytes become pages by a division that rounds up, and pages become bytes by
//! an exact multiplication.

mod bytes;
mod error;
mod num_of_pages;
mod page_size;

pub use bytes::{
    decimal, lemma_bytes_add_associative, lemma_bytes_add_commutative,
    lemma_bytes_add_sub_inverse, lemma_bytes_round_trip, Bytes,
};
pub use error::UnitError;
pub use num_of_pages::{
    lemma_pages_add_associative, lemma_pages_add_commutative, lemma_pages_add_sub_inverse,
    lemma_pages_round_trip, NumOfPages,
};
pub use page_size::{ceil_div, lemma_ceil_div_bounds, lemma_ceil_div_quotient, PageSize};
