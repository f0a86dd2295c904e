//! Partial updates: a field given in the request replaces the stored one, a
//! field left out keeps it.
use vstd::prelude::*;

verus! {

/// The given value if any, else the stored one (`Option::or`).
pub open spec fn given_or<T>(given: Option<T>, stored: Option<T>) -> Option<T> {
    match given {
        Some(v) => Some(v),
        None => stored,
    }
}

/// The given value if any, else the stored one (`Option::unwrap_or`).
pub open spec fn given_or_keep<T>(given: Option<T>, stored: T) -> T {
    match given {
        Some(v) => v,
        None => stored,
    }
}

/// The given value if any, else the stored one.
pub fn or_stored<T>(given: Option<T>, stored: Option<T>) -> (r: Option<T>)
    ensures
        r == given_or(given, stored),
{
    match given {
        Some(v) => Some(v),
        None => stored,
    }
}

/// The given value if any, else the stored one.
pub fn unwrap_or_stored<T>(given: Option<T>, stored: T) -> (r: T)
    ensures
        r == given_or_keep(given, stored),
{
    match given {
        Some(v) => v,
        None => stored,
    }
}

/// Offset of the first row of page `page` (counted from 1) with `per_page`
/// rows a page.
pub open spec fn spec_page_offset(page: u32, per_page: u32) -> int {
    (page - 1) * per_page
}

/// Offset of the first row of page `page` (counted from 1).  Page 0, or an
/// offset past `u32::MAX`, is an arithmetic overflow and is not accepted.
pub fn page_offset(page: u32, per_page: u32) -> (r: u32)
    requires
        page >= 1,
        (page - 1) * per_page <= u32::MAX,
    ensures
        r == spec_page_offset(page, per_page),
{
    (page - 1) * per_page
}

/// `page_offset` for any input: `None` where the offset overflows.
pub fn checked_page_offset(page: u32, per_page: u32) -> (r: Option<u32>)
    ensures
        r is Some <==> (page >= 1 && (page - 1) * per_page <= u32::MAX),
        r matches Some(o) ==> o == spec_page_offset(page, per_page),
{
    if page == 0 {
        return None;
    }
    let p: u64 = (page - 1) as u64;
    let q: u64 = per_page as u64;
    assert(p * q <= 0xffff_ffff * 0xffff_ffff) by (nonlinear_arith)
        requires
            p <= 0xffff_ffff,
            q <= 0xffff_ffff,
    ;
    if p * q > u32::MAX as u64 {
        None
    } else {
        Some(page_offset(page, per_page))
    }
}

} // verus!
