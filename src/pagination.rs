//! The page arithmetic of a `paginate` call.
use vstd::prelude::*;

verus! {

/// Pages needed for `total` items, `page_size` to a page: the quotient, plus
/// one where a remainder is left.
pub open spec fn num_pages_spec(total: int, page_size: int) -> int {
    total / page_size + if total % page_size != 0 {
        1int
    } else {
        0int
    }
}

/// The page index, clamped to at least 0.
pub open spec fn clamp_page(page: int) -> int {
    if page < 0 {
        0
    } else {
        page
    }
}

/// The page size, clamped to at least 1.
pub open spec fn clamp_page_size(page_size: int) -> int {
    if page_size < 1 {
        1
    } else {
        page_size
    }
}

/// One page of items and where it stands.
#[derive(Debug)]
pub struct PaginationResult<T> {
    /// The items of the current page
    pub items: Vec<T>,
    /// How many items there are in all
    pub total_items: i64,
    /// Current page, 0-based
    pub page: i64,
    /// Size of a page
    pub page_size: i64,
    /// How many pages there are, given `page_size` and `total_items`
    pub num_pages: i64,
}

/// Pages needed for `total_items` items of `page_size` to a page.
pub fn num_pages(total_items: i64, page_size: i64) -> (r: i64)
    requires
        total_items >= 0,
        page_size >= 1,
    ensures
        r == num_pages_spec(total_items as int, page_size as int),
        r * page_size >= total_items,
        (r - 1) * page_size < total_items || r == 0,
{
    let q = total_items / page_size;
    let extra: i64 = if total_items % page_size != 0 { 1 } else { 0 };
    assert(q * page_size + total_items % page_size == total_items) by (nonlinear_arith)
        requires
            q == total_items / page_size,
            page_size >= 1,
    ;
    assert(q <= total_items) by (nonlinear_arith)
        requires
            q * page_size <= total_items,
            page_size >= 1,
            q >= 0,
            total_items >= 0,
    ;
    assert(extra == 1 ==> q < i64::MAX) by (nonlinear_arith)
        requires
            q * page_size + total_items % page_size == total_items,
            extra == 1 ==> total_items % page_size >= 1,
            total_items <= i64::MAX,
            page_size >= 1,
            q >= 0,
    ;
    let r = q + extra;
    assert(r * page_size >= total_items && ((r - 1) * page_size < total_items || r == 0)) by (nonlinear_arith)
        requires
            q * page_size + total_items % page_size == total_items,
            0 <= total_items % page_size < page_size,
            r == q + extra,
            extra == (if total_items % page_size != 0 { 1int } else { 0int }),
            page_size >= 1,
            total_items >= 0,
    ;
    r
}

impl<T> PaginationResult<T> {
    /// The page `page` of `page_size` items, out of `total_items`, with
    /// `page` clamped to at least 0 and `page_size` to at least 1.
    pub fn new(
        items: Vec<T>,
        total_items: i64,
        page: i64,
        page_size: i64,
    ) -> (r: PaginationResult<T>)
        requires
            total_items >= 0,
        ensures
            r.items@ == items@,
            r.total_items == total_items,
            r.page == clamp_page(page as int),
            r.page_size == clamp_page_size(page_size as int),
            r.num_pages == num_pages_spec(total_items as int, clamp_page_size(page_size as int)),
    {
        let page = if page < 0 { 0 } else { page };
        let page_size = if page_size < 1 { 1 } else { page_size };
        let n = num_pages(total_items, page_size);
        PaginationResult { items, total_items, page, page_size, num_pages: n }
    }
}

} // verus!
