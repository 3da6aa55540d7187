use vstd::prelude::*;

verus! {

/// Page number used when a listing request names none (pages count from 1).
pub const DEFAULT_PAGE: u64 = 1;

/// Page size used when a listing request names none.
pub const DEFAULT_PAGE_SIZE: u64 = 10;

/// A page request that can be served: pages count from 1, a page holds at
/// least one row, and the offset of its first row fits in a `u64`.
pub open spec fn is_valid_page(page: int, page_size: int) -> bool {
    &&& page >= 1
    &&& page_size >= 1
    &&& (page - 1) * page_size <= u64::MAX
}

/// Index of the first row of a page.
pub open spec fn offset_of(page: int, page_size: int) -> int {
    (page - 1) * page_size
}

/// The rows of `rows` that page `page` of size `page_size` holds, in storage
/// order: empty once the offset reaches past the end.
pub open spec fn page_of<T>(rows: Seq<T>, page: int, page_size: int) -> Seq<T> {
    let off = offset_of(page, page_size);
    if off >= rows.len() {
        Seq::empty()
    } else if off + page_size >= rows.len() {
        rows.subrange(off, rows.len() as int)
    } else {
        rows.subrange(off, off + page_size)
    }
}

/// The offset of the first row of a page, or `None` for a request that
/// cannot be served.
pub fn page_offset(page: u64, page_size: u64) -> (r: Option<u64>)
    ensures
        r.is_some() == is_valid_page(page as int, page_size as int),
        r.is_some() ==> r.unwrap() == offset_of(page as int, page_size as int),
{
    if page == 0 || page_size == 0 {
        return None;
    }
    (page - 1).checked_mul(page_size)
}

} // verus!
