//! One pagination shape for three upstream styles: a single page that may
//! have more, offset-based pages with a known total, and cursor-based pages.

use vstd::prelude::*;

use crate::errors::{DatadogError, ErrorView};

verus! {

/// Where a page of results stands among all results.
#[derive(Debug, Clone, Copy, PartialEq, Eq, Structural)]
pub struct PaginationInfo {
    pub total: usize,
    pub page: usize,
    pub page_size: usize,
    pub has_next: bool,
    /// The offset of the next page; only given where one follows.
    pub next_offset: Option<usize>,
}

impl PaginationInfo {
    /// A next offset is only exposed where a next page exists.
    pub open spec fn well_formed(&self) -> bool {
        self.next_offset is Some ==> self.has_next
    }

    /// A page from an API that gives no total: a full page suggests more.
    pub fn single_page(result_count: usize, limit: usize) -> (r: Self)
        ensures
            r == (PaginationInfo {
                total: result_count,
                page: 0,
                page_size: limit,
                has_next: result_count >= limit,
                next_offset: None,
            }),
            r.well_formed(),
    {
        PaginationInfo {
            total: result_count,
            page: 0,
            page_size: limit,
            has_next: result_count >= limit,
            next_offset: None,
        }
    }

    /// A page of `count` results from offset `start` out of `total`.
    pub fn from_offset(total: usize, start: usize, count: usize) -> (r: Self)
        requires
            count > 0,
            start + count <= usize::MAX,
        ensures
            r == (PaginationInfo {
                total,
                page: start / count,
                page_size: count,
                has_next: start + count < total,
                next_offset: if start + count < total {
                    Some((start + count) as usize)
                } else {
                    None
                },
            }),
            r.well_formed(),
            r.has_next ==> r.next_offset is Some,
    {
        let page = start / count;
        let next_offset = start + count;
        let has_next = next_offset < total;
        PaginationInfo {
            total,
            page,
            page_size: count,
            has_next,
            next_offset: if has_next {
                Some(next_offset)
            } else {
                None
            },
        }
    }

    /// A page from a cursor-based API: no page index, and a next page exactly
    /// where the response carried a continuation cursor.
    pub fn from_cursor(total: usize, page_size: usize, has_cursor: bool) -> (r: Self)
        ensures
            r == (PaginationInfo {
                total,
                page: 0,
                page_size,
                has_next: has_cursor,
                next_offset: None,
            }),
            r.well_formed(),
    {
        PaginationInfo { total, page: 0, page_size, has_next: has_cursor, next_offset: None }
    }
}

/// The summary of page `page` of `page_size` results out of `total`: a next
/// page exists while the pages so far fall short of the total.
pub fn format_pagination(page: usize, page_size: usize, total: usize) -> (r: PaginationInfo)
    requires
        page < usize::MAX,
        (page + 1) * page_size <= usize::MAX,
    ensures
        r == (PaginationInfo {
            total,
            page,
            page_size,
            has_next: (page + 1) * page_size < total,
            next_offset: None,
        }),
        r.well_formed(),
{
    let seen = (page + 1) * page_size;
    PaginationInfo { total, page, page_size, has_next: seen < total, next_offset: None }
}

/// The items of page `page` (counted from zero) of `page_size` items each;
/// empty past the end.
pub open spec fn page_of<T>(data: Seq<T>, page: nat, page_size: nat) -> Seq<T> {
    let start: int = (page * page_size) as int;
    if start < data.len() {
        let end: int = if start + page_size < data.len() {
            start + page_size as int
        } else {
            data.len() as int
        };
        data.subrange(start as int, end)
    } else {
        Seq::<T>::empty()
    }
}

/// The slice of `data` on page `page` of `page_size` items.
pub fn paginate<'a, T>(data: &'a [T], page: usize, page_size: usize) -> (r: &'a [T])
    requires
        page * page_size + page_size <= usize::MAX,
    ensures
        r@ == page_of(data@, page as nat, page_size as nat),
{
    assert(0 <= page * page_size <= page * page_size + page_size) by (nonlinear_arith)
        requires
            page >= 0,
            page_size >= 0,
    ;
    let start = page * page_size;
    let end = if start + page_size < data.len() {
        start + page_size
    } else {
        data.len()
    };
    if start < data.len() {
        &data[start..end]
    } else {
        &data[0..0]
    }
}

/// The message for a start or count that cannot describe a page.
pub open spec fn bad_offset_message() -> Seq<char> {
    "start must be non-negative and count positive"@
}

/// A caller's start offset and count, checked: a negative start or a count
/// below one is refused as invalid input. What it accepts can be handed to
/// `PaginationInfo::from_offset`.
pub fn offset_window(start: i32, count: i32) -> (r: Result<(usize, usize), DatadogError>)
    ensures
        start >= 0 && count > 0 ==> r == Ok::<(usize, usize), DatadogError>(
            (start as usize, count as usize),
        ),
        !(start >= 0 && count > 0) ==> (r matches Err(e) && e@ == ErrorView::InvalidInput(
            bad_offset_message(),
        )),
        r matches Ok((s, c)) ==> c > 0 && s + c <= usize::MAX,
{
    if start < 0 || count <= 0 {
        return Err(
            DatadogError::InvalidInput(
                String::from_str("start must be non-negative and count positive"),
            ),
        );
    }
    Ok((start as usize, count as usize))
}

/// The message for a page or page size that cannot describe a page.
pub open spec fn bad_page_message() -> Seq<char> {
    "page and page_size must be non-negative and describe a reachable page"@
}

/// A caller's page and page size, checked: negative values, or pages past
/// what a `usize` counts, are refused as invalid input. What it accepts can
/// be handed to `format_pagination`.
pub fn page_window(page: i32, page_size: i32) -> (r: Result<(usize, usize), DatadogError>)
    ensures
        page >= 0 && page_size >= 0 && (page + 1) * page_size <= usize::MAX ==> r == Ok::<
            (usize, usize),
            DatadogError,
        >((page as usize, page_size as usize)),
        !(page >= 0 && page_size >= 0 && (page + 1) * page_size <= usize::MAX) ==> (r matches Err(
            e,
        ) && e@ == ErrorView::InvalidInput(bad_page_message())),
        r matches Ok((p, n)) ==> p < usize::MAX && (p + 1) * n <= usize::MAX,
{
    if page < 0 || page_size < 0 {
        return Err(
            DatadogError::InvalidInput(
                String::from_str(
                    "page and page_size must be non-negative and describe a reachable page",
                ),
            ),
        );
    }
    let pages: u64 = page as u64 + 1;
    assert(pages * (page_size as u64) <= 0x8000_0000u64 * 0x8000_0000u64) by (nonlinear_arith)
        requires
            pages <= 0x8000_0000u64,
            page_size <= 0x8000_0000u64,
            page_size >= 0,
    ;
    let seen: u64 = pages * page_size as u64;
    if seen > usize::MAX as u64 {
        return Err(
            DatadogError::InvalidInput(
                String::from_str(
                    "page and page_size must be non-negative and describe a reachable page",
                ),
            ),
        );
    }
    Ok((page as usize, page_size as usize))
}

} // verus!
