//! Fixed-size pages over the display buffer.
use vstd::prelude::*;

verus! {

/// Number of rows on one page.
pub const PAGE_SIZE: usize = 10;

/// Number of pages that `len` rows fill: `ceil(len / 10)`.
pub open spec fn page_count_spec(len: nat) -> nat {
    ((len + 9) / 10) as nat
}

/// A page index brought into `0 .. page_count` (0 when there is no page).
pub open spec fn clamp_page(page: nat, len: nat) -> nat {
    if page_count_spec(len) == 0 {
        0
    } else if page >= page_count_spec(len) {
        (page_count_spec(len) - 1) as nat
    } else {
        page
    }
}

/// The positions `start .. end` of the rows on page `page` of `len` rows,
/// after clamping the page index into range.
pub open spec fn page_range_spec(len: nat, page: nat) -> (nat, nat) {
    let p = clamp_page(page, len);
    let start = p * 10;
    let end = if start + 10 <= len {
        start + 10
    } else {
        len
    };
    (start, end)
}

/// Number of pages that `len` rows fill.
pub fn page_count(len: usize) -> (r: usize)
    ensures
        r == page_count_spec(len as nat),
{
    len / PAGE_SIZE + if len % PAGE_SIZE == 0 {
        0
    } else {
        1
    }
}

/// Brings a page index into `0 .. page_count(len)` (0 when there is no page).
pub fn clamp_page_index(page: usize, len: usize) -> (r: usize)
    ensures
        r == clamp_page(page as nat, len as nat),
{
    let n = page_count(len);
    if n == 0 {
        0
    } else if page >= n {
        n - 1
    } else {
        page
    }
}

/// The positions `start .. end` of the rows on page `page` of `len` rows; a
/// page index past the last page gives the last page.
pub fn page_range(len: usize, page: usize) -> (r: (usize, usize))
    ensures
        r.0 == page_range_spec(len as nat, page as nat).0,
        r.1 == page_range_spec(len as nat, page as nat).1,
        r.0 <= r.1 <= len,
{
    let p = clamp_page_index(page, len);
    let n = page_count(len);
    assert(p * 10 <= len) by (nonlinear_arith)
        requires
            n == (len + 9) / 10,
            n == 0 ==> p == 0,
            n > 0 ==> p < n,
    ;
    let start = p * PAGE_SIZE;
    let end = if len - start >= PAGE_SIZE {
        start + PAGE_SIZE
    } else {
        len
    };
    (start, end)
}

/// For `len` rows, `page_count` is `ceil(len / 10)`, the last page holds
/// `len - 10 * (page_count - 1)` rows, and a page index at or past
/// `page_count` shows the last page.
pub proof fn lemma_pagination_bounds(len: nat, k: nat)
    ensures
        page_count_spec(len) * 10 >= len,
        page_count_spec(len) > 0 ==> (page_count_spec(len) - 1) * 10 < len,
        page_count_spec(len) > 0 ==> {
            let last = page_range_spec(len, (page_count_spec(len) - 1) as nat);
            last.1 - last.0 == len - 10 * (page_count_spec(len) - 1)
        },
        page_count_spec(len) > 0 && k >= page_count_spec(len) ==> page_range_spec(len, k)
            == page_range_spec(len, (page_count_spec(len) - 1) as nat),
{
    let n = page_count_spec(len);
    assert(n * 10 >= len && (n > 0 ==> (n - 1) * 10 < len)) by (nonlinear_arith)
        requires
            n == (len + 9) / 10,
    ;
}

} // verus!
