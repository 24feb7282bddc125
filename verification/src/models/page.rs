//! Pages of lists.

use crate::ids::Uuid;
use vstd::prelude::*;

verus! {

/// `n`, held between `low` and `high`.
pub open spec fn clamped(n: int, low: int, high: int) -> int {
    if n < low {
        low
    } else if n > high {
        high
    } else {
        n
    }
}

/// `i64::clamp`.
pub fn clamp_to(n: i64, low: i64, high: i64) -> (r: i64)
    requires
        low <= high,
    ensures
        r == clamped(n as int, low as int, high as int),
{
    if n < low {
        low
    } else if n > high {
        high
    } else {
        n
    }
}

/// Highest page number accepted anywhere: deep `OFFSET`s make Postgres read
/// and discard every row before the page, so lists stop at 1 000 pages
/// (100 000 rows at the largest page size).
pub const MAX_PAGE: i64 = 1_000;

/// The largest page.
pub const MAX_PER_PAGE: i64 = 100;

#[derive(Debug)]
pub struct PaginatedResponse<T> {
    pub data: Vec<T>,
    pub meta: PaginationMeta,
}

#[derive(Debug, Clone, Copy)]
pub struct PaginationQuery {
    pub page: Option<i64>,
    pub per_page: Option<i64>,
}

#[derive(Debug, Clone, Copy, PartialEq, Eq, Structural)]
pub struct PaginationMeta {
    pub total_items: i64,
    pub current_page: i64,
    pub per_page: i64,
    pub total_pages: i64,
}

/// `n`, or `default`.
pub open spec fn or_else(n: Option<i64>, default: int) -> int {
    match n {
        Some(x) => x as int,
        None => default,
    }
}

/// The page that a request gets.
pub open spec fn page_of(page: Option<i64>) -> int {
    clamped(or_else(page, 1), 1, MAX_PAGE as int)
}

/// The page size that a request gets.
pub open spec fn per_page_of(per_page: Option<i64>, default: int) -> int {
    clamped(or_else(per_page, default), 1, MAX_PER_PAGE as int)
}

/// A requested page number clamped to `1..=MAX_PAGE` (default 1).
pub fn clamp_page(page: Option<i64>) -> (r: i64)
    ensures
        r == page_of(page),
{
    clamp_to(
        match page {
            Some(n) => n,
            None => 1,
        },
        1,
        MAX_PAGE,
    )
}

/// `(page, per_page)` with the given default page size, both clamped.
pub fn resolve_page(page: Option<i64>, per_page: Option<i64>, default_per_page: i64) -> (r: (
    i64,
    i64,
))
    ensures
        r.0 == page_of(page),
        r.1 == per_page_of(per_page, default_per_page as int),
{
    (
        clamp_page(page),
        clamp_to(
            match per_page {
                Some(n) => n,
                None => default_per_page,
            },
            1,
            MAX_PER_PAGE,
        ),
    )
}

impl PaginationQuery {
    /// The requested page and page size, clamped to sane bounds
    /// (`1 <= page <= 1_000`, `1 <= per_page <= 100`, default 20). The
    /// page cap keeps `(page - 1) * per_page` far from overflowing.
    pub fn resolve(&self) -> (r: (i64, i64))
        ensures
            r.0 == page_of(self.page),
            r.1 == per_page_of(self.per_page, 20),
    {
        resolve_page(self.page, self.per_page, 20)
    }
}

/// The number of pages: enough for every item, and none when a page holds
/// nothing. A negative total counts as pages below zero.
pub open spec fn pages_of(total_items: int, per_page: int) -> int {
    let n = total_items + per_page - 1;
    if per_page <= 0 {
        0
    } else if n >= 0 {
        n / per_page
    } else {
        -((-n) / per_page)
    }
}

impl<T> PaginatedResponse<T> {
    pub fn new(data: Vec<T>, total_items: i64, current_page: i64, per_page: i64) -> (r: Self)
        requires
            per_page > 0 ==> total_items + per_page - 1 <= i64::MAX,
        ensures
            r.data == data,
            r.meta.total_items == total_items,
            r.meta.current_page == current_page,
            r.meta.per_page == per_page,
            r.meta.total_pages == pages_of(total_items as int, per_page as int),
    {
        let total_pages: i64 = if per_page > 0 {
            let n: i128 = total_items as i128 + per_page as i128 - 1;
            if n >= 0 {
                let n = n as i64;
                n / per_page
            } else {
                let m: i128 = -n;
                let p: i128 = per_page as i128;
                let q: i128 = m / p;
                proof {
                    lemma_quotient(m as int, p as int);
                }
                (-q) as i64
            }
        } else {
            0
        };
        PaginatedResponse {
            data,
            meta: PaginationMeta { total_items, current_page, per_page, total_pages },
        }
    }
}

proof fn lemma_quotient(m: int, p: int)
    requires
        m >= 0,
        p >= 1,
    ensures
        0 <= m / p <= m,
{
    assert(0 <= m / p <= m) by (nonlinear_arith)
        requires
            m >= 0,
            p >= 1,
    ;
}

/// The offset of a resolved page stays far from overflowing.
pub proof fn page_offsets_are_small(page: Option<i64>, per_page: Option<i64>, default: int)
    ensures
        0 <= (page_of(page) - 1) * per_page_of(per_page, default) <= MAX_PAGE * MAX_PER_PAGE,
{
    let a = page_of(page) - 1;
    let b = per_page_of(per_page, default);
    assert(0 <= a * b <= 1_000 * 100) by (nonlinear_arith)
        requires
            0 <= a <= 999,
            1 <= b <= 100,
    ;
}

/// All items fit on the pages, and the last page is not empty.
pub proof fn pages_hold_every_item(total_items: int, per_page: int)
    requires
        total_items >= 0,
        per_page > 0,
    ensures
        total_items <= pages_of(total_items, per_page) * per_page < total_items + per_page,
{
    let n = total_items + per_page - 1;
    assert(total_items <= (n / per_page) * per_page < total_items + per_page) by (nonlinear_arith)
        requires
            n == total_items + per_page - 1,
            per_page > 0,
    ;
}

/// The record to delete.
#[derive(Debug, Clone, Copy)]
pub struct DeletePayload {
    pub id: Uuid,
}

} // verus!
