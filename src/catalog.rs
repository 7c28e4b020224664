//! Catalog queries over crash reports: the filter, its SQL, and pagination.
//!
//! The catalog lives in a relational store that the caller drives. This
//! module decides what is asked of it: the statement and its parameters for
//! a filtered count and for one page of a filtered listing, ordered by crash
//! time, newest first.
use vstd::prelude::*;

use crate::artifact::Minidump;
use crate::text::{nat_digits, push_decimal};

verus! {

/// A listing request: an optional filter and optional page settings. Crash
/// times are compared as text, so bounds are RFC 3339 strings in UTC.
#[derive(Clone, Debug)]
pub struct MinidumpQueryParams {
    pub version: Option<String>,
    pub guid: Option<String>,
    pub start_time: Option<String>,
    pub end_time: Option<String>,
    pub page: Option<u32>,
    pub page_size: Option<u32>,
}

/// A statement with its positional parameters.
#[derive(Clone, Debug)]
pub struct SqlQuery {
    pub sql: String,
    pub params: Vec<String>,
}

/// A page to list: 1-based, with at most `page_size` rows.
#[derive(Clone, Copy, Debug, PartialEq, Eq, Structural)]
pub struct PageRequest {
    pub page: u32,
    pub page_size: u32,
}

/// One page of a listing, with the count of every matching row.
#[derive(Clone, Debug)]
pub struct MinidumpListing {
    pub minidumps: Vec<Minidump>,
    pub page: u32,
    pub page_size: u32,
    pub total: u32,
    pub pages: u32,
}

pub const DEFAULT_PAGE_SIZE: u32 = 20;

pub const MAX_PAGE_SIZE: u32 = 100;

pub open spec fn string_views(v: Seq<String>) -> Seq<Seq<char>> {
    v.map_values(|s: String| s@)
}

/// The conditions of the filter, in the order version, guid, start, end.
pub open spec fn conditions(q: MinidumpQueryParams) -> Seq<Seq<char>> {
    let c0 = Seq::<Seq<char>>::empty();
    let c1 = if q.version is Some {
        c0.push("exe_version = ?"@)
    } else {
        c0
    };
    let c2 = if q.guid is Some {
        c1.push("exe_guid = ?"@)
    } else {
        c1
    };
    let c3 = if q.start_time is Some {
        c2.push("timestamp >= ?"@)
    } else {
        c2
    };
    if q.end_time is Some {
        c3.push("timestamp <= ?"@)
    } else {
        c3
    }
}

/// The values bound to the conditions, in the same order.
pub open spec fn filter_params(q: MinidumpQueryParams) -> Seq<Seq<char>> {
    let p0 = Seq::<Seq<char>>::empty();
    let p1 = match q.version {
        Some(v) => p0.push(v@),
        None => p0,
    };
    let p2 = match q.guid {
        Some(g) => p1.push(g@),
        None => p1,
    };
    let p3 = match q.start_time {
        Some(s) => p2.push(s@),
        None => p2,
    };
    match q.end_time {
        Some(e) => p3.push(e@),
        None => p3,
    }
}

/// The conditions joined by ` AND `.
pub open spec fn join_and(cs: Seq<Seq<char>>) -> Seq<char>
    decreases cs.len(),
{
    if cs.len() == 0 {
        Seq::empty()
    } else if cs.len() == 1 {
        cs[0]
    } else {
        join_and(cs.drop_last()) + " AND "@ + cs.last()
    }
}

/// ` WHERE ...`, or nothing for an empty filter.
pub open spec fn where_clause(q: MinidumpQueryParams) -> Seq<char> {
    if conditions(q).len() == 0 {
        Seq::empty()
    } else {
        " WHERE "@ + join_and(conditions(q))
    }
}

pub open spec fn count_sql(q: MinidumpQueryParams) -> Seq<char> {
    "SELECT COUNT(*) FROM minidumps"@ + where_clause(q)
}

pub open spec fn select_columns() -> Seq<char> {
    "SELECT id, timestamp, exe_version, exe_guid, exe_age, pid, tid, exception_code, exception_address, file_path, created_at, exe_time_date_stamp, exe_size_of_image FROM minidumps"@
}

/// The number of rows that come before a page.
pub open spec fn page_offset(req: PageRequest) -> nat {
    ((req.page - 1) * req.page_size) as nat
}

pub open spec fn list_sql(q: MinidumpQueryParams, req: PageRequest) -> Seq<char> {
    select_columns() + where_clause(q) + " ORDER BY timestamp DESC LIMIT "@ + nat_digits(
        req.page_size as nat,
    ) + " OFFSET "@ + nat_digits(page_offset(req))
}

/// The page settings of a request: page 1 and 20 rows unless given, the
/// page at least 1 and the size at most 100.
pub open spec fn page_request_of(q: MinidumpQueryParams) -> PageRequest {
    let page = match q.page {
        Some(p) => p,
        None => 1,
    };
    let size = match q.page_size {
        Some(s) => s,
        None => DEFAULT_PAGE_SIZE,
    };
    PageRequest {
        page: if page < 1 {
            1
        } else {
            page
        },
        page_size: if size > MAX_PAGE_SIZE {
            MAX_PAGE_SIZE
        } else {
            size
        },
    }
}

/// The number of pages that `total` rows fill, `size` to a page. Pages with
/// no room hold nothing, so there are none of them.
pub open spec fn pages_for(total: u32, size: u32) -> u32 {
    if size == 0 {
        0
    } else {
        ((total + size - 1) / size as int) as u32
    }
}

/// The rows of page `page` (1-based) of `rows`, `size` to a page.
pub open spec fn page_rows<T>(rows: Seq<T>, page: nat, size: nat) -> Seq<T>
    recommends
        page >= 1,
{
    let start: int = (page - 1) * size;
    let end: int = (page * size) as int;
    rows.subrange(
        if start < rows.len() {
            start
        } else {
            rows.len() as int
        },
        if end < rows.len() {
            end
        } else {
            rows.len() as int
        },
    )
}

/// Pages 1 to `n` laid end to end.
pub open spec fn first_pages<T>(rows: Seq<T>, size: nat, n: nat) -> Seq<T>
    decreases n,
{
    if n == 0 {
        Seq::empty()
    } else {
        first_pages(rows, size, (n - 1) as nat) + page_rows(rows, n, size)
    }
}

proof fn lemma_first_pages_prefix<T>(rows: Seq<T>, size: nat, n: nat)
    ensures
        first_pages(rows, size, n) == rows.take(
            if n * size < rows.len() {
                (n * size) as int
            } else {
                rows.len() as int
            },
        ),
    decreases n,
{
    if n == 0 {
        assert(rows.take(0) =~= Seq::<T>::empty());
    } else {
        lemma_first_pages_prefix(rows, size, (n - 1) as nat);
        assert((n - 1) * size <= n * size) by (nonlinear_arith)
            requires
                n >= 1,
        ;
        assert(((n - 1) as nat) * size == (n - 1) * size);
        assert(first_pages(rows, size, n) =~= rows.take(
            if n * size < rows.len() {
                (n * size) as int
            } else {
                rows.len() as int
            },
        ));
    }
}

/// Every page holds at most `size` rows, the pages that the count of
/// matching rows calls for, laid end to end, are exactly the matching rows,
/// and the page after the last is empty: the count covers every row of every
/// page and no more.
pub proof fn lemma_pages_cover_rows<T>(rows: Seq<T>, size: u32, page: nat)
    requires
        size > 0,
        rows.len() <= u32::MAX,
        page >= 1,
    ensures
        page_rows(rows, page, size as nat).len() <= size,
        first_pages(rows, size as nat, pages_for(rows.len() as u32, size) as nat) == rows,
        page_rows(rows, (pages_for(rows.len() as u32, size) + 1) as nat, size as nat).len() == 0,
{
    let total = rows.len() as u32;
    lemma_page_count_is_least(total, size);
    let n = pages_for(total, size) as nat;
    let s = size as nat;
    assert(page * s - (page - 1) * s == s) by (nonlinear_arith);
    lemma_first_pages_prefix(rows, s, n);
    assert(rows.take(rows.len() as int) =~= rows);
    let next = (n + 1) as nat;
    assert((next - 1) * s == n * s);
    assert(next * s >= n * s) by (nonlinear_arith)
        requires
            next == n + 1,
    ;
    assert(page_rows(rows, next, s) =~= Seq::<T>::empty());
}

proof fn lemma_ceil_in_range(t: int, s: int)
    requires
        s > 0,
        t >= 0,
    ensures
        0 <= (t + s - 1) / s <= t,
{
    let q = (t + s - 1) / s;
    let r = (t + s - 1) % s;
    assert(t + s - 1 == q * s + r && 0 <= r < s) by (nonlinear_arith)
        requires
            s > 0,
            q == (t + s - 1) / s,
            r == (t + s - 1) % s,
    ;
    assert(0 <= q <= t) by (nonlinear_arith)
        requires
            t + s - 1 == q * s + r,
            0 <= r < s,
            t >= 0,
    ;
}

/// The number of pages is the least that holds every row.
pub proof fn lemma_page_count_is_least(total: u32, size: u32)
    requires
        size > 0,
    ensures
        pages_for(total, size) * size >= total,
        pages_for(total, size) == 0 || (pages_for(total, size) - 1) * size < total,
{
    let s = size as int;
    let t = total as int;
    lemma_ceil_in_range(t, s);
    let n = pages_for(total, size) as int;
    assert(n * s >= t && (n == 0 || (n - 1) * s < t)) by (nonlinear_arith)
        requires
            n == (t + s - 1) / s,
            s > 0,
            t >= 0,
    ;
}

fn add_condition(w: &mut String, count: usize, cond: &str)
    ensures
        final(w)@ == if count == 0 {
            old(w)@ + cond@
        } else {
            old(w)@ + " AND "@ + cond@
        },
{
    if count > 0 {
        w.append(" AND ");
    }
    w.append(cond);
}

impl MinidumpQueryParams {
    /// The ` WHERE ...` clause of the filter and its parameters.
    fn filter(&self) -> (r: (String, Vec<String>))
        ensures
            r.0@ == where_clause(*self),
            string_views(r.1@) == filter_params(*self),
    {
        let ghost mut cs: Seq<Seq<char>> = Seq::empty();
        let mut joined = String::new();
        let mut params: Vec<String> = Vec::new();
        if let Some(v) = &self.version {
            add_condition(&mut joined, params.len(), "exe_version = ?");
            proof {
                cs = cs.push("exe_version = ?"@);
            }
            params.push(v.clone());
        }
        assert(joined@ == join_and(cs) && cs.len() == params.len());
        if let Some(g) = &self.guid {
            add_condition(&mut joined, params.len(), "exe_guid = ?");
            proof {
                assert(cs.push("exe_guid = ?"@).drop_last() =~= cs);
                cs = cs.push("exe_guid = ?"@);
            }
            params.push(g.clone());
        }
        assert(joined@ == join_and(cs) && cs.len() == params.len());
        if let Some(s) = &self.start_time {
            add_condition(&mut joined, params.len(), "timestamp >= ?");
            proof {
                assert(cs.push("timestamp >= ?"@).drop_last() =~= cs);
                cs = cs.push("timestamp >= ?"@);
            }
            params.push(s.clone());
        }
        assert(joined@ == join_and(cs) && cs.len() == params.len());
        if let Some(e) = &self.end_time {
            add_condition(&mut joined, params.len(), "timestamp <= ?");
            proof {
                assert(cs.push("timestamp <= ?"@).drop_last() =~= cs);
                cs = cs.push("timestamp <= ?"@);
            }
            params.push(e.clone());
        }
        assert(cs =~= conditions(*self));
        assert(string_views(params@) =~= filter_params(*self));
        if params.len() == 0 {
            (String::new(), params)
        } else {
            let mut w = String::from_str(" WHERE ");
            w.append(joined.as_str());
            (w, params)
        }
    }

    /// The statement that counts the rows matching the filter.
    pub fn count_query(&self) -> (r: SqlQuery)
        ensures
            r.sql@ == count_sql(*self),
            string_views(r.params@) == filter_params(*self),
    {
        let (w, params) = self.filter();
        let mut sql = String::from_str("SELECT COUNT(*) FROM minidumps");
        sql.append(w.as_str());
        SqlQuery { sql, params }
    }

    /// The statement that lists one page of the rows matching the filter,
    /// newest first. Its filter and parameters are those of `count_query`.
    pub fn list_query(&self, req: PageRequest) -> (r: SqlQuery)
        requires
            req.page >= 1,
        ensures
            r.sql@ == list_sql(*self, req),
            string_views(r.params@) == filter_params(*self),
    {
        let (w, params) = self.filter();
        let mut sql = String::from_str(
            "SELECT id, timestamp, exe_version, exe_guid, exe_age, pid, tid, exception_code, exception_address, file_path, created_at, exe_time_date_stamp, exe_size_of_image FROM minidumps",
        );
        sql.append(w.as_str());
        sql.append(" ORDER BY timestamp DESC LIMIT ");
        push_decimal(&mut sql, req.page_size as u64);
        sql.append(" OFFSET ");
        let p = req.page as u64 - 1;
        let n = req.page_size as u64;
        assert(p * n <= 0xffff_ffff * 0xffff_ffff) by (nonlinear_arith)
            requires
                p <= 0xffff_ffff,
                n <= 0xffff_ffff,
        ;
        let offset = p * n;
        push_decimal(&mut sql, offset);
        SqlQuery { sql, params }
    }

    /// The page to list: page 1 and 20 rows unless given, the page at least
    /// 1 and the size at most 100.
    pub fn page_request(&self) -> (r: PageRequest)
        ensures
            r == page_request_of(*self),
            r.page >= 1,
            r.page_size <= MAX_PAGE_SIZE,
    {
        let page = match self.page {
            Some(p) => p,
            None => 1,
        };
        let size = match self.page_size {
            Some(s) => s,
            None => DEFAULT_PAGE_SIZE,
        };
        PageRequest {
            page: if page < 1 {
                1
            } else {
                page
            },
            page_size: if size > MAX_PAGE_SIZE {
                MAX_PAGE_SIZE
            } else {
                size
            },
        }
    }
}

/// The number of pages that `total` rows fill, `page_size` to a page.
pub fn page_count(total: u32, page_size: u32) -> (r: u32)
    ensures
        r == pages_for(total, page_size),
{
    if page_size == 0 {
        0
    } else {
        let t = total as u64;
        let s = page_size as u64;
        ((t + s - 1) / s) as u32
    }
}

impl MinidumpListing {
    /// The listing of page `req` with the rows that the store returned for
    /// it (at most `req.page_size` of them are kept) and the count of every
    /// matching row.
    pub fn new(rows: Vec<Minidump>, req: PageRequest, total: u32) -> (r: MinidumpListing)
        ensures
            r.minidumps@ == if rows@.len() <= req.page_size {
                rows@
            } else {
                rows@.take(req.page_size as int)
            },
            r.minidumps@.len() <= req.page_size,
            r.page == req.page,
            r.page_size == req.page_size,
            r.total == total,
            r.pages == pages_for(total, req.page_size),
    {
        let mut minidumps = rows;
        minidumps.truncate(req.page_size as usize);
        let pages = page_count(total, req.page_size);
        MinidumpListing { minidumps, page: req.page, page_size: req.page_size, total, pages }
    }
}

} // verus!
