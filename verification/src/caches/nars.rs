//! Listing and inspecting the archives of a cache.

use crate::caches::access::{resolve_visible_cache, CacheView};
use crate::caches::paths::{reference_list, references_of};
use crate::error::{ErrorCode, ErrorModel, WebError, WebResult};
use crate::helpers::{Id, Timestamp};
use crate::order::{
    in_order, insert_sorted, is_order, lemma_insert_is, lemma_insert_keeps_order, stable_sort,
};
use crate::rows::{last_index, reversed, IdIndex};
use crate::sql::{statement, SqlValue};
use crate::stats::cache_statement;
use crate::text::{opt_clone, opt_view, same, views, words};
use vstd::prelude::*;

verus! {

/// Which archives are asked for.
pub struct ListQuery {
    pub hash: Option<String>,
    pub package: Option<String>,
    pub sort: Option<String>,
    pub order: Option<String>,
    pub page: Option<u64>,
    pub per_page: Option<u64>,
}

/// An archive in the list.
#[derive(Debug, PartialEq, Eq)]
pub struct NarSummary {
    pub hash: String,
    pub store_path: String,
    pub package: String,
    pub nar_size: Option<i64>,
    pub file_size: Option<i64>,
    pub created_at: Timestamp,
    pub last_fetched_at: Option<Timestamp>,
}

/// One page of the list.
#[derive(Debug, PartialEq, Eq)]
pub struct NarListResponse {
    pub items: Vec<NarSummary>,
    pub total: u64,
    pub page: u64,
    pub per_page: u64,
}

/// A cached path, as the database holds it.
pub struct NarRow {
    pub id: Id,
    pub hash: String,
    pub store_path: String,
    pub package: String,
    pub nar_size: Option<i64>,
    pub file_size: Option<i64>,
    pub file_hash: Option<String>,
    pub nar_hash: Option<String>,
    pub references: Option<String>,
    pub deriver: Option<String>,
    pub ca: Option<String>,
    pub created_at: Timestamp,
}

/// A signature of a cached path, as the database holds it.
pub struct NarSignature {
    pub cached_path: Id,
    pub signed: bool,
    pub last_fetched_at: Option<Timestamp>,
    pub fetch_count: i64,
}

/// All there is to say of an archive.
#[derive(Debug, PartialEq, Eq)]
pub struct NarDetail {
    pub hash: String,
    pub store_path: String,
    pub package: String,
    pub nar_size: Option<i64>,
    pub file_size: Option<i64>,
    pub file_hash: Option<String>,
    pub nar_hash: Option<String>,
    pub references: Vec<String>,
    pub deriver: Option<String>,
    pub ca: Option<String>,
    pub created_at: Timestamp,
    pub last_fetched_at: Option<Timestamp>,
    pub fetch_count: i64,
    pub signed: bool,
}

/// What a cache holds, in numbers.
#[derive(Debug, Clone, Copy, PartialEq, Eq, Structural)]
pub struct NarStats {
    pub total_nars: i64,
    pub total_nar_size: i64,
    pub total_file_size: i64,
    pub last_uploaded_at: Option<Timestamp>,
    pub oldest_fetched_at: Option<Timestamp>,
}

#[derive(Debug, Clone, Copy, PartialEq, Eq, Structural)]
pub struct NarAvailable {
    pub available: bool,
}

/// What the database counted of a cache.
#[derive(Debug, Clone, Copy, PartialEq, Eq, Structural)]
pub struct NarStatsRow {
    pub total_nars: i64,
    pub total_nar_size: Option<i64>,
    pub total_file_size: Option<i64>,
    pub last_uploaded_at: Option<Timestamp>,
    pub oldest_fetched_at: Option<Timestamp>,
}

pub const DEFAULT_PER_PAGE: u64 = 50;

pub const MAX_PER_PAGE: u64 = 200;

// ── Paging and sorting ───────────────────────────────────────────────────────

/// The size of a page: from 1 to the largest, the default where none is asked for.
pub fn per_page_of(q: &ListQuery) -> (r: u64)
    ensures
        r == match q.per_page {
            None => DEFAULT_PER_PAGE,
            Some(n) => if n < 1 {
                1
            } else if n > MAX_PER_PAGE {
                MAX_PER_PAGE
            } else {
                n
            },
        },
        1 <= r <= MAX_PER_PAGE,
{
    match q.per_page {
        None => DEFAULT_PER_PAGE,
        Some(n) => if n < 1 {
            1
        } else if n > MAX_PER_PAGE {
            MAX_PER_PAGE
        } else {
            n
        },
    }
}

/// The number of the page, from 1 on.
pub fn page_of(q: &ListQuery) -> (r: u64)
    ensures
        r == match q.page {
            Some(n) if n >= 1 => n,
            _ => 1,
        },
        r >= 1,
{
    match q.page {
        Some(n) => if n >= 1 {
            n
        } else {
            1
        },
        None => 1,
    }
}

/// A filter is set and not empty.
pub open spec fn filters(f: Option<String>) -> bool {
    f is Some && f->0@.len() > 0
}

/// The part of a query that filters, if any: an empty text filters nothing.
pub fn filter_of(f: &Option<String>) -> (r: Option<&String>)
    ensures
        r == (if filters(*f) {
            Some(&f->0)
        } else {
            None
        }),
{
    match f {
        Some(s) => if s.as_str().unicode_len() > 0 {
            Some(s)
        } else {
            None
        },
        None => None,
    }
}

/// By what the list is sorted.
#[derive(Debug, Clone, Copy, PartialEq, Eq, Structural)]
pub enum NarSort {
    CreatedAt,
    NarSize,
    /// The database sorts by the time of the last fetch.
    LastFetchedAt,
    Unsorted,
}

/// What a query sorts by: the time of creation, if it says nothing.
pub open spec fn sort_spec(sort: Option<Seq<char>>) -> NarSort {
    match sort {
        None => NarSort::CreatedAt,
        Some(s) => if s == "created_at"@ {
            NarSort::CreatedAt
        } else if s == "nar_size"@ {
            NarSort::NarSize
        } else if s == "last_fetched_at"@ {
            NarSort::LastFetchedAt
        } else {
            NarSort::Unsorted
        },
    }
}

/// By what a query sorts the list.
pub fn sort_of(q: &ListQuery) -> (r: NarSort)
    ensures
        r == sort_spec(opt_view(q.sort)),
{
    match &q.sort {
        None => NarSort::CreatedAt,
        Some(s) => if same(s.as_str(), "created_at") {
            NarSort::CreatedAt
        } else if same(s.as_str(), "nar_size") {
            NarSort::NarSize
        } else if same(s.as_str(), "last_fetched_at") {
            NarSort::LastFetchedAt
        } else {
            NarSort::Unsorted
        },
    }
}

/// Whether the list ascends: only where the query says so.
pub fn ascending(q: &ListQuery) -> (r: bool)
    ensures
        r == (opt_view(q.order) == Some("asc"@)),
{
    match &q.order {
        Some(o) => same(o.as_str(), "asc"),
        None => false,
    }
}

// ── The list ─────────────────────────────────────────────────────────────────

/// The identifiers of path rows.
pub open spec fn nar_ids(rows: Seq<NarRow>) -> Seq<Id> {
    rows.map_values(|r: NarRow| r.id)
}

/// The entry of a path and its signature.
pub open spec fn summary(p: NarRow, sig: NarSignature) -> NarSummary {
    NarSummary {
        hash: p.hash,
        store_path: p.store_path,
        package: p.package,
        nar_size: p.nar_size,
        file_size: p.file_size,
        created_at: p.created_at,
        last_fetched_at: sig.last_fetched_at,
    }
}

/// The entries of the signatures whose path is known.
pub open spec fn summaries(sigs: Seq<NarSignature>, rows: Seq<NarRow>) -> Seq<NarSummary>
    decreases sigs.len(),
{
    if sigs.len() == 0 {
        Seq::empty()
    } else {
        let before = summaries(sigs.drop_last(), rows);
        match last_index(nar_ids(rows), sigs.last().cached_path) {
            Some(k) => before.push(summary(rows[k], sigs.last())),
            None => before,
        }
    }
}

/// The number that an entry is sorted by; an unknown size counts as zero.
pub open spec fn nar_key(s: NarSummary, by_size: bool) -> i64 {
    if by_size {
        match s.nar_size {
            Some(n) => n,
            None => 0,
        }
    } else {
        s.created_at
    }
}

/// The order of the list, as a value.
pub open spec fn nar_order(by_size: bool) -> spec_fn(NarSummary, NarSummary) -> bool {
    |a: NarSummary, b: NarSummary| nar_key(a, by_size) <= nar_key(b, by_size)
}

/// The entries in the order that was asked for.
pub open spec fn arranged(items: Seq<NarSummary>, sort: NarSort, asc: bool) -> Seq<NarSummary> {
    if sort == NarSort::NarSize || sort == NarSort::CreatedAt {
        let s = stable_sort(items, nar_order(sort == NarSort::NarSize));
        if asc {
            s
        } else {
            s.reverse()
        }
    } else {
        items
    }
}

proof fn lemma_nar_order(by_size: bool)
    ensures
        is_order(nar_order(by_size)),
{
}

/// A list sorted by size or creation time ascends or descends as asked, and holds
/// every entry.
pub proof fn law_nar_list_is_ordered(items: Seq<NarSummary>, by_size: bool, asc: bool, i: int, j: int)
    requires
        0 <= i < j < items.len(),
    ensures
        ({
            let sort = if by_size {
                NarSort::NarSize
            } else {
                NarSort::CreatedAt
            };
            let s = arranged(items, sort, asc);
            &&& s.len() == items.len()
            &&& s.to_multiset() == items.to_multiset()
            &&& asc ==> nar_key(s[i], by_size) <= nar_key(s[j], by_size)
            &&& !asc ==> nar_key(s[i], by_size) >= nar_key(s[j], by_size)
        }),
{
    let le = nar_order(by_size);
    lemma_nar_order(by_size);
    crate::order::law_stable_sort_sorts(items, le);
    let s = stable_sort(items, le);
    assert(in_order(s, le));
    assert(s.len() == items.len());
    s.lemma_reverse_to_multiset();
    let n = s.len();
    assert(le(s[i], s[j]));
    assert(le(s[n - 1 - j], s[n - 1 - i]));
}

fn key_of(s: &NarSummary, by_size: bool) -> (r: i64)
    ensures
        r == nar_key(*s, by_size),
{
    if by_size {
        match s.nar_size {
            Some(n) => n,
            None => 0,
        }
    } else {
        s.created_at
    }
}

/// Puts `item` in its place in the ordered list `items`.
fn insert_nar(items: &mut Vec<NarSummary>, item: NarSummary, by_size: bool)
    requires
        in_order(old(items)@, nar_order(by_size)),
    ensures
        in_order(final(items)@, nar_order(by_size)),
        final(items)@ == insert_sorted(old(items)@, item, nar_order(by_size)),
{
    let ghost before = items@;
    let ghost le = nar_order(by_size);
    proof {
        lemma_nar_order(by_size);
    }
    let key: i64 = key_of(&item, by_size);
    let mut lo: usize = 0;
    let mut hi: usize = items.len();
    while lo < hi
        invariant
            lo <= hi <= items.len(),
            items@ == before,
            le == nar_order(by_size),
            in_order(items@, le),
            key == nar_key(item, by_size),
            forall|j: int| 0 <= j < lo ==> le(#[trigger] before[j], item),
            forall|j: int| hi <= j < before.len() ==> !le(#[trigger] before[j], item),
        decreases hi - lo,
    {
        let mid: usize = lo + (hi - lo) / 2;
        if key_of(&items[mid], by_size) <= key {
            assert forall|j: int| 0 <= j <= mid implies le(#[trigger] before[j], item) by {
                if j < mid {
                    assert(le(before[j], before[mid as int]));
                }
            }
            lo = mid + 1;
        } else {
            assert forall|j: int| mid <= j < before.len() implies !le(#[trigger] before[j], item) by {
                if j > mid {
                    assert(le(before[mid as int], before[j]));
                }
            }
            hi = mid;
        }
    }
    proof {
        lemma_insert_is(before, item, le, lo as int);
        lemma_insert_keeps_order(before, item, le);
    }
    items.insert(lo, item);
}

/// The entries in the order that was asked for.
fn arrange(items: Vec<NarSummary>, sort: NarSort, asc: bool) -> (r: Vec<NarSummary>)
    ensures
        r@ == arranged(items@, sort, asc),
{
    let by_size = sort == NarSort::NarSize;
    if !by_size && sort != NarSort::CreatedAt {
        return items;
    }
    let ghost whole = items@;
    let ghost le = nar_order(by_size);
    let mut back = reversed(items);
    assert(back@.reverse() =~= whole);
    let mut sorted: Vec<NarSummary> = Vec::new();
    assert(whole.take(0) =~= Seq::<NarSummary>::empty());
    while back.len() > 0
        invariant
            back.len() <= whole.len(),
            back@.reverse() == whole.skip(whole.len() - back.len()),
            le == nar_order(by_size),
            in_order(sorted@, le),
            sorted@ == stable_sort(whole.take(whole.len() - back.len()), le),
        decreases back.len(),
    {
        let ghost k = whole.len() - back.len();
        let ghost held = back@;
        if let Some(x) = back.pop() {
            proof {
                assert(held.reverse()[0] == x);
                assert(x == whole[k]);
                assert(whole.take(k + 1).drop_last() =~= whole.take(k));
                assert(back@.reverse() =~= held.reverse().drop_first());
                assert(back@.reverse() =~= whole.skip(k + 1));
            }
            insert_nar(&mut sorted, x, by_size);
        }
    }
    assert(whole.take(whole.len() as int) =~= whole);
    if asc {
        return sorted;
    }
    reversed(sorted)
}

/// `r` is one page of the archives of a cache.
pub open spec fn is_page(
    r: NarListResponse,
    q: ListQuery,
    matching: usize,
    total: u64,
    signatures: Seq<NarSignature>,
    rows: Seq<NarRow>,
) -> bool {
    let filtered_out = (filters(q.hash) || filters(q.package)) && matching == 0;
    &&& r.page == (match q.page {
        Some(n) if n >= 1 => n,
        _ => 1,
    })
    &&& r.per_page == (match q.per_page {
        None => DEFAULT_PER_PAGE,
        Some(n) => if n < 1 {
            1
        } else if n > MAX_PER_PAGE {
            MAX_PER_PAGE
        } else {
            n
        },
    })
    &&& filtered_out ==> r.items@.len() == 0 && r.total == 0
    &&& !filtered_out ==> r.total == total && r.items@ == arranged(
        summaries(signatures, rows),
        sort_spec(opt_view(q.sort)),
        opt_view(q.order) == Some("asc"@),
    )
}

fn list_page(
    q: &ListQuery,
    matching: usize,
    total: u64,
    signatures: &Vec<NarSignature>,
    rows: &Vec<NarRow>,
) -> (r: NarListResponse)
    ensures
        is_page(r, *q, matching, total, signatures@, rows@),
{
    let page: u64 = page_of(q);
    let per_page: u64 = per_page_of(q);
    let has_filter = filter_of(&q.hash).is_some() || filter_of(&q.package).is_some();
    if has_filter && matching == 0 {
        return NarListResponse { items: Vec::new(), total: 0, page, per_page };
    }
    let mut ids: Vec<Id> = Vec::new();
    let mut d: usize = 0;
    while d < rows.len()
        invariant
            d <= rows.len(),
            ids@ == nar_ids(rows@).take(d as int),
        decreases rows.len() - d,
    {
        ids.push(rows[d].id);
        d += 1;
    }
    assert(nar_ids(rows@).take(d as int) =~= nar_ids(rows@));
    let index = IdIndex::new(ids);
    let mut items: Vec<NarSummary> = Vec::new();
    let mut i: usize = 0;
    assert(signatures@.take(0) =~= Seq::<NarSignature>::empty());
    while i < signatures.len()
        invariant
            i <= signatures.len(),
            index.wf(),
            index@ == nar_ids(rows@),
            items@ == summaries(signatures@.take(i as int), rows@),
        decreases signatures.len() - i,
    {
        let sig = &signatures[i];
        proof {
            assert(signatures@.take(i as int + 1).drop_last() =~= signatures@.take(i as int));
        }
        if let Some(k) = index.find(sig.cached_path) {
            let p = &rows[k];
            items.push(
                NarSummary {
                    hash: p.hash.clone(),
                    store_path: p.store_path.clone(),
                    package: p.package.clone(),
                    nar_size: p.nar_size,
                    file_size: p.file_size,
                    created_at: p.created_at,
                    last_fetched_at: sig.last_fetched_at,
                },
            );
        }
        i += 1;
    }
    assert(signatures@.take(i as int) =~= signatures@);
    NarListResponse { items: arrange(items, sort_of(q), ascending(q)), total, page, per_page }
}

/// One page of the archives of a cache that the caller can see. `matching` counts the
/// paths that match the filters of the query, `total` the signatures of the cache on such
/// paths; `signatures` are those on the page, and `rows` their paths.
pub fn list(
    view: CacheView,
    q: &ListQuery,
    matching: usize,
    total: u64,
    signatures: &Vec<NarSignature>,
    rows: &Vec<NarRow>,
) -> (r: WebResult<NarListResponse>)
    ensures
        match r {
            Ok(x) => view.visible() && is_page(x, *q, matching, total, signatures@, rows@),
            Err(e) => !view.visible() && e@ == ErrorModel::not_found("Cache"@),
        },
{
    match resolve_visible_cache(view) {
        Ok(_) => Ok(list_page(q, matching, total, signatures, rows)),
        Err(e) => Err(e),
    }
}

// ── One archive ──────────────────────────────────────────────────────────────

/// All there is to say of an archive in a cache that the caller can see.
pub fn show(view: CacheView, row: &Option<NarRow>, sig: &Option<NarSignature>) -> (r: WebResult<
    NarDetail,
>)
    ensures
        match r {
            Ok(d) => {
                &&& view.visible()
                &&& row matches Some(p)
                &&& sig matches Some(s)
                &&& d.hash == p.hash
                &&& d.store_path == p.store_path
                &&& d.package == p.package
                &&& d.nar_size == p.nar_size
                &&& d.file_size == p.file_size
                &&& d.file_hash == p.file_hash
                &&& d.nar_hash == p.nar_hash
                &&& views(d.references@) == reference_list(opt_view(p.references))
                &&& d.deriver == p.deriver
                &&& d.ca == p.ca
                &&& d.created_at == p.created_at
                &&& d.last_fetched_at == s.last_fetched_at
                &&& d.fetch_count == s.fetch_count
                &&& d.signed == s.signed
            },
            Err(e) => if !view.visible() {
                e@ == ErrorModel::not_found("Cache"@)
            } else if row is None {
                e@ == ErrorModel::not_found("Path"@)
            } else {
                sig is None && e@ == ErrorModel::not_found("Signature"@)
            },
        },
{
    if let Err(e) = resolve_visible_cache(view) {
        return Err(e);
    }
    let p = match row {
        Some(p) => p,
        None => {
            return Err(WebError::not_found("Path"));
        },
    };
    let s = match sig {
        Some(s) => s,
        None => {
            return Err(WebError::not_found("Signature"));
        },
    };
    Ok(
        NarDetail {
            hash: p.hash.clone(),
            store_path: p.store_path.clone(),
            package: p.package.clone(),
            nar_size: p.nar_size,
            file_size: p.file_size,
            file_hash: opt_clone(&p.file_hash),
            nar_hash: opt_clone(&p.nar_hash),
            references: references_of(&p.references),
            deriver: opt_clone(&p.deriver),
            ca: opt_clone(&p.ca),
            created_at: p.created_at,
            last_fetched_at: s.last_fetched_at,
            fetch_count: s.fetch_count,
            signed: s.signed,
        },
    )
}

/// The text of the statement that counts what a cache holds.
pub const NAR_STATS_SQL: &'static str = "SELECT COUNT(*) AS total_nars, COALESCE(SUM(cp.nar_size),0) AS total_nar_size, COALESCE(SUM(cp.file_size),0) AS total_file_size, MAX(cp.created_at) AS last_uploaded_at, MIN(cps.last_fetched_at) AS oldest_fetched_at FROM cached_path_signature cps JOIN cached_path cp ON cp.id = cps.cached_path WHERE cps.cache = $1";

/// The statement that counts what a cache holds.
pub fn stats_stmt(cache_id: Id) -> (r: sea_orm::Statement)
    ensures
        r == statement(NAR_STATS_SQL@, seq![SqlValue::Uuid(cache_id)]),
{
    cache_statement(NAR_STATS_SQL, cache_id)
}

/// What a cache holds that the caller can see, in numbers. The database always counts one
/// row.
pub fn stats(view: CacheView, row: Option<NarStatsRow>) -> (r: WebResult<NarStats>)
    ensures
        match r {
            Ok(s) => {
                &&& view.visible()
                &&& row matches Some(x)
                &&& s.total_nars == x.total_nars
                &&& s.total_nar_size == (match x.total_nar_size {
                    Some(n) => n,
                    None => 0,
                })
                &&& s.total_file_size == (match x.total_file_size {
                    Some(n) => n,
                    None => 0,
                })
                &&& s.last_uploaded_at == x.last_uploaded_at
                &&& s.oldest_fetched_at == x.oldest_fetched_at
            },
            Err(e) => if !view.visible() {
                e@ == ErrorModel::not_found("Cache"@)
            } else {
                row is None && e@ == ErrorModel::internal("stats query returned no row"@)
            },
        },
{
    if let Err(e) = resolve_visible_cache(view) {
        return Err(e);
    }
    match row {
        None => Err(WebError::internal("stats query returned no row")),
        Some(x) => Ok(
            NarStats {
                total_nars: x.total_nars,
                total_nar_size: match x.total_nar_size {
                    Some(n) => n,
                    None => 0,
                },
                total_file_size: match x.total_file_size {
                    Some(n) => n,
                    None => 0,
                },
                last_uploaded_at: x.last_uploaded_at,
                oldest_fetched_at: x.oldest_fetched_at,
            },
        ),
    }
}

/// The hash that a query for availability asks for.
pub fn available_hash(hash: Option<String>) -> (r: WebResult<String>)
    ensures
        match r {
            Ok(h) => hash == Some(h) && h@.len() > 0,
            Err(e) => !filters(hash) && e@ == ErrorModel::bad_request("missing ?hash="@),
        },
{
    match hash {
        Some(h) => if h.as_str().unicode_len() > 0 {
            Ok(h)
        } else {
            Err(WebError::bad_request("missing ?hash="))
        },
        None => Err(WebError::bad_request("missing ?hash=")),
    }
}

/// Whether an archive is available in a cache that the caller can see: its path is known
/// and the cache has it.
pub fn available(
    view: CacheView,
    hash: Option<String>,
    path_found: bool,
    signature_found: bool,
) -> (r: WebResult<NarAvailable>)
    ensures
        match r {
            Ok(x) => view.visible() && filters(hash) && x.available == (path_found
                && signature_found),
            Err(e) => if !view.visible() {
                e@ == ErrorModel::not_found("Cache"@)
            } else {
                !filters(hash) && e@ == ErrorModel::bad_request("missing ?hash="@)
            },
        },
{
    if let Err(e) = resolve_visible_cache(view) {
        return Err(e);
    }
    match available_hash(hash) {
        Ok(_) => Ok(NarAvailable { available: path_found && signature_found }),
        Err(e) => Err(e),
    }
}

/// A page has one to two hundred entries, fifty where the query does not say, and pages are
/// counted from one.
pub proof fn law_page_sizes(
    q: ListQuery,
    n: u64,
    k: u64,
)
    requires
        call_ensures(per_page_of, (&q,), n),
        call_ensures(page_of, (&q,), k),
    ensures
        q.per_page is None ==> n == 50,
        q.per_page is Some && q.per_page->0 == 0 ==> n == 1,
        q.per_page is Some && 1 <= q.per_page->0 <= 200 ==> n == q.per_page->0,
        q.per_page is Some && q.per_page->0 > 200 ==> n == 200,
        q.page is None ==> k == 1,
        q.page is Some && q.page->0 == 0 ==> k == 1,
        q.page is Some && q.page->0 >= 1 ==> k == q.page->0,
{
}

/// What a query sorts by, and which way: by the time of creation where it does not say, and
/// descending unless it says `asc`. An empty filter filters nothing.
pub proof fn law_sorting_of_queries(
    q: ListQuery,
    sort: NarSort,
    asc: bool,
    f: Option<String>,
    g: Option<&String>,
)
    requires
        call_ensures(sort_of, (&q,), sort),
        call_ensures(ascending, (&q,), asc),
        call_ensures(filter_of, (&f,), g),
    ensures
        q.sort is None ==> sort is CreatedAt,
        q.sort is Some && q.sort->0@ == "created_at"@ ==> sort is CreatedAt,
        q.sort is Some && q.sort->0@ == "nar_size"@ ==> sort is NarSize,
        q.sort is Some && q.sort->0@ == "last_fetched_at"@ ==> sort is LastFetchedAt,
        q.sort is Some && q.sort->0@ != "created_at"@ && q.sort->0@ != "nar_size"@
            && q.sort->0@ != "last_fetched_at"@ ==> sort is Unsorted,
        asc <==> q.order is Some && q.order->0@ == "asc"@,
        g is Some <==> f is Some && f->0@.len() > 0,
        g is Some ==> g->0@ == f->0@,
{
    reveal_strlit("created_at");
    reveal_strlit("nar_size");
    reveal_strlit("last_fetched_at");
    assert("created_at"@.len() == 10 && "nar_size"@.len() == 8 && "last_fetched_at"@.len() == 15);
}

/// A page of a cache that the caller can see is in the order that was asked for: by size, where
/// an unknown one counts as zero, or by the time of creation, up or down. Other callers are
/// told that there is no such cache; a filter that nothing matches leaves an empty list.
pub proof fn law_pages_are_in_order(
    view: CacheView,
    q: ListQuery,
    matching: usize,
    total: u64,
    signatures: Vec<NarSignature>,
    rows: Vec<NarRow>,
    r: WebResult<NarListResponse>,
    i: int,
    j: int,
)
    requires
        call_ensures(list, (view, &q, matching, total, &signatures, &rows), r),
    ensures
        r is Ok <==> view.found && (view.public
            || (view.user is Some && view.user->0 == view.owner)),
        r is Err ==> (r matches Err(WebError::NotFound(c, m)) && c == ErrorCode::NOT_FOUND
            && m@ == "Cache"@ + " not found"@),
        r matches Ok(x) ==> {
            let filtered = (q.hash is Some && q.hash->0@.len() > 0) || (q.package is Some
                && q.package->0@.len() > 0);
            &&& filtered && matching == 0 ==> x.items@.len() == 0 && x.total == 0
            &&& !(filtered && matching == 0) ==> x.total == total
            &&& 0 <= i < j < x.items@.len() && (q.sort is None || q.sort->0@ == "created_at"@)
                ==> if
                q.order is Some && q.order->0@ == "asc"@ {
                x.items@[i].created_at <= x.items@[j].created_at
            } else {
                x.items@[i].created_at >= x.items@[j].created_at
            }
            &&& 0 <= i < j < x.items@.len() && q.sort is Some && q.sort->0@ == "nar_size"@ ==> {
                let a = if x.items@[i].nar_size is Some {
                    x.items@[i].nar_size->0
                } else {
                    0
                };
                let b = if x.items@[j].nar_size is Some {
                    x.items@[j].nar_size->0
                } else {
                    0
                };
                if q.order is Some && q.order->0@ == "asc"@ {
                    a <= b
                } else {
                    a >= b
                }
            }
        },
{
    reveal_strlit("created_at");
    reveal_strlit("nar_size");
    assert("created_at"@.len() == 10 && "nar_size"@.len() == 8);
    if let Ok(x) = r {
        if 0 <= i < j < x.items@.len() {
            let asc = opt_view(q.order) == Some("asc"@);
            let items = summaries(signatures@, rows@);
            let by_size = sort_spec(opt_view(q.sort)) == NarSort::NarSize;
            if by_size || sort_spec(opt_view(q.sort)) == NarSort::CreatedAt {
                lemma_nar_order(by_size);
                crate::order::law_stable_sort_sorts(items, nar_order(by_size));
                law_nar_list_is_ordered(items, by_size, asc, i, j);
            }
        }
    }
}

/// One more signature adds its entry to the list when its path is known, with what the path and
/// the signature say; where two paths share an identifier, the last counts.
pub proof fn law_listed_archives(
    sigs: Seq<NarSignature>,
    x: NarSignature,
    rows: Seq<NarRow>,
    k: int,
)
    ensures
        summaries(Seq::<NarSignature>::empty(), rows).len() == 0,
        (forall|j: int| 0 <= j < rows.len() ==> (#[trigger] rows[j]).id != x.cached_path)
            ==> summaries(sigs.push(x), rows) == summaries(sigs, rows),
        0 <= k < rows.len() && rows[k].id == x.cached_path && (forall|j: int|
            k < j < rows.len() ==> (#[trigger] rows[j]).id != x.cached_path) ==> {
            let all = summaries(sigs.push(x), rows);
            let e = all.last();
            &&& all == summaries(sigs, rows).push(e)
            &&& e.hash@ == rows[k].hash@ && e.store_path@ == rows[k].store_path@ && e.package@
                == rows[k].package@
            &&& e.nar_size == rows[k].nar_size && e.file_size == rows[k].file_size && e.created_at
                == rows[k].created_at
            &&& e.last_fetched_at == x.last_fetched_at
        },
{
    assert(sigs.push(x).drop_last() =~= sigs);
    let ids = nar_ids(rows);
    let id = x.cached_path;
    assert forall|j: int| 0 <= j < ids.len() implies ids[j] == (#[trigger] rows[j]).id by {}
    if 0 <= k < rows.len() && rows[k].id == id && (forall|j: int|
        k < j < rows.len() ==> (#[trigger] rows[j]).id != id) {
        assert forall|j: int| k < j < ids.len() implies ids[j] != id by {
            assert(ids[j] == rows[j].id);
        }
        crate::rows::lemma_last_index_is(ids, id, k);
    }
    if forall|j: int| 0 <= j < rows.len() ==> (#[trigger] rows[j]).id != id {
        assert forall|j: int| 0 <= j < ids.len() implies ids[j] != id by {
            assert(ids[j] == rows[j].id);
        }
        crate::rows::lemma_no_last_index(ids, id);
    }
}

/// An archive is shown in a cache that the caller can see, where its path and its signature are
/// known; it is available when both are, and the query has to name a hash.
pub proof fn law_shown_archives(
    view: CacheView,
    row: Option<NarRow>,
    sig: Option<NarSignature>,
    d: WebResult<NarDetail>,
    counted: Option<NarStatsRow>,
    st: WebResult<NarStats>,
    hash: Option<String>,
    path_found: bool,
    signature_found: bool,
    av: WebResult<NarAvailable>,
)
    requires
        call_ensures(show, (view, &row, &sig), d),
        call_ensures(stats, (view, counted), st),
        call_ensures(available, (view, hash, path_found, signature_found), av),
    ensures
        ({
            let seen = view.found && (view.public || (view.user is Some && view.user->0
                == view.owner));
            &&& d is Ok <==> seen && row is Some && sig is Some
            &&& st is Ok <==> seen && counted is Some
            &&& av is Ok <==> seen && hash is Some && hash->0@.len() > 0
            &&& !seen ==> (d matches Err(WebError::NotFound(c, m)) && c == ErrorCode::NOT_FOUND
                && m@ == "Cache"@ + " not found"@)
            &&& !seen ==> (st matches Err(WebError::NotFound(c, m)) && c == ErrorCode::NOT_FOUND
                && m@ == "Cache"@ + " not found"@)
            &&& !seen ==> (av matches Err(WebError::NotFound(c, m)) && c == ErrorCode::NOT_FOUND
                && m@ == "Cache"@ + " not found"@)
            &&& seen && row is None ==> (d matches Err(WebError::NotFound(c, m))
                && c == ErrorCode::NOT_FOUND && m@ == "Path"@ + " not found"@)
            &&& seen && row is Some && sig is None
                ==> (d matches Err(WebError::NotFound(c, m)) && c == ErrorCode::NOT_FOUND
                && m@ == "Signature"@ + " not found"@)
            &&& seen && counted is None ==> (st matches Err(WebError::Internal(m))
                && m@ == "stats query returned no row"@)
            &&& seen && av is Err ==> (av matches Err(WebError::BadRequest(c, m))
                && c == ErrorCode::BAD_REQUEST && m@ == "missing ?hash="@)
        }),
        av is Ok ==> (av->Ok_0.available <==> path_found && signature_found),
        d matches Ok(x) ==> {
            let p = row->0;
            &&& x.hash@ == p.hash@ && x.store_path@ == p.store_path@ && x.package@ == p.package@
            &&& x.nar_size == p.nar_size && x.file_size == p.file_size && x.file_hash
                == p.file_hash && x.nar_hash == p.nar_hash && x.deriver == p.deriver && x.ca
                == p.ca && x.created_at == p.created_at
            &&& x.last_fetched_at == sig->0.last_fetched_at && x.fetch_count == sig->0.fetch_count
                && x.signed == sig->0.signed
            &&& p.references is Some ==> views(x.references@) == words(p.references->0@)
        },
        st matches Ok(x) ==> {
            let c = counted->0;
            &&& x.total_nars == c.total_nars && x.last_uploaded_at == c.last_uploaded_at
                && x.oldest_fetched_at == c.oldest_fetched_at
            &&& c.total_nar_size is Some ==> x.total_nar_size == c.total_nar_size->0
            &&& c.total_nar_size is None ==> x.total_nar_size == 0
            &&& c.total_file_size is Some ==> x.total_file_size == c.total_file_size->0
            &&& c.total_file_size is None ==> x.total_file_size == 0
        },
{
}

/// What is asked of the database for the counts of a cache.
pub proof fn law_counts_that_are_asked_for(
    cache_id: Id,
    r: sea_orm::Statement,
)
    requires
        call_ensures(stats_stmt, (cache_id,), r),
    ensures
        r == statement(
            "SELECT COUNT(*) AS total_nars, COALESCE(SUM(cp.nar_size),0) AS total_nar_size, COALESCE(SUM(cp.file_size),0) AS total_file_size, MAX(cp.created_at) AS last_uploaded_at, MIN(cps.last_fetched_at) AS oldest_fetched_at FROM cached_path_signature cps JOIN cached_path cp ON cp.id = cps.cached_path WHERE cps.cache = $1"@,
            seq![SqlValue::Uuid(cache_id)],
        ),
{
}

} // verus!
