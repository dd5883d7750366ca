//! The build list of an evaluation.

use crate::evals::names::{after_dash, build_list_name, filename, without_drv};
use crate::helpers::{Id, Timestamp};
use crate::order::{
    chars_le, in_order, insert_sorted, is_order, lemma_insert_is, lemma_insert_keeps_order,
    lemma_lex_total, lemma_lex_transitive, lex_le, stable_sort,
};
use crate::rows::{count_where, find_first, first_index, last_index, IdIndex};
use crate::text::{chars_of, ends_with, has_suffix, same};
use vstd::prelude::*;

verus! {

/// A build, as the database holds it.
pub struct BuildRow {
    pub id: Id,
    pub derivation: Id,
    /// The name of its status.
    pub status: String,
    pub updated_at: Timestamp,
    pub build_time_ms: Option<i64>,
}

/// A derivation, as the database holds it.
pub struct DerivationRow {
    pub id: Id,
    pub derivation_path: String,
}

/// An output of a derivation, as the database holds it.
pub struct OutputRow {
    pub id: Id,
    pub derivation: Id,
}

/// A build in the list.
pub struct BuildItem {
    pub id: Id,
    pub name: String,
    pub status: String,
    pub has_artefacts: bool,
    pub updated_at: Timestamp,
    pub build_time_ms: Option<i64>,
}

/// One page of the list.
pub struct PaginatedBuilds {
    pub builds: Vec<BuildItem>,
    pub total: usize,
    /// Number of builds with status Building, Queued, Failed, Aborted, or
    /// DependencyFailed.
    pub active_count: usize,
}

/// Which page of the list is asked for.
pub struct BuildsQuery {
    pub limit: Option<usize>,
    pub offset: Option<usize>,
}

/// The identifiers of derivation rows.
pub open spec fn derivation_ids(rows: Seq<DerivationRow>) -> Seq<Id> {
    rows.map_values(|d: DerivationRow| d.id)
}

/// The identifiers of output rows.
pub open spec fn output_ids(rows: Seq<OutputRow>) -> Seq<Id> {
    rows.map_values(|o: OutputRow| o.id)
}

/// The derivation `drv` has artefacts: some product belongs to one of its
/// outputs. `products` holds, for each product, the output it belongs to.
pub open spec fn has_products(outputs: Seq<OutputRow>, products: Seq<Id>, drv: Id) -> bool {
    exists|i: int|
        0 <= i < products.len()
            && (first_index(output_ids(outputs), #[trigger] products[i]) matches Some(
            k,
        ) && outputs[k].derivation == drv)
}

/// The entry of a build, which has one when its derivation is known and is a
/// `.drv` file.
pub open spec fn item_of(
    b: BuildRow,
    derivations: Seq<DerivationRow>,
    outputs: Seq<OutputRow>,
    products: Seq<Id>,
) -> Option<BuildItem> {
    match last_index(derivation_ids(derivations), b.derivation) {
        Some(k) if ends_with(derivations[k].derivation_path@, ".drv"@) => Some(
            BuildItem {
                id: b.id,
                name: derivations[k].derivation_path,
                status: b.status,
                has_artefacts: has_products(outputs, products, b.derivation),
                updated_at: b.updated_at,
                build_time_ms: b.build_time_ms,
            },
        ),
        _ => None,
    }
}

/// The entries of the builds that have one, in the order of the builds.
pub open spec fn items_of(
    builds: Seq<BuildRow>,
    derivations: Seq<DerivationRow>,
    outputs: Seq<OutputRow>,
    products: Seq<Id>,
) -> Seq<BuildItem>
    decreases builds.len(),
{
    if builds.len() == 0 {
        Seq::empty()
    } else {
        let before = items_of(builds.drop_last(), derivations, outputs, products);
        match item_of(builds.last(), derivations, outputs, products) {
            Some(item) => before.push(item),
            None => before,
        }
    }
}

/// The place of a status in the list: Building, Queued, Failed, Aborted and
/// DependencyFailed, Completed and Substituted, anything else.
pub open spec fn status_rank_spec(status: Seq<char>) -> u32 {
    if status == "Building"@ {
        0
    } else if status == "Queued"@ {
        1
    } else if status == "Failed"@ {
        2
    } else if status == "Aborted"@ || status == "DependencyFailed"@ {
        3
    } else if status == "Completed"@ || status == "Substituted"@ {
        4
    } else {
        99
    }
}

/// The place of a status in the list.
pub fn status_rank(status: &str) -> (r: u32)
    ensures
        r == status_rank_spec(status@),
{
    if same(status, "Building") {
        0
    } else if same(status, "Queued") {
        1
    } else if same(status, "Failed") {
        2
    } else if same(status, "Aborted") || same(status, "DependencyFailed") {
        3
    } else if same(status, "Completed") || same(status, "Substituted") {
        4
    } else {
        99
    }
}

/// The name by which an entry is ordered.
pub open spec fn list_name(item: BuildItem) -> Seq<char> {
    after_dash(without_drv(filename(item.name@)))
}

/// The order of the list: by status, then by display name.
pub open spec fn item_le(a: BuildItem, b: BuildItem) -> bool {
    let ra = status_rank_spec(a.status@);
    let rb = status_rank_spec(b.status@);
    ra < rb || (ra == rb && lex_le(list_name(a), list_name(b)))
}

/// The order of the list, as a value.
pub open spec fn item_order() -> spec_fn(BuildItem, BuildItem) -> bool {
    |a: BuildItem, b: BuildItem| item_le(a, b)
}

/// An entry whose build is not done: its status ranks before Completed.
pub open spec fn is_active(item: BuildItem) -> bool {
    status_rank_spec(item.status@) < 4
}

proof fn lemma_item_order()
    ensures
        is_order(item_order()),
{
    let le = item_order();
    assert forall|a: BuildItem, b: BuildItem| #[trigger] le(a, b) || le(b, a) by {
        lemma_lex_total(list_name(a), list_name(b));
    }
    assert forall|a: BuildItem, b: BuildItem, c: BuildItem| #[trigger]
        le(a, b) && #[trigger] le(b, c) implies le(a, c) by {
        if lex_le(list_name(a), list_name(b)) && lex_le(list_name(b), list_name(c)) {
            lemma_lex_transitive(list_name(a), list_name(b), list_name(c));
        }
    }
}

/// The list is ordered by status, then by display name, and holds every entry.
pub proof fn law_build_list_is_ordered(items: Seq<BuildItem>)
    ensures
        in_order(stable_sort(items, item_order()), item_order()),
        stable_sort(items, item_order()).to_multiset() == items.to_multiset(),
        stable_sort(items, item_order()).len() == items.len(),
{
    lemma_item_order();
    crate::order::law_stable_sort_sorts(items, item_order());
}

/// Builds that are not done come before builds that are, so that a client that
/// fetches the first `active_count` entries has them all.
pub proof fn law_active_builds_come_first(items: Seq<BuildItem>, i: int, j: int)
    requires
        0 <= i < j < items.len(),
        is_active(stable_sort(items, item_order())[j]),
    ensures
        is_active(stable_sort(items, item_order())[i]),
{
    law_build_list_is_ordered(items);
    let s = stable_sort(items, item_order());
    let le = item_order();
    assert(le(s[i], s[j]));
}

fn key_of(item: &BuildItem) -> (r: (u32, Vec<char>))
    ensures
        r.0 == status_rank_spec(item.status@),
        r.1@ == list_name(*item),
{
    let name = build_list_name(item.name.as_str());
    (status_rank(item.status.as_str()), chars_of(name.as_str()))
}

fn key_le(a: &(u32, Vec<char>), b: &(u32, Vec<char>)) -> (r: bool)
    ensures
        r == (a.0 < b.0 || (a.0 == b.0 && lex_le(a.1@, b.1@))),
{
    if a.0 < b.0 {
        true
    } else if a.0 == b.0 {
        chars_le(&a.1, &b.1)
    } else {
        false
    }
}

/// `keys` holds the keys of `items`.
spec fn keyed(keys: Seq<(u32, Vec<char>)>, items: Seq<BuildItem>) -> bool {
    &&& keys.len() == items.len()
    &&& forall|i: int|
        #![trigger keys[i]]
        #![trigger items[i]]
        0 <= i < keys.len() ==> keys[i].0 == status_rank_spec(items[i].status@) && keys[i].1@
            == list_name(items[i])
}

/// Puts `item` in its place in the ordered list `items`.
fn insert_item(items: &mut Vec<BuildItem>, keys: &mut Vec<(u32, Vec<char>)>, item: BuildItem)
    requires
        keyed(old(keys)@, old(items)@),
        in_order(old(items)@, item_order()),
    ensures
        keyed(final(keys)@, final(items)@),
        in_order(final(items)@, item_order()),
        final(items)@ == insert_sorted(old(items)@, item, item_order()),
{
    let ghost before = items@;
    let ghost le = item_order();
    proof {
        lemma_item_order();
    }
    let key = key_of(&item);
    let mut lo: usize = 0;
    let mut hi: usize = items.len();
    while lo < hi
        invariant
            lo <= hi <= items.len(),
            items@ == before,
            le == item_order(),
            is_order(le),
            keyed(keys@, items@),
            in_order(items@, le),
            key.0 == status_rank_spec(item.status@),
            key.1@ == list_name(item),
            forall|j: int| 0 <= j < lo ==> le(#[trigger] before[j], item),
            forall|j: int| hi <= j < before.len() ==> !le(#[trigger] before[j], item),
        decreases hi - lo,
    {
        let mid: usize = lo + (hi - lo) / 2;
        let ghost m = before[mid as int];
        if key_le(&keys[mid], &key) {
            proof {
                assert(le(m, item));
                assert forall|j: int| 0 <= j <= mid implies le(#[trigger] before[j], item) by {
                    if j < mid {
                        assert(le(before[j], before[mid as int]));
                        assert(le(before[j], m) && le(m, item));
                    }
                }
            }
            lo = mid + 1;
        } else {
            proof {
                assert(!le(m, item));
                assert forall|j: int| mid <= j < before.len() implies !le(#[trigger] before[j], item) by {
                    if j > mid {
                        assert(le(before[mid as int], before[j]));
                        if le(before[j], item) {
                            assert(le(m, before[j]) && le(before[j], item));
                        }
                    }
                }
            }
            hi = mid;
        }
    }
    proof {
        lemma_insert_is(before, item, le, lo as int);
        lemma_insert_keeps_order(before, item, le);
    }
    let ghost keys_before = keys@;
    keys.insert(lo, key);
    items.insert(lo, item);
    proof {
        assert forall|i: int| 0 <= i < keys@.len() implies (#[trigger] keys@[i]).0
            == status_rank_spec(items@[i].status@) && keys@[i].1@ == list_name(items@[i]) by {
            if i < lo {
                assert(keys@[i] == keys_before[i]);
            } else if i > lo {
                assert(keys@[i] == keys_before[i - 1]);
                assert(items@[i] == before[i - 1]);
            }
        }
    }
}

/// Whether the derivation `drv` has artefacts; `out_ids` are the identifiers of
/// `outputs`.
pub(crate) fn artefacts_of(
    outputs: &Vec<OutputRow>,
    out_ids: &Vec<Id>,
    products: &Vec<Id>,
    drv: Id,
) -> (r: bool)
    requires
        out_ids@ == output_ids(outputs@),
    ensures
        r == has_products(outputs@, products@, drv),
{
    let mut i: usize = 0;
    while i < products.len()
        invariant
            i <= products.len(),
            out_ids@ == output_ids(outputs@),
            forall|j: int|
                0 <= j < i ==> !(first_index(output_ids(outputs@), #[trigger] products@[j]) matches Some(
                    k,
                ) && outputs@[k].derivation == drv),
        decreases products.len() - i,
    {
        if let Some(k) = find_first(out_ids, products[i]) {
            if outputs[k].derivation == drv {
                assert(first_index(output_ids(outputs@), products@[i as int]) == Some(k as int));
                return true;
            }
        }
        i += 1;
    }
    false
}

/// The page of the build list that `query` asks for: builds are ordered by
/// status (Building → Queued → Failed → Aborted/DependencyFailed →
/// Completed/Substituted), then by display name.
pub fn get_evaluation_builds(
    builds: &Vec<BuildRow>,
    derivations: &Vec<DerivationRow>,
    outputs: &Vec<OutputRow>,
    products: &Vec<Id>,
    query: &BuildsQuery,
) -> (r: PaginatedBuilds)
    ensures
        ({
            let items = items_of(builds@, derivations@, outputs@, products@);
            let sorted = stable_sort(items, item_order());
            let total = items.len() as int;
            let from = match query.offset {
                Some(o) if o < total => o as int,
                Some(_) => total,
                None => 0,
            };
            let upto = match query.limit {
                Some(l) if from + l < total => from + l,
                _ => total,
            };
            &&& r.total == total
            &&& r.active_count == count_where(sorted, |i: BuildItem| is_active(i))
            &&& r.builds@ == sorted.subrange(from, upto)
        }),
{
    let mut drv_ids: Vec<Id> = Vec::new();
    let mut d: usize = 0;
    while d < derivations.len()
        invariant
            d <= derivations.len(),
            drv_ids@ == derivation_ids(derivations@).take(d as int),
        decreases derivations.len() - d,
    {
        drv_ids.push(derivations[d].id);
        d += 1;
    }
    assert(derivation_ids(derivations@).take(d as int) =~= derivation_ids(derivations@));
    let index = IdIndex::new(drv_ids);
    let mut out_ids: Vec<Id> = Vec::new();
    let mut o: usize = 0;
    while o < outputs.len()
        invariant
            o <= outputs.len(),
            out_ids@ == output_ids(outputs@).take(o as int),
        decreases outputs.len() - o,
    {
        out_ids.push(outputs[o].id);
        o += 1;
    }
    assert(output_ids(outputs@).take(o as int) =~= output_ids(outputs@));
    let ghost le = item_order();
    let mut items: Vec<BuildItem> = Vec::new();
    let mut keys: Vec<(u32, Vec<char>)> = Vec::new();
    let mut i: usize = 0;
    let ghost found: Seq<BuildItem> = Seq::empty();
    while i < builds.len()
        invariant
            i <= builds.len(),
            index.wf(),
            index@ == derivation_ids(derivations@),
            out_ids@ == output_ids(outputs@),
            le == item_order(),
            keyed(keys@, items@),
            in_order(items@, le),
            found == items_of(builds@.take(i as int), derivations@, outputs@, products@),
            items@ == stable_sort(found, le),
        decreases builds.len() - i,
    {
        let b = &builds[i];
        proof {
            assert(builds@.take(i as int + 1).drop_last() =~= builds@.take(i as int));
            assert(builds@.take(i as int + 1).last() == builds@[i as int]);
        }
        match index.find(b.derivation) {
            Some(k) => {
                if has_suffix(derivations[k].derivation_path.as_str(), ".drv") {
                    let item = BuildItem {
                        id: b.id,
                        name: derivations[k].derivation_path.clone(),
                        status: b.status.clone(),
                        has_artefacts: artefacts_of(outputs, &out_ids, products, b.derivation),
                        updated_at: b.updated_at,
                        build_time_ms: b.build_time_ms,
                    };
                    proof {
                        found = found.push(item);
                        assert(found.drop_last() =~= items_of(
                            builds@.take(i as int),
                            derivations@,
                            outputs@,
                            products@,
                        ));
                    }
                    insert_item(&mut items, &mut keys, item);
                }
            },
            None => {},
        }
        i += 1;
    }
    proof {
        assert(builds@.take(i as int) =~= builds@);
        law_build_list_is_ordered(found);
    }
    let ghost sorted = items@;
    let total: usize = items.len();
    let mut active_count: usize = 0;
    let ghost act = |i: BuildItem| is_active(i);
    let mut k: usize = 0;
    proof {
        crate::rows::lemma_count_whole(sorted, act);
    }
    while k < items.len()
        invariant
            k <= items.len(),
            items@ == sorted,
            act == (|i: BuildItem| is_active(i)),
            active_count == count_where(sorted.take(k as int), act),
            active_count <= k,
        decreases items.len() - k,
    {
        proof {
            crate::rows::lemma_count_step(sorted, act, k as int);
        }
        if status_rank(items[k].status.as_str()) < 4 {
            active_count += 1;
        }
        k += 1;
    }
    let from: usize = match query.offset {
        Some(o) => if o < total {
            o
        } else {
            total
        },
        None => 0,
    };
    let mut page = items.split_off(from);
    if let Some(l) = query.limit {
        page.truncate(l);
    }
    PaginatedBuilds { builds: page, total, active_count }
}

// ── Laws by status name ──────────────────────────────────────────────────────

proof fn lemma_status_names()
    ensures
        "Building"@.len() == 8,
        "Queued"@.len() == 6,
        "Queued"@[0] == 'Q',
        "Failed"@.len() == 6,
        "Failed"@[0] == 'F',
        "Aborted"@.len() == 7,
        "DependencyFailed"@.len() == 16,
        "Completed"@.len() == 9,
        "Substituted"@.len() == 11,
{
    reveal_strlit("Building");
    reveal_strlit("Queued");
    reveal_strlit("Failed");
    reveal_strlit("Aborted");
    reveal_strlit("DependencyFailed");
    reveal_strlit("Completed");
    reveal_strlit("Substituted");
}

/// The groups of the list, in their order: Building, Queued, Failed, Aborted with
/// DependencyFailed, Completed with Substituted, and any other status last.
pub proof fn law_status_groups(a: &str, b: &str, ra: u32, rb: u32)
    requires
        call_ensures(status_rank, (a,), ra),
        call_ensures(status_rank, (b,), rb),
    ensures
        a@ == "Building"@ && b@ != "Building"@ ==> ra < rb,
        a@ == "Queued"@ && b@ != "Building"@ && b@ != "Queued"@ ==> ra < rb,
        a@ == "Failed"@ && b@ != "Building"@ && b@ != "Queued"@ && b@ != "Failed"@ ==> ra < rb,
        (a@ == "Aborted"@ || a@ == "DependencyFailed"@) && (b@ == "Aborted"@ || b@
            == "DependencyFailed"@) ==> ra == rb,
        (a@ == "Aborted"@ || a@ == "DependencyFailed"@) && (b@ == "Completed"@ || b@
            == "Substituted"@) ==> ra < rb,
        (a@ == "Completed"@ || a@ == "Substituted"@) && (b@ == "Completed"@ || b@
            == "Substituted"@) ==> ra == rb,
        (a@ == "Aborted"@ || a@ == "DependencyFailed"@ || a@ == "Completed"@ || a@
            == "Substituted"@) && b@ != "Building"@ && b@ != "Queued"@ && b@ != "Failed"@ && b@
            != "Aborted"@ && b@ != "DependencyFailed"@ && b@ != "Completed"@ && b@
            != "Substituted"@ ==> ra < rb,
        a@ == b@ ==> ra == rb,
{
    lemma_status_names();
}

/// Within a page, builds come by status: what is Building first, Queued, Failed, Aborted and
/// DependencyFailed after it, Completed and Substituted behind them, anything else last. So a
/// build with one of the first five names never comes after a Completed or Substituted one.
pub proof fn law_pages_are_ordered_by_status(
    builds: Vec<BuildRow>,
    derivations: Vec<DerivationRow>,
    outputs: Vec<OutputRow>,
    products: Vec<Id>,
    query: BuildsQuery,
    r: PaginatedBuilds,
    i: int,
    j: int,
)
    requires
        call_ensures(
            get_evaluation_builds,
            (&builds, &derivations, &outputs, &products, &query),
            r,
        ),
        0 <= i < j < r.builds@.len(),
    ensures
        ({
            let a = r.builds@[i].status@;
            let b = r.builds@[j].status@;
            &&& b == "Building"@ ==> a == "Building"@
            &&& b == "Queued"@ ==> a == "Building"@ || a == "Queued"@
            &&& b == "Failed"@ ==> a == "Building"@ || a == "Queued"@ || a == "Failed"@
            &&& b == "Aborted"@ || b == "DependencyFailed"@ ==> a == "Building"@ || a == "Queued"@
                || a == "Failed"@ || a == "Aborted"@ || a == "DependencyFailed"@
            &&& b == "Completed"@ || b == "Substituted"@ ==> a == "Building"@ || a == "Queued"@ || a
                == "Failed"@ || a == "Aborted"@ || a == "DependencyFailed"@ || a == "Completed"@
                || a == "Substituted"@
        }),
{
    let items = items_of(builds@, derivations@, outputs@, products@);
    law_build_list_is_ordered(items);
    let sorted = stable_sort(items, item_order());
    let from = match query.offset {
        Some(o) if o < items.len() => o as int,
        Some(_) => items.len() as int,
        None => 0,
    };
    let le = item_order();
    assert(r.builds@[i] == sorted[from + i]);
    assert(r.builds@[j] == sorted[from + j]);
    assert(le(sorted[from + i], sorted[from + j]));
    lemma_status_names();
}

/// Within one status, builds come by the part of their derivation's file name behind the hash,
/// without the `.drv`.
pub proof fn law_pages_are_ordered_by_name(
    builds: Vec<BuildRow>,
    derivations: Vec<DerivationRow>,
    outputs: Vec<OutputRow>,
    products: Vec<Id>,
    query: BuildsQuery,
    r: PaginatedBuilds,
    i: int,
    j: int,
    dir_a: Seq<char>,
    hash_a: Seq<char>,
    name_a: Seq<char>,
    dir_b: Seq<char>,
    hash_b: Seq<char>,
    name_b: Seq<char>,
)
    requires
        call_ensures(
            get_evaluation_builds,
            (&builds, &derivations, &outputs, &products, &query),
            r,
        ),
        0 <= i < j < r.builds@.len(),
        r.builds@[i].status@ == r.builds@[j].status@,
        r.builds@[i].name@ == dir_a + seq!['/'] + hash_a + seq!['-'] + name_a + ".drv"@,
        r.builds@[j].name@ == dir_b + seq!['/'] + hash_b + seq!['-'] + name_b + ".drv"@,
        forall|k: int| 0 <= k < hash_a.len() ==> hash_a[k] != '/' && hash_a[k] != '-',
        forall|k: int| 0 <= k < hash_b.len() ==> hash_b[k] != '/' && hash_b[k] != '-',
        forall|k: int| 0 <= k < name_a.len() ==> name_a[k] != '/',
        forall|k: int| 0 <= k < name_b.len() ==> name_b[k] != '/',
    ensures
        lex_le(name_a, name_b),
{
    let items = items_of(builds@, derivations@, outputs@, products@);
    law_build_list_is_ordered(items);
    let sorted = stable_sort(items, item_order());
    let from = match query.offset {
        Some(o) if o < items.len() => o as int,
        Some(_) => items.len() as int,
        None => 0,
    };
    let le = item_order();
    assert(r.builds@[i] == sorted[from + i]);
    assert(r.builds@[j] == sorted[from + j]);
    assert(le(sorted[from + i], sorted[from + j]));
    lemma_list_name(dir_a, hash_a, name_a);
    lemma_list_name(dir_b, hash_b, name_b);
}

pub proof fn lemma_list_name(dir: Seq<char>, hash: Seq<char>, name: Seq<char>)
    requires
        forall|k: int| 0 <= k < hash.len() ==> hash[k] != '/' && hash[k] != '-',
        forall|k: int| 0 <= k < name.len() ==> name[k] != '/',
    ensures
        after_dash(without_drv(filename(dir + seq!['/'] + hash + seq!['-'] + name + ".drv"@)))
            == name,
{
    reveal_strlit(".drv");
    let path = dir + seq!['/'] + hash + seq!['-'] + name + ".drv"@;
    let n = dir.len() as int;
    let m = hash.len() as int;
    assert(path[n] == '/');
    assert forall|k: int| n + 1 <= k < path.len() implies path[k] != '/' by {
        if k < n + 1 + m {
            assert(path[k] == hash[k - n - 1]);
        } else if k == n + 1 + m {
            assert(path[k] == '-');
        } else if k < n + 2 + m + name.len() {
            assert(path[k] == name[k - n - 2 - m]);
        } else {
            assert(path[k] == ".drv"@[k - n - 2 - m - name.len()]);
        }
    }
    crate::text::lemma_past_last_is(path, '/', n + 1);
    let file = hash + seq!['-'] + name + ".drv"@;
    assert(filename(path) =~= file);
    assert(file.subrange(file.len() - 4, file.len() as int) =~= ".drv"@);
    let stem = hash + seq!['-'] + name;
    assert(file.subrange(0, file.len() - 4) =~= stem);
    assert forall|k: int| 0 <= k < m implies stem[k] != '-' by {
        assert(stem[k] == hash[k]);
    }
    assert(stem[m] == '-');
    crate::text::lemma_position_is(stem, '-', m);
    assert(stem.subrange(m + 1, stem.len() as int) =~= name);
}

/// A page is what `offset` and `limit` cut out of the whole list, and has its totals: the number
/// of entries, and the number of those whose status is Building, Queued, Failed, Aborted or
/// DependencyFailed.
pub proof fn law_pages_are_cut_from_the_list(
    builds: Vec<BuildRow>,
    derivations: Vec<DerivationRow>,
    outputs: Vec<OutputRow>,
    products: Vec<Id>,
    query: BuildsQuery,
    page: PaginatedBuilds,
    whole: PaginatedBuilds,
)
    requires
        call_ensures(
            get_evaluation_builds,
            (&builds, &derivations, &outputs, &products, &query),
            page,
        ),
        call_ensures(
            get_evaluation_builds,
            (
                &builds,
                &derivations,
                &outputs,
                &products,
                &(BuildsQuery { limit: None, offset: None }),
            ),
            whole,
        ),
    ensures
        page.total == whole.builds@.len(),
        page.active_count == whole.active_count,
        page.active_count == count_where(
            whole.builds@,
            |b: BuildItem|
                b.status@ == "Building"@ || b.status@ == "Queued"@ || b.status@ == "Failed"@
                    || b.status@ == "Aborted"@ || b.status@ == "DependencyFailed"@,
        ),
        query.offset is None && query.limit is None ==> page.builds@ == whole.builds@,
        query.offset is Some && query.offset->0 >= whole.builds@.len() ==> page.builds@.len() == 0,
        ({
            let from = if query.offset is Some {
                query.offset->0 as int
            } else {
                0
            };
            let left = whole.builds@.len() - from;
            from <= whole.builds@.len() ==> {
                &&& page.builds@.len() == if query.limit is Some && query.limit->0 < left {
                    query.limit->0 as int
                } else {
                    left
                }
                &&& page.builds@ == whole.builds@.subrange(from, from + page.builds@.len())
            }
        }),
{
    let items = items_of(builds@, derivations@, outputs@, products@);
    law_build_list_is_ordered(items);
    let sorted = stable_sort(items, item_order());
    assert(whole.builds@ =~= sorted);
    lemma_status_names();
    crate::rows::lemma_count_agrees(
        sorted,
        |i: BuildItem| is_active(i),
        |b: BuildItem|
            b.status@ == "Building"@ || b.status@ == "Queued"@ || b.status@ == "Failed"@
                || b.status@ == "Aborted"@ || b.status@ == "DependencyFailed"@,
    );
}

/// Every build whose derivation is known and is a `.drv` file has its entry in the list; where
/// two derivation rows share an identifier, the last counts.
pub proof fn law_known_builds_are_listed(
    builds: Vec<BuildRow>,
    derivations: Vec<DerivationRow>,
    outputs: Vec<OutputRow>,
    products: Vec<Id>,
    whole: PaginatedBuilds,
    n: int,
    k: int,
)
    requires
        call_ensures(
            get_evaluation_builds,
            (
                &builds,
                &derivations,
                &outputs,
                &products,
                &(BuildsQuery { limit: None, offset: None }),
            ),
            whole,
        ),
        0 <= n < builds@.len(),
        0 <= k < derivations@.len(),
        derivations@[k].id == builds@[n].derivation,
        forall|j: int| k < j < derivations@.len() ==> derivations@[j].id != builds@[n].derivation,
        derivations@[k].derivation_path@.len() >= 4,
        derivations@[k].derivation_path@.subrange(
            derivations@[k].derivation_path@.len() - 4,
            derivations@[k].derivation_path@.len() as int,
        ) == ".drv"@,
    ensures
        exists|e: int|
            {
                &&& 0 <= e < whole.builds@.len()
                &&& (#[trigger] whole.builds@[e]).id == builds@[n].id
                &&& whole.builds@[e].name == derivations@[k].derivation_path
                &&& whole.builds@[e].status == builds@[n].status
                &&& whole.builds@[e].updated_at == builds@[n].updated_at
                &&& whole.builds@[e].build_time_ms == builds@[n].build_time_ms
            },
{
    reveal_strlit(".drv");
    let items = items_of(builds@, derivations@, outputs@, products@);
    law_build_list_is_ordered(items);
    let sorted = stable_sort(items, item_order());
    assert(whole.builds@ =~= sorted);
    let b = builds@[n];
    let ids = derivation_ids(derivations@);
    crate::rows::lemma_last_index(ids, b.derivation);
    assert(ids[k] == derivations@[k].id);
    let last = last_index(ids, b.derivation);
    assert(last == Some(k)) by {
        if last->0 > k {
            assert(ids[last->0] == derivations@[last->0].id);
        }
    }
    let item = item_of(b, derivations@, outputs@, products@)->0;
    lemma_items_contain(builds@, derivations@, outputs@, products@, n);
    items.to_multiset_ensures();
    sorted.to_multiset_ensures();
    assert(items.to_multiset().count(item) == sorted.to_multiset().count(item));
    assert(sorted.contains(item));
    let e = sorted.index_of(item);
    assert(whole.builds@[e] == item);
}

proof fn lemma_items_contain(
    builds: Seq<BuildRow>,
    derivations: Seq<DerivationRow>,
    outputs: Seq<OutputRow>,
    products: Seq<Id>,
    n: int,
)
    requires
        0 <= n < builds.len(),
        item_of(builds[n], derivations, outputs, products) is Some,
    ensures
        items_of(builds, derivations, outputs, products).contains(
            item_of(builds[n], derivations, outputs, products)->0,
        ),
    decreases builds.len(),
{
    let less = builds.drop_last();
    let before = items_of(less, derivations, outputs, products);
    let now = items_of(builds, derivations, outputs, products);
    let item = item_of(builds[n], derivations, outputs, products)->0;
    if n == builds.len() - 1 {
        assert(now[before.len() as int] == item);
    } else {
        assert(less[n] == builds[n]);
        lemma_items_contain(less, derivations, outputs, products, n);
        let k = before.index_of(item);
        assert(now[k] == item);
    }
}

proof fn lemma_items_come_from(
    builds: Seq<BuildRow>,
    derivations: Seq<DerivationRow>,
    outputs: Seq<OutputRow>,
    products: Seq<Id>,
    item: BuildItem,
)
    requires
        items_of(builds, derivations, outputs, products).contains(item),
    ensures
        exists|n: int|
            0 <= n < builds.len() && item_of(#[trigger] builds[n], derivations, outputs, products)
                == Some(item),
    decreases builds.len(),
{
    if builds.len() > 0 {
        let less = builds.drop_last();
        let before = items_of(less, derivations, outputs, products);
        let now = items_of(builds, derivations, outputs, products);
        if before.contains(item) {
            lemma_items_come_from(less, derivations, outputs, products, item);
            let n = choose|n: int|
                0 <= n < less.len() && item_of(#[trigger] less[n], derivations, outputs, products)
                    == Some(item);
            assert(builds[n] == less[n]);
        } else {
            let k = now.index_of(item);
            assert(k == before.len());
            assert(builds[builds.len() - 1] == builds.last());
        }
    }
}

/// Every entry of a page is that of a build whose derivation is known and is a `.drv` file. It
/// has artefacts exactly when some product belongs to an output of that derivation; where two
/// output rows share an identifier, the first counts.
pub proof fn law_listed_builds_are_known(
    builds: Vec<BuildRow>,
    derivations: Vec<DerivationRow>,
    outputs: Vec<OutputRow>,
    products: Vec<Id>,
    query: BuildsQuery,
    page: PaginatedBuilds,
    e: int,
)
    requires
        call_ensures(
            get_evaluation_builds,
            (&builds, &derivations, &outputs, &products, &query),
            page,
        ),
        0 <= e < page.builds@.len(),
    ensures
        exists|n: int, k: int|
            {
                &&& 0 <= n < builds@.len()
                &&& 0 <= k < derivations@.len()
                &&& (#[trigger] derivations@[k]).id == (#[trigger] builds@[n]).derivation
                &&& page.builds@[e].id == builds@[n].id
                &&& page.builds@[e].name == derivations@[k].derivation_path
                &&& page.builds@[e].name@.len() >= 4
                &&& page.builds@[e].name@.subrange(
                    page.builds@[e].name@.len() - 4,
                    page.builds@[e].name@.len() as int,
                ) == ".drv"@
                &&& page.builds@[e].status == builds@[n].status
                &&& page.builds@[e].updated_at == builds@[n].updated_at
                &&& page.builds@[e].build_time_ms == builds@[n].build_time_ms
                &&& page.builds@[e].has_artefacts <==> exists|p: int, o: int|
                    {
                        &&& 0 <= p < products@.len()
                        &&& 0 <= o < outputs@.len()
                        &&& (#[trigger] outputs@[o]).id == (#[trigger] products@[p])
                        &&& outputs@[o].derivation == builds@[n].derivation
                        &&& forall|q: int| 0 <= q < o ==> (#[trigger] outputs@[q]).id
                            != products@[p]
                    }
            },
{
    reveal_strlit(".drv");
    let items = items_of(builds@, derivations@, outputs@, products@);
    law_build_list_is_ordered(items);
    let sorted = stable_sort(items, item_order());
    let from = match query.offset {
        Some(o) if o < items.len() => o as int,
        Some(_) => items.len() as int,
        None => 0,
    };
    let item = page.builds@[e];
    assert(item == sorted[from + e]);
    assert(sorted.contains(item));
    items.to_multiset_ensures();
    sorted.to_multiset_ensures();
    assert(items.to_multiset().count(item) == sorted.to_multiset().count(item));
    assert(items.contains(item));
    lemma_items_come_from(builds@, derivations@, outputs@, products@, item);
    let n = choose|n: int|
        0 <= n < builds@.len() && item_of(
            #[trigger] builds@[n],
            derivations@,
            outputs@,
            products@,
        ) == Some(item);
    let ids = derivation_ids(derivations@);
    crate::rows::lemma_last_index(ids, builds@[n].derivation);
    let k = last_index(ids, builds@[n].derivation)->0;
    assert(ids[k] == derivations@[k].id);
    lemma_has_products(outputs@, products@, builds@[n].derivation);
}

proof fn lemma_has_products(outputs: Seq<OutputRow>, products: Seq<Id>, drv: Id)
    ensures
        has_products(outputs, products, drv) <==> exists|p: int, o: int|
            {
                &&& 0 <= p < products.len()
                &&& 0 <= o < outputs.len()
                &&& (#[trigger] outputs[o]).id == (#[trigger] products[p])
                &&& outputs[o].derivation == drv
                &&& forall|q: int| 0 <= q < o ==> (#[trigger] outputs[q]).id != products[p]
            },
{
    let ids = output_ids(outputs);
    assert forall|o: int| 0 <= o < outputs.len() implies ids[o] == (#[trigger] outputs[o]).id by {}
    if has_products(outputs, products, drv) {
        let p = choose|i: int|
            0 <= i < products.len() && (first_index(ids, #[trigger] products[i]) matches Some(k)
                && outputs[k].derivation == drv);
        crate::rows::lemma_first_index(ids, products[p]);
        let o = first_index(ids, products[p])->0;
        assert(ids[o] == outputs[o].id);
        assert forall|q: int| 0 <= q < o implies (#[trigger] outputs[q]).id != products[p] by {
            assert(ids[q] == outputs[q].id);
        }
    }
    if exists|p: int, o: int|
        {
            &&& 0 <= p < products.len()
            &&& 0 <= o < outputs.len()
            &&& (#[trigger] outputs[o]).id == (#[trigger] products[p])
            &&& outputs[o].derivation == drv
            &&& forall|q: int| 0 <= q < o ==> (#[trigger] outputs[q]).id != products[p]
        } {
        let (p, o) = choose|p: int, o: int|
            {
                &&& 0 <= p < products.len()
                &&& 0 <= o < outputs.len()
                &&& (#[trigger] outputs[o]).id == (#[trigger] products[p])
                &&& outputs[o].derivation == drv
                &&& forall|q: int| 0 <= q < o ==> (#[trigger] outputs[q]).id != products[p]
            };
        crate::rows::lemma_first_index(ids, products[p]);
        assert(ids[o] == products[p]);
        let f = first_index(ids, products[p])->0;
        if f < o {
            assert(ids[f] == outputs[f].id);
        }
        assert(first_index(ids, products[p]) == Some(o));
    }
}

} // verus!
