//! Metrics of a project over its evaluations.

use crate::helpers::{Id, Timestamp};
use crate::status::BuildStatus;
use crate::text::{contains, same, views};
use std::collections::HashSet;
use vstd::prelude::*;

verus! {

broadcast use vstd::std_specs::hash::group_hash_axioms;

// ── Closures ─────────────────────────────────────────────────────────────────

/// A derivation and one of its dependencies.
#[derive(Clone, Copy)]
pub struct DependencyRow {
    pub derivation: Id,
    pub dependency: Id,
}

/// `path` goes along an edge at its position `i`.
pub open spec fn edge_at(edges: Set<(Id, Id)>, path: Seq<Id>, i: int) -> bool {
    edges.contains((path[i], path[i + 1]))
}

/// `path` leads along `edges` from one of `seeds`.
pub open spec fn is_path(edges: Set<(Id, Id)>, seeds: Set<Id>, path: Seq<Id>) -> bool {
    &&& path.len() > 0
    &&& seeds.contains(path[0])
    &&& forall|i: int| 0 <= i < path.len() - 1 ==> #[trigger] edge_at(edges, path, i)
}

/// `x` can be reached along `edges` from one of `seeds`.
pub open spec fn reachable(edges: Set<(Id, Id)>, seeds: Set<Id>, x: Id) -> bool {
    exists|path: Seq<Id>| #[trigger] is_path(edges, seeds, path) && path.last() == x
}

/// A breadth-first walk over dependencies: what was found, and what was found
/// last and has yet to be expanded.
pub struct Closure {
    visited: HashSet<Id>,
    frontier: Vec<Id>,
}

/// `rows` are the edges that leave `from`.
pub open spec fn leave(rows: Seq<DependencyRow>, edges: Set<(Id, Id)>, from: Seq<Id>) -> bool {
    &&& forall|i: int|
        0 <= i < rows.len() ==> edges.contains(
            ((#[trigger] rows[i]).derivation, rows[i].dependency),
        ) && from.contains(rows[i].derivation)
    &&& forall|a: Id, b: Id| #[trigger]
        edges.contains((a, b)) && from.contains(a) ==> exists|i: int|
            0 <= i < rows.len() && (#[trigger] rows[i]).derivation == a && rows[i].dependency == b
}

/// A walk along `edges` from `seeds` that has found `found`, of which `pending`
/// has yet to be expanded, is under way: all that was found can be reached, and
/// all that leaves what was found and expanded was found too.
pub open spec fn under_way(
    found: Set<Id>,
    pending: Seq<Id>,
    edges: Set<(Id, Id)>,
    seeds: Set<Id>,
) -> bool {
    &&& forall|x: Id| #[trigger] seeds.contains(x) ==> found.contains(x)
    &&& forall|x: Id| #[trigger] found.contains(x) ==> reachable(edges, seeds, x)
    &&& forall|x: Id| #[trigger] pending.contains(x) ==> found.contains(x)
    &&& forall|a: Id, b: Id| #[trigger]
        edges.contains((a, b)) && found.contains(a) && !pending.contains(a) ==> found.contains(b)
}

/// `x` is a dependency in `rows`.
pub open spec fn is_target(rows: Seq<DependencyRow>, x: Id) -> bool {
    exists|i: int| 0 <= i < rows.len() && (#[trigger] rows[i]).dependency == x
}

proof fn lemma_reach_further(edges: Set<(Id, Id)>, seeds: Set<Id>, a: Id, x: Id)
    requires
        reachable(edges, seeds, a),
        edges.contains((a, x)),
    ensures
        reachable(edges, seeds, x),
{
    let path = choose|path: Seq<Id>| #[trigger] is_path(edges, seeds, path) && path.last() == a;
    let longer = path.push(x);
    assert forall|i: int| 0 <= i < longer.len() - 1 implies #[trigger] edge_at(edges, longer, i) by {
        if i < path.len() - 1 {
            assert(edge_at(edges, path, i));
        }
    }
    assert(is_path(edges, seeds, longer) && longer.last() == x);
}

proof fn lemma_step(
    found: Set<Id>,
    pending: Seq<Id>,
    rows: Seq<DependencyRow>,
    found2: Set<Id>,
    pending2: Seq<Id>,
    edges: Set<(Id, Id)>,
    seeds: Set<Id>,
)
    requires
        under_way(found, pending, edges, seeds),
        leave(rows, edges, pending),
        forall|x: Id| #[trigger] found2.contains(x) <==> found.contains(x) || is_target(rows, x),
        forall|x: Id| #[trigger]
            pending2.contains(x) <==> found2.contains(x) && !found.contains(x),
    ensures
        under_way(found2, pending2, edges, seeds),
{
    assert forall|x: Id| #[trigger] found2.contains(x) implies reachable(edges, seeds, x) by {
        if !found.contains(x) {
            let j = choose|j: int| 0 <= j < rows.len() && (#[trigger] rows[j]).dependency == x;
            let a = rows[j].derivation;
            assert(pending.contains(a));
            lemma_reach_further(edges, seeds, a, x);
        }
    }
    assert forall|a: Id, b: Id| #[trigger]
        edges.contains((a, b)) && found2.contains(a)
            && !pending2.contains(a) implies found2.contains(
        b,
    ) by {
        assert(found.contains(a));
        if pending.contains(a) {
            let j = choose|j: int|
                0 <= j < rows.len() && (#[trigger] rows[j]).derivation == a && rows[j].dependency
                    == b;
            assert(is_target(rows, b));
        }
    }
}

impl Closure {
    /// Everything that was found.
    pub closed spec fn found(self) -> Set<Id> {
        self.visited@
    }

    /// What has yet to be expanded.
    pub closed spec fn pending(self) -> Seq<Id> {
        self.frontier@
    }

    /// The walk along `edges` from `seeds` is under way.
    pub open spec fn walks(self, edges: Set<(Id, Id)>, seeds: Set<Id>) -> bool {
        under_way(self.found(), self.pending(), edges, seeds)
    }

    /// Starts at `seeds`.
    pub fn new(seeds: Vec<Id>) -> (r: Closure)
        ensures
            r.found() == seeds@.to_set(),
            r.pending() == seeds@,
            forall|edges: Set<(Id, Id)>| #[trigger] r.walks(edges, seeds@.to_set()),
    {
        let mut visited: HashSet<Id> = HashSet::new();
        let mut i: usize = 0;
        while i < seeds.len()
            invariant
                i <= seeds.len(),
                visited@ == seeds@.take(i as int).to_set(),
            decreases seeds.len() - i,
        {
            visited.insert(seeds[i]);
            proof {
                assert(seeds@.take(i as int + 1) =~= seeds@.take(i as int).push(seeds@[i as int]));
                assert(visited@ =~= seeds@.take(i as int + 1).to_set()) by {
                    let s = seeds@.take(i as int);
                    let x = seeds@[i as int];
                    assert forall|y: Id| s.push(x).to_set().contains(y) == s.to_set().insert(
                        x,
                    ).contains(y) by {
                        if s.to_set().contains(y) {
                            let k = choose|k: int| 0 <= k < s.len() && s[k] == y;
                            assert(s.push(x)[k] == y);
                        }
                        if y == x {
                            assert(s.push(x)[s.len() as int] == y);
                        }
                        if s.push(x).contains(y) && y != x {
                            let k = choose|k: int| 0 <= k < s.push(x).len() && s.push(x)[k] == y;
                            assert(s[k] == y);
                        }
                    }
                }
            }
            i += 1;
        }
        assert(seeds@.take(i as int) =~= seeds@);
        let r = Closure { visited, frontier: seeds };
        proof {
            assert forall|edges: Set<(Id, Id)>| #[trigger] r.walks(edges, seeds@.to_set()) by {
                assert forall|x: Id| #[trigger] r.found().contains(x) implies reachable(
                    edges,
                    seeds@.to_set(),
                    x,
                ) by {
                    let path = seq![x];
                    assert(is_path(edges, seeds@.to_set(), path) && path.last() == x);
                }
            }
        }
        r
    }

    /// Whether everything was expanded.
    pub fn is_done(&self) -> (r: bool)
        ensures
            r == (self.pending().len() == 0),
    {
        self.frontier.len() == 0
    }

    /// What to expand next.
    pub fn frontier(&self) -> (r: &Vec<Id>)
        ensures
            r@ == self.pending(),
    {
        &self.frontier
    }

    /// How much was found.
    pub fn len(&self) -> (r: usize)
        ensures
            r == self.found().len(),
    {
        self.visited.len()
    }

    /// Whether `x` was found.
    pub fn contains(&self, x: Id) -> (r: bool)
        ensures
            r == self.found().contains(x),
    {
        self.visited.contains(&x)
    }

    /// Expands the frontier along the edges that leave it.
    pub fn step(&mut self, rows: &Vec<DependencyRow>)
        ensures
            forall|x: Id| #[trigger]
                final(self).found().contains(x) <==> old(self).found().contains(x) || is_target(
                    rows@,
                    x,
                ),
            forall|x: Id| #[trigger]
                final(self).pending().contains(x) <==> final(self).found().contains(x) && !old(
                    self,
                ).found().contains(x),
            final(self).pending().no_duplicates(),
            forall|edges: Set<(Id, Id)>, seeds: Set<Id>|
                #![trigger final(self).walks(edges, seeds)]
                old(self).walks(edges, seeds) && leave(rows@, edges, old(self).pending())
                    ==> final(self).walks(edges, seeds),
    {
        let ghost before = self.found();
        let ghost from = self.pending();
        self.frontier.clear();
        let mut i: usize = 0;
        while i < rows.len()
            invariant
                i <= rows.len(),
                forall|x: Id| #[trigger]
                    self.found().contains(x) <==> before.contains(x) || is_target(
                        rows@.take(i as int),
                        x,
                    ),
                forall|x: Id| #[trigger]
                    self.pending().contains(x) <==> self.found().contains(x) && !before.contains(x),
                self.pending().no_duplicates(),
            decreases rows.len() - i,
        {
            let ghost pend = self.pending();
            let ghost had = self.found();
            let d: Id = rows[i].dependency;
            if self.visited.insert(d) {
                self.frontier.push(d);
                proof {
                    assert(!pend.contains(d));
                    assert(self.pending() =~= pend.push(d));
                    assert forall|a: int, b: int|
                        0 <= a < self.pending().len() && 0 <= b < self.pending().len() && a
                            != b implies self.pending()[a] != self.pending()[b] by {
                        if a < pend.len() && b < pend.len() {
                            assert(pend[a] != pend[b]);
                        } else if a < pend.len() {
                            assert(pend.contains(pend[a]));
                        } else {
                            assert(pend.contains(pend[b]));
                        }
                    }
                    assert forall|x: Id| #[trigger] self.pending().contains(x) <==> pend.contains(x)
                        || x == d by {
                        if pend.contains(x) {
                            let k = choose|k: int| 0 <= k < pend.len() && pend[k] == x;
                            assert(self.pending()[k] == x);
                        }
                        if x == d {
                            assert(self.pending()[pend.len() as int] == x);
                        }
                    }
                }
            }
            proof {
                assert(self.found() =~= had.insert(d));
                let upto = rows@.take(i as int);
                let next = rows@.take(i as int + 1);
                assert forall|x: Id| #[trigger] is_target(next, x) <==> is_target(upto, x)
                    || x == d by {
                    if is_target(upto, x) {
                        let k = choose|k: int|
                            0 <= k < upto.len() && (#[trigger] upto[k]).dependency == x;
                        assert(next[k].dependency == x);
                    }
                    if x == d {
                        assert(next[i as int].dependency == x);
                    }
                    if is_target(next, x) && x != d {
                        let k = choose|k: int|
                            0 <= k < next.len() && (#[trigger] next[k]).dependency == x;
                        assert(upto[k].dependency == x);
                    }
                }
            }
            i += 1;
        }
        proof {
            assert(rows@.take(i as int) =~= rows@);
            assert forall|edges: Set<(Id, Id)>, seeds: Set<Id>|
                #![trigger self.walks(edges, seeds)]
                old(self).walks(edges, seeds) && leave(rows@, edges, from) implies self.walks(
                edges,
                seeds,
            ) by {
                lemma_step(before, from, rows@, self.found(), self.pending(), edges, seeds);
            }
        }
    }
}

proof fn lemma_path_is_found(
    c: Closure,
    edges: Set<(Id, Id)>,
    seeds: Set<Id>,
    path: Seq<Id>,
)
    requires
        c.walks(edges, seeds),
        c.pending().len() == 0,
        is_path(edges, seeds, path),
    ensures
        c.found().contains(path.last()),
    decreases path.len(),
{
    if path.len() > 1 {
        let shorter = path.drop_last();
        assert forall|i: int| 0 <= i < shorter.len() - 1 implies #[trigger] edge_at(
            edges,
            shorter,
            i,
        ) by {
            assert(edge_at(edges, path, i));
        }
        lemma_path_is_found(c, edges, seeds, shorter);
        assert(edge_at(edges, path, path.len() - 2));
    } else {
        assert(seeds.contains(path[0]));
    }
}

/// A finished walk has found exactly what can be reached from where it started,
/// the seeds among it.
pub proof fn law_closure_is_what_is_reachable(
    c: Closure,
    edges: Set<(Id, Id)>,
    seeds: Set<Id>,
)
    requires
        c.walks(edges, seeds),
        c.pending().len() == 0,
    ensures
        forall|x: Id| #[trigger] c.found().contains(x) <==> reachable(edges, seeds, x),
{
    assert forall|x: Id| reachable(edges, seeds, x) implies #[trigger] c.found().contains(x) by {
        let path = choose|path: Seq<Id>| #[trigger]
            is_path(edges, seeds, path) && path.last() == x;
        lemma_path_is_found(c, edges, seeds, path);
    }
}

// ── Sizes ────────────────────────────────────────────────────────────────────

/// An output of a derivation and its uncompressed size, which is known where a
/// worker built the output.
pub struct OutputSizeRow {
    pub hash: String,
    pub nar_size: Option<i64>,
}

/// A cached path and its uncompressed size.
pub struct CachedSizeRow {
    pub hash: String,
    pub nar_size: Option<i64>,
}

/// The size cached for `hash`: that of the last row that has one.
pub open spec fn cached_size(cached: Seq<CachedSizeRow>, hash: Seq<char>) -> Option<i64>
    decreases cached.len(),
{
    if cached.len() == 0 {
        None
    } else if cached.last().hash@ == hash && cached.last().nar_size is Some {
        cached.last().nar_size
    } else {
        cached_size(cached.drop_last(), hash)
    }
}

/// The size of an output: its own, else the one cached for its hash.
pub open spec fn size_of(o: OutputSizeRow, cached: Seq<CachedSizeRow>) -> Option<i64> {
    if o.nar_size is Some {
        o.nar_size
    } else {
        cached_size(cached, o.hash@)
    }
}

/// The sum of the sizes that are known.
pub open spec fn total_size(outputs: Seq<OutputSizeRow>, cached: Seq<CachedSizeRow>) -> int
    decreases outputs.len(),
{
    if outputs.len() == 0 {
        0
    } else {
        total_size(outputs.drop_last(), cached) + match size_of(outputs.last(), cached) {
            Some(n) => n as int,
            None => 0,
        }
    }
}

/// No partial sum leaves the range of the result.
pub open spec fn sums_fit(outputs: Seq<OutputSizeRow>, cached: Seq<CachedSizeRow>) -> bool {
    forall|k: int|
        0 <= k <= outputs.len() ==> i64::MIN <= #[trigger] total_size(outputs.take(k), cached)
            <= i64::MAX
}

/// The hash of an output whose size is not known has to be looked up.
pub open spec fn lacks_size(outputs: Seq<OutputSizeRow>, hash: Seq<char>) -> bool {
    exists|i: int|
        0 <= i < outputs.len() && (#[trigger] outputs[i]).nar_size is None && outputs[i].hash@
            == hash
}

/// The hashes whose size has to be looked up in the cache, each once.
pub fn missing_hashes(outputs: &Vec<OutputSizeRow>) -> (r: Vec<String>)
    ensures
        forall|h: Seq<char>| #[trigger] views(r@).contains(h) <==> lacks_size(outputs@, h),
        views(r@).no_duplicates(),
{
    let mut out: Vec<String> = Vec::new();
    let mut i: usize = 0;
    while i < outputs.len()
        invariant
            i <= outputs.len(),
            forall|h: Seq<char>| #[trigger]
                views(out@).contains(h) <==> lacks_size(outputs@.take(i as int), h),
            views(out@).no_duplicates(),
        decreases outputs.len() - i,
    {
        let ghost before = views(out@);
        let ghost upto = outputs@.take(i as int);
        let ghost next = outputs@.take(i as int + 1);
        let o = &outputs[i];
        proof {
            assert(next =~= upto.push(outputs@[i as int]));
        }
        if o.nar_size.is_none() && !contains(&out, o.hash.as_str()) {
            out.push(o.hash.clone());
            assert(views(out@) =~= before.push(o.hash@));
        }
        proof {
            assert forall|h: Seq<char>| #[trigger] views(out@).contains(h) <==> lacks_size(
                next,
                h,
            ) by {
                if lacks_size(upto, h) {
                    let k = choose|k: int|
                        0 <= k < upto.len() && (#[trigger] upto[k]).nar_size is None
                            && upto[k].hash@
                            == h;
                    assert(next[k].nar_size is None && next[k].hash@ == h);
                    assert(before.contains(h));
                }
                if before.contains(h) {
                    let k = choose|k: int| 0 <= k < before.len() && before[k] == h;
                    assert(views(out@)[k] == h);
                }
                if o.nar_size is None && o.hash@ == h {
                    assert(next[i as int].nar_size is None && next[i as int].hash@ == h);
                    if !before.contains(h) {
                        assert(views(out@)[before.len() as int] == h);
                    }
                }
                if lacks_size(next, h) && !lacks_size(upto, h) {
                    let k = choose|k: int|
                        0 <= k < next.len() && (#[trigger] next[k]).nar_size is None
                            && next[k].hash@
                            == h;
                    if k < i {
                        assert(upto[k] == next[k]);
                    }
                }
                if views(out@).contains(h) && !before.contains(h) {
                    let k = choose|k: int| 0 <= k < views(out@).len() && views(out@)[k] == h;
                    if k < before.len() {
                        assert(before[k] == h);
                    }
                }
            }
        }
        i += 1;
    }
    assert(outputs@.take(i as int) =~= outputs@);
    out
}

fn lookup_size(cached: &Vec<CachedSizeRow>, hash: &str) -> (r: Option<i64>)
    ensures
        r == cached_size(cached@, hash@),
{
    let mut i: usize = cached.len();
    assert(cached@.take(i as int) =~= cached@);
    while i > 0
        invariant
            i <= cached.len(),
            cached_size(cached@, hash@) == cached_size(cached@.take(i as int), hash@),
        decreases i,
    {
        proof {
            assert(cached@.take(i as int).drop_last() =~= cached@.take(i as int - 1));
        }
        let c = &cached[i - 1];
        if c.nar_size.is_some() && same(c.hash.as_str(), hash) {
            return c.nar_size;
        }
        i -= 1;
    }
    None
}

/// Sum uncompressed size of derivation outputs.
///
/// The size of an output is known only when a worker actually built it. For
/// substituted builds it lives on the matching cached path (joined by hash).
/// Both contribute.
///
/// Returns `Some(total)` when the total is > 0, `None` otherwise.
pub fn sum_output_sizes(outputs: &Vec<OutputSizeRow>, cached: &Vec<CachedSizeRow>) -> (r: Option<i64>)
    requires
        sums_fit(outputs@, cached@),
    ensures
        match r {
            Some(n) => n == total_size(outputs@, cached@) && n > 0,
            None => total_size(outputs@, cached@) <= 0,
        },
{
    let mut total: i64 = 0;
    let mut i: usize = 0;
    assert(outputs@.take(0) =~= Seq::<OutputSizeRow>::empty());
    while i < outputs.len()
        invariant
            i <= outputs.len(),
            sums_fit(outputs@, cached@),
            total == total_size(outputs@.take(i as int), cached@),
        decreases outputs.len() - i,
    {
        let o = &outputs[i];
        proof {
            assert(outputs@.take(i as int + 1).drop_last() =~= outputs@.take(i as int));
            assert(i64::MIN <= total_size(outputs@.take(i as int + 1), cached@) <= i64::MAX);
        }
        let size = match o.nar_size {
            Some(n) => Some(n),
            None => lookup_size(cached, o.hash.as_str()),
        };
        if let Some(n) = size {
            total = total + n;
        }
        i += 1;
    }
    assert(outputs@.take(i as int) =~= outputs@);
    if total > 0 {
        Some(total)
    } else {
        None
    }
}

// ── Points ───────────────────────────────────────────────────────────────────

#[derive(Debug, Clone, Copy)]
pub struct ProjectMetricPoint {
    pub evaluation_id: Id,
    pub created_at: Timestamp,
    pub build_time_total_ms: i64,
    pub eval_time_ms: i64,
    pub output_size_bytes: Option<i64>,
    pub closure_size_bytes: Option<i64>,
    pub dependencies_count: i64,
}

pub struct ProjectMetricsResponse {
    pub keep_evaluations: i32,
    pub points: Vec<ProjectMetricPoint>,
}

/// The whole milliseconds from `from` to `to`, rounded towards zero.
pub open spec fn millis_between(from: int, to: int) -> int {
    if to >= from {
        (to - from) / 1000
    } else {
        -((from - to) / 1000)
    }
}

/// The whole milliseconds from `from` to `to`.
pub fn millis(from: Timestamp, to: Timestamp) -> (r: i64)
    ensures
        r == millis_between(from as int, to as int),
{
    if to >= from {
        let d: u128 = (to as i128 - from as i128) as u128;
        (d / 1000) as i64
    } else {
        let d: u128 = (from as i128 - to as i128) as u128;
        let q: i64 = (d / 1000) as i64;
        -q
    }
}

/// The sum of the build times that are known.
pub open spec fn total_time(times: Seq<Option<i64>>) -> int
    decreases times.len(),
{
    if times.len() == 0 {
        0
    } else {
        total_time(times.drop_last()) + match times.last() {
            Some(n) => n as int,
            None => 0,
        }
    }
}

/// No partial sum of the build times leaves the range of the result.
pub open spec fn times_fit(times: Seq<Option<i64>>) -> bool {
    forall|k: int|
        0 <= k <= times.len() ==> i64::MIN <= #[trigger] total_time(times.take(k)) <= i64::MAX
}

/// Sum of the actual build times; substituted builds contribute nothing.
pub fn sum_build_times(times: &Vec<Option<i64>>) -> (r: i64)
    requires
        times_fit(times@),
    ensures
        r == total_time(times@),
{
    let mut total: i64 = 0;
    let mut i: usize = 0;
    assert(times@.take(0) =~= Seq::<Option<i64>>::empty());
    while i < times.len()
        invariant
            i <= times.len(),
            times_fit(times@),
            total == total_time(times@.take(i as int)),
        decreases times.len() - i,
    {
        proof {
            assert(times@.take(i as int + 1).drop_last() =~= times@.take(i as int));
            assert(i64::MIN <= total_time(times@.take(i as int + 1)) <= i64::MAX);
        }
        if let Some(n) = times[i] {
            total = total + n;
        }
        i += 1;
    }
    assert(times@.take(i as int) =~= times@);
    total
}

/// The metrics of one evaluation: `build_times` are those of its builds,
/// `entry_points` the number of its entry points, `closure` the number of
/// derivations that can be reached from them.
pub fn project_metric_point(
    evaluation_id: Id,
    created_at: Timestamp,
    updated_at: Timestamp,
    build_times: &Vec<Option<i64>>,
    entry_points: usize,
    closure: usize,
    output_size_bytes: Option<i64>,
    closure_size_bytes: Option<i64>,
) -> (r: ProjectMetricPoint)
    requires
        times_fit(build_times@),
        entry_points <= i64::MAX,
        closure <= i64::MAX,
    ensures
        r.evaluation_id == evaluation_id,
        r.created_at == created_at,
        r.build_time_total_ms == total_time(build_times@),
        r.eval_time_ms == millis_between(created_at as int, updated_at as int),
        r.output_size_bytes == output_size_bytes,
        r.closure_size_bytes == closure_size_bytes,
        r.dependencies_count == closure - entry_points,
{
    ProjectMetricPoint {
        evaluation_id,
        created_at,
        build_time_total_ms: sum_build_times(build_times),
        eval_time_ms: millis(created_at, updated_at),
        output_size_bytes,
        closure_size_bytes,
        dependencies_count: closure as i64 - entry_points as i64,
    }
}

/// The metrics of a project, oldest first; `points` are newest first.
pub fn get_project_metrics(keep_evaluations: i32, points: &Vec<ProjectMetricPoint>) -> (r:
    ProjectMetricsResponse)
    ensures
        r.keep_evaluations == keep_evaluations,
        r.points@ == points@.reverse(),
{
    let mut out: Vec<ProjectMetricPoint> = Vec::new();
    let mut i: usize = points.len();
    while i > 0
        invariant
            i <= points.len(),
            out@ == points@.reverse().take(points@.len() - i),
        decreases i,
    {
        i -= 1;
        out.push(points[i]);
        assert(out@ =~= points@.reverse().take(points@.len() - i));
    }
    assert(out@ =~= points@.reverse());
    ProjectMetricsResponse { keep_evaluations, points: out }
}

#[derive(Debug, Clone, Copy)]
pub struct EntryPointMetricPoint {
    pub evaluation_id: Id,
    pub created_at: Timestamp,
    pub build_status: BuildStatus,
    pub build_time_ms: Option<i64>,
    pub output_size_bytes: Option<i64>,
    pub closure_size_bytes: Option<i64>,
    pub dependencies_count: i64,
}

#[derive(Debug, PartialEq, Eq)]
pub struct EntryPointMetricsQuery {
    pub eval: String,
}

pub struct EntryPointMetricsResponse {
    pub eval: String,
    pub keep_evaluations: i32,
    pub points: Vec<EntryPointMetricPoint>,
}

/// The metrics of one build of an entry point; `closure` is the number of
/// derivations that can be reached from it, itself among them.
pub fn entry_point_metric_point(
    evaluation_id: Id,
    created_at: Timestamp,
    build_status: BuildStatus,
    build_time_ms: Option<i64>,
    closure: usize,
    output_size_bytes: Option<i64>,
    closure_size_bytes: Option<i64>,
) -> (r: EntryPointMetricPoint)
    requires
        closure <= i64::MAX,
    ensures
        r.evaluation_id == evaluation_id,
        r.created_at == created_at,
        r.build_status == build_status,
        r.build_time_ms == build_time_ms,
        r.output_size_bytes == output_size_bytes,
        r.closure_size_bytes == closure_size_bytes,
        r.dependencies_count == closure - 1,
{
    EntryPointMetricPoint {
        evaluation_id,
        created_at,
        build_status,
        build_time_ms,
        output_size_bytes,
        closure_size_bytes,
        dependencies_count: closure as i64 - 1,
    }
}

/// The points that are there, in order.
pub open spec fn present_points(points: Seq<Option<EntryPointMetricPoint>>) -> Seq<
    EntryPointMetricPoint,
>
    decreases points.len(),
{
    if points.len() == 0 {
        Seq::empty()
    } else {
        let before = present_points(points.drop_last());
        match points.last() {
            Some(p) => before.push(p),
            None => before,
        }
    }
}

/// The metrics of an entry point, oldest first; `points` are newest first, with
/// a gap where the evaluation or its build is gone.
pub fn get_entry_point_metrics(
    query: EntryPointMetricsQuery,
    keep_evaluations: i32,
    points: &Vec<Option<EntryPointMetricPoint>>,
) -> (r: EntryPointMetricsResponse)
    ensures
        r.eval == query.eval,
        r.keep_evaluations == keep_evaluations,
        r.points@ == present_points(points@).reverse(),
{
    let mut present: Vec<EntryPointMetricPoint> = Vec::new();
    let mut i: usize = 0;
    assert(points@.take(0) =~= Seq::<Option<EntryPointMetricPoint>>::empty());
    while i < points.len()
        invariant
            i <= points.len(),
            present@ == present_points(points@.take(i as int)),
        decreases points.len() - i,
    {
        proof {
            assert(points@.take(i as int + 1).drop_last() =~= points@.take(i as int));
        }
        if let Some(p) = points[i] {
            present.push(p);
        }
        i += 1;
    }
    assert(points@.take(i as int) =~= points@);
    let mut out: Vec<EntryPointMetricPoint> = Vec::new();
    let mut k: usize = present.len();
    while k > 0
        invariant
            k <= present.len(),
            out@ == present@.reverse().take(present@.len() - k),
        decreases k,
    {
        k -= 1;
        out.push(present[k]);
        assert(out@ =~= present@.reverse().take(present@.len() - k));
    }
    assert(out@ =~= present@.reverse());
    EntryPointMetricsResponse { eval: query.eval, keep_evaluations, points: out }
}

/// The sum of sizes: one more output adds its own size, and else the one that the last row with
/// a size for its hash has, and else nothing.
pub proof fn law_sizes_add_up(
    outputs: Seq<OutputSizeRow>,
    o: OutputSizeRow,
    cached: Seq<CachedSizeRow>,
    c: CachedSizeRow,
    h: Seq<char>,
)
    ensures
        total_size(Seq::<OutputSizeRow>::empty(), cached) == 0,
        o.nar_size is Some ==> total_size(outputs.push(o), cached)
            == total_size(outputs, cached) + o.nar_size->0,
        o.nar_size is None && cached_size(cached, o.hash@) is Some
            ==> total_size(outputs.push(o), cached)
            == total_size(outputs, cached) + cached_size(cached, o.hash@)->0,
        o.nar_size is None && cached_size(cached, o.hash@) is None
            ==> total_size(outputs.push(o), cached) == total_size(outputs, cached),
        cached_size(Seq::<CachedSizeRow>::empty(), h) is None,
        c.hash@ == h && c.nar_size is Some ==> cached_size(cached.push(c), h) == c.nar_size,
        c.hash@ != h || c.nar_size is None ==> cached_size(cached.push(c), h)
            == cached_size(cached, h),
{
    assert(outputs.push(o).drop_last() =~= outputs);
    assert(cached.push(c).drop_last() =~= cached);
}

/// A sum of sizes is told when it is positive, and the hashes to look up are those of the
/// outputs whose size is not known, each once.
pub proof fn law_told_sizes(
    outputs: Vec<OutputSizeRow>,
    cached: Vec<CachedSizeRow>,
    r: Option<i64>,
    m: Vec<String>,
    i: int,
    j: int,
)
    requires
        sums_fit(outputs@, cached@),
        call_ensures(sum_output_sizes, (&outputs, &cached), r),
        call_ensures(missing_hashes, (&outputs,), m),
    ensures
        r is Some <==> total_size(outputs@, cached@) > 0,
        r is Some ==> r->0 == total_size(outputs@, cached@),
        0 <= i < outputs@.len() && outputs@[i].nar_size is None
            ==> views(m@).contains(outputs@[i].hash@),
        0 <= i < m@.len() ==> exists|k: int|
            0 <= k < outputs@.len() && (#[trigger] outputs@[k]).nar_size is None
                && outputs@[k].hash@
                == m@[i]@,
        0 <= i < j < m@.len() ==> m@[i]@ != m@[j]@,
{
    if 0 <= i < outputs@.len() && outputs@[i].nar_size is None {
        assert(lacks_size(outputs@, outputs@[i].hash@));
    }
    if 0 <= i < m@.len() {
        assert(views(m@)[i] == m@[i]@);
        assert(views(m@).contains(m@[i]@));
        assert(lacks_size(outputs@, m@[i]@));
    }
    if 0 <= i < j < m@.len() {
        assert(views(m@)[i] == m@[i]@ && views(m@)[j] == m@[j]@);
    }
}

/// Times: one more build adds its time where it is known, and the milliseconds between two
/// moments are whole and turn their sign with the order of the moments.
pub proof fn law_times_add_up(
    times: Vec<Option<i64>>,
    more: Vec<Option<i64>>,
    x: Option<i64>,
    r: i64,
    s: i64,
    a: Timestamp,
    b: Timestamp,
    ab: i64,
    ba: i64,
)
    requires
        more@ == times@.push(x),
        times_fit(times@),
        times_fit(more@),
        call_ensures(sum_build_times, (&times,), r),
        call_ensures(sum_build_times, (&more,), s),
        call_ensures(millis, (a, b), ab),
        call_ensures(millis, (b, a), ba),
    ensures
        times@.len() == 0 ==> r == 0,
        x is Some ==> s == r + x->0,
        x is None ==> s == r,
        ab == -ba,
        a <= b ==> ab * 1000 <= b - a && b - a < ab * 1000 + 1000,
{
    assert(more@.drop_last() =~= times@);
}

/// The metrics of an evaluation: its build times added up, the time from its creation to its
/// last change, the sizes, and how many derivations are reached beyond its entry points. A
/// build of an entry point counts the derivations reached beyond itself.
pub proof fn law_metric_points(
    evaluation_id: Id,
    created_at: Timestamp,
    updated_at: Timestamp,
    build_times: Vec<Option<i64>>,
    entry_points: usize,
    closure: usize,
    out_size: Option<i64>,
    closure_size: Option<i64>,
    r: ProjectMetricPoint,
    sum: i64,
    took: i64,
    status: BuildStatus,
    time: Option<i64>,
    e: EntryPointMetricPoint,
)
    requires
        times_fit(build_times@),
        entry_points <= i64::MAX,
        closure <= i64::MAX,
        call_ensures(project_metric_point, (evaluation_id, created_at, updated_at, &build_times, entry_points, closure, out_size, closure_size), r),
        call_ensures(sum_build_times, (&build_times,), sum),
        call_ensures(millis, (created_at, updated_at), took),
        call_ensures(entry_point_metric_point, (evaluation_id, created_at, status, time, closure, out_size, closure_size), e),
    ensures
        r.evaluation_id == evaluation_id && r.created_at == created_at,
        r.build_time_total_ms == sum && r.eval_time_ms == took,
        r.output_size_bytes == out_size && r.closure_size_bytes == closure_size,
        r.dependencies_count == closure - entry_points,
        e.evaluation_id == evaluation_id && e.created_at == created_at && e.build_status == status
            && e.build_time_ms == time,
        e.output_size_bytes == out_size && e.closure_size_bytes == closure_size
            && e.dependencies_count == closure - 1,
{
}

/// The points of a graph are given newest first and answered oldest first; gaps are left out.
pub proof fn law_graphs_run_forward(
    keep: i32,
    points: Vec<ProjectMetricPoint>,
    r: ProjectMetricsResponse,
    i: int,
    query: EntryPointMetricsQuery,
    given: Vec<Option<EntryPointMetricPoint>>,
    more: Vec<Option<EntryPointMetricPoint>>,
    x: Option<EntryPointMetricPoint>,
    e: EntryPointMetricsResponse,
    f: EntryPointMetricsResponse,
)
    requires
        more@ == given@.push(x),
        call_ensures(get_project_metrics, (keep, &points), r),
        call_ensures(get_entry_point_metrics, (query, keep, &given), e),
        call_ensures(get_entry_point_metrics, (query, keep, &more), f),
    ensures
        r.keep_evaluations == keep && r.points@.len() == points@.len(),
        0 <= i < points@.len() ==> r.points@[i] == points@[points@.len() - 1 - i],
        e.eval == query.eval && e.keep_evaluations == keep,
        given@.len() == 0 ==> e.points@.len() == 0,
        x is None ==> f.points@ == e.points@,
        x is Some ==> f.points@ == seq![x->0] + e.points@,
{
    assert(more@.drop_last() =~= given@);
    if let Some(p) = x {
        let before = present_points(given@);
        assert(before.push(p).reverse() =~= seq![p] + before.reverse());
    }
}

} // verus!
