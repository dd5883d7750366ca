//! What the API says of an evaluation.

use crate::evals::access::EvalAccessContext;
use crate::helpers::{Id, Timestamp};
use crate::rows::{count_where, last_index, lemma_count_step, lemma_count_whole, IdIndex};
use crate::status::{BuildStatus, EvaluationStatus};
use crate::text::{opt_clone};
use vstd::prelude::*;

verus! {

/// An evaluation, as the database holds it.
pub struct EvaluationRow {
    pub id: Id,
    pub project: Option<Id>,
    pub repository: String,
    pub commit: Id,
    pub wildcard: String,
    pub status: EvaluationStatus,
    pub previous: Option<Id>,
    pub next: Option<Id>,
    pub trigger: Option<Id>,
    pub created_at: Timestamp,
    pub updated_at: Timestamp,
}

#[derive(Debug, Clone, Copy, PartialEq, Eq, Structural)]
pub enum MessageLevel {
    Error,
    Warning,
    Notice,
}

/// A message of an evaluation, as the database holds it.
pub struct MessageRow {
    pub id: Id,
    pub level: MessageLevel,
    pub message: String,
    pub source: Option<String>,
    pub created_at: Timestamp,
}

/// An entry point, as the database holds it.
pub struct EntryPointRow {
    pub id: Id,
    pub evaluation: Id,
    pub build: Id,
    pub eval: String,
    pub created_at: Timestamp,
}

/// A build and its status.
#[derive(Clone, Copy)]
pub struct BuildStatusRow {
    pub id: Id,
    pub status: BuildStatus,
}

/// Compact entry-point representation returned inline on the evaluation.
pub struct EntryPointBrief {
    pub id: Id,
    pub eval: String,
    pub build_status: BuildStatus,
}

pub struct EvaluationResponse {
    pub id: Id,
    pub project: Option<Id>,
    pub project_name: Option<String>,
    pub project_display_name: Option<String>,
    pub repository: String,
    pub commit: String,
    pub wildcard: String,
    pub status: EvaluationStatus,
    pub previous: Option<Id>,
    pub next: Option<Id>,
    pub created_at: Timestamp,
    pub error_count: u64,
    pub warning_count: u64,
    pub entry_points: Vec<EntryPointBrief>,
    /// Populated only when the evaluation is waiting.
    pub waiting_reason: Option<String>,
}

pub struct EvaluationMessageResponse {
    pub id: Id,
    pub level: MessageLevel,
    pub message: String,
    pub source: Option<String>,
    pub created_at: Timestamp,
    pub entry_points: Vec<Id>,
}

/// A message attached to an entry point.
#[derive(Clone, Copy)]
pub struct EntryPointMessageRow {
    pub message: Id,
    pub entry_point: Id,
}

/// The identifiers of build rows.
pub open spec fn status_ids(rows: Seq<BuildStatusRow>) -> Seq<Id> {
    rows.map_values(|b: BuildStatusRow| b.id)
}

/// The status of the build `id`, where the build is known.
pub open spec fn status_of(rows: Seq<BuildStatusRow>, id: Id) -> Option<BuildStatus> {
    match last_index(status_ids(rows), id) {
        Some(k) => Some(rows[k].status),
        None => None,
    }
}

/// The brief form of an entry point; a build that is not known counts as
/// created.
pub open spec fn brief_of(ep: EntryPointRow, builds: Seq<BuildStatusRow>) -> EntryPointBrief {
    EntryPointBrief {
        id: ep.id,
        eval: ep.eval,
        build_status: match status_of(builds, ep.build) {
            Some(s) => s,
            None => BuildStatus::Created,
        },
    }
}

/// Builds by their identifier.
pub(crate) fn index_builds(builds: &Vec<BuildStatusRow>) -> (r: IdIndex)
    ensures
        r.wf(),
        r@ == status_ids(builds@),
{
    let mut ids: Vec<Id> = Vec::new();
    let mut i: usize = 0;
    while i < builds.len()
        invariant
            i <= builds.len(),
            ids@ == status_ids(builds@).take(i as int),
        decreases builds.len() - i,
    {
        ids.push(builds[i].id);
        i += 1;
    }
    assert(status_ids(builds@).take(i as int) =~= status_ids(builds@));
    IdIndex::new(ids)
}

fn briefs(entry_points: &Vec<EntryPointRow>, builds: &Vec<BuildStatusRow>) -> (r: Vec<
    EntryPointBrief,
>)
    ensures
        r@ == entry_points@.map_values(|ep: EntryPointRow| brief_of(ep, builds@)),
{
    let index = index_builds(builds);
    let mut out: Vec<EntryPointBrief> = Vec::new();
    let mut i: usize = 0;
    let ghost f = |ep: EntryPointRow| brief_of(ep, builds@);
    while i < entry_points.len()
        invariant
            i <= entry_points.len(),
            index.wf(),
            index@ == status_ids(builds@),
            f == (|ep: EntryPointRow| brief_of(ep, builds@)),
            out@ == entry_points@.take(i as int).map_values(f),
        decreases entry_points.len() - i,
    {
        let ep = &entry_points[i];
        let build_status = match index.find(ep.build) {
            Some(k) => builds[k].status,
            None => BuildStatus::Created,
        };
        out.push(EntryPointBrief { id: ep.id, eval: ep.eval.clone(), build_status });
        proof {
            assert(entry_points@.take(i as int + 1).map_values(f) =~= entry_points@.take(
                i as int,
            ).map_values(f).push(f(entry_points@[i as int])));
        }
        i += 1;
    }
    assert(entry_points@.take(i as int) =~= entry_points@);
    out
}

fn count_level(messages: &Vec<MessageLevel>, level: MessageLevel) -> (r: u64)
    ensures
        r == count_where(messages@, |m: MessageLevel| m == level),
{
    let ghost p = |m: MessageLevel| m == level;
    let mut n: u64 = 0;
    let mut i: usize = 0;
    proof {
        lemma_count_whole(messages@, p);
    }
    while i < messages.len()
        invariant
            i <= messages.len(),
            p == (|m: MessageLevel| m == level),
            n == count_where(messages@.take(i as int), p),
            n <= i,
        decreases messages.len() - i,
    {
        proof {
            lemma_count_step(messages@, p, i as int);
        }
        if messages[i] == level {
            n += 1;
        }
        i += 1;
    }
    n
}

/// The response on an evaluation. `commit` is the hash of its commit, where that
/// is known, `levels` are the levels of its messages.
pub fn get_evaluation(
    evaluation: &EvaluationRow,
    ctx: &EvalAccessContext,
    commit: Option<String>,
    levels: &Vec<MessageLevel>,
    entry_points: &Vec<EntryPointRow>,
    builds: &Vec<BuildStatusRow>,
    waiting_reason: Option<String>,
) -> (r: EvaluationResponse)
    ensures
        r.id == evaluation.id,
        r.project == evaluation.project,
        r.project_name == ctx.project_name,
        r.project_display_name == ctx.project_display_name,
        r.repository == evaluation.repository,
        r.commit@ == (match commit {
            Some(c) => c@,
            None => Seq::empty(),
        }),
        r.wildcard == evaluation.wildcard,
        r.status == evaluation.status,
        r.previous == evaluation.previous,
        r.next == evaluation.next,
        r.created_at == evaluation.created_at,
        r.error_count == count_where(levels@, |m: MessageLevel| m == MessageLevel::Error),
        r.warning_count == count_where(levels@, |m: MessageLevel| m == MessageLevel::Warning),
        r.entry_points@ == entry_points@.map_values(|ep: EntryPointRow| brief_of(ep, builds@)),
        r.waiting_reason == if evaluation.status is Waiting {
            waiting_reason
        } else {
            None
        },
{
    EvaluationResponse {
        id: evaluation.id,
        project: evaluation.project,
        project_name: opt_clone(&ctx.project_name),
        project_display_name: opt_clone(&ctx.project_display_name),
        repository: evaluation.repository.clone(),
        commit: match commit {
            Some(c) => c,
            None => String::new(),
        },
        wildcard: evaluation.wildcard.clone(),
        status: evaluation.status,
        previous: evaluation.previous,
        next: evaluation.next,
        created_at: evaluation.created_at,
        error_count: count_level(levels, MessageLevel::Error),
        warning_count: count_level(levels, MessageLevel::Warning),
        entry_points: briefs(entry_points, builds),
        waiting_reason: match evaluation.status {
            EvaluationStatus::Waiting => waiting_reason,
            _ => None,
        },
    }
}

/// The entry points that the message `id` is attached to, in the order of
/// `rows`.
pub open spec fn attached_to(rows: Seq<EntryPointMessageRow>, id: Id) -> Seq<Id>
    decreases rows.len(),
{
    if rows.len() == 0 {
        Seq::empty()
    } else if rows.last().message == id {
        attached_to(rows.drop_last(), id).push(rows.last().entry_point)
    } else {
        attached_to(rows.drop_last(), id)
    }
}

fn entry_points_of(rows: &Vec<EntryPointMessageRow>, id: Id) -> (r: Vec<Id>)
    ensures
        r@ == attached_to(rows@, id),
{
    let mut out: Vec<Id> = Vec::new();
    let mut i: usize = 0;
    proof {
        assert(rows@.take(0) =~= Seq::<EntryPointMessageRow>::empty());
    }
    while i < rows.len()
        invariant
            i <= rows.len(),
            out@ == attached_to(rows@.take(i as int), id),
        decreases rows.len() - i,
    {
        proof {
            assert(rows@.take(i as int + 1).drop_last() =~= rows@.take(i as int));
            assert(rows@.take(i as int + 1).last() == rows@[i as int]);
        }
        if rows[i].message == id {
            out.push(rows[i].entry_point);
        }
        i += 1;
    }
    assert(rows@.take(i as int) =~= rows@);
    out
}

/// `r` says what `m` says, and lists the entry points it is attached to.
pub open spec fn message_answer(
    r: EvaluationMessageResponse,
    m: MessageRow,
    rows: Seq<EntryPointMessageRow>,
) -> bool {
    &&& r.id == m.id
    &&& r.level == m.level
    &&& r.message == m.message
    &&& r.source == m.source
    &&& r.created_at == m.created_at
    &&& r.entry_points@ == attached_to(rows, m.id)
}

/// All messages of an evaluation, each with the entry points it is attached to
/// (none when it concerns the evaluation as a whole).
pub fn get_evaluation_messages(messages: &Vec<MessageRow>, rows: &Vec<EntryPointMessageRow>) -> (r:
    Vec<EvaluationMessageResponse>)
    ensures
        r@.len() == messages@.len(),
        forall|i: int|
            0 <= i < r@.len() ==> message_answer(#[trigger] r@[i], messages@[i], rows@),
{
    let mut out: Vec<EvaluationMessageResponse> = Vec::new();
    let mut i: usize = 0;
    while i < messages.len()
        invariant
            i <= messages.len(),
            out@.len() == i,
            forall|j: int| 0 <= j < i ==> message_answer(#[trigger] out@[j], messages@[j], rows@),
        decreases messages.len() - i,
    {
        let m = &messages[i];
        out.push(
            EvaluationMessageResponse {
                id: m.id,
                level: m.level,
                message: m.message.clone(),
                source: opt_clone(&m.source),
                created_at: m.created_at,
                entry_points: entry_points_of(rows, m.id),
            },
        );
        i += 1;
    }
    out
}

proof fn lemma_status_of(rows: Seq<BuildStatusRow>, id: Id, k: int)
    ensures
        0 <= k < rows.len() && rows[k].id == id && (forall|j: int|
            k < j < rows.len() ==> (#[trigger] rows[j]).id != id) ==> status_of(rows, id) == Some(
            rows[k].status,
        ),
        (forall|j: int| 0 <= j < rows.len() ==> (#[trigger] rows[j]).id != id) ==> status_of(
            rows,
            id,
        ) is None,
{
    let ids = status_ids(rows);
    if 0 <= k < rows.len() && rows[k].id == id && (forall|j: int|
        k < j < rows.len() ==> (#[trigger] rows[j]).id != id) {
        assert forall|j: int| k < j < ids.len() implies ids[j] != id by {
            assert(ids[j] == rows[j].id);
        }
        assert(ids[k] == rows[k].id);
        crate::rows::lemma_last_index_is(ids, id, k);
    }
    if forall|j: int| 0 <= j < rows.len() ==> (#[trigger] rows[j]).id != id {
        assert forall|j: int| 0 <= j < ids.len() implies ids[j] != id by {
            assert(ids[j] == rows[j].id);
        }
        crate::rows::lemma_no_last_index(ids, id);
    }
}

/// What the status of a build is, in terms of the rows: that of the last row with its
/// identifier.
pub proof fn law_status_of(rows: Seq<BuildStatusRow>, id: Id)
    ensures
        status_of(rows, id) matches Some(s) ==> exists|k: int|
            0 <= k < rows.len() && (#[trigger] rows[k]).id == id && rows[k].status == s && (
            forall|j: int| k < j < rows.len() ==> (#[trigger] rows[j]).id != id),
        status_of(rows, id) is None <==> forall|j: int|
            0 <= j < rows.len() ==> (#[trigger] rows[j]).id != id,
{
    let ids = status_ids(rows);
    crate::rows::lemma_last_index(ids, id);
    match last_index(ids, id) {
        Some(k) => {
            assert(ids[k] == rows[k].id);
            assert forall|j: int| k < j < rows.len() implies (#[trigger] rows[j]).id != id by {
                assert(ids[j] == rows[j].id);
            }
        },
        None => {
            assert forall|j: int| 0 <= j < rows.len() implies (#[trigger] rows[j]).id != id by {
                assert(ids[j] == rows[j].id);
            }
        },
    }
}

/// The response on an evaluation counts its error and warning messages, one by one, and has a
/// waiting reason only while it waits. An entry point has the status of its build; a build that
/// is not known counts as created.
pub proof fn law_evaluation_response(
    evaluation: EvaluationRow,
    ctx: EvalAccessContext,
    commit: Option<String>,
    levels: Vec<MessageLevel>,
    entry_points: Vec<EntryPointRow>,
    builds: Vec<BuildStatusRow>,
    waiting_reason: Option<String>,
    r: EvaluationResponse,
    i: int,
    k: int,
)
    requires
        call_ensures(
            get_evaluation,
            (&evaluation, &ctx, commit, &levels, &entry_points, &builds, waiting_reason),
            r,
        ),
    ensures
        r.id == evaluation.id && r.project == evaluation.project && r.status == evaluation.status
            && r.previous == evaluation.previous && r.next == evaluation.next && r.created_at
            == evaluation.created_at && r.repository@ == evaluation.repository@ && r.wildcard@
            == evaluation.wildcard@,
        r.project_name == ctx.project_name && r.project_display_name == ctx.project_display_name,
        commit is Some ==> r.commit@ == commit->0@,
        commit is None ==> r.commit@.len() == 0,
        r.error_count == levels@.filter(|m: MessageLevel| m is Error).len(),
        r.warning_count == levels@.filter(|m: MessageLevel| m is Warning).len(),
        evaluation.status is Waiting ==> r.waiting_reason == waiting_reason,
        !(evaluation.status is Waiting) ==> r.waiting_reason is None,
        r.entry_points@.len() == entry_points@.len(),
        0 <= i < entry_points@.len() ==> {
            &&& r.entry_points@[i].id == entry_points@[i].id
            &&& r.entry_points@[i].eval@ == entry_points@[i].eval@
            &&& 0 <= k < builds@.len() && builds@[k].id == entry_points@[i].build && (forall|j: int|
                k < j < builds@.len() ==> (#[trigger] builds@[j]).id != entry_points@[i].build)
                ==> r.entry_points@[i].build_status == builds@[k].status
            &&& (forall|j: int|
                0 <= j < builds@.len() ==> (#[trigger] builds@[j]).id != entry_points@[i].build)
                ==> r.entry_points@[i].build_status is Created
        },
{
    lemma_count_is_filter(levels@, |m: MessageLevel| m == MessageLevel::Error);
    lemma_count_is_filter(levels@, |m: MessageLevel| m == MessageLevel::Warning);
    assert((|m: MessageLevel| m == MessageLevel::Error) =~= (|m: MessageLevel| m is Error));
    assert((|m: MessageLevel| m == MessageLevel::Warning) =~= (|m: MessageLevel| m is Warning));
    if 0 <= i < entry_points@.len() {
        lemma_status_of(builds@, entry_points@[i].build, k);
    }
}

/// Counting is taking what satisfies the predicate, and its length.
pub proof fn lemma_count_is_filter<T>(s: Seq<T>, p: spec_fn(T) -> bool)
    ensures
        count_where(s, p) == s.filter(p).len(),
    decreases s.len(),
{
    reveal(Seq::filter);
    if s.len() > 0 {
        lemma_count_is_filter(s.drop_last(), p);
    }
}

/// Every message of an evaluation is answered as it is, with the entry points it is attached to,
/// and no others.
pub proof fn law_messages_name_their_entry_points(
    messages: Vec<MessageRow>,
    rows: Vec<EntryPointMessageRow>,
    r: Vec<EvaluationMessageResponse>,
    i: int,
    ep: Id,
)
    requires
        call_ensures(get_evaluation_messages, (&messages, &rows), r),
        0 <= i < messages@.len(),
    ensures
        r@.len() == messages@.len(),
        r@[i].id == messages@[i].id,
        r@[i].level == messages@[i].level,
        r@[i].message@ == messages@[i].message@,
        r@[i].source == messages@[i].source,
        r@[i].created_at == messages@[i].created_at,
        r@[i].entry_points@.contains(ep) <==> exists|k: int|
            0 <= k < rows@.len() && (#[trigger] rows@[k]).message == messages@[i].id
                && rows@[k].entry_point == ep,
{
    assert(message_answer(r@[i], messages@[i], rows@));
    lemma_attached_to(rows@, messages@[i].id, ep);
}

proof fn lemma_attached_to(rows: Seq<EntryPointMessageRow>, id: Id, ep: Id)
    ensures
        attached_to(rows, id).contains(ep) <==> exists|k: int|
            0 <= k < rows.len() && (#[trigger] rows[k]).message == id && rows[k].entry_point == ep,
    decreases rows.len(),
{
    if rows.len() > 0 {
        let less = rows.drop_last();
        let before = attached_to(less, id);
        let now = attached_to(rows, id);
        let n = rows.len() - 1;
        lemma_attached_to(less, id, ep);
        if now.contains(ep) {
            if before.contains(ep) {
                let k = choose|k: int|
                    0 <= k < less.len() && (#[trigger] less[k]).message == id
                        && less[k].entry_point == ep;
                assert(rows[k] == less[k]);
            } else {
                assert(now.index_of(ep) == before.len());
                assert(rows[n] == rows.last());
            }
        }
        if exists|k: int|
            0 <= k < rows.len() && (#[trigger] rows[k]).message == id && rows[k].entry_point
                == ep {
            let k = choose|k: int|
                0 <= k < rows.len() && (#[trigger] rows[k]).message == id && rows[k].entry_point
                    == ep;
            if k < n {
                assert(less[k] == rows[k]);
                assert(now[before.index_of(ep)] == ep);
            } else {
                assert(now[before.len() as int] == ep);
            }
        }
    }
}

} // verus!
