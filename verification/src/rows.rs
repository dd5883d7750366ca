//! Lookups and counts over rows that were loaded together.

use crate::helpers::Id;
use std::collections::HashMap;
use vstd::prelude::*;

verus! {

broadcast use vstd::std_specs::hash::group_hash_axioms;

/// The position of the last `id` in `ids`.
pub open spec fn last_index(ids: Seq<Id>, id: Id) -> Option<int>
    decreases ids.len(),
{
    if ids.len() == 0 {
        None
    } else if ids.last() == id {
        Some(ids.len() - 1)
    } else {
        last_index(ids.drop_last(), id)
    }
}

/// The position of the first `id` in `ids`.
pub open spec fn first_index(ids: Seq<Id>, id: Id) -> Option<int>
    decreases ids.len(),
{
    if ids.len() == 0 {
        None
    } else {
        match first_index(ids.drop_last(), id) {
            Some(i) => Some(i),
            None => if ids.last() == id {
                Some(ids.len() - 1)
            } else {
                None
            },
        }
    }
}

pub proof fn lemma_last_index(ids: Seq<Id>, id: Id)
    ensures
        match last_index(ids, id) {
            Some(i) => 0 <= i < ids.len() && ids[i] == id && forall|j: int|
                i < j < ids.len() ==> ids[j] != id,
            None => forall|j: int| 0 <= j < ids.len() ==> ids[j] != id,
        },
    decreases ids.len(),
{
    if ids.len() > 0 && ids.last() != id {
        let rest = ids.drop_last();
        lemma_last_index(rest, id);
        assert forall|j: int| 0 <= j < ids.len()
            && j != ids.len() - 1 implies ids[j] == rest[j] by {}
    }
}

pub proof fn lemma_first_index(ids: Seq<Id>, id: Id)
    ensures
        match first_index(ids, id) {
            Some(i) => 0 <= i < ids.len() && ids[i] == id && forall|j: int|
                0 <= j < i ==> ids[j] != id,
            None => forall|j: int| 0 <= j < ids.len() ==> ids[j] != id,
        },
    decreases ids.len(),
{
    if ids.len() > 0 {
        let rest = ids.drop_last();
        lemma_first_index(rest, id);
        assert forall|j: int| 0 <= j < ids.len()
            && j != ids.len() - 1 implies ids[j] == rest[j] by {}
    }
}

/// Where the last `id` stands.
pub proof fn lemma_last_index_is(ids: Seq<Id>, id: Id, k: int)
    requires
        0 <= k < ids.len(),
        ids[k] == id,
        forall|j: int| k < j < ids.len() ==> ids[j] != id,
    ensures
        last_index(ids, id) == Some(k),
{
    lemma_last_index(ids, id);
}

/// An `id` that stands nowhere has no place.
pub proof fn lemma_no_last_index(ids: Seq<Id>, id: Id)
    requires
        forall|j: int| 0 <= j < ids.len() ==> ids[j] != id,
    ensures
        last_index(ids, id) is None,
{
    lemma_last_index(ids, id);
}

/// Rows by their identifier. Where two rows share one, the last counts.
pub struct IdIndex {
    ids: Vec<Id>,
    map: HashMap<Id, usize>,
}

impl View for IdIndex {
    type V = Seq<Id>;

    /// The identifiers of the rows, in order.
    closed spec fn view(&self) -> Seq<Id> {
        self.ids@
    }
}

impl IdIndex {
    /// The map holds the last position of each identifier.
    pub closed spec fn wf(self) -> bool {
        forall|id: Id|
            match last_index(self.ids@, id) {
                Some(i) => self.map@.contains_key(id) && self.map@[id] == i,
                None => !#[trigger] self.map@.contains_key(id),
            }
    }

    pub fn new(ids: Vec<Id>) -> (r: IdIndex)
        ensures
            r.wf(),
            r@ == ids@,
    {
        let mut map: HashMap<Id, usize> = HashMap::new();
        let mut i: usize = 0;
        while i < ids.len()
            invariant
                i <= ids.len(),
                forall|id: Id|
                    match last_index(ids@.take(i as int), id) {
                        Some(k) => map@.contains_key(id) && map@[id] == k,
                        None => !#[trigger] map@.contains_key(id),
                    },
            decreases ids.len() - i,
        {
            proof {
                assert(ids@.take(i as int + 1).drop_last() =~= ids@.take(i as int));
                assert(ids@.take(i as int + 1).last() == ids@[i as int]);
            }
            let ghost before = map@;
            map.insert(ids[i], i);
            proof {
                let upto = ids@.take(i as int + 1);
                assert forall|id: Id|
                    match last_index(upto, id) {
                        Some(k) => map@.contains_key(id) && map@[id] == k,
                        None => !#[trigger] map@.contains_key(id),
                    } by {
                    if id == ids@[i as int] {
                        assert(last_index(upto, id) == Some(i as int));
                        assert(map@.contains_key(id));
                    } else {
                        assert(last_index(upto, id) == last_index(ids@.take(i as int), id));
                        assert(map@.contains_key(id) == before.contains_key(id));
                        if before.contains_key(id) {
                            assert(map@[id] == before[id]);
                        }
                    }
                }
            }
            i += 1;
        }
        assert(ids@.take(i as int) =~= ids@);
        IdIndex { ids, map }
    }

    /// The position of the row `id`.
    pub fn find(&self, id: Id) -> (r: Option<usize>)
        requires
            self.wf(),
        ensures
            match r {
                Some(i) => last_index(self@, id) == Some(i as int) && i < self@.len()
                    && self@[i as int]
                    == id,
                None => last_index(self@, id) is None,
            },
    {
        proof {
            lemma_last_index(self.ids@, id);
            assert(self.map@.contains_key(id) || !self.map@.contains_key(id));
        }
        match self.map.get(&id) {
            Some(i) => Some(*i),
            None => None,
        }
    }
}

/// The position of the first `id` in `ids`.
pub fn find_first(ids: &Vec<Id>, id: Id) -> (r: Option<usize>)
    ensures
        match r {
            Some(i) => first_index(ids@, id) == Some(i as int) && i < ids@.len() && ids@[i as int]
                == id,
            None => first_index(ids@, id) is None,
        },
{
    proof {
        lemma_first_index(ids@, id);
    }
    let mut i: usize = 0;
    while i < ids.len()
        invariant
            i <= ids.len(),
            forall|j: int| 0 <= j < i ==> ids@[j] != id,
        decreases ids.len() - i,
    {
        if ids[i] == id {
            proof {
                lemma_first_index(ids@, id);
            }
            return Some(i);
        }
        i += 1;
    }
    None
}

/// How many elements of `s` satisfy `p`.
pub open spec fn count_where<T>(s: Seq<T>, p: spec_fn(T) -> bool) -> nat
    decreases s.len(),
{
    if s.len() == 0 {
        0
    } else {
        count_where(s.drop_last(), p) + if p(s.last()) {
            1nat
        } else {
            0nat
        }
    }
}

pub proof fn lemma_count_step<T>(s: Seq<T>, p: spec_fn(T) -> bool, i: int)
    requires
        0 <= i < s.len(),
    ensures
        count_where(s.take(i + 1), p) == count_where(s.take(i), p) + if p(s[i]) {
            1nat
        } else {
            0nat
        },
        count_where(s.take(i), p) <= i,
    decreases i,
{
    assert(s.take(i + 1).drop_last() =~= s.take(i));
    if i > 0 {
        lemma_count_step(s, p, i - 1);
    }
}

pub proof fn lemma_count_whole<T>(s: Seq<T>, p: spec_fn(T) -> bool)
    ensures
        count_where(s.take(s.len() as int), p) == count_where(s, p),
        count_where(s.take(0), p) == 0,
        count_where(s, p) <= s.len(),
    decreases s.len(),
{
    assert(s.take(s.len() as int) =~= s);
    if s.len() > 0 {
        lemma_count_whole(s.drop_last(), p);
    }
}

/// Predicates that agree count the same.
pub proof fn lemma_count_agrees<T>(s: Seq<T>, p: spec_fn(T) -> bool, q: spec_fn(T) -> bool)
    requires
        forall|i: int| 0 <= i < s.len() ==> p(#[trigger] s[i]) == q(s[i]),
    ensures
        count_where(s, p) == count_where(s, q),
    decreases s.len(),
{
    if s.len() > 0 {
        assert forall|i: int| 0 <= i < s.drop_last().len() implies p(
            #[trigger] s.drop_last()[i],
        ) == q(s.drop_last()[i]) by {
            assert(s[i] == s.drop_last()[i]);
        }
        assert(s[s.len() - 1] == s.last());
        lemma_count_agrees(s.drop_last(), p, q);
    }
}

/// Counting starts at zero and goes up by one with each element that satisfies the predicate.
pub proof fn law_counting<T>(s: Seq<T>, x: T, p: spec_fn(T) -> bool)
    ensures
        count_where(Seq::<T>::empty(), p) == 0,
        p(x) ==> count_where(s.push(x), p) == count_where(s, p) + 1,
        !p(x) ==> count_where(s.push(x), p) == count_where(s, p),
{
    assert(s.push(x).drop_last() =~= s);
}

/// Whether `v` holds `x`.
pub fn holds(v: &Vec<Id>, x: Id) -> (r: bool)
    ensures
        r == v@.contains(x),
{
    let mut i: usize = 0;
    while i < v.len()
        invariant
            i <= v.len(),
            forall|j: int| 0 <= j < i ==> v@[j] != x,
        decreases v.len() - i,
    {
        if v[i] == x {
            assert(v@.contains(v@[i as int]));
            return true;
        }
        i += 1;
    }
    false
}

/// The items in the opposite order.
pub fn reversed<T>(items: Vec<T>) -> (r: Vec<T>)
    ensures
        r@ == items@.reverse(),
{
    let ghost whole = items@;
    let mut rest = items;
    let mut out: Vec<T> = Vec::new();
    assert(rest@ + out@.reverse() =~= whole);
    while rest.len() > 0
        invariant
            whole == rest@ + out@.reverse(),
        decreases rest.len(),
    {
        let ghost now = rest@;
        let ghost held = out@;
        if let Some(x) = rest.pop() {
            out.push(x);
            assert(rest@ + out@.reverse() =~= now + held.reverse());
        }
    }
    assert(out@ =~= whole.reverse());
    out
}

/// A row is found by its identifier: the last one in an index, the first one in a list, and
/// none where none has it.
pub proof fn law_rows_are_found(
    ids: Vec<Id>,
    index: IdIndex,
    id: Id,
    last: Option<usize>,
    first: Option<usize>,
    held: bool,
    j: int,
)
    requires
        index.wf(),
        index@ == ids@,
        call_ensures(IdIndex::find, (&index, id), last),
        call_ensures(find_first, (&ids, id), first),
        call_ensures(holds, (&ids, id), held),
    ensures
        last is Some ==> last->0 < ids@.len() && ids@[last->0 as int] == id,
        first is Some ==> first->0 < ids@.len() && ids@[first->0 as int] == id,
        0 <= j < ids@.len() && ids@[j] == id ==> last is Some && j <= last->0 && first is Some
            && first->0 <= j && held,
        held ==> last is Some && first is Some,
{
    lemma_last_index(ids@, id);
    lemma_first_index(ids@, id);
    if held {
        let k = choose|k: int| 0 <= k < ids@.len() && ids@[k] == id;
        assert(ids@[k] == id);
    }
}

/// Turned around, a list has the same items from the other end.
pub proof fn law_turned_around<T>(
    items: Vec<T>,
    r: Vec<T>,
    i: int,
)
    requires
        call_ensures(reversed::<T>, (items,), r),
    ensures
        r@.len() == items@.len(),
        0 <= i < items@.len() ==> r@[i] == items@[items@.len() - 1 - i],
{
}

} // verus!
