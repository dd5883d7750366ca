//! JSON values, as columns of the database hold them.

use crate::rows::reversed;
use crate::text::{same, views};
use vstd::prelude::*;

verus! {

/// A JSON value.
#[derive(Debug, PartialEq, Eq)]
pub enum Json {
    Null,
    Bool(bool),
    /// A number, as it is written.
    Number(String),
    Text(String),
    Array(Vec<Json>),
    /// The members of an object by their keys.
    Object(Vec<(String, Json)>),
}

impl Json {
    /// The value has a member with this key.
    pub open spec fn has_member(self, key: Seq<char>) -> bool {
        match self {
            Json::Object(members) => exists|i: int|
                0 <= i < members@.len() && (#[trigger] members@[i]).0@ == key,
            _ => false,
        }
    }
}

// ── Objects ──────────────────────────────────────────────────────────────────

/// The members but those with this key, in order.
pub open spec fn members_without(members: Seq<(String, Json)>, key: Seq<char>) -> Seq<(String, Json)>
    decreases members.len(),
{
    if members.len() == 0 {
        Seq::empty()
    } else {
        let before = members_without(members.drop_last(), key);
        if members.last().0@ == key {
            before
        } else {
            before.push(members.last())
        }
    }
}

/// `r` is `v`, and where that is an object it lacks the members with this key.
pub open spec fn is_without(r: Json, v: Json, key: Seq<char>) -> bool {
    match v {
        Json::Object(members) => r matches Json::Object(rest) && rest@ == members_without(
            members@,
            key,
        ),
        _ => r == v,
    }
}

/// Takes the members with this key from an object; other values stay as they are.
pub fn without_member(v: Json, key: &str) -> (r: Json)
    ensures
        is_without(r, v, key@),
{
    let members = match v {
        Json::Object(members) => members,
        other => {
            return other;
        },
    };
    let ghost whole = members@;
    let mut rest = reversed(members);
    let mut out: Vec<(String, Json)> = Vec::new();
    assert(whole.take(0) =~= Seq::<(String, Json)>::empty());
    assert(out@ =~= members_without(whole.take(0), key@));
    while rest.len() > 0
        invariant
            rest@.len() <= whole.len(),
            forall|j: int| 0 <= j < rest@.len() ==> rest@[j] == whole[whole.len() - 1 - j],
            out@ == members_without(whole.take(whole.len() - rest@.len()), key@),
        decreases rest.len(),
    {
        let ghost k = whole.len() - rest@.len();
        if let Some(member) = rest.pop() {
            proof {
                assert(whole.take(k + 1).drop_last() =~= whole.take(k));
                assert(whole.take(k + 1).last() == member);
            }
            if !same(member.0.as_str(), key) {
                out.push(member);
            }
        }
    }
    assert(whole.take(whole.len() as int) =~= whole);
    Json::Object(out)
}

proof fn lemma_members_without(members: Seq<(String, Json)>, key: Seq<char>)
    ensures
        forall|i: int|
            0 <= i < members_without(members, key).len() ==> (#[trigger] members_without(
                members,
                key,
            )[i]).0@ != key,
    decreases members.len(),
{
    if members.len() > 0 {
        lemma_members_without(members.drop_last(), key);
        let before = members_without(members.drop_last(), key);
        let now = members_without(members, key);
        assert forall|i: int| 0 <= i < now.len() implies (#[trigger] now[i]).0@ != key by {
            if i < before.len() {
                assert(before[i] == now[i]);
            }
        }
    }
}

/// What was taken from an object is not there.
pub proof fn law_taken_members_are_gone(r: Json, v: Json, key: Seq<char>)
    requires
        is_without(r, v, key),
    ensures
        !r.has_member(key),
{
    if let Json::Object(members) = v {
        lemma_members_without(members@, key);
    }
}

// ── Arrays ───────────────────────────────────────────────────────────────────

/// The texts among the items, in order.
pub open spec fn texts_among(items: Seq<Json>) -> Seq<Seq<char>>
    decreases items.len(),
{
    if items.len() == 0 {
        Seq::empty()
    } else {
        let before = texts_among(items.drop_last());
        match items.last() {
            Json::Text(s) => before.push(s@),
            _ => before,
        }
    }
}

/// The texts that a value lists; none where it is not an array.
pub open spec fn texts_of(v: Json) -> Seq<Seq<char>> {
    match v {
        Json::Array(items) => texts_among(items@),
        _ => Seq::empty(),
    }
}

/// The texts that a value lists.
pub fn listed_texts(v: &Json) -> (r: Vec<String>)
    ensures
        views(r@) == texts_of(*v),
{
    let mut out: Vec<String> = Vec::new();
    assert(views(out@) =~= Seq::<Seq<char>>::empty());
    if let Json::Array(items) = v {
        let mut i: usize = 0;
        assert(items@.take(0) =~= Seq::<Json>::empty());
        while i < items.len()
            invariant
                i <= items.len(),
                views(out@) == texts_among(items@.take(i as int)),
            decreases items.len() - i,
        {
            let ghost before = views(out@);
            proof {
                assert(items@.take(i as int + 1).drop_last() =~= items@.take(i as int));
                assert(items@.take(i as int + 1).last() == items@[i as int]);
            }
            if let Json::Text(s) = &items[i] {
                out.push(s.clone());
                assert(views(out@) =~= before.push(s@));
            }
            i += 1;
        }
        assert(items@.take(i as int) =~= items@);
    }
    out
}

/// The text that a value lists first; none where the first item is not a text.
pub open spec fn first_text_of(v: Json) -> Option<Seq<char>> {
    match v {
        Json::Array(items) => if items@.len() > 0 {
            match items@[0] {
                Json::Text(s) => Some(s@),
                _ => None,
            }
        } else {
            None
        },
        _ => None,
    }
}

/// The text that a value lists first.
pub fn first_text(v: &Json) -> (r: Option<&String>)
    ensures
        match r {
            Some(s) => first_text_of(*v) == Some(s@),
            None => first_text_of(*v) is None,
        },
{
    match v {
        Json::Array(items) => {
            if items.len() == 0 {
                return None;
            }
            match &items[0] {
                Json::Text(s) => Some(s),
                _ => None,
            }
        },
        _ => None,
    }
}

/// `v` lists these texts and nothing else.
pub open spec fn is_text_array(v: Json, texts: Seq<String>) -> bool {
    v matches Json::Array(items) && items@ == texts.map_values(|s: String| Json::Text(s))
}

/// The array of these texts.
pub fn text_array(texts: Vec<String>) -> (r: Json)
    ensures
        is_text_array(r, texts@),
{
    let ghost whole = texts@;
    let mut rest = reversed(texts);
    let mut items: Vec<Json> = Vec::new();
    while rest.len() > 0
        invariant
            rest@.len() + items@.len() == whole.len(),
            forall|j: int| 0 <= j < rest@.len() ==> rest@[j] == whole[whole.len() - 1 - j],
            forall|i: int| 0 <= i < items@.len() ==> #[trigger] items@[i] == Json::Text(whole[i]),
        decreases rest.len(),
    {
        if let Some(s) = rest.pop() {
            items.push(Json::Text(s));
        }
    }
    assert(items@ =~= whole.map_values(|s: String| Json::Text(s)));
    Json::Array(items)
}

proof fn lemma_texts_of_texts(items: Seq<Json>, texts: Seq<String>)
    requires
        items.len() == texts.len(),
        forall|i: int| 0 <= i < items.len() ==> #[trigger] items[i] == Json::Text(texts[i]),
    ensures
        texts_among(items) == views(texts),
    decreases items.len(),
{
    if items.len() > 0 {
        let t = texts.drop_last();
        lemma_texts_of_texts(items.drop_last(), t);
        assert(items.last() == Json::Text(texts.last()));
        assert(views(texts) =~= views(t).push(texts.last()@));
    } else {
        assert(views(texts) =~= Seq::<Seq<char>>::empty());
    }
}

/// The array of texts lists these texts again.
pub proof fn law_text_arrays_are_read_back(v: Json, texts: Seq<String>)
    requires
        is_text_array(v, texts),
    ensures
        texts_of(v) == views(texts),
{
    if let Json::Array(items) = v {
        lemma_texts_of_texts(items@, texts);
    }
}

/// Taking a member from an object takes every member with that key and leaves the others, in
/// their order; what is no object stays as it is.
pub proof fn law_only_the_member_is_taken(
    members: Vec<(String, Json)>,
    more: Vec<(String, Json)>,
    x: (String, Json),
    key: &str,
    other: Json,
    r: Json,
    s: Json,
    t: Json,
)
    requires
        more@ == members@.push(x),
        call_ensures(without_member, (Json::Object(members), key), r),
        call_ensures(without_member, (Json::Object(more), key), s),
        call_ensures(without_member, (other, key), t),
    ensures
        !(other is Object) ==> t == other,
        r is Object && s is Object,
        members@.len() == 0 ==> r->Object_0@.len() == 0,
        x.0@ == key@ ==> s->Object_0@ == r->Object_0@,
        x.0@ != key@ ==> s->Object_0@ == r->Object_0@.push(x),
{
    assert(more@.drop_last() =~= members@);
}

/// The texts of an array are listed in order, and what is no text is left out; what is no array
/// lists nothing. The first text is the first item where that is a text.
pub proof fn law_texts_are_listed(
    items: Vec<Json>,
    more: Vec<Json>,
    x: Json,
    other: Json,
    r: Vec<String>,
    s: Vec<String>,
    t: Vec<String>,
    first: Option<&String>,
    none: Option<&String>,
)
    requires
        more@ == items@.push(x),
        call_ensures(listed_texts, (&Json::Array(items),), r),
        call_ensures(listed_texts, (&Json::Array(more),), s),
        call_ensures(listed_texts, (&other,), t),
        call_ensures(first_text, (&Json::Array(items),), first),
        call_ensures(first_text, (&other,), none),
    ensures
        !(other is Array) ==> t@.len() == 0 && none is None,
        items@.len() == 0 ==> r@.len() == 0 && first is None,
        x matches Json::Text(w) ==> views(s@) == views(r@).push(w@),
        !(x is Text) ==> views(s@) == views(r@),
        items@.len() > 0 && items@[0] is Text ==> first is Some && first->0@ == items@[0]->Text_0@,
        items@.len() > 0 && !(items@[0] is Text) ==> first is None,
{
    assert(more@.drop_last() =~= items@);
    assert(views(t@).len() == t@.len());
    assert(views(r@).len() == r@.len());
}

/// The array of texts holds each of them, in order, and nothing else.
pub proof fn law_text_arrays_hold_the_texts(
    texts: Vec<String>,
    r: Json,
    i: int,
)
    requires
        call_ensures(text_array, (texts,), r),
    ensures
        r is Array,
        r->Array_0@.len() == texts@.len(),
        0 <= i < texts@.len() ==> r->Array_0@[i] == Json::Text(texts@[i]),
{
}

} // verus!
