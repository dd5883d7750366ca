//! Permission catalogues and the lists that requests grant from them.
//!
//! A catalogue lists every permission with its wire name; a mask has the bit of
//! each permission that it grants.

use crate::error::{ErrorCode, ErrorModel, WebError, WebResult};
use crate::text::{cat5, same, views};
use vstd::prelude::*;

verus! {

/// A permission of a catalogue.
pub struct Permission {
    pub wire_name: &'static str,
    /// The bit that stands for it.
    pub bit: u64,
    pub mutating: bool,
}

pub struct PermissionEntry {
    pub id: &'static str,
    pub mutating: bool,
}

/// Catalogue of every capability a custom role or API key may grant.
pub fn available_permissions(catalogue: &Vec<Permission>) -> (r: Vec<PermissionEntry>)
    ensures
        r@ == catalogue@.map_values(
            |p: Permission| PermissionEntry { id: p.wire_name, mutating: p.mutating },
        ),
{
    let ghost f = |p: Permission| PermissionEntry { id: p.wire_name, mutating: p.mutating };
    let mut out: Vec<PermissionEntry> = Vec::new();
    let mut i: usize = 0;
    while i < catalogue.len()
        invariant
            i <= catalogue.len(),
            f == (|p: Permission| PermissionEntry { id: p.wire_name, mutating: p.mutating }),
            out@ == catalogue@.take(i as int).map_values(f),
        decreases catalogue.len() - i,
    {
        out.push(
            PermissionEntry { id: catalogue[i].wire_name, mutating: catalogue[i].mutating },
        );
        proof {
            assert(catalogue@.take(i as int + 1).map_values(f) =~= catalogue@.take(
                i as int,
            ).map_values(f).push(f(catalogue@[i as int])));
        }
        i += 1;
    }
    assert(catalogue@.take(i as int) =~= catalogue@);
    out
}

/// The position of the permission called `name`.
pub open spec fn position_of(catalogue: Seq<Permission>, name: Seq<char>) -> Option<int>
    decreases catalogue.len(),
{
    if catalogue.len() == 0 {
        None
    } else {
        match position_of(catalogue.drop_last(), name) {
            Some(i) => Some(i),
            None => if catalogue.last().wire_name@ == name {
                Some(catalogue.len() - 1)
            } else {
                None
            },
        }
    }
}

proof fn lemma_position_of(catalogue: Seq<Permission>, name: Seq<char>)
    ensures
        match position_of(catalogue, name) {
            Some(i) => 0 <= i < catalogue.len() && catalogue[i].wire_name@ == name && forall|j: int|
                0 <= j < i ==> catalogue[j].wire_name@ != name,
            None => forall|j: int| 0 <= j < catalogue.len() ==> catalogue[j].wire_name@ != name,
        },
    decreases catalogue.len(),
{
    if catalogue.len() > 0 {
        let rest = catalogue.drop_last();
        lemma_position_of(rest, name);
        assert forall|j: int| 0 <= j < rest.len() implies catalogue[j] == rest[j] by {}
    }
}

fn find(catalogue: &Vec<Permission>, name: &str) -> (r: Option<usize>)
    ensures
        match r {
            Some(i) => i < catalogue@.len() && position_of(catalogue@, name@) == Some(i as int),
            None => position_of(catalogue@, name@) is None,
        },
{
    proof {
        lemma_position_of(catalogue@, name@);
    }
    let mut i: usize = 0;
    while i < catalogue.len()
        invariant
            i <= catalogue.len(),
            forall|j: int| 0 <= j < i ==> catalogue@[j].wire_name@ != name@,
        decreases catalogue.len() - i,
    {
        if same(catalogue[i].wire_name, name) {
            proof {
                lemma_position_of(catalogue@, name@);
            }
            return Some(i);
        }
        i += 1;
    }
    None
}

/// The bits of the permissions called `names`, together.
pub open spec fn mask_of(catalogue: Seq<Permission>, names: Seq<Seq<char>>) -> u64
    decreases names.len(),
{
    if names.len() == 0 {
        0
    } else {
        let before = mask_of(catalogue, names.drop_last());
        match position_of(catalogue, names.last()) {
            Some(i) => before | catalogue[i].bit,
            None => before,
        }
    }
}

/// The first of `names` that the catalogue does not know.
pub open spec fn first_unknown(catalogue: Seq<Permission>, names: Seq<Seq<char>>) -> Option<Seq<char>>
    decreases names.len(),
{
    if names.len() == 0 {
        None
    } else {
        match first_unknown(catalogue, names.drop_last()) {
            Some(n) => Some(n),
            None => if position_of(catalogue, names.last()) is None {
                Some(names.last())
            } else {
                None
            },
        }
    }
}

proof fn lemma_unknown_stays(catalogue: Seq<Permission>, names: Seq<Seq<char>>, k: int)
    requires
        0 <= k <= names.len(),
        first_unknown(catalogue, names.take(k)) is Some,
    ensures
        first_unknown(catalogue, names) == first_unknown(catalogue, names.take(k)),
    decreases names.len() - k,
{
    if k < names.len() {
        assert(names.take(k + 1).drop_last() =~= names.take(k));
        lemma_unknown_stays(catalogue, names, k + 1);
    } else {
        assert(names.take(k) =~= names);
    }
}

/// The error for a permission that the catalogue does not know.
pub open spec fn unknown_permission(name: Seq<char>, catalogue_hint: Seq<char>) -> ErrorModel {
    ErrorModel::bad_request(
        "Unknown permission '"@ + name + "'. See "@ + catalogue_hint + " for the catalogue."@,
    )
}

/// Parse a list of wire-format permission identifiers into a mask.
/// `catalogue_hint` appears in the error message so callers can guide users to
/// the right endpoint.
///
/// Empty input is allowed at this layer; call sites that require non-empty must
/// check the resulting mask themselves.
pub fn parse_permission_list(catalogue: &Vec<Permission>, wire: &Vec<String>, catalogue_hint: &str) -> (r:
    WebResult<u64>)
    ensures
        match r {
            Ok(m) => first_unknown(catalogue@, views(wire@)) is None && m == mask_of(
                catalogue@,
                views(wire@),
            ),
            Err(e) => first_unknown(catalogue@, views(wire@)) matches Some(n) && e@
                == unknown_permission(n, catalogue_hint@),
        },
{
    let mut mask: u64 = 0;
    let mut i: usize = 0;
    let ghost names = views(wire@);
    assert(names.take(0) =~= Seq::<Seq<char>>::empty());
    while i < wire.len()
        invariant
            i <= wire.len(),
            names == views(wire@),
            first_unknown(catalogue@, names.take(i as int)) is None,
            mask == mask_of(catalogue@, names.take(i as int)),
        decreases wire.len() - i,
    {
        proof {
            assert(names.take(i as int + 1).drop_last() =~= names.take(i as int));
            assert(names.take(i as int + 1).last() == wire@[i as int]@);
        }
        match find(catalogue, wire[i].as_str()) {
            Some(k) => {
                mask = mask | catalogue[k].bit;
            },
            None => {
                proof {
                    lemma_unknown_stays(catalogue@, names, i as int + 1);
                }
                return Err(
                    WebError::bad_request(
                        cat5(
                            "Unknown permission '",
                            wire[i].as_str(),
                            "'. See ",
                            catalogue_hint,
                            " for the catalogue.",
                        ).as_str(),
                    ),
                );
            },
        }
        i += 1;
    }
    assert(names.take(i as int) =~= names);
    Ok(mask)
}

/// The permissions of the catalogue that a mask grants, in order.
pub open spec fn granted(catalogue: Seq<Permission>, mask: u64) -> Seq<&'static str>
    decreases catalogue.len(),
{
    if catalogue.len() == 0 {
        Seq::empty()
    } else {
        let before = granted(catalogue.drop_last(), mask);
        if mask & catalogue.last().bit != 0 {
            before.push(catalogue.last().wire_name)
        } else {
            before
        }
    }
}

/// The wire names of the permissions that a mask grants.
pub fn mask_to_names(catalogue: &Vec<Permission>, mask: u64) -> (r: Vec<&'static str>)
    ensures
        r@ == granted(catalogue@, mask),
{
    let mut out: Vec<&'static str> = Vec::new();
    let mut i: usize = 0;
    assert(catalogue@.take(0) =~= Seq::<Permission>::empty());
    while i < catalogue.len()
        invariant
            i <= catalogue.len(),
            out@ == granted(catalogue@.take(i as int), mask),
        decreases catalogue.len() - i,
    {
        proof {
            assert(catalogue@.take(i as int + 1).drop_last() =~= catalogue@.take(i as int));
        }
        if mask & catalogue[i].bit != 0 {
            out.push(catalogue[i].wire_name);
        }
        i += 1;
    }
    assert(catalogue@.take(i as int) =~= catalogue@);
    out
}

/// The mask of a list has a bit exactly where one of the listed permissions has
/// it.
pub proof fn law_mask_has_the_listed_bits(
    catalogue: Seq<Permission>,
    names: Seq<Seq<char>>,
    bit: u64,
)
    requires
        bit < 64,
    ensures
        (mask_of(catalogue, names) >> bit) & 1 == 1 <==> exists|k: int|
            0 <= k < names.len() && (position_of(catalogue, #[trigger] names[k]) matches Some(i)
                && (catalogue[i].bit >> bit) & 1 == 1),
    decreases names.len(),
{
    if names.len() == 0 {
        assert((0u64 >> bit) & 1 == 0) by (bit_vector);
    } else {
        let rest = names.drop_last();
        law_mask_has_the_listed_bits(catalogue, rest, bit);
        let before = mask_of(catalogue, rest);
        let n = names.len() - 1;
        match position_of(catalogue, names.last()) {
            Some(i) => {
                let b = catalogue[i].bit;
                assert(((before | b) >> bit) & 1 == 1 <==> ((before >> bit) & 1 == 1 || (b >> bit)
                    & 1 == 1)) by (bit_vector);
            },
            None => {},
        }
        assert(names[n] == names.last());
        if exists|k: int|
            0 <= k < rest.len() && (position_of(catalogue, #[trigger] rest[k]) matches Some(i)
                && (catalogue[i].bit >> bit) & 1 == 1) {
            let k = choose|k: int|
                0 <= k < rest.len() && (position_of(catalogue, #[trigger] rest[k]) matches Some(i)
                    && (catalogue[i].bit >> bit) & 1 == 1);
            assert(names[k] == rest[k]);
        }
        assert forall|k: int| 0 <= k < rest.len() implies rest[k] == #[trigger] names[k] by {}
    }
}

/// The catalogue is shown whole and in order.
pub proof fn law_catalogue_is_shown(
    catalogue: Vec<Permission>,
    r: Vec<PermissionEntry>,
    i: int,
)
    requires
        call_ensures(available_permissions, (&catalogue,), r),
    ensures
        r@.len() == catalogue@.len(),
        0 <= i < catalogue@.len() ==> r@[i].id@ == catalogue@[i].wire_name@
            && r@[i].mutating == catalogue@[i].mutating,
{
}

/// One more listed permission adds its bit to the mask; the first permission of that name
/// counts. A name that the catalogue does not know refuses the list, and the first such name is
/// told, with where the catalogue is.
pub proof fn law_permission_lists(
    catalogue: Vec<Permission>,
    wire: Vec<String>,
    more: Vec<String>,
    name: String,
    hint: &str,
    r: WebResult<u64>,
    s: WebResult<u64>,
    k: int,
)
    requires
        more@ == wire@.push(name),
        call_ensures(parse_permission_list, (&catalogue, &wire, hint), r),
        call_ensures(parse_permission_list, (&catalogue, &more, hint), s),
    ensures
        wire@.len() == 0 ==> r is Ok && r->Ok_0 == 0,
        r is Err ==> s is Err && s->Err_0@ == r->Err_0@,
        r is Ok && 0 <= k < catalogue@.len() && catalogue@[k].wire_name@ == name@ && (forall|j: int|
            0 <= j < k ==> (#[trigger] catalogue@[j]).wire_name@ != name@) ==> s is Ok && s->Ok_0
            == r->Ok_0 | catalogue@[k].bit,
        r is Ok && (forall|j: int|
            0 <= j < catalogue@.len() ==> (#[trigger] catalogue@[j]).wire_name@ != name@)
                ==> (s matches Err(WebError::BadRequest(c, m)) && c == ErrorCode::BAD_REQUEST
                && m@ == "Unknown permission '"@ + name@ + "'. See "@ + hint@
                + " for the catalogue."@),
{
    let names = views(wire@);
    let all = views(more@);
    assert(all =~= names.push(name@));
    assert(all.drop_last() =~= names);
    lemma_position_of(catalogue@, name@);
    if 0 <= k < catalogue@.len() && catalogue@[k].wire_name@ == name@ && (forall|j: int|
        0 <= j < k ==> (#[trigger] catalogue@[j]).wire_name@ != name@) {
        assert(position_of(catalogue@, name@) == Some(k));
    }
}

/// One more permission in the catalogue is among the names of a mask exactly when the mask has
/// its bit, and comes last.
pub proof fn law_names_of_a_mask(
    catalogue: Vec<Permission>,
    more: Vec<Permission>,
    p: Permission,
    mask: u64,
    r: Vec<&'static str>,
    s: Vec<&'static str>,
)
    requires
        more@ == catalogue@.push(p),
        call_ensures(mask_to_names, (&catalogue, mask), r),
        call_ensures(mask_to_names, (&more, mask), s),
    ensures
        catalogue@.len() == 0 ==> r@.len() == 0,
        mask & p.bit != 0 ==> s@ == r@.push(p.wire_name),
        mask & p.bit == 0 ==> s@ == r@,
{
    assert(more@.drop_last() =~= catalogue@);
}

} // verus!
