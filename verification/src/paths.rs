//! File names and extensions of slash-separated paths.

use crate::text::{find_past_last, past_last, same, skip};
use vstd::prelude::*;

verus! {

/// The last component of a path. Empty components and `.` are passed over; a
/// path that ends in `..`, or that has no other component, has none.
pub open spec fn basename(path: Seq<char>) -> Option<Seq<char>>
    decreases path.len(),
    via basename_decreases
{
    let p = past_last(path, '/');
    let part = skip(path, p);
    if part == ".."@ {
        None
    } else if part.len() == 0 || part == "."@ {
        if p == 0 {
            None
        } else {
            basename(path.subrange(0, p - 1))
        }
    } else {
        Some(part)
    }
}

#[via_fn]
proof fn basename_decreases(path: Seq<char>) {
    crate::text::lemma_past_last_bounds(path, '/');
}

/// The part of a file name after its last dot; none when there is no dot but a
/// leading one.
pub open spec fn extension(name: Seq<char>) -> Option<Seq<char>> {
    let p = past_last(name, '.');
    if p <= 1 {
        None
    } else {
        Some(skip(name, p))
    }
}

/// The last component of a path.
pub fn file_name(path: &str) -> (r: Option<&str>)
    ensures
        match r {
            Some(s) => basename(path@) == Some(s@),
            None => basename(path@) is None,
        },
{
    let mut rest = path;
    loop
        invariant
            basename(path@) == basename(rest@),
        decreases rest@.len(),
    {
        let n: usize = rest.unicode_len();
        let p: usize = find_past_last(rest, '/');
        let part = rest.substring_char(p, n);
        if same(part, "..") {
            return None;
        }
        if p == n || same(part, ".") {
            if p == 0 {
                return None;
            }
            rest = rest.substring_char(0, p - 1);
        } else {
            return Some(part);
        }
    }
}

/// The extension of the last component of a path.
pub fn file_extension(path: &str) -> (r: Option<&str>)
    ensures
        match r {
            Some(s) => basename(path@) is Some && extension(basename(path@)->0) == Some(s@),
            None => basename(path@) is None || extension(basename(path@)->0) is None,
        },
{
    match file_name(path) {
        Some(name) => {
            let p: usize = find_past_last(name, '.');
            if p <= 1 {
                None
            } else {
                Some(name.substring_char(p, name.unicode_len()))
            }
        },
        None => None,
    }
}

/// The name of a file is what follows the last slash. A slash at the end, or a `.` of its own,
/// makes no difference, and neither a path that ends in `..` nor an empty one has a name.
pub proof fn law_file_names(
    dir: Seq<char>,
    name: Seq<char>,
    path: &str,
    r: Option<&str>,
    slashed: &str,
    s: Option<&str>,
    dotted: &str,
    d: Option<&str>,
    up: &str,
    u: Option<&str>,
)
    requires
        dir.len() == 0 || dir.last() == '/',
        forall|i: int| 0 <= i < name.len() ==> name[i] != '/',
        path@ == dir + name,
        slashed@ == path@ + "/"@,
        dotted@ == path@ + "/."@,
        up@ == path@ + "/.."@,
        call_ensures(file_name, (path,), r),
        call_ensures(file_name, (slashed,), s),
        call_ensures(file_name, (dotted,), d),
        call_ensures(file_name, (up,), u),
    ensures
        name.len() > 0 && name != "."@ && name != ".."@ ==> r is Some && r->0@ == name,
        name == ".."@ ==> r is None,
        dir.len() == 0 && (name.len() == 0 || name == "."@) ==> r is None,
        s is Some <==> r is Some,
        r is Some ==> s->0@ == r->0@,
        d is Some <==> r is Some,
        r is Some ==> d->0@ == r->0@,
        u is None,
{
    reveal_strlit("/");
    reveal_strlit("/.");
    reveal_strlit("/..");
    reveal_strlit(".");
    reveal_strlit("..");
    let n = path@.len() as int;
    assert("."@.len() == 1 && ".."@.len() == 2);
    assert forall|j: int| dir.len() <= j < n implies path@[j] != '/' by {
        assert(path@[j] == name[j - dir.len()]);
    }
    crate::text::lemma_past_last_is(path@, '/', dir.len() as int);
    assert(skip(path@, dir.len() as int) =~= name);
    crate::text::lemma_past_last_is(slashed@, '/', n + 1);
    assert(skip(slashed@, n + 1).len() == 0);
    assert(slashed@.subrange(0, n) =~= path@);
    crate::text::lemma_past_last_is(dotted@, '/', n + 1);
    assert(skip(dotted@, n + 1) =~= "."@);
    assert(dotted@.subrange(0, n) =~= path@);
    crate::text::lemma_past_last_is(up@, '/', n + 1);
    assert(skip(up@, n + 1) =~= ".."@);
}

/// The extension of a file is what follows the last dot of its name; a dot that the name starts
/// with does not count.
pub proof fn law_file_extensions(
    dir: Seq<char>,
    stem: Seq<char>,
    ext: Seq<char>,
    path: &str,
    r: Option<&str>,
    plain: &str,
    s: Option<&str>,
)
    requires
        dir.len() == 0 || dir.last() == '/',
        stem.len() > 0,
        forall|i: int| 0 <= i < stem.len() ==> stem[i] != '/',
        forall|i: int| 0 <= i < ext.len() ==> ext[i] != '/' && ext[i] != '.',
        path@ == dir + (stem + "."@ + ext),
        stem != "."@ || ext.len() > 0,
        forall|i: int| 1 <= i < stem.len() ==> stem[i] != '.',
        plain@ == dir + stem,
        stem != "."@ && stem != ".."@,
        call_ensures(file_extension, (path,), r),
        call_ensures(file_extension, (plain,), s),
    ensures
        r is Some && r->0@ == ext,
        s is None,
{
    reveal_strlit("/");
    reveal_strlit(".");
    reveal_strlit("..");
    assert("."@.len() == 1 && ".."@.len() == 2);
    let name = stem + "."@ + ext;
    let k = dir.len() as int;
    assert(name[stem.len() as int] == '.');
    assert forall|j: int| k <= j < path@.len() implies path@[j] != '/' by {
        assert(path@[j] == name[j - k]);
        if j - k < stem.len() {
            assert(name[j - k] == stem[j - k]);
        } else if j - k > stem.len() {
            assert(name[j - k] == ext[j - k - stem.len() - 1]);
        }
    }
    crate::text::lemma_past_last_is(path@, '/', k);
    assert(skip(path@, k) =~= name);
    assert forall|j: int| k <= j < plain@.len() implies plain@[j] != '/' by {
        assert(plain@[j] == stem[j - k]);
    }
    crate::text::lemma_past_last_is(plain@, '/', k);
    assert(skip(plain@, k) =~= stem);
    assert(name != "."@ && name != ".."@) by {
        if name == ".."@ {
            assert(name.len() == 2);
            assert(stem.len() == 1);
            assert(name[0] == stem[0]);
            assert(stem =~= "."@);
        }
    }
    assert forall|j: int| stem.len() + 1 <= j < name.len() implies name[j] != '.' by {
        assert(name[j] == ext[j - stem.len() - 1]);
    }
    crate::text::lemma_past_last_is(name, '.', (stem.len() + 1) as int);
    assert(skip(name, (stem.len() + 1) as int) =~= ext);
    if stem[0] == '.' {
        crate::text::lemma_past_last_is(stem, '.', 1);
    } else {
        crate::text::lemma_past_last_is(stem, '.', 0);
    }
}

} // verus!
