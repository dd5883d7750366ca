//! Display names of derivations.

use crate::text::{
    ends_with, find_past_last, past_last, position, skip, split_once, strip_suffix,
};
use vstd::prelude::*;

verus! {

/// The part of `path` after its last slash.
pub open spec fn filename(path: Seq<char>) -> Seq<char> {
    skip(path, past_last(path, '/'))
}

/// What follows the first `-` of `s`, or `s` when it has none.
pub open spec fn after_dash(s: Seq<char>) -> Seq<char> {
    let p = position(s, '-');
    if p < s.len() {
        skip(s, p + 1)
    } else {
        s
    }
}

/// `s` without a trailing `.drv`.
pub open spec fn without_drv(s: Seq<char>) -> Seq<char> {
    if ends_with(s, ".drv"@) {
        s.subrange(0, s.len() - ".drv"@.len())
    } else {
        s
    }
}

/// `name-version` of the derivation `/nix/store/hash-name-version.drv`.
pub open spec fn display_name_spec(path: Seq<char>) -> Seq<char> {
    without_drv(after_dash(filename(path)))
}

fn filename_of(path: &str) -> (r: &str)
    ensures
        r@ == filename(path@),
{
    let i: usize = find_past_last(path, '/');
    path.substring_char(i, path.unicode_len())
}

fn after_dash_of(s: &str) -> (r: &str)
    ensures
        r@ == after_dash(s@),
{
    match split_once(s, '-') {
        Some((_, rest)) => rest,
        None => s,
    }
}

fn without_drv_of(s: &str) -> (r: &str)
    ensures
        r@ == without_drv(s@),
{
    match strip_suffix(s, ".drv") {
        Some(t) => t,
        None => s,
    }
}

/// `/nix/store/hash-name-version.drv` → `name-version`
pub fn drv_display_name(path: &str) -> (r: String)
    ensures
        r@ == display_name_spec(path@),
{
    without_drv_of(after_dash_of(filename_of(path))).to_owned()
}

/// The name by which a build list orders a derivation: the `.drv` goes first,
/// then the hash.
pub fn build_list_name(path: &str) -> (r: String)
    ensures
        r@ == after_dash(without_drv(filename(path@))),
{
    after_dash_of(without_drv_of(filename_of(path))).to_owned()
}

/// Logs and build lists agree on the name of a derivation: it does not matter
/// whether the hash or the `.drv` is taken off first.
pub proof fn law_display_names_agree(path: Seq<char>)
    ensures
        after_dash(without_drv(filename(path))) == display_name_spec(path),
{
    reveal_strlit(".drv");
    let s = filename(path);
    let p = position(s, '-');
    crate::text::lemma_position_bounds(s, '-');
    if ends_with(s, ".drv"@) {
        let n = s.len() - 4;
        let t = s.subrange(0, n);
        let tail = s.subrange(n, s.len() as int);
        assert(tail[0] == '.' && tail[1] == 'd' && tail[2] == 'r' && tail[3] == 'v');
        assert(s[n] == '.' && s[n + 1] == 'd' && s[n + 2] == 'r' && s[n + 3] == 'v');
        if p < s.len() {
            assert(p < n);
            crate::text::lemma_position_is(t, '-', p);
            let a = skip(s, p + 1);
            assert(a.subrange(a.len() - 4, a.len() as int) =~= tail);
            assert(a.subrange(0, a.len() - 4) =~= skip(t, p + 1));
        } else {
            crate::text::lemma_position_is(t, '-', n);
        }
    } else if p < s.len() {
        let a = skip(s, p + 1);
        if ends_with(a, ".drv"@) {
            assert(s.subrange(s.len() - 4, s.len() as int) =~= a.subrange(
                a.len() - 4,
                a.len() as int,
            ));
        }
    }
}

/// The name of a derivation is what stands between the first dash of its file name and `.drv`,
/// in logs and in build lists.
pub proof fn law_derivation_names(
    dir: Seq<char>,
    hash: Seq<char>,
    name: Seq<char>,
    path: &str,
    r: String,
    s: String,
)
    requires
        dir.len() == 0 || dir.last() == '/',
        forall|i: int| 0 <= i < hash.len() ==> hash[i] != '/' && hash[i] != '-',
        forall|i: int| 0 <= i < name.len() ==> name[i] != '/',
        path@ == dir + (hash + "-"@ + (name + ".drv"@)),
        call_ensures(drv_display_name, (path,), r),
        call_ensures(build_list_name, (path,), s),
    ensures
        r@ == name,
        s@ == name,
{
    law_display_names_agree(path@);
    let k = dir.len() as int;
    let tail = name + ".drv"@;
    let file = hash + "-"@ + tail;
    assert(filename(path@) == file) by {
        reveal_strlit(".drv");
        reveal_strlit("-");
        assert forall|j: int| k <= j < path@.len() implies path@[j] != '/' by {
            assert(path@[j] == file[j - k]);
            if j - k < hash.len() {
                assert(file[j - k] == hash[j - k]);
            } else if j - k > hash.len() {
                let m = j - k - hash.len() - 1;
                assert(file[j - k] == tail[m]);
                if m < name.len() {
                    assert(tail[m] == name[m]);
                } else {
                    assert(tail[m] == ".drv"@[m - name.len()]);
                }
            }
        }
        crate::text::lemma_past_last_is(path@, '/', k);
        assert(skip(path@, k) =~= file);
    }
    assert(after_dash(file) == tail) by {
        reveal_strlit("-");
        assert forall|j: int| 0 <= j < hash.len() implies file[j] != '-' by {
            assert(file[j] == hash[j]);
        }
        assert(file[hash.len() as int] == '-');
        crate::text::lemma_position_is(file, '-', hash.len() as int);
        assert(skip(file, (hash.len() + 1) as int) =~= tail);
    }
    assert(without_drv(tail) == name) by {
        reveal_strlit(".drv");
        assert(tail.subrange(tail.len() - 4, tail.len() as int) =~= ".drv"@);
        assert(tail.subrange(0, tail.len() - 4) =~= name);
    }
}

} // verus!
