//! Glob filters on branch and tag names.

use crate::text::{chars_of, skip, starts_with, views};
use vstd::prelude::*;

verus! {

/// `t` matches the pattern `p`, in which `*` stands for any sequence of
/// characters (including none) and every other character for itself. A star
/// takes nothing, or takes the next character and stays.
pub open spec fn glob_match(p: Seq<char>, t: Seq<char>) -> bool
    decreases p.len(), t.len(),
{
    if p.len() == 0 {
        t.len() == 0
    } else if p[0] == '*' {
        glob_match(p.drop_first(), t) || (t.len() > 0 && glob_match(p, t.drop_first()))
    } else {
        t.len() > 0 && t[0] == p[0] && glob_match(p.drop_first(), t.drop_first())
    }
}

/// `t` passes the filter `globs`: one of them matches, or there is none.
pub open spec fn glob_filter(globs: Seq<Seq<char>>, t: Seq<char>) -> bool {
    globs.len() == 0 || exists|i: int| 0 <= i < globs.len() && glob_match(#[trigger] globs[i], t)
}

/// A leading `*` matches any sequence of characters: the rest of the pattern
/// has to match what follows some prefix of the text.
pub proof fn law_glob_star(p: Seq<char>, t: Seq<char>)
    requires
        p.len() > 0,
        p[0] == '*',
    ensures
        glob_match(p, t) <==> exists|k: int|
            0 <= k <= t.len() && #[trigger] glob_match(p.drop_first(), skip(t, k)),
    decreases t.len(),
{
    let q = p.drop_first();
    assert(skip(t, 0) =~= t);
    assert(glob_match(q, t) == glob_match(q, skip(t, 0)));
    if t.len() > 0 {
        let u = t.drop_first();
        law_glob_star(p, u);
        assert forall|k: int| 0 <= k <= u.len() implies skip(u, k) == #[trigger] skip(t, k + 1) by {
            assert(skip(u, k) =~= skip(t, k + 1));
        }
        if glob_match(p, u) {
            let k = choose|k: int| 0 <= k <= u.len() && #[trigger] glob_match(q, skip(u, k));
            assert(glob_match(q, skip(t, k + 1)));
        }
        if !glob_match(p, t) {
            assert forall|k: int| 0 <= k <= t.len() implies !(#[trigger] glob_match(
                q,
                skip(t, k),
            )) by {
                if k > 0 {
                    assert(skip(u, k - 1) =~= skip(t, k));
                    assert(!glob_match(q, skip(u, k - 1)));
                }
            }
        }
    }
}

proof fn lemma_star_star(p: Seq<char>, t: Seq<char>)
    requires
        p.len() > 1,
        p[0] == '*',
        p[1] == '*',
    ensures
        glob_match(p, t) == glob_match(p.drop_first(), t),
{
    let q = p.drop_first();
    assert(q[0] == '*');
    assert(skip(t, 0) =~= t);
    law_glob_star(p, t);
    if glob_match(p, t) {
        let k = choose|k: int| 0 <= k <= t.len() && #[trigger] glob_match(q, skip(t, k));
        let u = skip(t, k);
        law_glob_star(q, u);
        let j = choose|j: int|
            0 <= j <= u.len() && #[trigger] glob_match(q.drop_first(), skip(u, j));
        assert(skip(u, j) =~= skip(t, k + j));
        law_glob_star(q, t);
        assert(glob_match(q.drop_first(), skip(t, k + j)));
    }
}

proof fn lemma_stars_only(p: Seq<char>, t: Seq<char>)
    requires
        p.len() > 0,
        forall|i: int| 0 <= i < p.len() ==> p[i] == '*',
    ensures
        glob_match(p, t),
    decreases p.len(),
{
    law_glob_star(p, t);
    let n = t.len() as int;
    let q = p.drop_first();
    if p.len() == 1 {
        assert(skip(t, n).len() == 0);
        assert(glob_match(q, skip(t, n)));
    } else {
        assert forall|i: int| 0 <= i < q.len() implies q[i] == '*' by {
            assert(q[i] == p[i + 1]);
        }
        lemma_stars_only(q, skip(t, 0));
    }
}

/// Whether `t[ti..]` matches `p[pi..]`.
fn glob_match_recursive(p: &Vec<char>, t: &Vec<char>, pi: usize, ti: usize) -> (r: bool)
    requires
        pi <= p.len(),
        ti <= t.len(),
    ensures
        r == glob_match(skip(p@, pi as int), skip(t@, ti as int)),
    decreases p.len() - pi,
{
    let ghost pp = skip(p@, pi as int);
    let ghost tt = skip(t@, ti as int);
    if pi == p.len() {
        return ti == t.len();
    }
    if p[pi] == '*' {
        // A run of stars means what one star means.
        let mut next: usize = pi + 1;
        while next < p.len() && p[next] == '*'
            invariant
                pi < next <= p.len(),
                p@[next - 1] == '*',
                forall|j: int| pi <= j < next ==> p@[j] == '*',
                glob_match(pp, tt) == glob_match(skip(p@, next - 1), tt),
            decreases p.len() - next,
        {
            proof {
                let a = skip(p@, next - 1);
                lemma_star_star(a, tt);
                assert(a.drop_first() =~= skip(p@, next as int));
            }
            next += 1;
        }
        let ghost star = skip(p@, next - 1);
        let ghost tail = skip(p@, next as int);
        proof {
            assert(star.drop_first() =~= tail);
            law_glob_star(star, tt);
        }
        // A star at the end matches everything that remains.
        if next == p.len() {
            proof {
                lemma_stars_only(pp, tt);
            }
            return true;
        }
        let mut advance: usize = 0;
        while advance < t.len() - ti
            invariant
                ti <= t.len(),
                advance <= t.len() - ti,
                pi < next < p.len(),
                tt == skip(t@, ti as int),
                tail == skip(p@, next as int),
                star.len() > 0,
                star[0] == '*',
                star.drop_first() == tail,
                glob_match(pp, tt) == exists|k: int|
                    0 <= k <= tt.len() && #[trigger] glob_match(tail, skip(tt, k)),
                forall|k: int| 0 <= k < advance ==> !(#[trigger] glob_match(tail, skip(tt, k))),
                pp == skip(p@, pi as int),
            decreases t.len() - ti - advance,
        {
            proof {
                assert(skip(t@, ti + advance) =~= skip(tt, advance as int));
            }
            if glob_match_recursive(p, t, next, ti + advance) {
                assert(glob_match(tail, skip(tt, advance as int)));
                return true;
            }
            advance += 1;
        }
        proof {
            assert(skip(t@, t@.len() as int) =~= skip(tt, advance as int));
        }
        glob_match_recursive(p, t, next, t.len())
    } else {
        if ti == t.len() {
            return false;
        }
        proof {
            assert(pp.drop_first() =~= skip(p@, pi + 1));
            assert(tt.drop_first() =~= skip(t@, ti + 1));
        }
        if p[pi] == t[ti] {
            glob_match_recursive(p, t, pi + 1, ti + 1)
        } else {
            false
        }
    }
}

/// Whether `text` matches `pattern`.
pub fn glob_match_pattern(pattern: &str, text: &str) -> (r: bool)
    ensures
        r == glob_match(pattern@, text@),
{
    let p = chars_of(pattern);
    let t = chars_of(text);
    proof {
        assert(skip(p@, 0) =~= p@);
        assert(skip(t@, 0) =~= t@);
    }
    glob_match_recursive(&p, &t, 0, 0)
}

/// Simple glob match: `*` matches any sequence of characters (including none).
/// An empty `globs` list means "match everything".
pub fn glob_matches(globs: &[String], name: &str) -> (r: bool)
    ensures
        r == glob_filter(views(globs@), name@),
{
    if globs.len() == 0 {
        return true;
    }
    let mut i: usize = 0;
    while i < globs.len()
        invariant
            i <= globs.len(),
            forall|j: int| 0 <= j < i ==> !glob_match(#[trigger] views(globs@)[j], name@),
        decreases globs.len() - i,
    {
        if glob_match_pattern(globs[i].as_str(), name) {
            assert(glob_match(views(globs@)[i as int], name@));
            return true;
        }
        i += 1;
    }
    false
}

/// A pattern without `*` matches exactly itself.
pub proof fn law_glob_literal(p: Seq<char>, t: Seq<char>)
    requires
        forall|i: int| 0 <= i < p.len() ==> p[i] != '*',
    ensures
        glob_match(p, t) <==> p == t,
    decreases p.len(),
{
    if p.len() > 0 {
        let q = p.drop_first();
        assert forall|i: int| 0 <= i < q.len() implies q[i] != '*' by {
            assert(q[i] == p[i + 1]);
        }
        if t.len() > 0 {
            law_glob_literal(q, t.drop_first());
            if t[0] == p[0] && q == t.drop_first() {
                assert(p =~= seq![p[0]] + q);
                assert(t =~= seq![t[0]] + t.drop_first());
            }
        }
    } else {
        assert(t.len() == 0 ==> p =~= t);
    }
}

/// A pattern made of two parts matches exactly the texts made of a match of the
/// first part and a match of the second.
pub proof fn law_glob_concatenation(p: Seq<char>, q: Seq<char>, t: Seq<char>)
    ensures
        glob_match(p + q, t) <==> exists|k: int|
            0 <= k <= t.len() && #[trigger] glob_match(p, t.subrange(0, k)) && glob_match(
                q,
                skip(t, k),
            ),
    decreases p.len(),
{
    let pq = p + q;
    if p.len() == 0 {
        assert(pq =~= q);
        assert(skip(t, 0) =~= t);
        assert(glob_match(p, t.subrange(0, 0)));
        assert forall|k: int|
            0 <= k <= t.len() && #[trigger] glob_match(p, t.subrange(0, k)) && glob_match(
                q,
                skip(t, k),
            ) implies glob_match(q, t) by {
            assert(k == 0);
        }
    } else {
        let p1 = p.drop_first();
        assert(pq.drop_first() =~= p1 + q);
        assert(pq[0] == p[0]);
        if p[0] == '*' {
            law_glob_star(pq, t);
            if glob_match(pq, t) {
                let j = choose|j: int| 0 <= j <= t.len() && #[trigger] glob_match(
                    pq.drop_first(),
                    skip(t, j),
                );
                let u = skip(t, j);
                law_glob_concatenation(p1, q, u);
                let k = choose|k: int|
                    0 <= k <= u.len() && #[trigger] glob_match(p1, u.subrange(0, k)) && glob_match(
                        q,
                        skip(u, k),
                    );
                let head = t.subrange(0, j + k);
                assert(skip(head, j) =~= u.subrange(0, k));
                assert(glob_match(p1, skip(head, j)));
                law_glob_star(p, head);
                assert(glob_match(p, head));
                assert(skip(t, j + k) =~= skip(u, k));
            }
            assert forall|k: int|
                0 <= k <= t.len() && #[trigger] glob_match(p, t.subrange(0, k)) && glob_match(
                    q,
                    skip(t, k),
                ) implies glob_match(pq, t) by {
                let head = t.subrange(0, k);
                law_glob_star(p, head);
                let j = choose|j: int| 0 <= j <= head.len() && #[trigger] glob_match(
                    p.drop_first(),
                    skip(head, j),
                );
                let u = skip(t, j);
                law_glob_concatenation(p1, q, u);
                assert(skip(head, j) =~= u.subrange(0, k - j));
                assert(skip(u, k - j) =~= skip(t, k));
                assert(glob_match(p1, u.subrange(0, k - j)));
                assert(glob_match(pq.drop_first(), skip(t, j)));
            }
        } else if t.len() > 0 {
            let u = t.drop_first();
            law_glob_concatenation(p1, q, u);
            if glob_match(pq, t) {
                let k = choose|k: int|
                    0 <= k <= u.len() && #[trigger] glob_match(p1, u.subrange(0, k)) && glob_match(
                        q,
                        skip(u, k),
                    );
                let head = t.subrange(0, k + 1);
                assert(head.drop_first() =~= u.subrange(0, k));
                assert(skip(t, k + 1) =~= skip(u, k));
                assert(glob_match(p, head));
            }
            assert forall|k: int|
                0 <= k <= t.len() && #[trigger] glob_match(p, t.subrange(0, k)) && glob_match(
                    q,
                    skip(t, k),
                ) implies glob_match(pq, t) by {
                let head = t.subrange(0, k);
                assert(head.drop_first() =~= u.subrange(0, k - 1));
                assert(skip(t, k) =~= skip(u, k - 1));
                assert(glob_match(p1, u.subrange(0, k - 1)));
            }
        } else {
            assert forall|k: int|
                0 <= k <= t.len() && #[trigger] glob_match(p, t.subrange(0, k)) && glob_match(
                    q,
                    skip(t, k),
                ) implies glob_match(pq, t) by {
                assert(t.subrange(0, k).len() == 0);
            }
        }
    }
}

/// `*` alone matches every text.
pub proof fn law_glob_star_matches_all(t: Seq<char>)
    ensures
        glob_match(seq!['*'], t),
{
    lemma_stars_only(seq!['*'], t);
}

/// A literal prefix followed by `*` matches exactly the texts with that prefix.
pub proof fn law_glob_prefix(p: Seq<char>, t: Seq<char>)
    requires
        forall|i: int| 0 <= i < p.len() ==> p[i] != '*',
    ensures
        glob_match(p.push('*'), t) <==> starts_with(t, p),
{
    let star = seq!['*'];
    assert(p.push('*') =~= p + star);
    law_glob_concatenation(p, star, t);
    if glob_match(p + star, t) {
        let k = choose|k: int|
            0 <= k <= t.len() && #[trigger] glob_match(p, t.subrange(0, k)) && glob_match(
                star,
                skip(t, k),
            );
        law_glob_literal(p, t.subrange(0, k));
    }
    if starts_with(t, p) {
        let k = p.len() as int;
        law_glob_literal(p, t.subrange(0, k));
        lemma_stars_only(star, skip(t, k));
        assert(glob_match(p, t.subrange(0, k)));
    }
}

/// A name passes a list of patterns when one of them matches, or there is none.
pub proof fn law_lists_of_globs(
    globs: &[String],
    name: &str,
    r: bool,
    i: int,
    g: &str,
    m: bool,
)
    requires
        call_ensures(glob_matches, (globs, name), r),
        0 <= i < globs@.len() ==> g@ == globs@[i]@,
        call_ensures(glob_match_pattern, (g, name), m),
    ensures
        globs@.len() == 0 ==> r,
        0 <= i < globs@.len() && m ==> r,
        globs@.len() > 0 && r ==> exists|k: int|
            0 <= k < globs@.len() && glob_match((#[trigger] globs@[k])@, name@),
{
    if 0 <= i < globs@.len() && m {
        assert(glob_match(views(globs@)[i], name@));
    }
    if globs@.len() > 0 && r {
        let k = choose|k: int|
            0 <= k < views(globs@).len() && glob_match(#[trigger] views(globs@)[k], name@);
        assert(glob_match(globs@[k]@, name@));
    }
}

/// What patterns match: one without a star itself alone, and one that ends in its only star
/// whatever begins with the rest.
pub proof fn law_matching_names(
    literal: &str,
    prefixed: &str,
    name: &str,
    rest: Seq<char>,
    a: bool,
    b: bool,
)
    requires
        forall|i: int| 0 <= i < literal@.len() ==> literal@[i] != '*',
        prefixed@ == literal@.push('*'),
        call_ensures(glob_match_pattern, (literal, name), a),
        call_ensures(glob_match_pattern, (prefixed, name), b),
    ensures
        a <==> name@ == literal@,
        name@ == literal@ + rest ==> b,
        b ==> name@ == literal@ + skip(name@, literal@.len() as int),
{
    law_glob_literal(literal@, name@);
    law_glob_prefix(literal@, name@);
    let n = literal@.len() as int;
    if name@ == literal@ + rest {
        assert(name@.subrange(0, n) =~= literal@);
    }
    if b {
        assert(name@ =~= name@.subrange(0, n) + skip(name@, n));
    }
}

} // verus!
