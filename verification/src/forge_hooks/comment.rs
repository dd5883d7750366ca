//! The `/ci run` comment command.

use crate::text::{
    chars_of, lines, lines_spec, skip, trim, trimmed, views, white,
};
use vstd::prelude::*;

verus! {

/// Outcome of parsing a `/ci run [wildcard]` comment.
#[derive(Debug, PartialEq, Eq)]
pub enum CiRunCommand {
    /// Bare `/ci run`: unpark with the wildcard already on the evaluation.
    Plain,
    /// `/ci run <wildcard>`: unpark and override the wildcard of the evaluation
    /// with this raw string, which is not yet validated.
    WithWildcard(String),
}

impl View for CiRunCommand {
    type V = Option<Seq<char>>;

    /// The wildcard, where the command has one.
    open spec fn view(&self) -> Option<Seq<char>> {
        match self {
            CiRunCommand::Plain => None,
            CiRunCommand::WithWildcard(w) => Some(w@),
        }
    }
}

/// The ASCII whitespace characters.
pub open spec fn ascii_white(c: char) -> bool {
    c == ' ' || c == '\t' || c == '\n' || c == '\u{c}' || c == '\r'
}

/// `s` begins with `/ci run`, in any mix of cases.
pub open spec fn has_command(s: Seq<char>) -> bool {
    &&& s.len() >= 7
    &&& s[0] == '/'
    &&& s[1] == 'c' || s[1] == 'C'
    &&& s[2] == 'i' || s[2] == 'I'
    &&& s[3] == ' '
    &&& s[4] == 'r' || s[4] == 'R'
    &&& s[5] == 'u' || s[5] == 'U'
    &&& s[6] == 'n' || s[6] == 'N'
}

/// The command on the trimmed line `s`, if it is one: the outer `Option` says
/// whether it is, the inner one holds the wildcard.
pub open spec fn command_on(s: Seq<char>) -> Option<Option<Seq<char>>> {
    let rest = skip(s, 7);
    if !has_command(s) {
        None
    } else if rest.len() == 0 {
        Some(None)
    } else if !ascii_white(rest[0]) {
        None
    } else if trimmed(rest).len() == 0 {
        Some(None)
    } else {
        Some(Some(trimmed(rest)))
    }
}

/// A trimmed line that counts: neither blank nor a quotation.
pub open spec fn counts(s: Seq<char>) -> bool {
    s.len() > 0 && s[0] != '>'
}

/// The trimmed lines of a comment that count.
pub open spec fn counted_lines(lines: Seq<Seq<char>>) -> Seq<Seq<char>>
    decreases lines.len(),
{
    if lines.len() == 0 {
        Seq::empty()
    } else {
        let l = trimmed(lines.last());
        let before = counted_lines(lines.drop_last());
        if counts(l) {
            before.push(l)
        } else {
            before
        }
    }
}

/// The command of a comment: it has one when exactly one line counts, and that
/// line is a command.
pub open spec fn comment_command(body: Seq<char>) -> Option<Option<Seq<char>>> {
    let counted = counted_lines(lines_spec(body));
    if counted.len() == 1 {
        command_on(counted[0])
    } else {
        None
    }
}

/// What a parsed command stands for.
pub open spec fn parsed(c: Option<CiRunCommand>) -> Option<Option<Seq<char>>> {
    match c {
        None => None,
        Some(cmd) => Some(cmd@),
    }
}

/// The command on one trimmed line.
fn parse_line(line: &str) -> (r: Option<CiRunCommand>)
    ensures
        parsed(r) == command_on(line@),
{
    let s = chars_of(line);
    if s.len() < 7 {
        return None;
    }
    if !(s[0] == '/' && (s[1] == 'c' || s[1] == 'C') && (s[2] == 'i' || s[2] == 'I') && s[3] == ' '
        && (s[4] == 'r' || s[4] == 'R') && (s[5] == 'u' || s[5] == 'U') && (s[6] == 'n' || s[6]
        == 'N')) {
        return None;
    }
    let rest = line.substring_char(7, s.len());
    if s.len() == 7 {
        return Some(CiRunCommand::Plain);
    }
    let c = s[7];
    if !(c == ' ' || c == '\t' || c == '\n' || c == '\u{c}' || c == '\r') {
        return None;
    }
    let arg = trim(rest);
    if arg.unicode_len() == 0 {
        return Some(CiRunCommand::Plain);
    }
    Some(CiRunCommand::WithWildcard(arg.to_owned()))
}

proof fn lemma_counted_grows(lines: Seq<Seq<char>>, i: int)
    requires
        0 <= i <= lines.len(),
    ensures
        counted_lines(lines.take(i)).len() <= counted_lines(lines).len(),
    decreases lines.len() - i,
{
    if i < lines.len() {
        lemma_counted_grows(lines, i + 1);
        assert(lines.take(i + 1).drop_last() =~= lines.take(i));
    } else {
        assert(lines.take(i) =~= lines);
    }
}

proof fn lemma_first_counted(lines: Seq<Seq<char>>, i: int)
    requires
        0 <= i <= lines.len(),
        counted_lines(lines.take(i)).len() > 0,
    ensures
        counted_lines(lines).len() > 0,
        counted_lines(lines)[0] == counted_lines(lines.take(i))[0],
    decreases lines.len() - i,
{
    if i < lines.len() {
        assert(lines.take(i + 1).drop_last() =~= lines.take(i));
        lemma_first_counted(lines, i + 1);
    } else {
        assert(lines.take(i) =~= lines);
    }
}

/// Lifts `/ci run` (with or without a wildcard argument) from a comment body.
/// The command must appear on its own line (after trimming whitespace). Blank
/// lines and forge quote-reply lines (`> …`) are skipped so a maintainer can
/// quote the context above the command; any other prose before or after the
/// command disqualifies the comment.
pub fn parse_ci_run_command(body: &str) -> (r: Option<CiRunCommand>)
    ensures
        parsed(r) == comment_command(body@),
{
    let all = lines(body);
    let ghost ls = lines_spec(body@);
    let mut found: Option<CiRunCommand> = None;
    let mut i: usize = 0;
    while i < all.len()
        invariant
            i <= all.len(),
            views(all@) == ls,
            ls == lines_spec(body@),
            counted_lines(ls.take(i as int)).len() == if found is Some {
                1nat
            } else {
                0nat
            },
            found is Some ==> parsed(found) == command_on(counted_lines(ls.take(i as int))[0]),
        decreases all.len() - i,
    {
        let line = trim(all[i].as_str());
        let ghost upto = ls.take(i as int + 1);
        proof {
            assert(upto.drop_last() =~= ls.take(i as int));
            assert(upto.last() == all@[i as int]@);
        }
        if line.unicode_len() == 0 || line.get_char(0) == '>' {
            i += 1;
            continue ;
        }
        proof {
            lemma_counted_grows(ls, i as int + 1);
        }
        if found.is_some() {
            return None;
        }
        found = parse_line(line);
        proof {
            lemma_first_counted(ls, i as int + 1);
        }
        if found.is_none() {
            return None;
        }
        i += 1;
    }
    proof {
        assert(ls.take(i as int) =~= ls);
    }
    found
}

/// A comment with two or more lines that count holds no command, so a command
/// is never acted on when other prose surrounds it.
pub proof fn law_prose_disqualifies(body: Seq<char>)
    requires
        counted_lines(lines_spec(body)).len() != 1,
    ensures
        comment_command(body) is None,
{
}

/// A wildcard lifted from a comment is not empty and carries no whitespace at
/// its ends.
pub proof fn law_wildcard_is_trimmed(body: Seq<char>)
    requires
        comment_command(body) matches Some(Some(_)),
    ensures
        comment_command(body) matches Some(Some(w)) && w.len() > 0 && !white(w[0]) && !white(
            w.last(),
        ),
{
    let s = counted_lines(lines_spec(body))[0];
    crate::text::lemma_trimmed_ends(skip(s, 7));
}

proof fn lemma_one_line(body: Seq<char>, before: Seq<char>, s: Seq<char>, after: Seq<char>)
    requires
        body == before + s + after,
        forall|i: int| 0 <= i < body.len() ==> body[i] != '\n',
        forall|i: int| 0 <= i < before.len() ==> white(#[trigger] before[i]),
        forall|i: int| 0 <= i < after.len() ==> white(#[trigger] after[i]),
        s.len() > 0,
        !white(s[0]),
        !white(s.last()),
        s[0] != '>',
    ensures
        comment_command(body) == command_on(s),
{
    crate::text::law_lines(body, Seq::empty());
    crate::text::law_trimming(before, s, after);
    let ls = lines_spec(body);
    assert(ls.last() == body);
    assert(ls.drop_last() =~= Seq::<Seq<char>>::empty());
    assert(counted_lines(ls.drop_last()) =~= Seq::<Seq<char>>::empty());
    assert(counted_lines(ls)[0] == s);
}

/// A comment that is `/ci run`, in any mix of cases and with whitespace around it, is the plain
/// command.
pub proof fn law_plain_command(
    body: &str,
    before: Seq<char>,
    cmd: Seq<char>,
    after: Seq<char>,
    r: Option<CiRunCommand>,
)
    requires
        call_ensures(parse_ci_run_command, (body,), r),
        body@ == before + cmd + after,
        forall|i: int| 0 <= i < body@.len() ==> body@[i] != '\n',
        forall|i: int| 0 <= i < before.len() ==> white(#[trigger] before[i]),
        forall|i: int| 0 <= i < after.len() ==> white(#[trigger] after[i]),
        cmd.len() == 7,
        cmd[0] == '/',
        cmd[1] == 'c' || cmd[1] == 'C',
        cmd[2] == 'i' || cmd[2] == 'I',
        cmd[3] == ' ',
        cmd[4] == 'r' || cmd[4] == 'R',
        cmd[5] == 'u' || cmd[5] == 'U',
        cmd[6] == 'n' || cmd[6] == 'N',
    ensures
        r == Some(CiRunCommand::Plain),
{
    lemma_one_line(body@, before, cmd, after);
}

/// What follows the command after whitespace is its wildcard, without the whitespace around it.
pub proof fn law_command_with_wildcard(
    body: &str,
    before: Seq<char>,
    cmd: Seq<char>,
    gap: Seq<char>,
    w: Seq<char>,
    after: Seq<char>,
    r: Option<CiRunCommand>,
)
    requires
        call_ensures(parse_ci_run_command, (body,), r),
        body@ == before + (cmd + (gap + w)) + after,
        forall|i: int| 0 <= i < body@.len() ==> body@[i] != '\n',
        forall|i: int| 0 <= i < before.len() ==> white(#[trigger] before[i]),
        forall|i: int| 0 <= i < gap.len() ==> white(#[trigger] gap[i]),
        forall|i: int| 0 <= i < after.len() ==> white(#[trigger] after[i]),
        cmd.len() == 7,
        cmd[0] == '/',
        cmd[1] == 'c' || cmd[1] == 'C',
        cmd[2] == 'i' || cmd[2] == 'I',
        cmd[3] == ' ',
        cmd[4] == 'r' || cmd[4] == 'R',
        cmd[5] == 'u' || cmd[5] == 'U',
        cmd[6] == 'n' || cmd[6] == 'N',
        gap.len() > 0,
        gap[0] == ' ' || gap[0] == '\t' || gap[0] == '\u{c}' || gap[0] == '\r',
        w.len() > 0,
        !white(w[0]),
        !white(w.last()),
    ensures
        r matches Some(CiRunCommand::WithWildcard(x)) && x@ == w,
{
    let s = cmd + (gap + w);
    assert(s[0] == '/');
    assert(s.last() == w.last());
    lemma_one_line(body@, before, s, after);
    assert(skip(s, 7) =~= gap + w + Seq::<char>::empty());
    crate::text::law_trimming(gap, w, Seq::empty());
    assert(s[1] == cmd[1] && s[2] == cmd[2] && s[3] == cmd[3] && s[4] == cmd[4] && s[5] == cmd[5]
        && s[6] == cmd[6]);
}

/// A comment of one line that does not begin with `/ci run`, or that goes on without
/// whitespace, is no command.
pub proof fn law_other_lines_are_no_command(
    body: &str,
    before: Seq<char>,
    s: Seq<char>,
    after: Seq<char>,
    r: Option<CiRunCommand>,
)
    requires
        call_ensures(parse_ci_run_command, (body,), r),
        body@ == before + s + after,
        forall|i: int| 0 <= i < body@.len() ==> body@[i] != '\n',
        forall|i: int| 0 <= i < before.len() ==> white(#[trigger] before[i]),
        forall|i: int| 0 <= i < after.len() ==> white(#[trigger] after[i]),
        s.len() > 0,
        !white(s[0]),
        !white(s.last()),
        s[0] != '>',
        s.len() < 7 || s[0] != '/' || (s[1] != 'c' && s[1] != 'C') || (s[2] != 'i' && s[2] != 'I')
            || s[3] != ' ' || (s[4] != 'r' && s[4] != 'R') || (s[5] != 'u' && s[5] != 'U') || (s[6]
            != 'n' && s[6] != 'N') || (s.len() > 7 && !white(s[7])),
    ensures
        r is None,
{
    lemma_one_line(body@, before, s, after);
    if s.len() > 7 {
        assert(skip(s, 7)[0] == s[7]);
    }
}

proof fn lemma_trimmed_push(x: Seq<char>, c: char)
    requires
        white(c),
    ensures
        trimmed(x.push(c)) == trimmed(x),
    decreases x.len(),
{
    let y = x.push(c);
    if x.len() == 0 {
        assert(y.drop_first() =~= x);
    } else if white(x[0]) {
        assert(y.drop_first() =~= x.drop_first().push(c));
        lemma_trimmed_push(x.drop_first(), c);
    } else {
        assert(y.drop_last() =~= x);
    }
}

proof fn lemma_trimmed_head(before: Seq<char>, s: Seq<char>)
    requires
        forall|i: int| 0 <= i < before.len() ==> white(#[trigger] before[i]),
        s.len() > 0 ==> !white(s[0]),
    ensures
        s.len() == 0 ==> trimmed(before + s).len() == 0,
        s.len() > 0 ==> trimmed(before + s).len() > 0 && trimmed(before + s)[0] == s[0],
    decreases s.len(),
{
    if s.len() == 0 {
        crate::text::law_trimming(before, s, Seq::empty());
        assert(before + s + Seq::<char>::empty() =~= before + s);
    } else if white(s.last()) {
        lemma_trimmed_head(before, s.drop_last());
        lemma_trimmed_push(before + s.drop_last(), s.last());
        assert((before + s.drop_last()).push(s.last()) =~= before + s);
    } else {
        crate::text::law_trimming(before, s, Seq::empty());
        assert(before + s + Seq::<char>::empty() =~= before + s);
    }
}

proof fn lemma_counted_cons(l: Seq<char>, ls: Seq<Seq<char>>)
    ensures
        counts(trimmed(l)) ==> counted_lines(seq![l] + ls) == seq![trimmed(l)] + counted_lines(ls),
        !counts(trimmed(l)) ==> counted_lines(seq![l] + ls) == counted_lines(ls),
    decreases ls.len(),
{
    let all = seq![l] + ls;
    if ls.len() == 0 {
        assert(all.drop_last() =~= ls);
        assert(all.last() == l);
        assert(counted_lines(ls) =~= Seq::<Seq<char>>::empty());
    } else {
        assert(all.drop_last() =~= seq![l] + ls.drop_last());
        assert(all.last() == ls.last());
        lemma_counted_cons(l, ls.drop_last());
    }
}

proof fn lemma_line_before(line: Seq<char>, before: Seq<char>, s: Seq<char>, rest: Seq<char>)
    requires
        line == before + s,
        forall|i: int| 0 <= i < line.len() ==> line[i] != '\n',
        forall|i: int| 0 <= i < before.len() ==> white(#[trigger] before[i]),
        s.len() > 0 ==> !white(s[0]),
    ensures
        s.len() == 0 || s[0] == '>' ==> counted_lines(lines_spec(line + seq!['\n'] + rest))
            == counted_lines(lines_spec(rest)),
        s.len() > 0 && s[0] != '>' ==> counted_lines(
            lines_spec(line + seq!['\n'] + rest),
        ).len() == 1 + counted_lines(lines_spec(rest)).len(),
{
    crate::text::law_lines(line, rest);
    lemma_trimmed_head(before, s);
    if line.len() > 0 && line.last() == '\r' {
        lemma_trimmed_push(line.drop_last(), '\r');
        assert(line.drop_last().push('\r') =~= line);
        lemma_counted_cons(line.drop_last(), lines_spec(rest));
    } else {
        lemma_counted_cons(line, lines_spec(rest));
    }
}

/// A blank line or a quotation before a comment changes nothing: the comment means what it
/// means without it.
pub proof fn law_quotations_are_skipped(
    body: &str,
    quoting: &str,
    before: Seq<char>,
    quoted: Seq<char>,
    r: Option<CiRunCommand>,
    q: Option<CiRunCommand>,
)
    requires
        call_ensures(parse_ci_run_command, (body,), r),
        call_ensures(parse_ci_run_command, (quoting,), q),
        quoting@ == (before + quoted) + seq!['\n'] + body@,
        forall|i: int| 0 <= i < (before + quoted).len() ==> (before + quoted)[i] != '\n',
        forall|i: int| 0 <= i < before.len() ==> white(#[trigger] before[i]),
        quoted.len() > 0 ==> quoted[0] == '>',
    ensures
        parsed(q) == parsed(r),
        q is None <==> r is None,
        q == Some(CiRunCommand::Plain) <==> r == Some(CiRunCommand::Plain),
{
    lemma_line_before(before + quoted, before, quoted, body@);
}

/// A line of prose before a command disqualifies the comment, be the line a command or not.
pub proof fn law_prose_before_a_command_disqualifies(
    body: &str,
    longer: &str,
    before: Seq<char>,
    prose: Seq<char>,
    r: Option<CiRunCommand>,
    q: Option<CiRunCommand>,
)
    requires
        call_ensures(parse_ci_run_command, (body,), r),
        call_ensures(parse_ci_run_command, (longer,), q),
        r is Some,
        longer@ == (before + prose) + seq!['\n'] + body@,
        forall|i: int| 0 <= i < (before + prose).len() ==> (before + prose)[i] != '\n',
        forall|i: int| 0 <= i < before.len() ==> white(#[trigger] before[i]),
        prose.len() > 0,
        !white(prose[0]),
        prose[0] != '>',
    ensures
        q is None,
{
    lemma_line_before(before + prose, before, prose, body@);
}

} // verus!
