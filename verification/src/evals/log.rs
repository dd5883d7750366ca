//! The log stream of an evaluation.
//!
//! A stream first sends the log of every build, then polls the running builds
//! and sends what each log has gained. Offsets count bytes of the UTF-8 text.

use crate::error::{ErrorCode, ErrorModel, WebError, WebResult};
use crate::evals::access::EvalAccessContext;
use crate::evals::names::{display_name_spec, drv_display_name};
use crate::helpers::Id;
use crate::text::{cat3, join, joined, split, split_spec, views};
use std::collections::HashMap;
use vstd::prelude::*;
use vstd::string::StringSliceAdditionalSpecFns;
use vstd::utf8::{encode_utf8, is_char_boundary};

verus! {

broadcast use vstd::std_specs::hash::group_hash_axioms;

/// Opens the log stream of an evaluation. The caller has to see the evaluation (`ctx`);
/// streaming takes membership of its organization, not just public read access.
pub fn post_evaluation_builds(ctx: WebResult<EvalAccessContext>, is_member: bool) -> (r: WebResult<
    LogStream,
>)
    ensures
        match r {
            Ok(s) => ctx is Ok && is_member && forall|b: Id| #[trigger] s.sent(b) == 0,
            Err(e) => e@ == if ctx is Err {
                ctx->Err_0@
            } else {
                ErrorModel::not_found("Evaluation"@)
            } && (ctx is Err || !is_member),
        },
{
    if let Err(e) = ctx {
        return Err(e);
    }
    if !is_member {
        return Err(WebError::not_found("Evaluation"));
    }
    Ok(LogStream::new())
}

/// `text` with `name> ` before each of its lines.
pub open spec fn labelled(name: Seq<char>, text: Seq<char>) -> Seq<char> {
    joined(split_spec(text, '\n').map_values(|l: Seq<char>| name + "> "@ + l), "\n"@)
}

/// The display name of a build whose derivation may be unknown.
pub open spec fn build_label(drv_path: Option<Seq<char>>) -> Seq<char> {
    match drv_path {
        Some(p) => display_name_spec(p),
        None => display_name_spec(Seq::empty()),
    }
}

/// `text` with `name> ` before each of its lines.
pub fn label_lines(name: &str, text: &str) -> (r: String)
    ensures
        r@ == labelled(name@, text@),
{
    let parts = split(text, '\n');
    let ghost f = |l: Seq<char>| name@ + "> "@ + l;
    let mut out: Vec<String> = Vec::new();
    let mut i: usize = 0;
    while i < parts.len()
        invariant
            i <= parts.len(),
            views(out@) == views(parts@).take(i as int).map_values(f),
            f == (|l: Seq<char>| name@ + "> "@ + l),
        decreases parts.len() - i,
    {
        let ghost before = views(out@);
        out.push(cat3(name, "> ", parts[i].as_str()));
        proof {
            assert(views(out@) =~= before.push(f(parts@[i as int]@)));
            assert(views(parts@).take(i as int + 1).map_values(f) =~= views(parts@).take(
                i as int,
            ).map_values(f).push(f(parts@[i as int]@)));
        }
        i += 1;
    }
    assert(views(parts@).take(i as int) =~= views(parts@));
    join(&out, "\n")
}

fn label_of(drv_path: Option<&str>) -> (r: String)
    ensures
        r@ == build_label(
            match drv_path {
                Some(p) => Some(p@),
                None => None,
            },
        ),
{
    match drv_path {
        Some(p) => drv_display_name(p),
        None => {
            let empty = String::new();
            proof {
                assert(empty@ =~= Seq::<char>::empty());
            }
            drv_display_name(empty.as_str())
        },
    }
}

/// How far the log of each build was sent.
pub struct LogStream {
    last_logs: HashMap<Id, usize>,
}

/// What a stream does when no build is running.
#[derive(Debug, Clone, Copy, PartialEq, Eq, Structural)]
pub enum IdleStep {
    /// Send an empty chunk and end.
    Finish,
    /// Wait a second and look again.
    Wait,
}

impl View for LogStream {
    type V = Map<Id, usize>;

    closed spec fn view(&self) -> Map<Id, usize> {
        self.last_logs@
    }
}

impl LogStream {
    /// How much of the log of `build` was sent, in bytes.
    pub open spec fn sent(self, build: Id) -> int {
        if self@.contains_key(build) {
            self@[build] as int
        } else {
            0
        }
    }

    pub fn new() -> (r: LogStream)
        ensures
            r@ == Map::<Id, usize>::empty(),
    {
        LogStream { last_logs: HashMap::new() }
    }

    /// How much of the log of `build` was sent, in bytes.
    pub fn offset(&self, build: Id) -> (r: usize)
        ensures
            r == self.sent(build),
    {
        match self.last_logs.get(&build) {
            Some(n) => *n,
            None => 0,
        }
    }

    /// Sends the whole `log` of a build, whatever its state.
    pub fn past_build(&mut self, build: Id, drv_path: Option<&str>, log: &str) -> (r: String)
        ensures
            final(self).sent(build) == log.spec_bytes().len(),
            forall|b: Id| b != build ==> final(self).sent(b) == old(self).sent(b),
            r@ == labelled(
                build_label(
                    match drv_path {
                        Some(p) => Some(p@),
                        None => None,
                    },
                ),
                log@,
            ),
    {
        let name = label_of(drv_path);
        let n: usize = log.as_bytes().len();
        self.last_logs.insert(build, n);
        label_lines(name.as_str(), log)
    }

    /// Sends what the `log` of a running build has gained since it was last
    /// sent, if anything. The log must not have shrunk, nor been cut inside a
    /// character.
    pub fn running_build(&mut self, build: Id, drv_path: Option<&str>, log: &str) -> (r: Option<
        String,
    >)
        requires
            is_char_boundary(log.spec_bytes(), old(self).sent(build)),
        ensures
            final(self).sent(build) == log.spec_bytes().len(),
            forall|b: Id| b != build ==> final(self).sent(b) == old(self).sent(b),
            old(self).sent(build) == log.spec_bytes().len() ==> r is None,
            old(self).sent(build) != log.spec_bytes().len() ==> {
                &&& r is Some
                &&& exists|gained: Seq<char>| #[trigger]
                    encode_utf8(gained) == log.spec_bytes().skip(old(self).sent(build)) && r->0@
                        == labelled(
                        build_label(
                            match drv_path {
                                Some(p) => Some(p@),
                                None => None,
                            },
                        ),
                        gained,
                    )
            },
    {
        let from: usize = self.offset(build);
        let name = label_of(drv_path);
        let n: usize = log.as_bytes().len();
        proof {
            vstd::utf8::encode_utf8_valid_utf8(log@);
            assert(from <= log.spec_bytes().len());
        }
        let (_, gained) = log.split_at(from);
        proof {
            assert(gained.spec_bytes() =~= log.spec_bytes().skip(from as int));
        }
        if gained.as_bytes().len() > 0 {
            self.last_logs.insert(build, n);
            proof {
                assert(encode_utf8(gained@) == log.spec_bytes().skip(from as int));
            }
            Some(label_lines(name.as_str(), gained))
        } else {
            if self.last_logs.get(&build).is_none() {
                self.last_logs.insert(build, 0);
            }
            None
        }
    }

    /// What to do when no build is running; `pending` says whether one is still
    /// building or queued.
    pub fn idle(pending: bool) -> (r: IdleStep)
        ensures
            r == if pending {
                IdleStep::Wait
            } else {
                IdleStep::Finish
            },
    {
        if pending {
            IdleStep::Wait
        } else {
            IdleStep::Finish
        }
    }
}

proof fn lemma_encode_append(a: Seq<char>, b: Seq<char>)
    ensures
        encode_utf8(a + b) == encode_utf8(a) + encode_utf8(b),
    decreases a.len(),
{
    if a.len() == 0 {
        assert(a + b =~= b);
        assert(encode_utf8(a) =~= Seq::<u8>::empty());
        assert(encode_utf8(a) + encode_utf8(b) =~= encode_utf8(b));
    } else {
        lemma_encode_append(a.drop_first(), b);
        assert((a + b).drop_first() =~= a.drop_first() + b);
        assert((a + b)[0] == a[0]);
        assert(encode_utf8(a + b) =~= encode_utf8(a) + encode_utf8(b));
    }
}

/// A log that only grows may always be polled: where it stood before is the end
/// of a character.
pub proof fn law_growing_log_can_be_polled(sent: Seq<char>, gained: Seq<char>)
    ensures
        is_char_boundary(encode_utf8(sent + gained), encode_utf8(sent).len() as int),
    decreases sent.len(),
{
    let whole = encode_utf8(sent + gained);
    vstd::utf8::encode_utf8_valid_utf8(sent + gained);
    lemma_encode_append(sent, gained);
    if sent.len() == 0 {
        assert(encode_utf8(sent) =~= Seq::<u8>::empty());
    } else {
        law_growing_log_can_be_polled(sent.drop_first(), gained);
        assert((sent + gained).drop_first() =~= sent.drop_first() + gained);
        assert((sent + gained)[0] == sent[0]);
        vstd::utf8::encode_utf8_first_scalar(sent + gained);
        vstd::utf8::encode_utf8_first_scalar(sent);
        assert(vstd::utf8::pop_first_scalar(whole) =~= encode_utf8(sent.drop_first() + gained));
    }
}

/// A log that only grows is sent completely and only once: what was sent before
/// and what is sent next are the whole log.
pub proof fn law_growing_log_is_sent_once(sent: Seq<char>, gained: Seq<char>, chunk: Seq<char>)
    requires
        encode_utf8(chunk) == encode_utf8(sent + gained).skip(encode_utf8(sent).len() as int),
    ensures
        sent + chunk == sent + gained,
{
    lemma_encode_append(sent, gained);
    assert(encode_utf8(sent + gained).skip(encode_utf8(sent).len() as int) =~= encode_utf8(gained));
    vstd::utf8::encode_utf8_decode_utf8(chunk);
    vstd::utf8::encode_utf8_decode_utf8(gained);
}

/// Every line of a log is sent with the build's name and `> ` before it: the first line, and what
/// follows it likewise.
pub proof fn law_every_line_is_labelled(
    name: &str,
    line: Seq<char>,
    rest: &str,
    text: &str,
    r: String,
    tail: String,
)
    requires
        call_ensures(label_lines, (name, text), r),
        call_ensures(label_lines, (name, rest), tail),
        forall|i: int| 0 <= i < line.len() ==> line[i] != '\n',
    ensures
        text@ == line ==> r@ == name@ + "> "@ + line,
        text@ == line + seq!['\n'] + rest@ ==> r@ == name@ + "> "@ + line + seq!['\n'] + tail@,
{
    reveal_strlit("\n");
    assert("\n"@ =~= seq!['\n']);
    crate::text::law_splitting(line, '\n', rest@);
    let f = |l: Seq<char>| name@ + "> "@ + l;
    let less = split_spec(rest@, '\n').map_values(f);
    crate::text::law_joining(f(line), less, "\n"@);
    assert(seq![line].map_values(f) =~= seq![f(line)]);
    assert((seq![line] + split_spec(rest@, '\n')).map_values(f) =~= seq![f(line)] + less);
    assert(split_spec(rest@, '\n').len() > 0) by {
        crate::text::lemma_position_bounds(rest@, '\n');
    }
}

/// The whole log of a build goes out under the name of its derivation, which is the part of the
/// file name behind the hash, without the `.drv`.
pub proof fn law_builds_are_labelled_by_name(
    dir: Seq<char>,
    hash: Seq<char>,
    name: Seq<char>,
    path: &str,
    r: String,
)
    requires
        call_ensures(drv_display_name, (path,), r),
        path@ == dir + seq!['/'] + hash + seq!['-'] + name + ".drv"@,
        forall|k: int| 0 <= k < hash.len() ==> hash[k] != '/' && hash[k] != '-',
        forall|k: int| 0 <= k < name.len() ==> name[k] != '/',
    ensures
        r@ == name,
{
    crate::evals::builds::lemma_list_name(dir, hash, name);
    crate::evals::names::law_display_names_agree(path@);
}

/// A log stream opens for members of the organization that see the evaluation, and for nobody
/// else; it starts with nothing sent. What the caller cannot see is answered as it was, and to
/// who is no member the evaluation is not there.
pub proof fn law_log_streams_open_for_members(
    ctx: WebResult<EvalAccessContext>,
    is_member: bool,
    r: WebResult<LogStream>,
    build: Id,
)
    requires
        call_ensures(post_evaluation_builds, (ctx, is_member), r),
    ensures
        r is Ok <==> ctx is Ok && is_member,
        r matches Ok(s) ==> s.sent(build) == 0,
        r is Err && ctx is Err ==> r->Err_0@ == ctx->Err_0@,
        r is Err && ctx is Ok ==> (r matches Err(WebError::NotFound(ErrorCode::NOT_FOUND, m)) && m@
            == "Evaluation"@ + " not found"@),
{
}

/// A stream waits while a build is still to come, and ends otherwise.
pub proof fn law_streams_end(
    pending: bool,
    r: IdleStep,
)
    requires
        call_ensures(LogStream::idle, (pending,), r),
    ensures
        pending ==> r is Wait,
        !pending ==> r is Finish,
{
}

} // verus!
