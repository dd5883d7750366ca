//! Downloads of build artefacts.

use crate::config::{content_type_for_filename, content_type_spec, extension_of};
use crate::error::{ErrorCode, ErrorModel, WebError, WebResult};
use crate::helpers::Id;
use crate::paths::{basename, file_name};
use crate::rows::{find_first, first_index};
use crate::status::BuildStatus;
use crate::text::{cat, cat3, same, skip, starts_with, strip_prefix, trim_start_text};
use vstd::prelude::*;

verus! {

// ── Choosing an artefact ─────────────────────────────────────────────────────

/// A product of a build, as the database holds it.
pub struct ProductRow {
    /// The output it belongs to.
    pub derivation_output: Id,
    pub name: String,
    pub path: String,
    pub subtype: String,
}

/// An output of the build.
pub struct ArtifactOutput {
    pub id: Id,
    /// The store path of the output.
    pub root: String,
    /// The hash under which its archive is stored; empty when there is none.
    pub hash: String,
}

/// Where an artefact may be: a file or directory in the archive of an output.
pub struct ArtifactCandidate {
    pub hash: String,
    /// The path inside the archive.
    pub rel: String,
    /// Whether a browser shows the file instead of saving it.
    pub inline: bool,
}

/// What an [`ArtifactCandidate`] says.
#[verifier::ext_equal]
pub ghost struct CandidateModel {
    pub hash: Seq<char>,
    pub rel: Seq<char>,
    pub inline: bool,
}

impl View for ArtifactCandidate {
    type V = CandidateModel;

    open spec fn view(&self) -> CandidateModel {
        CandidateModel { hash: self.hash@, rel: self.rel@, inline: self.inline }
    }
}

/// The views of a list of candidates.
pub open spec fn candidate_views(v: Seq<ArtifactCandidate>) -> Seq<CandidateModel> {
    Seq::new(v.len(), |i: int| v[i]@)
}

/// `s` without its leading slashes.
pub open spec fn without_leading_slashes(s: Seq<char>) -> Seq<char>
    decreases s.len(),
{
    if s.len() > 0 && s[0] == '/' {
        without_leading_slashes(s.drop_first())
    } else {
        s
    }
}

/// The path inside the archive of the output at `root`.
pub open spec fn path_in_output(path: Seq<char>, root: Seq<char>) -> Seq<char> {
    let prefix = root + "/"@;
    if starts_with(path, prefix) {
        skip(path, prefix.len() as int)
    } else {
        without_leading_slashes(path)
    }
}

/// The product goes by the name `filename`: it has that name, or its path ends
/// in it.
pub open spec fn goes_by(p: ProductRow, filename: Seq<char>) -> bool {
    p.name@ == filename || (match basename(p.path@) {
        Some(b) => b,
        None => Seq::empty(),
    }) == filename
}

/// The identifiers of outputs.
pub open spec fn artifact_output_ids(outputs: Seq<ArtifactOutput>) -> Seq<Id> {
    outputs.map_values(|o: ArtifactOutput| o.id)
}

/// Where the product `p` may be found under the name `filename`; nowhere when it
/// goes by another name, or its output is unknown or has no archive.
pub open spec fn candidate_of(
    p: ProductRow,
    outputs: Seq<ArtifactOutput>,
    filename: Seq<char>,
) -> Option<CandidateModel> {
    if !goes_by(p, filename) {
        None
    } else {
        match first_index(artifact_output_ids(outputs), p.derivation_output) {
            Some(k) if outputs[k].hash@.len() > 0 => Some(
                CandidateModel {
                    hash: outputs[k].hash@,
                    rel: path_in_output(p.path@, outputs[k].root@),
                    inline: p.subtype@ == "html"@,
                },
            ),
            _ => None,
        }
    }
}

/// Where an artefact may be found, in the order in which to look.
pub open spec fn candidates_of(
    products: Seq<ProductRow>,
    outputs: Seq<ArtifactOutput>,
    filename: Seq<char>,
) -> Seq<CandidateModel>
    decreases products.len(),
{
    if products.len() == 0 {
        Seq::empty()
    } else {
        let before = candidates_of(products.drop_last(), outputs, filename);
        match candidate_of(products.last(), outputs, filename) {
            Some(c) => before.push(c),
            None => before,
        }
    }
}

proof fn lemma_leading_slashes(s: Seq<char>)
    ensures
        without_leading_slashes(s) == crate::text::without_leading(s, "/"@),
    decreases s.len(),
{
    reveal_strlit("/");
    if s.len() > 0 && s[0] == '/' {
        lemma_leading_slashes(s.drop_first());
        assert(s.subrange(0, 1) =~= "/"@);
        assert(skip(s, 1) =~= s.drop_first());
    } else if starts_with(s, "/"@) {
        assert(s.subrange(0, 1)[0] == '/');
    }
}

fn named(p: &ProductRow, filename: &str) -> (r: bool)
    ensures
        r == goes_by(*p, filename@),
{
    if same(p.name.as_str(), filename) {
        return true;
    }
    match file_name(p.path.as_str()) {
        Some(b) => same(b, filename),
        None => {
            let empty = String::new();
            assert(empty@ =~= Seq::<char>::empty());
            same(empty.as_str(), filename)
        },
    }
}

/// Where the artefact `filename` may be found among the products of a build.
pub fn artifact_candidates(
    products: &Vec<ProductRow>,
    outputs: &Vec<ArtifactOutput>,
    filename: &str,
) -> (r: Vec<ArtifactCandidate>)
    ensures
        candidate_views(r@) == candidates_of(products@, outputs@, filename@),
{
    let mut ids: Vec<Id> = Vec::new();
    let mut o: usize = 0;
    while o < outputs.len()
        invariant
            o <= outputs.len(),
            ids@ == artifact_output_ids(outputs@).take(o as int),
        decreases outputs.len() - o,
    {
        ids.push(outputs[o].id);
        o += 1;
    }
    assert(artifact_output_ids(outputs@).take(o as int) =~= artifact_output_ids(outputs@));
    let mut out: Vec<ArtifactCandidate> = Vec::new();
    let mut i: usize = 0;
    proof {
        assert(products@.take(0) =~= Seq::<ProductRow>::empty());
        assert(candidate_views(out@) =~= Seq::<CandidateModel>::empty());
    }
    while i < products.len()
        invariant
            i <= products.len(),
            ids@ == artifact_output_ids(outputs@),
            candidate_views(out@) == candidates_of(products@.take(i as int), outputs@, filename@),
        decreases products.len() - i,
    {
        let p = &products[i];
        let ghost before = candidate_views(out@);
        proof {
            assert(products@.take(i as int + 1).drop_last() =~= products@.take(i as int));
            assert(products@.take(i as int + 1).last() == products@[i as int]);
        }
        if named(p, filename) {
            if let Some(k) = find_first(&ids, p.derivation_output) {
                let output = &outputs[k];
                if output.hash.as_str().unicode_len() > 0 {
                    let prefix = cat(output.root.as_str(), "/");
                    let rel = match strip_prefix(p.path.as_str(), prefix.as_str()) {
                        Some(t) => t.to_owned(),
                        None => {
                            proof {
                                reveal_strlit("/");
                                lemma_leading_slashes(p.path@);
                            }
                            trim_start_text(p.path.as_str(), "/").to_owned()
                        },
                    };
                    let c = ArtifactCandidate {
                        hash: output.hash.clone(),
                        rel,
                        inline: same(p.subtype.as_str(), "html"),
                    };
                    let ghost m = c@;
                    out.push(c);
                    assert(candidate_views(out@) =~= before.push(m));
                }
            }
        }
        i += 1;
    }
    assert(products@.take(i as int) =~= products@);
    out
}

// ── Serving it ───────────────────────────────────────────────────────────────

/// What was found at a candidate.
#[derive(Debug, Clone, Copy, PartialEq, Eq, Structural)]
pub enum Extraction {
    /// The archive is not there or could not be read.
    NoArchive,
    File,
    Directory,
    /// The archive does not hold the path.
    NotFound,
    /// The archive could not be unpacked.
    Failed,
}

/// How an artefact is sent.
pub struct ArtifactHeaders {
    pub content_type: &'static str,
    pub content_disposition: String,
}

/// `h` are the headers for the file `filename`.
pub open spec fn file_headers(h: ArtifactHeaders, filename: Seq<char>, inline: bool) -> bool {
    &&& h.content_type@ == content_type_spec(extension_of(filename))
    &&& h.content_disposition@ == if inline {
        "inline"@
    } else {
        "attachment; filename=\""@ + filename + "\""@
    }
}

/// `h` are the headers for the directory `filename`, packed into an archive.
pub open spec fn directory_headers(h: ArtifactHeaders, filename: Seq<char>) -> bool {
    &&& h.content_type@ == "application/zstd"@
    &&& h.content_disposition@ == "attachment; filename=\""@ + (filename + ".tar.zst"@) + "\""@
}

/// A candidate that decides the answer: it was found, or unpacking it failed.
pub open spec fn decides(e: Extraction) -> bool {
    e is File || e is Directory || e is Failed
}

/// The position of the first candidate that decides.
pub open spec fn deciding(found: Seq<Extraction>) -> int
    decreases found.len(),
{
    if found.len() == 0 || decides(found[0]) {
        0
    } else {
        1 + deciding(found.drop_first())
    }
}

proof fn lemma_deciding(found: Seq<Extraction>)
    ensures
        0 <= deciding(found) <= found.len(),
        forall|j: int| 0 <= j < deciding(found) ==> !decides(#[trigger] found[j]),
        deciding(found) < found.len() ==> decides(found[deciding(found)]),
    decreases found.len(),
{
    if found.len() > 0 && !decides(found[0]) {
        let rest = found.drop_first();
        lemma_deciding(rest);
        assert forall|j: int| 0 <= j < deciding(found) implies !decides(#[trigger] found[j]) by {
            if j > 0 {
                assert(found[j] == rest[j - 1]);
            }
        }
    }
}

/// The answer to a request for the artefact `filename`, whose candidates were
/// looked up in order and came to `found`: which candidate to send and how, or
/// nothing when none was found. Only as many candidates need to be looked up as
/// it takes for one to decide.
pub fn serve_hydra_artifact(
    candidates: &Vec<ArtifactCandidate>,
    found: &Vec<Extraction>,
    filename: &str,
) -> (r: WebResult<Option<(usize, ArtifactHeaders)>>)
    requires
        found@.len() <= candidates@.len(),
    ensures
        ({
            let k = deciding(found@);
            if k == found@.len() {
                r matches Ok(None)
            } else if found@[k] is File {
                r matches Ok(Some((i, h))) && i == k && file_headers(
                    h,
                    filename@,
                    candidates@[k].inline,
                )
            } else if found@[k] is Directory {
                r matches Ok(Some((i, h))) && i == k && directory_headers(h, filename@)
            } else {
                r matches Err(e) && e@ == ErrorModel::internal("Failed to extract path from NAR"@)
            }
        }),
{
    proof {
        lemma_deciding(found@);
    }
    let ghost k = deciding(found@);
    let mut i: usize = 0;
    while i < found.len()
        invariant
            i <= found.len(),
            found@.len() <= candidates@.len(),
            i <= k,
            k == deciding(found@),
            0 <= k <= found@.len(),
            forall|j: int| 0 <= j < k ==> !decides(#[trigger] found@[j]),
            k < found@.len() ==> decides(found@[k]),
        decreases found.len() - i,
    {
        match found[i] {
            Extraction::File => {
                let content_disposition = if candidates[i].inline {
                    "inline".to_owned()
                } else {
                    cat3("attachment; filename=\"", filename, "\"")
                };
                return Ok(
                    Some(
                        (
                            i,
                            ArtifactHeaders {
                                content_type: content_type_for_filename(filename),
                                content_disposition,
                            },
                        ),
                    ),
                );
            },
            Extraction::Directory => {
                let archive = cat(filename, ".tar.zst");
                return Ok(
                    Some(
                        (
                            i,
                            ArtifactHeaders {
                                content_type: "application/zstd",
                                content_disposition: cat3(
                                    "attachment; filename=\"",
                                    archive.as_str(),
                                    "\"",
                                ),
                            },
                        ),
                    ),
                );
            },
            Extraction::Failed => {
                return Err(WebError::internal("Failed to extract path from NAR"));
            },
            Extraction::NoArchive | Extraction::NotFound => {},
        }
        i += 1;
    }
    Ok(None)
}

// ── Who may download ─────────────────────────────────────────────────────────

/// The session or token that a download comes with.
#[derive(Debug, Clone, Copy, PartialEq, Eq, Structural)]
pub enum Credential {
    /// No token was given.
    Session,
    /// The token could not be decoded.
    InvalidToken,
    /// The token is an API key that may not be used from this address.
    ForbiddenSource,
    Token,
}

/// Whether a download is let in. `member` is `None` when nobody is logged in,
/// and else says whether the user is a member of the organization.
pub fn admit_entry_point_download(
    org_found: bool,
    project_found: bool,
    credential: Credential,
    org_public: bool,
    member: Option<bool>,
) -> (r: WebResult<()>)
    ensures
        r is Ok <==> org_found && project_found && (credential is Session || credential is Token)
            && (org_public || member == Some(true)),
        r matches Err(e) ==> e@ == if !org_found {
            ErrorModel::not_found("Organization"@)
        } else if !project_found {
            ErrorModel::not_found("Project"@)
        } else if credential is InvalidToken {
            ErrorModel::unauthorized("Invalid token"@)
        } else if credential is ForbiddenSource {
            ErrorModel::forbidden_with(
                ErrorCode::FORBIDDEN_SOURCE_IP,
                "API key not allowed from this source IP"@,
            )
        } else if member is Some {
            ErrorModel::not_found("Project"@)
        } else {
            ErrorModel::unauthorized("Authorization required"@)
        },
{
    if !org_found {
        return Err(WebError::not_found("Organization"));
    }
    if !project_found {
        return Err(WebError::not_found("Project"));
    }
    match credential {
        Credential::InvalidToken => {
            return Err(WebError::unauthorized("Invalid token"));
        },
        Credential::ForbiddenSource => {
            return Err(
                WebError::forbidden_with(
                    ErrorCode::FORBIDDEN_SOURCE_IP,
                    "API key not allowed from this source IP",
                ),
            );
        },
        _ => {},
    }
    if !org_public {
        match member {
            Some(true) => {},
            Some(false) => {
                return Err(WebError::not_found("Project"));
            },
            None => {
                return Err(WebError::unauthorized("Authorization required"));
            },
        }
    }
    Ok(())
}

/// Whether the latest evaluation of a project has a build to download from: the
/// evaluation, the entry point and its build have to be there, and the build has
/// to have succeeded.
pub fn entry_point_build(
    evaluation_found: bool,
    entry_point_found: bool,
    build: Option<BuildStatus>,
) -> (r: WebResult<()>)
    ensures
        r is Ok <==> evaluation_found && entry_point_found && build is Some
            && build->0.succeeded(),
        r matches Err(e) ==> e@ == if !evaluation_found {
            ErrorModel::not_found("Evaluation"@)
        } else if !entry_point_found {
            ErrorModel::not_found("Entry point"@)
        } else if build is None {
            ErrorModel::not_found("Build"@)
        } else {
            ErrorModel::not_found("File"@)
        },
{
    if !evaluation_found {
        return Err(WebError::not_found("Evaluation"));
    }
    if !entry_point_found {
        return Err(WebError::not_found("Entry point"));
    }
    match build {
        None => Err(WebError::not_found("Build")),
        Some(status) => if status.is_success() {
            Ok(())
        } else {
            Err(WebError::not_found("File"))
        },
    }
}

/// Who asks for a download, and from what.
pub struct DownloadLookup {
    pub org_found: bool,
    pub project_found: bool,
    pub credential: Credential,
    pub org_public: bool,
    /// Whether the caller is a member of the organization; none where there is no caller.
    pub member: Option<bool>,
    pub evaluation_found: bool,
    pub entry_point_found: bool,
    pub build: Option<BuildStatus>,
}

/// Why a download is refused before a file is looked for.
pub open spec fn download_error(d: DownloadLookup) -> Option<ErrorModel> {
    if !d.org_found {
        Some(ErrorModel::not_found("Organization"@))
    } else if !d.project_found {
        Some(ErrorModel::not_found("Project"@))
    } else if d.credential is InvalidToken {
        Some(ErrorModel::unauthorized("Invalid token"@))
    } else if d.credential is ForbiddenSource {
        Some(
            ErrorModel::forbidden_with(
                ErrorCode::FORBIDDEN_SOURCE_IP,
                "API key not allowed from this source IP"@,
            ),
        )
    } else if !d.org_public && d.member != Some(true) && d.member is Some {
        Some(ErrorModel::not_found("Project"@))
    } else if !d.org_public && d.member is None {
        Some(ErrorModel::unauthorized("Authorization required"@))
    } else if !d.evaluation_found {
        Some(ErrorModel::not_found("Evaluation"@))
    } else if !d.entry_point_found {
        Some(ErrorModel::not_found("Entry point"@))
    } else if d.build is None {
        Some(ErrorModel::not_found("Build"@))
    } else if !d.build->0.succeeded() {
        Some(ErrorModel::not_found("File"@))
    } else {
        None
    }
}

/// The artefact that a download sends. The caller has to be admitted and the build to
/// have succeeded before a file is looked for; `served` is what the search came to.
pub fn get_entry_point_download(
    lookup: &DownloadLookup,
    served: WebResult<Option<(usize, ArtifactHeaders)>>,
) -> (r: WebResult<(usize, ArtifactHeaders)>)
    ensures
        match download_error(*lookup) {
            Some(refusal) => r matches Err(e) && e@ == refusal,
            None => match served {
                Ok(Some(x)) => r == Ok::<(usize, ArtifactHeaders), WebError>(x),
                Ok(None) => r matches Err(e) && e@ == ErrorModel::not_found("File"@),
                Err(f) => r matches Err(e) && e@ == f@,
            },
        },
{
    if let Err(e) = admit_entry_point_download(
        lookup.org_found,
        lookup.project_found,
        lookup.credential,
        lookup.org_public,
        lookup.member,
    ) {
        return Err(e);
    }
    if let Err(e) = entry_point_build(
        lookup.evaluation_found,
        lookup.entry_point_found,
        lookup.build,
    ) {
        return Err(e);
    }
    match served {
        Ok(Some(x)) => Ok(x),
        Ok(None) => Err(WebError::not_found("File")),
        Err(e) => Err(e),
    }
}

/// One more product adds a place to look when it goes by the name asked for, or its path ends
/// in it, and the first output with its identifier has an archive; the place is the path below
/// the root of that output, or the path without its leading slashes. Pages are shown,
/// everything else is saved.
pub proof fn law_where_artifacts_are(
    products: Vec<ProductRow>,
    more: Vec<ProductRow>,
    p: ProductRow,
    outputs: Vec<ArtifactOutput>,
    filename: &str,
    r: Vec<ArtifactCandidate>,
    s: Vec<ArtifactCandidate>,
    path: &str,
    base: Option<&str>,
    k: int,
    i: int,
    rest: Seq<char>,
    slashes: nat,
)
    requires
        more@ == products@.push(p),
        path@ == p.path@,
        call_ensures(artifact_candidates, (&products, &outputs, filename), r),
        call_ensures(artifact_candidates, (&more, &outputs, filename), s),
        call_ensures(file_name, (path,), base),
    ensures
        products@.len() == 0 ==> r@.len() == 0,
        0 <= i < r@.len() ==> i < s@.len() && s@[i].hash@ == r@[i].hash@ && s@[i].rel@ == r@[i].rel@
            && s@[i].inline == r@[i].inline,
        ({
            let called = p.name@ == filename@ || (base is Some && base->0@ == filename@)
                || (base is None
                && filename@.len() == 0);
            &&& !called ==> s@.len() == r@.len()
            &&& (forall|j: int|
                0 <= j < outputs@.len() ==> (#[trigger] outputs@[j]).id != p.derivation_output)
                ==> s@.len() == r@.len()
            &&& 0 <= k < outputs@.len() && outputs@[k].id == p.derivation_output && (forall|j: int|
                0 <= j < k ==> (#[trigger] outputs@[j]).id != p.derivation_output) ==> {
                &&& outputs@[k].hash@.len() == 0 ==> s@.len() == r@.len()
                &&& called && outputs@[k].hash@.len() > 0 ==> {
                    let c = s@.last();
                    &&& s@.len() == r@.len() + 1
                    &&& c.hash@ == outputs@[k].hash@
                    &&& c.inline <==> p.subtype@ == "html"@
                    &&& p.path@ == outputs@[k].root@ + "/"@ + rest ==> c.rel@ == rest
                    &&& p.path@ == Seq::new(slashes, |n: int| '/') + rest && (rest.len() == 0
                        || rest[0] != '/') && !starts_with(p.path@, outputs@[k].root@ + "/"@)
                        ==> c.rel@ == rest
                }
            }
        }),
{
    assert(more@.drop_last() =~= products@);
    let before = candidate_views(r@);
    let after = candidate_views(s@);
    assert(before.len() == r@.len() && after.len() == s@.len());
    let c = candidate_of(p, outputs@, filename@);
    assert(after == (match c {
        Some(m) => before.push(m),
        None => before,
    }));
    if 0 <= i < r@.len() {
        assert(after[i] == before[i]);
        assert(after[i] == s@[i]@ && before[i] == r@[i]@);
    }
    let ids = artifact_output_ids(outputs@);
    let id = p.derivation_output;
    crate::rows::lemma_first_index(ids, id);
    assert(filename@.len() == 0 ==> filename@ =~= Seq::<char>::empty());
    match first_index(ids, id) {
        Some(n) => {
            assert(ids[n] == outputs@[n].id);
        },
        None => {},
    }
    if 0 <= k < outputs@.len() && outputs@[k].id == id && (forall|j: int|
        0 <= j < k ==> (#[trigger] outputs@[j]).id != id) {
        assert(ids[k] == id);
        assert(first_index(ids, id) is Some);
        let n = first_index(ids, id)->0;
        if n > k {
            assert(ids[k] != id);
        }
        assert(n == k);
        if c is Some {
            assert(s@.last()@ == after.last());
            let root = outputs@[k].root@ + "/"@;
            if p.path@ == root + rest {
                assert(p.path@.subrange(0, root.len() as int) =~= root);
                assert(skip(p.path@, root.len() as int) =~= rest);
            }
            if p.path@ == Seq::new(slashes, |n: int| '/') + rest && (rest.len() == 0 || rest[0]
                != '/') {
                lemma_slashes_are_dropped(slashes, rest);
            }
        }
    }
}

proof fn lemma_slashes_are_dropped(n: nat, rest: Seq<char>)
    requires
        rest.len() == 0 || rest[0] != '/',
    ensures
        without_leading_slashes(Seq::new(n, |i: int| '/') + rest) == rest,
    decreases n,
{
    let s = Seq::new(n, |i: int| '/') + rest;
    if n > 0 {
        let m = (n - 1) as nat;
        lemma_slashes_are_dropped(m, rest);
        assert(s.drop_first() =~= Seq::new(m, |i: int| '/') + rest);
        assert(s[0] == '/');
    } else {
        assert(s =~= rest);
    }
}

/// The first place where something was found decides: a file is sent as what its name says and
/// is saved under it unless it is a page, a directory is packed and saved, and a failure to
/// unpack is told. Nothing is sent where nothing was found.
pub proof fn law_artifacts_that_are_sent(
    candidates: Vec<ArtifactCandidate>,
    found: Vec<Extraction>,
    filename: &str,
    r: WebResult<Option<(usize, ArtifactHeaders)>>,
    kind: &'static str,
    k: int,
)
    requires
        found@.len() <= candidates@.len(),
        0 <= k <= found@.len(),
        forall|j: int|
            0 <= j < k ==> (#[trigger] found@[j]) is NoArchive || found@[j] is NotFound,
        call_ensures(serve_hydra_artifact, (&candidates, &found, filename), r),
        call_ensures(content_type_for_filename, (filename,), kind),
    ensures
        k == found@.len() ==> (r matches Ok(None)),
        k < found@.len() && found@[k] is File ==> (r matches Ok(Some((i, h))) && i == k
            && h.content_type@ == kind@ && (candidates@[k].inline ==> h.content_disposition@
            == "inline"@) && (!candidates@[k].inline ==> h.content_disposition@
            == "attachment; filename=\""@ + filename@ + "\""@)),
        k < found@.len() && found@[k] is Directory ==> (r matches Ok(Some((i, h))) && i == k
            && h.content_type@ == "application/zstd"@ && h.content_disposition@
            == "attachment; filename=\""@ + (filename@ + ".tar.zst"@) + "\""@),
        k < found@.len() && found@[k] is Failed
            ==> (r matches Err(WebError::Internal(m)) && m@ == "Failed to extract path from NAR"@),
{
    lemma_deciding(found@);
    let d = deciding(found@);
    if d < k {
        assert(decides(found@[d]));
    }
    if k < found@.len() && decides(found@[k]) && d > k {
        assert(!decides(found@[k]));
    }
}

/// A download takes a known organization and project, a session or a good token, and an
/// organization that is public or has the caller as a member; its build a known evaluation and
/// entry point, and success. The first that lacks is named.
pub proof fn law_downloads_that_are_let_in(
    lookup: DownloadLookup,
    served: WebResult<Option<(usize, ArtifactHeaders)>>,
    r: WebResult<(usize, ArtifactHeaders)>,
)
    requires
        call_ensures(get_entry_point_download, (&lookup, served), r),
    ensures
        ({
            let known = lookup.org_found && lookup.project_found;
            let token = lookup.credential is Session || lookup.credential is Token;
            let member = lookup.org_public || (lookup.member is Some && lookup.member->0);
            let admitted = known && token && member;
            let built = lookup.evaluation_found && lookup.entry_point_found && lookup.build is Some
                && (
            lookup.build->0 is Completed || lookup.build->0 is Substituted);
            &&& r is Ok <==> admitted && built && served is Ok && served->Ok_0 is Some
            &&& r is Ok ==> r->Ok_0 == served->Ok_0->0
            &&& !lookup.org_found ==> (r matches Err(WebError::NotFound(c, m))
                && c == ErrorCode::NOT_FOUND && m@ == "Organization"@ + " not found"@)
            &&& lookup.org_found && !lookup.project_found
                ==> (r matches Err(WebError::NotFound(c, m)) && c == ErrorCode::NOT_FOUND
                && m@ == "Project"@ + " not found"@)
            &&& known && lookup.credential is InvalidToken
                ==> (r matches Err(WebError::Unauthorized(c, m)) && c == ErrorCode::UNAUTHORIZED
                && m@ == "Invalid token"@)
            &&& known && lookup.credential is ForbiddenSource
                ==> (r matches Err(WebError::Forbidden(c, m)) && c == ErrorCode::FORBIDDEN_SOURCE_IP
                && m@ == "API key not allowed from this source IP"@)
            &&& known && token && !member && lookup.member is Some
                ==> (r matches Err(WebError::NotFound(c, m)) && c == ErrorCode::NOT_FOUND
                && m@ == "Project"@ + " not found"@)
            &&& known && token && !member && lookup.member is None
                ==> (r matches Err(WebError::Unauthorized(c, m)) && c == ErrorCode::UNAUTHORIZED
                && m@ == "Authorization required"@)
            &&& admitted && !lookup.evaluation_found
                ==> (r matches Err(WebError::NotFound(c, m)) && c == ErrorCode::NOT_FOUND
                && m@ == "Evaluation"@ + " not found"@)
            &&& admitted && lookup.evaluation_found && !lookup.entry_point_found
                ==> (r matches Err(WebError::NotFound(c, m)) && c == ErrorCode::NOT_FOUND
                && m@ == "Entry point"@ + " not found"@)
            &&& admitted && lookup.evaluation_found && lookup.entry_point_found
                && lookup.build is None
                ==> (r matches Err(WebError::NotFound(c, m)) && c == ErrorCode::NOT_FOUND
                    && m@ == "Build"@ + " not found"@)
            &&& admitted && lookup.evaluation_found && lookup.entry_point_found
                && lookup.build is Some
                && !built ==> (r matches Err(WebError::NotFound(c, m)) && c == ErrorCode::NOT_FOUND
                    && m@ == "File"@ + " not found"@)
            &&& admitted && built && (served matches Ok(None))
                ==> (r matches Err(WebError::NotFound(c, m)) && c == ErrorCode::NOT_FOUND
                && m@ == "File"@ + " not found"@)
            &&& admitted && built && served is Err ==> r is Err && r->Err_0@ == served->Err_0@
        }),
{
}

} // verus!
