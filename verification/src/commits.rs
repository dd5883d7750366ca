//! Commits.

use crate::error::{ErrorCode, ErrorModel, WebError, WebResult};
use crate::helpers::{Id, OptionExt};
use vstd::prelude::*;

verus! {

/// A commit, as the database holds it.
#[derive(Debug, PartialEq, Eq)]
pub struct CommitRow {
    pub id: Id,
    pub message: String,
    pub hash: Vec<u8>,
    pub author: Option<Id>,
    pub author_name: String,
}

/// The commit that a request names.
pub fn get_commit(commit: Option<CommitRow>) -> (r: WebResult<CommitRow>)
    ensures
        match r {
            Ok(c) => commit == Some(c),
            Err(e) => commit is None && e@ == ErrorModel::not_found("Commit"@),
        },
{
    commit.or_not_found("Commit")
}

/// A commit is answered where there is one.
pub proof fn law_known_commits(
    commit: Option<CommitRow>,
    r: WebResult<CommitRow>,
)
    requires
        call_ensures(get_commit, (commit,), r),
    ensures
        commit is Some ==> r is Ok && r->Ok_0 == commit->0,
        commit is None ==> (r matches Err(WebError::NotFound(c, m)) && c == ErrorCode::NOT_FOUND
            && m@ == "Commit"@ + " not found"@),
{
}

} // verus!
