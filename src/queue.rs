use vstd::prelude::*;
use crate::commit::CommitId;

verus! {

/// Whether a branch is local or remote, with what only that kind has.
#[derive(Clone, Debug)]
pub enum BranchDetails {
    Local { has_upstream: bool, upstream_ref: Option<String>, is_head: bool },
    Remote { has_tracking: bool },
}

/// A branch: its name, full reference, top commit and its summary.
#[derive(Clone, Debug)]
pub struct BranchInfo {
    pub name: String,
    pub reference: String,
    pub top_commit_message: String,
    pub top_commit: CommitId,
    pub details: BranchDetails,
}

/// Events that a view queues for itself.
#[derive(Clone, Debug)]
pub enum LocalEvent {
    PickBranch(BranchInfo),
}

/// A view's own event queue, oldest first.
pub fn create_local_queue() -> (r: std::collections::VecDeque<LocalEvent>)
    ensures
        r@.len() == 0,
{
    std::collections::VecDeque::new()
}

/// An item that is to be reset.
#[derive(Clone, Debug)]
pub struct ResetItem {
    /// path to the item (folder/file)
    pub path: String,
    /// whether the item is a folder rather than a single file
    pub is_folder: bool,
}

/// A line of a diff by its numbers in the old and the new file.
#[derive(Clone, Copy, Debug, PartialEq, Eq, Structural)]
pub struct DiffLinePosition {
    pub old_lineno: Option<u32>,
    pub new_lineno: Option<u32>,
}

/// An action that asks for confirmation first.
#[derive(Clone, Debug)]
pub enum Action {
    Reset(ResetItem),
    ResetHunk(String, u64),
    ResetLines(String, Vec<DiffLinePosition>),
    StashDrop(Vec<CommitId>),
    StashPop(CommitId),
    DeleteLocalBranch(String),
    DeleteRemoteBranch(String),
    DeleteTag(String),
    DeleteRemoteTag(String, String),
    ForcePush(String, bool),
    PullMerge { incoming: usize, rebase: bool },
    AbortMerge,
    AbortRebase,
    AbortRevert,
}

/// What the blame view is asked to open: a file, optionally at a commit,
/// optionally with a line selected.
#[derive(Clone, Debug)]
pub struct BlameFileOpen {
    pub file_path: String,
    pub commit_id: Option<CommitId>,
    pub selection: Option<usize>,
}

/// The commits whose details the copy popup offers to copy.
#[derive(Clone, Debug)]
pub struct CopyClipboardOpen {
    pub commit_ids: Vec<CommitId>,
}

impl CopyClipboardOpen {
    pub fn from_commit(c: CommitId) -> (r: Self)
        ensures
            r.commit_ids@ == seq![c],
    {
        let mut commit_ids: Vec<CommitId> = Vec::new();
        commit_ids.push(c);
        CopyClipboardOpen { commit_ids }
    }

    pub fn new(commit_ids: Vec<CommitId>) -> (r: Self)
        ensures
            r.commit_ids == commit_ids,
    {
        CopyClipboardOpen { commit_ids }
    }
}

} // verus!
