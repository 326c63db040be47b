use vstd::prelude::*;
use vstd::string::StringExecFns;

use crate::commit::{no_bookmark_message, Commit, CommitView};
use crate::github::PullRequest;
use crate::stack::{changes_view, Change, ChangeView};

verus! {

/// How a change's bookmark stands on the code-hosting service.
pub enum RemoteState {
    /// No pull request exists for the bookmark yet.
    NoRemote,
    /// The pull request already points at the change's head.
    Unchanged,
    /// The pull request points at another commit, given by its identifier.
    Diverged(String),
}

pub enum RemoteStateView {
    NoRemote,
    Unchanged,
    Diverged(Seq<char>),
}

impl View for RemoteState {
    type V = RemoteStateView;

    open spec fn view(&self) -> RemoteStateView {
        match self {
            RemoteState::NoRemote => RemoteStateView::NoRemote,
            RemoteState::Unchanged => RemoteStateView::Unchanged,
            RemoteState::Diverged(id) => RemoteStateView::Diverged(id@),
        }
    }
}

/// The state of a change whose head is `head`, given the commit its pull
/// request points at, if it has one.
pub open spec fn remote_state_of(head: CommitView, remote_head: Option<Seq<char>>) -> RemoteStateView {
    match remote_head {
        None => RemoteStateView::NoRemote,
        Some(id) => if id == head.node {
            RemoteStateView::Unchanged
        } else {
            RemoteStateView::Diverged(id)
        },
    }
}

pub open spec fn remote_head_of(pr: Option<PullRequest>) -> Option<Seq<char>> {
    match pr {
        None => None,
        Some(p) => Some(p.head_ref_oid@),
    }
}

/// Compares the pull request found for a change's bookmark with its head.
pub fn remote_state(head: &Commit, pr: &Option<PullRequest>) -> (r: RemoteState)
    ensures
        r@ == remote_state_of(head@, remote_head_of(*pr)),
{
    match pr {
        None => RemoteState::NoRemote,
        Some(p) => if p.head_ref_oid == head.node {
            RemoteState::Unchanged
        } else {
            RemoteState::Diverged(p.head_ref_oid.clone())
        },
    }
}

/// The remote branch a bookmark is pushed to.
pub open spec fn remote_branch(name: Seq<char>) -> Seq<char> {
    "remote/"@ + name
}

/// The journal to record for a change before it is pushed, or `None` when
/// the pull request already holds its head. Without a pull request the
/// journal starts afresh; otherwise the change is appended to the journal
/// `prior` read from the pull request's current head.
pub open spec fn journal_after(
    state: RemoteStateView,
    change: ChangeView,
    prior: Seq<ChangeView>,
) -> Option<Seq<ChangeView>> {
    match state {
        RemoteStateView::Unchanged => None,
        RemoteStateView::NoRemote => Some(seq![change]),
        RemoteStateView::Diverged(_) => Some(prior.push(change)),
    }
}

/// What synchronizing one change does: write `journal` as the note of
/// `note_node`, then force-push `push_node` to `branch`.
pub struct SyncPlan {
    pub note_node: String,
    pub journal: Vec<Change>,
    pub push_node: String,
    pub branch: String,
}

pub struct SyncPlanView {
    pub note_node: Seq<char>,
    pub journal: Seq<ChangeView>,
    pub push_node: Seq<char>,
    pub branch: Seq<char>,
}

impl View for SyncPlan {
    type V = SyncPlanView;

    open spec fn view(&self) -> SyncPlanView {
        SyncPlanView {
            note_node: self.note_node@,
            journal: changes_view(self.journal@),
            push_node: self.push_node@,
            branch: self.branch@,
        }
    }
}

/// The plan for a change that must be pushed: the journal goes on the new
/// head, which is then pushed to the bookmark's remote branch.
pub open spec fn plan_of(
    state: RemoteStateView,
    change: ChangeView,
    prior: Seq<ChangeView>,
) -> Option<SyncPlanView> {
    match journal_after(state, change, prior) {
        None => None,
        Some(journal) => Some(
            SyncPlanView {
                note_node: change.head.node,
                journal,
                push_node: change.head.node,
                branch: remote_branch(change.head.name()),
            },
        ),
    }
}

/// Decides what synchronizing `change` takes, given how its bookmark stands
/// remotely and, for a diverged pull request, the journal `prior` read from
/// the pull request's head. `None` means nothing is written and nothing is
/// pushed. A change that must be pushed needs a named head.
pub fn sync_plan(change: &Change, state: &RemoteState, prior: Vec<Change>) -> (r: Result<
    Option<SyncPlan>,
    String,
>)
    ensures
        state@ is Unchanged ==> r is Ok && r->Ok_0 is None,
        !(state@ is Unchanged) && !change.head@.has_name() ==> r is Err && r->Err_0@
            == no_bookmark_message(),
        !(state@ is Unchanged) && change.head@.has_name() ==> r is Ok && r->Ok_0 is Some && Some(
            r->Ok_0->Some_0@,
        ) == plan_of(state@, change@, changes_view(prior@)),
{
    proof {
        reveal_strlit("remote/");
    }
    if let RemoteState::Unchanged = state {
        return Ok(None);
    }
    let name = match change.head.name() {
        Ok(n) => n,
        Err(e) => return Err(e),
    };
    let mut journal = match state {
        RemoteState::Diverged(_) => prior,
        _ => Vec::new(),
    };
    journal.push(change.duplicate());
    proof {
        if state@ is Diverged {
            assert(changes_view(journal@) =~= changes_view(prior@).push(change@));
        } else {
            assert(changes_view(journal@) =~= seq![change@]);
        }
    }
    let mut branch = String::from_str("remote/");
    branch.append(name.as_str());
    Ok(
        Some(
            SyncPlan {
                note_node: change.head.node.clone(),
                journal,
                push_node: change.head.node.clone(),
                branch,
            },
        ),
    )
}

/// When a change's pull request already points at its head, synchronizing
/// it writes no journal and pushes nothing.
pub proof fn lemma_unchanged_remote_no_op(change: ChangeView, remote_head: Seq<char>, prior: Seq<ChangeView>)
    requires
        remote_head == change.head.node,
    ensures
        remote_state_of(change.head, Some(remote_head)) == RemoteStateView::Unchanged,
        plan_of(remote_state_of(change.head, Some(remote_head)), change, prior) is None,
{
}

/// When a change's pull request points at an old head `old_head` other than
/// the change's head, with journal `prior` recorded on it, synchronizing
/// writes `prior` with the change appended as the note of the new head, and
/// pushes the new head to the bookmark's remote branch.
pub proof fn lemma_diverged_remote_journal_append(
    change: ChangeView,
    old_head: Seq<char>,
    prior: Seq<ChangeView>,
)
    requires
        old_head != change.head.node,
    ensures
        remote_state_of(change.head, Some(old_head)) == RemoteStateView::Diverged(old_head),
        plan_of(remote_state_of(change.head, Some(old_head)), change, prior) == Some(
            SyncPlanView {
                note_node: change.head.node,
                journal: prior.push(change),
                push_node: change.head.node,
                branch: "remote/"@ + change.head.name(),
            },
        ),
{
}

} // verus!
