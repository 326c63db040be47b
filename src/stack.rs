use vstd::prelude::*;
use vstd::string::StringExecFns;

use crate::commit::{commits_view, copy_commits, Commit, CommitView};
use crate::revset::Revset;

verus! {

/// A point in time: whole seconds since the Unix epoch and the nanoseconds
/// within that second.
#[derive(Clone, Copy, Debug, PartialEq, Eq, Structural)]
pub struct Timestamp {
    pub secs: i64,
    pub nanos: u32,
}

/// Relies on chrono::Utc::now for the current time, read off through
/// `DateTime::timestamp` and `DateTime::timestamp_subsec_nanos`.
#[verifier::external_body]
fn now() -> (r: Timestamp)
    ensures
        r.nanos < 1_000_000_000,
{
    let t = chrono::Utc::now();
    Timestamp { secs: t.timestamp(), nanos: t.timestamp_subsec_nanos() }
}

/// One bookmark's segment of the stack.
pub struct Change {
    /// When the change was built.
    pub date: Timestamp,
    /// The bookmarked commit at the top of the segment.
    pub head: Commit,
    /// The commit the segment sits on: the previous segment's head, or the
    /// stack's base.
    pub child_head: Commit,
    /// The commits of the segment, base excluded and head included.
    pub commits: Vec<Commit>,
}

pub struct ChangeView {
    pub date: Timestamp,
    pub head: CommitView,
    pub child_head: CommitView,
    pub commits: Seq<CommitView>,
}

impl View for Change {
    type V = ChangeView;

    open spec fn view(&self) -> ChangeView {
        ChangeView {
            date: self.date,
            head: self.head@,
            child_head: self.child_head@,
            commits: commits_view(self.commits@),
        }
    }
}

pub open spec fn changes_view(v: Seq<Change>) -> Seq<ChangeView> {
    v.map_values(|c: Change| c@)
}

pub open spec fn segments_view(v: Seq<Vec<Commit>>) -> Seq<Seq<CommitView>> {
    v.map_values(|s: Vec<Commit>| commits_view(s@))
}

/// The page that compares a change's head with what it sits on: against the
/// default branch when it sits on a public commit, else against the
/// previous change's bookmark.
pub open spec fn compare_url_of(c: ChangeView, repo_url: Seq<char>) -> Seq<char> {
    if c.child_head.is_public() {
        repo_url + "/compare/"@ + c.head.name()
    } else {
        repo_url + "/compare/"@ + c.child_head.name() + "..."@ + c.head.name()
    }
}

/// A change can be given a compare URL when every bookmark the URL names
/// exists.
pub open spec fn can_compare(c: ChangeView) -> bool {
    c.head.has_name() && (!c.child_head.is_public() ==> c.child_head.has_name())
}

impl Change {
    pub fn compare_url(&self, repo_url: &str) -> (r: String)
        requires
            can_compare(self@),
        ensures
            r@ == compare_url_of(self@, repo_url@),
    {
        proof {
            reveal_strlit("/compare/");
            reveal_strlit("...");
        }
        let mut r = String::from_str(repo_url);
        r.append("/compare/");
        if !self.child_head.is_public() {
            let base = self.child_head.bookmarks[0].as_str();
            r.append(base);
            r.append("...");
        }
        r.append(self.head.bookmarks[0].as_str());
        r
    }

    /// A copy of the change, equal to it field for field.
    pub fn duplicate(&self) -> (r: Change)
        ensures
            r@ == self@,
    {
        Change {
            date: self.date,
            head: self.head.duplicate(),
            child_head: self.child_head.duplicate(),
            commits: copy_commits(&self.commits),
        }
    }
}

/// What remains of a text once `str::trim` has taken off its leading and
/// trailing white space.
pub uninterp spec fn trim_of(s: Seq<char>) -> Seq<char>;

/// Relies on str::trim: the text without leading and trailing white space.
#[verifier::external_body]
fn trimmed(s: &str) -> (r: &str)
    ensures
        r@ == trim_of(s@),
{
    s.trim()
}

/// The diagnostic with which the query engine says that the stack's bottom
/// sits directly on a public commit.
pub open spec fn public_base_message() -> Seq<char> {
    "abort: current commit is public"@
}

/// Why resolving the base of the stack failed.
pub enum QueryError {
    /// The stack has no draft ancestor to sit on: there is nothing to stack.
    NoDraftAncestor,
    /// Any other refusal, with the query engine's diagnostic text.
    Failed(String),
}

impl QueryError {
    /// Sorts the query engine's diagnostic text into the two kinds of failure.
    pub fn from_diagnostic(text: String) -> (r: QueryError)
        ensures
            trim_of(text@) == public_base_message() ==> r is NoDraftAncestor,
            trim_of(text@) != public_base_message() ==> r is Failed && r->Failed_0@ == text@,
    {
        proof {
            reveal_strlit("abort: current commit is public");
        }
        let t = trimmed(text.as_str()).to_string();
        if t == String::from_str("abort: current commit is public") {
            QueryError::NoDraftAncestor
        } else {
            QueryError::Failed(text)
        }
    }
}

/// The commit that segment `i` sits on: the stack's base for the first
/// segment, the previous bookmarked commit for the others.
pub open spec fn segment_base(base: CommitView, heads: Seq<CommitView>, i: int) -> CommitView {
    if i == 0 {
        base
    } else {
        heads[i - 1]
    }
}

/// The revision set of the commits strictly above `base` up to `head`.
pub open spec fn segment_query(base: CommitView, head: CommitView) -> Seq<char> {
    base.node + "::"@ + head.node + " - "@ + base.node
}

pub fn segment_revset(base: &Commit, head: &Commit) -> (r: Revset)
    ensures
        r.inner@ == segment_query(base@, head@),
{
    proof {
        reveal_strlit("::");
        reveal_strlit(" - ");
    }
    let mut q = base.node.clone();
    q.append("::");
    q.append(head.node.as_str());
    q.append(" - ");
    q.append(base.node.as_str());
    Revset { inner: q }
}

/// The revision set of each segment's commits, for the bookmarked commits
/// `heads` above `base`, in order.
pub fn segment_revsets(base: &Commit, heads: &Vec<Commit>) -> (r: Vec<Revset>)
    ensures
        r@.len() == heads@.len(),
        forall|i: int|
            0 <= i < heads@.len() ==> #[trigger] r@[i].inner@ == segment_query(
                segment_base(base@, commits_view(heads@), i),
                heads@[i]@,
            ),
{
    let mut r: Vec<Revset> = Vec::new();
    let mut i: usize = 0;
    while i < heads.len()
        invariant
            i <= heads@.len(),
            r@.len() == i,
            forall|j: int|
                0 <= j < i ==> #[trigger] r@[j].inner@ == segment_query(
                    segment_base(base@, commits_view(heads@), j),
                    heads@[j]@,
                ),
        decreases heads.len() - i,
    {
        let q = if i == 0 {
            segment_revset(base, &heads[0])
        } else {
            segment_revset(&heads[i - 1], &heads[i])
        };
        r.push(q);
        i = i + 1;
    }
    r
}

/// `stack` is the partition of the bookmarked commits `heads` above `base`,
/// segment `i` holding the commits `segments[i]`.
pub open spec fn is_stack_of(
    stack: Seq<ChangeView>,
    base: CommitView,
    heads: Seq<CommitView>,
    segments: Seq<Seq<CommitView>>,
) -> bool {
    &&& stack.len() == heads.len()
    &&& forall|i: int|
        0 <= i < stack.len() ==> {
            &&& (#[trigger] stack[i]).head == heads[i]
            &&& stack[i].child_head == segment_base(base, heads, i)
            &&& stack[i].commits == segments[i]
        }
}

/// Each segment sits on the head of the segment before it.
pub open spec fn is_contiguous(stack: Seq<ChangeView>) -> bool {
    forall|i: int| 0 < i < stack.len() ==> (#[trigger] stack[i]).child_head == stack[i - 1].head
}

/// Every stack built from a base and its bookmarked commits is contiguous:
/// the base of segment `i` is the head of segment `i - 1`.
pub proof fn lemma_segment_contiguity(
    stack: Seq<ChangeView>,
    base: CommitView,
    heads: Seq<CommitView>,
    segments: Seq<Seq<CommitView>>,
)
    requires
        is_stack_of(stack, base, heads, segments),
    ensures
        is_contiguous(stack),
{
    assert forall|i: int| 0 < i < stack.len() implies (#[trigger] stack[i]).child_head
        == stack[i - 1].head by {
        assert(stack[i - 1].head == heads[i - 1]);
    }
}

/// A base with no bookmarked commits above it gives the empty stack.
pub proof fn lemma_empty_stack(
    stack: Seq<ChangeView>,
    base: CommitView,
    segments: Seq<Seq<CommitView>>,
)
    requires
        is_stack_of(stack, base, Seq::empty(), segments),
    ensures
        stack.len() == 0,
{
}

/// Partitions the bookmarked commits `heads` above the resolved `base` into
/// changes, segment `i` holding `segments[i]`. A base that has no draft
/// ancestor gives the empty stack; any other failure to resolve it is
/// returned.
pub fn build_stack(base: Result<Commit, QueryError>, heads: Vec<Commit>, segments: Vec<Vec<Commit>>) -> (r: Result<Vec<Change>, String>)
    requires
        base is Ok ==> segments@.len() == heads@.len(),
    ensures
        base is Err && base->Err_0 is NoDraftAncestor ==> r is Ok && r->Ok_0@.len() == 0,
        base is Err && base->Err_0 is Failed ==> r is Err && r->Err_0@ == base->Err_0->Failed_0@,
        base is Ok ==> r is Ok && is_stack_of(
            changes_view(r->Ok_0@),
            base->Ok_0@,
            commits_view(heads@),
            segments_view(segments@),
        ) && is_contiguous(changes_view(r->Ok_0@)),
{
    let base = match base {
        Ok(c) => c,
        Err(QueryError::NoDraftAncestor) => return Ok(Vec::new()),
        Err(QueryError::Failed(text)) => return Err(text),
    };
    let ghost hv = commits_view(heads@);
    let ghost sv = segments_view(segments@);
    let mut stack: Vec<Change> = Vec::new();
    let mut i: usize = 0;
    while i < heads.len()
        invariant
            i <= heads@.len(),
            segments@.len() == heads@.len(),
            hv == commits_view(heads@),
            sv == segments_view(segments@),
            stack@.len() == i,
            forall|j: int|
                0 <= j < i ==> {
                    &&& (#[trigger] stack@[j])@.head == hv[j]
                    &&& stack@[j]@.child_head == segment_base(base@, hv, j)
                    &&& stack@[j]@.commits == sv[j]
                },
        decreases heads.len() - i,
    {
        let child_head = if i == 0 {
            base.duplicate()
        } else {
            heads[i - 1].duplicate()
        };
        let change = Change {
            date: now(),
            head: heads[i].duplicate(),
            child_head,
            commits: copy_commits(&segments[i]),
        };
        stack.push(change);
        i = i + 1;
    }
    let ghost s = changes_view(stack@);
    assert(is_stack_of(s, base@, hv, sv)) by {
        assert forall|j: int| 0 <= j < s.len() implies {
            &&& (#[trigger] s[j]).head == hv[j]
            &&& s[j].child_head == segment_base(base@, hv, j)
            &&& s[j].commits == sv[j]
        } by {
            assert(s[j] == stack@[j]@);
        }
    }
    proof {
        lemma_segment_contiguity(s, base@, hv, sv);
    }
    Ok(stack)
}

} // verus!
