use vstd::prelude::*;
use vstd::string::StringExecFns;

verus! {

/// The mathematical form of a `Commit`: every text field as its characters.
pub struct CommitView {
    pub node: Seq<char>,
    pub short_node: Seq<char>,
    pub title: Seq<char>,
    pub phase: Seq<char>,
    pub bookmarks: Seq<Seq<char>>,
    pub github_pull_request_number: Option<u32>,
}

/// One revision as the query engine reports it.
pub struct Commit {
    pub node: String,
    pub short_node: String,
    pub title: String,
    pub phase: String,
    pub bookmarks: Vec<String>,
    pub github_pull_request_number: Option<u32>,
}

pub open spec fn names_view(v: Seq<String>) -> Seq<Seq<char>> {
    v.map_values(|s: String| s@)
}

impl View for Commit {
    type V = CommitView;

    open spec fn view(&self) -> CommitView {
        CommitView {
            node: self.node@,
            short_node: self.short_node@,
            title: self.title@,
            phase: self.phase@,
            bookmarks: names_view(self.bookmarks@),
            github_pull_request_number: self.github_pull_request_number,
        }
    }
}

/// The text of the error that naming a commit without a bookmark gives.
pub open spec fn no_bookmark_message() -> Seq<char> {
    "No bookmark found, could not get a name"@
}

/// The phase of a commit that is already shared and can no longer change.
pub open spec fn public_phase() -> Seq<char> {
    "public"@
}

impl CommitView {
    /// A commit has a name when it carries at least one bookmark.
    pub open spec fn has_name(self) -> bool {
        self.bookmarks.len() > 0
    }

    /// The name of a commit: its first bookmark.
    pub open spec fn name(self) -> Seq<char> {
        self.bookmarks[0]
    }

    pub open spec fn is_public(self) -> bool {
        self.phase == public_phase()
    }
}

/// A copy of a list of names that keeps every name.
pub fn copy_names(v: &Vec<String>) -> (r: Vec<String>)
    ensures
        names_view(r@) == names_view(v@),
{
    let mut r: Vec<String> = Vec::new();
    let mut i: usize = 0;
    while i < v.len()
        invariant
            i <= v.len(),
            r@.len() == i,
            forall|j: int| 0 <= j < i ==> r@[j]@ == v@[j]@,
        decreases v.len() - i,
    {
        r.push(v[i].clone());
        i = i + 1;
    }
    assert(names_view(r@) =~= names_view(v@));
    r
}

impl Commit {
    /// The commit's name, its first bookmark; an error when it has none.
    pub fn name(&self) -> (r: Result<String, String>)
        ensures
            self@.has_name() ==> r is Ok && r->Ok_0@ == self@.name(),
            !self@.has_name() ==> r is Err && r->Err_0@ == no_bookmark_message(),
    {
        if self.bookmarks.len() > 0 {
            Ok(self.bookmarks[0].clone())
        } else {
            proof {
                reveal_strlit("No bookmark found, could not get a name");
            }
            Err(String::from_str("No bookmark found, could not get a name"))
        }
    }

    /// Whether the commit is in the public phase.
    pub fn is_public(&self) -> (r: bool)
        ensures
            r == self@.is_public(),
    {
        proof {
            reveal_strlit("public");
        }
        self.phase == String::from_str("public")
    }

    /// A copy of the commit, equal to it field for field.
    pub fn duplicate(&self) -> (r: Commit)
        ensures
            r@ == self@,
    {
        Commit {
            node: self.node.clone(),
            short_node: self.short_node.clone(),
            title: self.title.clone(),
            phase: self.phase.clone(),
            bookmarks: copy_names(&self.bookmarks),
            github_pull_request_number: self.github_pull_request_number,
        }
    }
}

pub open spec fn commits_view(v: Seq<Commit>) -> Seq<CommitView> {
    v.map_values(|c: Commit| c@)
}

/// A copy of a list of commits that keeps every commit.
pub fn copy_commits(v: &Vec<Commit>) -> (r: Vec<Commit>)
    ensures
        commits_view(r@) == commits_view(v@),
{
    let mut r: Vec<Commit> = Vec::new();
    let mut i: usize = 0;
    while i < v.len()
        invariant
            i <= v.len(),
            r@.len() == i,
            forall|j: int| 0 <= j < i ==> r@[j]@ == v@[j]@,
        decreases v.len() - i,
    {
        r.push(v[i].duplicate());
        i = i + 1;
    }
    assert(commits_view(r@) =~= commits_view(v@));
    r
}

} // verus!
