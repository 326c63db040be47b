use vstd::prelude::*;
use vstd::string::StrSliceExecFns;
use vstd::string::StringExecFns;

verus! {

/// The suffix that the configured remote path must carry.
pub open spec fn git_suffix() -> Seq<char> {
    ".git"@
}

pub open spec fn has_git_suffix(path: Seq<char>) -> bool {
    path.len() >= 4 && path.subrange(path.len() - 4, path.len() as int) == git_suffix()
}

/// The browsable URL of a remote path: the path without its suffix.
pub open spec fn url_of(path: Seq<char>) -> Seq<char> {
    path.subrange(0, path.len() - 4)
}

pub open spec fn no_url_message() -> Seq<char> {
    "Could not get the url"@
}

/// The upstream remote of a repository and the URL it is browsed at.
pub struct Repository {
    pub default_path: String,
    pub url: String,
}

impl Repository {
    /// Builds the descriptor from the configured default remote path, which
    /// must end in `.git`.
    pub fn new(default_path: String) -> (r: Result<Repository, String>)
        ensures
            has_git_suffix(default_path@) ==> r is Ok && r->Ok_0.default_path@ == default_path@
                && r->Ok_0.url@ == url_of(default_path@),
            !has_git_suffix(default_path@) ==> r is Err && r->Err_0@ == no_url_message(),
    {
        proof {
            reveal_strlit(".git");
            reveal_strlit("Could not get the url");
        }
        let path = default_path.as_str();
        let n = path.unicode_len();
        let suffix = ".git";
        if n >= 4 {
            let tail = path.substring_char(n - 4, n);
            if tail.get_char(0) == suffix.get_char(0) && tail.get_char(1) == suffix.get_char(1)
                && tail.get_char(2) == suffix.get_char(2) && tail.get_char(3) == suffix.get_char(
                3,
            ) {
                assert(tail@ =~= git_suffix());
                let url = path.substring_char(0, n - 4).to_string();
                return Ok(Repository { default_path, url });
            }
            assert(tail@ != git_suffix()) by {
                if tail@ == git_suffix() {
                    assert(tail@[0] == git_suffix()[0]);
                    assert(tail@[1] == git_suffix()[1]);
                    assert(tail@[2] == git_suffix()[2]);
                    assert(tail@[3] == git_suffix()[3]);
                }
            }
        }
        Err(String::from_str("Could not get the url"))
    }
}

} // verus!
