use vstd::prelude::*;

verus! {

/// What the code-hosting service reports of a pull request.
pub struct PullRequest {
    /// The commit that the pull request's branch currently points at.
    pub head_ref_oid: String,
    pub url: String,
}

} // verus!
