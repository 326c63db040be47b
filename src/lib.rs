//! Stacks of bookmarked revisions, partitioned into reviewable changes and
//! kept in step with their pull requests.

pub mod commit;
pub mod revset;
pub mod github;
pub mod repository;
pub mod stack;
pub mod sync;
