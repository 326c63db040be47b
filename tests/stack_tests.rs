use book_stack::commit::Commit;
use book_stack::github::PullRequest;
use book_stack::repository::Repository;
use book_stack::revset::Revset;
use book_stack::stack::{build_stack, segment_revset, segment_revsets, Change, QueryError, Timestamp};
use book_stack::sync::{remote_state, sync_plan, RemoteState};

fn commit(node: &str, phase: &str, bookmarks: &[&str]) -> Commit {
    Commit {
        node: node.to_string(),
        short_node: node.chars().take(4).collect(),
        title: format!("title of {}", node),
        phase: phase.to_string(),
        bookmarks: bookmarks.iter().map(|b| b.to_string()).collect(),
        github_pull_request_number: None,
    }
}

fn nodes(v: &[Commit]) -> Vec<String> {
    v.iter().map(|c| c.node.clone()).collect()
}

fn change(head: Commit, child_head: Commit, commits: Vec<Commit>) -> Change {
    Change { date: Timestamp { secs: 1_700_000_000, nanos: 5 }, head, child_head, commits }
}

fn pr(oid: &str) -> PullRequest {
    PullRequest { head_ref_oid: oid.to_string(), url: "https://example.com/o/r/pull/7".to_string() }
}

#[test]
fn revset_keeps_expression() {
    assert_eq!(Revset::new("bottom::top and bookmark()").inner, "bottom::top and bookmark()");
}

#[test]
fn name_is_first_bookmark() {
    let c = commit("aa", "draft", &["feature", "other"]);
    assert_eq!(c.name(), Ok("feature".to_string()));
}

#[test]
fn name_without_bookmark_fails() {
    let c = commit("aa", "draft", &[]);
    assert_eq!(c.name(), Err("No bookmark found, could not get a name".to_string()));
}

#[test]
fn phase_public_is_detected() {
    assert!(commit("aa", "public", &[]).is_public());
    assert!(!commit("aa", "draft", &[]).is_public());
}

#[test]
fn duplicate_keeps_every_field() {
    let mut c = commit("abcdef", "draft", &["x", "y"]);
    c.github_pull_request_number = Some(12);
    let d = c.duplicate();
    assert_eq!(d.node, c.node);
    assert_eq!(d.short_node, c.short_node);
    assert_eq!(d.title, c.title);
    assert_eq!(d.phase, c.phase);
    assert_eq!(d.bookmarks, c.bookmarks);
    assert_eq!(d.github_pull_request_number, Some(12));
}

#[test]
fn repository_strips_git_suffix() {
    let r = Repository::new("https://github.com/o/r.git".to_string()).unwrap();
    assert_eq!(r.default_path, "https://github.com/o/r.git");
    assert_eq!(r.url, "https://github.com/o/r");
}

#[test]
fn repository_without_suffix_fails() {
    assert_eq!(
        Repository::new("https://github.com/o/r".to_string()).err(),
        Some("Could not get the url".to_string())
    );
    assert!(Repository::new("git".to_string()).is_err());
    assert!(Repository::new(String::new()).is_err());
}

#[test]
fn repository_suffix_only() {
    let r = Repository::new(".git".to_string()).unwrap();
    assert_eq!(r.url, "");
}

#[test]
fn compare_url_single_ref_on_public_base() {
    let c = change(commit("b1", "draft", &["b1"]), commit("c0", "public", &[]), vec![]);
    assert_eq!(c.compare_url("https://github.com/o/r"), "https://github.com/o/r/compare/b1");
}

#[test]
fn compare_url_two_refs_on_draft_base() {
    let c = change(commit("b2", "draft", &["b2"]), commit("b1", "draft", &["b1"]), vec![]);
    assert_eq!(c.compare_url("https://github.com/o/r"), "https://github.com/o/r/compare/b1...b2");
}

#[test]
fn segment_revset_excludes_base() {
    let r = segment_revset(&commit("c0", "public", &[]), &commit("b1", "draft", &["b1"]));
    assert_eq!(r.inner, "c0::b1 - c0");
}

#[test]
fn segment_revsets_chain_heads() {
    let heads = vec![commit("b1", "draft", &["b1"]), commit("b2", "draft", &["b2"])];
    let r = segment_revsets(&commit("c0", "public", &[]), &heads);
    assert_eq!(r.len(), 2);
    assert_eq!(r[0].inner, "c0::b1 - c0");
    assert_eq!(r[1].inner, "b1::b2 - b1");
}

#[test]
fn diagnostic_public_base_is_no_draft_ancestor() {
    let e = QueryError::from_diagnostic("abort: current commit is public\n".to_string());
    assert!(matches!(e, QueryError::NoDraftAncestor));
    let e = QueryError::from_diagnostic("  abort: current commit is public".to_string());
    assert!(matches!(e, QueryError::NoDraftAncestor));
}

#[test]
fn diagnostic_other_text_is_kept() {
    match QueryError::from_diagnostic("abort: unknown revision 'x'\n".to_string()) {
        QueryError::Failed(t) => assert_eq!(t, "abort: unknown revision 'x'\n"),
        QueryError::NoDraftAncestor => panic!("misclassified"),
    }
}

#[test]
fn example_stack_of_two_bookmarks() {
    let c0 = commit("c0", "public", &[]);
    let b1 = commit("b1", "draft", &["b1"]);
    let b2 = commit("b2", "draft", &["b2"]);
    let x1 = commit("x1", "draft", &[]);
    let x2 = commit("x2", "draft", &[]);
    let x3 = commit("x3", "draft", &[]);
    let stack = build_stack(Ok(c0), vec![b1, b2], vec![vec![x1, x2], vec![x3]]).unwrap();
    assert_eq!(stack.len(), 2);
    assert_eq!(stack[0].head.node, "b1");
    assert_eq!(stack[0].child_head.node, "c0");
    assert_eq!(nodes(&stack[0].commits), vec!["x1", "x2"]);
    assert_eq!(stack[1].head.node, "b2");
    assert_eq!(stack[1].child_head.node, "b1");
    assert_eq!(nodes(&stack[1].commits), vec!["x3"]);
}

#[test]
fn segments_are_contiguous() {
    let heads: Vec<Commit> = (0..5).map(|i| commit(&format!("h{}", i), "draft", &["b"])).collect();
    let segments: Vec<Vec<Commit>> = (0..5).map(|i| vec![commit(&format!("s{}", i), "draft", &[])]).collect();
    let stack = build_stack(Ok(commit("base", "public", &[])), heads, segments).unwrap();
    assert_eq!(stack.len(), 5);
    for i in 1..stack.len() {
        assert_eq!(stack[i].child_head.node, stack[i - 1].head.node);
    }
    assert!(stack.iter().all(|c| c.date.nanos < 1_000_000_000));
}

#[test]
fn no_draft_ancestor_gives_empty_stack() {
    let stack = build_stack(Err(QueryError::NoDraftAncestor), vec![], vec![]).unwrap();
    assert!(stack.is_empty());
}

#[test]
fn base_without_bookmarks_gives_empty_stack() {
    let stack = build_stack(Ok(commit("c0", "public", &[])), vec![], vec![]).unwrap();
    assert!(stack.is_empty());
}

#[test]
fn failed_base_is_returned() {
    let r = build_stack(Err(QueryError::Failed("abort: boom".to_string())), vec![], vec![]);
    assert_eq!(r.err(), Some("abort: boom".to_string()));
}

#[test]
fn empty_segment_is_kept() {
    let stack = build_stack(Ok(commit("c0", "public", &[])), vec![commit("b1", "draft", &["b1"])], vec![vec![]]).unwrap();
    assert_eq!(stack.len(), 1);
    assert!(stack[0].commits.is_empty());
}

#[test]
fn remote_states() {
    let head = commit("n1", "draft", &["b"]);
    assert!(matches!(remote_state(&head, &None), RemoteState::NoRemote));
    assert!(matches!(remote_state(&head, &Some(pr("n1"))), RemoteState::Unchanged));
    match remote_state(&head, &Some(pr("n0"))) {
        RemoteState::Diverged(id) => assert_eq!(id, "n0"),
        _ => panic!("expected a diverged remote"),
    }
}

#[test]
fn unchanged_remote_is_no_op() {
    let c = change(commit("n1", "draft", &["b"]), commit("c0", "public", &[]), vec![]);
    let state = remote_state(&c.head, &Some(pr("n1")));
    assert!(sync_plan(&c, &state, vec![]).unwrap().is_none());
}

#[test]
fn diverged_remote_appends_to_journal() {
    let old = change(commit("n0", "draft", &["b"]), commit("c0", "public", &[]), vec![]);
    let c = change(commit("n1", "draft", &["b"]), commit("c0", "public", &[]), vec![commit("x", "draft", &[])]);
    let state = remote_state(&c.head, &Some(pr("n0")));
    let plan = sync_plan(&c, &state, vec![old]).unwrap().unwrap();
    assert_eq!(plan.note_node, "n1");
    assert_eq!(plan.push_node, "n1");
    assert_eq!(plan.branch, "remote/b");
    assert_eq!(plan.journal.len(), 2);
    assert_eq!(plan.journal[0].head.node, "n0");
    assert_eq!(plan.journal[1].head.node, "n1");
    assert_eq!(nodes(&plan.journal[1].commits), vec!["x"]);
    assert_eq!(plan.journal[1].date, c.date);
}

#[test]
fn no_remote_starts_journal_and_pushes() {
    let c = change(commit("n1", "draft", &["feat"]), commit("c0", "public", &[]), vec![]);
    let plan = sync_plan(&c, &RemoteState::NoRemote, vec![]).unwrap().unwrap();
    assert_eq!(plan.journal.len(), 1);
    assert_eq!(plan.journal[0].head.node, "n1");
    assert_eq!(plan.push_node, "n1");
    assert_eq!(plan.branch, "remote/feat");
}

#[test]
fn push_without_bookmark_fails() {
    let c = change(commit("n1", "draft", &[]), commit("c0", "public", &[]), vec![]);
    let r = sync_plan(&c, &RemoteState::NoRemote, vec![]);
    assert_eq!(r.err(), Some("No bookmark found, could not get a name".to_string()));
}
