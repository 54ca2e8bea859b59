use staged::models::Branch;
use staged::sessions::{
    branch_pr_number, branches_with_prs, is_mergeable, project_session_prompt, resumed_branch_source,
    resumed_session_kind, BranchSource, SessionLinks,
};

fn links(project_note: bool, commit: bool, note: bool, review: bool) -> SessionLinks {
    SessionLinks { project_note, commit, note, review }
}

#[test]
fn resumed_session_kind_follows_its_links() {
    assert_eq!(resumed_session_kind(&links(true, true, false, false), Some("review")), Some("note".to_string()));
    assert_eq!(resumed_session_kind(&links(false, true, true, true), None), Some("commit".to_string()));
    assert_eq!(resumed_session_kind(&links(false, false, true, true), None), Some("note".to_string()));
    assert_eq!(resumed_session_kind(&links(false, false, false, true), None), Some("review".to_string()));
    assert_eq!(resumed_session_kind(&links(false, false, false, false), Some("commit")), Some("commit".to_string()));
    assert_eq!(resumed_session_kind(&links(false, false, false, false), None), None);
}

#[test]
fn resumed_session_branch_source() {
    assert_eq!(resumed_branch_source(true, &links(false, true, true, true)), BranchSource::Requested);
    assert_eq!(resumed_branch_source(false, &links(true, true, true, true)), BranchSource::Commit);
    assert_eq!(resumed_branch_source(false, &links(false, false, true, true)), BranchSource::Note);
    assert_eq!(resumed_branch_source(false, &links(false, false, false, true)), BranchSource::Review);
    assert_eq!(resumed_branch_source(false, &links(true, false, false, false)), BranchSource::NoBranch);
}

#[test]
fn project_session_prompt_wraps_instructions() {
    assert_eq!(
        project_session_prompt("Do X", "Repo: a/b", "Hello"),
        "<action>\nDo X\n\nProject information:\nRepo: a/b\n</action>\n\nHello"
    );
}

#[test]
fn pull_request_facts() {
    assert!(is_mergeable("MERGEABLE"));
    assert!(!is_mergeable("CONFLICTING"));
    assert!(!is_mergeable("mergeable"));
    let mut with_pr = Branch::new("p", "a", "main");
    with_pr.pr_number = Some(12);
    let without = Branch::new("p", "b", "main");
    assert_eq!(branch_pr_number(&with_pr), Ok(12));
    assert_eq!(branch_pr_number(&without), Err("Branch does not have an associated PR".to_string()));
    assert_eq!(branches_with_prs(&[without.clone(), with_pr.clone(), without, with_pr]), vec![1, 3]);
}
