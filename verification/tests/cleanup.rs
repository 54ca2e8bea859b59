use staged::cleanup::{cleanup_followup, cleanup_project_branches_best_effort, CleanupCall};
use staged::models::{Branch, BranchType};
use std::collections::HashMap;

fn remote_branch(project_id: &str, id: &str, branch_name: &str, workspace_name: &str) -> Branch {
    let mut branch = Branch::new_remote(project_id, branch_name, "main", workspace_name);
    branch.id = id.to_string();
    branch
}

#[test]
fn delete_project_cleanup_retries_branch_row_deletes_and_re_sweeps_remote_workspaces() {
    let branches = vec![
        remote_branch("project-1", "a", "feature-a", "ws-shared"),
        remote_branch("project-1", "b", "feature-b", "ws-shared"),
    ];

    let mut cleanup_calls: Vec<String> = Vec::new();
    let mut delete_attempts: HashMap<String, usize> = HashMap::new();

    cleanup_project_branches_best_effort(
        &branches,
        |branch: &Branch| cleanup_calls.push(branch.id.clone()),
        |branch: &Branch| {
            let attempts = delete_attempts.entry(branch.id.clone()).or_insert(0);
            *attempts += 1;
            if branch.id == "a" && *attempts == 1 {
                Err("simulated transient delete failure".to_string())
            } else {
                Ok(())
            }
        },
    );

    assert_eq!(delete_attempts.get("a"), Some(&2));
    assert_eq!(delete_attempts.get("b"), Some(&1));
    assert_eq!(
        cleanup_calls,
        vec!["a".to_string(), "b".to_string(), "a".to_string(), "b".to_string()]
    );
}

#[test]
fn delete_project_cleanup_final_sweep_only_reprocesses_remote_branches() {
    let mut local_branch = Branch::new("project-1", "feature-local", "main");
    local_branch.id = "local".to_string();
    let branches = vec![
        remote_branch("project-1", "remote", "feature-remote", "ws-shared"),
        local_branch,
    ];

    let mut cleanup_calls: Vec<String> = Vec::new();
    let mut delete_attempts: HashMap<String, usize> = HashMap::new();

    cleanup_project_branches_best_effort(
        &branches,
        |branch: &Branch| cleanup_calls.push(branch.id.clone()),
        |branch: &Branch| {
            let attempts = delete_attempts.entry(branch.id.clone()).or_insert(0);
            *attempts += 1;
            if branch.id == "remote" && *attempts == 1 {
                Err("simulated transient delete failure".to_string())
            } else {
                Ok(())
            }
        },
    );

    assert_eq!(delete_attempts.get("remote"), Some(&2));
    assert_eq!(delete_attempts.get("local"), Some(&1));
    assert_eq!(
        cleanup_calls,
        vec!["remote".to_string(), "local".to_string(), "remote".to_string()]
    );
    assert_eq!(branches[0].branch_type, BranchType::Remote);
    assert_eq!(branches[1].branch_type, BranchType::Local);
}

#[test]
fn cleanup_without_failures_makes_one_pass() {
    let branches = vec![
        remote_branch("p", "r1", "f1", "ws"),
        Branch::new("p", "f2", "main"),
    ];
    let mut cleaned = 0usize;
    let trace = cleanup_project_branches_best_effort(&branches, |_b: &Branch| cleaned += 1, |_b: &Branch| Ok(()));
    assert_eq!(cleaned, 2);
    assert_eq!(
        trace,
        vec![
            CleanupCall::Resources(0),
            CleanupCall::DeleteRow(0, true),
            CleanupCall::Resources(1),
            CleanupCall::DeleteRow(1, true),
        ]
    );
}

#[test]
fn cleanup_retries_once_even_when_the_retry_fails() {
    let branches = vec![Branch::new("p", "f1", "main"), remote_branch("p", "r", "f2", "ws")];
    let trace = cleanup_project_branches_best_effort(
        &branches,
        |_b: &Branch| {},
        |b: &Branch| if b.branch_type == BranchType::Local { Err("locked".to_string()) } else { Ok(()) },
    );
    assert_eq!(
        trace,
        vec![
            CleanupCall::Resources(0),
            CleanupCall::DeleteRow(0, false),
            CleanupCall::Resources(1),
            CleanupCall::DeleteRow(1, true),
            CleanupCall::DeleteRow(0, false),
            CleanupCall::Resources(1),
        ]
    );
}

#[test]
fn followup_retries_failed_rows_and_sweeps_remote_branches() {
    let branches = vec![
        remote_branch("p", "r1", "f1", "ws"),
        Branch::new("p", "f2", "main"),
        remote_branch("p", "r3", "f3", "ws"),
    ];
    assert_eq!(cleanup_followup(&branches, &[true, false, true]), (vec![1], vec![0, 2]));
    assert_eq!(cleanup_followup(&branches, &[true, true, true]), (vec![], vec![]));
    assert_eq!(cleanup_followup(&branches, &[false, false, false]), (vec![0, 1, 2], vec![0, 2]));
    assert_eq!(cleanup_followup(&[], &[]), (vec![], vec![]));
}

#[test]
fn every_delete_failing_retries_each_once_and_sweeps_remotes() {
    let branches = vec![remote_branch("p", "r", "f1", "ws"), Branch::new("p", "f2", "main")];
    let mut deletes = 0usize;
    let mut cleans = 0usize;
    let trace = cleanup_project_branches_best_effort(
        &branches,
        |_b: &Branch| cleans += 1,
        |_b: &Branch| {
            deletes += 1;
            Err("down".to_string())
        },
    );
    assert_eq!(deletes, 4);
    assert_eq!(cleans, 3);
    assert_eq!(
        trace,
        vec![
            CleanupCall::Resources(0),
            CleanupCall::DeleteRow(0, false),
            CleanupCall::Resources(1),
            CleanupCall::DeleteRow(1, false),
            CleanupCall::DeleteRow(0, false),
            CleanupCall::DeleteRow(1, false),
            CleanupCall::Resources(0),
        ]
    );
}
