use staged::models::{Branch, BranchType, Project, ProjectLocation, ProjectRepo, WorkspaceStatus};
use staged::projects::{
    branch_for_repo, branch_name_for_update, branches_for_repo, found_project_repo, get_or_create_project_action_context,
    action_type_or_error, add_repo_setup_step, get_store, RepoSetupAction, RepoSetupEvent, RepoSetupState, new_project_records, origin_base, target_repo, preferences_store_path_buf, primary_after_removal, project_location, project_name,
    project_primary_fields, requested_branch_name, should_trigger_auto_review, PrimaryChange,
};

fn repo(id: &str, github_repo: &str, subpath: Option<&str>, is_primary: bool) -> ProjectRepo {
    ProjectRepo {
        id: id.to_string(),
        project_id: "p1".to_string(),
        github_repo: github_repo.to_string(),
        subpath: subpath.map(|s| s.to_string()),
        branch_name: "feature".to_string(),
        is_primary,
        head_repo: None,
    }
}

fn branch_on(repo_id: Option<&str>, name: &str) -> Branch {
    let mut b = Branch::new("p1", name, "main");
    b.project_repo_id = repo_id.map(|r| r.to_string());
    b
}

#[test]
fn desktop_store_slot_error_message() {
    assert_eq!(get_store(Some(7u32)), Ok(7));
    assert_eq!(
        get_store::<u32>(None),
        Err("Database not initialized — please reset from the startup prompt".to_string())
    );
}

#[test]
fn preferences_path_joins_data_dir() {
    assert_eq!(
        preferences_store_path_buf(Some("/home/u/.local/share/staged")),
        Some("/home/u/.local/share/staged/preferences.json".to_string())
    );
    assert_eq!(
        preferences_store_path_buf(Some("/data/")),
        Some("/data/preferences.json".to_string())
    );
    assert_eq!(preferences_store_path_buf(Some("")), Some("preferences.json".to_string()));
    assert_eq!(preferences_store_path_buf(None), None);
}

#[test]
fn project_name_is_trimmed_and_required() {
    assert_eq!(project_name("  My Project \t"), Ok("My Project".to_string()));
    assert_eq!(project_name(" \n "), Err("Project name is required".to_string()));
    assert_eq!(project_name(""), Err("Project name is required".to_string()));
}

#[test]
fn remote_location_needs_remote_workspaces() {
    assert_eq!(project_location(Some("remote"), true), ProjectLocation::Remote);
    assert_eq!(project_location(Some("remote"), false), ProjectLocation::Local);
    assert_eq!(project_location(Some("local"), true), ProjectLocation::Local);
    assert_eq!(project_location(Some("Remote"), true), ProjectLocation::Local);
    assert_eq!(project_location(None, true), ProjectLocation::Local);
}

#[test]
fn requested_branch_name_is_trimmed() {
    assert_eq!(requested_branch_name(Some("  feat/x ")), Some("feat/x".to_string()));
    assert_eq!(requested_branch_name(Some("   ")), None);
    assert_eq!(requested_branch_name(None), None);
}

#[test]
fn branch_name_update_requires_a_name() {
    assert_eq!(branch_name_for_update(" fix "), Ok("fix".to_string()));
    assert_eq!(branch_name_for_update("  "), Err("Branch name is required".to_string()));
}

#[test]
fn new_local_project_with_repo_starts_with_one_branch() {
    let records = new_project_records(
        "  Demo ",
        Some("block/goose"),
        ProjectLocation::Local,
        Some("ui"),
        Some("  "),
        "demo",
        Some(42),
        "develop",
        "ws-demo",
        Some("fork/goose"),
    )
    .expect("valid project");
    assert_eq!(records.project.name, "Demo");
    assert_eq!(records.project.github_repo.as_deref(), Some("block/goose"));
    assert_eq!(records.project.subpath.as_deref(), Some("ui"));
    assert_eq!(records.project.location, ProjectLocation::Local);
    assert_eq!(records.project.id.len(), 64);
    let (repo, branch) = records.first_repo.expect("a first repository");
    assert_eq!(repo.project_id, records.project.id);
    assert_eq!(repo.github_repo, "block/goose");
    assert_eq!(repo.branch_name, "demo");
    assert!(repo.is_primary);
    assert_eq!(repo.head_repo.as_deref(), Some("fork/goose"));
    assert_eq!(branch.project_id, records.project.id);
    assert_eq!(branch.project_repo_id.as_deref(), Some(repo.id.as_str()));
    assert_eq!(branch.branch_name, "demo");
    assert_eq!(branch.base_branch, "develop");
    assert_eq!(branch.pr_number, Some(42));
    assert_eq!(branch.branch_type, BranchType::Local);
    assert_eq!(branch.workspace_name, None);
    assert_ne!(branch.id, repo.id);
}

#[test]
fn new_remote_project_branch_starts_its_workspace() {
    let records = new_project_records(
        "Remote one",
        Some("block/mark"),
        ProjectLocation::Remote,
        None,
        Some(" feat/remote "),
        "remote-one",
        None,
        "main",
        "ws-feat",
        None,
    )
    .expect("valid project");
    let (repo, branch) = records.first_repo.expect("a first repository");
    assert_eq!(repo.branch_name, "feat/remote");
    assert_eq!(branch.branch_name, "feat/remote");
    assert_eq!(branch.branch_type, BranchType::Remote);
    assert_eq!(branch.workspace_name.as_deref(), Some("ws-feat"));
    assert_eq!(branch.workspace_status, Some(WorkspaceStatus::Starting));
    assert_eq!(branch.pr_number, None);
}

#[test]
fn new_project_without_repo_has_no_branch() {
    let records = new_project_records("Empty", None, ProjectLocation::Remote, None, None, "empty", None, "main", "ws", None)
        .expect("valid project");
    assert!(records.first_repo.is_none());
    assert_eq!(records.project.github_repo, None);
    assert!(new_project_records("   ", Some("a/b"), ProjectLocation::Local, None, None, "x", None, "main", "ws", None)
        .is_err());
}

#[test]
fn action_context_needs_project_and_repository() {
    let with_repo = Project {
        id: "p1".to_string(),
        name: "P".to_string(),
        github_repo: Some("block/goose".to_string()),
        subpath: Some("ui".to_string()),
        location: ProjectLocation::Local,
    };
    let key = get_or_create_project_action_context("p1", Some(&with_repo)).ok().expect("a context");
    assert_eq!(key.github_repo, "block/goose");
    assert_eq!(key.subpath.as_deref(), Some("ui"));
    let bare = Project { github_repo: None, ..with_repo.clone() };
    assert_eq!(
        get_or_create_project_action_context("p1", Some(&bare)).err(),
        Some("Project has no repository attached".to_string())
    );
    assert_eq!(
        get_or_create_project_action_context("p9", None).err(),
        Some("Project not found: p9".to_string())
    );
}

#[test]
fn branches_of_a_repository_in_order() {
    let branches = vec![
        branch_on(Some("r1"), "a"),
        branch_on(Some("r2"), "b"),
        branch_on(None, "c"),
        branch_on(Some("r1"), "d"),
    ];
    assert_eq!(branches_for_repo(&branches, "r1"), vec![0, 3]);
    assert_eq!(branches_for_repo(&branches, "r3"), Vec::<usize>::new());
    assert_eq!(branch_for_repo(&branches, "r1"), Some(0));
    assert_eq!(branch_for_repo(&branches, "r2"), Some(1));
    assert_eq!(branch_for_repo(&branches, "r3"), None);
}

#[test]
fn removing_the_primary_promotes_the_first_remaining() {
    let remaining = vec![repo("r2", "block/mark", Some("api"), false), repo("r3", "block/x", None, false)];
    assert!(matches!(primary_after_removal(true, &remaining), PrimaryChange::Promote(0)));
    assert!(matches!(primary_after_removal(true, &[]), PrimaryChange::Clear));
    assert!(matches!(primary_after_removal(false, &remaining), PrimaryChange::Unchanged));
    let (github_repo, subpath) = project_primary_fields(Some(&remaining[0]));
    assert_eq!(github_repo.as_deref(), Some("block/mark"));
    assert_eq!(subpath.as_deref(), Some("api"));
    assert_eq!(project_primary_fields(None), (None, None));
}

#[test]
fn missing_project_repo_error() {
    let r = repo("r1", "block/goose", None, true);
    assert_eq!(found_project_repo("r1", Some(r)).map(|x| x.id), Ok("r1".to_string()));
    assert_eq!(
        found_project_repo("r9", None).map(|x| x.id),
        Err("Project repo not found: r9".to_string())
    );
}

#[test]
fn auto_review_only_for_branches_with_commits() {
    assert!(should_trigger_auto_review(false, false, None));
    assert!(should_trigger_auto_review(true, true, Some(3)));
    assert!(!should_trigger_auto_review(true, true, Some(0)));
    assert!(!should_trigger_auto_review(true, true, None));
    assert!(!should_trigger_auto_review(true, false, Some(3)));
}

#[test]
fn remote_branch_base_is_on_origin() {
    assert_eq!(origin_base("main"), "origin/main");
    assert_eq!(origin_base("origin/develop"), "origin/develop");
    assert_eq!(origin_base(""), "origin/");
}

#[test]
fn target_repository_of_a_new_branch() {
    let r1 = repo("r1", "block/goose", None, false);
    let primary = repo("r0", "block/mark", None, true);
    assert_eq!(target_repo("p1", Some(("r1", Some(r1))), Some(primary.clone())).map(|r| r.id), Ok("r1".to_string()));
    assert_eq!(
        target_repo("p1", Some(("r9", None)), Some(primary.clone())).map(|r| r.id),
        Err("Project repo not found: r9".to_string())
    );
    assert_eq!(target_repo("p1", None, Some(primary)).map(|r| r.id), Ok("r0".to_string()));
    assert_eq!(
        target_repo("p1", None, None).map(|r| r.id),
        Err("Project 'p1' has no repository attached".to_string())
    );
}

#[test]
fn unknown_action_type_is_refused() {
    assert_eq!(action_type_or_error("run", Some(3u8)), Ok(3));
    assert_eq!(
        action_type_or_error::<u8>("explode", None),
        Err("Invalid action type: explode".to_string())
    );
}

#[test]
fn local_repository_setup_runs_actions_then_reviews() {
    let (s, a) = add_repo_setup_step(RepoSetupState::Begin, RepoSetupEvent::Go);
    assert!(matches!(a, RepoSetupAction::FindBranch));
    let (s, a) = add_repo_setup_step(s, RepoSetupEvent::BranchFound(Some(false)));
    assert!(matches!(a, RepoSetupAction::SetupWorktree));
    let (s, a) = add_repo_setup_step(s, RepoSetupEvent::WorktreeReady(true));
    assert!(matches!(a, RepoSetupAction::ClaimSetup));
    let (s, a) = add_repo_setup_step(s, RepoSetupEvent::SetupClaimed(Some(true)));
    assert!(matches!(a, RepoSetupAction::RunPrerun));
    let (s, a) = add_repo_setup_step(s, RepoSetupEvent::PrerunFinished(true));
    assert!(matches!(a, RepoSetupAction::Review { local: true, progress: true }));
    assert!(matches!(s, RepoSetupState::Finished));
    let (_, a) = add_repo_setup_step(RepoSetupState::ClaimingSetup, RepoSetupEvent::SetupClaimed(Some(false)));
    assert!(matches!(a, RepoSetupAction::Review { local: true, progress: false }));
    let (_, a) = add_repo_setup_step(RepoSetupState::ClaimingSetup, RepoSetupEvent::SetupClaimed(None));
    assert!(matches!(a, RepoSetupAction::Review { local: true, progress: false }));
    let (_, a) = add_repo_setup_step(RepoSetupState::SettingUpWorktree, RepoSetupEvent::WorktreeReady(false));
    assert!(matches!(a, RepoSetupAction::Stop { progress: false }));
}

#[test]
fn remote_repository_setup_clones_into_workspace() {
    let (s, a) = add_repo_setup_step(RepoSetupState::FindingBranch, RepoSetupEvent::BranchFound(Some(true)));
    assert!(matches!(a, RepoSetupAction::CloneIntoWorkspace));
    let (_, a) = add_repo_setup_step(s, RepoSetupEvent::RemoteCloned(true));
    assert!(matches!(a, RepoSetupAction::Review { local: false, progress: true }));
    let (_, a) = add_repo_setup_step(RepoSetupState::CloningRemote, RepoSetupEvent::RemoteCloned(false));
    assert!(matches!(a, RepoSetupAction::Stop { progress: true }));
    let (_, a) = add_repo_setup_step(RepoSetupState::FindingBranch, RepoSetupEvent::BranchFound(None));
    assert!(matches!(a, RepoSetupAction::Stop { progress: false }));
    let (s, a) = add_repo_setup_step(RepoSetupState::Finished, RepoSetupEvent::Go);
    assert!(matches!(a, RepoSetupAction::Ignore));
    assert!(matches!(s, RepoSetupState::Finished));
}
