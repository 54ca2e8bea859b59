use staged::models::{Branch, PollWorkspaceResult, WorkspaceStatus};
use staged::workspaces::{
    check_resumable, checkout_args, contains_chars, is_secondary_clone_setup, list_failure_message,
    listed_workspace_outcome, poll_workspace_outcome, says_not_found, start_workspace_step, workspace_source_url,
    PollOutcome, QueryFailure, StartAction, StartEvent, StartFailure, StartState,
};

fn remote(id: &str, ws: &str, status: WorkspaceStatus) -> Branch {
    let mut b = Branch::new_remote("p1", id, "main", ws);
    b.id = id.to_string();
    b.workspace_status = Some(status);
    b
}

fn chars(s: &str) -> Vec<char> {
    s.chars().collect()
}

#[test]
fn substring_search() {
    assert!(contains_chars(&chars("workspace not found"), &chars("not found")));
    assert!(!contains_chars(&chars("not foun"), &chars("not found")));
    assert!(contains_chars(&chars("abc"), &chars("")));
    assert!(contains_chars(&chars("abc"), &chars("abc")));
    assert!(!contains_chars(&chars(""), &chars("a")));
}

#[test]
fn not_found_is_case_insensitive() {
    assert!(says_not_found("Error: Workspace NOT FOUND"));
    assert!(says_not_found("not found"));
    assert!(!says_not_found("timeout"));
}

#[test]
fn starting_branch_in_running_shared_workspace_waits_for_its_setup() {
    let me = remote("b1", "ws", WorkspaceStatus::Starting);
    let peer = remote("b2", "ws", WorkspaceStatus::Running);
    let other_ws = remote("b3", "ws-other", WorkspaceStatus::Running);
    let peers = vec![me.clone(), peer.clone()];
    assert!(is_secondary_clone_setup(&me, true, &peers));
    assert!(!is_secondary_clone_setup(&me, false, &peers));
    assert!(!is_secondary_clone_setup(&me, true, &[me.clone(), other_ws]));
    assert!(!is_secondary_clone_setup(&me, true, &[me.clone()]));
    let running = remote("b1", "ws", WorkspaceStatus::Running);
    assert!(!is_secondary_clone_setup(&running, true, &peers));
    let mut local_peer = Branch::new("p1", "x", "main");
    local_peer.workspace_name = Some("ws".to_string());
    local_peer.workspace_status = Some(WorkspaceStatus::Running);
    assert!(!is_secondary_clone_setup(&me, true, &[local_peer]));
}

#[test]
fn poll_reports_and_records_the_service_status() {
    assert!(matches!(
        poll_workspace_outcome(Some(WorkspaceStatus::Starting), Ok(WorkspaceStatus::Running)),
        PollOutcome::Report { status: WorkspaceStatus::Running, store: Some(WorkspaceStatus::Running) }
    ));
}

#[test]
fn poll_without_login_marks_error() {
    match poll_workspace_outcome(Some(WorkspaceStatus::Running), Err(QueryFailure::NotAuthenticated)) {
        PollOutcome::Fail { message, store } => {
            assert_eq!(message, "Not authenticated with Blox. Run: sq login");
            assert_eq!(store, Some(WorkspaceStatus::Error));
        }
        _ => panic!("expected a failure"),
    }
}

#[test]
fn poll_failure_depends_on_recorded_status() {
    let missing = || QueryFailure::CommandFailed { output: "Workspace Not Found".to_string(), shown: "boom".to_string() };
    assert!(matches!(
        poll_workspace_outcome(Some(WorkspaceStatus::Starting), Err(missing())),
        PollOutcome::Report { status: WorkspaceStatus::Starting, store: None }
    ));
    assert!(matches!(
        poll_workspace_outcome(Some(WorkspaceStatus::Running), Err(missing())),
        PollOutcome::Report { status: WorkspaceStatus::Stopped, store: Some(WorkspaceStatus::Stopped) }
    ));
    assert!(matches!(
        poll_workspace_outcome(
            Some(WorkspaceStatus::Running),
            Err(QueryFailure::CommandFailed { output: "timeout".to_string(), shown: "t".to_string() })
        ),
        PollOutcome::Report { status: WorkspaceStatus::Running, store: None }
    ));
    assert!(matches!(
        poll_workspace_outcome(Some(WorkspaceStatus::Running), Err(QueryFailure::Other { shown: "io".to_string() })),
        PollOutcome::Report { status: WorkspaceStatus::Running, store: None }
    ));
    match poll_workspace_outcome(Some(WorkspaceStatus::Stopped), Err(missing())) {
        PollOutcome::Fail { message, store } => {
            assert_eq!(message, "boom");
            assert_eq!(store, None);
        }
        _ => panic!("expected a failure"),
    }
}

#[test]
fn list_failure_messages() {
    assert_eq!(list_failure_message(QueryFailure::NotAuthenticated), "Not authenticated with Blox. Run: sq login");
    assert_eq!(list_failure_message(QueryFailure::Other { shown: "x".to_string() }), "x");
}

#[test]
fn listed_and_unlisted_workspaces() {
    let o = listed_workspace_outcome(Some(WorkspaceStatus::Running), Some(WorkspaceStatus::Starting)).unwrap();
    assert_eq!(o.status, WorkspaceStatus::Starting);
    assert_eq!(o.store, Some(WorkspaceStatus::Starting));
    assert!(o.starting);
    let o = listed_workspace_outcome(Some(WorkspaceStatus::Starting), Some(WorkspaceStatus::Running)).unwrap();
    assert!(!o.starting);
    let o = listed_workspace_outcome(Some(WorkspaceStatus::Starting), None).unwrap();
    assert_eq!(o.status, WorkspaceStatus::Starting);
    assert_eq!(o.store, None);
    assert!(o.starting);
    let o = listed_workspace_outcome(Some(WorkspaceStatus::Running), None).unwrap();
    assert_eq!(o.status, WorkspaceStatus::Stopped);
    assert_eq!(o.store, Some(WorkspaceStatus::Stopped));
    assert!(listed_workspace_outcome(Some(WorkspaceStatus::Stopped), None).is_none());
    assert!(listed_workspace_outcome(None, None).is_none());
}

#[test]
fn poll_results_name_the_status() {
    let r = PollWorkspaceResult::new(WorkspaceStatus::Running, Some(7));
    assert_eq!(r.status, "running");
    assert_eq!(r.workstation_id, Some(7));
    assert_eq!(WorkspaceStatus::Starting.as_str(), "starting");
    assert_eq!(WorkspaceStatus::Stopped.as_str(), "stopped");
    assert_eq!(WorkspaceStatus::Error.as_str(), "error");
}

#[test]
fn workspace_source_and_checkout() {
    assert_eq!(workspace_source_url("block/goose", "main"), "https://github.com/block/goose.git?ref=main");
    assert_eq!(checkout_args("feat", true), vec!["checkout", "-B", "feat", "origin/feat"]);
    assert_eq!(checkout_args("feat", false), vec!["checkout", "-b", "feat"]);
}

#[test]
fn resume_needs_a_branch() {
    assert_eq!(check_resumable("ws-1", 0), Err("No branches found for workspace: ws-1".to_string()));
    assert_eq!(check_resumable("ws-1", 2), Ok(()));
}

#[test]
fn first_start_of_a_fresh_workspace() {
    let (s, a) = start_workspace_step(StartState::Begin, StartEvent::Go, false, true);
    assert!(matches!(a, StartAction::CheckAuth));
    let (s, a) = start_workspace_step(s, StartEvent::AuthChecked(Ok(())), false, true);
    assert!(matches!(a, StartAction::StartWorkspace));
    let (s, a) = start_workspace_step(s, StartEvent::Started(Ok(())), false, true);
    assert!(matches!(a, StartAction::FetchBranch));
    let (s, a) = start_workspace_step(s, StartEvent::Fetched(true), false, true);
    assert!(matches!(a, StartAction::Checkout(true)));
    let (s, a) = start_workspace_step(s, StartEvent::CheckedOut, false, true);
    assert!(matches!(a, StartAction::Succeed { store: None, review: true }));
    assert!(matches!(s, StartState::Finished));
}

#[test]
fn repository_joins_running_shared_workspace() {
    let (s, a) = start_workspace_step(StartState::CheckingAuth, StartEvent::AuthChecked(Ok(())), true, false);
    assert!(matches!(a, StartAction::QuerySharedWorkspace));
    let (s2, a) = start_workspace_step(s, StartEvent::SharedStatus(Some("RUNNING".to_string())), true, false);
    assert!(matches!(a, StartAction::CloneIntoShared));
    let (_, a) = start_workspace_step(s2, StartEvent::Cloned(Ok(())), true, false);
    assert!(matches!(a, StartAction::Succeed { store: Some(WorkspaceStatus::Running), review: false }));
    let (_, a) = start_workspace_step(StartState::QueryingShared, StartEvent::SharedStatus(Some("stopped".to_string())), true, false);
    assert!(matches!(a, StartAction::StartWorkspace));
    let (_, a) = start_workspace_step(StartState::QueryingShared, StartEvent::SharedStatus(None), true, false);
    assert!(matches!(a, StartAction::StartWorkspace));
}

#[test]
fn start_failures() {
    let (_, a) = start_workspace_step(StartState::CheckingAuth, StartEvent::AuthChecked(Err("no token".to_string())), false, true);
    assert!(matches!(a, StartAction::Fail { ref message, store: Some(WorkspaceStatus::Error) } if message == "no token"));
    let (_, a) = start_workspace_step(StartState::Starting, StartEvent::Started(Err(StartFailure::NotAuthenticated)), false, true);
    assert!(matches!(a, StartAction::Fail { ref message, store: Some(WorkspaceStatus::Error) } if message == "Not authenticated with Blox. Run: sq login"));
    let (_, a) = start_workspace_step(StartState::Starting, StartEvent::Started(Err(StartFailure::NeedsOnboarding("onboard".to_string()))), false, true);
    assert!(matches!(a, StartAction::Fail { ref message, store: Some(WorkspaceStatus::Error) } if message == "onboard"));
    let (_, a) = start_workspace_step(StartState::Starting, StartEvent::Started(Err(StartFailure::Other("slow".to_string()))), false, true);
    assert!(matches!(a, StartAction::Succeed { store: None, review: false }));
    let (_, a) = start_workspace_step(StartState::CloningIntoShared, StartEvent::Cloned(Err("clone failed".to_string())), true, true);
    assert!(matches!(a, StartAction::Fail { ref message, store: None } if message == "clone failed"));
    let (s, a) = start_workspace_step(StartState::Finished, StartEvent::Go, false, true);
    assert!(matches!(a, StartAction::Ignore));
    assert!(matches!(s, StartState::Finished));
}
