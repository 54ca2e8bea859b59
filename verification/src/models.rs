//! The records that the commands exchange with the frontend and the store.
use vstd::prelude::*;

verus! {

/// Whether a branch lives in a local worktree or in a remote workspace.
#[derive(Clone, Copy, Debug, PartialEq, Eq, Structural)]
pub enum BranchType {
    Local,
    Remote,
}

/// Lifecycle state of a remote workspace.
#[derive(Clone, Copy, Debug, PartialEq, Eq, Structural)]
pub enum WorkspaceStatus {
    Starting,
    Running,
    Stopped,
    Error,
}

/// The name under which a workspace status is stored and reported.
pub open spec fn status_name(s: WorkspaceStatus) -> Seq<char> {
    match s {
        WorkspaceStatus::Starting => "starting"@,
        WorkspaceStatus::Running => "running"@,
        WorkspaceStatus::Stopped => "stopped"@,
        WorkspaceStatus::Error => "error"@,
    }
}

impl WorkspaceStatus {
    /// The status's name (see `status_name`).
    pub fn as_str(&self) -> (res: &'static str)
        ensures
            res@ == status_name(*self),
    {
        match self {
            WorkspaceStatus::Starting => "starting",
            WorkspaceStatus::Running => "running",
            WorkspaceStatus::Stopped => "stopped",
            WorkspaceStatus::Error => "error",
        }
    }
}

/// Where a project's branches are created.
#[derive(Clone, Copy, Debug, PartialEq, Eq, Structural)]
pub enum ProjectLocation {
    Local,
    Remote,
}

/// A tracked branch of a project.
#[derive(Clone, Debug)]
pub struct Branch {
    pub id: String,
    pub project_id: String,
    pub project_repo_id: Option<String>,
    pub branch_name: String,
    pub base_branch: String,
    pub branch_type: BranchType,
    pub workspace_name: Option<String>,
    pub workspace_status: Option<WorkspaceStatus>,
    pub pr_number: Option<u64>,
}

impl Branch {
    /// A local branch with a fresh random id.
    pub fn new(project_id: &str, branch_name: &str, base_branch: &str) -> (res: Branch)
        ensures
            res.project_id@ == project_id@,
            res.branch_name@ == branch_name@,
            res.base_branch@ == base_branch@,
            res.branch_type == BranchType::Local,
            res.project_repo_id is None,
            res.workspace_name is None,
            res.workspace_status is None,
            res.pr_number is None,
            res.id@.len() == 64,
    {
        Branch {
            id: crate::web::generate_token(),
            project_id: project_id.to_owned(),
            project_repo_id: None,
            branch_name: branch_name.to_owned(),
            base_branch: base_branch.to_owned(),
            branch_type: BranchType::Local,
            workspace_name: None,
            workspace_status: None,
            pr_number: None,
        }
    }

    /// A remote branch in workspace `workspace_name`, starting, with a fresh random id.
    pub fn new_remote(
        project_id: &str,
        branch_name: &str,
        base_branch: &str,
        workspace_name: &str,
    ) -> (res: Branch)
        ensures
            res.project_id@ == project_id@,
            res.branch_name@ == branch_name@,
            res.base_branch@ == base_branch@,
            res.branch_type == BranchType::Remote,
            res.project_repo_id is None,
            res.workspace_name matches Some(w) && w@ == workspace_name@,
            res.workspace_status == Some(WorkspaceStatus::Starting),
            res.pr_number is None,
            res.id@.len() == 64,
    {
        Branch {
            id: crate::web::generate_token(),
            project_id: project_id.to_owned(),
            project_repo_id: None,
            branch_name: branch_name.to_owned(),
            base_branch: base_branch.to_owned(),
            branch_type: BranchType::Remote,
            workspace_name: Some(workspace_name.to_owned()),
            workspace_status: Some(WorkspaceStatus::Starting),
            pr_number: None,
        }
    }
}

/// A project, as far as the commands read it.
#[derive(Clone, Debug)]
pub struct Project {
    pub id: String,
    pub name: String,
    /// The primary repository (`owner/name`), if one is attached.
    pub github_repo: Option<String>,
    pub subpath: Option<String>,
    pub location: ProjectLocation,
}

/// A repository attached to a project.
#[derive(Clone, Debug)]
pub struct ProjectRepo {
    pub id: String,
    pub project_id: String,
    pub github_repo: String,
    pub subpath: Option<String>,
    pub branch_name: String,
    pub is_primary: bool,
    /// The fork a pull request comes from, when it is not `github_repo` itself.
    pub head_repo: Option<String>,
}

/// A short badge name and colour for a repository (and subpath).
#[derive(Clone, Debug)]
pub struct RepoBadge {
    pub github_repo: String,
    pub subpath: String,
    pub short_name: String,
    /// The hue in degrees, as the bit pattern of an `f64` (`f64::to_bits`).
    pub hue_bits: u64,
    pub created_at: i64,
    pub pinned: bool,
    pub pin_sort_order: Option<i64>,
    pub default_branch: Option<String>,
}

/// Branch enriched with its workdir path (if any).
#[derive(Clone, Debug)]
pub struct BranchWithWorkdir {
    pub id: String,
    pub project_id: String,
    pub project_repo_id: Option<String>,
    pub branch_name: String,
    pub base_branch: String,
    pub pr_number: Option<u64>,
    pub branch_type: BranchType,
    pub workspace_name: Option<String>,
    pub workstation_id: Option<u64>,
    pub workspace_status: Option<WorkspaceStatus>,
    pub pr_state: Option<String>,
    pub pr_checks_status: Option<String>,
    pub pr_review_decision: Option<String>,
    pub pr_mergeable: Option<bool>,
    pub pr_draft: Option<bool>,
    pub pr_url: Option<String>,
    pub pr_updated_at: Option<i64>,
    pub pr_fetched_at: Option<i64>,
    pub pr_head_sha: Option<String>,
    pub setup_complete: bool,
    pub worktree_path: Option<String>,
    pub created_at: i64,
    pub updated_at: i64,
    /// Number of finalized commits (with a git SHA) on this branch.
    pub commit_count: Option<u64>,
}

/// Result of polling a remote workspace's status.
#[derive(Clone, Debug)]
pub struct PollWorkspaceResult {
    pub status: String,
    pub workstation_id: Option<u64>,
}

impl PollWorkspaceResult {
    /// The answer to a poll: the status by name, and the workstation id
    /// cached for the workspace, if any.
    pub fn new(status: WorkspaceStatus, workstation_id: Option<u64>) -> (res: PollWorkspaceResult)
        ensures
            res.status@ == status_name(status),
            res.workstation_id == workstation_id,
    {
        PollWorkspaceResult { status: status.as_str().to_owned(), workstation_id }
    }
}

/// Commit info combining git data with our metadata.
#[derive(Clone, Debug)]
pub struct CommitTimelineItem {
    /// DB id, present for pending commits so they can be deleted by id.
    pub id: Option<String>,
    pub sha: String,
    pub short_sha: String,
    pub subject: String,
    pub author: String,
    pub author_email: String,
    pub timestamp: i64,
    /// Position in git's topological order (0 = oldest on the branch).
    pub order: i64,
    pub session_id: Option<String>,
    pub session_status: Option<String>,
    pub completion_reason: Option<String>,
    /// Whether this commit was authored by the current git user.
    pub is_own_commit: bool,
}

/// Note with session status resolved.
#[derive(Clone, Debug)]
pub struct NoteTimelineItem {
    pub id: String,
    pub title: String,
    pub content: String,
    pub session_id: Option<String>,
    pub session_status: Option<String>,
    pub completion_reason: Option<String>,
    pub created_at: i64,
    pub updated_at: i64,
    pub completed_at: Option<i64>,
    pub suggested_next_commit_step: Option<String>,
    pub suggested_next_note_step: Option<String>,
}

/// Review with session status resolved.
#[derive(Clone, Debug)]
pub struct ReviewTimelineItem {
    pub id: String,
    pub commit_sha: String,
    pub scope: String,
    pub session_id: Option<String>,
    pub session_status: Option<String>,
    pub session_provider: Option<String>,
    pub completion_reason: Option<String>,
    pub title: Option<String>,
    pub comment_count: usize,
    pub is_auto: bool,
    pub created_at: i64,
    pub updated_at: i64,
    pub completed_at: Option<i64>,
}

/// Image with session status resolved.
#[derive(Clone, Debug)]
pub struct ImageTimelineItem {
    pub id: String,
    pub filename: String,
    pub mime_type: String,
    pub size_bytes: i64,
    pub session_id: Option<String>,
    pub session_status: Option<String>,
    pub completion_reason: Option<String>,
    pub created_at: i64,
}

/// Composite timeline for a branch; `G` is the git state the timeline carries.
#[derive(Clone, Debug)]
pub struct BranchTimeline<G> {
    pub commits: Vec<CommitTimelineItem>,
    pub notes: Vec<NoteTimelineItem>,
    pub reviews: Vec<ReviewTimelineItem>,
    pub images: Vec<ImageTimelineItem>,
    pub git_state: Option<G>,
}

/// A repo badge enriched with clone-state for the home screen.
#[derive(Clone, Debug)]
pub struct RepoHomeItem {
    pub badge: RepoBadge,
    /// Whether this repo has a local clone on disk.
    pub has_local_clone: bool,
}

/// Timeline of commits on a repo's default branch.
#[derive(Clone, Debug)]
pub struct RepoDefaultBranchTimeline {
    pub commits: Vec<CommitTimelineItem>,
    pub default_branch: String,
}

/// Why the database cannot be opened as it is, shown to the user at startup.
#[derive(Clone, Debug)]
pub struct StoreIncompatibility {
    /// The app version that last used the database.
    pub db_app_version: String,
    /// The version of this build.
    pub app_version: String,
    /// `needs_reset` (old database: offer a wipe) or `too_new` (suggest an update).
    pub kind: String,
}

} // verus!
