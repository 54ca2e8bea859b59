//! Project and repository commands: the checks on their inputs, the records a
//! new project starts with, and which branches and repositories a removal
//! touches.
use vstd::prelude::*;
use crate::models::{Branch, BranchType, Project, ProjectLocation, ProjectRepo};
use crate::text::{append_str, chars_of, has_prefix, push_char, starts_with, str_eq, trim_string, trimmed};
use crate::web::generate_token;

verus! {

/// The view of an optional string slice.
pub open spec fn opt_str(o: Option<&str>) -> Option<Seq<char>> {
    match o {
        Some(s) => Some(s@),
        None => None,
    }
}

/// The view of an optional owned string.
pub open spec fn opt_string(o: Option<String>) -> Option<Seq<char>> {
    match o {
        Some(s) => Some(s@),
        None => None,
    }
}

fn to_owned_opt(o: Option<&str>) -> (res: Option<String>)
    ensures
        opt_string(res) == opt_str(o),
{
    match o {
        Some(s) => Some(s.to_owned()),
        None => None,
    }
}

fn clone_opt(o: &Option<String>) -> (res: Option<String>)
    ensures
        opt_string(res) == opt_string(*o),
{
    match o {
        Some(s) => Some(s.clone()),
        None => None,
    }
}

// ---------------------------------------------------------------------------
// The store slot and the preferences file
// ---------------------------------------------------------------------------

/// What a desktop command answers while the database is not open.
pub open spec fn store_not_ready_message() -> Seq<char> {
    "Database not initialized — please reset from the startup prompt"@
}

/// The store held in the app's slot, or the error a desktop command answers
/// while the database waits for the user to reset it.
pub fn get_store<T>(slot: Option<T>) -> (res: Result<T, String>)
    ensures
        match slot {
            Some(s) => res == Ok::<T, String>(s),
            None => res matches Err(m) && m@ == store_not_ready_message(),
        },
{
    match slot {
        Some(s) => Ok(s),
        None => Err("Database not initialized — please reset from the startup prompt".to_owned()),
    }
}

/// Appending a relative path component, as `Path::join` does on a Unix
/// path: an empty base gives the component alone, a base that ends in `/`
/// takes it directly, any other base takes a `/` first.
pub open spec fn join_path(base: Seq<char>, name: Seq<char>) -> Seq<char> {
    if base.len() == 0 {
        name
    } else if base.last() == '/' {
        base + name
    } else {
        base + seq!['/'] + name
    }
}

/// The name of the preferences file in the data directory.
pub open spec fn preferences_file_name() -> Seq<char> {
    "preferences.json"@
}

/// Where the preferences store lives: `preferences.json` in the app's data
/// directory, or nothing when no data directory can be determined.
pub fn preferences_store_path_buf(data_dir: Option<&str>) -> (res: Option<String>)
    ensures
        opt_string(res) == match data_dir {
            Some(d) => Some(join_path(d@, preferences_file_name())),
            None => None,
        },
{
    match data_dir {
        None => None,
        Some(d) => {
            let mut path = d.to_owned();
            let n = d.unicode_len();
            if n > 0 && d.get_char(n - 1) != '/' {
                push_char(&mut path, '/');
            }
            append_str(&mut path, "preferences.json");
            proof {
                if d@.len() > 0 {
                    assert(d@.last() == d@[n - 1]);
                }
            }
            Some(path)
        }
    }
}

// ---------------------------------------------------------------------------
// Creating a project
// ---------------------------------------------------------------------------

/// The error for a project name that is empty once trimmed.
pub open spec fn project_name_required() -> Seq<char> {
    "Project name is required"@
}

/// A project's name as it is stored: the input trimmed, which must not be
/// empty.
pub fn project_name(name: &str) -> (res: Result<String, String>)
    ensures
        trimmed(name@).len() == 0 ==> (res matches Err(m) && m@ == project_name_required()),
        trimmed(name@).len() > 0 ==> (res matches Ok(n) && n@ == trimmed(name@)),
{
    let t = trim_string(name);
    if t.unicode_len() == 0 {
        Err("Project name is required".to_owned())
    } else {
        Ok(t)
    }
}

/// Whether a requested location names a remote project.
pub open spec fn requests_remote(location: Option<Seq<char>>) -> bool {
    location == Some("remote"@)
}

/// Where a new project's branches go: remote only when `remote` is asked
/// for and remote workspaces are available here; a local project otherwise.
pub fn project_location(location: Option<&str>, remote_available: bool) -> (res: ProjectLocation)
    ensures
        res == (if requests_remote(opt_str(location)) && remote_available {
            ProjectLocation::Remote
        } else {
            ProjectLocation::Local
        }),
{
    match location {
        Some(l) => {
            if str_eq(l, "remote") && remote_available {
                ProjectLocation::Remote
            } else {
                ProjectLocation::Local
            }
        },
        None => ProjectLocation::Local,
    }
}

/// A branch name the caller asked for: trimmed, and only when something is
/// left.
pub open spec fn requested_name(branch_name: Option<Seq<char>>) -> Option<Seq<char>> {
    match branch_name {
        Some(b) => if trimmed(b).len() > 0 {
            Some(trimmed(b))
        } else {
            None
        },
        None => None,
    }
}

/// The branch name a caller asked for, trimmed; `None` when none was given
/// or only white space was.
pub fn requested_branch_name(branch_name: Option<&str>) -> (res: Option<String>)
    ensures
        opt_string(res) == requested_name(opt_str(branch_name)),
{
    match branch_name {
        Some(b) => {
            let t = trim_string(b);
            if t.unicode_len() > 0 {
                Some(t)
            } else {
                None
            }
        },
        None => None,
    }
}

/// The records a new project starts with: the project itself and, when a
/// repository was given, that repository (primary) and the project's first
/// branch on it.
pub struct ProjectRecords {
    pub project: Project,
    pub first_repo: Option<(ProjectRepo, Branch)>,
}

/// What the first branch of a new project must hold.
pub open spec fn first_branch_ok(
    b: Branch,
    project_id: Seq<char>,
    repo_id: Seq<char>,
    location: ProjectLocation,
    branch_name: Seq<char>,
    base_branch: Seq<char>,
    workspace_name: Seq<char>,
    pr_number: Option<u64>,
) -> bool {
    &&& b.project_id@ == project_id
    &&& b.project_repo_id matches Some(r) && r@ == repo_id
    &&& b.branch_name@ == branch_name
    &&& b.base_branch@ == base_branch
    &&& b.pr_number == pr_number
    &&& b.id@.len() == 64
    &&& match location {
        ProjectLocation::Local => {
            &&& b.branch_type == BranchType::Local
            &&& b.workspace_name is None
            &&& b.workspace_status is None
        },
        ProjectLocation::Remote => {
            &&& b.branch_type == BranchType::Remote
            &&& b.workspace_name matches Some(w) && w@ == workspace_name
            &&& b.workspace_status == Some(crate::models::WorkspaceStatus::Starting)
        },
    }
}

/// The records `create_project` stores for a new project.
///
/// `name` is checked and trimmed (`project_name`). The first branch is
/// named `branch_name` when the caller asked for one (`requested_branch_name`)
/// and `inferred_branch_name` otherwise; it starts from `base_branch`. On a
/// remote project it lives in workspace `workspace_name`, starting up.
/// The project, its repository and its branch each get a fresh random id.
pub fn new_project_records(
    name: &str,
    github_repo: Option<&str>,
    location: ProjectLocation,
    subpath: Option<&str>,
    branch_name: Option<&str>,
    inferred_branch_name: &str,
    pr_number: Option<u64>,
    base_branch: &str,
    workspace_name: &str,
    head_repo: Option<&str>,
) -> (res: Result<ProjectRecords, String>)
    ensures
        trimmed(name@).len() == 0 ==> (res matches Err(m) && m@ == project_name_required()),
        trimmed(name@).len() > 0 ==> (res matches Ok(r) && {
            let chosen = match requested_name(opt_str(branch_name)) {
                Some(b) => b,
                None => inferred_branch_name@,
            };
            &&& r.project.name@ == trimmed(name@)
            &&& r.project.id@.len() == 64
            &&& opt_string(r.project.github_repo) == opt_str(github_repo)
            &&& opt_string(r.project.subpath) == opt_str(subpath)
            &&& r.project.location == location
            &&& (r.first_repo is Some <==> github_repo is Some)
            &&& (r.first_repo matches Some((repo, branch)) ==> {
                &&& repo.project_id@ == r.project.id@
                &&& Some(repo.github_repo@) == opt_str(github_repo)
                &&& opt_string(repo.subpath) == opt_str(subpath)
                &&& repo.branch_name@ == chosen
                &&& repo.is_primary
                &&& opt_string(repo.head_repo) == opt_str(head_repo)
                &&& repo.id@.len() == 64
                &&& first_branch_ok(
                    branch,
                    r.project.id@,
                    repo.id@,
                    location,
                    chosen,
                    base_branch@,
                    workspace_name@,
                    pr_number,
                )
            })
        }),
{
    let trimmed_name = match project_name(name) {
        Ok(n) => n,
        Err(e) => {
            return Err(e);
        },
    };
    let chosen = match requested_branch_name(branch_name) {
        Some(b) => b,
        None => inferred_branch_name.to_owned(),
    };
    let project = Project {
        id: generate_token(),
        name: trimmed_name,
        github_repo: to_owned_opt(github_repo),
        subpath: to_owned_opt(subpath),
        location,
    };
    let first_repo = match github_repo {
        None => None,
        Some(repo_name) => {
            let repo = ProjectRepo {
                id: generate_token(),
                project_id: project.id.clone(),
                github_repo: repo_name.to_owned(),
                subpath: to_owned_opt(subpath),
                branch_name: chosen.clone(),
                is_primary: true,
                head_repo: to_owned_opt(head_repo),
            };
            let mut branch = match location {
                ProjectLocation::Local => Branch::new(project.id.as_str(), chosen.as_str(), base_branch),
                ProjectLocation::Remote => Branch::new_remote(
                    project.id.as_str(),
                    chosen.as_str(),
                    base_branch,
                    workspace_name,
                ),
            };
            branch.project_repo_id = Some(repo.id.clone());
            branch.pr_number = pr_number;
            Some((repo, branch))
        },
    };
    Ok(ProjectRecords { project, first_repo })
}

/// The error for a branch name that is empty once trimmed.
pub open spec fn branch_name_required() -> Seq<char> {
    "Branch name is required"@
}

/// A new branch name for a project repository: the input trimmed, which
/// must not be empty.
pub fn branch_name_for_update(branch_name: &str) -> (res: Result<String, String>)
    ensures
        trimmed(branch_name@).len() == 0 ==> (res matches Err(m) && m@ == branch_name_required()),
        trimmed(branch_name@).len() > 0 ==> (res matches Ok(n) && n@ == trimmed(branch_name@)),
{
    let t = trim_string(branch_name);
    if t.unicode_len() == 0 {
        Err("Branch name is required".to_owned())
    } else {
        Ok(t)
    }
}

// ---------------------------------------------------------------------------
// Repositories of a project
// ---------------------------------------------------------------------------

/// The key of a repository's action context: the repository and subpath.
pub struct ActionContextKey {
    pub github_repo: String,
    pub subpath: Option<String>,
}

/// The error for a project id that the store does not know.
pub open spec fn project_not_found(project_id: Seq<char>) -> Seq<char> {
    "Project not found: "@ + project_id
}

/// The error for a project without a primary repository.
pub open spec fn no_repository_attached() -> Seq<char> {
    "Project has no repository attached"@
}

/// Which action context a project's actions live in: that of its primary
/// repository and subpath. `project` is what the store holds under
/// `project_id`.
pub fn get_or_create_project_action_context(project_id: &str, project: Option<&Project>) -> (res:
    Result<ActionContextKey, String>)
    ensures
        match project {
            None => res matches Err(m) && m@ == project_not_found(project_id@),
            Some(p) => match p.github_repo {
                None => res matches Err(m) && m@ == no_repository_attached(),
                Some(repo) => res matches Ok(k) && k.github_repo@ == repo@ && opt_string(k.subpath)
                    == opt_string(p.subpath),
            },
        },
{
    match project {
        None => {
            let mut m = "Project not found: ".to_owned();
            append_str(&mut m, project_id);
            Err(m)
        },
        Some(p) => match &p.github_repo {
            None => Err("Project has no repository attached".to_owned()),
            Some(repo) => Ok(ActionContextKey { github_repo: repo.clone(), subpath: clone_opt(&p.subpath) }),
        },
    }
}

/// Whether branch `b` belongs to the project repository `repo_id`.
pub open spec fn on_repo(b: Branch, repo_id: Seq<char>) -> bool {
    b.project_repo_id matches Some(r) && r@ == repo_id
}

fn branch_on_repo(b: &Branch, repo_id: &str) -> (res: bool)
    ensures
        res == on_repo(*b, repo_id@),
{
    match &b.project_repo_id {
        Some(r) => str_eq(r.as_str(), repo_id),
        None => false,
    }
}

/// The first branch that belongs to the project repository `repo_id`, by
/// its position in `branches`.
pub fn branch_for_repo(branches: &[Branch], repo_id: &str) -> (res: Option<usize>)
    ensures
        match res {
            Some(i) => i < branches@.len() && on_repo(branches@[i as int], repo_id@) && forall|j: int|
                0 <= j < i ==> !on_repo(#[trigger] branches@[j], repo_id@),
            None => forall|j: int| 0 <= j < branches@.len() ==> !on_repo(#[trigger] branches@[j], repo_id@),
        },
{
    let n = branches.len();
    for i in 0..n
        invariant
            n == branches@.len(),
            forall|j: int| 0 <= j < i ==> !on_repo(#[trigger] branches@[j], repo_id@),
    {
        if branch_on_repo(&branches[i], repo_id) {
            return Some(i);
        }
    }
    None
}

/// The positions, in order, of all branches that belong to the project
/// repository `repo_id`: the branches a removal of that repository cleans
/// up and deletes.
pub fn branches_for_repo(branches: &[Branch], repo_id: &str) -> (res: Vec<usize>)
    ensures
        forall|k: int| 0 <= k < res@.len() ==> #[trigger] res@[k] < branches@.len() && on_repo(
            branches@[res@[k] as int],
            repo_id@,
        ),
        forall|j: int| 0 <= j < branches@.len() && on_repo(#[trigger] branches@[j], repo_id@) ==> res@.contains(
            j as usize,
        ),
        forall|k1: int, k2: int| 0 <= k1 < k2 < res@.len() ==> res@[k1] < res@[k2],
{
    let n = branches.len();
    let mut out: Vec<usize> = Vec::new();
    for i in 0..n
        invariant
            n == branches@.len(),
            forall|k: int| 0 <= k < out@.len() ==> #[trigger] out@[k] < i && on_repo(
                branches@[out@[k] as int],
                repo_id@,
            ),
            forall|j: int| 0 <= j < i && on_repo(#[trigger] branches@[j], repo_id@) ==> out@.contains(
                j as usize,
            ),
            forall|k1: int, k2: int| 0 <= k1 < k2 < out@.len() ==> out@[k1] < out@[k2],
    {
        if branch_on_repo(&branches[i], repo_id) {
            let ghost before = out@;
            out.push(i);
            proof {
                assert(out@[before.len() as int] == i);
                assert forall|j: int| 0 <= j <= i && on_repo(#[trigger] branches@[j], repo_id@) implies out@.contains(
                    j as usize,
                ) by {
                    if j < i {
                        let k = choose|k: int| 0 <= k < before.len() && before[k] == j as usize;
                        assert(out@[k] == j as usize);
                    } else {
                        assert(out@[before.len() as int] == j as usize);
                    }
                }
            }
        }
    }
    out
}

/// How the primary repository changes when a project repository is removed.
pub enum PrimaryChange {
    /// The removed repository was not the primary one: nothing changes.
    Unchanged,
    /// The repository at this position of the remaining ones becomes primary,
    /// and the project takes its repository and subpath.
    Promote(usize),
    /// No repository is left: the project keeps none.
    Clear,
}

/// The primary repository after a removal: when the primary one was removed,
/// the first of the remaining ones (as the store lists them) takes its place.
pub fn primary_after_removal(removed_was_primary: bool, remaining: &[ProjectRepo]) -> (res: PrimaryChange)
    ensures
        !removed_was_primary ==> res == PrimaryChange::Unchanged,
        removed_was_primary && remaining@.len() > 0 ==> res == PrimaryChange::Promote(0),
        removed_was_primary && remaining@.len() == 0 ==> res == PrimaryChange::Clear,
{
    if !removed_was_primary {
        PrimaryChange::Unchanged
    } else if remaining.len() > 0 {
        PrimaryChange::Promote(0)
    } else {
        PrimaryChange::Clear
    }
}

/// The repository and subpath a project records for its primary repository:
/// those of `repo`, or none when no repository is left.
pub fn project_primary_fields(repo: Option<&ProjectRepo>) -> (res: (Option<String>, Option<String>))
    ensures
        match repo {
            Some(r) => opt_string(res.0) == Some(r.github_repo@) && opt_string(res.1) == opt_string(r.subpath),
            None => res.0 is None && res.1 is None,
        },
{
    match repo {
        Some(r) => (Some(r.github_repo.clone()), clone_opt(&r.subpath)),
        None => (None, None),
    }
}

/// The error for a project repository id that the store does not know.
pub open spec fn project_repo_not_found(project_repo_id: Seq<char>) -> Seq<char> {
    "Project repo not found: "@ + project_repo_id
}

/// The project repository the store returned, or the error for its id.
pub fn found_project_repo(project_repo_id: &str, found: Option<ProjectRepo>) -> (res: Result<ProjectRepo, String>)
    ensures
        match found {
            Some(r) => res == Ok::<ProjectRepo, String>(r),
            None => res matches Err(m) && m@ == project_repo_not_found(project_repo_id@),
        },
{
    match found {
        Some(r) => Ok(r),
        None => {
            let mut m = "Project repo not found: ".to_owned();
            append_str(&mut m, project_repo_id);
            Err(m)
        },
    }
}

/// Whether a freshly added repository gets an automatic review.
///
/// On a remote branch (`local` false) it always does. On a local branch it
/// does when the branch is found (`branch_found`) and the commits since its
/// base could be listed (`commits_since_base` is `Some`) and there are some.
pub fn should_trigger_auto_review(local: bool, branch_found: bool, commits_since_base: Option<usize>) -> (res: bool)
    ensures
        res == (!local || (branch_found && (commits_since_base matches Some(n) && n > 0))),
{
    if !local {
        return true;
    }
    if !branch_found {
        return false;
    }
    match commits_since_base {
        Some(n) => n > 0,
        None => false,
    }
}

/// A base branch as a remote branch starts from it: `origin/<base>`, unless
/// it already names `origin`.
pub open spec fn origin_based(base: Seq<char>) -> Seq<char> {
    if has_prefix(base, "origin/"@) {
        base
    } else {
        "origin/"@ + base
    }
}

/// The base of a new remote branch (see `origin_based`).
pub fn origin_base(base: &str) -> (res: String)
    ensures
        res@ == origin_based(base@),
{
    let bc = chars_of(base);
    let pc = chars_of("origin/");
    if starts_with(bc.as_slice(), pc.as_slice()) {
        base.to_owned()
    } else {
        let mut s = "origin/".to_owned();
        append_str(&mut s, base);
        s
    }
}

/// The error for a project without a primary repository, by project id.
pub open spec fn project_without_repository(project_id: Seq<char>) -> Seq<char> {
    "Project '"@ + project_id + "' has no repository attached"@
}

/// The repository a new branch goes to: the one asked for by id
/// (`requested`, with what the store holds under that id), else the
/// project's primary one (`primary`).
pub fn target_repo(
    project_id: &str,
    requested: Option<(&str, Option<ProjectRepo>)>,
    primary: Option<ProjectRepo>,
) -> (res: Result<ProjectRepo, String>)
    ensures
        match requested {
            Some((id, found)) => match found {
                Some(r) => res == Ok::<ProjectRepo, String>(r),
                None => res matches Err(m) && m@ == project_repo_not_found(id@),
            },
            None => match primary {
                Some(r) => res == Ok::<ProjectRepo, String>(r),
                None => res matches Err(m) && m@ == project_without_repository(project_id@),
            },
        },
{
    match requested {
        Some((id, found)) => found_project_repo(id, found),
        None => match primary {
            Some(r) => Ok(r),
            None => {
                let mut m = "Project '".to_owned();
                append_str(&mut m, project_id);
                append_str(&mut m, "' has no repository attached");
                Err(m)
            },
        },
    }
}

/// The error for an action type that no action has.
pub open spec fn invalid_action_type(action_type: Seq<char>) -> Seq<char> {
    "Invalid action type: "@ + action_type
}

/// The parsed action type of an action being created or updated, or the
/// error for the text that did not parse (`parsed` is what the parser made
/// of `action_type`).
pub fn action_type_or_error<T>(action_type: &str, parsed: Option<T>) -> (res: Result<T, String>)
    ensures
        match parsed {
            Some(t) => res == Ok::<T, String>(t),
            None => res matches Err(m) && m@ == invalid_action_type(action_type@),
        },
{
    match parsed {
        Some(t) => Ok(t),
        None => {
            let mut m = "Invalid action type: ".to_owned();
            append_str(&mut m, action_type);
            Err(m)
        },
    }
}

/// The first branch of a new project belongs to its first repository, so
/// the setup that looks up a repository's branch (`branch_for_repo`) finds it.
pub proof fn lemma_first_branch_is_found(
    b: Branch,
    project_id: Seq<char>,
    repo_id: Seq<char>,
    location: ProjectLocation,
    branch_name: Seq<char>,
    base_branch: Seq<char>,
    workspace_name: Seq<char>,
    pr_number: Option<u64>,
)
    requires
        first_branch_ok(b, project_id, repo_id, location, branch_name, base_branch, workspace_name, pr_number),
    ensures
        on_repo(b, repo_id),
        (b.branch_type == BranchType::Local) == (location == ProjectLocation::Local),
{
}

// ---------------------------------------------------------------------------
// Setting up a newly added repository
// ---------------------------------------------------------------------------

/// Where the background setup of a newly added repository stands.
pub enum RepoSetupState {
    Begin,
    /// Looking up the branch created for the repository.
    FindingBranch,
    /// Creating the local worktree.
    SettingUpWorktree,
    /// Claiming the branch's setup (only one setup runs its actions).
    ClaimingSetup,
    /// Running the repository's setup actions.
    RunningPrerun,
    /// Cloning the repository into the remote workspace.
    CloningRemote,
    Finished,
}

/// What the setup learned from outside.
pub enum RepoSetupEvent {
    Go,
    /// The repository's branch: `Some(true)` for a branch in a remote
    /// workspace, `Some(false)` for a local one, `None` when there is none
    /// (or the branches could not be listed).
    BranchFound(Option<bool>),
    /// Whether the worktree was created.
    WorktreeReady(bool),
    /// Whether this setup won the claim (`None`: the claim failed).
    SetupClaimed(Option<bool>),
    /// Whether the setup actions ran.
    PrerunFinished(bool),
    /// Whether the clone into the workspace succeeded.
    RemoteCloned(bool),
}

/// What the setup does next.
pub enum RepoSetupAction {
    /// Announce the project's setup progress, then look up the branch.
    FindBranch,
    /// Create the branch's worktree.
    SetupWorktree,
    /// Announce the project's setup progress, then claim the branch's setup.
    ClaimSetup,
    /// Announce that setup actions run on the branch, then run them.
    RunPrerun,
    /// Clone the repository into the branch's workspace.
    CloneIntoWorkspace,
    /// Announce the project's progress when `progress`, then start an
    /// automatic review if the branch has commits (`local`: checked on its
    /// worktree); the setup is over.
    Review { local: bool, progress: bool },
    /// Announce the project's progress when `progress`; the setup is over.
    Stop { progress: bool },
    /// The event does not fit the state; nothing to do.
    Ignore,
}

/// One step of setting up a repository just added to a project. A local
/// branch gets a worktree; when this setup wins the claim, the setup actions
/// run; then a review may start. A remote branch gets the repository cloned
/// into its workspace, and a review may start when that succeeded. A missing
/// branch, a failed worktree or a failed clone ends the setup.
pub fn add_repo_setup_step(state: RepoSetupState, event: RepoSetupEvent) -> (res: (RepoSetupState, RepoSetupAction))
    ensures
        res == match (state, event) {
            (RepoSetupState::Begin, RepoSetupEvent::Go) => (RepoSetupState::FindingBranch, RepoSetupAction::FindBranch),
            (RepoSetupState::FindingBranch, RepoSetupEvent::BranchFound(None)) => (
                RepoSetupState::Finished,
                RepoSetupAction::Stop { progress: false },
            ),
            (RepoSetupState::FindingBranch, RepoSetupEvent::BranchFound(Some(false))) => (
                RepoSetupState::SettingUpWorktree,
                RepoSetupAction::SetupWorktree,
            ),
            (RepoSetupState::FindingBranch, RepoSetupEvent::BranchFound(Some(true))) => (
                RepoSetupState::CloningRemote,
                RepoSetupAction::CloneIntoWorkspace,
            ),
            (RepoSetupState::SettingUpWorktree, RepoSetupEvent::WorktreeReady(true)) => (
                RepoSetupState::ClaimingSetup,
                RepoSetupAction::ClaimSetup,
            ),
            (RepoSetupState::SettingUpWorktree, RepoSetupEvent::WorktreeReady(false)) => (
                RepoSetupState::Finished,
                RepoSetupAction::Stop { progress: false },
            ),
            (RepoSetupState::ClaimingSetup, RepoSetupEvent::SetupClaimed(Some(true))) => (
                RepoSetupState::RunningPrerun,
                RepoSetupAction::RunPrerun,
            ),
            (RepoSetupState::ClaimingSetup, RepoSetupEvent::SetupClaimed(_)) => (
                RepoSetupState::Finished,
                RepoSetupAction::Review { local: true, progress: false },
            ),
            (RepoSetupState::RunningPrerun, RepoSetupEvent::PrerunFinished(ok)) => (
                RepoSetupState::Finished,
                RepoSetupAction::Review { local: true, progress: ok },
            ),
            (RepoSetupState::CloningRemote, RepoSetupEvent::RemoteCloned(true)) => (
                RepoSetupState::Finished,
                RepoSetupAction::Review { local: false, progress: true },
            ),
            (RepoSetupState::CloningRemote, RepoSetupEvent::RemoteCloned(false)) => (
                RepoSetupState::Finished,
                RepoSetupAction::Stop { progress: true },
            ),
            (s, _) => (s, RepoSetupAction::Ignore),
        },
{
    match (state, event) {
        (RepoSetupState::Begin, RepoSetupEvent::Go) => (RepoSetupState::FindingBranch, RepoSetupAction::FindBranch),
        (RepoSetupState::FindingBranch, RepoSetupEvent::BranchFound(None)) => (
            RepoSetupState::Finished,
            RepoSetupAction::Stop { progress: false },
        ),
        (RepoSetupState::FindingBranch, RepoSetupEvent::BranchFound(Some(false))) => (
            RepoSetupState::SettingUpWorktree,
            RepoSetupAction::SetupWorktree,
        ),
        (RepoSetupState::FindingBranch, RepoSetupEvent::BranchFound(Some(true))) => (
            RepoSetupState::CloningRemote,
            RepoSetupAction::CloneIntoWorkspace,
        ),
        (RepoSetupState::SettingUpWorktree, RepoSetupEvent::WorktreeReady(true)) => (
            RepoSetupState::ClaimingSetup,
            RepoSetupAction::ClaimSetup,
        ),
        (RepoSetupState::SettingUpWorktree, RepoSetupEvent::WorktreeReady(false)) => (
            RepoSetupState::Finished,
            RepoSetupAction::Stop { progress: false },
        ),
        (RepoSetupState::ClaimingSetup, RepoSetupEvent::SetupClaimed(Some(true))) => (
            RepoSetupState::RunningPrerun,
            RepoSetupAction::RunPrerun,
        ),
        (RepoSetupState::ClaimingSetup, RepoSetupEvent::SetupClaimed(_)) => (
            RepoSetupState::Finished,
            RepoSetupAction::Review { local: true, progress: false },
        ),
        (RepoSetupState::RunningPrerun, RepoSetupEvent::PrerunFinished(ok)) => (
            RepoSetupState::Finished,
            RepoSetupAction::Review { local: true, progress: ok },
        ),
        (RepoSetupState::CloningRemote, RepoSetupEvent::RemoteCloned(true)) => (
            RepoSetupState::Finished,
            RepoSetupAction::Review { local: false, progress: true },
        ),
        (RepoSetupState::CloningRemote, RepoSetupEvent::RemoteCloned(false)) => (
            RepoSetupState::Finished,
            RepoSetupAction::Stop { progress: true },
        ),
        (s, _) => (s, RepoSetupAction::Ignore),
    }
}

} // verus!
