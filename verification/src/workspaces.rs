//! Polling the status of remote workspaces: which answer a poll gives, and
//! which status is written back to a branch, for every outcome of the query.
use vstd::prelude::*;
use crate::models::{Branch, BranchType, WorkspaceStatus};
use crate::projects::opt_string;
use crate::text::{append_str, chars_of, eq_ignore_ascii_case, eq_ignoring_ascii_case, str_eq};

verus! {

/// Whether `needle` occurs in `hay`.
pub open spec fn occurs_in(hay: Seq<char>, needle: Seq<char>) -> bool {
    exists|i: int| 0 <= i && i + needle.len() <= hay.len() && #[trigger] hay.subrange(i, i + needle.len()) == needle
}

fn matches_at(hay: &[char], at: usize, needle: &[char]) -> (res: bool)
    requires
        at + needle@.len() <= hay@.len(),
    ensures
        res == (hay@.subrange(at as int, at + needle@.len()) == needle@),
{
    let n = needle.len();
    let hl = hay.len();
    for j in 0..n
        invariant
            n == needle@.len(),
            hl == hay@.len(),
            at + n <= hl,
            forall|k: int| 0 <= k < j ==> hay@[at + k] == needle@[k],
    {
        if hay[at + j] != needle[j] {
            assert(hay@.subrange(at as int, at + n)[j as int] != needle@[j as int]);
            return false;
        }
    }
    assert(hay@.subrange(at as int, at + n) =~= needle@);
    true
}

/// Whether `needle` occurs in `hay` (`str::contains`).
pub fn contains_chars(hay: &[char], needle: &[char]) -> (res: bool)
    ensures
        res == occurs_in(hay@, needle@),
{
    if needle.len() > hay.len() {
        proof {
            assert forall|i: int| 0 <= i && i + needle@.len() <= hay@.len() implies #[trigger] hay@.subrange(
                i,
                i + needle@.len(),
            ) != needle@ by {}
        }
        return false;
    }
    if needle.len() == 0 {
        assert(hay@.subrange(0int, 0int + needle@.len()) =~= needle@);
        return true;
    }
    let hl = hay.len();
    let last = hl - needle.len();
    let mut i: usize = 0;
    while i <= last
        invariant
            last + needle@.len() == hay@.len(),
            needle@.len() > 0,
            hl == hay@.len(),
            last < hl,
            i <= last + 1,
            forall|k: int| 0 <= k < i ==> #[trigger] hay@.subrange(k, k + needle@.len()) != needle@,
        decreases last + 1 - i,
    {
        if matches_at(hay, i, needle) {
            return true;
        }
        i = i + 1;
    }
    proof {
        assert forall|k: int| 0 <= k && k + needle@.len() <= hay@.len() implies #[trigger] hay@.subrange(
            k,
            k + needle@.len(),
        ) != needle@ by {
            assert(k < i);
        }
    }
    false
}

/// What `str::to_lowercase` gives for a string: its Unicode lower-case form.
pub uninterp spec fn unicode_lowercase(s: Seq<char>) -> Seq<char>;

/// `str::to_lowercase`; the result is named `unicode_lowercase`.
#[verifier::external_body]
fn to_lowercase(s: &str) -> (res: String)
    ensures
        res@ == unicode_lowercase(s@),
{
    s.to_lowercase()
}

/// Whether a failed workspace command said that the workspace was not
/// found: its output, lower-cased, holds `not found`.
pub fn says_not_found(output: &str) -> (res: bool)
    ensures
        res == occurs_in(unicode_lowercase(output@), "not found"@),
{
    let lower = to_lowercase(output);
    let hay = chars_of(lower.as_str());
    let needle = chars_of("not found");
    contains_chars(hay.as_slice(), needle.as_slice())
}

/// Whether `peer` is another remote branch whose workspace `ws` is running.
pub open spec fn running_peer(peer: Branch, branch_id: Seq<char>, ws: Seq<char>) -> bool {
    &&& peer.id@ != branch_id
    &&& peer.branch_type == BranchType::Remote
    &&& opt_string(peer.workspace_name) == Some(ws)
    &&& peer.workspace_status == Some(WorkspaceStatus::Running)
}

/// Whether a starting branch is a further repository being cloned into a
/// workspace that another branch already runs. Such a branch stays
/// `Starting` until its own setup marks it running.
pub open spec fn secondary_clone_setup(branch: Branch, has_workspace_subpath: bool, peers: Seq<Branch>) -> bool {
    &&& branch.workspace_status == Some(WorkspaceStatus::Starting)
    &&& has_workspace_subpath
    &&& branch.workspace_name is Some
    &&& exists|k: int| 0 <= k < peers.len() && running_peer(#[trigger] peers[k], branch.id@, branch.workspace_name->0@)
}

fn is_running_peer(peer: &Branch, branch_id: &str, ws: &str) -> (res: bool)
    ensures
        res == running_peer(*peer, branch_id@, ws@),
{
    if str_eq(peer.id.as_str(), branch_id) {
        return false;
    }
    if peer.branch_type != BranchType::Remote {
        return false;
    }
    if peer.workspace_status != Some(WorkspaceStatus::Running) {
        return false;
    }
    match &peer.workspace_name {
        Some(w) => str_eq(w.as_str(), ws),
        None => false,
    }
}

/// Decides `secondary_clone_setup` for `branch`. `has_workspace_subpath`
/// tells whether the branch's repository sits in a subpath of its
/// workspace; `peers` are the branches of its project.
pub fn is_secondary_clone_setup(branch: &Branch, has_workspace_subpath: bool, peers: &[Branch]) -> (res: bool)
    ensures
        res == secondary_clone_setup(*branch, has_workspace_subpath, peers@),
{
    if branch.workspace_status != Some(WorkspaceStatus::Starting) || !has_workspace_subpath {
        return false;
    }
    let ws = match &branch.workspace_name {
        Some(w) => w,
        None => {
            return false;
        },
    };
    let n = peers.len();
    for k in 0..n
        invariant
            n == peers@.len(),
            branch.workspace_status == Some(WorkspaceStatus::Starting),
            has_workspace_subpath,
            branch.workspace_name matches Some(w) && w@ == ws@,
            forall|j: int| 0 <= j < k ==> !running_peer(#[trigger] peers@[j], branch.id@, ws@),
    {
        if is_running_peer(&peers[k], branch.id.as_str(), ws.as_str()) {
            assert(running_peer(peers@[k as int], branch.id@, branch.workspace_name->0@));
            assert(exists|j: int| 0 <= j < peers@.len() && running_peer(#[trigger] peers@[j], branch.id@, branch.workspace_name->0@));
            return true;
        }
    }
    false
}

/// Why a workspace query failed.
pub enum QueryFailure {
    /// The user is not logged in to the workspace service.
    NotAuthenticated,
    /// The command ran and failed with this output; `shown` is the error as
    /// it is displayed.
    CommandFailed { output: String, shown: String },
    /// Any other failure, as it is displayed.
    Other { shown: String },
}

/// The answer to a poll, and the status to write to the branch first.
pub enum PollOutcome {
    /// Answer with `status`; write `store` to the branch first when given.
    Report { status: WorkspaceStatus, store: Option<WorkspaceStatus> },
    /// Fail with `message`; write `store` to the branch first when given.
    Fail { message: String, store: Option<WorkspaceStatus> },
}

/// The message for a poll without a login.
pub open spec fn not_authenticated_message() -> Seq<char> {
    "Not authenticated with Blox. Run: sq login"@
}

/// What a poll of one branch's workspace answers. `current` is the branch's
/// recorded status; `query` is the status the workspace service reports
/// (mapped to a workspace status), or why the query failed.
///
/// A report is recorded and returned. Without a login the branch is marked
/// `Error` and the poll fails. On another failure a starting branch stays
/// `Starting`; a running one becomes `Stopped` when the workspace was not
/// found and stays `Running` otherwise (neither is written then, except the
/// stop); any other branch fails with the error.
pub fn poll_workspace_outcome(current: Option<WorkspaceStatus>, query: Result<WorkspaceStatus, QueryFailure>) -> (res:
    PollOutcome)
    ensures
        match query {
            Ok(s) => res == PollOutcome::Report { status: s, store: Some(s) },
            Err(QueryFailure::NotAuthenticated) => res matches PollOutcome::Fail { message, store } && message@
                == not_authenticated_message() && store == Some(WorkspaceStatus::Error),
            Err(QueryFailure::CommandFailed { output, shown }) => if current == Some(WorkspaceStatus::Starting) {
                res == PollOutcome::Report { status: WorkspaceStatus::Starting, store: None }
            } else if current == Some(WorkspaceStatus::Running) {
                if occurs_in(unicode_lowercase(output@), "not found"@) {
                    res == PollOutcome::Report {
                        status: WorkspaceStatus::Stopped,
                        store: Some(WorkspaceStatus::Stopped),
                    }
                } else {
                    res == PollOutcome::Report { status: WorkspaceStatus::Running, store: None }
                }
            } else {
                res matches PollOutcome::Fail { message, store } && message@ == shown@ && store is None
            },
            Err(QueryFailure::Other { shown }) => if current == Some(WorkspaceStatus::Starting) {
                res == PollOutcome::Report { status: WorkspaceStatus::Starting, store: None }
            } else if current == Some(WorkspaceStatus::Running) {
                res == PollOutcome::Report { status: WorkspaceStatus::Running, store: None }
            } else {
                res matches PollOutcome::Fail { message, store } && message@ == shown@ && store is None
            },
        },
{
    match query {
        Ok(s) => PollOutcome::Report { status: s, store: Some(s) },
        Err(QueryFailure::NotAuthenticated) => PollOutcome::Fail {
            message: "Not authenticated with Blox. Run: sq login".to_owned(),
            store: Some(WorkspaceStatus::Error),
        },
        Err(QueryFailure::CommandFailed { output, shown }) => {
            let not_found = says_not_found(output.as_str());
            if current == Some(WorkspaceStatus::Starting) {
                PollOutcome::Report { status: WorkspaceStatus::Starting, store: None }
            } else if current == Some(WorkspaceStatus::Running) {
                if not_found {
                    PollOutcome::Report { status: WorkspaceStatus::Stopped, store: Some(WorkspaceStatus::Stopped) }
                } else {
                    PollOutcome::Report { status: WorkspaceStatus::Running, store: None }
                }
            } else {
                PollOutcome::Fail { message: shown, store: None }
            }
        },
        Err(QueryFailure::Other { shown }) => {
            if current == Some(WorkspaceStatus::Starting) {
                PollOutcome::Report { status: WorkspaceStatus::Starting, store: None }
            } else if current == Some(WorkspaceStatus::Running) {
                PollOutcome::Report { status: WorkspaceStatus::Running, store: None }
            } else {
                PollOutcome::Fail { message: shown, store: None }
            }
        },
    }
}

/// The message when the list of workspaces cannot be read.
pub fn list_failure_message(failure: QueryFailure) -> (res: String)
    ensures
        match failure {
            QueryFailure::NotAuthenticated => res@ == not_authenticated_message(),
            QueryFailure::CommandFailed { output: _, shown } => res@ == shown@,
            QueryFailure::Other { shown } => res@ == shown@,
        },
{
    match failure {
        QueryFailure::NotAuthenticated => "Not authenticated with Blox. Run: sq login".to_owned(),
        QueryFailure::CommandFailed { output: _, shown } => shown,
        QueryFailure::Other { shown } => shown,
    }
}

/// What a poll of many branches at once records for one branch.
pub struct ListedOutcome {
    /// The status reported for the branch.
    pub status: WorkspaceStatus,
    /// The status written to the branch first, if any.
    pub store: Option<WorkspaceStatus>,
    /// Whether the branch's setup progress is fetched (its workspace is starting).
    pub starting: bool,
}

/// The entry for one branch when all workspaces are listed at once.
/// `listed` is the branch's workspace status as the list reports it
/// (mapped), or `None` when the workspace is not in the list.
///
/// A listed workspace's status is recorded and reported, and its setup
/// progress is fetched while it starts. An unlisted workspace of a starting
/// branch is reported starting (progress fetched); of a running branch, it
/// is recorded and reported stopped; any other branch gets no entry.
pub fn listed_workspace_outcome(current: Option<WorkspaceStatus>, listed: Option<WorkspaceStatus>) -> (res: Option<
    ListedOutcome,
>)
    ensures
        match listed {
            Some(s) => res == Some(
                ListedOutcome { status: s, store: Some(s), starting: s == WorkspaceStatus::Starting },
            ),
            None => if current == Some(WorkspaceStatus::Starting) {
                res == Some(ListedOutcome { status: WorkspaceStatus::Starting, store: None, starting: true })
            } else if current == Some(WorkspaceStatus::Running) {
                res == Some(
                    ListedOutcome {
                        status: WorkspaceStatus::Stopped,
                        store: Some(WorkspaceStatus::Stopped),
                        starting: false,
                    },
                )
            } else {
                res is None
            },
        },
{
    match listed {
        Some(s) => Some(ListedOutcome { status: s, store: Some(s), starting: s == WorkspaceStatus::Starting }),
        None => {
            if current == Some(WorkspaceStatus::Starting) {
                Some(ListedOutcome { status: WorkspaceStatus::Starting, store: None, starting: true })
            } else if current == Some(WorkspaceStatus::Running) {
                Some(
                    ListedOutcome {
                        status: WorkspaceStatus::Stopped,
                        store: Some(WorkspaceStatus::Stopped),
                        starting: false,
                    },
                )
            } else {
                None
            }
        },
    }
}

// ---------------------------------------------------------------------------
// Starting a workspace
// ---------------------------------------------------------------------------

/// `https://github.com/<slug>.git?ref=<ref>`: where a new workspace clones
/// its repository from.
pub open spec fn workspace_source(repo_slug: Seq<char>, ref_name: Seq<char>) -> Seq<char> {
    "https://github.com/"@ + repo_slug + ".git?ref="@ + ref_name
}

/// The source a workspace is started from (see `workspace_source`).
pub fn workspace_source_url(repo_slug: &str, ref_name: &str) -> (res: String)
    ensures
        res@ == workspace_source(repo_slug@, ref_name@),
{
    let mut s = "https://github.com/".to_owned();
    append_str(&mut s, repo_slug);
    append_str(&mut s, ".git?ref=");
    append_str(&mut s, ref_name);
    s
}

/// Where the start of a workspace stands.
pub enum StartState {
    /// Nothing done yet.
    Begin,
    /// The login is being checked.
    CheckingAuth,
    /// The shared workspace is being asked whether it already runs.
    QueryingShared,
    /// The repository is being cloned into the running shared workspace.
    CloningIntoShared,
    /// The workspace is being started.
    Starting,
    /// The feature branch is being fetched from `origin`.
    Fetching,
    /// The feature branch is being checked out.
    CheckingOut,
    /// The start is over.
    Finished,
}

/// What the caller learned from outside.
pub enum StartEvent {
    /// Begin the start.
    Go,
    /// The login check passed, or failed with this message.
    AuthChecked(Result<(), String>),
    /// The shared workspace's reported status (`None`: unknown or the query
    /// failed).
    SharedStatus(Option<String>),
    /// The clone into the shared workspace finished, or failed with this message.
    Cloned(Result<(), String>),
    /// The workspace start finished, or failed.
    Started(Result<(), StartFailure>),
    /// Whether the feature branch exists on `origin`.
    Fetched(bool),
    /// The checkout finished (its failure is only logged).
    CheckedOut,
}

/// Why a workspace did not start.
pub enum StartFailure {
    /// The user is not logged in.
    NotAuthenticated,
    /// The user must finish onboarding first; shown as this message.
    NeedsOnboarding(String),
    /// Anything else: the workspace is left starting for polling to resolve.
    Other(String),
}

/// What the caller does next.
pub enum StartAction {
    /// Check the login.
    CheckAuth,
    /// Ask for the status of the shared workspace.
    QuerySharedWorkspace,
    /// Clone the repository into the running shared workspace.
    CloneIntoShared,
    /// Start the workspace from `workspace_source`.
    StartWorkspace,
    /// Fetch the feature branch from `origin`.
    FetchBranch,
    /// Check the feature branch out: `checkout -B <branch> origin/<branch>`
    /// when it exists on `origin` (`true`), else `checkout -b <branch>`.
    Checkout(bool),
    /// Done: record `store` for the branch when given, start an automatic
    /// review when `review` holds, and answer success.
    Succeed { store: Option<WorkspaceStatus>, review: bool },
    /// Done: record `store` when given and fail with `message`.
    Fail { message: String, store: Option<WorkspaceStatus> },
    /// The event does not fit the state; nothing to do.
    Ignore,
}

/// Whether a reported workspace status means it runs (`running` in any
/// ASCII case).
pub open spec fn reports_running(status: Option<Seq<char>>) -> bool {
    status matches Some(s) && eq_ignoring_ascii_case(s, "running"@)
}

/// One step of starting a branch's remote workspace. `shared` tells whether
/// the branch's repository lives in a subpath of a shared workspace;
/// `first_start` whether the branch was still `Starting` (a review starts
/// after its first start).
///
/// The login is checked first (failure: the branch is marked `Error`). A
/// repository of a shared workspace that already runs is cloned into it and
/// the branch marked `Running`. Otherwise the workspace is started: without
/// a login, or when onboarding is missing, the branch is marked `Error` and
/// the start fails; other failures leave it starting and succeed. After a
/// start, the feature branch is fetched and checked out (from `origin` when
/// it exists there).
pub fn start_workspace_step(state: StartState, event: StartEvent, shared: bool, first_start: bool) -> (res: (
    StartState,
    StartAction,
))
    ensures
        match (state, event) {
            (StartState::Begin, StartEvent::Go) => res.0 == StartState::CheckingAuth && res.1
                == StartAction::CheckAuth,
            (StartState::CheckingAuth, StartEvent::AuthChecked(Err(e))) => res.0 == StartState::Finished
                && res.1 == StartAction::Fail { message: e, store: Some(WorkspaceStatus::Error) },
            (StartState::CheckingAuth, StartEvent::AuthChecked(Ok(()))) => if shared {
                res.0 == StartState::QueryingShared && res.1 == StartAction::QuerySharedWorkspace
            } else {
                res.0 == StartState::Starting && res.1 == StartAction::StartWorkspace
            },
            (StartState::QueryingShared, StartEvent::SharedStatus(s)) => if reports_running(
                match s {
                    Some(x) => Some(x@),
                    None => None,
                },
            ) {
                res.0 == StartState::CloningIntoShared && res.1 == StartAction::CloneIntoShared
            } else {
                res.0 == StartState::Starting && res.1 == StartAction::StartWorkspace
            },
            (StartState::CloningIntoShared, StartEvent::Cloned(Ok(()))) => res.0 == StartState::Finished
                && res.1 == StartAction::Succeed { store: Some(WorkspaceStatus::Running), review: first_start },
            (StartState::CloningIntoShared, StartEvent::Cloned(Err(e))) => res.0 == StartState::Finished
                && res.1 == StartAction::Fail { message: e, store: None },
            (StartState::Starting, StartEvent::Started(Ok(()))) => res.0 == StartState::Fetching && res.1
                == StartAction::FetchBranch,
            (StartState::Starting, StartEvent::Started(Err(StartFailure::NotAuthenticated))) => res.0
                == StartState::Finished && (res.1 matches StartAction::Fail { message, store } && message@
                == not_authenticated_message() && store == Some(WorkspaceStatus::Error)),
            (StartState::Starting, StartEvent::Started(Err(StartFailure::NeedsOnboarding(e)))) => res.0
                == StartState::Finished && res.1 == StartAction::Fail {
                message: e,
                store: Some(WorkspaceStatus::Error),
            },
            (StartState::Starting, StartEvent::Started(Err(StartFailure::Other(_)))) => res.0
                == StartState::Finished && res.1 == StartAction::Succeed { store: None, review: false },
            (StartState::Fetching, StartEvent::Fetched(found)) => res.0 == StartState::CheckingOut && res.1
                == StartAction::Checkout(found),
            (StartState::CheckingOut, StartEvent::CheckedOut) => res.0 == StartState::Finished && res.1
                == StartAction::Succeed { store: None, review: first_start },
            (s, _) => res.0 == s && res.1 == StartAction::Ignore,
        },
{
    match (state, event) {
        (StartState::Begin, StartEvent::Go) => (StartState::CheckingAuth, StartAction::CheckAuth),
        (StartState::CheckingAuth, StartEvent::AuthChecked(Err(e))) => (
            StartState::Finished,
            StartAction::Fail { message: e, store: Some(WorkspaceStatus::Error) },
        ),
        (StartState::CheckingAuth, StartEvent::AuthChecked(Ok(()))) => {
            if shared {
                (StartState::QueryingShared, StartAction::QuerySharedWorkspace)
            } else {
                (StartState::Starting, StartAction::StartWorkspace)
            }
        },
        (StartState::QueryingShared, StartEvent::SharedStatus(s)) => {
            let running = match &s {
                Some(x) => {
                    let xc = chars_of(x.as_str());
                    let rc = chars_of("running");
                    eq_ignore_ascii_case(xc.as_slice(), rc.as_slice())
                },
                None => false,
            };
            if running {
                (StartState::CloningIntoShared, StartAction::CloneIntoShared)
            } else {
                (StartState::Starting, StartAction::StartWorkspace)
            }
        },
        (StartState::CloningIntoShared, StartEvent::Cloned(Ok(()))) => (
            StartState::Finished,
            StartAction::Succeed { store: Some(WorkspaceStatus::Running), review: first_start },
        ),
        (StartState::CloningIntoShared, StartEvent::Cloned(Err(e))) => (
            StartState::Finished,
            StartAction::Fail { message: e, store: None },
        ),
        (StartState::Starting, StartEvent::Started(Ok(()))) => (StartState::Fetching, StartAction::FetchBranch),
        (StartState::Starting, StartEvent::Started(Err(StartFailure::NotAuthenticated))) => (
            StartState::Finished,
            StartAction::Fail {
                message: "Not authenticated with Blox. Run: sq login".to_owned(),
                store: Some(WorkspaceStatus::Error),
            },
        ),
        (StartState::Starting, StartEvent::Started(Err(StartFailure::NeedsOnboarding(e)))) => (
            StartState::Finished,
            StartAction::Fail { message: e, store: Some(WorkspaceStatus::Error) },
        ),
        (StartState::Starting, StartEvent::Started(Err(StartFailure::Other(_)))) => (
            StartState::Finished,
            StartAction::Succeed { store: None, review: false },
        ),
        (StartState::Fetching, StartEvent::Fetched(found)) => (StartState::CheckingOut, StartAction::Checkout(found)),
        (StartState::CheckingOut, StartEvent::CheckedOut) => (
            StartState::Finished,
            StartAction::Succeed { store: None, review: first_start },
        ),
        (s, _) => (s, StartAction::Ignore),
    }
}

/// The arguments of the checkout that creates the feature branch in a new
/// workspace: reset it to `origin/<branch>` when that exists, else create it.
pub fn checkout_args(branch_name: &str, on_origin: bool) -> (res: Vec<String>)
    ensures
        on_origin ==> res@.len() == 4 && res@[0]@ == "checkout"@ && res@[1]@ == "-B"@ && res@[2]@
            == branch_name@ && res@[3]@ == "origin/"@ + branch_name@,
        !on_origin ==> res@.len() == 3 && res@[0]@ == "checkout"@ && res@[1]@ == "-b"@ && res@[2]@
            == branch_name@,
{
    let mut v: Vec<String> = Vec::new();
    v.push("checkout".to_owned());
    if on_origin {
        v.push("-B".to_owned());
        v.push(branch_name.to_owned());
        let mut r = "origin/".to_owned();
        append_str(&mut r, branch_name);
        v.push(r);
    } else {
        v.push("-b".to_owned());
        v.push(branch_name.to_owned());
    }
    v
}

/// The error when resuming a workspace that no branch uses.
pub open spec fn no_branches_for_workspace(workspace_name: Seq<char>) -> Seq<char> {
    "No branches found for workspace: "@ + workspace_name
}

/// Resuming a workspace needs at least one branch in it; `branch_count` is
/// how many branches the store marked `Starting` for it.
pub fn check_resumable(workspace_name: &str, branch_count: usize) -> (res: Result<(), String>)
    ensures
        branch_count == 0 ==> (res matches Err(m) && m@ == no_branches_for_workspace(workspace_name@)),
        branch_count > 0 ==> res is Ok,
{
    if branch_count == 0 {
        let mut m = "No branches found for workspace: ".to_owned();
        append_str(&mut m, workspace_name);
        Err(m)
    } else {
        Ok(())
    }
}

} // verus!
