//! Publishing the files of a manifest as a pull request: one linear sequence
//! of steps, each of which needs what the step before it returned.
//!
//! The pipeline is a state machine. [`PipelineState::action`] says what the
//! caller has to do next, and [`PipelineState::advance`] takes in what came
//! of it. Nothing that a step has recorded is changed or taken back later.

use crate::chars::{chars_of, opt_text, push_all, push_str, string_of, texts};
use crate::http::{
    api_headers, build_headers, entry_views, is_success, push_status, status_is_success,
    status_text, HttpRequest, HttpRequestView, Method, RequestBody, RequestBodyView, TreeEntry,
    TreeEntryView,
};
use crate::manifest::{file_views, YamlFile, YamlFileView};
use crate::package_id::{identifier_parts, package_dir, push_package_dir, split_identifier};
use crate::text::{replace_char, replaced, trim, trimmed};
use vstd::prelude::*;

verus! {

/// The steps of the pipeline, in order, and its two final states.
#[derive(Debug, Clone, Copy, PartialEq, Eq, Structural)]
pub enum PipelineStep {
    /// Ask who the token belongs to.
    Identify,
    /// Ask for a fork of the upstream repository.
    Fork,
    /// Wait until the fork is ready.
    Settle,
    /// Read the tip of the default branch in the fork.
    BaseRef,
    /// Create one blob for each file.
    Blobs,
    /// Create the tree.
    Tree,
    /// Create the commit.
    Commit,
    /// Create the branch.
    Branch,
    /// Open the pull request.
    PullRequest,
    /// The pull request is open.
    Done,
    /// A step failed; nothing more is done.
    Failed,
}

/// What went wrong.
#[derive(Debug, Clone, Copy, PartialEq, Eq, Structural)]
pub enum FailureKind {
    /// The token is empty.
    MissingToken,
    /// The service did not accept the token.
    InvalidToken,
    /// A request could not be sent or answered.
    Transport,
    /// The service answered a request with a status that does not report
    /// success.
    Status,
    /// An answer could not be read.
    Parse,
}

/// Why the pipeline stopped: the kind of failure, the step at which it
/// happened, the status code of an answer that was refused, and what the
/// caller reported.
#[derive(Debug, Clone)]
pub struct PipelineError {
    pub kind: FailureKind,
    pub step: PipelineStep,
    pub status: u16,
    pub detail: String,
}

/// The texts of a [`PipelineError`].
pub struct PipelineErrorView {
    pub kind: FailureKind,
    pub step: PipelineStep,
    pub status: u16,
    pub detail: Seq<char>,
}

impl View for PipelineError {
    type V = PipelineErrorView;

    open spec fn view(&self) -> PipelineErrorView {
        PipelineErrorView {
            kind: self.kind,
            step: self.step,
            status: self.status,
            detail: self.detail@,
        }
    }
}

/// The view of an optional error.
pub open spec fn opt_error(o: Option<PipelineError>) -> Option<PipelineErrorView> {
    match o {
        Some(e) => Some(e@),
        None => None,
    }
}

/// What is to be published: a package version and its files, in order.
#[derive(Debug, Clone)]
pub struct PublicationRequest {
    pub package_identifier: String,
    pub version: String,
    pub files: Vec<YamlFile>,
}

/// The texts of a [`PublicationRequest`].
pub struct PublicationRequestView {
    pub package_identifier: Seq<char>,
    pub version: Seq<char>,
    pub files: Seq<YamlFileView>,
}

impl View for PublicationRequest {
    type V = PublicationRequestView;

    open spec fn view(&self) -> PublicationRequestView {
        PublicationRequestView {
            package_identifier: self.package_identifier@,
            version: self.version@,
            files: file_views(self.files@),
        }
    }
}

/// What an answer of the service holds, as far as the pipeline needs it.
#[derive(Debug, Clone)]
pub enum Reply {
    /// The answer could not be read.
    Unread { detail: String },
    /// The answer names a user.
    User { login: String },
    /// The answer names an object of the repository: a commit, a blob or a
    /// tree.
    Object { sha: String },
    /// The answer names a pull request.
    PullRequest { html_url: String },
    /// The answer holds nothing that is needed, or was not read because the
    /// step does not need it.
    Other,
}

/// What the caller reports after it has carried out an action.
#[derive(Debug, Clone)]
pub enum PipelineEvent {
    /// The request could not be sent, or no answer came.
    TransportFailed { detail: String },
    /// The service answered with this status code and this content.
    Replied { status: u16, reply: Reply },
    /// The wait is over.
    Settled,
}

/// What the caller has to do next.
#[derive(Debug, Clone)]
pub enum PipelineAction {
    /// Send the request and report the answer.
    Send(HttpRequest),
    /// Wait for so many seconds and report `Settled`.
    Wait { seconds: u64 },
    /// The pipeline is done: this is the address of the pull request.
    Finish { pr_url: String },
    /// The pipeline has failed.
    Fail(PipelineError),
}

/// The texts of a [`PipelineAction`].
pub enum PipelineActionView {
    Send(HttpRequestView),
    Wait { seconds: u64 },
    Finish { pr_url: Seq<char> },
    Fail(PipelineErrorView),
}

impl View for PipelineAction {
    type V = PipelineActionView;

    open spec fn view(&self) -> PipelineActionView {
        match self {
            PipelineAction::Send(r) => PipelineActionView::Send(r@),
            PipelineAction::Wait { seconds } => PipelineActionView::Wait { seconds: *seconds },
            PipelineAction::Finish { pr_url } => PipelineActionView::Finish { pr_url: pr_url@ },
            PipelineAction::Fail(e) => PipelineActionView::Fail(e@),
        }
    }
}

/// The state of one run of the pipeline: what was asked for, the step that
/// is due, and what the steps so far have returned.
#[derive(Debug)]
pub struct PipelineState {
    token: String,
    request: PublicationRequest,
    step: PipelineStep,
    login: Option<String>,
    base_commit_sha: Option<String>,
    blob_shas: Vec<String>,
    tree_sha: Option<String>,
    commit_sha: Option<String>,
    branch_name: Option<String>,
    pr_url: Option<String>,
    failure: Option<PipelineError>,
}

/// The texts of a [`PipelineState`].
pub struct PipelineStateView {
    pub token: Seq<char>,
    pub request: PublicationRequestView,
    pub step: PipelineStep,
    pub login: Option<Seq<char>>,
    pub base_commit_sha: Option<Seq<char>>,
    pub blob_shas: Seq<Seq<char>>,
    pub tree_sha: Option<Seq<char>>,
    pub commit_sha: Option<Seq<char>>,
    pub branch_name: Option<Seq<char>>,
    pub pr_url: Option<Seq<char>>,
    pub failure: Option<PipelineErrorView>,
}

impl View for PipelineState {
    type V = PipelineStateView;

    closed spec fn view(&self) -> PipelineStateView {
        PipelineStateView {
            token: self.token@,
            request: self.request@,
            step: self.step,
            login: opt_text(self.login),
            base_commit_sha: opt_text(self.base_commit_sha),
            blob_shas: texts(self.blob_shas@),
            tree_sha: opt_text(self.tree_sha),
            commit_sha: opt_text(self.commit_sha),
            branch_name: opt_text(self.branch_name),
            pr_url: opt_text(self.pr_url),
            failure: opt_error(self.failure),
        }
    }
}

/// The position of a step in the order of the pipeline.
pub open spec fn rank(step: PipelineStep) -> nat {
    match step {
        PipelineStep::Identify => 0,
        PipelineStep::Fork => 1,
        PipelineStep::Settle => 2,
        PipelineStep::BaseRef => 3,
        PipelineStep::Blobs => 4,
        PipelineStep::Tree => 5,
        PipelineStep::Commit => 6,
        PipelineStep::Branch => 7,
        PipelineStep::PullRequest => 8,
        PipelineStep::Done => 9,
        PipelineStep::Failed => 10,
    }
}

/// A state in which every step before the one that is due has recorded its
/// result, and no later step has.
pub open spec fn well_formed(s: PipelineStateView) -> bool {
    let r = rank(s.step);
    if s.step == PipelineStep::Failed {
        s.failure is Some
    } else {
        &&& s.failure is None
        &&& s.login is Some <==> r >= 1
        &&& s.base_commit_sha is Some <==> r >= 4
        &&& r < 4 ==> s.blob_shas.len() == 0
        &&& r == 4 ==> s.blob_shas.len() < s.request.files.len()
        &&& r > 4 ==> s.blob_shas.len() == s.request.files.len()
        &&& s.tree_sha is Some <==> r >= 6
        &&& s.commit_sha is Some <==> r >= 7
        &&& s.branch_name is Some <==> r >= 8
        &&& s.pr_url is Some <==> r >= 9
    }
}

/// The directory of a package version in the manifest repository. An
/// identifier without a dot stands for both publisher and package.
pub open spec fn version_dir(id: Seq<char>, version: Seq<char>) -> Seq<char> {
    let (publisher, package) = match identifier_parts(id) {
        Some(parts) => parts,
        None => (id, id),
    };
    package_dir(id, publisher, package) + "/"@ + version
}

/// The entries of the tree: one for each file, in the order of the files,
/// each at its path below the directory, as a regular file whose content is
/// the blob created for it.
pub open spec fn tree_entries(dir: Seq<char>, files: Seq<YamlFileView>, shas: Seq<Seq<char>>) -> Seq<
    TreeEntryView,
> {
    Seq::new(
        files.len(),
        |i: int|
            TreeEntryView {
                path: dir + "/"@ + files[i].file_name,
                mode: "100644"@,
                entry_type: "blob"@,
                sha: shas[i],
            },
    )
}

/// The message of the commit and the title of the pull request.
pub open spec fn commit_message(id: Seq<char>, version: Seq<char>) -> Seq<char> {
    "New version: "@ + id + " version "@ + version
}

/// The name of the branch: identifier, hyphen and version, with every dot
/// replaced by a hyphen.
pub open spec fn branch_text(id: Seq<char>, version: Seq<char>) -> Seq<char> {
    replaced(id + "-"@ + version, '.', "-"@)
}

/// The text of the pull request.
pub open spec fn pull_request_body(id: Seq<char>, version: Seq<char>) -> Seq<char> {
    "## Package: "@ + id + "\n## Version: "@ + version
        + "\n\nCreated with [UniCreate](https://github.com/drrakendu78/UniCreate)"@
}

/// An address of the Git data interface of the user's fork.
pub open spec fn fork_url(login: Seq<char>, tail: Seq<char>) -> Seq<char> {
    "https://api.github.com/repos/"@ + login + "/winget-pkgs/git/"@ + tail
}

/// A request to the programming interface with the token's headers.
pub open spec fn api_request(
    method: Method,
    url: Seq<char>,
    token: Seq<char>,
    body: RequestBodyView,
) -> HttpRequestView {
    HttpRequestView { method, url, headers: api_headers(Some(token)), body }
}

/// The request of a step that sends one.
pub open spec fn step_request(s: PipelineStateView) -> HttpRequestView {
    let id = s.request.package_identifier;
    let version = s.request.version;
    match s.step {
        PipelineStep::Identify => api_request(
            Method::Get,
            "https://api.github.com/user"@,
            s.token,
            RequestBodyView::Empty,
        ),
        PipelineStep::BaseRef => api_request(
            Method::Get,
            fork_url(s.login->0, "ref/heads/master"@),
            s.token,
            RequestBodyView::Empty,
        ),
        PipelineStep::Blobs => api_request(
            Method::Post,
            fork_url(s.login->0, "blobs"@),
            s.token,
            RequestBodyView::Blob {
                content: s.request.files[s.blob_shas.len() as int].content,
                encoding: "utf-8"@,
            },
        ),
        PipelineStep::Tree => api_request(
            Method::Post,
            fork_url(s.login->0, "trees"@),
            s.token,
            RequestBodyView::Tree {
                base_tree: s.base_commit_sha->0,
                tree: tree_entries(version_dir(id, version), s.request.files, s.blob_shas),
            },
        ),
        PipelineStep::Commit => api_request(
            Method::Post,
            fork_url(s.login->0, "commits"@),
            s.token,
            RequestBodyView::Commit {
                message: commit_message(id, version),
                tree: s.tree_sha->0,
                parent: s.base_commit_sha->0,
            },
        ),
        PipelineStep::Branch => api_request(
            Method::Post,
            fork_url(s.login->0, "refs"@),
            s.token,
            RequestBodyView::Ref {
                ref_name: "refs/heads/"@ + branch_text(id, version),
                sha: s.commit_sha->0,
            },
        ),
        PipelineStep::PullRequest => api_request(
            Method::Post,
            "https://api.github.com/repos/microsoft/winget-pkgs/pulls"@,
            s.token,
            RequestBodyView::PullRequest {
                title: commit_message(id, version),
                head: s.login->0 + ":"@ + s.branch_name->0,
                base: "master"@,
                body: pull_request_body(id, version),
            },
        ),
        _ => api_request(
            Method::Post,
            "https://api.github.com/repos/microsoft/winget-pkgs/forks"@,
            s.token,
            RequestBodyView::Empty,
        ),
    }
}

/// How long the pipeline waits after it has asked for the fork, in seconds.
pub open spec fn settle_seconds() -> u64 {
    3
}

/// What the caller has to do in a state.
pub open spec fn action_of(s: PipelineStateView) -> PipelineActionView {
    match s.step {
        PipelineStep::Settle => PipelineActionView::Wait { seconds: settle_seconds() },
        PipelineStep::Done => PipelineActionView::Finish { pr_url: s.pr_url->0 },
        PipelineStep::Failed => PipelineActionView::Fail(s.failure->0),
        _ => PipelineActionView::Send(step_request(s)),
    }
}

/// A step that sends a request.
pub open spec fn sends(step: PipelineStep) -> bool {
    step != PipelineStep::Settle && step != PipelineStep::Done && step != PipelineStep::Failed
}

/// A step that reads the answer to its request.
pub open spec fn reads_answer(step: PipelineStep) -> bool {
    sends(step) && step != PipelineStep::Branch
}

/// The state after a failure at the step that was due.
pub open spec fn failed(
    s: PipelineStateView,
    kind: FailureKind,
    status: u16,
    detail: Seq<char>,
) -> PipelineStateView {
    PipelineStateView {
        step: PipelineStep::Failed,
        failure: Some(PipelineErrorView { kind, step: s.step, status, detail }),
        ..s
    }
}

/// The step after the base commit is known, or after one more blob has been
/// created: the tree once there is a blob for every file.
pub open spec fn blobs_or_tree(blobs: nat, files: nat) -> PipelineStep {
    if blobs < files {
        PipelineStep::Blobs
    } else {
        PipelineStep::Tree
    }
}

/// The kind of failure that a refused request stands for: a token that the
/// service does not accept where the user was asked for, a refusal by status
/// at every other step.
pub open spec fn refusal_kind(step: PipelineStep) -> FailureKind {
    if step == PipelineStep::Identify {
        FailureKind::InvalidToken
    } else {
        FailureKind::Status
    }
}

/// The state after an answer that the step that is due does not read: the
/// fork and the branch count as made, and every other step is left as it is.
pub open spec fn taken_unread(s: PipelineStateView) -> PipelineStateView {
    match s.step {
        PipelineStep::Fork => PipelineStateView { step: PipelineStep::Settle, ..s },
        PipelineStep::Branch => PipelineStateView {
            step: PipelineStep::PullRequest,
            branch_name: Some(branch_text(s.request.package_identifier, s.request.version)),
            ..s
        },
        _ => s,
    }
}

/// The state after an answer whose status reports success. A step that
/// reads its answer fails where the answer cannot be read, records what the
/// answer names where that is what the step asked for, and is left as it is
/// by an answer that names something else.
pub open spec fn accepted(s: PipelineStateView, reply: Reply) -> PipelineStateView {
    match reply {
        Reply::Unread { detail } => if reads_answer(s.step) {
            failed(s, FailureKind::Parse, 0, detail@)
        } else {
            taken_unread(s)
        },
        Reply::User { login } => if s.step == PipelineStep::Identify {
            PipelineStateView { step: PipelineStep::Fork, login: Some(login@), ..s }
        } else {
            taken_unread(s)
        },
        Reply::Object { sha } => match s.step {
            PipelineStep::BaseRef => PipelineStateView {
                step: blobs_or_tree(0, s.request.files.len()),
                base_commit_sha: Some(sha@),
                ..s
            },
            PipelineStep::Blobs => PipelineStateView {
                step: blobs_or_tree(s.blob_shas.len() + 1, s.request.files.len()),
                blob_shas: s.blob_shas.push(sha@),
                ..s
            },
            PipelineStep::Tree => PipelineStateView {
                step: PipelineStep::Commit,
                tree_sha: Some(sha@),
                ..s
            },
            PipelineStep::Commit => PipelineStateView {
                step: PipelineStep::Branch,
                commit_sha: Some(sha@),
                ..s
            },
            _ => taken_unread(s),
        },
        Reply::PullRequest { html_url } => if s.step == PipelineStep::PullRequest {
            PipelineStateView { step: PipelineStep::Done, pr_url: Some(html_url@), ..s }
        } else {
            taken_unread(s)
        },
        Reply::Other => taken_unread(s),
    }
}

/// The state after an event. At every step that sends a request, a request
/// that could not be sent and an answer whose status does not report success
/// end the run in failure, with the step recorded. An event that does not
/// answer the action of the state leaves the state as it is.
pub open spec fn next_state(s: PipelineStateView, e: PipelineEvent) -> PipelineStateView {
    match e {
        PipelineEvent::TransportFailed { detail } => if sends(s.step) {
            failed(s, FailureKind::Transport, 0, detail@)
        } else {
            s
        },
        PipelineEvent::Replied { status, reply } => if !sends(s.step) {
            s
        } else if !is_success(status) {
            failed(s, refusal_kind(s.step), status, Seq::empty())
        } else {
            accepted(s, reply)
        },
        PipelineEvent::Settled => if s.step == PipelineStep::Settle {
            PipelineStateView { step: PipelineStep::BaseRef, ..s }
        } else {
            s
        },
    }
}

/// The state in which a run starts: at the first step, or failed at once
/// where the token is empty or white space only.
pub open spec fn initial_state(token: Seq<char>, request: PublicationRequestView) -> PipelineStateView {
    let missing = trimmed(token).len() == 0;
    PipelineStateView {
        token,
        request,
        step: if missing {
            PipelineStep::Failed
        } else {
            PipelineStep::Identify
        },
        login: None,
        base_commit_sha: None,
        blob_shas: Seq::empty(),
        tree_sha: None,
        commit_sha: None,
        branch_name: None,
        pr_url: None,
        failure: if missing {
            Some(
                PipelineErrorView {
                    kind: FailureKind::MissingToken,
                    step: PipelineStep::Identify,
                    status: 0,
                    detail: Seq::empty(),
                },
            )
        } else {
            None
        },
    }
}

/// What a message says first, for a request that could not be sent or was
/// refused.
pub open spec fn transport_prefix(step: PipelineStep) -> Seq<char> {
    match step {
        PipelineStep::Fork => "Fork failed: "@,
        PipelineStep::BaseRef => "Get ref failed: "@,
        PipelineStep::Blobs => "Blob create failed: "@,
        PipelineStep::Tree => "Tree create failed: "@,
        PipelineStep::Commit => "Commit create failed: "@,
        PipelineStep::Branch => "Branch create failed: "@,
        PipelineStep::PullRequest => "PR create failed: "@,
        _ => "Request failed: "@,
    }
}

/// What a message says before the caller's detail, for an answer that could
/// not be read.
pub open spec fn parse_prefix(step: PipelineStep) -> Seq<char> {
    match step {
        PipelineStep::Fork => "Fork parse: "@,
        PipelineStep::BaseRef => "Ref parse: "@,
        PipelineStep::Blobs => "Blob parse: "@,
        PipelineStep::Tree => "Tree parse: "@,
        PipelineStep::Commit => "Commit parse: "@,
        PipelineStep::PullRequest => "PR parse: "@,
        _ => "Parse error: "@,
    }
}

/// The message of an error.
pub open spec fn error_message(e: PipelineErrorView) -> Seq<char> {
    match e.kind {
        FailureKind::MissingToken => "Missing token"@,
        FailureKind::InvalidToken => "Invalid token (HTTP "@ + status_text(e.status) + ")"@,
        FailureKind::Transport => transport_prefix(e.step) + e.detail,
        FailureKind::Status => transport_prefix(e.step) + "HTTP "@ + status_text(e.status),
        FailureKind::Parse => parse_prefix(e.step) + e.detail,
    }
}

/// Every well-formed state leads to a well-formed state.
pub proof fn lemma_next_state_well_formed(s: PipelineStateView, e: PipelineEvent)
    requires
        well_formed(s),
    ensures
        well_formed(next_state(s, e)),
{
}

/// What a step has recorded is never changed: after any event, the request
/// and the token are as before, each result that was there is still there
/// with the same value, and the blobs created so far still come first.
pub proof fn law_recorded_results_stay(s: PipelineStateView, e: PipelineEvent)
    requires
        well_formed(s),
    ensures
        ({
            let t = next_state(s, e);
            &&& t.token == s.token
            &&& t.request == s.request
            &&& s.login is Some ==> t.login == s.login
            &&& s.base_commit_sha is Some ==> t.base_commit_sha == s.base_commit_sha
            &&& s.blob_shas.len() <= t.blob_shas.len()
            &&& t.blob_shas.take(s.blob_shas.len() as int) == s.blob_shas
            &&& s.tree_sha is Some ==> t.tree_sha == s.tree_sha
            &&& s.commit_sha is Some ==> t.commit_sha == s.commit_sha
            &&& s.branch_name is Some ==> t.branch_name == s.branch_name
            &&& s.pr_url is Some ==> t.pr_url == s.pr_url
            &&& s.failure is Some ==> t.failure == s.failure
        }),
{
    let t = next_state(s, e);
    assert(t.blob_shas.take(s.blob_shas.len() as int) =~= s.blob_shas);
}

/// The steps are taken in order: an event leaves the step as it is, moves to
/// the step that follows, or ends the run in failure. The step that creates
/// blobs is left out where there is no file, and it alone is taken more than
/// once. A run that is done or has failed stays as it is.
pub proof fn law_steps_in_order(s: PipelineStateView, e: PipelineEvent)
    requires
        well_formed(s),
    ensures
        ({
            let t = next_state(s, e);
            &&& rank(t.step) >= rank(s.step)
            &&& t.step == s.step || t.step == PipelineStep::Failed || rank(t.step) == rank(s.step)
                + 1 || (s.step == PipelineStep::BaseRef && t.step == PipelineStep::Tree
                && s.request.files.len() == 0)
            &&& (s.step == PipelineStep::Done || s.step == PipelineStep::Failed) ==> t == s
            &&& t.step == s.step && s.step != PipelineStep::Blobs ==> t == s
        }),
{
}

/// A request that the service refuses fails the run at the step that sent
/// it, whichever step that is: the next action is the failure, which names
/// the step and the status, nothing more is recorded, and no later request
/// is asked for. A branch that cannot be created, because it is there from
/// an earlier attempt or for any other reason, is never followed by a pull
/// request.
pub proof fn law_refused_step_fails(s: PipelineStateView, status: u16, reply: Reply)
    requires
        well_formed(s),
        sends(s.step),
        !is_success(status),
    ensures
        ({
            let t = next_state(s, PipelineEvent::Replied { status, reply });
            &&& t == failed(s, refusal_kind(s.step), status, Seq::empty())
            &&& t.step == PipelineStep::Failed
            &&& action_of(t) == PipelineActionView::Fail(
                PipelineErrorView {
                    kind: refusal_kind(s.step),
                    step: s.step,
                    status,
                    detail: Seq::empty(),
                },
            )
            &&& t.branch_name == s.branch_name
            &&& t.pr_url == s.pr_url
            &&& forall|e: PipelineEvent| next_state(t, e) == t
        }),
{
}

/// The tree has one entry for each file, in the order of the files: entry
/// `i` stands at the path of file `i` below the directory of the package
/// version and holds the blob that was created for file `i`.
pub proof fn law_tree_follows_files(s: PipelineStateView, i: int)
    requires
        well_formed(s),
        s.step == PipelineStep::Tree,
        0 <= i < s.request.files.len(),
    ensures
        action_of(s) matches PipelineActionView::Send(r) && r.body
            matches RequestBodyView::Tree { base_tree, tree } && base_tree == s.base_commit_sha->0
            && tree.len() == s.request.files.len() && tree[i].path == version_dir(
            s.request.package_identifier,
            s.request.version,
        ) + "/"@ + s.request.files[i].file_name && tree[i].sha == s.blob_shas[i]
            && tree[i].mode == "100644"@ && tree[i].entry_type == "blob"@,
{
}

fn text_of(o: &Option<String>) -> (r: &str)
    ensures
        o is Some ==> r@ == (o->0)@,
{
    match o {
        Some(s) => s.as_str(),
        None => "",
    }
}

fn copy_files(files: &[YamlFile]) -> (r: Vec<YamlFile>)
    ensures
        file_views(r@) == file_views(files@),
{
    let mut out: Vec<YamlFile> = Vec::new();
    let mut i: usize = 0;
    while i < files.len()
        invariant
            i <= files.len(),
            file_views(out@) == file_views(files@).take(i as int),
        decreases files.len() - i,
    {
        let f = YamlFile { file_name: files[i].file_name.clone(), content: files[i].content.clone() };
        proof {
            assert(f@ == files@[i as int]@);
            assert(file_views(out@.push(f)) == file_views(out@).push(f@));
            assert(file_views(files@).take(i + 1) == file_views(files@).take(i as int).push(f@));
        }
        out.push(f);
        i += 1;
    }
    proof {
        assert(file_views(files@).take(files.len() as int) == file_views(files@));
    }
    out
}

fn version_dir_of(id: &str, version: &str) -> (r: Vec<char>)
    ensures
        r@ == version_dir(id@, version@),
{
    let idv = chars_of(id);
    let mut out: Vec<char> = Vec::new();
    match split_identifier(&idv) {
        Some((publisher, package)) => push_package_dir(&mut out, &idv, &publisher, &package),
        None => push_package_dir(&mut out, &idv, &idv, &idv),
    }
    push_str(&mut out, "/");
    push_str(&mut out, version);
    out
}

fn commit_message_of(id: &str, version: &str) -> (r: String)
    ensures
        r@ == commit_message(id@, version@),
{
    let mut out = chars_of("New version: ");
    push_str(&mut out, id);
    push_str(&mut out, " version ");
    push_str(&mut out, version);
    string_of(&out)
}

fn branch_of(id: &str, version: &str) -> (r: Vec<char>)
    ensures
        r@ == branch_text(id@, version@),
{
    let mut joined = chars_of(id);
    push_str(&mut joined, "-");
    push_str(&mut joined, version);
    let hyphen = chars_of("-");
    replace_char(&joined, '.', &hyphen)
}

fn pull_request_body_of(id: &str, version: &str) -> (r: String)
    ensures
        r@ == pull_request_body(id@, version@),
{
    let mut out = chars_of("## Package: ");
    push_str(&mut out, id);
    push_str(&mut out, "\n## Version: ");
    push_str(&mut out, version);
    push_str(&mut out, "\n\nCreated with [UniCreate](https://github.com/drrakendu78/UniCreate)");
    string_of(&out)
}

fn fork_address(login: &str, tail: &str) -> (r: String)
    ensures
        r@ == fork_url(login@, tail@),
{
    let mut out = chars_of("https://api.github.com/repos/");
    push_str(&mut out, login);
    push_str(&mut out, "/winget-pkgs/git/");
    push_str(&mut out, tail);
    string_of(&out)
}

fn transport_prefix_of(step: PipelineStep) -> (r: &'static str)
    ensures
        r@ == transport_prefix(step),
{
    match step {
        PipelineStep::Fork => "Fork failed: ",
        PipelineStep::BaseRef => "Get ref failed: ",
        PipelineStep::Blobs => "Blob create failed: ",
        PipelineStep::Tree => "Tree create failed: ",
        PipelineStep::Commit => "Commit create failed: ",
        PipelineStep::Branch => "Branch create failed: ",
        PipelineStep::PullRequest => "PR create failed: ",
        _ => "Request failed: ",
    }
}

impl PipelineError {
    /// The message of the error.
    pub fn message(&self) -> (r: String)
        ensures
            r@ == error_message(self@),
    {
        match self.kind {
            FailureKind::MissingToken => "Missing token".to_owned(),
            FailureKind::InvalidToken => {
                let mut out = chars_of("Invalid token (HTTP ");
                push_status(&mut out, self.status);
                push_str(&mut out, ")");
                string_of(&out)
            },
            FailureKind::Transport => {
                let mut out = chars_of(transport_prefix_of(self.step));
                push_str(&mut out, self.detail.as_str());
                string_of(&out)
            },
            FailureKind::Status => {
                let mut out = chars_of(transport_prefix_of(self.step));
                push_str(&mut out, "HTTP ");
                push_status(&mut out, self.status);
                string_of(&out)
            },
            FailureKind::Parse => {
                let prefix = match self.step {
                    PipelineStep::Fork => "Fork parse: ",
                    PipelineStep::BaseRef => "Ref parse: ",
                    PipelineStep::Blobs => "Blob parse: ",
                    PipelineStep::Tree => "Tree parse: ",
                    PipelineStep::Commit => "Commit parse: ",
                    PipelineStep::PullRequest => "PR parse: ",
                    _ => "Parse error: ",
                };
                let mut out = chars_of(prefix);
                push_str(&mut out, self.detail.as_str());
                string_of(&out)
            },
        }
    }
}

/// Starts the publication of the given files as a new version of a package.
/// The run has failed at once where the token is empty or white space only;
/// otherwise its first step is due.
pub fn submit_manifest(token: &str, yaml_files: &[YamlFile], package_id: &str, version: &str) -> (r:
    PipelineState)
    ensures
        r.wf(),
        r@ == initial_state(
            token@,
            PublicationRequestView {
                package_identifier: package_id@,
                version: version@,
                files: file_views(yaml_files@),
            },
        ),
{
    let tv = chars_of(token);
    let missing = trim(&tv).len() == 0;
    let request = PublicationRequest {
        package_identifier: package_id.to_owned(),
        version: version.to_owned(),
        files: copy_files(yaml_files),
    };
    let failure = if missing {
        Some(
            PipelineError {
                kind: FailureKind::MissingToken,
                step: PipelineStep::Identify,
                status: 0,
                detail: String::new(),
            },
        )
    } else {
        None
    };
    let blob_shas: Vec<String> = Vec::new();
    proof {
        assert(texts(blob_shas@) == Seq::<Seq<char>>::empty());
    }
    PipelineState {
        token: token.to_owned(),
        request,
        step: if missing {
            PipelineStep::Failed
        } else {
            PipelineStep::Identify
        },
        login: None,
        base_commit_sha: None,
        blob_shas,
        tree_sha: None,
        commit_sha: None,
        branch_name: None,
        pr_url: None,
        failure,
    }
}

impl PipelineState {
    /// Whether every step before the one that is due has recorded its result.
    pub open spec fn wf(&self) -> bool {
        well_formed(self@)
    }

    fn request_to(&self, method: Method, url: String, body: RequestBody) -> (r: HttpRequest)
        ensures
            r@ == api_request(method, url@, self@.token, body@),
    {
        HttpRequest { method, url, headers: build_headers(self.token.as_str()), body }
    }

    fn entries(&self) -> (r: Vec<TreeEntry>)
        requires
            self@.blob_shas.len() == self@.request.files.len(),
        ensures
            entry_views(r@) == tree_entries(
                version_dir(self@.request.package_identifier, self@.request.version),
                self@.request.files,
                self@.blob_shas,
            ),
    {
        let dir = version_dir_of(
            self.request.package_identifier.as_str(),
            self.request.version.as_str(),
        );
        let ghost want = tree_entries(dir@, self@.request.files, self@.blob_shas);
        let mut out: Vec<TreeEntry> = Vec::new();
        let mut i: usize = 0;
        while i < self.request.files.len()
            invariant
                i <= self.request.files.len(),
                self.blob_shas.len() == self.request.files.len(),
                want == tree_entries(dir@, self@.request.files, self@.blob_shas),
                entry_views(out@) == want.take(i as int),
            decreases self.request.files.len() - i,
        {
            let mut path: Vec<char> = Vec::new();
            push_all(&mut path, &dir);
            push_str(&mut path, "/");
            push_str(&mut path, self.request.files[i].file_name.as_str());
            let entry = TreeEntry {
                path: string_of(&path),
                mode: "100644".to_owned(),
                entry_type: "blob".to_owned(),
                sha: self.blob_shas[i].clone(),
            };
            proof {
                assert(path@ == dir@ + "/"@ + self@.request.files[i as int].file_name);
                assert(entry@ == want[i as int]);
                assert(entry_views(out@.push(entry)) == entry_views(out@).push(entry@));
                assert(want.take(i + 1) == want.take(i as int).push(want[i as int]));
            }
            out.push(entry);
            i += 1;
        }
        proof {
            assert(want.take(want.len() as int) == want);
        }
        out
    }

    /// The step that is due.
    pub fn step(&self) -> (r: PipelineStep)
        ensures
            r == self@.step,
    {
        self.step
    }

    /// What the caller has to do next.
    pub fn action(&self) -> (r: PipelineAction)
        requires
            self.wf(),
        ensures
            r@ == action_of(self@),
    {
        let id = self.request.package_identifier.as_str();
        let version = self.request.version.as_str();
        let login = text_of(&self.login);
        match self.step {
            PipelineStep::Identify => PipelineAction::Send(
                self.request_to(
                    Method::Get,
                    "https://api.github.com/user".to_owned(),
                    RequestBody::Empty,
                ),
            ),
            PipelineStep::Fork => PipelineAction::Send(
                self.request_to(
                    Method::Post,
                    "https://api.github.com/repos/microsoft/winget-pkgs/forks".to_owned(),
                    RequestBody::Empty,
                ),
            ),
            PipelineStep::Settle => PipelineAction::Wait { seconds: 3 },
            PipelineStep::BaseRef => PipelineAction::Send(
                self.request_to(
                    Method::Get,
                    fork_address(login, "ref/heads/master"),
                    RequestBody::Empty,
                ),
            ),
            PipelineStep::Blobs => {
                let next = self.blob_shas.len();
                let body = RequestBody::Blob {
                    content: self.request.files[next].content.clone(),
                    encoding: "utf-8".to_owned(),
                };
                PipelineAction::Send(
                    self.request_to(Method::Post, fork_address(login, "blobs"), body),
                )
            },
            PipelineStep::Tree => {
                let body = RequestBody::Tree {
                    base_tree: text_of(&self.base_commit_sha).to_owned(),
                    tree: self.entries(),
                };
                PipelineAction::Send(
                    self.request_to(Method::Post, fork_address(login, "trees"), body),
                )
            },
            PipelineStep::Commit => {
                let body = RequestBody::Commit {
                    message: commit_message_of(id, version),
                    tree: text_of(&self.tree_sha).to_owned(),
                    parent: text_of(&self.base_commit_sha).to_owned(),
                };
                PipelineAction::Send(
                    self.request_to(Method::Post, fork_address(login, "commits"), body),
                )
            },
            PipelineStep::Branch => {
                let mut name = chars_of("refs/heads/");
                let branch = branch_of(id, version);
                push_all(&mut name, &branch);
                let body = RequestBody::Ref {
                    ref_name: string_of(&name),
                    sha: text_of(&self.commit_sha).to_owned(),
                };
                PipelineAction::Send(
                    self.request_to(Method::Post, fork_address(login, "refs"), body),
                )
            },
            PipelineStep::PullRequest => {
                let mut head = chars_of(login);
                push_str(&mut head, ":");
                push_str(&mut head, text_of(&self.branch_name));
                let body = RequestBody::PullRequest {
                    title: commit_message_of(id, version),
                    head: string_of(&head),
                    base: "master".to_owned(),
                    body: pull_request_body_of(id, version),
                };
                PipelineAction::Send(
                    self.request_to(
                        Method::Post,
                        "https://api.github.com/repos/microsoft/winget-pkgs/pulls".to_owned(),
                        body,
                    ),
                )
            },
            PipelineStep::Done => PipelineAction::Finish {
                pr_url: text_of(&self.pr_url).to_owned(),
            },
            PipelineStep::Failed => match &self.failure {
                Some(e) => PipelineAction::Fail(
                    PipelineError {
                        kind: e.kind,
                        step: e.step,
                        status: e.status,
                        detail: e.detail.clone(),
                    },
                ),
                None => vstd::pervasive::unreached(),
            },
        }
    }

    fn fail(&mut self, kind: FailureKind, status: u16, detail: String)
        ensures
            final(self)@ == failed(old(self)@, kind, status, detail@),
    {
        self.failure = Some(PipelineError { kind, step: self.step, status, detail });
        self.step = PipelineStep::Failed;
    }

    fn sends_request(&self) -> (r: bool)
        ensures
            r == sends(self@.step),
    {
        match self.step {
            PipelineStep::Settle | PipelineStep::Done | PipelineStep::Failed => false,
            _ => true,
        }
    }

    fn take_unread(&mut self)
        ensures
            final(self)@ == taken_unread(old(self)@),
    {
        match self.step {
            PipelineStep::Fork => {
                self.step = PipelineStep::Settle;
            },
            PipelineStep::Branch => {
                let branch = branch_of(
                    self.request.package_identifier.as_str(),
                    self.request.version.as_str(),
                );
                self.branch_name = Some(string_of(&branch));
                self.step = PipelineStep::PullRequest;
            },
            _ => {},
        }
    }

    fn accept(&mut self, reply: Reply)
        requires
            old(self).wf(),
        ensures
            final(self)@ == accepted(old(self)@, reply),
    {
        match reply {
            Reply::Unread { detail } => {
                if self.sends_request() && self.step != PipelineStep::Branch {
                    self.fail(FailureKind::Parse, 0, detail);
                } else {
                    self.take_unread();
                }
            },
            Reply::User { login } => {
                if self.step == PipelineStep::Identify {
                    self.login = Some(login);
                    self.step = PipelineStep::Fork;
                } else {
                    self.take_unread();
                }
            },
            Reply::Object { sha } => {
                match self.step {
                    PipelineStep::BaseRef => {
                        self.base_commit_sha = Some(sha);
                        self.step = if self.request.files.len() > 0 {
                            PipelineStep::Blobs
                        } else {
                            PipelineStep::Tree
                        };
                    },
                    PipelineStep::Blobs => {
                        proof {
                            assert(texts(self.blob_shas@.push(sha)) == texts(
                                self.blob_shas@,
                            ).push(sha@));
                        }
                        self.blob_shas.push(sha);
                        self.step = if self.blob_shas.len() < self.request.files.len() {
                            PipelineStep::Blobs
                        } else {
                            PipelineStep::Tree
                        };
                    },
                    PipelineStep::Tree => {
                        self.tree_sha = Some(sha);
                        self.step = PipelineStep::Commit;
                    },
                    PipelineStep::Commit => {
                        self.commit_sha = Some(sha);
                        self.step = PipelineStep::Branch;
                    },
                    _ => {
                        self.take_unread();
                    },
                }
            },
            Reply::PullRequest { html_url } => {
                if self.step == PipelineStep::PullRequest {
                    self.pr_url = Some(html_url);
                    self.step = PipelineStep::Done;
                } else {
                    self.take_unread();
                }
            },
            Reply::Other => {
                self.take_unread();
            },
        }
    }

    /// Takes in what came of the last action. An event that does not answer
    /// that action changes nothing.
    pub fn advance(&mut self, event: PipelineEvent)
        requires
            old(self).wf(),
        ensures
            final(self).wf(),
            final(self)@ == next_state(old(self)@, event),
    {
        proof {
            lemma_next_state_well_formed(self@, event);
        }
        match event {
            PipelineEvent::TransportFailed { detail } => {
                if self.sends_request() {
                    self.fail(FailureKind::Transport, 0, detail);
                }
            },
            PipelineEvent::Replied { status, reply } => {
                if self.sends_request() {
                    if !status_is_success(status) {
                        let kind = if self.step == PipelineStep::Identify {
                            FailureKind::InvalidToken
                        } else {
                            FailureKind::Status
                        };
                        self.fail(kind, status, String::new());
                    } else {
                        self.accept(reply);
                    }
                }
            },
            PipelineEvent::Settled => {
                if self.step == PipelineStep::Settle {
                    self.step = PipelineStep::BaseRef;
                }
            },
        }
    }
}

} // verus!
