//! The workflow orchestrator: the sync flow (stage, commit, push) and the
//! release flow (sync, resolve remote, tag, push tag, publish) as explicit
//! state machines. Each state names the one external operation to perform
//! next; feeding its result back through the step function yields the next
//! state. A failed step ends the flow, and side effects of completed steps
//! are never rolled back: the terminal state records what was already done.

use vstd::prelude::*;

use crate::remote::parse_github_owner_and_repo;
use crate::remote::{spec_resolve, spec_resolve_err_head, spec_resolve_err_tail};
use crate::status::{has_staged_changes, parse_porcelain_output, spec_has_staged, spec_parse};
use crate::text::{nonblank_trimmed, spec_decimal, spec_trim, trim, u16_to_decimal};

verus! {

/// The result of one finished flow: work done, nothing to do, or stopped
/// with a reason. Never an exception past the flow boundary.
#[derive(Clone, Debug, PartialEq, Eq)]
pub enum WorkflowOutcome {
    Completed { message: String },
    Skipped,
    Aborted { reason: String },
}

/// Mathematical model of a [`WorkflowOutcome`].
#[verifier::ext_equal]
pub ghost enum WorkflowOutcomeView {
    Completed { message: Seq<char> },
    Skipped,
    Aborted { reason: Seq<char> },
}

impl View for WorkflowOutcome {
    type V = WorkflowOutcomeView;

    open spec fn view(&self) -> WorkflowOutcomeView {
        match self {
            WorkflowOutcome::Completed { message } => WorkflowOutcomeView::Completed {
                message: message@,
            },
            WorkflowOutcome::Skipped => WorkflowOutcomeView::Skipped,
            WorkflowOutcome::Aborted { reason } => WorkflowOutcomeView::Aborted {
                reason: reason@,
            },
        }
    }
}

/// What a completed external command returned: whether it exited
/// successfully, and both of its output streams.
#[derive(Clone, Debug, PartialEq, Eq)]
pub struct CmdOutput {
    pub success: bool,
    pub stdout: String,
    pub stderr: String,
}

/// Mathematical model of a [`CmdOutput`].
#[verifier::ext_equal]
pub ghost struct CmdOutputView {
    pub success: bool,
    pub stdout: Seq<char>,
    pub stderr: Seq<char>,
}

impl View for CmdOutput {
    type V = CmdOutputView;

    open spec fn view(&self) -> CmdOutputView {
        CmdOutputView { success: self.success, stdout: self.stdout@, stderr: self.stderr@ }
    }
}

/// The model of a command result: the command's output, or the message
/// explaining why the command could not be started at all.
pub open spec fn cmd_result_view(r: Result<CmdOutput, String>) -> Result<CmdOutputView, Seq<char>> {
    match r {
        Ok(o) => Ok(o@),
        Err(e) => Err(e@),
    }
}

/// The first of two texts that is non-empty. A tool may put its
/// informational text on either stream, so callers check both.
pub open spec fn spec_prefer_nonempty(a: Seq<char>, b: Seq<char>) -> Seq<char> {
    if a.len() > 0 {
        a
    } else {
        b
    }
}

fn prefer_nonempty(a: String, b: String) -> (r: String)
    ensures
        r@ == spec_prefer_nonempty(a@, b@),
{
    if !a.as_str().is_empty() {
        a
    } else {
        b
    }
}

/// A state of the sync flow. Each `Await` state names the one external
/// operation whose result the flow is waiting for; `Finished` is
/// terminal and records which side effects already took place.
#[derive(Clone, Debug, PartialEq, Eq)]
pub enum SyncState {
    /// Waiting for `add .` (stage everything) to finish.
    AwaitStage,
    /// Waiting for the porcelain status query to finish.
    AwaitStatus,
    /// Waiting for the caller to supply a commit message.
    AwaitMessage,
    /// Waiting for the commit command to finish.
    AwaitCommit { message: String },
    /// Waiting for the push command to finish.
    AwaitPush,
    /// The flow is over; completed side effects persist as recorded.
    Finished { outcome: WorkflowOutcome, committed: bool, pushed: bool },
}

/// Mathematical model of a [`SyncState`].
#[verifier::ext_equal]
pub ghost enum SyncStateView {
    AwaitStage,
    AwaitStatus,
    AwaitMessage,
    AwaitCommit { message: Seq<char> },
    AwaitPush,
    Finished { outcome: WorkflowOutcomeView, committed: bool, pushed: bool },
}

impl View for SyncState {
    type V = SyncStateView;

    open spec fn view(&self) -> SyncStateView {
        match self {
            SyncState::AwaitStage => SyncStateView::AwaitStage,
            SyncState::AwaitStatus => SyncStateView::AwaitStatus,
            SyncState::AwaitMessage => SyncStateView::AwaitMessage,
            SyncState::AwaitCommit { message } => SyncStateView::AwaitCommit {
                message: message@,
            },
            SyncState::AwaitPush => SyncStateView::AwaitPush,
            SyncState::Finished { outcome, committed, pushed } => SyncStateView::Finished {
                outcome: outcome@,
                committed: *committed,
                pushed: *pushed,
            },
        }
    }
}

/// The result of the external operation a sync state was waiting for.
#[derive(Debug, PartialEq, Eq)]
pub enum SyncEvent {
    StageDone(Result<CmdOutput, String>),
    StatusReport(Result<CmdOutput, String>),
    MessageEntered(Option<String>),
    CommitDone(Result<CmdOutput, String>),
    PushDone(Result<CmdOutput, String>),
}

/// Mathematical model of a [`SyncEvent`].
#[verifier::ext_equal]
pub ghost enum SyncEventView {
    StageDone(Result<CmdOutputView, Seq<char>>),
    StatusReport(Result<CmdOutputView, Seq<char>>),
    MessageEntered(Option<Seq<char>>),
    CommitDone(Result<CmdOutputView, Seq<char>>),
    PushDone(Result<CmdOutputView, Seq<char>>),
}

impl View for SyncEvent {
    type V = SyncEventView;

    open spec fn view(&self) -> SyncEventView {
        match self {
            SyncEvent::StageDone(r) => SyncEventView::StageDone(cmd_result_view(*r)),
            SyncEvent::StatusReport(r) => SyncEventView::StatusReport(cmd_result_view(*r)),
            SyncEvent::MessageEntered(m) => SyncEventView::MessageEntered(
                match m {
                    Some(s) => Some(s@),
                    None => None,
                },
            ),
            SyncEvent::CommitDone(r) => SyncEventView::CommitDone(cmd_result_view(*r)),
            SyncEvent::PushDone(r) => SyncEventView::PushDone(cmd_result_view(*r)),
        }
    }
}

/// Shorthand for an aborted terminal sync state.
pub open spec fn sync_aborted(reason: Seq<char>, committed: bool, pushed: bool) -> SyncStateView {
    SyncStateView::Finished {
        outcome: WorkflowOutcomeView::Aborted { reason },
        committed,
        pushed,
    }
}

/// The transition function of the sync flow. A result that does not
/// answer the pending state leaves the state unchanged.
pub open spec fn spec_sync_step(s: SyncStateView, e: SyncEventView) -> SyncStateView {
    match (s, e) {
        (SyncStateView::AwaitStage, SyncEventView::StageDone(r)) => match r {
            Err(d) => sync_aborted("failed to run the stage command: "@ + d, false, false),
            Ok(o) => {
                if o.success {
                    SyncStateView::AwaitStatus
                } else {
                    sync_aborted("staging failed: "@ + o.stderr, false, false)
                }
            },
        },
        (SyncStateView::AwaitStatus, SyncEventView::StatusReport(r)) => match r {
            Err(d) => sync_aborted("failed to run the status query: "@ + d, false, false),
            Ok(o) => {
                if !o.success {
                    sync_aborted("the status query failed: "@ + o.stderr, false, false)
                } else if spec_has_staged(spec_parse(o.stdout)) {
                    SyncStateView::AwaitMessage
                } else {
                    SyncStateView::Finished {
                        outcome: WorkflowOutcomeView::Skipped,
                        committed: false,
                        pushed: false,
                    }
                }
            },
        },
        (SyncStateView::AwaitMessage, SyncEventView::MessageEntered(m)) => match m {
            Some(msg) => {
                if spec_trim(msg).len() > 0 {
                    SyncStateView::AwaitCommit { message: msg }
                } else {
                    sync_aborted("commit cancelled: no commit message was given"@, false, false)
                }
            },
            None => sync_aborted("commit cancelled: no commit message was given"@, false, false),
        },
        (SyncStateView::AwaitCommit { message: _ }, SyncEventView::CommitDone(r)) => match r {
            Err(d) => sync_aborted("failed to run the commit command: "@ + d, false, false),
            Ok(o) => {
                if o.success {
                    SyncStateView::AwaitPush
                } else {
                    sync_aborted(
                        "the commit failed: "@ + spec_prefer_nonempty(o.stderr, o.stdout),
                        false,
                        false,
                    )
                }
            },
        },
        (SyncStateView::AwaitPush, SyncEventView::PushDone(r)) => match r {
            Err(d) => sync_aborted("failed to run the push command: "@ + d, true, false),
            Ok(o) => {
                if o.success {
                    SyncStateView::Finished {
                        outcome: WorkflowOutcomeView::Completed {
                            message: spec_prefer_nonempty(o.stderr, o.stdout),
                        },
                        committed: true,
                        pushed: true,
                    }
                } else {
                    sync_aborted(
                        "the push failed (the commit exists locally; push it manually): "@
                            + o.stderr,
                        true,
                        false,
                    )
                }
            },
        },
        (other, _) => other,
    }
}

/// Advances the sync flow by the result of the operation its state was
/// waiting for.
pub fn sync_step(state: SyncState, event: SyncEvent) -> (r: SyncState)
    ensures
        r@ == spec_sync_step(state@, event@),
{
    match (state, event) {
        (SyncState::AwaitStage, SyncEvent::StageDone(res)) => match res {
            Err(d) => abort_state("failed to run the stage command: ", d, false, false),
            Ok(o) => {
                if o.success {
                    SyncState::AwaitStatus
                } else {
                    abort_state("staging failed: ", o.stderr, false, false)
                }
            },
        },
        (SyncState::AwaitStatus, SyncEvent::StatusReport(res)) => match res {
            Err(d) => abort_state("failed to run the status query: ", d, false, false),
            Ok(o) => {
                if !o.success {
                    abort_state("the status query failed: ", o.stderr, false, false)
                } else {
                    let st = parse_porcelain_output(o.stdout.as_str());
                    if has_staged_changes(&st) {
                        SyncState::AwaitMessage
                    } else {
                        SyncState::Finished {
                            outcome: WorkflowOutcome::Skipped,
                            committed: false,
                            pushed: false,
                        }
                    }
                }
            },
        },
        (SyncState::AwaitMessage, SyncEvent::MessageEntered(m)) => match m {
            Some(msg) => match nonblank_trimmed(msg.as_str()) {
                Some(_) => SyncState::AwaitCommit { message: msg },
                None => SyncState::Finished {
                    outcome: WorkflowOutcome::Aborted {
                        reason: "commit cancelled: no commit message was given".to_owned(),
                    },
                    committed: false,
                    pushed: false,
                },
            },
            None => SyncState::Finished {
                outcome: WorkflowOutcome::Aborted {
                    reason: "commit cancelled: no commit message was given".to_owned(),
                },
                committed: false,
                pushed: false,
            },
        },
        (SyncState::AwaitCommit { message: _ }, SyncEvent::CommitDone(res)) => match res {
            Err(d) => abort_state("failed to run the commit command: ", d, false, false),
            Ok(o) => {
                if o.success {
                    SyncState::AwaitPush
                } else {
                    abort_state(
                        "the commit failed: ",
                        prefer_nonempty(o.stderr, o.stdout),
                        false,
                        false,
                    )
                }
            },
        },
        (SyncState::AwaitPush, SyncEvent::PushDone(res)) => match res {
            Err(d) => abort_state("failed to run the push command: ", d, true, false),
            Ok(o) => {
                if o.success {
                    SyncState::Finished {
                        outcome: WorkflowOutcome::Completed {
                            message: prefer_nonempty(o.stderr, o.stdout),
                        },
                        committed: true,
                        pushed: true,
                    }
                } else {
                    abort_state(
                        "the push failed (the commit exists locally; push it manually): ",
                        o.stderr,
                        true,
                        false,
                    )
                }
            },
        },
        (other, _) => other,
    }
}

/// Builds an aborted terminal sync state from a fixed head and a detail.
fn abort_state(head: &str, detail: String, committed: bool, pushed: bool) -> (r: SyncState)
    ensures
        r@ == sync_aborted(head@ + detail@, committed, pushed),
{
    SyncState::Finished {
        outcome: WorkflowOutcome::Aborted { reason: head.to_owned().concat(detail.as_str()) },
        committed,
        pushed,
    }
}

/// The naming data a release carries once the remote is resolved and the
/// caller has supplied a tag and notes. The tag name doubles as the
/// release title.
#[derive(Clone, Debug, PartialEq, Eq)]
pub struct ReleaseDetails {
    pub owner: String,
    pub repo: String,
    pub tag: String,
    pub notes: String,
}

/// Mathematical model of a [`ReleaseDetails`].
#[verifier::ext_equal]
pub ghost struct ReleaseDetailsView {
    pub owner: Seq<char>,
    pub repo: Seq<char>,
    pub tag: Seq<char>,
    pub notes: Seq<char>,
}

impl View for ReleaseDetails {
    type V = ReleaseDetailsView;

    open spec fn view(&self) -> ReleaseDetailsView {
        ReleaseDetailsView {
            owner: self.owner@,
            repo: self.repo@,
            tag: self.tag@,
            notes: self.notes@,
        }
    }
}

/// What the publish API answered: the HTTP status, and the server's own
/// message when one could be read from the body.
#[derive(Clone, Debug, PartialEq, Eq)]
pub struct ApiResponse {
    pub status: u16,
    pub message: Option<String>,
}

/// Mathematical model of an [`ApiResponse`].
#[verifier::ext_equal]
pub ghost struct ApiResponseView {
    pub status: u16,
    pub message: Option<Seq<char>>,
}

impl View for ApiResponse {
    type V = ApiResponseView;

    open spec fn view(&self) -> ApiResponseView {
        ApiResponseView {
            status: self.status,
            message: match self.message {
                Some(ref m) => Some(m@),
                None => None,
            },
        }
    }
}

/// A state of the release flow: the sync flow first, then resolving the
/// remote, gathering the tag name and notes, tagging, pushing the tag,
/// loading the token, and publishing. `Finished` is terminal; a step's
/// failure aborts the flow and earlier side effects persist.
#[derive(Debug, PartialEq, Eq)]
pub enum ReleaseState {
    /// The inner sync flow is running; its events are forwarded.
    Syncing { sync: SyncState },
    /// Waiting for the remote URL query to finish.
    AwaitRemoteUrl,
    /// Waiting for the caller to supply a tag name.
    AwaitTagName { owner: String, repo: String },
    /// Waiting for the caller to supply release notes.
    AwaitNotes { owner: String, repo: String, tag: String },
    /// Waiting for the annotated-tag command to finish.
    AwaitTagCreate { details: ReleaseDetails },
    /// Waiting for the tag push to finish.
    AwaitTagPush { details: ReleaseDetails },
    /// Waiting for the configuration to yield an access token.
    AwaitToken { details: ReleaseDetails },
    /// Waiting for the publish API call to finish.
    AwaitPublish { details: ReleaseDetails, token: String },
    /// The flow is over.
    Finished { outcome: WorkflowOutcome },
}

/// Mathematical model of a [`ReleaseState`].
#[verifier::ext_equal]
pub ghost enum ReleaseStateView {
    Syncing { sync: SyncStateView },
    AwaitRemoteUrl,
    AwaitTagName { owner: Seq<char>, repo: Seq<char> },
    AwaitNotes { owner: Seq<char>, repo: Seq<char>, tag: Seq<char> },
    AwaitTagCreate { details: ReleaseDetailsView },
    AwaitTagPush { details: ReleaseDetailsView },
    AwaitToken { details: ReleaseDetailsView },
    AwaitPublish { details: ReleaseDetailsView, token: Seq<char> },
    Finished { outcome: WorkflowOutcomeView },
}

impl View for ReleaseState {
    type V = ReleaseStateView;

    open spec fn view(&self) -> ReleaseStateView {
        match self {
            ReleaseState::Syncing { sync } => ReleaseStateView::Syncing { sync: sync@ },
            ReleaseState::AwaitRemoteUrl => ReleaseStateView::AwaitRemoteUrl,
            ReleaseState::AwaitTagName { owner, repo } => ReleaseStateView::AwaitTagName {
                owner: owner@,
                repo: repo@,
            },
            ReleaseState::AwaitNotes { owner, repo, tag } => ReleaseStateView::AwaitNotes {
                owner: owner@,
                repo: repo@,
                tag: tag@,
            },
            ReleaseState::AwaitTagCreate { details } => ReleaseStateView::AwaitTagCreate {
                details: details@,
            },
            ReleaseState::AwaitTagPush { details } => ReleaseStateView::AwaitTagPush {
                details: details@,
            },
            ReleaseState::AwaitToken { details } => ReleaseStateView::AwaitToken {
                details: details@,
            },
            ReleaseState::AwaitPublish { details, token } => ReleaseStateView::AwaitPublish {
                details: details@,
                token: token@,
            },
            ReleaseState::Finished { outcome } => ReleaseStateView::Finished {
                outcome: outcome@,
            },
        }
    }
}

/// The result of the external operation a release state was waiting for.
#[derive(Debug, PartialEq, Eq)]
pub enum ReleaseEvent {
    Sync(SyncEvent),
    RemoteUrl(Result<CmdOutput, String>),
    TagNameEntered(Option<String>),
    NotesEntered(Option<String>),
    TagCreated(Result<CmdOutput, String>),
    TagPushed(Result<CmdOutput, String>),
    TokenLoaded(Result<Option<String>, String>),
    PublishDone(Result<ApiResponse, String>),
}

/// Mathematical model of a [`ReleaseEvent`].
#[verifier::ext_equal]
pub ghost enum ReleaseEventView {
    Sync(SyncEventView),
    RemoteUrl(Result<CmdOutputView, Seq<char>>),
    TagNameEntered(Option<Seq<char>>),
    NotesEntered(Option<Seq<char>>),
    TagCreated(Result<CmdOutputView, Seq<char>>),
    TagPushed(Result<CmdOutputView, Seq<char>>),
    TokenLoaded(Result<Option<Seq<char>>, Seq<char>>),
    PublishDone(Result<ApiResponseView, Seq<char>>),
}

impl View for ReleaseEvent {
    type V = ReleaseEventView;

    open spec fn view(&self) -> ReleaseEventView {
        match self {
            ReleaseEvent::Sync(e) => ReleaseEventView::Sync(e@),
            ReleaseEvent::RemoteUrl(r) => ReleaseEventView::RemoteUrl(cmd_result_view(*r)),
            ReleaseEvent::TagNameEntered(m) => ReleaseEventView::TagNameEntered(
                match m {
                    Some(s) => Some(s@),
                    None => None,
                },
            ),
            ReleaseEvent::NotesEntered(m) => ReleaseEventView::NotesEntered(
                match m {
                    Some(s) => Some(s@),
                    None => None,
                },
            ),
            ReleaseEvent::TagCreated(r) => ReleaseEventView::TagCreated(cmd_result_view(*r)),
            ReleaseEvent::TagPushed(r) => ReleaseEventView::TagPushed(cmd_result_view(*r)),
            ReleaseEvent::TokenLoaded(r) => ReleaseEventView::TokenLoaded(
                match r {
                    Ok(Some(t)) => Ok(Some(t@)),
                    Ok(None) => Ok(None),
                    Err(e) => Err(e@),
                },
            ),
            ReleaseEvent::PublishDone(r) => ReleaseEventView::PublishDone(
                match r {
                    Ok(resp) => Ok(resp@),
                    Err(e) => Err(e@),
                },
            ),
        }
    }
}

/// Shorthand for an aborted terminal release state.
pub open spec fn release_aborted(reason: Seq<char>) -> ReleaseStateView {
    ReleaseStateView::Finished { outcome: WorkflowOutcomeView::Aborted { reason } }
}

/// The reason given when the inner sync ended without a commit to
/// release.
pub open spec fn spec_skipped_sync_reason() -> Seq<char> {
    "nothing to release: the sync found no staged changes and made no commit"@
}

/// The address of a published release, reported on completion.
pub open spec fn spec_release_url(d: ReleaseDetailsView) -> Seq<char> {
    "https://github.com/"@ + d.owner + "/"@ + d.repo + "/releases/tag/"@ + d.tag
}

/// The reason reported when the publish call was rejected: the server's
/// own message when one was readable, else a generic line naming the
/// status.
pub open spec fn spec_publish_failure(resp: ApiResponseView) -> Seq<char> {
    match resp.message {
        Some(m) => "publishing the release failed: "@ + m,
        None => "publishing the release failed: the API returned status "@ + spec_decimal(
            resp.status as nat,
        ) + " and an unreadable body"@,
    }
}

/// The transition function of the release flow. Sync events are
/// forwarded to the inner sync flow while it runs; only a sync that
/// completed lets the release go on. A result that does not answer the
/// pending state leaves the state unchanged.
pub open spec fn spec_release_step(s: ReleaseStateView, e: ReleaseEventView) -> ReleaseStateView {
    match (s, e) {
        (ReleaseStateView::Syncing { sync }, ReleaseEventView::Sync(ev)) => {
            let after = spec_sync_step(sync, ev);
            match after {
                SyncStateView::Finished { outcome, committed: _, pushed: _ } => match outcome {
                    WorkflowOutcomeView::Completed { message: _ } => {
                        ReleaseStateView::AwaitRemoteUrl
                    },
                    WorkflowOutcomeView::Skipped => release_aborted(spec_skipped_sync_reason()),
                    WorkflowOutcomeView::Aborted { reason } => release_aborted(reason),
                },
                _ => ReleaseStateView::Syncing { sync: after },
            }
        },
        (ReleaseStateView::AwaitRemoteUrl, ReleaseEventView::RemoteUrl(r)) => match r {
            Err(d) => release_aborted("failed to run the remote URL query: "@ + d),
            Ok(o) => {
                if !o.success {
                    release_aborted("the 'origin' remote URL could not be read: "@ + o.stderr)
                } else {
                    match spec_resolve(spec_trim(o.stdout)) {
                        Some(p) => ReleaseStateView::AwaitTagName { owner: p.0, repo: p.1 },
                        None => release_aborted(
                            spec_resolve_err_head() + spec_trim(o.stdout)
                                + spec_resolve_err_tail(),
                        ),
                    }
                }
            },
        },
        (ReleaseStateView::AwaitTagName { owner, repo }, ReleaseEventView::TagNameEntered(m)) => {
            match m {
                Some(tag) => {
                    if spec_trim(tag).len() > 0 {
                        ReleaseStateView::AwaitNotes { owner, repo, tag }
                    } else {
                        release_aborted("release cancelled: no tag name was given"@)
                    }
                },
                None => release_aborted("release cancelled: no tag name was given"@),
            }
        },
        (ReleaseStateView::AwaitNotes { owner, repo, tag }, ReleaseEventView::NotesEntered(m)) => {
            match m {
                Some(notes) => {
                    if spec_trim(notes).len() > 0 {
                        ReleaseStateView::AwaitTagCreate {
                            details: ReleaseDetailsView { owner, repo, tag, notes },
                        }
                    } else {
                        release_aborted("release cancelled: no release notes were given"@)
                    }
                },
                None => release_aborted("release cancelled: no release notes were given"@),
            }
        },
        (ReleaseStateView::AwaitTagCreate { details }, ReleaseEventView::TagCreated(r)) => match r {
            Err(d) => release_aborted("failed to run the tag command: "@ + d),
            Ok(o) => {
                if o.success {
                    ReleaseStateView::AwaitTagPush { details }
                } else {
                    release_aborted("creating the tag failed: "@ + o.stderr)
                }
            },
        },
        (ReleaseStateView::AwaitTagPush { details }, ReleaseEventView::TagPushed(r)) => match r {
            Err(d) => release_aborted("failed to run the tag push command: "@ + d),
            Ok(o) => {
                if o.success {
                    ReleaseStateView::AwaitToken { details }
                } else {
                    release_aborted("pushing the tag failed (the local tag remains): "@ + o.stderr)
                }
            },
        },
        (ReleaseStateView::AwaitToken { details }, ReleaseEventView::TokenLoaded(r)) => match r {
            Err(e) => release_aborted("the configuration could not be loaded: "@ + e),
            Ok(None) => release_aborted(
                "GitHub token not configured: add github_token to the configuration file"@,
            ),
            Ok(Some(token)) => ReleaseStateView::AwaitPublish { details, token },
        },
        (
            ReleaseStateView::AwaitPublish { details, token: _ },
            ReleaseEventView::PublishDone(r),
        ) => match r {
            Err(d) => release_aborted("failed to send the publish request: "@ + d),
            Ok(resp) => {
                if 200 <= resp.status < 300 {
                    ReleaseStateView::Finished {
                        outcome: WorkflowOutcomeView::Completed {
                            message: spec_release_url(details),
                        },
                    }
                } else {
                    release_aborted(spec_publish_failure(resp))
                }
            },
        },
        (other, _) => other,
    }
}

/// Builds an aborted terminal release state from a fixed head and a
/// detail.
fn release_abort_state(head: &str, detail: String) -> (r: ReleaseState)
    ensures
        r@ == release_aborted(head@ + detail@),
{
    ReleaseState::Finished {
        outcome: WorkflowOutcome::Aborted { reason: head.to_owned().concat(detail.as_str()) },
    }
}

/// Builds an aborted terminal release state with a fixed reason.
fn release_abort_fixed(reason: &str) -> (r: ReleaseState)
    ensures
        r@ == release_aborted(reason@),
{
    ReleaseState::Finished { outcome: WorkflowOutcome::Aborted { reason: reason.to_owned() } }
}

/// Advances the release flow by the result of the operation its state
/// was waiting for.
pub fn release_step(state: ReleaseState, event: ReleaseEvent) -> (r: ReleaseState)
    ensures
        r@ == spec_release_step(state@, event@),
{
    match (state, event) {
        (ReleaseState::Syncing { sync }, ReleaseEvent::Sync(ev)) => {
            let after = sync_step(sync, ev);
            match after {
                SyncState::Finished { outcome, committed: _, pushed: _ } => match outcome {
                    WorkflowOutcome::Completed { message: _ } => ReleaseState::AwaitRemoteUrl,
                    WorkflowOutcome::Skipped => release_abort_fixed(
                        "nothing to release: the sync found no staged changes and made no commit",
                    ),
                    WorkflowOutcome::Aborted { reason } => ReleaseState::Finished {
                        outcome: WorkflowOutcome::Aborted { reason },
                    },
                },
                other => ReleaseState::Syncing { sync: other },
            }
        },
        (ReleaseState::AwaitRemoteUrl, ReleaseEvent::RemoteUrl(res)) => match res {
            Err(d) => release_abort_state("failed to run the remote URL query: ", d),
            Ok(o) => {
                if !o.success {
                    release_abort_state("the 'origin' remote URL could not be read: ", o.stderr)
                } else {
                    let url = trim(o.stdout.as_str());
                    match parse_github_owner_and_repo(url.as_str()) {
                        Ok(p) => ReleaseState::AwaitTagName { owner: p.0, repo: p.1 },
                        Err(e) => ReleaseState::Finished {
                            outcome: WorkflowOutcome::Aborted { reason: e },
                        },
                    }
                }
            },
        },
        (ReleaseState::AwaitTagName { owner, repo }, ReleaseEvent::TagNameEntered(m)) => match m {
            Some(tag) => match nonblank_trimmed(tag.as_str()) {
                Some(_) => ReleaseState::AwaitNotes { owner, repo, tag },
                None => release_abort_fixed("release cancelled: no tag name was given"),
            },
            None => release_abort_fixed("release cancelled: no tag name was given"),
        },
        (ReleaseState::AwaitNotes { owner, repo, tag }, ReleaseEvent::NotesEntered(m)) => match m {
            Some(notes) => match nonblank_trimmed(notes.as_str()) {
                Some(_) => ReleaseState::AwaitTagCreate {
                    details: ReleaseDetails { owner, repo, tag, notes },
                },
                None => release_abort_fixed("release cancelled: no release notes were given"),
            },
            None => release_abort_fixed("release cancelled: no release notes were given"),
        },
        (ReleaseState::AwaitTagCreate { details }, ReleaseEvent::TagCreated(res)) => match res {
            Err(d) => release_abort_state("failed to run the tag command: ", d),
            Ok(o) => {
                if o.success {
                    ReleaseState::AwaitTagPush { details }
                } else {
                    release_abort_state("creating the tag failed: ", o.stderr)
                }
            },
        },
        (ReleaseState::AwaitTagPush { details }, ReleaseEvent::TagPushed(res)) => match res {
            Err(d) => release_abort_state("failed to run the tag push command: ", d),
            Ok(o) => {
                if o.success {
                    ReleaseState::AwaitToken { details }
                } else {
                    release_abort_state("pushing the tag failed (the local tag remains): ", o.stderr)
                }
            },
        },
        (ReleaseState::AwaitToken { details }, ReleaseEvent::TokenLoaded(res)) => match res {
            Err(e) => release_abort_state("the configuration could not be loaded: ", e),
            Ok(None) => release_abort_fixed(
                "GitHub token not configured: add github_token to the configuration file",
            ),
            Ok(Some(token)) => ReleaseState::AwaitPublish { details, token },
        },
        (ReleaseState::AwaitPublish { details, token: _ }, ReleaseEvent::PublishDone(res)) => {
            match res {
                Err(d) => release_abort_state("failed to send the publish request: ", d),
                Ok(resp) => {
                    if 200 <= resp.status && resp.status < 300 {
                        let message = release_url(&details);
                        ReleaseState::Finished {
                            outcome: WorkflowOutcome::Completed { message },
                        }
                    } else {
                        let reason = publish_failure(resp);
                        ReleaseState::Finished {
                            outcome: WorkflowOutcome::Aborted { reason },
                        }
                    }
                },
            }
        },
        (other, _) => other,
    }
}

/// Renders the address a completed release is reachable at.
fn release_url(d: &ReleaseDetails) -> (r: String)
    ensures
        r@ == spec_release_url(d@),
{
    "https://github.com/".to_owned().concat(d.owner.as_str()).concat("/").concat(
        d.repo.as_str(),
    ).concat("/releases/tag/").concat(d.tag.as_str())
}

/// Law: a finished sync flow is terminal. No event moves it, so once
/// the flow has ended nothing further is requested from it.
pub proof fn lemma_sync_finished_terminal(s: SyncStateView, e: SyncEventView)
    requires
        s is Finished,
    ensures
        spec_sync_step(s, e) == s,
{
}

/// Law: when staging succeeded but the fresh status report carries no
/// staged change, the status event ends the sync flow Skipped at once,
/// with no commit and no push recorded; and the resulting state is
/// terminal, so neither a commit nor a push is ever requested after it.
pub proof fn lemma_sync_skips_without_staged_changes(out: CmdOutputView)
    requires
        out.success,
        !spec_has_staged(spec_parse(out.stdout)),
    ensures
        spec_sync_step(SyncStateView::AwaitStatus, SyncEventView::StatusReport(Ok(out)))
            == (SyncStateView::Finished {
            outcome: WorkflowOutcomeView::Skipped,
            committed: false,
            pushed: false,
        }),
        forall|e: SyncEventView|
            #[trigger] spec_sync_step(
                spec_sync_step(SyncStateView::AwaitStatus, SyncEventView::StatusReport(Ok(out))),
                e,
            ) == spec_sync_step(SyncStateView::AwaitStatus, SyncEventView::StatusReport(Ok(out))),
{
}

/// Law: when the commit command exits with failure, the sync flow
/// aborts with no commit recorded; the state is terminal, so the push
/// is never requested after it.
pub proof fn lemma_sync_commit_failure_aborts(message: Seq<char>, out: CmdOutputView)
    requires
        !out.success,
    ensures
        spec_sync_step(
            SyncStateView::AwaitCommit { message },
            SyncEventView::CommitDone(Ok(out)),
        ) == sync_aborted(
            "the commit failed: "@ + spec_prefer_nonempty(out.stderr, out.stdout),
            false,
            false,
        ),
        forall|e: SyncEventView|
            #[trigger] spec_sync_step(
                spec_sync_step(
                    SyncStateView::AwaitCommit { message },
                    SyncEventView::CommitDone(Ok(out)),
                ),
                e,
            ) == spec_sync_step(
                SyncStateView::AwaitCommit { message },
                SyncEventView::CommitDone(Ok(out)),
            ),
{
}

/// Law: a finished release flow is terminal.
pub proof fn lemma_release_finished_terminal(s: ReleaseStateView, e: ReleaseEventView)
    requires
        s is Finished,
    ensures
        spec_release_step(s, e) == s,
{
}

/// Law: when the inner sync flow ends Skipped, the same event ends the
/// release flow aborted on the spot: the remote URL is never resolved
/// and no tag step is ever requested, the terminal state absorbing
/// every further event.
pub proof fn lemma_release_aborts_on_skipped_sync(sync: SyncStateView, e: SyncEventView)
    requires
        spec_sync_step(sync, e) matches SyncStateView::Finished {
            outcome: WorkflowOutcomeView::Skipped,
            ..
        },
    ensures
        spec_release_step(ReleaseStateView::Syncing { sync }, ReleaseEventView::Sync(e))
            == release_aborted(spec_skipped_sync_reason()),
        spec_release_step(ReleaseStateView::Syncing { sync }, ReleaseEventView::Sync(e))
            is Finished,
{
}

/// Law: a sync flow that aborts carries its reason through: the release
/// flow aborts with the very same reason.
pub proof fn lemma_release_keeps_sync_abort_reason(
    sync: SyncStateView,
    e: SyncEventView,
    reason: Seq<char>,
)
    requires
        spec_sync_step(sync, e) matches SyncStateView::Finished {
            outcome: WorkflowOutcomeView::Aborted { reason: r },
            ..
        } && r == reason,
    ensures
        spec_release_step(ReleaseStateView::Syncing { sync }, ReleaseEventView::Sync(e))
            == release_aborted(reason),
{
}

/// Renders the reason for a rejected publish call.
fn publish_failure(resp: ApiResponse) -> (r: String)
    ensures
        r@ == spec_publish_failure(resp@),
{
    match resp.message {
        Some(m) => "publishing the release failed: ".to_owned().concat(m.as_str()),
        None => {
            let digits = u16_to_decimal(resp.status);
            "publishing the release failed: the API returned status ".to_owned().concat(
                digits.as_str(),
            ).concat(" and an unreadable body")
        },
    }
}

} // verus!
