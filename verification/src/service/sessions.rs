//! Sync sessions: the durable record of every requested sync, and of which
//! repositories still have one to run.

use crate::context::SecurityContext;
use crate::error;
use crate::error::{DomainError, ErrorView};
use crate::json;
use crate::ports::FetchOptions;
use crate::scheduler::task::same_id;
use crate::scope::ScopeConfig;
use crate::service::access;
use crate::service::access::{ask, AccessCheck, Action, Resource};
use crate::service::progress::PROGRESS_FINISHED;
use crate::service::queries;
use crate::service::queries::{full_name, ODataQuery, Service};
use crate::sync::SyncJob;
use crate::text;
use crate::text::{joined, same};
use vstd::prelude::*;
use vstd::string::*;

verus! {

/// Repositories that one resume queues again at most.
pub const RESUME_LIMIT: u64 = 500;

/// Jobs that may wait for the background worker before more are refused.
pub const SYNC_QUEUE_DEPTH: usize = 64;

/// States of a session.
pub const QUEUED: &'static str = "queued";

pub const IN_PROGRESS: &'static str = "in_progress";

pub const COMPLETE: &'static str = "complete";

pub const FAILED: &'static str = "failed";

pub const INTERRUPTED: &'static str = "interrupted";

/// A sync session.
#[derive(Debug)]
pub struct SyncSessionRecord {
    pub id: u128,
    pub repo_full_name: String,
    pub repo_id: Option<i64>,
    pub status: String,
    pub progress_percent: i32,
    pub error: Option<String>,
    pub summary_json: Option<String>,
    pub created_at: String,
    pub started_at: Option<String>,
    pub ended_at: Option<String>,
}

/// A session with its texts as character sequences.
#[verifier::ext_equal]
pub struct SessionView {
    pub id: u128,
    pub repo_full_name: Seq<char>,
    pub repo_id: Option<i64>,
    pub status: Seq<char>,
    pub progress_percent: i32,
    pub error: Option<Seq<char>>,
    pub summary_json: Option<Seq<char>>,
    pub created_at: Seq<char>,
    pub started_at: Option<Seq<char>>,
    pub ended_at: Option<Seq<char>>,
}

impl View for SyncSessionRecord {
    type V = SessionView;

    open spec fn view(&self) -> SessionView {
        SessionView {
            id: self.id,
            repo_full_name: self.repo_full_name@,
            repo_id: self.repo_id,
            status: self.status@,
            progress_percent: self.progress_percent,
            error: json::text_of(self.error),
            summary_json: json::text_of(self.summary_json),
            created_at: self.created_at@,
            started_at: json::text_of(self.started_at),
            ended_at: json::text_of(self.ended_at),
        }
    }
}

/// Whether the last run of a repository went through.
#[derive(Debug)]
pub struct RepoSyncStatusRecord {
    pub repo_full_name: String,
    pub repo_id: Option<i64>,
    pub status: String,
    pub last_session_id: Option<u128>,
    pub last_synced_at: Option<String>,
}

#[verifier::ext_equal]
pub struct RepoStatusView {
    pub repo_full_name: Seq<char>,
    pub repo_id: Option<i64>,
    pub status: Seq<char>,
    pub last_session_id: Option<u128>,
    pub last_synced_at: Option<Seq<char>>,
}

impl View for RepoSyncStatusRecord {
    type V = RepoStatusView;

    open spec fn view(&self) -> RepoStatusView {
        RepoStatusView {
            repo_full_name: self.repo_full_name@,
            repo_id: self.repo_id,
            status: self.status@,
            last_session_id: self.last_session_id,
            last_synced_at: json::text_of(self.last_synced_at),
        }
    }
}

impl SyncSessionRecord {
    /// The same session again.
    pub fn copied(&self) -> (out: Self)
        ensures
            out == *self,
    {
        SyncSessionRecord {
            id: self.id,
            repo_full_name: self.repo_full_name.clone(),
            repo_id: self.repo_id,
            status: self.status.clone(),
            progress_percent: self.progress_percent,
            error: same_id(&self.error),
            summary_json: same_id(&self.summary_json),
            created_at: self.created_at.clone(),
            started_at: same_id(&self.started_at),
            ended_at: same_id(&self.ended_at),
        }
    }
}

// ---------------------------------------------------------------------------
// Transitions
// ---------------------------------------------------------------------------

/// A session that was just requested.
pub open spec fn queued_session(id: u128, repo_full_name: Seq<char>, now: Seq<char>) -> SessionView {
    SessionView {
        id,
        repo_full_name,
        repo_id: None,
        status: QUEUED@,
        progress_percent: 0,
        error: None,
        summary_json: None,
        created_at: now,
        started_at: None,
        ended_at: None,
    }
}

fn new_session(id: u128, repo_full_name: String, now: &str) -> (out: SyncSessionRecord)
    ensures
        out@ == queued_session(id, repo_full_name@, now@),
{
    SyncSessionRecord {
        id,
        repo_full_name,
        repo_id: None,
        status: QUEUED.to_owned(),
        progress_percent: 0,
        error: None,
        summary_json: None,
        created_at: now.to_owned(),
        started_at: None,
        ended_at: None,
    }
}

/// A session that failed.
pub open spec fn failed_session(session: SessionView, reason: Seq<char>, now: Seq<char>) -> SessionView {
    SessionView { status: FAILED@, ended_at: Some(now), error: Some(reason), ..session }
}

/// A session that a worker has taken up.
pub open spec fn started_session(session: SessionView, now: Seq<char>) -> SessionView {
    SessionView { status: IN_PROGRESS@, started_at: Some(now), ..session }
}

/// A session whose run ended: its progress is full whatever the outcome, and
/// its summary is kept where it can be written, or the words of the error it
/// stopped on.
pub open spec fn ended_session(
    session: SessionView,
    outcome: Result<Option<Seq<char>>, ErrorView>,
    now: Seq<char>,
) -> SessionView {
    match outcome {
        Ok(summary) => SessionView {
            status: COMPLETE@,
            summary_json: summary,
            progress_percent: PROGRESS_FINISHED as i32,
            ended_at: Some(now),
            ..session
        },
        Err(error) => SessionView {
            status: FAILED@,
            error: Some(error::error_text(error)),
            progress_percent: PROGRESS_FINISHED as i32,
            ended_at: Some(now),
            ..session
        },
    }
}

/// A session left in flight by a process that is gone.
pub open spec fn interrupted_session(session: SessionView, now: Seq<char>) -> SessionView {
    SessionView {
        status: INTERRUPTED@,
        ended_at: Some(now),
        error: Some("the server restarted while this sync was in flight"@),
        ..session
    }
}

/// A running session with its progress so far. The end is stamped too, so that
/// the duration can be told before the run ends.
pub open spec fn beating_session(session: SessionView, percent: u8, now: Seq<char>) -> SessionView {
    SessionView { progress_percent: percent as i32, ended_at: Some(now), ..session }
}

impl SyncSessionRecord {
    /// See [`failed_session`].
    pub fn fail(self, reason: String, now: &str) -> (out: Self)
        ensures
            out@ == failed_session(self@, reason@, now@),
    {
        SyncSessionRecord {
            status: FAILED.to_owned(),
            ended_at: Some(now.to_owned()),
            error: Some(reason),
            ..self
        }
    }

    /// See [`started_session`].
    pub fn start(self, now: &str) -> (out: Self)
        ensures
            out@ == started_session(self@, now@),
    {
        SyncSessionRecord {
            status: IN_PROGRESS.to_owned(),
            started_at: Some(now.to_owned()),
            ..self
        }
    }

    /// See [`ended_session`].
    pub fn end(self, outcome: Result<Option<String>, DomainError>, now: &str) -> (out: Self)
        ensures
            out@ == ended_session(self@, outcome_of(outcome), now@),
    {
        match outcome {
            Ok(summary_json) => SyncSessionRecord {
                status: COMPLETE.to_owned(),
                summary_json,
                progress_percent: PROGRESS_FINISHED as i32,
                ended_at: Some(now.to_owned()),
                ..self
            },
            Err(error) => SyncSessionRecord {
                status: FAILED.to_owned(),
                error: Some(error.message()),
                progress_percent: PROGRESS_FINISHED as i32,
                ended_at: Some(now.to_owned()),
                ..self
            },
        }
    }

    /// See [`interrupted_session`].
    pub fn interrupt(self, now: &str) -> (out: Self)
        ensures
            out@ == interrupted_session(self@, now@),
    {
        SyncSessionRecord {
            status: INTERRUPTED.to_owned(),
            ended_at: Some(now.to_owned()),
            error: Some("the server restarted while this sync was in flight".to_owned()),
            ..self
        }
    }

    /// See [`beating_session`].
    pub fn beat(&self, percent: u8, now: &str) -> (out: Self)
        ensures
            out@ == beating_session(self@, percent, now@),
    {
        SyncSessionRecord {
            progress_percent: percent as i32,
            ended_at: Some(now.to_owned()),
            ..self.copied()
        }
    }
}

/// An outcome with its texts as character sequences.
pub open spec fn outcome_of(outcome: Result<Option<String>, DomainError>) -> Result<
    Option<Seq<char>>,
    ErrorView,
> {
    match outcome {
        Ok(summary) => Ok(json::text_of(summary)),
        Err(error) => Err(error@),
    }
}

/// The run status of a repository after a transition. What the transition does
/// not speak of is kept from the status before.
pub open spec fn marked_status(
    previous: Option<RepoStatusView>,
    repo_full_name: Seq<char>,
    session_id: u128,
    status: Seq<char>,
    synced_at: Option<Seq<char>>,
) -> RepoStatusView {
    RepoStatusView {
        repo_full_name,
        repo_id: match previous {
            Some(previous) => previous.repo_id,
            None => None,
        },
        status,
        last_session_id: Some(session_id),
        last_synced_at: if synced_at is Some {
            synced_at
        } else {
            match previous {
                Some(previous) => previous.last_synced_at,
                None => None,
            }
        },
    }
}

pub open spec fn status_of(status: Option<RepoSyncStatusRecord>) -> Option<RepoStatusView> {
    match status {
        Some(status) => Some(status@),
        None => None,
    }
}

/// See [`marked_status`].
pub fn mark_repo_status(
    previous: Option<RepoSyncStatusRecord>,
    repo_full_name: &str,
    session_id: u128,
    status: &str,
    synced_at: Option<String>,
) -> (out: RepoSyncStatusRecord)
    ensures
        out@ == marked_status(
            status_of(previous),
            repo_full_name@,
            session_id,
            status@,
            json::text_of(synced_at),
        ),
{
    let (repo_id, last_synced_at) = match previous {
        Some(previous) => (previous.repo_id, previous.last_synced_at),
        None => (None, None),
    };
    RepoSyncStatusRecord {
        repo_full_name: repo_full_name.to_owned(),
        repo_id,
        status: status.to_owned(),
        last_session_id: Some(session_id),
        last_synced_at: match synced_at {
            Some(at) => Some(at),
            None => last_synced_at,
        },
    }
}

/// A run that begins keeps when the repository was last synced.
pub proof fn beginning_keeps_the_last_sync(
    previous: RepoStatusView,
    session_id: u128,
    status: Seq<char>,
)
    ensures
        ({
            let after = marked_status(
                Some(previous),
                previous.repo_full_name,
                session_id,
                status,
                None,
            );
            &&& after.last_synced_at == previous.last_synced_at
            &&& after.repo_id == previous.repo_id
        }),
{
}

// ---------------------------------------------------------------------------
// Reading
// ---------------------------------------------------------------------------

/// Leave to do something to the caller's sessions.
pub fn session_scope(ctx: &SecurityContext, action: Action) -> (out: AccessCheck)
    ensures
        out == access::access(*ctx, Resource::SyncSession, action),
{
    ask(ctx, Resource::SyncSession, action)
}

/// Leave to do something to the run statuses of the caller's repositories.
pub fn repo_status_scope(ctx: &SecurityContext, action: Action) -> (out: AccessCheck)
    ensures
        out == access::access(*ctx, Resource::RepoSyncStatus, action),
{
    ask(ctx, Resource::RepoSyncStatus, action)
}

/// Progress of a running session to be saved: what leave to ask for, in which
/// tenant to write, and the session.
pub fn save_session_progress(
    ctx: &SecurityContext,
    session: &SyncSessionRecord,
    percent: u8,
    now: &str,
) -> (out: (AccessCheck, u128, SyncSessionRecord))
    ensures
        out.0 == access::access(*ctx, Resource::SyncSession, Action::Upsert),
        out.1 == ctx.subject_tenant_id,
        out.2@ == beating_session(session@, percent, now@),
{
    (session_scope(ctx, Action::Upsert), ctx.subject_tenant_id, session.beat(percent, now))
}

// ---------------------------------------------------------------------------
// Sweeping and resuming
// ---------------------------------------------------------------------------

/// Sessions with these statuses have no worker behind them after a restart.
pub fn stale_statuses() -> (out: Vec<&'static str>)
    ensures
        out@.len() == 2,
        out@[0]@ == QUEUED@,
        out@[1]@ == IN_PROGRESS@,
{
    vec![QUEUED, IN_PROGRESS]
}

/// Which run statuses a resume looks at.
#[derive(Debug)]
pub enum ResumeQuery {
    /// The one of this repository.
    One(String),
    /// Every one with this status, up to a limit.
    All { status: &'static str, limit: u64 },
}

/// The repositories a resume runs again: what leave to ask for, and where to
/// look. One named repository, or every one whose run is still in progress.
pub fn repos_awaiting_resume(ctx: &SecurityContext, only: Option<&str>) -> (out: (
    AccessCheck,
    ResumeQuery,
))
    ensures
        out.0 == access::access(*ctx, Resource::RepoSyncStatus, Action::List),
        match only {
            Some(slug) => out.1 is One && out.1->One_0@ == slug@,
            None => out.1 is All && out.1->status@ == IN_PROGRESS@ && out.1->limit == RESUME_LIMIT,
        },
{
    let leave = repo_status_scope(ctx, Action::List);
    match only {
        Some(slug) => (leave, ResumeQuery::One(slug.to_owned())),
        None => (leave, ResumeQuery::All { status: IN_PROGRESS, limit: RESUME_LIMIT }),
    }
}

/// The run status of one repository, if its run is still in progress.
pub fn still_in_progress(status: Option<RepoSyncStatusRecord>) -> (out: Vec<RepoSyncStatusRecord>)
    ensures
        match status {
            Some(status) => if status.status@ == IN_PROGRESS@ {
                out@ == seq![status]
            } else {
                out@.len() == 0
            },
            None => out@.len() == 0,
        },
{
    let mut out: Vec<RepoSyncStatusRecord> = Vec::new();
    match status {
        Some(status) => {
            if same(status.status.as_str(), IN_PROGRESS) {
                out.push(status);
            }
        },
        None => {},
    }
    out
}

/// The owner and name a slug stands for: what stands before and after its
/// first `/`.
pub open spec fn is_split(slug: Seq<char>, owner: Seq<char>, name: Seq<char>) -> bool {
    slug == owner + seq!['/'] + name && !owner.contains('/')
}

/// The run statuses whose repository has both an owner and a name, in order.
pub open spec fn with_slugs(pending: Seq<RepoSyncStatusRecord>) -> Seq<RepoSyncStatusRecord>
    decreases pending.len(),
{
    if pending.len() == 0 {
        Seq::empty()
    } else if pending.last().repo_full_name@.contains('/') {
        with_slugs(pending.drop_last()).push(pending.last())
    } else {
        with_slugs(pending.drop_last())
    }
}

pub open spec fn are_targets(
    pending: Seq<RepoSyncStatusRecord>,
    targets: Seq<(String, String)>,
) -> bool {
    let kept = with_slugs(pending);
    &&& targets.len() == kept.len()
    &&& forall|i: int|
        0 <= i < kept.len() ==> is_split(
            (#[trigger] kept[i]).repo_full_name@,
            targets[i].0@,
            targets[i].1@,
        )
}

/// The sessions that were queued, in order.
pub open spec fn queued_ids(outcomes: Seq<Result<u128, DomainError>>) -> Seq<u128>
    decreases outcomes.len(),
{
    if outcomes.len() == 0 {
        Seq::empty()
    } else {
        match outcomes.last() {
            Ok(id) => queued_ids(outcomes.drop_last()).push(id),
            Err(_) => queued_ids(outcomes.drop_last()),
        }
    }
}

/// The sessions that a resume queued. A repository that could not be queued
/// does not keep the others from it.
pub fn resumed_sessions(outcomes: &Vec<Result<u128, DomainError>>) -> (out: Vec<u128>)
    ensures
        out@ == queued_ids(outcomes@),
{
    let mut out: Vec<u128> = Vec::new();
    let mut i: usize = 0;
    while i < outcomes.len()
        invariant
            i <= outcomes@.len(),
            out@ == queued_ids(outcomes@.take(i as int)),
        decreases outcomes@.len() - i,
    {
        assert(outcomes@.take(i + 1).drop_last() =~= outcomes@.take(i as int));
        match &outcomes[i] {
            Ok(id) => {
                out.push(*id);
            },
            Err(_) => {},
        }
        i = i + 1;
    }
    assert(outcomes@.take(i as int) =~= outcomes@);
    out
}

// ---------------------------------------------------------------------------
// Queueing a sync
// ---------------------------------------------------------------------------

/// What the caller of a machine has to do next. A look-up or a write is done
/// with the leave that was given for the check it names.
pub enum SessionAction {
    /// Check that the scope is a valid one.
    Validate(ScopeConfig),
    /// Ask the policy.
    Authorise(AccessCheck),
    /// Look a session up.
    FindSession(AccessCheck, u128),
    /// Write a session in a tenant.
    SaveSession(AccessCheck, u128, SyncSessionRecord),
    /// Look a repository's run status up.
    FindStatus(AccessCheck, String),
    /// Write a repository's run status in a tenant.
    SaveStatus(AccessCheck, u128, RepoSyncStatusRecord),
    /// Hand a job to the background worker, without waiting.
    Send(SyncJob),
    /// Run the sync of a repository, given by its owner and name, for a caller.
    RunSync(SecurityContext, String, String, FetchOptions),
    /// Nothing more: this is the answer.
    Return(Result<u128, DomainError>),
}

/// How what was to be done went.
pub enum SessionEvent {
    /// Nothing was to be done yet.
    Begin,
    /// It went well.
    Done,
    /// It failed.
    Refused(DomainError),
    /// The session that was looked up.
    Session(Option<SyncSessionRecord>),
    /// The run status that was looked up.
    Status(Option<RepoSyncStatusRecord>),
    /// The job could not be handed over, for this reason.
    NotSent(String),
    /// The sync ended: with the text of its summary where that can be written,
    /// or an error.
    Outcome(Result<Option<String>, DomainError>),
}

/// Where a request to sync stands.
#[derive(Debug, Clone, Copy, PartialEq, Eq, Structural)]
pub enum EnqueueStage {
    New,
    Validating,
    Authorising,
    SavingSession,
    AuthorisingStatus,
    FindingStatus,
    SavingStatus,
    Sending,
    SavingFailure,
    Over,
}

/// A request to sync: records a queued session, marks the repository as having
/// a run in progress, and hands the job to the background worker.
pub struct EnqueueSync {
    pub id: u128,
    pub ctx: SecurityContext,
    pub owner: String,
    pub name: String,
    pub scope: ScopeConfig,
    pub force: bool,
    pub stage: EnqueueStage,
    /// The session as it was saved.
    pub session: Option<SyncSessionRecord>,
    /// Why the job could not be handed over.
    pub reason: Option<String>,
}

/// The scope of a run: the requested one, or the configured one.
pub open spec fn chosen_scope(requested: Option<ScopeConfig>, configured: ScopeConfig) -> ScopeConfig {
    match requested {
        Some(scope) => scope,
        None => configured,
    }
}

pub open spec fn not_queued(reason: Seq<char>) -> Seq<char> {
    "sync could not be queued: "@ + reason
}

impl EnqueueSync {
    /// A request that nothing has been done for. `id` is the new session's.
    pub fn new(
        id: u128,
        ctx: &SecurityContext,
        owner: &str,
        name: &str,
        requested: Option<ScopeConfig>,
        configured: ScopeConfig,
        force: bool,
    ) -> (out: Self)
        ensures
            out.wf(),
            out.id == id,
            out.ctx == *ctx,
            out.owner@ == owner@,
            out.name@ == name@,
            out.scope == chosen_scope(requested, configured),
            requested is Some ==> out.scope == requested->0,
            requested is None ==> out.scope == configured,
            out.force == force,
            out.stage == EnqueueStage::New,
    {
        EnqueueSync {
            id,
            ctx: *ctx,
            owner: owner.to_owned(),
            name: name.to_owned(),
            scope: match requested {
                Some(scope) => scope,
                None => configured,
            },
            force,
            stage: EnqueueStage::New,
            session: None,
            reason: None,
        }
    }

    /// The session has been built once it is to be saved, and a reason is known
    /// once there is one.
    pub open spec fn wf(&self) -> bool {
        &&& self.session is Some <==> !(self.stage == EnqueueStage::New || self.stage
            == EnqueueStage::Validating || self.stage == EnqueueStage::Authorising || self.stage
            == EnqueueStage::Over)
        &&& self.stage == EnqueueStage::SavingFailure <==> self.reason is Some
    }

    /// The event answers the action that was asked for last.
    pub open spec fn answers(&self, event: SessionEvent) -> bool {
        match self.stage {
            EnqueueStage::New => event is Begin,
            EnqueueStage::FindingStatus => event is Status || event is Refused,
            EnqueueStage::Sending => event is Done || event is NotSent,
            EnqueueStage::Over => false,
            _ => event is Done || event is Refused,
        }
    }

    pub open spec fn full_name(&self) -> Seq<char> {
        queries::full_name_of(self.owner@, self.name@)
    }

    /// The leave that the session is looked up and written with.
    pub open spec fn session_check(&self) -> AccessCheck {
        access::access(self.ctx, Resource::SyncSession, Action::Upsert)
    }

    /// The leave that the run status is looked up and written with.
    pub open spec fn status_check(&self) -> AccessCheck {
        access::access(self.ctx, Resource::RepoSyncStatus, Action::Upsert)
    }

    /// The next action is the right one for where the request stood.
    pub open spec fn asks(
        &self,
        event: SessionEvent,
        now: Seq<char>,
        out: SessionAction,
        next: EnqueueStage,
    ) -> bool {
        let tenant = self.ctx.subject_tenant_id;
        match (self.stage, event) {
            (_, SessionEvent::Refused(error)) => {
                &&& next == EnqueueStage::Over
                &&& out == SessionAction::Return(Err(error))
            },
            (EnqueueStage::New, _) => {
                &&& next == EnqueueStage::Validating
                &&& out == SessionAction::Validate(self.scope)
            },
            (EnqueueStage::Validating, _) => {
                &&& next == EnqueueStage::Authorising
                &&& out == SessionAction::Authorise(self.session_check())
            },
            (EnqueueStage::Authorising, _) => {
                &&& next == EnqueueStage::SavingSession
                &&& out is SaveSession
                &&& out->SaveSession_0 == self.session_check()
                &&& out->SaveSession_1 == tenant
                &&& out->SaveSession_2@ == queued_session(self.id, self.full_name(), now)
            },
            (EnqueueStage::SavingSession, _) => {
                &&& next == EnqueueStage::AuthorisingStatus
                &&& out == SessionAction::Authorise(self.status_check())
            },
            (EnqueueStage::AuthorisingStatus, _) => {
                &&& next == EnqueueStage::FindingStatus
                &&& out is FindStatus
                &&& out->FindStatus_0 == self.status_check()
                &&& out->FindStatus_1@ == self.full_name()
            },
            (EnqueueStage::FindingStatus, SessionEvent::Status(previous)) => {
                &&& next == EnqueueStage::SavingStatus
                &&& out is SaveStatus
                &&& out->SaveStatus_0 == self.status_check()
                &&& out->SaveStatus_1 == tenant
                &&& out->SaveStatus_2@ == marked_status(
                    status_of(previous),
                    self.full_name(),
                    self.id,
                    IN_PROGRESS@,
                    None,
                )
            },
            (EnqueueStage::SavingStatus, _) => {
                &&& next == EnqueueStage::Sending
                &&& out is Send
                &&& out->Send_0.session_id == self.id
                &&& out->Send_0.ctx == self.ctx
                &&& out->Send_0.owner == self.owner
                &&& out->Send_0.name == self.name
                &&& out->Send_0.scope == self.scope
                &&& out->Send_0.force == self.force
            },
            (EnqueueStage::Sending, SessionEvent::NotSent(reason)) => {
                &&& next == EnqueueStage::SavingFailure
                &&& out is SaveSession
                &&& out->SaveSession_0 == self.session_check()
                &&& out->SaveSession_1 == tenant
                &&& out->SaveSession_2@ == failed_session(
                    self.session->0@,
                    not_queued(reason@),
                    now,
                )
            },
            (EnqueueStage::Sending, _) => {
                &&& next == EnqueueStage::Over
                &&& out == SessionAction::Return(Ok(self.id))
            },
            (EnqueueStage::SavingFailure, _) => {
                &&& next == EnqueueStage::Over
                &&& out is Return
                &&& out->Return_0 is Err
                &&& out->Return_0->Err_0@ == ErrorView::Internal(self.reason->0@)
            },
            _ => false,
        }
    }

    /// What to do next, given how the last thing went. `now` is the time as
    /// text.
    pub fn step(&mut self, event: SessionEvent, now: &str) -> (out: SessionAction)
        requires
            old(self).wf(),
            old(self).answers(event),
        ensures
            final(self).wf(),
            old(self).asks(event, now@, out, final(self).stage),
            final(self).id == old(self).id,
            final(self).ctx == old(self).ctx,
            final(self).owner == old(self).owner,
            final(self).name == old(self).name,
            final(self).scope == old(self).scope,
            final(self).force == old(self).force,
            old(self).stage == EnqueueStage::Authorising && event is Done ==> final(self).session
                is Some && final(self).session->0@ == queued_session(
                old(self).id,
                old(self).full_name(),
                now@,
            ),
            old(self).session is Some && final(self).session is Some ==> final(self).session
                == old(self).session,
            event is NotSent ==> final(self).reason is Some && final(self).reason->0@ == not_queued(
                event->NotSent_0@,
            ),
    {
        match event {
            SessionEvent::Refused(error) => {
                self.stage = EnqueueStage::Over;
                self.session = None;
                self.reason = None;
                SessionAction::Return(Err(error))
            },
            SessionEvent::Begin => {
                self.stage = EnqueueStage::Validating;
                SessionAction::Validate(self.scope)
            },
            SessionEvent::Status(previous) => {
                self.stage = EnqueueStage::SavingStatus;
                let slug = full_name(self.owner.as_str(), self.name.as_str());
                let status = mark_repo_status(previous, slug.as_str(), self.id, IN_PROGRESS, None);
                SessionAction::SaveStatus(
                    repo_status_scope(&self.ctx, Action::Upsert),
                    self.ctx.subject_tenant_id,
                    status,
                )
            },
            SessionEvent::NotSent(reason) => {
                let reason = joined("sync could not be queued: ", reason.as_str());
                self.stage = EnqueueStage::SavingFailure;
                self.reason = Some(reason.clone());
                match &self.session {
                    Some(session) => SessionAction::SaveSession(
                        session_scope(&self.ctx, Action::Upsert),
                        self.ctx.subject_tenant_id,
                        session.copied().fail(reason, now),
                    ),
                    None => SessionAction::Return(Err(DomainError::NotFound)),
                }
            },
            _ => self.proceed(now),
        }
    }

    fn proceed(&mut self, now: &str) -> (out: SessionAction)
        requires
            old(self).wf(),
            old(self).answers(SessionEvent::Done),
        ensures
            final(self).wf(),
            old(self).asks(SessionEvent::Done, now@, out, final(self).stage),
            final(self).id == old(self).id,
            final(self).ctx == old(self).ctx,
            final(self).owner == old(self).owner,
            final(self).name == old(self).name,
            final(self).scope == old(self).scope,
            final(self).force == old(self).force,
            old(self).stage == EnqueueStage::Authorising ==> final(self).session is Some && final(
                self).session->0@ == queued_session(old(self).id, old(self).full_name(), now@),
            old(self).session is Some && final(self).session is Some ==> final(self).session
                == old(self).session,
    {
        let tenant_id: u128 = self.ctx.subject_tenant_id;
        match self.stage {
            EnqueueStage::Validating => {
                self.stage = EnqueueStage::Authorising;
                SessionAction::Authorise(session_scope(&self.ctx, Action::Upsert))
            },
            EnqueueStage::Authorising => {
                self.stage = EnqueueStage::SavingSession;
                let slug = full_name(self.owner.as_str(), self.name.as_str());
                let session = new_session(self.id, slug, now);
                let kept = session.copied();
                self.session = Some(kept);
                SessionAction::SaveSession(
                    session_scope(&self.ctx, Action::Upsert),
                    tenant_id,
                    session,
                )
            },
            EnqueueStage::SavingSession => {
                self.stage = EnqueueStage::AuthorisingStatus;
                SessionAction::Authorise(repo_status_scope(&self.ctx, Action::Upsert))
            },
            EnqueueStage::AuthorisingStatus => {
                self.stage = EnqueueStage::FindingStatus;
                SessionAction::FindStatus(
                    repo_status_scope(&self.ctx, Action::Upsert),
                    full_name(self.owner.as_str(), self.name.as_str()),
                )
            },
            EnqueueStage::SavingStatus => {
                self.stage = EnqueueStage::Sending;
                SessionAction::Send(
                    SyncJob {
                        session_id: self.id,
                        ctx: self.ctx,
                        owner: self.owner.clone(),
                        name: self.name.clone(),
                        scope: self.scope,
                        force: self.force,
                    },
                )
            },
            EnqueueStage::Sending => {
                self.stage = EnqueueStage::Over;
                self.session = None;
                SessionAction::Return(Ok(self.id))
            },
            EnqueueStage::SavingFailure => {
                self.stage = EnqueueStage::Over;
                self.session = None;
                let mut kept: Option<String> = None;
                std::mem::swap(&mut kept, &mut self.reason);
                match kept {
                    Some(reason) => SessionAction::Return(Err(DomainError::Internal(reason))),
                    None => SessionAction::Return(Err(DomainError::NotFound)),
                }
            },
            _ => SessionAction::Return(Err(DomainError::NotFound)),
        }
    }
}

impl EnqueueStage {
    /// How far along the request is.
    pub open spec fn rank(self) -> nat {
        match self {
            EnqueueStage::New => 0,
            EnqueueStage::Validating => 1,
            EnqueueStage::Authorising => 2,
            EnqueueStage::SavingSession => 3,
            EnqueueStage::AuthorisingStatus => 4,
            EnqueueStage::FindingStatus => 5,
            EnqueueStage::SavingStatus => 6,
            EnqueueStage::Sending => 7,
            EnqueueStage::SavingFailure => 8,
            EnqueueStage::Over => 9,
        }
    }
}

/// A request only ever moves forward, and it is over exactly when it has given
/// its answer. So it ends after a bounded number of steps.
pub proof fn requests_move_forward(
    request: EnqueueSync,
    event: SessionEvent,
    now: Seq<char>,
    out: SessionAction,
    next: EnqueueStage,
)
    requires
        request.answers(event),
        request.asks(event, now, out, next),
    ensures
        request.stage.rank() < next.rank() <= EnqueueStage::Over.rank(),
        next == EnqueueStage::Over <==> out is Return,
{
}

/// A request succeeds only once the job was handed over, and then with the id
/// of its session.
pub proof fn success_means_the_job_was_sent(
    request: EnqueueSync,
    event: SessionEvent,
    now: Seq<char>,
    out: SessionAction,
    next: EnqueueStage,
)
    requires
        request.asks(event, now, out, next),
        out is Return,
        out->Return_0 is Ok,
    ensures
        request.stage == EnqueueStage::Sending,
        out->Return_0->Ok_0 == request.id,
{
}

/// A job that could not be handed over leaves its session failed, with the
/// reason that the caller is told too.
pub proof fn unsent_job_leaves_a_failed_session(
    request: EnqueueSync,
    reason: String,
    now: Seq<char>,
    out: SessionAction,
    next: EnqueueStage,
)
    requires
        request.stage == EnqueueStage::Sending,
        request.asks(SessionEvent::NotSent(reason), now, out, next),
    ensures
        out is SaveSession,
        out->SaveSession_0 == request.session_check(),
        out->SaveSession_2@.status == FAILED@,
        out->SaveSession_2@.error == Some(not_queued(reason@)),
        out->SaveSession_2@.id == request.session->0@.id,
{
}

// ---------------------------------------------------------------------------
// Running a sync
// ---------------------------------------------------------------------------

/// Where a job stands.
#[derive(Debug, Clone, Copy, PartialEq, Eq, Structural)]
pub enum JobStage {
    New,
    Authorising,
    FindingSession,
    SavingStart,
    Running,
    SavingEnd,
    AuthorisingStatus,
    FindingStatus,
    SavingStatus,
    Over,
}

/// A queued job: runs the sync and records how it went. A failed sync is
/// recorded, not returned; its repository stays in progress, which is what a
/// resume looks for.
pub struct RunSyncJob {
    pub session_id: u128,
    pub ctx: SecurityContext,
    pub owner: String,
    pub name: String,
    pub scope: ScopeConfig,
    pub force: bool,
    pub stage: JobStage,
    /// The session as it was saved last.
    pub session: Option<SyncSessionRecord>,
    pub completed: bool,
}

impl RunSyncJob {
    /// A job that nothing has been done for.
    pub fn new(job: &SyncJob) -> (out: Self)
        ensures
            out.wf(),
            out.session_id == job.session_id,
            out.ctx == job.ctx,
            out.owner == job.owner,
            out.name == job.name,
            out.scope == job.scope,
            out.force == job.force,
            out.stage == JobStage::New,
    {
        RunSyncJob {
            session_id: job.session_id,
            ctx: job.ctx,
            owner: job.owner.clone(),
            name: job.name.clone(),
            scope: job.scope,
            force: job.force,
            stage: JobStage::New,
            session: None,
            completed: false,
        }
    }

    /// The session is known from when it was found until the job is over.
    pub open spec fn wf(&self) -> bool {
        &&& self.session is Some <==> !(self.stage == JobStage::New || self.stage
            == JobStage::Authorising || self.stage == JobStage::FindingSession || self.stage
            == JobStage::Over)
    }

    /// The event answers the action that was asked for last.
    pub open spec fn answers(&self, event: SessionEvent) -> bool {
        match self.stage {
            JobStage::New => event is Begin,
            JobStage::FindingSession => event is Session || event is Refused,
            JobStage::Running => event is Outcome,
            JobStage::FindingStatus => event is Status || event is Refused,
            JobStage::Over => false,
            _ => event is Done || event is Refused,
        }
    }

    /// The leave that the session is looked up and written with.
    pub open spec fn session_check(&self) -> AccessCheck {
        access::access(self.ctx, Resource::SyncSession, Action::Upsert)
    }

    /// The leave that the run status is looked up and written with.
    pub open spec fn status_check(&self) -> AccessCheck {
        access::access(self.ctx, Resource::RepoSyncStatus, Action::Upsert)
    }

    /// The next action is the right one for where the job stood.
    pub open spec fn asks(
        &self,
        event: SessionEvent,
        now: Seq<char>,
        out: SessionAction,
        next: JobStage,
    ) -> bool {
        let tenant = self.ctx.subject_tenant_id;
        match (self.stage, event) {
            (_, SessionEvent::Refused(error)) => {
                &&& next == JobStage::Over
                &&& out == SessionAction::Return(Err(error))
            },
            (JobStage::New, _) => {
                &&& next == JobStage::Authorising
                &&& out == SessionAction::Authorise(self.session_check())
            },
            (JobStage::Authorising, _) => {
                &&& next == JobStage::FindingSession
                &&& out == SessionAction::FindSession(self.session_check(), self.session_id)
            },
            (JobStage::FindingSession, SessionEvent::Session(Some(session))) => {
                &&& next == JobStage::SavingStart
                &&& out is SaveSession
                &&& out->SaveSession_0 == self.session_check()
                &&& out->SaveSession_1 == tenant
                &&& out->SaveSession_2@ == started_session(session@, now)
            },
            (JobStage::FindingSession, _) => {
                &&& next == JobStage::Over
                &&& out is Return
                &&& out->Return_0 is Err
                &&& out->Return_0->Err_0@ == ErrorView::NotFound
            },
            (JobStage::SavingStart, _) => {
                &&& next == JobStage::Running
                &&& out == SessionAction::RunSync(
                    self.ctx,
                    self.owner,
                    self.name,
                    FetchOptions { tenant_id: tenant, scope: self.scope, force: self.force },
                )
            },
            (JobStage::Running, SessionEvent::Outcome(outcome)) => {
                &&& next == JobStage::SavingEnd
                &&& out is SaveSession
                &&& out->SaveSession_0 == self.session_check()
                &&& out->SaveSession_1 == tenant
                &&& out->SaveSession_2@ == ended_session(
                    self.session->0@,
                    outcome_of(outcome),
                    now,
                )
            },
            (JobStage::SavingEnd, _) => if self.completed {
                &&& next == JobStage::AuthorisingStatus
                &&& out == SessionAction::Authorise(self.status_check())
            } else {
                &&& next == JobStage::Over
                &&& out == SessionAction::Return(Ok(self.session_id))
            },
            (JobStage::AuthorisingStatus, _) => {
                &&& next == JobStage::FindingStatus
                &&& out is FindStatus
                &&& out->FindStatus_0 == self.status_check()
                &&& out->FindStatus_1@ == self.session->0@.repo_full_name
            },
            (JobStage::FindingStatus, SessionEvent::Status(previous)) => {
                &&& next == JobStage::SavingStatus
                &&& out is SaveStatus
                &&& out->SaveStatus_0 == self.status_check()
                &&& out->SaveStatus_1 == tenant
                &&& out->SaveStatus_2@ == marked_status(
                    status_of(previous),
                    self.session->0@.repo_full_name,
                    self.session_id,
                    COMPLETE@,
                    Some(now),
                )
            },
            (JobStage::SavingStatus, _) => {
                &&& next == JobStage::Over
                &&& out == SessionAction::Return(Ok(self.session_id))
            },
            _ => false,
        }
    }

    /// What to do next, given how the last thing went. `now` is the time as
    /// text.
    pub fn step(&mut self, event: SessionEvent, now: &str) -> (out: SessionAction)
        requires
            old(self).wf(),
            old(self).answers(event),
        ensures
            final(self).wf(),
            old(self).asks(event, now@, out, final(self).stage),
            final(self).session_id == old(self).session_id,
            final(self).ctx == old(self).ctx,
            final(self).owner == old(self).owner,
            final(self).name == old(self).name,
            final(self).scope == old(self).scope,
            final(self).force == old(self).force,
            final(self).completed == match event {
                SessionEvent::Outcome(outcome) => outcome is Ok,
                _ => old(self).completed,
            },
            out is SaveSession ==> final(self).session is Some && final(self).session->0@
                == out->SaveSession_2@,
            !(out is SaveSession) && final(self).session is Some ==> final(self).session
                == old(self).session,
    {
        let tenant_id: u128 = self.ctx.subject_tenant_id;
        match event {
            SessionEvent::Refused(error) => {
                self.stage = JobStage::Over;
                self.session = None;
                SessionAction::Return(Err(error))
            },
            SessionEvent::Session(Some(session)) => {
                self.stage = JobStage::SavingStart;
                let started = session.start(now);
                let kept = started.copied();
                self.session = Some(kept);
                SessionAction::SaveSession(
                    session_scope(&self.ctx, Action::Upsert),
                    tenant_id,
                    started,
                )
            },
            SessionEvent::Session(None) => {
                self.stage = JobStage::Over;
                SessionAction::Return(Err(DomainError::NotFound))
            },
            SessionEvent::Outcome(outcome) => {
                self.stage = JobStage::SavingEnd;
                self.completed = outcome.is_ok();
                let mut running: Option<SyncSessionRecord> = None;
                std::mem::swap(&mut running, &mut self.session);
                match running {
                    Some(session) => {
                        let ended = session.end(outcome, now);
                        let kept = ended.copied();
                        self.session = Some(kept);
                        SessionAction::SaveSession(
                            session_scope(&self.ctx, Action::Upsert),
                            tenant_id,
                            ended,
                        )
                    },
                    None => SessionAction::Return(Err(DomainError::NotFound)),
                }
            },
            SessionEvent::Status(previous) => {
                self.stage = JobStage::SavingStatus;
                match &self.session {
                    Some(session) => SessionAction::SaveStatus(
                        repo_status_scope(&self.ctx, Action::Upsert),
                        tenant_id,
                        mark_repo_status(
                            previous,
                            session.repo_full_name.as_str(),
                            self.session_id,
                            COMPLETE,
                            Some(now.to_owned()),
                        ),
                    ),
                    None => SessionAction::Return(Err(DomainError::NotFound)),
                }
            },
            _ => {
                let out = self.proceed();
                assert(old(self).asks(SessionEvent::Done, now@, out, self.stage));
                out
            },
        }
    }

    fn proceed(&mut self) -> (out: SessionAction)
        requires
            old(self).wf(),
            old(self).answers(SessionEvent::Done) || old(self).stage == JobStage::New,
        ensures
            final(self).wf(),
            forall|now: Seq<char>| #[trigger]
                old(self).asks(SessionEvent::Done, now, out, final(self).stage),
            final(self).session_id == old(self).session_id,
            final(self).ctx == old(self).ctx,
            final(self).owner == old(self).owner,
            final(self).name == old(self).name,
            final(self).scope == old(self).scope,
            final(self).force == old(self).force,
            final(self).completed == old(self).completed,
            !(out is SaveSession),
            final(self).session is Some ==> final(self).session == old(self).session,
    {
        match self.stage {
            JobStage::New => {
                self.stage = JobStage::Authorising;
                SessionAction::Authorise(session_scope(&self.ctx, Action::Upsert))
            },
            JobStage::Authorising => {
                self.stage = JobStage::FindingSession;
                SessionAction::FindSession(
                    session_scope(&self.ctx, Action::Upsert),
                    self.session_id,
                )
            },
            JobStage::SavingStart => {
                self.stage = JobStage::Running;
                SessionAction::RunSync(
                    self.ctx,
                    self.owner.clone(),
                    self.name.clone(),
                    FetchOptions {
                        tenant_id: self.ctx.subject_tenant_id,
                        scope: self.scope,
                        force: self.force,
                    },
                )
            },
            JobStage::SavingEnd => {
                if self.completed {
                    self.stage = JobStage::AuthorisingStatus;
                    SessionAction::Authorise(
                        repo_status_scope(&self.ctx, Action::Upsert),
                    )
                } else {
                    self.stage = JobStage::Over;
                    self.session = None;
                    SessionAction::Return(Ok(self.session_id))
                }
            },
            JobStage::AuthorisingStatus => {
                self.stage = JobStage::FindingStatus;
                match &self.session {
                    Some(session) => SessionAction::FindStatus(
                        repo_status_scope(&self.ctx, Action::Upsert),
                        session.repo_full_name.clone(),
                    ),
                    None => SessionAction::Return(Err(DomainError::NotFound)),
                }
            },
            _ => {
                self.stage = JobStage::Over;
                self.session = None;
                SessionAction::Return(Ok(self.session_id))
            },
        }
    }
}

impl JobStage {
    /// How far along the job is.
    pub open spec fn rank(self) -> nat {
        match self {
            JobStage::New => 0,
            JobStage::Authorising => 1,
            JobStage::FindingSession => 2,
            JobStage::SavingStart => 3,
            JobStage::Running => 4,
            JobStage::SavingEnd => 5,
            JobStage::AuthorisingStatus => 6,
            JobStage::FindingStatus => 7,
            JobStage::SavingStatus => 8,
            JobStage::Over => 9,
        }
    }
}

/// A job only ever moves forward, and it is over exactly when it has given its
/// answer. So it ends after a bounded number of steps.
pub proof fn jobs_move_forward(
    job: RunSyncJob,
    event: SessionEvent,
    now: Seq<char>,
    out: SessionAction,
    next: JobStage,
)
    requires
        job.answers(event),
        job.asks(event, now, out, next),
    ensures
        job.stage.rank() < next.rank() <= JobStage::Over.rank(),
        next == JobStage::Over <==> out is Return,
{
}

/// A session whose run ended stands at a hundred percent with its end stamped,
/// whether the run failed or went through.
pub proof fn ended_session_stands_at_a_hundred(
    job: RunSyncJob,
    outcome: Result<Option<String>, DomainError>,
    now: Seq<char>,
    out: SessionAction,
    next: JobStage,
)
    requires
        job.stage == JobStage::Running,
        job.asks(SessionEvent::Outcome(outcome), now, out, next),
    ensures
        out is SaveSession,
        out->SaveSession_2@.progress_percent == 100,
        out->SaveSession_2@.ended_at == Some(now),
        out->SaveSession_2@.status == if outcome is Ok {
            COMPLETE@
        } else {
            FAILED@
        },
        out->SaveSession_2@.started_at == job.session->0@.started_at,
{
}

/// A run that failed leaves its repository's status alone: nothing is written
/// there after it.
pub proof fn failed_run_leaves_the_repository_in_progress(
    job: RunSyncJob,
    event: SessionEvent,
    now: Seq<char>,
    out: SessionAction,
    next: JobStage,
)
    requires
        job.stage == JobStage::SavingEnd,
        !job.completed,
        !(event is Refused),
        job.asks(event, now, out, next),
    ensures
        next == JobStage::Over,
        out == SessionAction::Return(Ok(job.session_id)),
{
}

/// A run that went through marks its repository complete, synced just now.
pub proof fn completed_run_marks_the_repository(
    job: RunSyncJob,
    previous: Option<RepoSyncStatusRecord>,
    now: Seq<char>,
    out: SessionAction,
    next: JobStage,
)
    requires
        job.stage == JobStage::FindingStatus,
        job.asks(SessionEvent::Status(previous), now, out, next),
    ensures
        out is SaveStatus,
        out->SaveStatus_2@.status == COMPLETE@,
        out->SaveStatus_2@.last_synced_at == Some(now),
        out->SaveStatus_2@.last_session_id == Some(job.session_id),
{
}

// ---------------------------------------------------------------------------
// Operations
// ---------------------------------------------------------------------------

impl Service {
    /// What leave a look-up of a session needs.
    pub fn get_session(&self, ctx: &SecurityContext) -> (out: AccessCheck)
        ensures
            out == access::access(*ctx, Resource::SyncSession, Action::Get),
    {
        session_scope(ctx, Action::Get)
    }

    /// The caller's sessions: what leave to ask for, and how many to list.
    pub fn list_sessions(&self, ctx: &SecurityContext, query: &ODataQuery) -> (out: (AccessCheck, u64))
        ensures
            out.0 == access::access(*ctx, Resource::SyncSession, Action::List),
            out.1 == queries::limit_of(*query),
    {
        let limit: u64 = match query.limit {
            Some(limit) => limit,
            None => queries::DEFAULT_LIST_LIMIT,
        };
        (session_scope(ctx, Action::List), limit)
    }

    /// The caller's run statuses, of one status only where one is asked for: what
    /// leave to ask for, which status, and how many to list.
    pub fn list_repo_sync_status(
        &self,
        ctx: &SecurityContext,
        query: &ODataQuery,
        status: Option<&str>,
    ) -> (out: (AccessCheck, Option<String>, u64))
        ensures
            out.0 == access::access(*ctx, Resource::RepoSyncStatus, Action::List),
            json::text_of(out.1) == match status {
                Some(status) => Some(status@),
                None => None,
            },
            out.2 == queries::limit_of(*query),
    {
        let limit: u64 = match query.limit {
            Some(limit) => limit,
            None => queries::DEFAULT_LIST_LIMIT,
        };
        let status = match status {
            Some(status) => Some(status.to_owned()),
            None => None,
        };
        (repo_status_scope(ctx, Action::List), status, limit)
    }

    /// Closes the sessions that a process left in flight, each in its tenant.
    pub fn sweep_interrupted_sessions(&self, stale: Vec<(u128, SyncSessionRecord)>, now: &str) -> (out: Vec<
        (u128, SyncSessionRecord),
    >)
        ensures
            out@.len() == stale@.len(),
            forall|i: int|
                0 <= i < out@.len() ==> {
                    &&& (#[trigger] out@[i]).0 == stale@[i].0
                    &&& out@[i].1@ == interrupted_session(stale@[i].1@, now@)
                },
    {
        let mut out: Vec<(u128, SyncSessionRecord)> = Vec::new();
        for entry in it: stale
            invariant
                it.seq() == stale@,
                out@.len() == it.index(),
                forall|i: int|
                    0 <= i < out@.len() ==> {
                        &&& (#[trigger] out@[i]).0 == stale@[i].0
                        &&& out@[i].1@ == interrupted_session(stale@[i].1@, now@)
                    },
        {
            let (tenant_id, session) = entry;
            out.push((tenant_id, session.interrupt(now)));
        }
        out
    }

    /// The repositories to queue again, by owner and name. A status without both
    /// is skipped.
    pub fn resume_incomplete_syncs(&self, pending: &Vec<RepoSyncStatusRecord>) -> (out: Vec<(String, String)>)
        ensures
            are_targets(pending@, out@),
    {
        let mut out: Vec<(String, String)> = Vec::new();
        let mut i: usize = 0;
        while i < pending.len()
            invariant
                i <= pending@.len(),
                are_targets(pending@.take(i as int), out@),
            decreases pending@.len() - i,
        {
            let ghost before = with_slugs(pending@.take(i as int));
            assert(pending@.take(i + 1).drop_last() =~= pending@.take(i as int));
            assert(pending@.take(i + 1).last() == pending@[i as int]);
            match text::split_once_at_slash(pending[i].repo_full_name.as_str()) {
                Some((owner, name)) => {
                    assert(pending@[i as int].repo_full_name@.contains('/')) by {
                        assert(pending@[i as int].repo_full_name@[owner@.len() as int] == '/');
                    }
                    out.push((owner, name));
                    assert(with_slugs(pending@.take(i + 1)) == before.push(pending@[i as int]));
                },
                None => {
                    assert(with_slugs(pending@.take(i + 1)) == before);
                },
            }
            i = i + 1;
        }
        assert(pending@.take(i as int) =~= pending@);
        out
    }

    /// A request to sync. `id` is the new session's; without a scope of its own
    /// the request collects what is configured.
    pub fn enqueue_sync(
        &self,
        id: u128,
        ctx: &SecurityContext,
        owner: &str,
        name: &str,
        sync_scope: Option<ScopeConfig>,
        force: bool,
    ) -> (out: EnqueueSync)
        ensures
            out.wf(),
            out.id == id,
            out.ctx == *ctx,
            out.owner@ == owner@,
            out.name@ == name@,
            out.scope == chosen_scope(sync_scope, self.config.scope),
            sync_scope is Some ==> out.scope == sync_scope->0,
            sync_scope is None ==> out.scope == self.config.scope,
            out.force == force,
            out.stage == EnqueueStage::New,
    {
        EnqueueSync::new(id, ctx, owner, name, sync_scope, self.config.scope, force)
    }

    /// A queued job to be run.
    pub fn run_sync_job(&self, job: &SyncJob) -> (out: RunSyncJob)
        ensures
            out.wf(),
            out.session_id == job.session_id,
            out.ctx == job.ctx,
            out.owner == job.owner,
            out.name == job.name,
            out.scope == job.scope,
            out.force == job.force,
            out.stage == JobStage::New,
    {
        RunSyncJob::new(job)
    }
}

} // verus!
