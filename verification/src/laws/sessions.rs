//! What a sync session, and the status of its repository, say at every step.

use crate::context::SecurityContext;
use crate::error;
use crate::error::{DomainError, ErrorView};
use crate::json;
use crate::scope::{CollectionMode, ScopeConfig};
use crate::service::access;
use crate::service::access::{Action, Resource};
use crate::service::progress;
use crate::service::sessions;
use crate::service::sessions::{
    EnqueueStage, EnqueueSync, JobStage, RepoStatusView, RepoSyncStatusRecord, RunSyncJob,
    SessionAction, SessionEvent, SessionView, SyncSessionRecord,
};
use vstd::prelude::*;
use vstd::string::*;

verus! {

/// A run collects what was requested, whatever is configured; without a request
/// it collects what is configured.
pub proof fn requested_scope_is_collected(
    requested: Option<ScopeConfig>,
    configured: ScopeConfig,
    out: ScopeConfig,
)
    requires
        out == sessions::chosen_scope(requested, configured),
    ensures
        requested is Some ==> out == requested->0,
        requested is None ==> out == configured,
{
}

/// The states of a session, as they are stored.
pub proof fn states_are_stored_in_these_words()
    ensures
        sessions::QUEUED@ == "queued"@,
        sessions::IN_PROGRESS@ == "in_progress"@,
        sessions::COMPLETE@ == "complete"@,
        sessions::FAILED@ == "failed"@,
        sessions::INTERRUPTED@ == "interrupted"@,
        sessions::RESUME_LIMIT == 500,
        sessions::SYNC_QUEUE_DEPTH == 64,
{
}

/// A session that was just requested is queued at nought, with nothing of a run.
pub proof fn requested_session_is_queued(id: u128, repo_full_name: Seq<char>, now: Seq<char>)
    ensures
        ({
            let session = sessions::queued_session(id, repo_full_name, now);
            &&& session.id == id
            &&& session.repo_full_name == repo_full_name
            &&& session.repo_id is None
            &&& session.status == "queued"@
            &&& session.progress_percent == 0
            &&& session.error is None
            &&& session.summary_json is None
            &&& session.created_at == now
            &&& session.started_at is None
            &&& session.ended_at is None
        }),
{
}

/// What a transition says of a session: the rest of it stays.
pub open spec fn keeps_its_request(before: SessionView, after: SessionView) -> bool {
    &&& after.id == before.id
    &&& after.repo_full_name == before.repo_full_name
    &&& after.repo_id == before.repo_id
    &&& after.created_at == before.created_at
}

/// A failed session says when and why it failed.
pub proof fn failed_session_says_when_and_why(
    before: SessionView,
    reason: Seq<char>,
    now: Seq<char>,
)
    ensures
        ({
            let after = sessions::failed_session(before, reason, now);
            &&& keeps_its_request(before, after)
            &&& after.status == "failed"@
            &&& after.error == Some(reason)
            &&& after.ended_at == Some(now)
            &&& after.started_at == before.started_at
            &&& after.progress_percent == before.progress_percent
            &&& after.summary_json == before.summary_json
        }),
{
}

/// A session that is taken up is in progress from then on.
pub proof fn started_session_is_in_progress(before: SessionView, now: Seq<char>)
    ensures
        ({
            let after = sessions::started_session(before, now);
            &&& keeps_its_request(before, after)
            &&& after.status == "in_progress"@
            &&& after.started_at == Some(now)
            &&& after.error == before.error
            &&& after.ended_at == before.ended_at
            &&& after.progress_percent == before.progress_percent
            &&& after.summary_json == before.summary_json
        }),
{
}

/// A run that went through completes its session, with its summary.
pub proof fn completed_session_has_its_summary(
    before: SessionView,
    summary: Option<Seq<char>>,
    now: Seq<char>,
)
    ensures
        ({
            let after = sessions::ended_session(before, Ok(summary), now);
            &&& keeps_its_request(before, after)
            &&& after.status == "complete"@
            &&& after.summary_json == summary
            &&& after.progress_percent == 100
            &&& after.ended_at == Some(now)
            &&& after.started_at == before.started_at
            &&& after.error == before.error
        }),
{
}

/// A run that stopped fails its session, with the words of the error.
pub proof fn stopped_session_has_its_error(
    before: SessionView,
    field: Seq<char>,
    message: Seq<char>,
    stopped: ErrorView,
    now: Seq<char>,
)
    ensures
        ({
            let after = sessions::ended_session(before, Err(stopped), now);
            &&& keeps_its_request(before, after)
            &&& after.status == "failed"@
            &&& after.progress_percent == 100
            &&& after.ended_at == Some(now)
            &&& after.started_at == before.started_at
            &&& after.summary_json == before.summary_json
            &&& after.error is Some
            &&& stopped == ErrorView::NotFound ==> after.error == Some("not found"@)
            &&& stopped == (ErrorView::Validation { field, message }) ==> after.error == Some(
                field + ": "@ + message,
            )
            &&& stopped == ErrorView::Forbidden(message) ==> after.error == Some(message)
            &&& stopped == ErrorView::Internal(message) ==> after.error == Some(message)
            &&& stopped == ErrorView::Database(message) ==> after.error == Some(message)
        }),
{
}

/// A session left in flight says that the server restarted.
pub proof fn interrupted_session_says_so(before: SessionView, now: Seq<char>)
    ensures
        ({
            let after = sessions::interrupted_session(before, now);
            &&& keeps_its_request(before, after)
            &&& after.status == "interrupted"@
            &&& after.error == Some("the server restarted while this sync was in flight"@)
            &&& after.ended_at == Some(now)
            &&& after.started_at == before.started_at
            &&& after.progress_percent == before.progress_percent
            &&& after.summary_json == before.summary_json
        }),
{
}

/// A heartbeat says how far the session is, and when that was.
pub proof fn beating_session_says_how_far_it_is(
    before: SessionView,
    percent: u8,
    now: Seq<char>,
)
    ensures
        ({
            let after = sessions::beating_session(before, percent, now);
            &&& keeps_its_request(before, after)
            &&& after.progress_percent == percent
            &&& after.ended_at == Some(now)
            &&& after.status == before.status
            &&& after.started_at == before.started_at
            &&& after.error == before.error
            &&& after.summary_json == before.summary_json
        }),
{
}

/// What a stored session shows is what its fields hold.
pub proof fn session_shows_its_fields(session: SyncSessionRecord)
    ensures
        session@.id == session.id,
        session@.repo_full_name == session.repo_full_name@,
        session@.repo_id == session.repo_id,
        session@.status == session.status@,
        session@.progress_percent == session.progress_percent,
        session.error is Some ==> session@.error == Some(session.error->0@),
        session.error is None ==> session@.error is None,
        session.summary_json is Some ==> session@.summary_json == Some(session.summary_json->0@),
        session.summary_json is None ==> session@.summary_json is None,
        session@.created_at == session.created_at@,
        session.started_at is Some ==> session@.started_at == Some(session.started_at->0@),
        session.started_at is None ==> session@.started_at is None,
        session.ended_at is Some ==> session@.ended_at == Some(session.ended_at->0@),
        session.ended_at is None ==> session@.ended_at is None,
{
}

/// What a stored status shows is what its fields hold.
pub proof fn status_shows_its_fields(status: RepoSyncStatusRecord)
    ensures
        status@.repo_full_name == status.repo_full_name@,
        status@.repo_id == status.repo_id,
        status@.status == status.status@,
        status@.last_session_id == status.last_session_id,
        status.last_synced_at is Some ==> status@.last_synced_at == Some(status.last_synced_at->0@),
        status.last_synced_at is None ==> status@.last_synced_at is None,
        sessions::status_of(Some(status)) == Some(status@),
        sessions::status_of(None) is None,
{
}

/// The outcome of a run is its summary, or its error.
pub proof fn outcome_is_the_summary_or_the_error(summary: String, stopped: DomainError)
    ensures
        sessions::outcome_of(Ok(Some(summary))) == Ok::<_, ErrorView>(Some(summary@)),
        sessions::outcome_of(Ok(None)) == Ok::<_, ErrorView>(None::<Seq<char>>),
        sessions::outcome_of(Err(stopped)) == Err::<Option<Seq<char>>, _>(stopped@),
{
}

/// The status of a repository names its last session and state. When it was
/// last synced changes only with a sync; its id is kept.
pub proof fn status_names_the_last_session(
    previous: RepoStatusView,
    repo_full_name: Seq<char>,
    session_id: u128,
    status: Seq<char>,
    at: Seq<char>,
)
    ensures
        ({
            let synced = sessions::marked_status(
                Some(previous),
                repo_full_name,
                session_id,
                status,
                Some(at),
            );
            &&& synced.repo_full_name == repo_full_name
            &&& synced.repo_id == previous.repo_id
            &&& synced.status == status
            &&& synced.last_session_id == Some(session_id)
            &&& synced.last_synced_at == Some(at)
        }),
        ({
            let begun = sessions::marked_status(
                Some(previous),
                repo_full_name,
                session_id,
                status,
                None,
            );
            &&& begun.repo_full_name == repo_full_name
            &&& begun.repo_id == previous.repo_id
            &&& begun.status == status
            &&& begun.last_session_id == Some(session_id)
            &&& begun.last_synced_at == previous.last_synced_at
        }),
        ({
            let first = sessions::marked_status(None, repo_full_name, session_id, status, None);
            &&& first.repo_full_name == repo_full_name
            &&& first.repo_id is None
            &&& first.status == status
            &&& first.last_session_id == Some(session_id)
            &&& first.last_synced_at is None
        }),
        sessions::marked_status(
            None,
            repo_full_name,
            session_id,
            status,
            Some(at),
        ).last_synced_at == Some(at),
{
}

// ---------------------------------------------------------------------------
// Resuming
// ---------------------------------------------------------------------------

/// A slug is cut at its first slash, and nowhere else.
pub proof fn slug_is_cut_at_its_first_slash(
    owner: Seq<char>,
    name: Seq<char>,
    other_owner: Seq<char>,
    other_name: Seq<char>,
)
    requires
        !owner.contains('/'),
    ensures
        sessions::is_split(owner + "/"@ + name, owner, name),
        sessions::is_split(owner + "/"@ + name, other_owner, other_name) ==> other_owner == owner
            && other_name == name,
{
    reveal_strlit("/");
    assert("/"@ =~= seq!['/']);
    let slug = owner + "/"@ + name;
    if sessions::is_split(slug, other_owner, other_name) {
        let other = other_owner + seq!['/'] + other_name;
        assert(slug[owner.len() as int] == '/');
        assert(other[other_owner.len() as int] == '/');
        if other_owner.len() < owner.len() {
            assert(slug[other_owner.len() as int] == owner[other_owner.len() as int]);
            assert(owner.contains('/'));
        }
        if owner.len() < other_owner.len() {
            assert(other[owner.len() as int] == other_owner[owner.len() as int]);
            assert(other_owner.contains('/'));
        }
        assert(slug.take(owner.len() as int) =~= owner);
        assert(other.take(owner.len() as int) =~= other_owner);
        assert(slug.skip(owner.len() as int + 1) =~= name);
        assert(other.skip(owner.len() as int + 1) =~= other_name);
    }
}

/// A status is resumed when its repository has a slash in its name, behind those
/// resumed before it.
pub proof fn statuses_with_a_slash_are_resumed_in_order(
    pending: Seq<RepoSyncStatusRecord>,
    status: RepoSyncStatusRecord,
)
    ensures
        sessions::with_slugs(Seq::empty()).len() == 0,
        status.repo_full_name@.contains('/') ==> sessions::with_slugs(pending.push(status))
            == sessions::with_slugs(pending).push(status),
        !status.repo_full_name@.contains('/') ==> sessions::with_slugs(pending.push(status))
            == sessions::with_slugs(pending),
{
    assert(pending.push(status).drop_last() =~= pending);
}

/// A resume queues one target for each status it resumes, by owner and name.
pub proof fn targets_are_the_resumed_repositories(
    pending: Seq<RepoSyncStatusRecord>,
    targets: Seq<(String, String)>,
    i: int,
    owner: Seq<char>,
    name: Seq<char>,
)
    requires
        sessions::are_targets(pending, targets),
        0 <= i < sessions::with_slugs(pending).len(),
        sessions::with_slugs(pending)[i].repo_full_name@ == owner + "/"@ + name,
        !owner.contains('/'),
    ensures
        targets.len() == sessions::with_slugs(pending).len(),
        targets[i].0@ == owner,
        targets[i].1@ == name,
{
    slug_is_cut_at_its_first_slash(owner, name, targets[i].0@, targets[i].1@);
}

/// A resume answers with the sessions that were queued, in order, and leaves out
/// what failed.
pub proof fn queued_sessions_are_answered_in_order(
    outcomes: Seq<Result<u128, DomainError>>,
    id: u128,
    refused: DomainError,
)
    ensures
        sessions::queued_ids(Seq::empty()).len() == 0,
        sessions::queued_ids(outcomes.push(Ok(id))) == sessions::queued_ids(outcomes).push(id),
        sessions::queued_ids(outcomes.push(Err(refused))) == sessions::queued_ids(outcomes),
{
    assert(outcomes.push(Ok(id)).drop_last() =~= outcomes);
    assert(outcomes.push(Err(refused)).drop_last() =~= outcomes);
}

// ---------------------------------------------------------------------------
// Requests
// ---------------------------------------------------------------------------

/// Leave is asked for to write sessions, and statuses, of the caller's tenant.
pub proof fn machines_ask_to_write_in_the_callers_tenant(request: EnqueueSync, job: RunSyncJob)
    ensures
        request.session_check().resource == Resource::SyncSession,
        request.session_check().action == Action::Upsert,
        request.session_check().owner_tenant_id == request.ctx.subject_tenant_id,
        request.status_check().resource == Resource::RepoSyncStatus,
        request.status_check().action == Action::Upsert,
        request.status_check().owner_tenant_id == request.ctx.subject_tenant_id,
        job.session_check().resource == Resource::SyncSession,
        job.session_check().action == Action::Upsert,
        job.session_check().owner_tenant_id == job.ctx.subject_tenant_id,
        job.status_check().resource == Resource::RepoSyncStatus,
        job.status_check().action == Action::Upsert,
        job.status_check().owner_tenant_id == job.ctx.subject_tenant_id,
        request.full_name() == request.owner@ + "/"@ + request.name@,
{
}

/// A request records a queued session for the repository it names, before
/// anything else is written.
pub proof fn request_records_a_queued_session(
    request: EnqueueSync,
    event: SessionEvent,
    now: Seq<char>,
    out: SessionAction,
    next: EnqueueStage,
)
    requires
        request.asks(event, now, out, next),
        !(event is Refused),
    ensures
        request.stage == EnqueueStage::New ==> next == EnqueueStage::Validating && out
            == SessionAction::Validate(request.scope),
        request.stage == EnqueueStage::Validating ==> next == EnqueueStage::Authorising && out
            == SessionAction::Authorise(request.session_check()),
        request.stage == EnqueueStage::Authorising ==> {
            &&& next == EnqueueStage::SavingSession
            &&& out is SaveSession
            &&& out->SaveSession_0 == request.session_check()
            &&& out->SaveSession_1 == request.ctx.subject_tenant_id
            &&& out->SaveSession_2@.id == request.id
            &&& out->SaveSession_2@.repo_full_name == request.owner@ + "/"@ + request.name@
            &&& out->SaveSession_2@.status == "queued"@
            &&& out->SaveSession_2@.progress_percent == 0
            &&& out->SaveSession_2@.created_at == now
            &&& out->SaveSession_2@.started_at is None
            &&& out->SaveSession_2@.ended_at is None
            &&& out->SaveSession_2@.error is None
            &&& out->SaveSession_2@.summary_json is None
        },
{
}

/// Then it marks the repository as in progress, and hands the job over as it was
/// asked for.
pub proof fn request_marks_the_repository_and_sends_the_job(
    request: EnqueueSync,
    event: SessionEvent,
    now: Seq<char>,
    out: SessionAction,
    next: EnqueueStage,
)
    requires
        request.asks(event, now, out, next),
        !(event is Refused),
    ensures
        request.stage == EnqueueStage::SavingSession ==> next == EnqueueStage::AuthorisingStatus
            && out == SessionAction::Authorise(request.status_check()),
        request.stage == EnqueueStage::AuthorisingStatus ==> {
            &&& next == EnqueueStage::FindingStatus
            &&& out is FindStatus
            &&& out->FindStatus_0 == request.status_check()
            &&& out->FindStatus_1@ == request.owner@ + "/"@ + request.name@
        },
        request.stage == EnqueueStage::FindingStatus && event is Status ==> {
            &&& next == EnqueueStage::SavingStatus
            &&& out is SaveStatus
            &&& out->SaveStatus_0 == request.status_check()
            &&& out->SaveStatus_1 == request.ctx.subject_tenant_id
            &&& out->SaveStatus_2@.repo_full_name == request.owner@ + "/"@ + request.name@
            &&& out->SaveStatus_2@.status == "in_progress"@
            &&& out->SaveStatus_2@.last_session_id == Some(request.id)
            &&& event->Status_0 is Some ==> out->SaveStatus_2@.last_synced_at
                == event->Status_0->0@.last_synced_at && out->SaveStatus_2@.repo_id
                == event->Status_0->0@.repo_id
            &&& event->Status_0 is None ==> out->SaveStatus_2@.last_synced_at is None
                && out->SaveStatus_2@.repo_id is None
        },
        request.stage == EnqueueStage::SavingStatus ==> {
            &&& next == EnqueueStage::Sending
            &&& out is Send
            &&& out->Send_0.session_id == request.id
            &&& out->Send_0.ctx == request.ctx
            &&& out->Send_0.owner == request.owner
            &&& out->Send_0.name == request.name
            &&& out->Send_0.scope == request.scope
            &&& out->Send_0.force == request.force
        },
{
}

/// A job that was taken is answered with its session. One that was not leaves
/// its session failed, and the caller is told why.
pub proof fn request_is_answered_with_its_session(
    request: EnqueueSync,
    event: SessionEvent,
    now: Seq<char>,
    out: SessionAction,
    next: EnqueueStage,
)
    requires
        request.asks(event, now, out, next),
    ensures
        event is Refused ==> next == EnqueueStage::Over && out == SessionAction::Return(
            Err(event->Refused_0),
        ),
        request.stage == EnqueueStage::Sending && event is Done ==> next == EnqueueStage::Over
            && out == SessionAction::Return(Ok(request.id)),
        request.stage == EnqueueStage::Sending && event is NotSent ==> {
            &&& next == EnqueueStage::SavingFailure
            &&& out is SaveSession
            &&& out->SaveSession_0 == request.session_check()
            &&& out->SaveSession_1 == request.ctx.subject_tenant_id
            &&& out->SaveSession_2@.id == request.session->0@.id
            &&& out->SaveSession_2@.repo_full_name == request.session->0@.repo_full_name
            &&& out->SaveSession_2@.status == "failed"@
            &&& out->SaveSession_2@.ended_at == Some(now)
            &&& out->SaveSession_2@.error == Some(
                "sync could not be queued: "@ + event->NotSent_0@,
            )
        },
        request.stage == EnqueueStage::SavingFailure && event is Done ==> {
            &&& next == EnqueueStage::Over
            &&& out is Return
            &&& out->Return_0 is Err
            &&& out->Return_0->Err_0@ == ErrorView::Internal(request.reason->0@)
        },
        sessions::not_queued(now) == "sync could not be queued: "@ + now,
{
}

// ---------------------------------------------------------------------------
// Jobs
// ---------------------------------------------------------------------------

/// A job takes its session up and runs the sync that was asked for, for the
/// caller who asked.
pub proof fn job_takes_its_session_up_and_runs(
    job: RunSyncJob,
    event: SessionEvent,
    now: Seq<char>,
    out: SessionAction,
    next: JobStage,
)
    requires
        job.asks(event, now, out, next),
    ensures
        event is Refused ==> next == JobStage::Over && out == SessionAction::Return(
            Err(event->Refused_0),
        ),
        job.stage == JobStage::New && !(event is Refused) ==> next == JobStage::Authorising && out
            == SessionAction::Authorise(job.session_check()),
        job.stage == JobStage::Authorising && !(event is Refused) ==> next
            == JobStage::FindingSession && out == SessionAction::FindSession(
            job.session_check(),
            job.session_id,
        ),
        job.stage == JobStage::FindingSession && event is Session && event->Session_0 is Some ==> {
            &&& next == JobStage::SavingStart
            &&& out is SaveSession
            &&& out->SaveSession_0 == job.session_check()
            &&& out->SaveSession_1 == job.ctx.subject_tenant_id
            &&& keeps_its_request(event->Session_0->0@, out->SaveSession_2@)
            &&& out->SaveSession_2@.status == "in_progress"@
            &&& out->SaveSession_2@.started_at == Some(now)
        },
        job.stage == JobStage::FindingSession && event is Session && event->Session_0 is None ==> {
            &&& next == JobStage::Over
            &&& out is Return
            &&& out->Return_0 is Err
            &&& out->Return_0->Err_0@ == ErrorView::NotFound
        },
        job.stage == JobStage::SavingStart && !(event is Refused) ==> {
            &&& next == JobStage::Running
            &&& out is RunSync
            &&& out->RunSync_0 == job.ctx
            &&& out->RunSync_1 == job.owner
            &&& out->RunSync_2 == job.name
            &&& out->RunSync_3.tenant_id == job.ctx.subject_tenant_id
            &&& out->RunSync_3.scope == job.scope
            &&& out->RunSync_3.force == job.force
        },
{
}

/// A job records how its run went. Only a run that went through is also recorded
/// in the status of the repository, as synced now.
pub proof fn job_records_how_its_run_went(
    job: RunSyncJob,
    event: SessionEvent,
    now: Seq<char>,
    out: SessionAction,
    next: JobStage,
)
    requires
        job.asks(event, now, out, next),
        !(event is Refused),
    ensures
        job.stage == JobStage::Running && event is Outcome ==> {
            &&& next == JobStage::SavingEnd
            &&& out is SaveSession
            &&& out->SaveSession_0 == job.session_check()
            &&& out->SaveSession_1 == job.ctx.subject_tenant_id
            &&& keeps_its_request(job.session->0@, out->SaveSession_2@)
            &&& out->SaveSession_2@.progress_percent == 100
            &&& out->SaveSession_2@.ended_at == Some(now)
            &&& event->Outcome_0 is Ok ==> out->SaveSession_2@.status == "complete"@
            &&& event->Outcome_0 is Ok ==> out->SaveSession_2@.summary_json == json::text_of(
                event->Outcome_0->Ok_0,
            )
            &&& event->Outcome_0 is Err ==> out->SaveSession_2@.status == "failed"@
            &&& event->Outcome_0 is Err ==> out->SaveSession_2@.error == Some(
                error::error_text(event->Outcome_0->Err_0@),
            )
        },
        job.stage == JobStage::SavingEnd && job.completed ==> next == JobStage::AuthorisingStatus
            && out == SessionAction::Authorise(job.status_check()),
        job.stage == JobStage::SavingEnd && !job.completed ==> next == JobStage::Over && out
            == SessionAction::Return(Ok(job.session_id)),
        job.stage == JobStage::AuthorisingStatus ==> {
            &&& next == JobStage::FindingStatus
            &&& out is FindStatus
            &&& out->FindStatus_0 == job.status_check()
            &&& out->FindStatus_1@ == job.session->0@.repo_full_name
        },
        job.stage == JobStage::FindingStatus && event is Status ==> {
            &&& next == JobStage::SavingStatus
            &&& out is SaveStatus
            &&& out->SaveStatus_0 == job.status_check()
            &&& out->SaveStatus_1 == job.ctx.subject_tenant_id
            &&& out->SaveStatus_2@.repo_full_name == job.session->0@.repo_full_name
            &&& out->SaveStatus_2@.status == "complete"@
            &&& out->SaveStatus_2@.last_session_id == Some(job.session_id)
            &&& out->SaveStatus_2@.last_synced_at == Some(now)
            &&& event->Status_0 is Some ==> out->SaveStatus_2@.repo_id
                == event->Status_0->0@.repo_id
        },
        job.stage == JobStage::SavingStatus ==> next == JobStage::Over && out
            == SessionAction::Return(Ok(job.session_id)),
{
}

/// A machine takes the events that answer what it asked for: a look-up is
/// answered by what was found, a run by its outcome, and anything but a run, the
/// handing over and the start may be refused.
pub proof fn machines_take_the_answers_they_asked_for(
    request: EnqueueSync,
    job: RunSyncJob,
    event: SessionEvent,
)
    ensures
        request.stage == EnqueueStage::New ==> (request.answers(event) <==> event is Begin),
        request.stage == EnqueueStage::FindingStatus ==> (request.answers(event) <==> event
            is Status || event is Refused),
        request.stage == EnqueueStage::Sending ==> (request.answers(event) <==> event is Done
            || event is NotSent),
        request.stage == EnqueueStage::Over ==> !request.answers(event),
        request.stage == EnqueueStage::Validating || request.stage == EnqueueStage::Authorising
            || request.stage == EnqueueStage::SavingSession || request.stage
            == EnqueueStage::AuthorisingStatus || request.stage == EnqueueStage::SavingStatus
            || request.stage == EnqueueStage::SavingFailure ==> (request.answers(event) <==> event
            is Done || event is Refused),
        job.stage == JobStage::New ==> (job.answers(event) <==> event is Begin),
        job.stage == JobStage::FindingSession ==> (job.answers(event) <==> event is Session
            || event is Refused),
        job.stage == JobStage::Running ==> (job.answers(event) <==> event is Outcome),
        job.stage == JobStage::FindingStatus ==> (job.answers(event) <==> event is Status
            || event is Refused),
        job.stage == JobStage::Over ==> !job.answers(event),
        job.stage == JobStage::Authorising || job.stage == JobStage::SavingStart || job.stage
            == JobStage::SavingEnd || job.stage == JobStage::AuthorisingStatus || job.stage
            == JobStage::SavingStatus ==> (job.answers(event) <==> event is Done || event
            is Refused),
{
}

/// A machine holds a session from the moment it has one to save until it is
/// over, and a request holds a reason exactly while it records a failure.
pub proof fn machines_hold_their_session(request: EnqueueSync, job: RunSyncJob)
    ensures
        request.wf() && request.stage == EnqueueStage::SavingSession ==> request.session is Some,
        request.wf() && request.stage == EnqueueStage::Sending ==> request.session is Some
            && request.reason is None,
        request.wf() && request.stage == EnqueueStage::SavingFailure ==> request.session is Some
            && request.reason is Some,
        request.wf() && request.stage == EnqueueStage::New ==> request.session is None
            && request.reason is None,
        request.wf() && request.stage == EnqueueStage::Over ==> request.session is None
            && request.reason is None,
        job.wf() && job.stage == JobStage::New ==> job.session is None,
        job.wf() && job.stage == JobStage::Running ==> job.session is Some,
        job.wf() && job.stage == JobStage::SavingEnd ==> job.session is Some,
        job.wf() && job.stage == JobStage::FindingStatus ==> job.session is Some,
        job.wf() && job.stage == JobStage::Over ==> job.session is None,
{
}

// ---------------------------------------------------------------------------
// Progress and scope
// ---------------------------------------------------------------------------

/// Progress is the greatest of what was reported: 20 once everything is fetched,
/// 95 once it is written, 100 once the run is over.
pub proof fn progress_is_the_greatest_report(percent: u8, value: u8)
    ensures
        percent <= value ==> progress::raised(percent, value) == value,
        percent >= value ==> progress::raised(percent, value) == percent,
        progress::PROGRESS_FETCHED == 20,
        progress::PROGRESS_STORED == 95,
        progress::PROGRESS_FINISHED == 100,
        progress::HEARTBEAT_SECS == 2,
{
}

/// A sub-resource is collected for none, for the open ones, or for all.
pub proof fn modes_cover_none_open_or_all(open: bool)
    ensures
        !CollectionMode::Off.covers(open),
        CollectionMode::Open.covers(true),
        !CollectionMode::Open.covers(false),
        CollectionMode::All.covers(open),
{
}

/// Unless told otherwise a sync collects every object, reactions and actions of
/// open entities, and no timelines.
pub proof fn basic_scope_collects_every_object()
    ensures
        ({
            let scope = ScopeConfig::basic();
            &&& scope.objects.pull_requests
            &&& scope.objects.issues
            &&& scope.objects.commits
            &&& scope.objects.labels
            &&& scope.objects.milestones
            &&& scope.objects.releases
            &&& scope.objects.branches
            &&& scope.objects.github_actions
            &&& scope.collection.reactions == CollectionMode::Open
            &&& scope.collection.timeline == CollectionMode::Off
            &&& scope.collection.actions == CollectionMode::Open
        }),
{
}

/// Leave is asked for in the tenant the caller acts in, for what is to be done
/// to what.
pub proof fn leave_is_asked_for_in_the_callers_tenant(
    ctx: SecurityContext,
    resource: Resource,
    action: Action,
)
    ensures
        access::access(ctx, resource, action).resource == resource,
        access::access(ctx, resource, action).action == action,
        access::access(ctx, resource, action).owner_tenant_id == ctx.subject_tenant_id,
{
}

} // verus!
