//! What the tasks of one repository sync do: Discovery seeds one Indexing task
//! per enabled family, each Indexing task seeds one Refinement task per entity
//! that has details to fetch, and every finished task counts what it wrote.

use crate::decimal;
use crate::error::{DomainError, ErrorView};
use crate::json;
use crate::ports::{
    ActionsListing, CommitDetail, CommitListing, FetchOptions, IssueDetail, IssueDetailWants,
    IssueListing, Listing, ListingCompleteness, MetadataListing, PullDetail, PullListing,
};
use crate::records::{
    CommitRecord, IssueRecord, PullRequestRecord, RepoRecord, WorkflowJobRecord, WorkflowRunRecord,
};
use crate::scheduler::task::{
    Entity, ExtractionTask, Family, NewTask, RunIdentity, TaskKind, TaskPhase, TaskPriority,
};
use crate::scope::{CollectionMode, CollectionScope, ObjectScope};
use crate::summary;
use crate::summary::{count, RowCounts, SyncSummary};
use crate::text::{joined, same};
use vstd::prelude::*;
use vstd::string::*;

verus! {

// ---------------------------------------------------------------------------
// Counts
// ---------------------------------------------------------------------------

pub open spec fn issue_listing_counts(listing: IssueListing) -> RowCounts {
    RowCounts {
        issues: listing.issues@.len() as u64,
        comments: listing.comments@.len() as u64,
        issue_events: listing.issue_events@.len() as u64,
        contributors: listing.contributors@.len() as u64,
        ..summary::no_rows()
    }
}

pub open spec fn issue_detail_counts(detail: IssueDetail) -> RowCounts {
    RowCounts {
        issue_reactions: detail.reactions@.len() as u64,
        issue_timeline: detail.timeline@.len() as u64,
        ..summary::no_rows()
    }
}

pub open spec fn pull_listing_counts(listing: PullListing) -> RowCounts {
    RowCounts {
        pull_requests: listing.pull_requests@.len() as u64,
        review_comments: listing.review_comments@.len() as u64,
        contributors: listing.contributors@.len() as u64,
        ..summary::no_rows()
    }
}

pub open spec fn pull_detail_counts(detail: PullDetail) -> RowCounts {
    RowCounts {
        reviews: detail.reviews@.len() as u64,
        pull_request_files: detail.files@.len() as u64,
        pull_request_commits: detail.commits@.len() as u64,
        review_threads: detail.review_threads@.len() as u64,
        contributors: detail.contributors@.len() as u64,
        ..summary::no_rows()
    }
}

pub open spec fn commit_listing_counts(listing: CommitListing) -> RowCounts {
    RowCounts {
        commits: listing.commits@.len() as u64,
        commit_comments: listing.commit_comments@.len() as u64,
        contributors: listing.contributors@.len() as u64,
        ..summary::no_rows()
    }
}

pub open spec fn commit_detail_counts(detail: CommitDetail) -> RowCounts {
    RowCounts {
        commit_files: detail.files@.len() as u64,
        commit_statuses: detail.statuses@.len() as u64,
        check_runs: detail.check_runs@.len() as u64,
        ..summary::no_rows()
    }
}

pub open spec fn metadata_listing_counts(listing: MetadataListing) -> RowCounts {
    RowCounts {
        labels: listing.labels@.len() as u64,
        milestones: listing.milestones@.len() as u64,
        releases: listing.releases@.len() as u64,
        branches: listing.branches@.len() as u64,
        tags: listing.tags@.len() as u64,
        ..summary::no_rows()
    }
}

pub open spec fn actions_listing_counts(listing: ActionsListing) -> RowCounts {
    RowCounts {
        workflow_runs: listing.workflow_runs@.len() as u64,
        deployments: listing.deployments@.len() as u64,
        ..summary::no_rows()
    }
}

pub open spec fn workflow_job_counts(jobs: Seq<WorkflowJobRecord>) -> RowCounts {
    RowCounts { workflow_jobs: jobs.len() as u64, ..summary::no_rows() }
}

/// Counts of a written listing of issues: how many rows each of its tables got.
pub fn counts_of_issue_listing(listing: &IssueListing) -> (out: RowCounts)
    ensures
        out == issue_listing_counts(*listing),
{
    RowCounts {
        issues: count(&listing.issues),
        comments: count(&listing.comments),
        issue_events: count(&listing.issue_events),
        contributors: count(&listing.contributors),
        ..RowCounts::none()
    }
}

/// Counts of the written details of an issue: how many rows each of its tables got.
pub fn counts_of_issue_detail(detail: &IssueDetail) -> (out: RowCounts)
    ensures
        out == issue_detail_counts(*detail),
{
    RowCounts {
        issue_reactions: count(&detail.reactions),
        issue_timeline: count(&detail.timeline),
        ..RowCounts::none()
    }
}

/// Counts of a written listing of pull requests: how many rows each of its tables got.
pub fn counts_of_pull_listing(listing: &PullListing) -> (out: RowCounts)
    ensures
        out == pull_listing_counts(*listing),
{
    RowCounts {
        pull_requests: count(&listing.pull_requests),
        review_comments: count(&listing.review_comments),
        contributors: count(&listing.contributors),
        ..RowCounts::none()
    }
}

/// Counts of the written details of a pull request: how many rows each of its tables got.
pub fn counts_of_pull_detail(detail: &PullDetail) -> (out: RowCounts)
    ensures
        out == pull_detail_counts(*detail),
{
    RowCounts {
        reviews: count(&detail.reviews),
        pull_request_files: count(&detail.files),
        pull_request_commits: count(&detail.commits),
        review_threads: count(&detail.review_threads),
        contributors: count(&detail.contributors),
        ..RowCounts::none()
    }
}

/// Counts of a written listing of commits: how many rows each of its tables got.
pub fn counts_of_commit_listing(listing: &CommitListing) -> (out: RowCounts)
    ensures
        out == commit_listing_counts(*listing),
{
    RowCounts {
        commits: count(&listing.commits),
        commit_comments: count(&listing.commit_comments),
        contributors: count(&listing.contributors),
        ..RowCounts::none()
    }
}

/// Counts of the written details of a commit: how many rows each of its tables got.
pub fn counts_of_commit_detail(detail: &CommitDetail) -> (out: RowCounts)
    ensures
        out == commit_detail_counts(*detail),
{
    RowCounts {
        commit_files: count(&detail.files),
        commit_statuses: count(&detail.statuses),
        check_runs: count(&detail.check_runs),
        ..RowCounts::none()
    }
}

/// Counts of a written listing of metadata: how many rows each of its tables got.
pub fn counts_of_metadata_listing(listing: &MetadataListing) -> (out: RowCounts)
    ensures
        out == metadata_listing_counts(*listing),
{
    RowCounts {
        labels: count(&listing.labels),
        milestones: count(&listing.milestones),
        releases: count(&listing.releases),
        branches: count(&listing.branches),
        tags: count(&listing.tags),
        ..RowCounts::none()
    }
}

/// Counts of a written listing of workflow runs and deployments: how many rows each of its tables got.
pub fn counts_of_actions_listing(listing: &ActionsListing) -> (out: RowCounts)
    ensures
        out == actions_listing_counts(*listing),
{
    RowCounts {
        workflow_runs: count(&listing.workflow_runs),
        deployments: count(&listing.deployments),
        ..RowCounts::none()
    }
}

/// Counts of the written jobs of a workflow run.
pub fn counts_of_workflow_jobs(jobs: &Vec<WorkflowJobRecord>) -> (out: RowCounts)
    ensures
        out == workflow_job_counts(jobs@),
{
    RowCounts { workflow_jobs: count(jobs), ..RowCounts::none() }
}

// ---------------------------------------------------------------------------
// Seeds
// ---------------------------------------------------------------------------

/// A family to be indexed when the scope enables it.
pub open spec fn family_seed(enabled: bool, family: Family, priority: TaskPriority) -> Seq<
    (Family, TaskPriority),
> {
    if enabled {
        seq![(family, priority)]
    } else {
        Seq::empty()
    }
}

/// The families that a scope enables, in the order they are seeded.
pub open spec fn enabled_families(objects: ObjectScope) -> Seq<(Family, TaskPriority)> {
    family_seed(objects.pull_requests, Family::PullRequests, TaskPriority::OpenPr) + family_seed(
        objects.issues,
        Family::Issues,
        TaskPriority::OpenIssue,
    ) + family_seed(objects.commits, Family::Commits, TaskPriority::OpenPr) + family_seed(
        objects.labels || objects.milestones || objects.releases || objects.branches,
        Family::Metadata,
        TaskPriority::Global,
    ) + family_seed(objects.github_actions, Family::Actions, TaskPriority::Global)
}

/// The Indexing task of a family.
pub open spec fn index_task(run: RunIdentity, seed: (Family, TaskPriority)) -> NewTask {
    NewTask {
        run,
        kind: TaskKind::Index(seed.0),
        entity_id: None,
        priority: seed.1,
        attempt: 0,
    }
}

/// A Refinement task of the run for one entity.
pub open spec fn is_refine_task(
    task: NewTask,
    run: RunIdentity,
    entity: Entity,
    id: Seq<char>,
    priority: TaskPriority,
) -> bool {
    &&& task.run == run
    &&& task.kind == TaskKind::Refine(entity)
    &&& json::text_of(task.entity_id) == Some(id)
    &&& task.priority == priority
    &&& task.attempt == 0
}

fn refine_task(run: RunIdentity, entity: Entity, id: String, priority: TaskPriority) -> (out: NewTask)
    ensures
        is_refine_task(out, run, entity, id@, priority),
{
    NewTask { run, kind: TaskKind::Refine(entity), entity_id: Some(id), priority, attempt: 0 }
}

pub open spec fn is_open(state: Seq<char>) -> bool {
    state == "open"@
}

/// An issue has details to fetch.
pub open spec fn issue_is_refined(collection: CollectionScope, issue: IssueRecord) -> bool {
    let open = is_open(issue.state@);
    collection.reactions.covers(open) || collection.timeline.covers(open)
}

/// The issues that have details to fetch, in order.
pub open spec fn refined_issues(collection: CollectionScope, issues: Seq<IssueRecord>) -> Seq<
    IssueRecord,
>
    decreases issues.len(),
{
    if issues.len() == 0 {
        Seq::empty()
    } else if issue_is_refined(collection, issues.last()) {
        refined_issues(collection, issues.drop_last()).push(issues.last())
    } else {
        refined_issues(collection, issues.drop_last())
    }
}

pub open spec fn is_issue_task(task: NewTask, run: RunIdentity, issue: IssueRecord) -> bool {
    is_refine_task(
        task,
        run,
        Entity::Issue,
        decimal::integer_text(issue.number as int),
        if is_open(issue.state@) {
            TaskPriority::OpenIssue
        } else {
            TaskPriority::ClosedIssue
        },
    )
}

pub open spec fn is_pull_task(task: NewTask, run: RunIdentity, pull: PullRequestRecord) -> bool {
    is_refine_task(
        task,
        run,
        Entity::PullRequest,
        decimal::integer_text(pull.number as int),
        if is_open(pull.state@) {
            TaskPriority::OpenPr
        } else {
            TaskPriority::ClosedPr
        },
    )
}

pub open spec fn is_commit_task(task: NewTask, run: RunIdentity, commit: CommitRecord) -> bool {
    is_refine_task(task, run, Entity::Commit, commit.sha@, TaskPriority::Normal)
}

pub open spec fn is_run_task(task: NewTask, run: RunIdentity, workflow_run: WorkflowRunRecord) -> bool {
    is_refine_task(
        task,
        run,
        Entity::WorkflowRun,
        decimal::integer_text(workflow_run.id as int),
        TaskPriority::Normal,
    )
}

/// The tasks are those of the issues that have details to fetch, in order.
pub open spec fn are_issue_tasks(
    tasks: Seq<NewTask>,
    run: RunIdentity,
    collection: CollectionScope,
    issues: Seq<IssueRecord>,
) -> bool {
    let kept = refined_issues(collection, issues);
    &&& tasks.len() == kept.len()
    &&& forall|i: int| 0 <= i < kept.len() ==> is_issue_task(tasks[i], run, #[trigger] kept[i])
}

// ---------------------------------------------------------------------------
// Run
// ---------------------------------------------------------------------------

/// What the tasks of one run share. Discovery learns the repository's id;
/// completeness and counts accumulate as tasks finish.
#[derive(Debug)]
pub struct RunState {
    pub run: RunIdentity,
    pub owner: String,
    pub name: String,
    pub options: FetchOptions,
    pub repo_id: Option<i64>,
    pub complete: ListingCompleteness,
    pub summary: SyncSummary,
}

pub open spec fn not_discovered() -> ErrorView {
    ErrorView::Internal("repository was not discovered before indexing"@)
}

impl RunState {
    /// A run that has done nothing yet.
    pub fn new(run: RunIdentity, owner: &str, name: &str, options: FetchOptions) -> (out: Self)
        ensures
            out.run == run,
            out.owner@ == owner@,
            out.name@ == name@,
            out.options == options,
            out.repo_id is None,
            out.complete@ == Set::<Listing>::empty(),
            out.summary.repository@ == owner@ + "/"@ + name@,
            out.summary.is_blank(),
    {
        RunState {
            run,
            owner: owner.to_owned(),
            name: name.to_owned(),
            options,
            repo_id: None,
            complete: ListingCompleteness::none(),
            summary: SyncSummary::new(joined(joined(owner, "/").as_str(), name)),
        }
    }

    /// The repository's id. Asking before Discovery is a scheduling fault,
    /// since every other task is seeded by it.
    pub fn repo_id(&self) -> (out: Result<i64, DomainError>)
        ensures
            match out {
                Ok(id) => self.repo_id == Some(id),
                Err(error) => self.repo_id is None && error@ == not_discovered(),
            },
    {
        match self.repo_id {
            Some(id) => Ok(id),
            None => Err(DomainError::internal("repository was not discovered before indexing")),
        }
    }

    /// Which listings this run walked to their end.
    pub fn completeness(&self) -> (out: ListingCompleteness)
        ensures
            out == self.complete,
    {
        self.complete
    }

    /// Row counts so far.
    pub fn summary(&self) -> (out: SyncSummary)
        ensures
            out == self.summary,
    {
        self.summary.copied()
    }

    fn mark_complete(&mut self, complete: &ListingCompleteness)
        ensures
            final(self).complete@ == old(self).complete@.union(complete@),
            *final(self) == (RunState { complete: final(self).complete, ..*old(self) }),
    {
        self.complete.absorb(complete);
    }

    /// Whether further rows can be counted.
    pub fn has_room(&self, more: &RowCounts) -> (out: bool)
        ensures
            out == summary::room_for(self.summary, *more),
    {
        self.summary.has_room(more)
    }

    /// Counts further rows.
    fn tally(&mut self, more: RowCounts)
        requires
            summary::room_for(old(self).summary, more),
        ensures
            *final(self) == (RunState {
                summary: summary::tallied(old(self).summary, more),
                ..*old(self)
            }),
    {
        self.summary.tally(more);
    }

    /// A listing of issues was written: its rows count from now on.
    pub fn wrote_issue_listing(&mut self, listing: &IssueListing)
        requires
            summary::room_for(old(self).summary, issue_listing_counts(*listing)),
        ensures
            *final(self) == (RunState {
                summary: summary::tallied(old(self).summary, issue_listing_counts(*listing)),
                ..*old(self)
            }),
    {
        self.tally(counts_of_issue_listing(listing));
    }

    /// The details of an issue were written: their rows count from now on.
    pub fn wrote_issue_detail(&mut self, detail: &IssueDetail)
        requires
            summary::room_for(old(self).summary, issue_detail_counts(*detail)),
        ensures
            *final(self) == (RunState {
                summary: summary::tallied(old(self).summary, issue_detail_counts(*detail)),
                ..*old(self)
            }),
    {
        self.tally(counts_of_issue_detail(detail));
    }

    /// A listing of pull requests was written: its rows count from now on.
    pub fn wrote_pull_listing(&mut self, listing: &PullListing)
        requires
            summary::room_for(old(self).summary, pull_listing_counts(*listing)),
        ensures
            *final(self) == (RunState {
                summary: summary::tallied(old(self).summary, pull_listing_counts(*listing)),
                ..*old(self)
            }),
    {
        self.tally(counts_of_pull_listing(listing));
    }

    /// The details of a pull request were written: their rows count from now on.
    pub fn wrote_pull_detail(&mut self, detail: &PullDetail)
        requires
            summary::room_for(old(self).summary, pull_detail_counts(*detail)),
        ensures
            *final(self) == (RunState {
                summary: summary::tallied(old(self).summary, pull_detail_counts(*detail)),
                ..*old(self)
            }),
    {
        self.tally(counts_of_pull_detail(detail));
    }

    /// A listing of commits was written: its rows count from now on.
    pub fn wrote_commit_listing(&mut self, listing: &CommitListing)
        requires
            summary::room_for(old(self).summary, commit_listing_counts(*listing)),
        ensures
            *final(self) == (RunState {
                summary: summary::tallied(old(self).summary, commit_listing_counts(*listing)),
                ..*old(self)
            }),
    {
        self.tally(counts_of_commit_listing(listing));
    }

    /// The details of a commit were written: their rows count from now on.
    pub fn wrote_commit_detail(&mut self, detail: &CommitDetail)
        requires
            summary::room_for(old(self).summary, commit_detail_counts(*detail)),
        ensures
            *final(self) == (RunState {
                summary: summary::tallied(old(self).summary, commit_detail_counts(*detail)),
                ..*old(self)
            }),
    {
        self.tally(counts_of_commit_detail(detail));
    }

    /// A listing of metadata was written: its rows count from now on.
    pub fn wrote_metadata_listing(&mut self, listing: &MetadataListing)
        requires
            summary::room_for(old(self).summary, metadata_listing_counts(*listing)),
        ensures
            *final(self) == (RunState {
                summary: summary::tallied(old(self).summary, metadata_listing_counts(*listing)),
                ..*old(self)
            }),
    {
        self.tally(counts_of_metadata_listing(listing));
    }

    /// A listing of workflow runs and deployments was written: its rows count from now on.
    pub fn wrote_actions_listing(&mut self, listing: &ActionsListing)
        requires
            summary::room_for(old(self).summary, actions_listing_counts(*listing)),
        ensures
            *final(self) == (RunState {
                summary: summary::tallied(old(self).summary, actions_listing_counts(*listing)),
                ..*old(self)
            }),
    {
        self.tally(counts_of_actions_listing(listing));
    }

    /// The jobs of a workflow run were written: their rows count from now on.
    pub fn wrote_workflow_jobs(&mut self, jobs: &Vec<WorkflowJobRecord>)
        requires
            summary::room_for(old(self).summary, workflow_job_counts(jobs@)),
        ensures
            *final(self) == (RunState {
                summary: summary::tallied(old(self).summary, workflow_job_counts(jobs@)),
                ..*old(self)
            }),
    {
        self.tally(counts_of_workflow_jobs(jobs));
    }

    /// The repository was fetched and stored: the tasks to seed.
    pub fn discover(&mut self, stored: &RepoRecord) -> (out: Result<Vec<NewTask>, DomainError>)
        ensures
            match out {
                Ok(tasks) => {
                    &&& old(self).repo_id is None
                    &&& final(self).repo_id == Some(stored.id)
                    &&& final(self).summary == (SyncSummary {
                        repository: stored.full_name,
                        ..old(self).summary
                    })
                    &&& *final(self) == (RunState {
                        repo_id: final(self).repo_id,
                        summary: final(self).summary,
                        ..*old(self)
                    })
                    &&& tasks@ == enabled_families(old(self).options.scope.objects).map_values(
                        |seed: (Family, TaskPriority)| index_task(old(self).run, seed),
                    )
                },
                Err(error) => {
                    &&& old(self).repo_id is Some
                    &&& *final(self) == *old(self)
                    &&& error@ == ErrorView::Internal(
                        "the repository was discovered twice in one sync"@,
                    )
                },
            },
    {
        if self.repo_id.is_some() {
            return Err(DomainError::internal("the repository was discovered twice in one sync"));
        }
        self.repo_id = Some(stored.id);
        self.summary.repository = stored.full_name.clone();
        let objects = self.options.scope.objects;
        let run = self.run;
        let mut tasks: Vec<NewTask> = Vec::new();
        if objects.pull_requests {
            tasks.push(index_of(run, Family::PullRequests, TaskPriority::OpenPr));
        }
        if objects.issues {
            tasks.push(index_of(run, Family::Issues, TaskPriority::OpenIssue));
        }
        if objects.commits {
            tasks.push(index_of(run, Family::Commits, TaskPriority::OpenPr));
        }
        if objects.labels || objects.milestones || objects.releases || objects.branches {
            tasks.push(index_of(run, Family::Metadata, TaskPriority::Global));
        }
        if objects.github_actions {
            tasks.push(index_of(run, Family::Actions, TaskPriority::Global));
        }
        assert(tasks@ =~= enabled_families(objects).map_values(
            |seed: (Family, TaskPriority)| index_task(run, seed),
        ));
        Ok(tasks)
    }

    /// The issues were listed: the tasks to seed.
    pub fn index_issues(&mut self, listing: &IssueListing) -> (out: Result<
        Vec<NewTask>,
        DomainError,
    >)
        ensures
            match out {
                Ok(tasks) => {
                    &&& old(self).repo_id is Some
                    &&& final(self).complete@ == old(self).complete@.union(listing.complete@)
                    &&& *final(self) == (RunState { complete: final(self).complete, ..*old(self) })
                    &&& are_issue_tasks(
                        tasks@,
                        old(self).run,
                        old(self).options.scope.collection,
                        listing.issues@,
                    )
                },
                Err(error) => {
                    &&& old(self).repo_id is None
                    &&& *final(self) == *old(self)
                    &&& error@ == not_discovered()
                },
            },
    {
        match self.repo_id() {
            Ok(_) => {},
            Err(error) => return Err(error),
        }
        self.mark_complete(&listing.complete);
        let collection = self.options.scope.collection;
        let run = self.run;
        let mut tasks: Vec<NewTask> = Vec::new();
        let mut i: usize = 0;
        while i < listing.issues.len()
            invariant
                i <= listing.issues@.len(),
                are_issue_tasks(tasks@, run, collection, listing.issues@.take(i as int)),
            decreases listing.issues@.len() - i,
        {
            let ghost before = refined_issues(collection, listing.issues@.take(i as int));
            assert(listing.issues@.take(i + 1).drop_last() =~= listing.issues@.take(i as int));
            assert(listing.issues@.take(i + 1).last() == listing.issues@[i as int]);
            let issue = &listing.issues[i];
            let open = same(issue.state.as_str(), "open");
            if collection.reactions.includes(open) || collection.timeline.includes(open) {
                let priority = if open {
                    TaskPriority::OpenIssue
                } else {
                    TaskPriority::ClosedIssue
                };
                tasks.push(
                    refine_task(run, Entity::Issue, decimal::i64_text(issue.number), priority),
                );
                assert(refined_issues(collection, listing.issues@.take(i + 1)) == before.push(
                    listing.issues@[i as int],
                ));
            } else {
                assert(refined_issues(collection, listing.issues@.take(i + 1)) == before);
            }
            i = i + 1;
        }
        assert(listing.issues@.take(i as int) =~= listing.issues@);
        Ok(tasks)
    }

    /// The pull requests were listed: the tasks to seed, one each.
    pub fn index_pull_requests(&mut self, listing: &PullListing) -> (out: Result<
        Vec<NewTask>,
        DomainError,
    >)
        ensures
            match out {
                Ok(tasks) => {
                    &&& old(self).repo_id is Some
                    &&& final(self).complete@ == old(self).complete@.union(listing.complete@)
                    &&& *final(self) == (RunState { complete: final(self).complete, ..*old(self) })
                    &&& tasks@.len() == listing.pull_requests@.len()
                    &&& forall|i: int|
                        0 <= i < tasks@.len() ==> is_pull_task(
                            #[trigger] tasks@[i],
                            old(self).run,
                            listing.pull_requests@[i],
                        )
                },
                Err(error) => {
                    &&& old(self).repo_id is None
                    &&& *final(self) == *old(self)
                    &&& error@ == not_discovered()
                },
            },
    {
        match self.repo_id() {
            Ok(_) => {},
            Err(error) => return Err(error),
        }
        self.mark_complete(&listing.complete);
        let run = self.run;
        let mut tasks: Vec<NewTask> = Vec::new();
        let mut i: usize = 0;
        while i < listing.pull_requests.len()
            invariant
                i <= listing.pull_requests@.len(),
                tasks@.len() == i,
                forall|k: int|
                    0 <= k < i ==> is_pull_task(
                        #[trigger] tasks@[k],
                        run,
                        listing.pull_requests@[k],
                    ),
            decreases listing.pull_requests@.len() - i,
        {
            let pull = &listing.pull_requests[i];
            let priority = if same(pull.state.as_str(), "open") {
                TaskPriority::OpenPr
            } else {
                TaskPriority::ClosedPr
            };
            tasks.push(
                refine_task(run, Entity::PullRequest, decimal::i64_text(pull.number), priority),
            );
            i = i + 1;
        }
        Ok(tasks)
    }

    /// The commits were listed: the tasks to seed, one each.
    pub fn index_commits(&mut self, listing: &CommitListing) -> (out: Result<
        Vec<NewTask>,
        DomainError,
    >)
        ensures
            match out {
                Ok(tasks) => {
                    &&& old(self).repo_id is Some
                    &&& final(self).complete@ == old(self).complete@.union(listing.complete@)
                    &&& *final(self) == (RunState { complete: final(self).complete, ..*old(self) })
                    &&& tasks@.len() == listing.commits@.len()
                    &&& forall|i: int|
                        0 <= i < tasks@.len() ==> is_commit_task(
                            #[trigger] tasks@[i],
                            old(self).run,
                            listing.commits@[i],
                        )
                },
                Err(error) => {
                    &&& old(self).repo_id is None
                    &&& *final(self) == *old(self)
                    &&& error@ == not_discovered()
                },
            },
    {
        match self.repo_id() {
            Ok(_) => {},
            Err(error) => return Err(error),
        }
        self.mark_complete(&listing.complete);
        let run = self.run;
        let mut tasks: Vec<NewTask> = Vec::new();
        let mut i: usize = 0;
        while i < listing.commits.len()
            invariant
                i <= listing.commits@.len(),
                tasks@.len() == i,
                forall|k: int|
                    0 <= k < i ==> is_commit_task(#[trigger] tasks@[k], run, listing.commits@[k]),
            decreases listing.commits@.len() - i,
        {
            let sha = listing.commits[i].sha.clone();
            tasks.push(refine_task(run, Entity::Commit, sha, TaskPriority::Normal));
            i = i + 1;
        }
        Ok(tasks)
    }

    /// The metadata was listed. It has no details to fetch.
    pub fn index_metadata(&mut self, listing: &MetadataListing) -> (out: Result<(), DomainError>)
        ensures
            match out {
                Ok(_) => {
                    &&& old(self).repo_id is Some
                    &&& final(self).complete@ == old(self).complete@.union(listing.complete@)
                    &&& *final(self) == (RunState { complete: final(self).complete, ..*old(self) })
                },
                Err(error) => {
                    &&& old(self).repo_id is None
                    &&& *final(self) == *old(self)
                    &&& error@ == not_discovered()
                },
            },
    {
        match self.repo_id() {
            Ok(_) => {},
            Err(error) => return Err(error),
        }
        self.mark_complete(&listing.complete);
        Ok(())
    }

    /// The workflow runs were listed: the tasks to seed, one each, unless CI
    /// results are not collected.
    pub fn index_actions(&self, listing: &ActionsListing) -> (out: Result<
        Vec<NewTask>,
        DomainError,
    >)
        ensures
            match out {
                Ok(tasks) => {
                    &&& self.repo_id is Some
                    &&& tasks@.len() == if self.options.scope.collection.actions
                        == CollectionMode::Off {
                        0
                    } else {
                        listing.workflow_runs@.len()
                    }
                    &&& forall|i: int|
                        0 <= i < tasks@.len() ==> is_run_task(
                            #[trigger] tasks@[i],
                            self.run,
                            listing.workflow_runs@[i],
                        )
                },
                Err(error) => self.repo_id is None && error@ == not_discovered(),
            },
    {
        match self.repo_id() {
            Ok(_) => {},
            Err(error) => return Err(error),
        }
        let mut tasks: Vec<NewTask> = Vec::new();
        if self.options.scope.collection.actions == CollectionMode::Off {
            return Ok(tasks);
        }
        let mut i: usize = 0;
        while i < listing.workflow_runs.len()
            invariant
                i <= listing.workflow_runs@.len(),
                tasks@.len() == i,
                forall|k: int|
                    0 <= k < i ==> is_run_task(
                        #[trigger] tasks@[k],
                        self.run,
                        listing.workflow_runs@[k],
                    ),
            decreases listing.workflow_runs@.len() - i,
        {
            let id = decimal::i64_text(listing.workflow_runs[i].id);
            tasks.push(refine_task(self.run, Entity::WorkflowRun, id, TaskPriority::Normal));
            i = i + 1;
        }
        Ok(tasks)
    }

    /// What to fetch for an issue: repository, number, and sub-resources.
    pub fn refine_issue(&self, task: &ExtractionTask) -> (out: Result<
        (i64, i64, IssueDetailWants),
        DomainError,
    >)
        ensures
            match out {
                Ok((repo_id, number, wants)) => {
                    &&& self.repo_id == Some(repo_id)
                    &&& numeric_id(*task) == Some(number as int)
                    &&& wants == wants_of(self.options.scope.collection, task.priority)
                },
                Err(error) => error@ == refine_fault(self.repo_id, *task),
            },
            out is Ok <==> self.repo_id is Some && numeric_id(*task) is Some,
    {
        let repo_id: i64 = match self.repo_id() {
            Ok(id) => id,
            Err(error) => return Err(error),
        };
        let number: i64 = match entity_number(task) {
            Ok(number) => number,
            Err(error) => return Err(error),
        };
        let open = task.priority.is_open_tier();
        let collection = self.options.scope.collection;
        let wants = IssueDetailWants {
            reactions: collection.reactions.includes(open),
            timeline: collection.timeline.includes(open),
        };
        Ok((repo_id, number, wants))
    }

    /// What to fetch for a pull request or a workflow run: repository, and
    /// number or id.
    pub fn refine_numbered(&self, task: &ExtractionTask) -> (out: Result<(i64, i64), DomainError>)
        ensures
            match out {
                Ok((repo_id, number)) => self.repo_id == Some(repo_id) && numeric_id(*task) == Some(
                    number as int,
                ),
                Err(error) => error@ == refine_fault(self.repo_id, *task),
            },
            out is Ok <==> self.repo_id is Some && numeric_id(*task) is Some,
    {
        match self.repo_id() {
            Ok(repo_id) => match entity_number(task) {
                Ok(number) => Ok((repo_id, number)),
                Err(error) => Err(error),
            },
            Err(error) => Err(error),
        }
    }

    /// What to fetch for a commit: repository, SHA, and whether CI results are
    /// wanted.
    pub fn refine_commit<'a>(&self, task: &'a ExtractionTask) -> (out: Result<
        (i64, &'a str, bool),
        DomainError,
    >)
        ensures
            match out {
                Ok((repo_id, sha, with_ci)) => {
                    &&& self.repo_id == Some(repo_id)
                    &&& json::text_of(task.entity_id) == Some(sha@)
                    &&& with_ci == (self.options.scope.collection.actions != CollectionMode::Off)
                },
                Err(error) => error@ == if self.repo_id is None {
                    not_discovered()
                } else {
                    ErrorView::Internal("commit task without a SHA"@)
                },
            },
            out is Ok <==> self.repo_id is Some && task.entity_id is Some,
    {
        let repo_id: i64 = match self.repo_id() {
            Ok(id) => id,
            Err(error) => return Err(error),
        };
        let sha = match &task.entity_id {
            Some(sha) => sha.as_str(),
            None => return Err(DomainError::internal("commit task without a SHA")),
        };
        let with_ci = self.options.scope.collection.actions != CollectionMode::Off;
        Ok((repo_id, sha, with_ci))
    }
}

fn index_of(run: RunIdentity, family: Family, priority: TaskPriority) -> (out: NewTask)
    ensures
        out == index_task(run, (family, priority)),
{
    NewTask { run, kind: TaskKind::Index(family), entity_id: None, priority, attempt: 0 }
}

pub open spec fn wants_of(collection: CollectionScope, priority: TaskPriority) -> IssueDetailWants {
    let open = priority is OpenPr || priority is OpenIssue;
    IssueDetailWants {
        reactions: collection.reactions.covers(open),
        timeline: collection.timeline.covers(open),
    }
}

/// The number in a task's entity id, if it is one.
pub open spec fn numeric_id(task: ExtractionTask) -> Option<int> {
    match task.entity_id {
        Some(id) => decimal::signed_value(id@),
        None => None,
    }
}

/// The diagnostic text of an optional text.
pub uninterp spec fn debug_text(text: Option<Seq<char>>) -> Seq<char>;

/// The `Debug` text that `std` gives an optional string: its variant, and the
/// text quoted and escaped.
#[verifier::external_body]
fn debug_id(id: &Option<String>) -> (out: String)
    ensures
        out@ == debug_text(json::text_of(*id)),
{
    format!("{id:?}")
}

pub open spec fn not_numeric(kind: TaskKind, shown: Seq<char>) -> ErrorView {
    ErrorView::Internal(
        kind.spec_entity_type() + " task without a numeric entity id: "@ + shown,
    )
}

/// The error of a task whose entity id, as shown, is not a number.
pub fn not_a_number(kind: TaskKind, shown: &str) -> (out: DomainError)
    ensures
        out@ == not_numeric(kind, shown@),
{
    let opening = joined(kind.entity_type(), " task without a numeric entity id: ");
    DomainError::Internal(joined(opening.as_str(), shown))
}

/// Why a number-keyed task cannot be refined.
pub open spec fn refine_fault(repo_id: Option<i64>, task: ExtractionTask) -> ErrorView {
    if repo_id is None {
        not_discovered()
    } else {
        not_numeric(task.kind, debug_text(json::text_of(task.entity_id)))
    }
}

/// A number-keyed task's entity id.
pub fn entity_number(task: &ExtractionTask) -> (out: Result<i64, DomainError>)
    ensures
        match out {
            Ok(number) => numeric_id(*task) == Some(number as int),
            Err(error) => numeric_id(*task) is None && error@ == not_numeric(
                task.kind,
                debug_text(json::text_of(task.entity_id)),
            ),
        },
{
    match &task.entity_id {
        Some(id) => match decimal::parse_i64(id.as_str()) {
            Some(number) => return Ok(number),
            None => {},
        },
        None => {},
    }
    Err(not_a_number(task.kind, debug_id(&task.entity_id).as_str()))
}

// ---------------------------------------------------------------------------
// Dispatch
// ---------------------------------------------------------------------------

/// The family with that name.
pub open spec fn family_named(name: Seq<char>) -> Option<Family> {
    if name == "issues"@ {
        Some(Family::Issues)
    } else if name == "pull_requests"@ {
        Some(Family::PullRequests)
    } else if name == "commits"@ {
        Some(Family::Commits)
    } else if name == "metadata"@ {
        Some(Family::Metadata)
    } else if name == "actions"@ {
        Some(Family::Actions)
    } else {
        None
    }
}

fn family_by_name(name: &str) -> (out: Option<Family>)
    ensures
        out == family_named(name@),
{
    if same(name, "issues") {
        Some(Family::Issues)
    } else if same(name, "pull_requests") {
        Some(Family::PullRequests)
    } else if same(name, "commits") {
        Some(Family::Commits)
    } else if same(name, "metadata") {
        Some(Family::Metadata)
    } else if same(name, "actions") {
        Some(Family::Actions)
    } else {
        None
    }
}

/// The entity type with that name.
pub open spec fn entity_named(name: Seq<char>) -> Option<Entity> {
    if name == "issue"@ {
        Some(Entity::Issue)
    } else if name == "pull_request"@ {
        Some(Entity::PullRequest)
    } else if name == "commit"@ {
        Some(Entity::Commit)
    } else if name == "workflow_run"@ {
        Some(Entity::WorkflowRun)
    } else {
        None
    }
}

fn entity_by_name(name: &str) -> (out: Option<Entity>)
    ensures
        out == entity_named(name@),
{
    if same(name, "issue") {
        Some(Entity::Issue)
    } else if same(name, "pull_request") {
        Some(Entity::PullRequest)
    } else if same(name, "commit") {
        Some(Entity::Commit)
    } else if same(name, "workflow_run") {
        Some(Entity::WorkflowRun)
    } else {
        None
    }
}

/// A worker takes tasks of the phase and entity type.
pub open spec fn handled(phase: TaskPhase, entity_type: Seq<char>) -> bool {
    match phase {
        TaskPhase::Discovery => entity_type == "repository"@,
        TaskPhase::Indexing => family_named(entity_type) is Some,
        TaskPhase::Refinement => entity_named(entity_type) is Some,
        TaskPhase::ChangeDetection => false,
        TaskPhase::Verification => false,
    }
}

/// Whether there is something to do for tasks of the phase and entity type.
pub fn handles(phase: TaskPhase, entity_type: &str) -> (out: bool)
    ensures
        out == handled(phase, entity_type@),
{
    match phase {
        TaskPhase::Discovery => same(entity_type, "repository"),
        TaskPhase::Indexing => family_by_name(entity_type).is_some(),
        TaskPhase::Refinement => entity_by_name(entity_type).is_some(),
        TaskPhase::ChangeDetection => false,
        TaskPhase::Verification => false,
    }
}

/// What a task of the phase and entity type does; Discovery is about the
/// repository whatever it is called.
pub open spec fn dispatched(phase: TaskPhase, entity_type: Seq<char>) -> Option<TaskKind> {
    match phase {
        TaskPhase::Discovery => Some(TaskKind::Discover),
        TaskPhase::Indexing => match family_named(entity_type) {
            Some(family) => Some(TaskKind::Index(family)),
            None => None,
        },
        TaskPhase::Refinement => match entity_named(entity_type) {
            Some(entity) => Some(TaskKind::Refine(entity)),
            None => None,
        },
        TaskPhase::ChangeDetection => None,
        TaskPhase::Verification => None,
    }
}

/// What a task of the phase and entity type does.
pub fn dispatch(phase: TaskPhase, entity_type: &str) -> (out: Result<TaskKind, DomainError>)
    ensures
        match out {
            Ok(kind) => dispatched(phase, entity_type@) == Some(kind),
            Err(error) => dispatched(phase, entity_type@) is None && error@ == ErrorView::Internal(
                "no handler for "@ + phase.spec_name() + " task of type "@ + entity_type@,
            ),
        },
{
    match phase {
        TaskPhase::Discovery => {
            return Ok(TaskKind::Discover);
        },
        TaskPhase::Indexing => match family_by_name(entity_type) {
            Some(family) => return Ok(TaskKind::Index(family)),
            None => {},
        },
        TaskPhase::Refinement => match entity_by_name(entity_type) {
            Some(entity) => return Ok(TaskKind::Refine(entity)),
            None => {},
        },
        TaskPhase::ChangeDetection => {},
        TaskPhase::Verification => {},
    }
    let opening = joined(joined("no handler for ", phase.name()).as_str(), " task of type ");
    Err(DomainError::Internal(joined(opening.as_str(), entity_type)))
}

// ---------------------------------------------------------------------------
// Laws
// ---------------------------------------------------------------------------

proof fn lemma_family_names(family: Family)
    ensures
        family_named(family.spec_name()) == Some(family),
{
    reveal_strlit("issues");
    reveal_strlit("pull_requests");
    reveal_strlit("commits");
    reveal_strlit("metadata");
    reveal_strlit("actions");
    assert("issues"@.len() == 6);
    assert("pull_requests"@.len() == 13);
    assert("commits"@.len() == 7);
    assert("metadata"@.len() == 8);
    assert("actions"@.len() == 7);
    assert("commits"@[0] != "actions"@[0]);
}

proof fn lemma_entity_names(entity: Entity)
    ensures
        entity_named(entity.spec_name()) == Some(entity),
{
    reveal_strlit("issue");
    reveal_strlit("pull_request");
    reveal_strlit("commit");
    reveal_strlit("workflow_run");
    assert("issue"@.len() == 5);
    assert("pull_request"@.len() == 12);
    assert("commit"@.len() == 6);
    assert("workflow_run"@.len() == 12);
    assert("pull_request"@[0] != "workflow_run"@[0]);
}

/// A scope switches a family on.
pub open spec fn enables(objects: ObjectScope, family: Family) -> bool {
    match family {
        Family::PullRequests => objects.pull_requests,
        Family::Issues => objects.issues,
        Family::Commits => objects.commits,
        Family::Metadata => objects.labels || objects.milestones || objects.releases
            || objects.branches,
        Family::Actions => objects.github_actions,
    }
}

/// The family is among the seeds.
pub open spec fn is_seeded(seeds: Seq<(Family, TaskPriority)>, family: Family) -> bool {
    exists|i: int| 0 <= i < seeds.len() && (#[trigger] seeds[i]).0 == family
}

/// What the scope switches off is not seeded, and what it switches on is.
pub proof fn families_are_seeded_as_the_scope_says(objects: ObjectScope, family: Family)
    ensures
        is_seeded(enabled_families(objects), family) <==> enables(objects, family),
{
    let seeds = enabled_families(objects);
    let pulls = family_seed(objects.pull_requests, Family::PullRequests, TaskPriority::OpenPr);
    let issues = family_seed(objects.issues, Family::Issues, TaskPriority::OpenIssue);
    let commits = family_seed(objects.commits, Family::Commits, TaskPriority::OpenPr);
    let metadata = family_seed(
        objects.labels || objects.milestones || objects.releases || objects.branches,
        Family::Metadata,
        TaskPriority::Global,
    );
    let place: int = match family {
        Family::PullRequests => 0,
        Family::Issues => pulls.len() as int,
        Family::Commits => pulls.len() as int + issues.len(),
        Family::Metadata => pulls.len() as int + issues.len() + commits.len(),
        Family::Actions => pulls.len() as int + issues.len() + commits.len() + metadata.len(),
    };
    if enables(objects, family) {
        assert(seeds[place].0 == family);
    }
}

/// Every kind of task but verification is handled, and dispatched to what it
/// is.
pub proof fn every_seeded_kind_is_dispatched(kind: TaskKind)
    requires
        !(kind is Verify),
    ensures
        handled(kind.spec_phase(), kind.spec_entity_type()),
        dispatched(kind.spec_phase(), kind.spec_entity_type()) == Some(kind),
{
    match kind {
        TaskKind::Index(family) => {
            lemma_family_names(family);
        },
        TaskKind::Refine(entity) => {
            lemma_entity_names(entity);
        },
        _ => {},
    }
}

/// What is handled is dispatched.
pub proof fn what_is_handled_is_dispatched(phase: TaskPhase, entity_type: Seq<char>)
    requires
        handled(phase, entity_type),
    ensures
        dispatched(phase, entity_type) is Some,
{
}

/// The number of a seeded issue is read back from its task.
pub proof fn seeded_issue_number_reads_back(
    task: NewTask,
    run: RunIdentity,
    issue: IssueRecord,
    queued: ExtractionTask,
)
    requires
        is_issue_task(task, run, issue),
        queued.entity_id == task.entity_id,
    ensures
        numeric_id(queued) == Some(issue.number as int),
{
    decimal::integer_text_reads_back(issue.number as int);
}

/// The number of a seeded pull request is read back from its task.
pub proof fn seeded_pull_number_reads_back(
    task: NewTask,
    run: RunIdentity,
    pull: PullRequestRecord,
    queued: ExtractionTask,
)
    requires
        is_pull_task(task, run, pull),
        queued.entity_id == task.entity_id,
    ensures
        numeric_id(queued) == Some(pull.number as int),
{
    decimal::integer_text_reads_back(pull.number as int);
}

/// The id of a seeded workflow run is read back from its task.
pub proof fn seeded_run_id_reads_back(
    task: NewTask,
    run: RunIdentity,
    workflow_run: WorkflowRunRecord,
    queued: ExtractionTask,
)
    requires
        is_run_task(task, run, workflow_run),
        queued.entity_id == task.entity_id,
    ensures
        numeric_id(queued) == Some(workflow_run.id as int),
{
    decimal::integer_text_reads_back(workflow_run.id as int);
}

/// A seeded issue is refined for what its state calls for, and that is never
/// nothing.
pub proof fn seeded_issue_has_something_to_fetch(
    task: NewTask,
    run: RunIdentity,
    collection: CollectionScope,
    issue: IssueRecord,
)
    requires
        issue_is_refined(collection, issue),
        is_issue_task(task, run, issue),
    ensures
        ({
            let wants = wants_of(collection, task.priority);
            &&& wants.reactions || wants.timeline
            &&& wants.reactions == collection.reactions.covers(is_open(issue.state@))
            &&& wants.timeline == collection.timeline.covers(is_open(issue.state@))
        }),
{
}

} // verus!
