//! What a sync wrote, in rows.

use vstd::prelude::*;

verus! {

/// Rows written per table by one sync of a repository.
#[derive(Debug)]
pub struct SyncSummary {
    pub repository: String,
    pub issues_synced: u64,
    pub pull_requests_synced: u64,
    pub commits_synced: u64,
    pub comments_synced: u64,
    pub review_comments_synced: u64,
    pub reviews_synced: u64,
    pub labels_synced: u64,
    pub milestones_synced: u64,
    pub releases_synced: u64,
    pub branches_synced: u64,
    pub contributors_synced: u64,
    pub workflow_runs_synced: u64,
    pub pull_request_files_synced: u64,
    pub tags_synced: u64,
    pub commit_files_synced: u64,
    pub review_threads_synced: u64,
    pub commit_comments_synced: u64,
    pub issue_events_synced: u64,
    pub deployments_synced: u64,
    pub pull_request_commits_synced: u64,
    pub commit_statuses_synced: u64,
    pub workflow_jobs_synced: u64,
    pub issue_reactions_synced: u64,
    pub check_runs_synced: u64,
    pub issue_timeline_synced: u64,
}

impl SyncSummary {
    /// Nothing written yet.
    pub open spec fn is_blank(self) -> bool {
        &&& self.issues_synced == 0
        &&& self.pull_requests_synced == 0
        &&& self.commits_synced == 0
        &&& self.comments_synced == 0
        &&& self.review_comments_synced == 0
        &&& self.reviews_synced == 0
        &&& self.labels_synced == 0
        &&& self.milestones_synced == 0
        &&& self.releases_synced == 0
        &&& self.branches_synced == 0
        &&& self.contributors_synced == 0
        &&& self.workflow_runs_synced == 0
        &&& self.pull_request_files_synced == 0
        &&& self.tags_synced == 0
        &&& self.commit_files_synced == 0
        &&& self.review_threads_synced == 0
        &&& self.commit_comments_synced == 0
        &&& self.issue_events_synced == 0
        &&& self.deployments_synced == 0
        &&& self.pull_request_commits_synced == 0
        &&& self.commit_statuses_synced == 0
        &&& self.workflow_jobs_synced == 0
        &&& self.issue_reactions_synced == 0
        &&& self.check_runs_synced == 0
        &&& self.issue_timeline_synced == 0
    }

    /// A summary that counts nothing yet.
    pub fn new(repository: String) -> (out: Self)
        ensures
            out.repository == repository,
            out.is_blank(),
    {
        SyncSummary {
            repository,
            issues_synced: 0,
            pull_requests_synced: 0,
            commits_synced: 0,
            comments_synced: 0,
            review_comments_synced: 0,
            reviews_synced: 0,
            labels_synced: 0,
            milestones_synced: 0,
            releases_synced: 0,
            branches_synced: 0,
            contributors_synced: 0,
            workflow_runs_synced: 0,
            pull_request_files_synced: 0,
            tags_synced: 0,
            commit_files_synced: 0,
            review_threads_synced: 0,
            commit_comments_synced: 0,
            issue_events_synced: 0,
            deployments_synced: 0,
            pull_request_commits_synced: 0,
            commit_statuses_synced: 0,
            workflow_jobs_synced: 0,
            issue_reactions_synced: 0,
            check_runs_synced: 0,
            issue_timeline_synced: 0,
        }
    }

    /// The same summary again.
    pub fn copied(&self) -> (out: Self)
        ensures
            out == *self,
    {
        SyncSummary {
            repository: self.repository.clone(),
            issues_synced: self.issues_synced,
            pull_requests_synced: self.pull_requests_synced,
            commits_synced: self.commits_synced,
            comments_synced: self.comments_synced,
            review_comments_synced: self.review_comments_synced,
            reviews_synced: self.reviews_synced,
            labels_synced: self.labels_synced,
            milestones_synced: self.milestones_synced,
            releases_synced: self.releases_synced,
            branches_synced: self.branches_synced,
            contributors_synced: self.contributors_synced,
            workflow_runs_synced: self.workflow_runs_synced,
            pull_request_files_synced: self.pull_request_files_synced,
            tags_synced: self.tags_synced,
            commit_files_synced: self.commit_files_synced,
            review_threads_synced: self.review_threads_synced,
            commit_comments_synced: self.commit_comments_synced,
            issue_events_synced: self.issue_events_synced,
            deployments_synced: self.deployments_synced,
            pull_request_commits_synced: self.pull_request_commits_synced,
            commit_statuses_synced: self.commit_statuses_synced,
            workflow_jobs_synced: self.workflow_jobs_synced,
            issue_reactions_synced: self.issue_reactions_synced,
            check_runs_synced: self.check_runs_synced,
            issue_timeline_synced: self.issue_timeline_synced,
        }
    }
}

/// Rows per table, to be added to a summary.
#[derive(Debug, Clone, Copy, PartialEq, Eq, Structural)]
pub struct RowCounts {
    pub issues: u64,
    pub pull_requests: u64,
    pub commits: u64,
    pub comments: u64,
    pub review_comments: u64,
    pub reviews: u64,
    pub labels: u64,
    pub milestones: u64,
    pub releases: u64,
    pub branches: u64,
    pub contributors: u64,
    pub workflow_runs: u64,
    pub pull_request_files: u64,
    pub tags: u64,
    pub commit_files: u64,
    pub review_threads: u64,
    pub commit_comments: u64,
    pub issue_events: u64,
    pub deployments: u64,
    pub pull_request_commits: u64,
    pub commit_statuses: u64,
    pub workflow_jobs: u64,
    pub issue_reactions: u64,
    pub check_runs: u64,
    pub issue_timeline: u64,
}

pub open spec fn no_rows() -> RowCounts {
    RowCounts {
        issues: 0,
        pull_requests: 0,
        commits: 0,
        comments: 0,
        review_comments: 0,
        reviews: 0,
        labels: 0,
        milestones: 0,
        releases: 0,
        branches: 0,
        contributors: 0,
        workflow_runs: 0,
        pull_request_files: 0,
        tags: 0,
        commit_files: 0,
        review_threads: 0,
        commit_comments: 0,
        issue_events: 0,
        deployments: 0,
        pull_request_commits: 0,
        commit_statuses: 0,
        workflow_jobs: 0,
        issue_reactions: 0,
        check_runs: 0,
        issue_timeline: 0,
    }
}

/// The summary with further rows counted.
pub open spec fn tallied(summary: SyncSummary, more: RowCounts) -> SyncSummary {
    SyncSummary {
        repository: summary.repository,
        issues_synced: (summary.issues_synced + more.issues) as u64,
        pull_requests_synced: (summary.pull_requests_synced + more.pull_requests) as u64,
        commits_synced: (summary.commits_synced + more.commits) as u64,
        comments_synced: (summary.comments_synced + more.comments) as u64,
        review_comments_synced: (summary.review_comments_synced + more.review_comments) as u64,
        reviews_synced: (summary.reviews_synced + more.reviews) as u64,
        labels_synced: (summary.labels_synced + more.labels) as u64,
        milestones_synced: (summary.milestones_synced + more.milestones) as u64,
        releases_synced: (summary.releases_synced + more.releases) as u64,
        branches_synced: (summary.branches_synced + more.branches) as u64,
        contributors_synced: (summary.contributors_synced + more.contributors) as u64,
        workflow_runs_synced: (summary.workflow_runs_synced + more.workflow_runs) as u64,
        pull_request_files_synced: (summary.pull_request_files_synced + more.pull_request_files) as u64,
        tags_synced: (summary.tags_synced + more.tags) as u64,
        commit_files_synced: (summary.commit_files_synced + more.commit_files) as u64,
        review_threads_synced: (summary.review_threads_synced + more.review_threads) as u64,
        commit_comments_synced: (summary.commit_comments_synced + more.commit_comments) as u64,
        issue_events_synced: (summary.issue_events_synced + more.issue_events) as u64,
        deployments_synced: (summary.deployments_synced + more.deployments) as u64,
        pull_request_commits_synced: (summary.pull_request_commits_synced + more.pull_request_commits) as u64,
        commit_statuses_synced: (summary.commit_statuses_synced + more.commit_statuses) as u64,
        workflow_jobs_synced: (summary.workflow_jobs_synced + more.workflow_jobs) as u64,
        issue_reactions_synced: (summary.issue_reactions_synced + more.issue_reactions) as u64,
        check_runs_synced: (summary.check_runs_synced + more.check_runs) as u64,
        issue_timeline_synced: (summary.issue_timeline_synced + more.issue_timeline) as u64,
    }
}

/// The summary of a repository with these counts.
pub open spec fn summary_of(repository: String, counts: RowCounts) -> SyncSummary {
    SyncSummary {
        repository,
        issues_synced: counts.issues,
        pull_requests_synced: counts.pull_requests,
        commits_synced: counts.commits,
        comments_synced: counts.comments,
        review_comments_synced: counts.review_comments,
        reviews_synced: counts.reviews,
        labels_synced: counts.labels,
        milestones_synced: counts.milestones,
        releases_synced: counts.releases,
        branches_synced: counts.branches,
        contributors_synced: counts.contributors,
        workflow_runs_synced: counts.workflow_runs,
        pull_request_files_synced: counts.pull_request_files,
        tags_synced: counts.tags,
        commit_files_synced: counts.commit_files,
        review_threads_synced: counts.review_threads,
        commit_comments_synced: counts.commit_comments,
        issue_events_synced: counts.issue_events,
        deployments_synced: counts.deployments,
        pull_request_commits_synced: counts.pull_request_commits,
        commit_statuses_synced: counts.commit_statuses,
        workflow_jobs_synced: counts.workflow_jobs,
        issue_reactions_synced: counts.issue_reactions,
        check_runs_synced: counts.check_runs,
        issue_timeline_synced: counts.issue_timeline,
    }
}

/// No count outgrows 64 bits.
pub open spec fn room_for(summary: SyncSummary, more: RowCounts) -> bool {
    &&& summary.issues_synced + more.issues <= u64::MAX
    &&& summary.pull_requests_synced + more.pull_requests <= u64::MAX
    &&& summary.commits_synced + more.commits <= u64::MAX
    &&& summary.comments_synced + more.comments <= u64::MAX
    &&& summary.review_comments_synced + more.review_comments <= u64::MAX
    &&& summary.reviews_synced + more.reviews <= u64::MAX
    &&& summary.labels_synced + more.labels <= u64::MAX
    &&& summary.milestones_synced + more.milestones <= u64::MAX
    &&& summary.releases_synced + more.releases <= u64::MAX
    &&& summary.branches_synced + more.branches <= u64::MAX
    &&& summary.contributors_synced + more.contributors <= u64::MAX
    &&& summary.workflow_runs_synced + more.workflow_runs <= u64::MAX
    &&& summary.pull_request_files_synced + more.pull_request_files <= u64::MAX
    &&& summary.tags_synced + more.tags <= u64::MAX
    &&& summary.commit_files_synced + more.commit_files <= u64::MAX
    &&& summary.review_threads_synced + more.review_threads <= u64::MAX
    &&& summary.commit_comments_synced + more.commit_comments <= u64::MAX
    &&& summary.issue_events_synced + more.issue_events <= u64::MAX
    &&& summary.deployments_synced + more.deployments <= u64::MAX
    &&& summary.pull_request_commits_synced + more.pull_request_commits <= u64::MAX
    &&& summary.commit_statuses_synced + more.commit_statuses <= u64::MAX
    &&& summary.workflow_jobs_synced + more.workflow_jobs <= u64::MAX
    &&& summary.issue_reactions_synced + more.issue_reactions <= u64::MAX
    &&& summary.check_runs_synced + more.check_runs <= u64::MAX
    &&& summary.issue_timeline_synced + more.issue_timeline <= u64::MAX
}

impl RowCounts {
    /// No rows.
    pub fn none() -> (out: Self)
        ensures
            out == no_rows(),
    {
        RowCounts {
            issues: 0,
            pull_requests: 0,
            commits: 0,
            comments: 0,
            review_comments: 0,
            reviews: 0,
            labels: 0,
            milestones: 0,
            releases: 0,
            branches: 0,
            contributors: 0,
            workflow_runs: 0,
            pull_request_files: 0,
            tags: 0,
            commit_files: 0,
            review_threads: 0,
            commit_comments: 0,
            issue_events: 0,
            deployments: 0,
            pull_request_commits: 0,
            commit_statuses: 0,
            workflow_jobs: 0,
            issue_reactions: 0,
            check_runs: 0,
            issue_timeline: 0,
        }
    }
}

impl SyncSummary {
    /// Whether further rows can be counted.
    pub fn has_room(&self, more: &RowCounts) -> (out: bool)
        ensures
            out == room_for(*self, *more),
    {
        more.issues <= u64::MAX - self.issues_synced
            && more.pull_requests <= u64::MAX - self.pull_requests_synced
            && more.commits <= u64::MAX - self.commits_synced
            && more.comments <= u64::MAX - self.comments_synced
            && more.review_comments <= u64::MAX - self.review_comments_synced
            && more.reviews <= u64::MAX - self.reviews_synced
            && more.labels <= u64::MAX - self.labels_synced
            && more.milestones <= u64::MAX - self.milestones_synced
            && more.releases <= u64::MAX - self.releases_synced
            && more.branches <= u64::MAX - self.branches_synced
            && more.contributors <= u64::MAX - self.contributors_synced
            && more.workflow_runs <= u64::MAX - self.workflow_runs_synced
            && more.pull_request_files <= u64::MAX - self.pull_request_files_synced
            && more.tags <= u64::MAX - self.tags_synced
            && more.commit_files <= u64::MAX - self.commit_files_synced
            && more.review_threads <= u64::MAX - self.review_threads_synced
            && more.commit_comments <= u64::MAX - self.commit_comments_synced
            && more.issue_events <= u64::MAX - self.issue_events_synced
            && more.deployments <= u64::MAX - self.deployments_synced
            && more.pull_request_commits <= u64::MAX - self.pull_request_commits_synced
            && more.commit_statuses <= u64::MAX - self.commit_statuses_synced
            && more.workflow_jobs <= u64::MAX - self.workflow_jobs_synced
            && more.issue_reactions <= u64::MAX - self.issue_reactions_synced
            && more.check_runs <= u64::MAX - self.check_runs_synced
            && more.issue_timeline <= u64::MAX - self.issue_timeline_synced
    }

    /// Counts further rows.
    pub fn tally(&mut self, more: RowCounts)
        requires
            room_for(*old(self), more),
        ensures
            *final(self) == tallied(*old(self), more),
    {
        self.issues_synced = self.issues_synced + more.issues;
        self.pull_requests_synced = self.pull_requests_synced + more.pull_requests;
        self.commits_synced = self.commits_synced + more.commits;
        self.comments_synced = self.comments_synced + more.comments;
        self.review_comments_synced = self.review_comments_synced + more.review_comments;
        self.reviews_synced = self.reviews_synced + more.reviews;
        self.labels_synced = self.labels_synced + more.labels;
        self.milestones_synced = self.milestones_synced + more.milestones;
        self.releases_synced = self.releases_synced + more.releases;
        self.branches_synced = self.branches_synced + more.branches;
        self.contributors_synced = self.contributors_synced + more.contributors;
        self.workflow_runs_synced = self.workflow_runs_synced + more.workflow_runs;
        self.pull_request_files_synced = self.pull_request_files_synced + more.pull_request_files;
        self.tags_synced = self.tags_synced + more.tags;
        self.commit_files_synced = self.commit_files_synced + more.commit_files;
        self.review_threads_synced = self.review_threads_synced + more.review_threads;
        self.commit_comments_synced = self.commit_comments_synced + more.commit_comments;
        self.issue_events_synced = self.issue_events_synced + more.issue_events;
        self.deployments_synced = self.deployments_synced + more.deployments;
        self.pull_request_commits_synced = self.pull_request_commits_synced + more.pull_request_commits;
        self.commit_statuses_synced = self.commit_statuses_synced + more.commit_statuses;
        self.workflow_jobs_synced = self.workflow_jobs_synced + more.workflow_jobs;
        self.issue_reactions_synced = self.issue_reactions_synced + more.issue_reactions;
        self.check_runs_synced = self.check_runs_synced + more.check_runs;
        self.issue_timeline_synced = self.issue_timeline_synced + more.issue_timeline;
    }
}

/// How many items there are.
pub fn count<T>(items: &Vec<T>) -> (out: u64)
    ensures
        out == items@.len(),
{
    items.len() as u64
}

/// The order in which rows are counted does not matter.
pub proof fn counting_is_order_free(summary: SyncSummary, one: RowCounts, other: RowCounts)
    requires
        room_for(summary, one),
        room_for(tallied(summary, one), other),
    ensures
        room_for(summary, other),
        room_for(tallied(summary, other), one),
        tallied(tallied(summary, one), other) == tallied(tallied(summary, other), one),
{
}

} // verus!
