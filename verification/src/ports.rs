//! What a fetch brings, in the shape the mirror writes it.

use crate::records::{
    BranchRecord, CheckRunRecord, CommentRecord, CommitCommentRecord, CommitFileRecord,
    CommitRecord, CommitStatusRecord, ContributorRecord, DeploymentRecord, IssueEventRecord,
    IssueReactionRecord, IssueRecord, IssueTimelineEventRecord, LabelRecord, MilestoneRecord,
    PullRequestCommitRecord, PullRequestFileRecord, PullRequestRecord, ReleaseRecord, RepoRecord,
    ReviewCommentRecord, ReviewRecord, ReviewThreadRecord, TagRecord, WorkflowJobRecord,
    WorkflowRunRecord,
};
use crate::scope::ScopeConfig;
use vstd::prelude::*;

verus! {

/// Everything one fetch needs beyond the repository's name.
#[derive(Debug, Clone, Copy, PartialEq, Eq, Structural)]
pub struct FetchOptions {
    /// Whose cache partition is read and written.
    pub tenant_id: u128,
    /// Which object types and sub-resources to collect.
    pub scope: ScopeConfig,
    /// Ignore any cached validator and re-fetch everything. Fresh responses are
    /// still written back to the cache.
    pub force: bool,
}

/// A top-level listing that deletions can be reconciled for.
#[derive(Debug, Clone, Copy, PartialEq, Eq, Structural)]
pub enum Listing {
    Issues,
    PullRequests,
    Commits,
    Comments,
    ReviewComments,
    Labels,
    Milestones,
    Releases,
    Branches,
    Tags,
}

/// Which top-level listings a fetch walked to their final page.
///
/// Deletions may only be reconciled against a listing that is provably
/// complete: absence from a truncated page says nothing about existence. A
/// listing is complete when the walk followed the next-page links until there
/// was none, not when it stopped at the page cap, or was switched off.
#[derive(Debug, Clone, Copy, PartialEq, Eq, Structural)]
pub struct ListingCompleteness {
    issues: bool,
    pull_requests: bool,
    commits: bool,
    comments: bool,
    review_comments: bool,
    labels: bool,
    milestones: bool,
    releases: bool,
    branches: bool,
    tags: bool,
}

impl ListingCompleteness {
    closed spec fn flag(self, listing: Listing) -> bool {
        match listing {
            Listing::Issues => self.issues,
            Listing::PullRequests => self.pull_requests,
            Listing::Commits => self.commits,
            Listing::Comments => self.comments,
            Listing::ReviewComments => self.review_comments,
            Listing::Labels => self.labels,
            Listing::Milestones => self.milestones,
            Listing::Releases => self.releases,
            Listing::Branches => self.branches,
            Listing::Tags => self.tags,
        }
    }
}

impl View for ListingCompleteness {
    type V = Set<Listing>;

    /// The listings that were read to the end.
    closed spec fn view(&self) -> Set<Listing> {
        Set::new(|listing: Listing| self.flag(listing))
    }
}

impl ListingCompleteness {
    /// Nothing complete: the safe default, since it reconciles nothing.
    pub fn none() -> (out: Self)
        ensures
            out@ == Set::<Listing>::empty(),
    {
        let out = ListingCompleteness {
            issues: false,
            pull_requests: false,
            commits: false,
            comments: false,
            review_comments: false,
            labels: false,
            milestones: false,
            releases: false,
            branches: false,
            tags: false,
        };
        assert(out@ =~= Set::<Listing>::empty());
        out
    }

    /// Every listing complete.
    pub fn all_complete() -> (out: Self)
        ensures
            forall|listing: Listing| #[trigger] out@.contains(listing),
    {
        ListingCompleteness {
            issues: true,
            pull_requests: true,
            commits: true,
            comments: true,
            review_comments: true,
            labels: true,
            milestones: true,
            releases: true,
            branches: true,
            tags: true,
        }
    }

    /// Records whether `listing` was walked to its final page.
    pub fn set(&mut self, listing: Listing, complete: bool)
        ensures
            final(self)@ == if complete {
                old(self)@.insert(listing)
            } else {
                old(self)@.remove(listing)
            },
    {
        match listing {
            Listing::Issues => {
                self.issues = complete;
            },
            Listing::PullRequests => {
                self.pull_requests = complete;
            },
            Listing::Commits => {
                self.commits = complete;
            },
            Listing::Comments => {
                self.comments = complete;
            },
            Listing::ReviewComments => {
                self.review_comments = complete;
            },
            Listing::Labels => {
                self.labels = complete;
            },
            Listing::Milestones => {
                self.milestones = complete;
            },
            Listing::Releases => {
                self.releases = complete;
            },
            Listing::Branches => {
                self.branches = complete;
            },
            Listing::Tags => {
                self.tags = complete;
            },
        }
        assert(self@ =~= if complete {
            old(self)@.insert(listing)
        } else {
            old(self)@.remove(listing)
        });
    }

    /// Whether `listing` may be reconciled against.
    pub fn is_complete(&self, listing: Listing) -> (out: bool)
        ensures
            out == self@.contains(listing),
    {
        match listing {
            Listing::Issues => self.issues,
            Listing::PullRequests => self.pull_requests,
            Listing::Commits => self.commits,
            Listing::Comments => self.comments,
            Listing::ReviewComments => self.review_comments,
            Listing::Labels => self.labels,
            Listing::Milestones => self.milestones,
            Listing::Releases => self.releases,
            Listing::Branches => self.branches,
            Listing::Tags => self.tags,
        }
    }

    /// Folds another family's listings in: a listing is complete if either
    /// side walked it to the end.
    pub fn absorb(&mut self, other: &Self)
        ensures
            final(self)@ == old(self)@.union(other@),
    {
        self.issues = self.issues || other.issues;
        self.pull_requests = self.pull_requests || other.pull_requests;
        self.commits = self.commits || other.commits;
        self.comments = self.comments || other.comments;
        self.review_comments = self.review_comments || other.review_comments;
        self.labels = self.labels || other.labels;
        self.milestones = self.milestones || other.milestones;
        self.releases = self.releases || other.releases;
        self.branches = self.branches || other.branches;
        self.tags = self.tags || other.tags;
        assert(self@ =~= old(self)@.union(other@));
    }
}

/// Two fetches that walked the same listings to the end are equal.
pub proof fn completeness_is_its_listings(one: ListingCompleteness, other: ListingCompleteness)
    requires
        one@ == other@,
    ensures
        one == other,
{
    assert forall|listing: Listing| one.flag(listing) == other.flag(listing) by {
        assert(one@.contains(listing) == one.flag(listing));
        assert(other@.contains(listing) == other.flag(listing));
    }
    assert(one.flag(Listing::Issues) == other.flag(Listing::Issues));
    assert(one.flag(Listing::PullRequests) == other.flag(Listing::PullRequests));
    assert(one.flag(Listing::Commits) == other.flag(Listing::Commits));
    assert(one.flag(Listing::Comments) == other.flag(Listing::Comments));
    assert(one.flag(Listing::ReviewComments) == other.flag(Listing::ReviewComments));
    assert(one.flag(Listing::Labels) == other.flag(Listing::Labels));
    assert(one.flag(Listing::Milestones) == other.flag(Listing::Milestones));
    assert(one.flag(Listing::Releases) == other.flag(Listing::Releases));
    assert(one.flag(Listing::Branches) == other.flag(Listing::Branches));
    assert(one.flag(Listing::Tags) == other.flag(Listing::Tags));
}

/// The order in which families are folded in does not matter, and folding one
/// in twice changes nothing more.
pub proof fn absorbing_is_order_free(
    one: ListingCompleteness,
    other: ListingCompleteness,
    third: ListingCompleteness,
)
    ensures
        one@.union(other@) == other@.union(one@),
        one@.union(other@).union(third@) == one@.union(third@).union(other@),
        one@.union(other@).union(other@) == one@.union(other@),
{
    assert(one@.union(other@) =~= other@.union(one@));
    assert(one@.union(other@).union(third@) =~= one@.union(third@).union(other@));
    assert(one@.union(other@).union(other@) =~= one@.union(other@));
}

/// The repository-wide listings of issues, comments and events, and the people
/// seen in them.
#[derive(Debug)]
pub struct IssueListing {
    pub complete: ListingCompleteness,
    pub issues: Vec<IssueRecord>,
    pub comments: Vec<CommentRecord>,
    pub issue_events: Vec<IssueEventRecord>,
    pub contributors: Vec<ContributorRecord>,
}

/// Which sub-resources of an issue to fetch.
#[derive(Debug, Clone, Copy, PartialEq, Eq, Structural)]
pub struct IssueDetailWants {
    pub reactions: bool,
    pub timeline: bool,
}

/// The sub-resources of an issue.
#[derive(Debug)]
pub struct IssueDetail {
    pub issue_number: i64,
    pub reactions: Vec<IssueReactionRecord>,
    pub timeline: Vec<IssueTimelineEventRecord>,
}

/// The listings of pull requests and review comments, and the people seen in
/// them.
#[derive(Debug)]
pub struct PullListing {
    pub complete: ListingCompleteness,
    pub pull_requests: Vec<PullRequestRecord>,
    pub review_comments: Vec<ReviewCommentRecord>,
    pub contributors: Vec<ContributorRecord>,
}

/// One pull request with its line counts and everything hanging off it.
#[derive(Debug)]
pub struct PullDetail {
    pub pull_request: PullRequestRecord,
    pub reviews: Vec<ReviewRecord>,
    pub files: Vec<PullRequestFileRecord>,
    pub commits: Vec<PullRequestCommitRecord>,
    pub review_threads: Vec<ReviewThreadRecord>,
    /// People seen reviewing.
    pub contributors: Vec<ContributorRecord>,
}

/// The listings of commits and their comments, and the people seen in them.
#[derive(Debug)]
pub struct CommitListing {
    pub complete: ListingCompleteness,
    pub commits: Vec<CommitRecord>,
    pub commit_comments: Vec<CommitCommentRecord>,
    pub contributors: Vec<ContributorRecord>,
}

/// One commit with its line counts, files and CI results.
#[derive(Debug)]
pub struct CommitDetail {
    pub commit: CommitRecord,
    pub files: Vec<CommitFileRecord>,
    pub statuses: Vec<CommitStatusRecord>,
    pub check_runs: Vec<CheckRunRecord>,
}

/// The listings of repository metadata.
#[derive(Debug)]
pub struct MetadataListing {
    pub complete: ListingCompleteness,
    pub labels: Vec<LabelRecord>,
    pub milestones: Vec<MilestoneRecord>,
    pub releases: Vec<ReleaseRecord>,
    pub branches: Vec<BranchRecord>,
    pub tags: Vec<TagRecord>,
}

/// The listings of workflow runs and deployments.
#[derive(Debug)]
pub struct ActionsListing {
    pub workflow_runs: Vec<WorkflowRunRecord>,
    pub deployments: Vec<DeploymentRecord>,
}

/// Everything one full sync of a repository amounts to.
#[derive(Debug)]
pub struct FetchedRepository {
    pub repository: RepoRecord,
    /// Which listings below are complete and therefore safe to reconcile
    /// deletions against.
    pub complete: ListingCompleteness,
    pub issues: Vec<IssueRecord>,
    pub pull_requests: Vec<PullRequestRecord>,
    pub commits: Vec<CommitRecord>,
    pub comments: Vec<CommentRecord>,
    pub review_comments: Vec<ReviewCommentRecord>,
    pub reviews: Vec<ReviewRecord>,
    pub labels: Vec<LabelRecord>,
    pub milestones: Vec<MilestoneRecord>,
    pub releases: Vec<ReleaseRecord>,
    pub branches: Vec<BranchRecord>,
    pub contributors: Vec<ContributorRecord>,
    pub workflow_runs: Vec<WorkflowRunRecord>,
    pub pull_request_files: Vec<PullRequestFileRecord>,
    pub tags: Vec<TagRecord>,
    pub commit_files: Vec<CommitFileRecord>,
    pub review_threads: Vec<ReviewThreadRecord>,
    pub commit_comments: Vec<CommitCommentRecord>,
    pub issue_events: Vec<IssueEventRecord>,
    pub deployments: Vec<DeploymentRecord>,
    pub pull_request_commits: Vec<PullRequestCommitRecord>,
    pub commit_statuses: Vec<CommitStatusRecord>,
    pub workflow_jobs: Vec<WorkflowJobRecord>,
    pub issue_reactions: Vec<IssueReactionRecord>,
    pub check_runs: Vec<CheckRunRecord>,
    pub issue_timeline: Vec<IssueTimelineEventRecord>,
}

} // verus!
