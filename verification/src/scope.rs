//! What a sync collects.

use vstd::prelude::*;

verus! {

/// Which entities of a kind a sub-resource is collected for.
#[derive(Debug, Clone, Copy, PartialEq, Eq, Structural)]
pub enum CollectionMode {
    /// For none.
    Off,
    /// For open ones.
    Open,
    /// For all.
    All,
}

impl CollectionMode {
    pub open spec fn covers(self, open: bool) -> bool {
        match self {
            CollectionMode::Off => false,
            CollectionMode::Open => open,
            CollectionMode::All => true,
        }
    }

    /// Whether the sub-resource of an entity is collected.
    pub fn includes(self, open: bool) -> (out: bool)
        ensures
            out == self.covers(open),
    {
        match self {
            CollectionMode::Off => false,
            CollectionMode::Open => open,
            CollectionMode::All => true,
        }
    }
}

/// The object types a sync collects.
#[derive(Debug, Clone, Copy, PartialEq, Eq, Structural)]
pub struct ObjectScope {
    pub pull_requests: bool,
    pub issues: bool,
    pub commits: bool,
    pub labels: bool,
    pub milestones: bool,
    pub releases: bool,
    pub branches: bool,
    pub github_actions: bool,
}

/// The sub-resources a sync collects.
#[derive(Debug, Clone, Copy, PartialEq, Eq, Structural)]
pub struct CollectionScope {
    pub reactions: CollectionMode,
    pub timeline: CollectionMode,
    pub actions: CollectionMode,
}

/// What a sync collects.
#[derive(Debug, Clone, Copy, PartialEq, Eq, Structural)]
pub struct ScopeConfig {
    pub objects: ObjectScope,
    pub collection: CollectionScope,
}

impl ScopeConfig {
    /// Every object type; sub-resources of open entities, without timelines.
    pub open spec fn basic() -> Self {
        ScopeConfig {
            objects: ObjectScope {
                pull_requests: true,
                issues: true,
                commits: true,
                labels: true,
                milestones: true,
                releases: true,
                branches: true,
                github_actions: true,
            },
            collection: CollectionScope {
                reactions: CollectionMode::Open,
                timeline: CollectionMode::Off,
                actions: CollectionMode::Open,
            },
        }
    }
}

impl Default for ScopeConfig {
    fn default() -> (out: Self)
        ensures
            out == ScopeConfig::basic(),
    {
        ScopeConfig {
            objects: ObjectScope {
                pull_requests: true,
                issues: true,
                commits: true,
                labels: true,
                milestones: true,
                releases: true,
                branches: true,
                github_actions: true,
            },
            collection: CollectionScope {
                reactions: CollectionMode::Open,
                timeline: CollectionMode::Off,
                actions: CollectionMode::Open,
            },
        }
    }
}

} // verus!
