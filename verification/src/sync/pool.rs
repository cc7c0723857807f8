//! Runs queued repository syncs, up to a number at a time.
//!
//! The pool decides; its caller starts the jobs it hands out, waits for the
//! events it listens for and reports them back.

use crate::sync::queue;
use crate::sync::queue::SyncQueue;
use crate::sync::SyncJob;
use vstd::prelude::*;

verus! {

/// Jobs the pool parks while every worker is busy. Matches the depth of the
/// channel the jobs come from, so that a caller sees a full queue at roughly
/// twice that many outstanding syncs rather than never.
pub const SYNC_BACKLOG_LIMIT: usize = 64;

/// What woke the pool.
pub enum PoolEvent {
    /// The host is stopping.
    Cancelled,
    /// A caller queued another sync.
    Queued(SyncJob),
    /// No more syncs will arrive.
    QueueClosed,
    /// A running sync ended.
    Finished,
}

/// What the pool waits for next.
#[derive(Debug, Clone, Copy, PartialEq, Eq, Structural)]
pub struct Listening {
    pub cancellation: bool,
    pub jobs: bool,
    pub finished: bool,
}

/// What the pool's caller does next.
pub enum PoolStep {
    /// Nothing runs and nothing more will: the pool is done.
    Stop,
    /// Start these jobs, in order, then wait for an event.
    Run { start: Vec<SyncJob>, listening: Listening },
}

/// Queued syncs and how many of them run.
pub struct SyncPoolRunner {
    queue: SyncQueue,
    in_flight: usize,
    max_concurrent: usize,
    /// Set once the pool stops taking new work. Running syncs still finish.
    draining: bool,
}

/// State of a pool.
#[verifier::ext_equal]
pub struct PoolView {
    pub line: queue::Line,
    pub in_flight: nat,
    pub max_concurrent: nat,
    pub draining: bool,
}

/// How many more jobs a pool can start.
pub open spec fn free_workers(pool: PoolView) -> nat {
    if pool.draining || pool.in_flight >= pool.max_concurrent {
        0
    } else {
        (pool.max_concurrent - pool.in_flight) as nat
    }
}

/// How many jobs a pool starts: as many as wait and find a free worker.
pub open spec fn started_by(pool: PoolView) -> nat {
    if queue::waiting(pool.line) <= free_workers(pool) {
        queue::waiting(pool.line)
    } else {
        free_workers(pool)
    }
}

/// What a pool listens for. It stops reading jobs once as many are parked as
/// the channel holds, so that a full queue still reaches the caller.
pub open spec fn listening_of(pool: PoolView) -> Listening {
    Listening {
        cancellation: !pool.draining,
        jobs: !pool.draining && queue::waiting(pool.line) < SYNC_BACKLOG_LIMIT,
        finished: pool.in_flight > 0,
    }
}

/// A pool after an event.
pub open spec fn after_event(pool: PoolView, event: PoolEvent) -> PoolView {
    match event {
        PoolEvent::Cancelled => PoolView { draining: true, ..pool },
        PoolEvent::QueueClosed => PoolView { draining: true, ..pool },
        PoolEvent::Queued(job) => PoolView { line: queue::joined_by(pool.line, job), ..pool },
        PoolEvent::Finished => PoolView {
            in_flight: if pool.in_flight > 0 {
                (pool.in_flight - 1) as nat
            } else {
                0
            },
            ..pool
        },
    }
}

/// A pool after it has started what it can.
pub open spec fn after_filling(pool: PoolView) -> PoolView {
    PoolView {
        line: queue::after_turns(pool.line, started_by(pool)),
        in_flight: pool.in_flight + started_by(pool),
        ..pool
    }
}

impl View for SyncPoolRunner {
    type V = PoolView;

    closed spec fn view(&self) -> PoolView {
        PoolView {
            line: self.queue@,
            in_flight: self.in_flight as nat,
            max_concurrent: self.max_concurrent as nat,
            draining: self.draining,
        }
    }
}

impl SyncPoolRunner {
    /// The queue is in order and never holds more than the backlog.
    pub closed spec fn wf(&self) -> bool {
        self.queue.wf() && queue::waiting(self.queue@) <= SYNC_BACKLOG_LIMIT
    }

    /// A pool with nothing queued and nothing running.
    pub fn new(max_concurrent: usize) -> (out: Self)
        ensures
            out.wf(),
            out@.line.len() == 0,
            out@.in_flight == 0,
            out@.max_concurrent == max_concurrent,
            !out@.draining,
    {
        SyncPoolRunner { queue: SyncQueue::new(), in_flight: 0, max_concurrent, draining: false }
    }

    /// Starts jobs until every worker is busy or nothing is waiting; the jobs
    /// to start, in order.
    pub fn fill_workers(&mut self) -> (out: Vec<SyncJob>)
        requires
            old(self).wf(),
        ensures
            final(self).wf(),
            out@ == queue::taken_by_turns(old(self)@.line, started_by(old(self)@)),
            out@.len() == started_by(old(self)@),
            final(self)@ == after_filling(old(self)@),
    {
        let ghost before = self@;
        let mut started: Vec<SyncJob> = Vec::new();
        if self.draining {
            assert(started@ =~= queue::taken_by_turns(before.line, 0));
            return started;
        }
        while self.in_flight < self.max_concurrent && self.queue.len() > 0
            invariant
                self.wf(),
                queue::in_order(before.line),
                !self.draining,
                before.max_concurrent == self.max_concurrent,
                !before.draining,
                self@.in_flight == before.in_flight + started@.len(),
                self@.line == queue::after_turns(before.line, started@.len()),
                started@ == queue::taken_by_turns(before.line, started@.len()),
                queue::waiting(self@.line) + started@.len() == queue::waiting(before.line),
                self.in_flight <= self.max_concurrent || started@.len() == 0,
            decreases self.max_concurrent - self.in_flight,
        {
            proof {
                queue::line_is_empty_without_jobs(self@.line);
                lemma_turns_snoc(before.line, started@.len());
            }
            match self.queue.claim_next() {
                Some(job) => {
                    started.push(job);
                    self.in_flight = self.in_flight + 1;
                },
                None => {},
            }
        }
        started
    }

    /// What the pool listens for.
    pub fn next_event(&self) -> (out: Listening)
        requires
            self.wf(),
        ensures
            out == listening_of(self@),
    {
        Listening {
            cancellation: !self.draining,
            jobs: !self.draining && self.queue.len() < SYNC_BACKLOG_LIMIT,
            finished: self.in_flight > 0,
        }
    }

    /// Acts on one event. Jobs are taken only while the pool listens for them.
    pub fn handle_event(&mut self, event: PoolEvent)
        requires
            old(self).wf(),
            event is Queued ==> listening_of(old(self)@).jobs,
        ensures
            final(self).wf(),
            final(self)@ == after_event(old(self)@, event),
    {
        match event {
            PoolEvent::Cancelled => {
                self.draining = true;
            },
            PoolEvent::QueueClosed => {
                self.draining = true;
            },
            PoolEvent::Queued(job) => {
                self.queue.enqueue(job);
            },
            PoolEvent::Finished => {
                if self.in_flight > 0 {
                    self.in_flight = self.in_flight - 1;
                }
            },
        }
    }

    /// One round: what to start and what to wait for, until the pool is done.
    pub fn run(&mut self) -> (out: PoolStep)
        requires
            old(self).wf(),
        ensures
            final(self).wf(),
            final(self)@ == after_filling(old(self)@),
            match out {
                PoolStep::Stop => old(self)@.draining && old(self)@.in_flight == 0,
                PoolStep::Run { start, listening } => {
                    &&& !(old(self)@.draining && old(self)@.in_flight == 0)
                    &&& start@ == queue::taken_by_turns(
                        old(self)@.line,
                        started_by(old(self)@),
                    )
                    &&& listening == listening_of(final(self)@)
                },
            },
    {
        let start = self.fill_workers();
        if self.draining && self.in_flight == 0 {
            return PoolStep::Stop;
        }
        let listening = self.next_event();
        PoolStep::Run { start, listening }
    }
}

proof fn lemma_turns_snoc(line: queue::Line, turns: nat)
    requires
        queue::in_order(line),
        queue::after_turns(line, turns).len() > 0,
        queue::taken_by_turns(line, turns).len() == turns,
    ensures
        queue::after_turns(line, turns + 1) == queue::after_turn(queue::after_turns(line, turns)),
        queue::taken_by_turns(line, turns + 1) == queue::taken_by_turns(line, turns).push(
            queue::after_turns(line, turns)[0].1[0],
        ),
    decreases turns,
{
    reveal_with_fuel(queue::after_turns, 2);
    reveal_with_fuel(queue::taken_by_turns, 2);
    if turns == 0 {
        assert(queue::taken_by_turns(line, 1) =~= seq![line[0].1[0]]);
        assert(queue::taken_by_turns(line, 0).push(line[0].1[0]) =~= seq![line[0].1[0]]);
    } else if line.len() > 0 {
        queue::turn_keeps_order(line);
        let rest = queue::after_turn(line);
        lemma_turns_snoc(rest, (turns - 1) as nat);
        assert(queue::taken_by_turns(line, turns + 1) =~= queue::taken_by_turns(line, turns).push(
            queue::after_turns(line, turns)[0].1[0],
        ));
    }
}

// ---------------------------------------------------------------------------
// Laws
// ---------------------------------------------------------------------------

/// Filling never runs more than the maximum, unless as many were running
/// already; and it leaves no worker idle while a job waits.
pub proof fn filling_is_bounded_and_leaves_no_worker_idle(pool: PoolView)
    requires
        !pool.draining,
    ensures
        after_filling(pool).in_flight <= pool.max_concurrent || after_filling(pool).in_flight
            == pool.in_flight,
        after_filling(pool).in_flight < pool.max_concurrent ==> started_by(pool) == queue::waiting(
            pool.line,
        ),
{
}

/// A pool that stopped taking work starts nothing, listens for nothing but the
/// end of what runs, and never takes work again.
pub proof fn draining_is_for_good(pool: PoolView, event: PoolEvent)
    requires
        pool.draining,
    ensures
        started_by(pool) == 0,
        !listening_of(pool).cancellation && !listening_of(pool).jobs,
        after_event(pool, event).draining,
{
}

/// A job that the pool listens for never takes the backlog over its limit.
pub proof fn backlog_stays_within_its_limit(pool: PoolView, job: SyncJob)
    requires
        queue::in_order(pool.line),
        listening_of(pool).jobs,
    ensures
        queue::waiting(after_event(pool, PoolEvent::Queued(job)).line) <= SYNC_BACKLOG_LIMIT,
{
    queue::joining_adds_one_job(pool.line, job);
}

} // verus!
