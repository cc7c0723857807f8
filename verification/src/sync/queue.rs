//! Jobs waiting for a free worker, held one queue per tenant.
//!
//! The next job comes from the next tenant in turn, so that a tenant with fifty
//! repositories waiting delays only itself: every other tenant still gets a
//! worker on its next turn. Within one tenant the order is first in, first out.

use crate::sync::SyncJob;
use std::collections::VecDeque;
use vstd::prelude::*;

verus! {

/// A tenant's place in line, with its jobs, oldest first.
pub type Line = Seq<(u128, Seq<SyncJob>)>;

/// Jobs waiting for a free worker.
pub struct SyncQueue {
    /// Front: the tenant whose turn is next.
    queue: VecDeque<(u128, VecDeque<SyncJob>)>,
}

impl View for SyncQueue {
    type V = Line;

    closed spec fn view(&self) -> Line {
        self.queue@.map_values(|entry: (u128, VecDeque<SyncJob>)| (entry.0, entry.1@))
    }
}

/// The tenant stands in line at the place.
pub open spec fn stands_at(line: Line, tenant: u128, place: int) -> bool {
    0 <= place < line.len() && line[place].0 == tenant
}

/// The tenant has jobs waiting.
pub open spec fn waits(line: Line, tenant: u128) -> bool {
    exists|place: int| stands_at(line, tenant, place)
}

/// No tenant stands in line twice, none without a job, and every job is its
/// tenant's own.
pub open spec fn in_order(line: Line) -> bool {
    &&& forall|i: int, j: int|
        0 <= i < j < line.len() ==> (#[trigger] line[i]).0 != (#[trigger] line[j]).0
    &&& forall|i: int| 0 <= i < line.len() ==> (#[trigger] line[i]).1.len() > 0
    &&& forall|i: int, k: int|
        0 <= i < line.len() && 0 <= k < line[i].1.len() ==> (
        #[trigger] line[i].1[k]).ctx.subject_tenant_id == line[i].0
}

/// The line after a job has joined it: behind the tenant's other jobs, or at
/// the end of the line when the tenant has none.
pub open spec fn joined_by(line: Line, job: SyncJob) -> Line {
    let tenant = job.ctx.subject_tenant_id;
    if waits(line, tenant) {
        let place = choose|place: int| stands_at(line, tenant, place);
        line.update(place, (tenant, line[place].1.push(job)))
    } else {
        line.push((tenant, seq![job]))
    }
}

/// The line after the first tenant has had its turn: it goes to the end while
/// it has jobs left.
pub open spec fn after_turn(line: Line) -> Line {
    let (tenant, jobs) = line[0];
    if jobs.len() > 1 {
        line.skip(1).push((tenant, jobs.skip(1)))
    } else {
        line.skip(1)
    }
}

/// The line after a number of turns.
pub open spec fn after_turns(line: Line, turns: nat) -> Line
    decreases turns,
{
    if turns == 0 || line.len() == 0 {
        line
    } else {
        after_turns(after_turn(line), (turns - 1) as nat)
    }
}

/// The jobs that a number of turns takes, in order.
pub open spec fn taken_by_turns(line: Line, turns: nat) -> Seq<SyncJob>
    decreases turns,
{
    if turns == 0 || line.len() == 0 {
        Seq::empty()
    } else {
        seq![line[0].1[0]] + taken_by_turns(after_turn(line), (turns - 1) as nat)
    }
}

/// How many jobs wait.
pub open spec fn waiting(line: Line) -> nat
    decreases line.len(),
{
    if line.len() == 0 {
        0
    } else {
        waiting(line.drop_last()) + line.last().1.len()
    }
}

/// The jobs of one tenant, oldest first.
pub open spec fn jobs_of(line: Line, tenant: u128) -> Seq<SyncJob> {
    if waits(line, tenant) {
        line[choose|place: int| stands_at(line, tenant, place)].1
    } else {
        Seq::empty()
    }
}

impl SyncQueue {
    /// See [`in_order`].
    pub open spec fn wf(&self) -> bool {
        in_order(self@)
    }

    /// No jobs.
    pub fn new() -> (out: Self)
        ensures
            out.wf(),
            out@.len() == 0,
            waiting(out@) == 0,
    {
        SyncQueue { queue: VecDeque::new() }
    }

    fn place_of(&self, tenant: u128) -> (out: Option<usize>)
        ensures
            match out {
                Some(place) => stands_at(self@, tenant, place as int),
                None => !waits(self@, tenant),
            },
    {
        let mut place: usize = 0;
        while place < self.queue.len()
            invariant
                place <= self.queue@.len(),
                forall|i: int| 0 <= i < place ==> !#[trigger] stands_at(self@, tenant, i),
            decreases self.queue@.len() - place,
        {
            if self.queue[place].0 == tenant {
                assert(self@[place as int].0 == tenant);
                return Some(place);
            }
            assert(self@[place as int].0 != tenant);
            place = place + 1;
        }
        None
    }

    /// A job joins the line.
    pub fn enqueue(&mut self, job: SyncJob)
        requires
            old(self).wf(),
        ensures
            final(self).wf(),
            final(self)@ == joined_by(old(self)@, job),
            waiting(final(self)@) == waiting(old(self)@) + 1,
    {
        let tenant: u128 = job.ctx.subject_tenant_id;
        proof {
            lemma_joined_by(self@, job);
        }
        match self.place_of(tenant) {
            Some(place) => {
                let ghost chosen = choose|at: int| stands_at(self@, tenant, at);
                assert(stands_at(self@, tenant, place as int));
                assert(chosen == place);
                let ghost before = self@;
                match self.queue.remove(place) {
                    Some((owner, mut jobs)) => {
                        let ghost old_jobs = jobs@;
                        assert(before[place as int] == (tenant, old_jobs));
                        jobs.push_back(job);
                        self.queue.insert(place, (owner, jobs));
                        assert(self@ =~= before.update(place as int, (tenant, old_jobs.push(job))));
                    },
                    None => {},
                }
            },
            None => {
                let ghost before = self@;
                let mut jobs: VecDeque<SyncJob> = VecDeque::new();
                jobs.push_back(job);
                assert(jobs@ =~= seq![job]);
                self.queue.push_back((tenant, jobs));
                assert(self@ =~= before.push((tenant, seq![job])));
            },
        }
    }

    /// The next job: the oldest of the tenant whose turn it is.
    pub fn claim_next(&mut self) -> (out: Option<SyncJob>)
        requires
            old(self).wf(),
        ensures
            final(self).wf(),
            old(self)@.len() == 0 ==> out is None && final(self)@ == old(self)@,
            old(self)@.len() > 0 ==> out == Some(old(self)@[0].1[0]) && final(self)@ == after_turn(
                old(self)@,
            ) && waiting(old(self)@) == waiting(final(self)@) + 1,
    {
        let ghost before = self@;
        match self.queue.pop_front() {
            Some((tenant, mut jobs)) => {
                proof {
                    lemma_after_turn(before);
                }
                let ghost old_jobs = jobs@;
                assert(before[0] == (tenant, old_jobs));
                assert(self@ =~= before.skip(1));
                match jobs.pop_front() {
                    Some(job) => {
                        assert(jobs@ =~= old_jobs.skip(1));
                        if jobs.len() > 0 {
                            self.queue.push_back((tenant, jobs));
                            assert(self@ =~= before.skip(1).push((tenant, old_jobs.skip(1))));
                        }
                        Some(job)
                    },
                    None => None,
                }
            },
            None => None,
        }
    }

    /// How many jobs wait.
    pub fn len(&self) -> (out: usize)
        requires
            waiting(self@) <= usize::MAX,
        ensures
            out == waiting(self@),
    {
        let mut total: usize = 0;
        let mut place: usize = 0;
        assert(self@.take(0) =~= Seq::empty());
        while place < self.queue.len()
            invariant
                place <= self.queue@.len(),
                total == waiting(self@.take(place as int)),
                waiting(self@) <= usize::MAX,
            decreases self.queue@.len() - place,
        {
            proof {
                lemma_waiting_prefix(self@, place + 1);
                assert(self@.take(place + 1).drop_last() =~= self@.take(place as int));
                assert(self@.take(place + 1).last() == self@[place as int]);
            }
            total = total + self.queue[place].1.len();
            place = place + 1;
        }
        assert(self@.take(place as int) =~= self@);
        total
    }
}

proof fn lemma_waiting_prefix(line: Line, end: int)
    requires
        0 <= end <= line.len(),
    ensures
        waiting(line.take(end)) <= waiting(line),
    decreases line.len(),
{
    if end == line.len() {
        assert(line.take(end) =~= line);
    } else {
        assert(line.drop_last().take(end) =~= line.take(end));
        lemma_waiting_prefix(line.drop_last(), end);
    }
}

proof fn lemma_waiting_update(line: Line, place: int, entry: (u128, Seq<SyncJob>))
    requires
        0 <= place < line.len(),
    ensures
        waiting(line.update(place, entry)) == waiting(line) - line[place].1.len() + entry.1.len(),
    decreases line.len(),
{
    let updated = line.update(place, entry);
    if place == line.len() - 1 {
        assert(updated.drop_last() =~= line.drop_last());
    } else {
        assert(updated.drop_last() =~= line.drop_last().update(place, entry));
        lemma_waiting_update(line.drop_last(), place, entry);
    }
}

proof fn lemma_waiting_skip(line: Line)
    requires
        line.len() > 0,
    ensures
        waiting(line) == line[0].1.len() + waiting(line.skip(1)),
    decreases line.len(),
{
    if line.len() == 1 {
        assert(line.skip(1) =~= Seq::empty());
        assert(line.drop_last() =~= Seq::empty());
    } else {
        assert(line.drop_last().skip(1) =~= line.skip(1).drop_last());
        lemma_waiting_skip(line.drop_last());
    }
}

proof fn lemma_joined_by(line: Line, job: SyncJob)
    requires
        in_order(line),
    ensures
        in_order(joined_by(line, job)),
        waiting(joined_by(line, job)) == waiting(line) + 1,
{
    let tenant = job.ctx.subject_tenant_id;
    let after = joined_by(line, job);
    if waits(line, tenant) {
        let place = choose|place: int| stands_at(line, tenant, place);
        lemma_waiting_update(line, place, (tenant, line[place].1.push(job)));
        assert forall|i: int, k: int|
            0 <= i < after.len() && 0 <= k < after[i].1.len() implies (
        #[trigger] after[i].1[k]).ctx.subject_tenant_id == after[i].0 by {
            if i != place || k < line[place].1.len() {
                assert(after[i].1[k] == line[i].1[k]);
            }
        }
    } else {
        assert(after.drop_last() =~= line);
        assert forall|i: int, j: int| 0 <= i < j < after.len() implies (#[trigger] after[i]).0 != (
        #[trigger] after[j]).0 by {
            assert(!stands_at(line, tenant, i));
        }
        assert forall|i: int, k: int|
            0 <= i < after.len() && 0 <= k < after[i].1.len() implies (
        #[trigger] after[i].1[k]).ctx.subject_tenant_id == after[i].0 by {
            if i < line.len() {
                assert(after[i].1[k] == line[i].1[k]);
            }
        }
    }
}

proof fn lemma_after_turn(line: Line)
    requires
        in_order(line),
        line.len() > 0,
    ensures
        in_order(after_turn(line)),
        waiting(line) == waiting(after_turn(line)) + 1,
{
    lemma_waiting_skip(line);
    let after = after_turn(line);
    let (tenant, jobs) = line[0];
    if jobs.len() > 1 {
        assert(after.drop_last() =~= line.skip(1));
    }
    assert forall|i: int, k: int| 0 <= i < after.len() && 0 <= k < after[i].1.len() implies (
    #[trigger] after[i].1[k]).ctx.subject_tenant_id == after[i].0 by {
        if i < line.len() - 1 {
            assert(after[i].1[k] == line[i + 1].1[k]);
        } else {
            assert(after[i].1[k] == line[0].1[k + 1]);
        }
    }
}

// ---------------------------------------------------------------------------
// Laws
// ---------------------------------------------------------------------------

proof fn lemma_jobs_of(line: Line, tenant: u128, place: int)
    requires
        in_order(line),
        stands_at(line, tenant, place),
    ensures
        jobs_of(line, tenant) == line[place].1,
{
    let chosen = choose|at: int| stands_at(line, tenant, at);
    assert(stands_at(line, tenant, chosen));
    assert(chosen == place);
}

/// A job that joins the line stands last among its tenant's jobs, and the jobs
/// of every other tenant stay as they were.
pub proof fn joining_is_last_among_the_tenants_jobs(line: Line, job: SyncJob, tenant: u128)
    requires
        in_order(line),
    ensures
        jobs_of(joined_by(line, job), tenant) == if tenant == job.ctx.subject_tenant_id {
            jobs_of(line, tenant).push(job)
        } else {
            jobs_of(line, tenant)
        },
{
    lemma_joined_by(line, job);
    let after = joined_by(line, job);
    let joining = job.ctx.subject_tenant_id;
    if waits(line, joining) {
        let place = choose|place: int| stands_at(line, joining, place);
        if tenant == joining {
            assert(stands_at(after, tenant, place));
            lemma_jobs_of(after, tenant, place);
            lemma_jobs_of(line, tenant, place);
        } else if waits(line, tenant) {
            let other = choose|at: int| stands_at(line, tenant, at);
            assert(stands_at(after, tenant, other));
            lemma_jobs_of(after, tenant, other);
        } else {
            assert forall|at: int| !stands_at(after, tenant, at) by {
                assert(!stands_at(line, tenant, at));
            }
        }
    } else {
        if tenant == joining {
            assert(stands_at(after, tenant, line.len() as int));
            lemma_jobs_of(after, tenant, line.len() as int);
            assert(Seq::<SyncJob>::empty().push(job) =~= seq![job]);
        } else if waits(line, tenant) {
            let other = choose|at: int| stands_at(line, tenant, at);
            assert(stands_at(after, tenant, other));
            lemma_jobs_of(after, tenant, other);
        } else {
            assert forall|at: int| !stands_at(after, tenant, at) by {
                assert(!stands_at(line, tenant, at));
            }
        }
    }
}

/// A turn takes the oldest job of the tenant in front, and the jobs of every
/// other tenant stay as they were: within a tenant, first in is first out.
pub proof fn turn_takes_the_oldest_job_of_one_tenant(line: Line, tenant: u128)
    requires
        in_order(line),
        line.len() > 0,
    ensures
        jobs_of(after_turn(line), tenant) == if tenant == line[0].0 {
            jobs_of(line, tenant).skip(1)
        } else {
            jobs_of(line, tenant)
        },
        jobs_of(line, line[0].0)[0] == line[0].1[0],
{
    lemma_after_turn(line);
    let after = after_turn(line);
    assert(stands_at(line, line[0].0, 0));
    lemma_jobs_of(line, line[0].0, 0);
    if tenant == line[0].0 {
        if line[0].1.len() > 1 {
            assert(stands_at(after, tenant, line.len() - 1));
            lemma_jobs_of(after, tenant, line.len() - 1);
        } else {
            assert forall|at: int| !stands_at(after, tenant, at) by {
                if stands_at(after, tenant, at) {
                    assert(after[at] == line[at + 1]);
                }
            }
            assert(line[0].1.skip(1) =~= Seq::<SyncJob>::empty());
        }
    } else if waits(line, tenant) {
        let place = choose|at: int| stands_at(line, tenant, at);
        assert(after[place - 1] == line[place]);
        assert(stands_at(after, tenant, place - 1));
        lemma_jobs_of(after, tenant, place - 1);
    } else {
        assert forall|at: int| !stands_at(after, tenant, at) by {
            if stands_at(after, tenant, at) {
                if at < line.len() - 1 {
                    assert(stands_at(line, tenant, at + 1));
                }
            }
        }
    }
}

/// Each turn moves every waiting tenant but the first one place up, and no job
/// that joins moves it back: a tenant waits for no more turns than there are
/// tenants in front of it, however many jobs they have.
pub proof fn waiting_tenants_move_up(line: Line, tenant: u128, place: int, job: SyncJob)
    requires
        in_order(line),
        stands_at(line, tenant, place),
        place > 0,
    ensures
        stands_at(after_turn(line), tenant, place - 1),
        stands_at(joined_by(line, job), tenant, place),
{
    assert(after_turn(line)[place - 1] == line[place]);
}

/// A tenant is served after as many turns as there are tenants in front of it.
pub proof fn every_tenant_gets_its_turn(line: Line, tenant: u128, place: int)
    requires
        in_order(line),
        stands_at(line, tenant, place),
    ensures
        stands_at(after_turns(line, place as nat), tenant, 0),
        after_turns(line, place as nat)[0].1 == line[place].1,
    decreases place,
{
    if place > 0 {
        lemma_after_turn(line);
        assert(after_turn(line)[place - 1] == line[place]);
        every_tenant_gets_its_turn(after_turn(line), tenant, place - 1);
    }
}

/// A job that joins adds one to the jobs waiting, and keeps the line in order.
pub proof fn joining_adds_one_job(line: Line, job: SyncJob)
    requires
        in_order(line),
    ensures
        in_order(joined_by(line, job)),
        waiting(joined_by(line, job)) == waiting(line) + 1,
{
    lemma_joined_by(line, job);
}

/// A turn takes one from the jobs waiting, and keeps the line in order.
pub proof fn turn_keeps_order(line: Line)
    requires
        in_order(line),
        line.len() > 0,
    ensures
        in_order(after_turn(line)),
        waiting(line) == waiting(after_turn(line)) + 1,
{
    lemma_after_turn(line);
}

/// No job waits exactly when nobody stands in line.
pub proof fn line_is_empty_without_jobs(line: Line)
    requires
        in_order(line),
    ensures
        waiting(line) == 0 <==> line.len() == 0,
{
    if line.len() > 0 {
        assert(line.last() == line[line.len() - 1]);
    }
}

} // verus!
