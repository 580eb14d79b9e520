//! The probe worker pool.
//!
//! A fixed number of workers drain a shared queue of candidates. Each worker,
//! for one candidate at a time, leases a port, starts the proxy program on it,
//! measures the latency through it, stops the program, and publishes the
//! candidate if a latency was measured. The pool decides; its driver performs
//! the work that each [`Action`] names and reports back with an [`Event`].
//! Calls of [`ProbePool::step`] are the only access to the shared queue and
//! result list, so a driver that serialises them pops and appends atomically.
//!
//! [`run`] is a driver for one thread: it lets the workers take turns and
//! does the work through four functions of the caller. What it returns is
//! accounted for candidate by candidate: a book with one [`Entry`] for each
//! says what was reported for it and what became of it, and stays in order
//! through every step.

use vstd::prelude::*;
use crate::vlink::{VLink, UNREACHABLE};

verus! {

/// Where a worker stands with its current candidate.
#[derive(Debug, Clone, Copy, PartialEq, Eq, Structural)]
pub enum Phase {
    /// Not yet woken; holds no candidate.
    Idle,
    /// Holds a candidate and waits for a port.
    AwaitingPort,
    /// Holds a port and waits for the proxy program to come up on it.
    Starting,
    /// The proxy program runs; the latency is being measured.
    Probing,
    /// The measurement is over; the proxy program is being stopped.
    Stopping,
    /// The queue was empty when the worker asked for more; it holds nothing.
    Done,
}

/// What the driver reports to the pool.
#[derive(Debug, Clone, Copy, PartialEq, Eq, Structural)]
pub enum Event {
    /// The worker begins.
    Wake,
    /// The port allocator handed out this port.
    PortLeased(u16),
    /// The proxy program reported that it is ready.
    StartSucceeded,
    /// The proxy program could not be launched or never became ready.
    StartFailed,
    /// The prober finished with this latency; a negative number means unreachable.
    Probed(i32),
    /// The proxy program was torn down (whether or not teardown reported an error).
    Stopped,
}

/// What the pool asks the driver to do next for a worker.
#[derive(Debug, Clone, Copy, PartialEq, Eq, Structural)]
pub enum Action {
    /// Lease a free port and report it with [`Event::PortLeased`].
    AcquirePort,
    /// Start the proxy program for the worker's candidate, listening on `port`.
    Start { port: u16 },
    /// Measure the latency through `port` with `samples` samples.
    Probe { port: u16, samples: i32 },
    /// Stop the proxy program that was started for this worker.
    Stop,
    /// Nothing is left to do: the worker ends.
    Exit,
}

/// One worker of the pool.
#[derive(Debug)]
pub struct Worker {
    /// Where the worker stands.
    pub phase: Phase,
    /// Position of the current candidate in the list the pool was made from.
    pub slot: usize,
    /// The port leased for the current candidate.
    pub port: u16,
    /// The latency measured for the current candidate.
    pub latency: i32,
    /// The current candidate.
    pub candidate: Option<VLink>,
}

/// Counters of what has happened in a pool so far.
#[derive(Debug, Clone, Copy, PartialEq, Eq, Structural)]
pub struct PoolStats {
    /// How many candidates the pool was made from.
    pub candidates: usize,
    /// How many workers the pool has.
    pub workers: usize,
    /// How many times the proxy program came up.
    pub started: usize,
    /// How many times the proxy program was stopped.
    pub stopped: usize,
    /// How many times the proxy program failed to come up.
    pub start_failures: usize,
    /// How many probes measured a latency.
    pub probe_successes: usize,
    /// How many probes found the candidate unreachable.
    pub probe_failures: usize,
}

/// What contracts see of [`ProbePool`].
pub struct PoolView {
    /// The candidates the pool was made from, in the order given.
    pub origin: Seq<VLink>,
    /// The candidates not yet handed to a worker.
    pub queue: Seq<VLink>,
    /// The candidates published so far, each with its measured latency.
    pub results: Seq<VLink>,
    /// For each result, the position in `origin` of the candidate it came from.
    pub sources: Seq<int>,
    /// The workers.
    pub workers: Seq<Worker>,
    /// The number of samples asked of every probe.
    pub samples: i32,
    /// The counters.
    pub stats: PoolStats,
}

/// A quantity that is summed over the workers.
pub enum Tally {
    /// Steps a worker still owes for its current candidate.
    Effort,
    /// 1 for a worker whose candidate has not reached the outcome of its start.
    Unstarted,
    /// 1 for a worker whose proxy program is up.
    Running,
    /// 1 for a worker whose probe is under way.
    Probing,
    /// 1 for a worker that will publish its candidate once the program is stopped.
    Publishing,
}

impl Phase {
    /// Whether a worker in this phase holds a candidate.
    pub open spec fn busy(self) -> bool {
        self == Phase::AwaitingPort || self == Phase::Starting || self == Phase::Probing
            || self == Phase::Stopping
    }

    /// Whether a worker in this phase holds a port lease.
    pub open spec fn holds_port(self) -> bool {
        self == Phase::Starting || self == Phase::Probing || self == Phase::Stopping
    }

    /// Steps a worker in this phase still owes before it asks for another candidate.
    pub open spec fn effort(self) -> nat {
        match self {
            Phase::Idle => 1,
            Phase::AwaitingPort => 5,
            Phase::Starting => 4,
            Phase::Probing => 3,
            Phase::Stopping => 2,
            Phase::Done => 0,
        }
    }

    /// Whether `event` is the report that a worker in this phase waits for.
    pub open spec fn expects(self, event: Event) -> bool {
        match self {
            Phase::Idle => true,
            Phase::AwaitingPort => event is PortLeased,
            Phase::Starting => event is StartSucceeded || event is StartFailed,
            Phase::Probing => event is Probed,
            Phase::Stopping => event is Stopped,
            Phase::Done => false,
        }
    }
}

impl Worker {
    /// A worker that holds nothing, in the given phase.
    pub open spec fn resting(phase: Phase) -> Worker {
        Worker { phase, slot: 0, port: 0, latency: UNREACHABLE, candidate: None }
    }

    /// What the driver is waiting to hear about, for a worker in this state.
    pub open spec fn pending(self, samples: i32) -> Action {
        match self.phase {
            Phase::Idle => Action::AcquirePort,
            Phase::AwaitingPort => Action::AcquirePort,
            Phase::Starting => Action::Start { port: self.port },
            Phase::Probing => Action::Probe { port: self.port, samples },
            Phase::Stopping => Action::Stop,
            Phase::Done => Action::Exit,
        }
    }
}

/// The share of one worker in a tally.
pub open spec fn score(which: Tally, w: Worker) -> nat {
    match which {
        Tally::Effort => w.phase.effort(),
        Tally::Unstarted => if w.phase == Phase::AwaitingPort || w.phase == Phase::Starting {
            1
        } else {
            0
        },
        Tally::Running => if w.phase == Phase::Probing || w.phase == Phase::Stopping {
            1
        } else {
            0
        },
        Tally::Probing => if w.phase == Phase::Probing {
            1
        } else {
            0
        },
        Tally::Publishing => if w.phase == Phase::Stopping && w.latency >= 0 {
            1
        } else {
            0
        },
    }
}

/// The sum of a tally over the workers.
pub open spec fn total(workers: Seq<Worker>, which: Tally) -> nat
    decreases workers.len(),
{
    if workers.len() == 0 {
        0
    } else {
        total(workers.drop_last(), which) + score(which, workers.last())
    }
}

/// How many workers a pool gets: as many as requested but not more than there
/// are candidates, and one where no number was requested.
pub open spec fn clamped_workers(requested: Option<usize>, candidates: nat) -> nat {
    match requested {
        Some(c) => if candidates < c {
            candidates
        } else {
            c as nat
        },
        None => 1,
    }
}

/// `candidate` with `latency` recorded in it.
pub open spec fn annotated(candidate: VLink, latency: i32) -> VLink {
    VLink { latency, ..candidate }
}

impl PoolView {
    /// The pool before its first step.
    pub open spec fn initial(candidates: Seq<VLink>, requested: Option<usize>, samples: i32) -> PoolView {
        let n = clamped_workers(requested, candidates.len());
        PoolView {
            origin: candidates,
            queue: candidates,
            results: Seq::empty(),
            sources: Seq::empty(),
            workers: Seq::new(n, |i: int| Worker::resting(Phase::Idle)),
            samples,
            stats: PoolStats {
                candidates: candidates.len() as usize,
                workers: n as usize,
                started: 0,
                stopped: 0,
                start_failures: 0,
                probe_successes: 0,
                probe_failures: 0,
            },
        }
    }

    /// The pool with worker `w` holding nothing.
    pub open spec fn released(self, w: int) -> PoolView {
        PoolView { workers: self.workers.update(w, Worker::resting(Phase::Idle)), ..self }
    }

    /// Worker `w` lets go of what it holds and asks for the next candidate:
    /// it takes the last one of the queue, or ends if the queue is empty.
    pub open spec fn fetch(self, w: int) -> (PoolView, Action) {
        if self.queue.len() == 0 {
            (
                PoolView { workers: self.workers.update(w, Worker::resting(Phase::Done)), ..self },
                Action::Exit,
            )
        } else {
            let taken = Worker {
                phase: Phase::AwaitingPort,
                slot: (self.queue.len() - 1) as usize,
                port: 0,
                latency: UNREACHABLE,
                candidate: Some(self.queue.last()),
            };
            (
                PoolView {
                    queue: self.queue.drop_last(),
                    workers: self.workers.update(w, taken),
                    ..self
                },
                Action::AcquirePort,
            )
        }
    }

    /// The pool after `event` was reported for worker `w`, and what the driver
    /// is to do next for that worker.
    ///
    /// A report that the worker does not wait for changes nothing and is
    /// answered with the action that is still outstanding.
    pub open spec fn next(self, w: int, event: Event) -> (PoolView, Action) {
        if !(0 <= w < self.workers.len()) {
            (self, Action::Exit)
        } else {
            let me = self.workers[w];
            match (me.phase, event) {
                (Phase::Idle, _) => self.fetch(w),
                (Phase::AwaitingPort, Event::PortLeased(port)) => (
                    PoolView {
                        workers: self.workers.update(w, Worker { phase: Phase::Starting, port, ..me }),
                        ..self
                    },
                    Action::Start { port },
                ),
                (Phase::Starting, Event::StartSucceeded) => (
                    PoolView {
                        workers: self.workers.update(w, Worker { phase: Phase::Probing, ..me }),
                        stats: PoolStats { started: (self.stats.started + 1) as usize, ..self.stats },
                        ..self
                    },
                    Action::Probe { port: me.port, samples: self.samples },
                ),
                (Phase::Starting, Event::StartFailed) => PoolView {
                    stats: PoolStats {
                        start_failures: (self.stats.start_failures + 1) as usize,
                        ..self.stats
                    },
                    ..self
                }.fetch(w),
                (Phase::Probing, Event::Probed(latency)) => if latency >= 0 {
                    (
                        PoolView {
                            workers: self.workers.update(
                                w,
                                Worker { phase: Phase::Stopping, latency, ..me },
                            ),
                            stats: PoolStats {
                                probe_successes: (self.stats.probe_successes + 1) as usize,
                                ..self.stats
                            },
                            ..self
                        },
                        Action::Stop,
                    )
                } else {
                    (
                        PoolView {
                            workers: self.workers.update(
                                w,
                                Worker { phase: Phase::Stopping, latency: UNREACHABLE, ..me },
                            ),
                            stats: PoolStats {
                                probe_failures: (self.stats.probe_failures + 1) as usize,
                                ..self.stats
                            },
                            ..self
                        },
                        Action::Stop,
                    )
                },
                (Phase::Stopping, Event::Stopped) => {
                    let stats = PoolStats { stopped: (self.stats.stopped + 1) as usize, ..self.stats };
                    if me.latency >= 0 {
                        PoolView {
                            results: self.results.push(annotated(me.candidate->0, me.latency)),
                            sources: self.sources.push(me.slot as int),
                            stats,
                            ..self
                        }.fetch(w)
                    } else {
                        PoolView { stats, ..self }.fetch(w)
                    }
                },
                _ => (self, me.pending(self.samples)),
            }
        }
    }

    /// Whether every worker has ended.
    pub open spec fn finished(self) -> bool {
        forall|w: int| 0 <= w < self.workers.len() ==> (#[trigger] self.workers[w]).phase == Phase::Done
    }

    /// An upper bound on the number of expected reports until every worker has ended.
    pub open spec fn remaining(self) -> nat {
        5 * self.queue.len() + total(self.workers, Tally::Effort)
    }

    /// Whether some worker holds a lease on `port`.
    pub open spec fn leased(self, port: u16) -> bool {
        exists|w: int|
            0 <= w < self.workers.len() && (#[trigger] self.workers[w]).phase.holds_port()
                && self.workers[w].port == port
    }

    /// Whether no two workers hold a lease on the same port.
    pub open spec fn leases_distinct(self) -> bool {
        forall|a: int, b: int|
            0 <= a < b < self.workers.len() && (#[trigger] self.workers[a]).phase.holds_port() && (
            #[trigger] self.workers[b]).phase.holds_port() ==> self.workers[a].port
                != self.workers[b].port
    }

    /// The queue is what is left of the origin after taking candidates off its end.
    pub open spec fn queue_is_prefix(self) -> bool {
        &&& self.queue.len() <= self.origin.len()
        &&& self.queue == self.origin.take(self.queue.len() as int)
    }

    /// Every result is a candidate of the origin that has left the queue, with
    /// a latency that was measured, and no candidate was published twice.
    pub open spec fn results_from_origin(self) -> bool {
        &&& self.sources.len() == self.results.len()
        &&& forall|k: int|
            0 <= k < self.results.len() ==> {
                &&& self.queue.len() <= #[trigger] self.sources[k] < self.origin.len()
                &&& self.results[k].latency >= 0
                &&& self.results[k] == annotated(self.origin[self.sources[k]], self.results[k].latency)
            }
        &&& forall|j: int, k: int|
            0 <= j < k < self.results.len() ==> #[trigger] self.sources[j] != #[trigger] self.sources[k]
    }

    /// Every busy worker holds the candidate of its slot, every other worker
    /// holds none, and a worker has ended only if the queue is empty.
    pub open spec fn workers_consistent(self) -> bool {
        forall|w: int|
            0 <= w < self.workers.len() ==> {
                let me = #[trigger] self.workers[w];
                &&& me.phase.busy() ==> {
                    &&& self.queue.len() <= me.slot < self.origin.len()
                    &&& me.candidate == Some(self.origin[me.slot as int])
                }
                &&& !me.phase.busy() ==> me.candidate is None
                &&& me.phase == Phase::Done ==> self.queue.len() == 0
                &&& me.latency >= 0 || me.latency == UNREACHABLE
            }
    }

    /// No candidate is held by two workers, or held by a worker and published.
    pub open spec fn claims_disjoint(self) -> bool {
        &&& forall|a: int, b: int|
            0 <= a < b < self.workers.len() && (#[trigger] self.workers[a]).phase.busy() && (
            #[trigger] self.workers[b]).phase.busy() ==> self.workers[a].slot != self.workers[b].slot
        &&& forall|w: int, k: int|
            0 <= w < self.workers.len() && 0 <= k < self.sources.len() && (
            #[trigger] self.workers[w]).phase.busy() ==> self.workers[w].slot != #[trigger] self.sources[k]
    }

    /// The counters add up with what the workers hold.
    pub open spec fn ledger_balanced(self) -> bool {
        &&& self.stats.candidates == self.origin.len()
        &&& self.stats.workers == self.workers.len()
        &&& self.stats.started + self.stats.start_failures + total(self.workers, Tally::Unstarted)
            == self.origin.len() - self.queue.len()
        &&& self.stats.probe_successes + self.stats.probe_failures + total(
            self.workers,
            Tally::Probing,
        ) == self.stats.started
        &&& self.stats.stopped + total(self.workers, Tally::Running) == self.stats.started
        &&& self.results.len() + total(self.workers, Tally::Publishing) == self.stats.probe_successes
    }

    /// What holds of every pool that was made by [`ProbePool::new`] and moved
    /// on by [`ProbePool::step`].
    pub open spec fn inv(self) -> bool {
        &&& self.queue_is_prefix()
        &&& self.results_from_origin()
        &&& self.workers_consistent()
        &&& self.claims_disjoint()
        &&& self.ledger_balanced()
    }
}

/// Replacing one worker changes a tally by the difference of the two scores.
pub proof fn lemma_total_update(workers: Seq<Worker>, i: int, w: Worker, which: Tally)
    requires
        0 <= i < workers.len(),
    ensures
        total(workers.update(i, w), which) + score(which, workers[i]) == total(workers, which)
            + score(which, w),
    decreases workers.len(),
{
    let after = workers.update(i, w);
    if i == workers.len() - 1 {
        assert(after.drop_last() =~= workers.drop_last());
    } else {
        assert(after.drop_last() =~= workers.drop_last().update(i, w));
        lemma_total_update(workers.drop_last(), i, w, which);
    }
}

/// A tally is at least the share of any one worker.
pub proof fn lemma_total_covers(workers: Seq<Worker>, i: int, which: Tally)
    requires
        0 <= i < workers.len(),
    ensures
        total(workers, which) >= score(which, workers[i]),
    decreases workers.len(),
{
    if i < workers.len() - 1 {
        lemma_total_covers(workers.drop_last(), i, which);
    }
}

/// A tally is zero exactly when every worker's share is zero.
pub proof fn lemma_total_zero(workers: Seq<Worker>, which: Tally)
    ensures
        total(workers, which) == 0 <==> forall|i: int|
            0 <= i < workers.len() ==> score(which, #[trigger] workers[i]) == 0,
    decreases workers.len(),
{
    if workers.len() > 0 {
        lemma_total_zero(workers.drop_last(), which);
        if total(workers, which) == 0 {
            assert forall|i: int| 0 <= i < workers.len() implies score(
                which,
                #[trigger] workers[i],
            ) == 0 by {
                if i < workers.len() - 1 {
                    assert(workers.drop_last()[i] == workers[i]);
                }
            }
        } else if forall|i: int| 0 <= i < workers.len() ==> score(which, #[trigger] workers[i]) == 0 {
            assert forall|i: int| 0 <= i < workers.drop_last().len() implies score(
                which,
                #[trigger] workers.drop_last()[i],
            ) == 0 by {
                assert(workers.drop_last()[i] == workers[i]);
            }
            assert(score(which, workers.last()) == 0);
        }
    }
}

/// The four bookkeeping tallies are unchanged when a worker is replaced by one
/// with the same scores.
proof fn lemma_tallies_follow(workers: Seq<Worker>, i: int, w: Worker)
    requires
        0 <= i < workers.len(),
    ensures
        total(workers.update(i, w), Tally::Unstarted) + score(Tally::Unstarted, workers[i]) == total(
            workers,
            Tally::Unstarted,
        ) + score(Tally::Unstarted, w),
        total(workers.update(i, w), Tally::Running) + score(Tally::Running, workers[i]) == total(
            workers,
            Tally::Running,
        ) + score(Tally::Running, w),
        total(workers.update(i, w), Tally::Probing) + score(Tally::Probing, workers[i]) == total(
            workers,
            Tally::Probing,
        ) + score(Tally::Probing, w),
        total(workers.update(i, w), Tally::Publishing) + score(Tally::Publishing, workers[i])
            == total(workers, Tally::Publishing) + score(Tally::Publishing, w),
        total(workers, Tally::Unstarted) >= score(Tally::Unstarted, workers[i]),
        total(workers, Tally::Running) >= score(Tally::Running, workers[i]),
        total(workers, Tally::Probing) >= score(Tally::Probing, workers[i]),
        total(workers, Tally::Publishing) >= score(Tally::Publishing, workers[i]),
{
    lemma_total_update(workers, i, w, Tally::Unstarted);
    lemma_total_update(workers, i, w, Tally::Running);
    lemma_total_update(workers, i, w, Tally::Probing);
    lemma_total_update(workers, i, w, Tally::Publishing);
    lemma_total_covers(workers, i, Tally::Unstarted);
    lemma_total_covers(workers, i, Tally::Running);
    lemma_total_covers(workers, i, Tally::Probing);
    lemma_total_covers(workers, i, Tally::Publishing);
}

/// A worker that holds nothing keeps the pool sound when it asks for the next candidate.
proof fn lemma_fetch_keeps_inv(s: PoolView, w: int)
    requires
        s.inv(),
        0 <= w < s.workers.len(),
        s.workers[w].phase == Phase::Idle,
    ensures
        s.fetch(w).0.inv(),
{
    let t = s.fetch(w).0;
    lemma_tallies_follow(s.workers, w, t.workers[w]);
    if s.queue.len() == 0 {
        assert(t.workers_consistent());
        assert(t.claims_disjoint());
        assert(t.results_from_origin());
    } else {
        let slot = s.queue.len() - 1;
        assert(t.queue =~= s.origin.take(slot));
        assert(s.queue.last() == s.origin[slot]);
        assert forall|v: int| 0 <= v < t.workers.len() implies {
            let me = #[trigger] t.workers[v];
            &&& me.phase.busy() ==> {
                &&& t.queue.len() <= me.slot < t.origin.len()
                &&& me.candidate == Some(t.origin[me.slot as int])
            }
            &&& !me.phase.busy() ==> me.candidate is None
            &&& me.phase == Phase::Done ==> t.queue.len() == 0
            &&& me.latency >= 0 || me.latency == UNREACHABLE
        } by {
            if v != w {
                assert(t.workers[v] == s.workers[v]);
            }
        }
        assert(t.claims_disjoint()) by {
            assert forall|a: int, b: int|
                0 <= a < b < t.workers.len() && (#[trigger] t.workers[a]).phase.busy() && (
                #[trigger] t.workers[b]).phase.busy() implies t.workers[a].slot
                != t.workers[b].slot by {
                if a != w {
                    assert(t.workers[a] == s.workers[a]);
                }
                if b != w {
                    assert(t.workers[b] == s.workers[b]);
                }
            }
            assert forall|v: int, k: int|
                0 <= v < t.workers.len() && 0 <= k < t.sources.len() && (
                #[trigger] t.workers[v]).phase.busy() implies t.workers[v].slot
                != #[trigger] t.sources[k] by {
                if v != w {
                    assert(t.workers[v] == s.workers[v]);
                }
            }
        }
        assert(t.results_from_origin());
    }
}

/// Letting go of a worker's candidate before it fetches changes nothing about what it fetches.
proof fn lemma_fetch_after_release(s: PoolView, w: int)
    requires
        0 <= w < s.workers.len(),
    ensures
        s.released(w).fetch(w) == s.fetch(w),
{
    let mid = s.released(w);
    assert(mid.workers.update(w, Worker::resting(Phase::Done)) =~= s.workers.update(
        w,
        Worker::resting(Phase::Done),
    ));
    if s.queue.len() > 0 {
        let taken = Worker {
            phase: Phase::AwaitingPort,
            slot: (s.queue.len() - 1) as usize,
            port: 0,
            latency: UNREACHABLE,
            candidate: Some(s.queue.last()),
        };
        assert(mid.workers.update(w, taken) =~= s.workers.update(w, taken));
    }
}

/// Every step keeps the pool sound.
pub proof fn lemma_next_keeps_inv(s: PoolView, w: int, event: Event)
    requires
        s.inv(),
    ensures
        s.next(w, event).0.inv(),
{
    if 0 <= w < s.workers.len() {
        let me = s.workers[w];
        let t = s.next(w, event).0;
        match (me.phase, event) {
            (Phase::Idle, _) => {
                lemma_fetch_keeps_inv(s, w);
            },
            (Phase::AwaitingPort, Event::PortLeased(port)) => {
                lemma_tallies_follow(s.workers, w, t.workers[w]);
                lemma_step_in_place(s, t, w);
            },
            (Phase::Starting, Event::StartSucceeded) => {
                lemma_tallies_follow(s.workers, w, t.workers[w]);
                lemma_step_in_place(s, t, w);
            },
            (Phase::Starting, Event::StartFailed) => {
                let failed = PoolView {
                    stats: PoolStats {
                        start_failures: (s.stats.start_failures + 1) as usize,
                        ..s.stats
                    },
                    ..s
                };
                let mid = failed.released(w);
                lemma_tallies_follow(s.workers, w, mid.workers[w]);
                lemma_release(s, mid, w);
                lemma_fetch_after_release(failed, w);
                lemma_fetch_keeps_inv(mid, w);
            },
            (Phase::Probing, Event::Probed(latency)) => {
                lemma_tallies_follow(s.workers, w, t.workers[w]);
                lemma_step_in_place(s, t, w);
            },
            (Phase::Stopping, Event::Stopped) => {
                let stats = PoolStats { stopped: (s.stats.stopped + 1) as usize, ..s.stats };
                let published = if me.latency >= 0 {
                    PoolView {
                        results: s.results.push(annotated(me.candidate->0, me.latency)),
                        sources: s.sources.push(me.slot as int),
                        stats,
                        ..s
                    }
                } else {
                    PoolView { stats, ..s }
                };
                let mid = published.released(w);
                lemma_tallies_follow(s.workers, w, mid.workers[w]);
                lemma_release(s, mid, w);
                lemma_fetch_after_release(published, w);
                lemma_fetch_keeps_inv(mid, w);
            },
            _ => {},
        }
    }
}

/// A step that leaves a worker with its candidate and slot keeps what is said
/// of queue, results, workers and claims.
proof fn lemma_step_in_place(s: PoolView, t: PoolView, w: int)
    requires
        s.inv(),
        0 <= w < s.workers.len(),
        s.workers[w].phase.busy(),
        t.origin == s.origin,
        t.queue == s.queue,
        t.results == s.results,
        t.sources == s.sources,
        t.workers.len() == s.workers.len(),
        forall|v: int| 0 <= v < s.workers.len() && v != w ==> t.workers[v] == s.workers[v],
        t.workers[w].phase.busy(),
        t.workers[w].slot == s.workers[w].slot,
        t.workers[w].candidate == s.workers[w].candidate,
        t.workers[w].latency >= 0 || t.workers[w].latency == UNREACHABLE,
    ensures
        t.queue_is_prefix(),
        t.results_from_origin(),
        t.workers_consistent(),
        t.claims_disjoint(),
{
    assert forall|v: int| 0 <= v < t.workers.len() implies {
        let me = #[trigger] t.workers[v];
        &&& me.phase.busy() ==> {
            &&& t.queue.len() <= me.slot < t.origin.len()
            &&& me.candidate == Some(t.origin[me.slot as int])
        }
        &&& !me.phase.busy() ==> me.candidate is None
        &&& me.phase == Phase::Done ==> t.queue.len() == 0
        &&& me.latency >= 0 || me.latency == UNREACHABLE
    } by {
        if v != w {
            assert(t.workers[v] == s.workers[v]);
        } else {
            assert(s.workers[w].phase.busy());
        }
    }
    assert forall|a: int, b: int|
        0 <= a < b < t.workers.len() && (#[trigger] t.workers[a]).phase.busy() && (
        #[trigger] t.workers[b]).phase.busy() implies t.workers[a].slot != t.workers[b].slot by {
        assert(s.workers[a].phase.busy());
        assert(s.workers[b].phase.busy());
    }
    assert forall|v: int, k: int|
        0 <= v < t.workers.len() && 0 <= k < t.sources.len() && (
        #[trigger] t.workers[v]).phase.busy() implies t.workers[v].slot != #[trigger] t.sources[k] by {
        assert(s.workers[v].phase.busy());
    }
}

/// A step that takes a worker's candidate away, and publishes it or not, keeps
/// what is said of queue, results, workers and claims.
proof fn lemma_release(s: PoolView, t: PoolView, w: int)
    requires
        s.inv(),
        0 <= w < s.workers.len(),
        s.workers[w].phase.busy(),
        t.origin == s.origin,
        t.queue == s.queue,
        t.workers == s.workers.update(w, Worker::resting(Phase::Idle)),
        (t.results == s.results && t.sources == s.sources) || (s.workers[w].latency >= 0
            && t.results == s.results.push(
            annotated(s.workers[w].candidate->0, s.workers[w].latency),
        ) && t.sources == s.sources.push(s.workers[w].slot as int)),
    ensures
        t.queue_is_prefix(),
        t.results_from_origin(),
        t.workers_consistent(),
        t.claims_disjoint(),
{
    let me = s.workers[w];
    assert forall|v: int| 0 <= v < t.workers.len() implies {
        let it = #[trigger] t.workers[v];
        &&& it.phase.busy() ==> {
            &&& t.queue.len() <= it.slot < t.origin.len()
            &&& it.candidate == Some(t.origin[it.slot as int])
        }
        &&& !it.phase.busy() ==> it.candidate is None
        &&& it.phase == Phase::Done ==> t.queue.len() == 0
        &&& it.latency >= 0 || it.latency == UNREACHABLE
    } by {
        if v != w {
            assert(t.workers[v] == s.workers[v]);
        }
    }
    assert forall|a: int, b: int|
        0 <= a < b < t.workers.len() && (#[trigger] t.workers[a]).phase.busy() && (
        #[trigger] t.workers[b]).phase.busy() implies t.workers[a].slot != t.workers[b].slot by {
        assert(t.workers[a] == s.workers[a]);
        assert(t.workers[b] == s.workers[b]);
    }
    assert forall|v: int, k: int|
        0 <= v < t.workers.len() && 0 <= k < t.sources.len() && (
        #[trigger] t.workers[v]).phase.busy() implies t.workers[v].slot != #[trigger] t.sources[k] by {
        assert(t.workers[v] == s.workers[v]);
        if k < s.sources.len() {
            assert(t.sources[k] == s.sources[k]);
        } else {
            assert(t.sources[k] == me.slot);
            if v < w {
                assert(s.workers[v].slot != s.workers[w].slot);
            } else {
                assert(s.workers[w].slot != s.workers[v].slot);
            }
        }
    }
    if t.results != s.results {
        assert forall|k: int| 0 <= k < t.results.len() implies {
            &&& t.queue.len() <= #[trigger] t.sources[k] < t.origin.len()
            &&& t.results[k].latency >= 0
            &&& t.results[k] == annotated(t.origin[t.sources[k]], t.results[k].latency)
        } by {
            if k < s.results.len() {
                assert(t.sources[k] == s.sources[k]);
                assert(t.results[k] == s.results[k]);
            }
        }
        assert forall|j: int, k: int| 0 <= j < k < t.results.len() implies #[trigger] t.sources[j]
            != #[trigger] t.sources[k] by {
            assert(t.sources[j] == s.sources[j]);
            if k < s.results.len() {
                assert(t.sources[k] == s.sources[k]);
            }
        }
    }
}

/// Every report that a worker waits for brings the pool closer to its end, and
/// every other report leaves the pool as it was. So a run in which each action
/// is eventually answered ends after at most `remaining()` answers, whatever
/// the order in which the workers take their turns.
pub proof fn law_steps_are_bounded(s: PoolView, w: int, event: Event)
    requires
        s.inv(),
    ensures
        0 <= w < s.workers.len() && s.workers[w].phase.expects(event) ==> s.next(
            w,
            event,
        ).0.remaining() < s.remaining(),
        !(0 <= w < s.workers.len() && s.workers[w].phase.expects(event)) ==> s.next(w, event).0 == s,
{
    if 0 <= w < s.workers.len() && s.workers[w].phase.expects(event) {
        let me = s.workers[w];
        let t = s.next(w, event).0;
        lemma_total_update(s.workers, w, t.workers[w], Tally::Effort);
        lemma_total_covers(s.workers, w, Tally::Effort);
        if me.phase == Phase::Starting && event is StartFailed {
            lemma_fetch_after_release(s, w);
        }
    }
}

/// A pool is at its end exactly when nothing remains to be done, and then,
/// if it has a worker at all, the queue is drained.
pub proof fn law_finished_means_drained(s: PoolView)
    requires
        s.inv(),
    ensures
        s.finished() <==> total(s.workers, Tally::Effort) == 0,
        s.finished() && s.workers.len() > 0 ==> s.queue.len() == 0 && s.remaining() == 0,
{
    lemma_total_zero(s.workers, Tally::Effort);
    if s.finished() {
        assert forall|i: int| 0 <= i < s.workers.len() implies score(
            Tally::Effort,
            #[trigger] s.workers[i],
        ) == 0 by {
            assert(s.workers[i].phase == Phase::Done);
        }
        if s.workers.len() > 0 {
            assert(s.workers[0].phase == Phase::Done);
        }
    } else {
        let v = choose|v: int| 0 <= v < s.workers.len() && s.workers[v].phase != Phase::Done;
        assert(score(Tally::Effort, s.workers[v]) != 0);
    }
}

/// Every result is one of the candidates the pool was made from, with nothing
/// changed but the latency, which is a measured one; and two results never
/// come from the same place in that list.
pub proof fn law_results_are_candidates(s: PoolView, j: int, k: int)
    requires
        s.inv(),
        0 <= j < s.results.len(),
        0 <= k < s.results.len(),
    ensures
        0 <= s.sources[k] < s.origin.len(),
        s.results[k] == annotated(s.origin[s.sources[k]], s.results[k].latency),
        s.results[k].latency >= 0,
        s.results.len() <= s.origin.len() - s.queue.len(),
        j != k ==> s.sources[j] != s.sources[k],
{
    assert(s.queue.len() <= s.sources[k] < s.origin.len());
    if j < k {
        assert(s.sources[j] != s.sources[k]);
    } else if k < j {
        assert(s.sources[k] != s.sources[j]);
    }
}

/// No candidate is handled twice: what a busy worker holds has left the
/// queue, is held by no other worker, and has not been published.
pub proof fn law_candidates_are_handled_once(s: PoolView, a: int, b: int, k: int)
    requires
        s.inv(),
        0 <= a < s.workers.len(),
        s.workers[a].phase.busy(),
    ensures
        s.queue.len() <= s.workers[a].slot < s.origin.len(),
        s.workers[a].candidate == Some(s.origin[s.workers[a].slot as int]),
        0 <= b < s.workers.len() && b != a && s.workers[b].phase.busy() ==> s.workers[b].slot
            != s.workers[a].slot,
        0 <= k < s.results.len() ==> s.sources[k] != s.workers[a].slot,
{
    if 0 <= b < s.workers.len() && b != a && s.workers[b].phase.busy() {
        if a < b {
            assert(s.workers[a].slot != s.workers[b].slot);
        } else {
            assert(s.workers[b].slot != s.workers[a].slot);
        }
    }
}

/// While no probe has measured a latency, nothing is published.
pub proof fn law_no_success_no_result(s: PoolView)
    requires
        s.inv(),
        s.stats.probe_successes == 0,
    ensures
        s.results.len() == 0,
{
}

/// The proxy program is stopped once for every time it came up: the starts
/// are the stops plus the workers whose program is up right now, and at the
/// end of the run the two counts are equal.
pub proof fn law_every_start_is_stopped(s: PoolView)
    requires
        s.inv(),
    ensures
        s.stats.started == s.stats.stopped + total(s.workers, Tally::Running),
        s.finished() ==> s.stats.started == s.stats.stopped,
{
    if s.finished() {
        lemma_total_zero(s.workers, Tally::Running);
        assert forall|i: int| 0 <= i < s.workers.len() implies score(
            Tally::Running,
            #[trigger] s.workers[i],
        ) == 0 by {
            assert(s.workers[i].phase == Phase::Done);
        }
    }
}

/// A step changes no worker but the one it is for, and what it asks of the
/// driver is always what that worker waits for afterwards.
pub proof fn law_step_is_local(s: PoolView, w: int, event: Event)
    ensures
        ({
            let (t, action) = s.next(w, event);
            &&& t.origin == s.origin
            &&& t.samples == s.samples
            &&& t.workers.len() == s.workers.len()
            &&& forall|v: int| 0 <= v < s.workers.len() && v != w ==> t.workers[v] == s.workers[v]
            &&& 0 <= w < s.workers.len() ==> action == t.workers[w].pending(t.samples)
            &&& 0 <= w < s.workers.len() ==> (t.workers[w].phase != Phase::Idle)
        }),
{
    if 0 <= w < s.workers.len() {
        if s.workers[w].phase == Phase::Starting && event is StartFailed {
            lemma_fetch_after_release(s, w);
        }
    }
}

/// The counters count reports: a start or a failed start is counted for each
/// report on a start that a starting worker makes, a stop for each report of
/// a stop that a stopping worker makes, and a successful or a failed probe
/// for each latency that a probing worker reports, by its sign. No other
/// report changes these counters.
pub proof fn law_counters_count_reports(s: PoolView, w: int, event: Event)
    requires
        s.inv(),
        0 <= w < s.workers.len(),
    ensures
        ({
            let t = s.next(w, event).0;
            let phase = s.workers[w].phase;
            &&& t.stats.started == s.stats.started + if phase == Phase::Starting
                && event is StartSucceeded {
                1int
            } else {
                0int
            }
            &&& t.stats.stopped == s.stats.stopped + if phase == Phase::Stopping
                && event is Stopped {
                1int
            } else {
                0int
            }
            &&& t.stats.probe_successes == s.stats.probe_successes + if phase == Phase::Probing && (
            event matches Event::Probed(latency) && latency >= 0) {
                1int
            } else {
                0int
            }
            &&& t.stats.start_failures == s.stats.start_failures + if phase == Phase::Starting
                && event is StartFailed {
                1int
            } else {
                0int
            }
            &&& t.stats.probe_failures == s.stats.probe_failures + if phase == Phase::Probing && (
            event matches Event::Probed(latency) && latency < 0) {
                1int
            } else {
                0int
            }
            &&& t.stats.candidates == s.stats.candidates
            &&& t.stats.workers == s.stats.workers
        }),
{
    lemma_next_keeps_inv(s, w, event);
    lemma_tallies_follow(s.workers, w, s.workers[w]);
}

/// A worker whose program is up is never given another candidate before that
/// program was stopped: from `Probing` the only way on is `Stopping`, and from
/// `Stopping` the only way on is the report that the program was stopped.
pub proof fn law_stop_follows_probe(s: PoolView, w: int, event: Event)
    requires
        s.inv(),
        0 <= w < s.workers.len(),
    ensures
        s.workers[w].phase == Phase::Probing ==> {
            let (t, action) = s.next(w, event);
            if event is Probed {
                t.workers[w].phase == Phase::Stopping && action == Action::Stop
            } else {
                t == s
            }
        },
        s.workers[w].phase == Phase::Stopping ==> {
            let (t, action) = s.next(w, event);
            if event is Stopped {
                t.stats.stopped == s.stats.stopped + 1 && !(t.workers[w].phase == Phase::Probing)
                    && !(t.workers[w].phase == Phase::Stopping)
            } else {
                t == s && action == Action::Stop
            }
        },
{
    lemma_next_keeps_inv(s, w, event);
    if s.workers[w].phase == Phase::Stopping && event is Stopped {
        lemma_total_covers(s.workers, w, Tally::Running);
    }
}

/// As long as the allocator never hands out a port that a worker still holds,
/// no two workers hold the same port.
pub proof fn law_leases_stay_distinct(s: PoolView, w: int, event: Event)
    requires
        s.leases_distinct(),
        event matches Event::PortLeased(port) ==> !s.leased(port),
    ensures
        s.next(w, event).0.leases_distinct(),
{
    if 0 <= w < s.workers.len() {
        let t = s.next(w, event).0;
        let me = s.workers[w];
        if me.phase == Phase::Starting && event is StartFailed {
            lemma_fetch_after_release(s, w);
        }
        assert forall|a: int, b: int|
            0 <= a < b < t.workers.len() && (#[trigger] t.workers[a]).phase.holds_port() && (
            #[trigger] t.workers[b]).phase.holds_port() implies t.workers[a].port
            != t.workers[b].port by {
            if a != w {
                assert(t.workers[a] == s.workers[a]);
            }
            if b != w {
                assert(t.workers[b] == s.workers[b]);
            }
            if a != w && b != w {
                assert(s.workers[a].port != s.workers[b].port);
            } else {
                let other = if a == w {
                    b
                } else {
                    a
                };
                assert(s.workers[other].phase.holds_port());
                if me.phase == Phase::AwaitingPort {
                    assert(event is PortLeased);
                    assert(!s.leased(event->PortLeased_0));
                } else {
                    assert(s.workers[w].phase.holds_port());
                    assert(t.workers[w].port == s.workers[w].port);
                    assert(s.workers[a].port != s.workers[b].port);
                }
            }
        }
    }
}

/// The worker pool: the queue of candidates, the results, and the workers.
pub struct ProbePool {
    queue: Vec<VLink>,
    results: Vec<VLink>,
    workers: Vec<Worker>,
    samples: i32,
    stats: PoolStats,
    origin: Ghost<Seq<VLink>>,
    sources: Ghost<Seq<int>>,
}

impl View for ProbePool {
    type V = PoolView;

    closed spec fn view(&self) -> PoolView {
        PoolView {
            origin: self.origin@,
            queue: self.queue@,
            results: self.results@,
            sources: self.sources@,
            workers: self.workers@,
            samples: self.samples,
            stats: self.stats,
        }
    }
}

/// How many workers a pool gets for `candidates` candidates when `requested`
/// workers were asked for.
pub fn worker_count(requested: Option<usize>, candidates: usize) -> (n: usize)
    ensures
        n == clamped_workers(requested, candidates as nat),
        requested matches Some(c) ==> n <= c && n <= candidates,
        candidates >= 1 && (requested matches Some(c) ==> c >= 1) ==> n >= 1,
{
    match requested {
        Some(c) => if candidates < c {
            candidates
        } else {
            c
        },
        None => 1,
    }
}

impl ProbePool {
    /// Whether the pool is sound; every pool that this module hands out is.
    pub open spec fn wf(&self) -> bool {
        self@.inv()
    }

    /// A pool over `candidates` with the clamped number of workers, none of
    /// them woken yet. Every probe will be asked for `samples` samples.
    pub fn new(candidates: Vec<VLink>, requested: Option<usize>, samples: i32) -> (pool: ProbePool)
        ensures
            pool.wf(),
            pool@ == PoolView::initial(candidates@, requested, samples),
    {
        let n = worker_count(requested, candidates.len());
        let mut workers: Vec<Worker> = Vec::new();
        while workers.len() < n
            invariant
                workers.len() <= n,
                forall|i: int| 0 <= i < workers.len() ==> workers[i] == Worker::resting(Phase::Idle),
            decreases n - workers.len(),
        {
            workers.push(
                Worker { phase: Phase::Idle, slot: 0, port: 0, latency: UNREACHABLE, candidate: None },
            );
        }
        let stats = PoolStats {
            candidates: candidates.len(),
            workers: n,
            started: 0,
            stopped: 0,
            start_failures: 0,
            probe_successes: 0,
            probe_failures: 0,
        };
        let pool = ProbePool {
            origin: Ghost(candidates@),
            sources: Ghost(Seq::empty()),
            queue: candidates,
            results: Vec::new(),
            workers,
            samples,
            stats,
        };
        proof {
            let s = PoolView::initial(candidates@, requested, samples);
            assert(pool@.workers =~= s.workers);
            assert(pool@.queue == pool@.origin.take(pool@.queue.len() as int));
            lemma_total_zero(s.workers, Tally::Unstarted);
            lemma_total_zero(s.workers, Tally::Running);
            lemma_total_zero(s.workers, Tally::Probing);
            lemma_total_zero(s.workers, Tally::Publishing);
        }
        pool
    }

    /// The counters: how many candidates and workers there are, and what has
    /// happened so far.
    pub fn stats(&self) -> (r: PoolStats)
        ensures
            r == self@.stats,
    {
        self.stats
    }

    /// The number of workers.
    pub fn worker_count(&self) -> (n: usize)
        ensures
            n == self@.workers.len(),
    {
        self.workers.len()
    }

    /// The number of candidates that no worker has taken yet.
    pub fn queued(&self) -> (n: usize)
        ensures
            n == self@.queue.len(),
    {
        self.queue.len()
    }

    /// Where worker `worker` stands; `None` if there is no such worker.
    pub fn phase(&self, worker: usize) -> (r: Option<Phase>)
        ensures
            r == if worker < self@.workers.len() {
                Some(self@.workers[worker as int].phase)
            } else {
                None
            },
    {
        if worker < self.workers.len() {
            Some(self.workers[worker].phase)
        } else {
            None
        }
    }

    /// The candidate that worker `worker` is busy with, if any.
    pub fn candidate(&self, worker: usize) -> (r: Option<&VLink>)
        ensures
            r == if worker < self@.workers.len() {
                match self@.workers[worker as int].candidate {
                    Some(c) => Some(&c),
                    None => None,
                }
            } else {
                None
            },
    {
        if worker < self.workers.len() {
            self.workers[worker].candidate.as_ref()
        } else {
            None
        }
    }

    /// The port that worker `worker` holds a lease on, if it holds one.
    pub fn port(&self, worker: usize) -> (r: Option<u16>)
        ensures
            r == if worker < self@.workers.len() && self@.workers[worker as int].phase.holds_port() {
                Some(self@.workers[worker as int].port)
            } else {
                None
            },
    {
        if worker < self.workers.len() {
            match self.workers[worker].phase {
                Phase::Starting => Some(self.workers[worker].port),
                Phase::Probing => Some(self.workers[worker].port),
                Phase::Stopping => Some(self.workers[worker].port),
                _ => None,
            }
        } else {
            None
        }
    }

    /// Whether every worker has ended.
    pub fn is_finished(&self) -> (r: bool)
        ensures
            r == self@.finished(),
    {
        let mut i: usize = 0;
        while i < self.workers.len()
            invariant
                i <= self.workers.len(),
                forall|w: int| 0 <= w < i ==> (#[trigger] self.workers[w]).phase == Phase::Done,
            decreases self.workers.len() - i,
        {
            if self.workers[i].phase != Phase::Done {
                return false;
            }
            i = i + 1;
        }
        true
    }

    /// Worker `worker`, which holds nothing, takes the next candidate off the
    /// queue or ends.
    fn fetch(&mut self, worker: usize) -> (action: Action)
        requires
            worker < old(self)@.workers.len(),
            old(self)@.workers[worker as int].candidate is None,
        ensures
            (final(self)@, action) == old(self)@.fetch(worker as int),
    {
        match self.queue.pop() {
            None => {
                let me = &mut self.workers[worker];
                me.phase = Phase::Done;
                me.slot = 0;
                me.port = 0;
                me.latency = UNREACHABLE;
                assert(self@.workers =~= old(self)@.workers.update(
                    worker as int,
                    Worker::resting(Phase::Done),
                ));
                Action::Exit
            },
            Some(c) => {
                let slot = self.queue.len();
                let me = &mut self.workers[worker];
                me.phase = Phase::AwaitingPort;
                me.slot = slot;
                me.port = 0;
                me.latency = UNREACHABLE;
                me.candidate = Some(c);
                assert(self@.workers =~= old(self)@.workers.update(
                    worker as int,
                    Worker {
                        phase: Phase::AwaitingPort,
                        slot: (old(self)@.queue.len() - 1) as usize,
                        port: 0,
                        latency: UNREACHABLE,
                        candidate: Some(old(self)@.queue.last()),
                    },
                ));
                Action::AcquirePort
            },
        }
    }

    /// Takes the report `event` for worker `worker` and says what the driver
    /// is to do next for that worker.
    ///
    /// The first report for a worker is [`Event::Wake`]. A worker that does
    /// not exist is told to exit. A report that the worker does not wait for
    /// changes nothing and is answered with the action still outstanding.
    pub fn step(&mut self, worker: usize, event: Event) -> (action: Action)
        requires
            old(self).wf(),
        ensures
            final(self).wf(),
            (final(self)@, action) == old(self)@.next(worker as int, event),
    {
        if worker >= self.workers.len() {
            return Action::Exit;
        }
        proof {
            lemma_next_keeps_inv(self@, worker as int, event);
            lemma_tallies_follow(self@.workers, worker as int, self@.workers[worker as int]);
        }
        let phase = self.workers[worker].phase;
        match phase {
            Phase::Idle => self.fetch(worker),
            Phase::AwaitingPort => match event {
                Event::PortLeased(port) => {
                    let me = &mut self.workers[worker];
                    me.phase = Phase::Starting;
                    me.port = port;
                    assert(self@.workers =~= old(self)@.workers.update(
                        worker as int,
                        Worker { phase: Phase::Starting, port, ..old(self)@.workers[worker as int] },
                    ));
                    Action::Start { port }
                },
                _ => Action::AcquirePort,
            },
            Phase::Starting => match event {
                Event::StartSucceeded => {
                    let me = &mut self.workers[worker];
                    me.phase = Phase::Probing;
                    let port = me.port;
                    self.stats.started = self.stats.started + 1;
                    assert(self@.workers =~= old(self)@.workers.update(
                        worker as int,
                        Worker { phase: Phase::Probing, ..old(self)@.workers[worker as int] },
                    ));
                    Action::Probe { port, samples: self.samples }
                },
                Event::StartFailed => {
                    self.stats.start_failures = self.stats.start_failures + 1;
                    let _dropped = self.workers[worker].candidate.take();
                    proof {
                        let failed = PoolView {
                            stats: PoolStats {
                                start_failures: (old(self)@.stats.start_failures + 1) as usize,
                                ..old(self)@.stats
                            },
                            ..old(self)@
                        };
                        assert(self@.released(worker as int) == failed.released(worker as int)) by {
                            assert(self@.workers.update(worker as int, Worker::resting(Phase::Idle))
                                =~= failed.workers.update(
                                worker as int,
                                Worker::resting(Phase::Idle),
                            ));
                        }
                        lemma_fetch_after_release(self@, worker as int);
                        lemma_fetch_after_release(failed, worker as int);
                    }
                    self.fetch(worker)
                },
                _ => Action::Start { port: self.workers[worker].port },
            },
            Phase::Probing => match event {
                Event::Probed(latency) => {
                    let me = &mut self.workers[worker];
                    me.phase = Phase::Stopping;
                    if latency >= 0 {
                        me.latency = latency;
                        self.stats.probe_successes = self.stats.probe_successes + 1;
                        assert(self@.workers =~= old(self)@.workers.update(
                            worker as int,
                            Worker {
                                phase: Phase::Stopping,
                                latency,
                                ..old(self)@.workers[worker as int]
                            },
                        ));
                    } else {
                        me.latency = UNREACHABLE;
                        self.stats.probe_failures = self.stats.probe_failures + 1;
                        assert(self@.workers =~= old(self)@.workers.update(
                            worker as int,
                            Worker {
                                phase: Phase::Stopping,
                                latency: UNREACHABLE,
                                ..old(self)@.workers[worker as int]
                            },
                        ));
                    }
                    Action::Stop
                },
                _ => Action::Probe { port: self.workers[worker].port, samples: self.samples },
            },
            Phase::Stopping => match event {
                Event::Stopped => {
                    self.stats.stopped = self.stats.stopped + 1;
                    let latency = self.workers[worker].latency;
                    let slot = self.workers[worker].slot;
                    let held = self.workers[worker].candidate.take();
                    if latency >= 0 {
                        match held {
                            Some(c) => {
                                let mut c = c;
                                c.latency = latency;
                                self.results.push(c);
                                self.sources = Ghost(self.sources@.push(slot as int));
                            },
                            None => {},
                        }
                    }
                    proof {
                        let me = old(self)@.workers[worker as int];
                        let stats = PoolStats {
                            stopped: (old(self)@.stats.stopped + 1) as usize,
                            ..old(self)@.stats
                        };
                        let published = if me.latency >= 0 {
                            PoolView {
                                results: old(self)@.results.push(
                                    annotated(me.candidate->0, me.latency),
                                ),
                                sources: old(self)@.sources.push(me.slot as int),
                                stats,
                                ..old(self)@
                            }
                        } else {
                            PoolView { stats, ..old(self)@ }
                        };
                        assert(self@.released(worker as int) == published.released(worker as int))
                            by {
                            assert(self@.workers.update(worker as int, Worker::resting(Phase::Idle))
                                =~= published.workers.update(
                                worker as int,
                                Worker::resting(Phase::Idle),
                            ));
                        }
                        lemma_fetch_after_release(self@, worker as int);
                        lemma_fetch_after_release(published, worker as int);
                    }
                    self.fetch(worker)
                },
                _ => Action::Stop,
            },
            Phase::Done => Action::Exit,
        }
    }

    /// The results gathered so far, in the order in which they were published.
    pub fn results(&self) -> (r: &Vec<VLink>)
        ensures
            r@ == self@.results,
    {
        &self.results
    }

    /// Ends the pool and hands out its results: candidates of the list the
    /// pool was made from, each at most once, each with the latency that was
    /// measured for it.
    pub fn into_results(self) -> (r: Vec<VLink>)
        requires
            self.wf(),
        ensures
            r@ == self@.results,
            r.len() <= self@.origin.len(),
            forall|k: int|
                0 <= k < r.len() ==> {
                    &&& 0 <= #[trigger] self@.sources[k] < self@.origin.len()
                    &&& r[k].latency >= 0
                    &&& r[k] == annotated(self@.origin[self@.sources[k]], r[k].latency)
                },
            forall|j: int, k: int|
                0 <= j < k < r.len() ==> #[trigger] self@.sources[j] != #[trigger] self@.sources[k],
    {
        proof {
            if self@.results.len() > 0 {
                law_results_are_candidates(self@, 0, 0);
            }
            assert forall|k: int| 0 <= k < self@.results.len() implies {
                &&& 0 <= #[trigger] self@.sources[k] < self@.origin.len()
                &&& self@.results[k].latency >= 0
                &&& self@.results[k] == annotated(
                    self@.origin[self@.sources[k]],
                    self@.results[k].latency,
                )
            } by {
                law_results_are_candidates(self@, k, k);
            }
        }
        self.results
    }
}

/// What has become of a candidate.
pub enum Stage {
    /// It is still in the queue.
    Queued,
    /// It is in the hands of the worker of this number.
    Held(int),
    /// It was given up: its start failed or its probe found it unreachable.
    Dropped,
    /// It was published as the result of this number.
    Published(int),
}

/// What has become of one candidate and what was reported for it: the port
/// leased for it, whether the proxy program came up, and the latency that the
/// probe reported, each once it is known.
pub struct Entry {
    pub stage: Stage,
    pub port: Option<u16>,
    pub started: Option<bool>,
    pub probed: Option<i32>,
}

/// The latency that a pool records for what a probe reported.
pub open spec fn shown(reported: i32) -> i32 {
    if reported >= 0 {
        reported
    } else {
        UNREACHABLE
    }
}

impl Entry {
    /// The entry of a candidate for which nothing was reported yet.
    pub open spec fn blank() -> Entry {
        Entry { stage: Stage::Queued, port: None, started: None, probed: None }
    }

    /// Whether this is the entry of a candidate that was given up, with the
    /// report that made the pool give it up: a failed start, or a start that
    /// succeeded and a probe that found the candidate unreachable.
    pub open spec fn gave_up(self) -> bool {
        &&& self.stage == Stage::Dropped
        &&& self.port is Some
        &&& (self.started == Some(false) && self.probed is None) || (self.started == Some(true) && (
        self.probed matches Some(reported) && reported < 0))
    }

    /// Whether this entry holds what was reported so far for the candidate
    /// that the worker `me` is busy with.
    pub open spec fn follows(self, me: Worker) -> bool {
        match me.phase {
            Phase::AwaitingPort => self.port is None && self.started is None && self.probed is None,
            Phase::Starting => self.port == Some(me.port) && self.started is None
                && self.probed is None,
            Phase::Probing => self.port == Some(me.port) && self.started == Some(true)
                && self.probed is None,
            Phase::Stopping => self.port == Some(me.port) && self.started == Some(true) && (
            self.probed matches Some(reported) && me.latency == shown(reported)),
            _ => false,
        }
    }
}

impl PoolView {
    /// Whether the `i`-th entry of `book` agrees with the pool: a queued
    /// candidate is in the queue and nothing is known of it, a held one is
    /// with the worker named, a dropped one was given up for a reason, and a
    /// published one is the result named, with the latency that was reported.
    pub open spec fn entry_ok(self, book: Seq<Entry>, i: int) -> bool {
        let e = book[i];
        match e.stage {
            Stage::Queued => i < self.queue.len() && e == Entry::blank(),
            Stage::Held(w) => {
                &&& 0 <= w < self.workers.len()
                &&& self.workers[w].phase.busy()
                &&& self.workers[w].slot == i
                &&& e.follows(self.workers[w])
            },
            Stage::Dropped => self.queue.len() <= i && e.gave_up(),
            Stage::Published(k) => {
                &&& 0 <= k < self.results.len()
                &&& self.sources[k] == i
                &&& e.port is Some
                &&& e.started == Some(true)
                &&& e.probed == Some(self.results[k].latency)
            },
        }
    }

    /// Whether `book` accounts for every candidate of the pool: it has one
    /// entry for each, every entry agrees with the pool, and every busy
    /// worker and every result has its entry.
    pub open spec fn booked(self, book: Seq<Entry>) -> bool {
        &&& book.len() == self.origin.len()
        &&& forall|i: int| 0 <= i < book.len() ==> #[trigger] self.entry_ok(book, i)
        &&& forall|w: int|
            0 <= w < self.workers.len() && (#[trigger] self.workers[w]).phase.busy()
                ==> book[self.workers[w].slot as int].stage == Stage::Held(w)
        &&& forall|k: int|
            0 <= k < self.results.len() ==> book[#[trigger] self.sources[k]].stage
                == Stage::Published(k)
    }

    /// `book` after worker `w` took the next candidate off the queue.
    pub open spec fn book_taken(self, w: int, book: Seq<Entry>) -> Seq<Entry> {
        if self.queue.len() == 0 {
            book
        } else {
            let top = self.queue.len() - 1;
            book.update(top, Entry { stage: Stage::Held(w), ..book[top] })
        }
    }

    /// `book` after `event` was reported for worker `w`: what the report
    /// says is entered for the worker's candidate, a candidate that the
    /// worker lets go of is marked as dropped or published, and one that it
    /// takes is marked as held.
    pub open spec fn book_after(self, w: int, event: Event, book: Seq<Entry>) -> Seq<Entry> {
        if !(0 <= w < self.workers.len()) {
            book
        } else {
            let me = self.workers[w];
            let i = me.slot as int;
            match (me.phase, event) {
                (Phase::Idle, _) => self.book_taken(w, book),
                (Phase::AwaitingPort, Event::PortLeased(port)) => book.update(
                    i,
                    Entry { port: Some(port), ..book[i] },
                ),
                (Phase::Starting, Event::StartSucceeded) => book.update(
                    i,
                    Entry { started: Some(true), ..book[i] },
                ),
                (Phase::Starting, Event::StartFailed) => self.book_taken(
                    w,
                    book.update(i, Entry { stage: Stage::Dropped, started: Some(false), ..book[i] }),
                ),
                (Phase::Probing, Event::Probed(latency)) => book.update(
                    i,
                    Entry { probed: Some(latency), ..book[i] },
                ),
                (Phase::Stopping, Event::Stopped) => self.book_taken(
                    w,
                    book.update(
                        i,
                        Entry {
                            stage: if me.latency >= 0 {
                                Stage::Published(self.results.len() as int)
                            } else {
                                Stage::Dropped
                            },
                            ..book[i]
                        },
                    ),
                ),
                _ => book,
            }
        }
    }
}

/// The book stays in order when a worker that holds nothing takes the next
/// candidate.
proof fn lemma_book_taken(s: PoolView, w: int, book: Seq<Entry>)
    requires
        s.inv(),
        s.booked(book),
        0 <= w < s.workers.len(),
        !s.workers[w].phase.busy(),
    ensures
        s.fetch(w).0.booked(s.book_taken(w, book)),
{
    let t = s.fetch(w).0;
    let after = s.book_taken(w, book);
    if s.queue.len() == 0 {
        assert forall|i: int| 0 <= i < after.len() implies #[trigger] t.entry_ok(after, i) by {
            assert(s.entry_ok(book, i));
            if let Stage::Held(v) = book[i].stage {
                assert(t.workers[v] == s.workers[v]);
            }
        }
        assert forall|v: int|
            0 <= v < t.workers.len() && (#[trigger] t.workers[v]).phase.busy() implies after[t.workers[v].slot as int].stage
            == Stage::Held(v) by {
            assert(t.workers[v] == s.workers[v]);
        }
    } else {
        let top = s.queue.len() - 1;
        assert(s.entry_ok(book, top));
        assert(book[top].stage == Stage::Queued) by {
            match book[top].stage {
                Stage::Held(v) => {
                    assert(s.workers[v].phase.busy());
                },
                Stage::Published(k) => {
                    assert(s.queue.len() <= s.sources[k]);
                },
                _ => {},
            }
        }
        assert forall|i: int| 0 <= i < after.len() implies #[trigger] t.entry_ok(after, i) by {
            assert(s.entry_ok(book, i));
            if i != top {
                if let Stage::Held(v) = book[i].stage {
                    assert(t.workers[v] == s.workers[v]);
                }
            }
        }
        assert forall|v: int|
            0 <= v < t.workers.len() && (#[trigger] t.workers[v]).phase.busy() implies after[t.workers[v].slot as int].stage
            == Stage::Held(v) by {
            if v != w {
                assert(t.workers[v] == s.workers[v]);
                assert(s.workers[v].phase.busy());
            }
        }
        assert forall|k: int| 0 <= k < t.results.len() implies after[#[trigger] t.sources[k]].stage
            == Stage::Published(k) by {
            assert(s.queue.len() <= s.sources[k]);
        }
    }
}

/// The book stays in order when what was reported for a worker is entered
/// for the candidate that the worker keeps.
proof fn lemma_book_in_place(s: PoolView, t: PoolView, w: int, book: Seq<Entry>, entry: Entry)
    requires
        s.inv(),
        s.booked(book),
        0 <= w < s.workers.len(),
        s.workers[w].phase.busy(),
        t.origin == s.origin,
        t.queue == s.queue,
        t.results == s.results,
        t.sources == s.sources,
        t.workers.len() == s.workers.len(),
        forall|v: int| 0 <= v < s.workers.len() && v != w ==> t.workers[v] == s.workers[v],
        t.workers[w].phase.busy(),
        t.workers[w].slot == s.workers[w].slot,
        entry.stage == Stage::Held(w),
        entry.follows(t.workers[w]),
    ensures
        t.booked(book.update(s.workers[w].slot as int, entry)),
{
    let mine = s.workers[w].slot as int;
    let after = book.update(mine, entry);
    assert forall|i: int| 0 <= i < after.len() implies #[trigger] t.entry_ok(after, i) by {
        assert(s.entry_ok(book, i));
        if i != mine {
            if let Stage::Held(v) = book[i].stage {
                assert(t.workers[v] == s.workers[v]);
            }
        }
    }
    assert forall|v: int|
        0 <= v < t.workers.len() && (#[trigger] t.workers[v]).phase.busy() implies after[t.workers[v].slot as int].stage
        == Stage::Held(v) by {
        if v != w {
            assert(t.workers[v] == s.workers[v]);
            assert(s.workers[v].phase.busy());
            if v < w {
                assert(s.workers[v].slot != s.workers[w].slot);
            } else {
                assert(s.workers[w].slot != s.workers[v].slot);
            }
        }
    }
    assert forall|k: int| 0 <= k < t.results.len() implies after[#[trigger] t.sources[k]].stage
        == Stage::Published(k) by {
        assert(s.workers[w].slot != s.sources[k]);
    }
}

/// The book stays in order when a worker lets go of its candidate and the
/// candidate is marked as dropped, or as published if it was published.
proof fn lemma_book_released(s: PoolView, t: PoolView, w: int, book: Seq<Entry>, entry: Entry)
    requires
        s.inv(),
        s.booked(book),
        0 <= w < s.workers.len(),
        s.workers[w].phase.busy(),
        t.origin == s.origin,
        t.queue == s.queue,
        t.workers == s.workers.update(w, Worker::resting(Phase::Idle)),
        (t.results == s.results && t.sources == s.sources && entry.gave_up()) || ({
            &&& t.results.len() == s.results.len() + 1
            &&& t.results == s.results.push(t.results.last())
            &&& t.sources == s.sources.push(s.workers[w].slot as int)
            &&& entry.stage == Stage::Published(s.results.len() as int)
            &&& entry.port is Some
            &&& entry.started == Some(true)
            &&& entry.probed == Some(t.results.last().latency)
        }),
    ensures
        t.booked(book.update(s.workers[w].slot as int, entry)),
{
    let mine = s.workers[w].slot as int;
    let after = book.update(mine, entry);
    assert forall|i: int| 0 <= i < after.len() implies #[trigger] t.entry_ok(after, i) by {
        assert(s.entry_ok(book, i));
        if i != mine {
            match book[i].stage {
                Stage::Held(v) => {
                    assert(v != w);
                    assert(t.workers[v] == s.workers[v]);
                },
                Stage::Published(k) => {
                    assert(t.sources[k] == s.sources[k]);
                    assert(t.results[k] == s.results[k]);
                },
                _ => {},
            }
        } else if t.results != s.results {
            assert(t.sources[s.results.len() as int] == mine);
        }
    }
    assert forall|v: int|
        0 <= v < t.workers.len() && (#[trigger] t.workers[v]).phase.busy() implies after[t.workers[v].slot as int].stage
        == Stage::Held(v) by {
        assert(v != w);
        assert(t.workers[v] == s.workers[v]);
        assert(s.workers[v].phase.busy());
        if v < w {
            assert(s.workers[v].slot != s.workers[w].slot);
        } else {
            assert(s.workers[w].slot != s.workers[v].slot);
        }
    }
    assert forall|k: int| 0 <= k < t.results.len() implies after[#[trigger] t.sources[k]].stage
        == Stage::Published(k) by {
        if k < s.results.len() {
            assert(t.sources[k] == s.sources[k]);
            assert(s.workers[w].slot != s.sources[k]);
        }
    }
}

/// A book that accounts for every candidate still does after any report, if
/// the report is entered as [`PoolView::book_after`] says.
pub proof fn law_book_follows(s: PoolView, w: int, event: Event, book: Seq<Entry>)
    requires
        s.inv(),
        s.booked(book),
    ensures
        s.next(w, event).0.booked(s.book_after(w, event, book)),
{
    if 0 <= w < s.workers.len() {
        let me = s.workers[w];
        let mine = me.slot as int;
        let t = s.next(w, event).0;
        if me.phase.busy() {
            assert(book[mine].stage == Stage::Held(w));
            assert(s.entry_ok(book, mine));
        }
        match (me.phase, event) {
            (Phase::Idle, _) => {
                lemma_book_taken(s, w, book);
            },
            (Phase::AwaitingPort, Event::PortLeased(port)) => {
                lemma_book_in_place(s, t, w, book, Entry { port: Some(port), ..book[mine] });
            },
            (Phase::Starting, Event::StartSucceeded) => {
                lemma_book_in_place(s, t, w, book, Entry { started: Some(true), ..book[mine] });
            },
            (Phase::Starting, Event::StartFailed) => {
                let failed = PoolView {
                    stats: PoolStats {
                        start_failures: (s.stats.start_failures + 1) as usize,
                        ..s.stats
                    },
                    ..s
                };
                let mid = failed.released(w);
                let entry = Entry { stage: Stage::Dropped, started: Some(false), ..book[mine] };
                lemma_tallies_follow(s.workers, w, mid.workers[w]);
                lemma_release(s, mid, w);
                lemma_fetch_after_release(failed, w);
                lemma_book_released(s, mid, w, book, entry);
                lemma_book_taken(mid, w, book.update(mine, entry));
            },
            (Phase::Probing, Event::Probed(latency)) => {
                lemma_book_in_place(s, t, w, book, Entry { probed: Some(latency), ..book[mine] });
            },
            (Phase::Stopping, Event::Stopped) => {
                let stats = PoolStats { stopped: (s.stats.stopped + 1) as usize, ..s.stats };
                let published = if me.latency >= 0 {
                    PoolView {
                        results: s.results.push(annotated(me.candidate->0, me.latency)),
                        sources: s.sources.push(me.slot as int),
                        stats,
                        ..s
                    }
                } else {
                    PoolView { stats, ..s }
                };
                let mid = published.released(w);
                let entry = Entry {
                    stage: if me.latency >= 0 {
                        Stage::Published(s.results.len() as int)
                    } else {
                        Stage::Dropped
                    },
                    ..book[mine]
                };
                lemma_tallies_follow(s.workers, w, mid.workers[w]);
                lemma_release(s, mid, w);
                lemma_fetch_after_release(published, w);
                lemma_book_released(s, mid, w, book, entry);
                lemma_book_taken(mid, w, book.update(mine, entry));
            },
            _ => {},
        }
    }
}

/// Once every worker of a pool that has workers has ended, every candidate
/// was either given up or published.
pub proof fn law_finished_book_is_settled(s: PoolView, book: Seq<Entry>, i: int)
    requires
        s.inv(),
        s.booked(book),
        s.finished(),
        s.workers.len() > 0,
        0 <= i < s.origin.len(),
    ensures
        book[i].gave_up() || (book[i].stage matches Stage::Published(k) && 0 <= k < s.results.len()
            && s.sources[k] == i),
{
    law_finished_means_drained(s);
    assert(s.entry_ok(book, i));
    if let Stage::Held(v) = book[i].stage {
        assert(s.workers[v].phase == Phase::Done);
    }
}

/// Whether `results` are candidates of `candidates` with a measured latency
/// each, the `k`-th one taken from position `sources[k]`, no position twice.
pub open spec fn drawn_from(results: Seq<VLink>, candidates: Seq<VLink>, sources: Seq<int>) -> bool {
    &&& sources.len() == results.len()
    &&& forall|k: int|
        0 <= k < results.len() ==> {
            &&& 0 <= #[trigger] sources[k] < candidates.len()
            &&& results[k].latency >= 0
            &&& results[k] == annotated(candidates[sources[k]], results[k].latency)
        }
    &&& forall|j: int, k: int|
        0 <= j < k < results.len() ==> #[trigger] sources[j] != #[trigger] sources[k]
}

/// Whether `event` is a report of a latency that is not negative.
pub open spec fn reports_success(event: Event) -> bool {
    event matches Event::Probed(latency) && latency >= 0
}

/// Whether `event` is a report of a latency that is negative.
pub open spec fn reports_unreachable(event: Event) -> bool {
    event matches Event::Probed(latency) && latency < 0
}

/// Whether what `entry` holds for `candidate` is what the three functions
/// returned: the port is one that `lease` gave, and on that port `start` gave
/// the answer entered and `probe` the latency entered.
pub open spec fn entry_witnessed<L, S, P>(
    entry: Entry,
    candidate: VLink,
    samples: i32,
    lease: L,
    start: S,
    probe: P,
) -> bool where L: Fn() -> u16, S: Fn(&VLink, u16) -> bool, P: Fn(&VLink, u16, i32) -> i32 {
    match entry.port {
        None => true,
        Some(port) => {
            &&& call_ensures(lease, (), port)
            &&& match entry.started {
                Some(up) => call_ensures(start, (&candidate, port), up),
                None => true,
            }
            &&& match entry.probed {
                Some(reported) => call_ensures(probe, (&candidate, port, samples), reported),
                None => true,
            }
        },
    }
}

/// Whether every entry of `book` holds what the three functions returned.
pub open spec fn witnessed<L, S, P>(
    book: Seq<Entry>,
    candidates: Seq<VLink>,
    samples: i32,
    lease: L,
    start: S,
    probe: P,
) -> bool where L: Fn() -> u16, S: Fn(&VLink, u16) -> bool, P: Fn(&VLink, u16, i32) -> i32 {
    forall|i: int|
        0 <= i < book.len() ==> #[trigger] entry_witnessed(
            book[i],
            candidates[i],
            samples,
            lease,
            start,
            probe,
        )
}

/// Whether `event`, if it is the report that the worker `me` waits for, is
/// what one of the three functions returned for the worker's candidate.
pub open spec fn event_witnessed<L, S, P>(
    me: Worker,
    event: Event,
    candidate: VLink,
    samples: i32,
    lease: L,
    start: S,
    probe: P,
) -> bool where L: Fn() -> u16, S: Fn(&VLink, u16) -> bool, P: Fn(&VLink, u16, i32) -> i32 {
    match (me.phase, event) {
        (Phase::AwaitingPort, Event::PortLeased(port)) => call_ensures(lease, (), port),
        (Phase::Starting, Event::StartSucceeded) => call_ensures(start, (&candidate, me.port), true),
        (Phase::Starting, Event::StartFailed) => call_ensures(start, (&candidate, me.port), false),
        (Phase::Probing, Event::Probed(reported)) => call_ensures(
            probe,
            (&candidate, me.port, samples),
            reported,
        ),
        _ => true,
    }
}

/// Whether `latency` was measured for `candidate`: on a port that `lease`
/// gave, `start` said that the proxy program came up and `probe` returned
/// `latency`.
pub open spec fn measured<L, S, P>(
    candidate: VLink,
    latency: i32,
    samples: i32,
    lease: L,
    start: S,
    probe: P,
) -> bool where L: Fn() -> u16, S: Fn(&VLink, u16) -> bool, P: Fn(&VLink, u16, i32) -> i32 {
    exists|port: u16|
        {
            &&& #[trigger] call_ensures(start, (&candidate, port), true)
            &&& call_ensures(lease, (), port)
            &&& call_ensures(probe, (&candidate, port, samples), latency)
        }
}

/// Whether `start` refused `candidate`: on a port that `lease` gave, it said
/// that the proxy program did not come up.
pub open spec fn refused<L, S>(candidate: VLink, lease: L, start: S) -> bool where
    L: Fn() -> u16,
    S: Fn(&VLink, u16) -> bool,
 {
    exists|port: u16|
        {
            &&& #[trigger] call_ensures(start, (&candidate, port), false)
            &&& call_ensures(lease, (), port)
        }
}

/// Whether `probe` found `candidate` unreachable: on a port that `lease`
/// gave, `start` said that the proxy program came up and `probe` returned a
/// negative number.
pub open spec fn found_unreachable<L, S, P>(
    candidate: VLink,
    samples: i32,
    lease: L,
    start: S,
    probe: P,
) -> bool where L: Fn() -> u16, S: Fn(&VLink, u16) -> bool, P: Fn(&VLink, u16, i32) -> i32 {
    exists|port: u16, reported: i32|
        {
            &&& #[trigger] call_ensures(probe, (&candidate, port, samples), reported)
            &&& reported < 0
            &&& call_ensures(lease, (), port)
            &&& call_ensures(start, (&candidate, port), true)
        }
}

/// Whether `results` is what a whole run over `candidates` owes: the
/// `k`-th result is the candidate at `sources[k]`, no candidate twice, with
/// the latency that was measured for it; and, if the pool has a worker at
/// all, every candidate that is not among the results was refused by `start`
/// or found unreachable by `probe`.
pub open spec fn accounted<L, S, P>(
    results: Seq<VLink>,
    candidates: Seq<VLink>,
    sources: Seq<int>,
    requested: Option<usize>,
    samples: i32,
    lease: L,
    start: S,
    probe: P,
) -> bool where L: Fn() -> u16, S: Fn(&VLink, u16) -> bool, P: Fn(&VLink, u16, i32) -> i32 {
    &&& drawn_from(results, candidates, sources)
    &&& forall|k: int|
        0 <= k < results.len() ==> measured(
            candidates[#[trigger] sources[k]],
            results[k].latency,
            samples,
            lease,
            start,
            probe,
        )
    &&& clamped_workers(requested, candidates.len()) >= 1 ==> forall|i: int|
        0 <= i < candidates.len() && !sources.contains(i) ==> refused(
            #[trigger] candidates[i],
            lease,
            start,
        ) || found_unreachable(candidates[i], samples, lease, start, probe)
}

/// What the functions returned stays entered in the book when a report that
/// one of them made is entered.
pub proof fn lemma_witness_follows<L, S, P>(
    s: PoolView,
    w: int,
    event: Event,
    book: Seq<Entry>,
    lease: L,
    start: S,
    probe: P,
) where L: Fn() -> u16, S: Fn(&VLink, u16) -> bool, P: Fn(&VLink, u16, i32) -> i32
    requires
        s.inv(),
        s.booked(book),
        witnessed(book, s.origin, s.samples, lease, start, probe),
        0 <= w < s.workers.len() ==> event_witnessed(
            s.workers[w],
            event,
            s.origin[s.workers[w].slot as int],
            s.samples,
            lease,
            start,
            probe,
        ),
    ensures
        witnessed(s.book_after(w, event, book), s.origin, s.samples, lease, start, probe),
{
    let after = s.book_after(w, event, book);
    if 0 <= w < s.workers.len() {
        let me = s.workers[w];
        let mine = me.slot as int;
        if me.phase.busy() {
            assert(book[mine].stage == Stage::Held(w));
            assert(s.entry_ok(book, mine));
        }
        assert forall|i: int| 0 <= i < after.len() implies #[trigger] entry_witnessed(
            after[i],
            s.origin[i],
            s.samples,
            lease,
            start,
            probe,
        ) by {
            assert(entry_witnessed(book[i], s.origin[i], s.samples, lease, start, probe));
        }
    }
}

/// Probes all `candidates` on the calling thread and returns those for which
/// a latency was measured.
///
/// The pool's workers take their turns one after another, one step each, so
/// that several proxy programs may be up at a time. `lease` hands out a port,
/// `start` brings the proxy program up for a candidate on a port and says
/// whether it came up, `probe` measures the latency through a port with a
/// number of samples (negative: unreachable), and `stop` tears the program
/// down again.
///
/// The run ends whatever the four do, as long as they return. What it returns
/// are candidates of the input, none of them twice, each with nothing changed
/// but the latency. For each of them `start` said that the program came up
/// and `probe` returned the latency, which is not negative. Where the pool
/// has a worker, every other candidate was refused by `start` or found
/// unreachable by `probe`: no candidate is left out. So if `start` never
/// refuses and `probe` always measures, every candidate is returned, and if
/// `probe` never measures, none is.
pub fn run<L, S, P, T>(
    candidates: Vec<VLink>,
    requested: Option<usize>,
    samples: i32,
    lease: L,
    start: S,
    probe: P,
    stop: T,
) -> (results: Vec<VLink>) where
    L: Fn() -> u16,
    S: Fn(&VLink, u16) -> bool,
    P: Fn(&VLink, u16, i32) -> i32,
    T: Fn(&VLink, u16) -> (),

    requires
        call_requires(lease, ()),
        forall|c: &VLink, port: u16| call_requires(start, (c, port)),
        forall|c: &VLink, port: u16, n: i32| call_requires(probe, (c, port, n)),
        forall|c: &VLink, port: u16| call_requires(stop, (c, port)),
    ensures
        results.len() <= candidates.len(),
        exists|sources: Seq<int>|
            accounted(results@, candidates@, sources, requested, samples, lease, start, probe),
        (forall|c: &VLink, port: u16, n: i32, latency: i32|
            call_ensures(probe, (c, port, n), latency) ==> latency < 0) ==> results.len() == 0,
        clamped_workers(requested, candidates@.len()) >= 1 && (forall|c: &VLink, port: u16, up: bool|
            call_ensures(start, (c, port), up) ==> up) && (forall|
            c: &VLink,
            port: u16,
            n: i32,
            latency: i32,
        |
            call_ensures(probe, (c, port, n), latency) ==> latency >= 0) ==> results.len()
            == candidates.len(),
{
    let ghost no_success = forall|c: &VLink, port: u16, n: i32, latency: i32|
        call_ensures(probe, (c, port, n), latency) ==> latency < 0;
    let ghost all_up = forall|c: &VLink, port: u16, up: bool|
        call_ensures(start, (c, port), up) ==> up;
    let ghost all_fine = forall|c: &VLink, port: u16, n: i32, latency: i32|
        call_ensures(probe, (c, port, n), latency) ==> latency >= 0;
    let ghost mut book: Seq<Entry> = Seq::new(candidates@.len(), |i: int| Entry::blank());
    let mut pool = ProbePool::new(candidates, requested, samples);
    let n = pool.worker_count();
    let mut events: Vec<Event> = Vec::new();
    while events.len() < n
        invariant
            events.len() <= n,
            forall|w: int| 0 <= w < events.len() ==> events[w] == Event::Wake,
        decreases n - events.len(),
    {
        events.push(Event::Wake);
    }
    proof {
        assert forall|i: int| 0 <= i < book.len() implies #[trigger] pool@.entry_ok(book, i) by {
            assert(book[i] == Entry::blank());
        }
        assert(pool@.booked(book));
    }
    while !pool.is_finished()
        invariant
            pool.wf(),
            pool@.origin == candidates@,
            pool@.samples == samples,
            pool@.workers.len() == n,
            n == clamped_workers(requested, candidates@.len()),
            events.len() == n,
            pool@.booked(book),
            witnessed(book, candidates@, samples, lease, start, probe),
            forall|w: int|
                0 <= w < n ==> (#[trigger] pool@.workers[w]).phase == Phase::Done
                    || pool@.workers[w].phase.expects(events[w]),
            forall|w: int|
                0 <= w < n ==> event_witnessed(
                    #[trigger] pool@.workers[w],
                    events[w],
                    candidates@[pool@.workers[w].slot as int],
                    samples,
                    lease,
                    start,
                    probe,
                ),
            no_success ==> pool@.stats.probe_successes == 0,
            no_success ==> forall|w: int| 0 <= w < n ==> !reports_success(#[trigger] events[w]),
            all_up ==> pool@.stats.start_failures == 0,
            all_up ==> forall|w: int| 0 <= w < n ==> !((#[trigger] events[w]) is StartFailed),
            all_fine ==> pool@.stats.probe_failures == 0,
            all_fine ==> forall|w: int| 0 <= w < n ==> !reports_unreachable(#[trigger] events[w]),
            no_success == (forall|c: &VLink, port: u16, n: i32, latency: i32|
                call_ensures(probe, (c, port, n), latency) ==> latency < 0),
            all_up == (forall|c: &VLink, port: u16, up: bool|
                call_ensures(start, (c, port), up) ==> up),
            all_fine == (forall|c: &VLink, port: u16, n: i32, latency: i32|
                call_ensures(probe, (c, port, n), latency) ==> latency >= 0),
            call_requires(lease, ()),
            forall|c: &VLink, port: u16| call_requires(start, (c, port)),
            forall|c: &VLink, port: u16, n: i32| call_requires(probe, (c, port, n)),
            forall|c: &VLink, port: u16| call_requires(stop, (c, port)),
        decreases pool@.remaining(),
    {
        let ghost at_start = pool@;
        let ghost mut progressed = false;
        let mut w: usize = 0;
        while w < n
            invariant
                w <= n,
                pool.wf(),
                pool@.origin == candidates@,
                pool@.samples == samples,
                pool@.workers.len() == n,
                at_start.workers.len() == n,
                events.len() == n,
                pool@.booked(book),
                witnessed(book, candidates@, samples, lease, start, probe),
                forall|v: int|
                    0 <= v < n ==> (#[trigger] pool@.workers[v]).phase == Phase::Done
                        || pool@.workers[v].phase.expects(events[v]),
                forall|v: int|
                    0 <= v < n ==> event_witnessed(
                        #[trigger] pool@.workers[v],
                        events[v],
                        candidates@[pool@.workers[v].slot as int],
                        samples,
                        lease,
                        start,
                        probe,
                    ),
                forall|v: int| w <= v < n ==> (#[trigger] pool@.workers[v]) == at_start.workers[v],
                forall|v: int|
                    0 <= v < w && (#[trigger] at_start.workers[v]).phase != Phase::Done
                        ==> progressed,
                pool@.remaining() <= at_start.remaining(),
                progressed ==> pool@.remaining() < at_start.remaining(),
                no_success ==> pool@.stats.probe_successes == 0,
                no_success ==> forall|v: int| 0 <= v < n ==> !reports_success(#[trigger] events[v]),
                all_up ==> pool@.stats.start_failures == 0,
                all_up ==> forall|v: int| 0 <= v < n ==> !((#[trigger] events[v]) is StartFailed),
                all_fine ==> pool@.stats.probe_failures == 0,
                all_fine ==> forall|v: int|
                    0 <= v < n ==> !reports_unreachable(#[trigger] events[v]),
                no_success == (forall|c: &VLink, port: u16, n: i32, latency: i32|
                    call_ensures(probe, (c, port, n), latency) ==> latency < 0),
                all_up == (forall|c: &VLink, port: u16, up: bool|
                    call_ensures(start, (c, port), up) ==> up),
                all_fine == (forall|c: &VLink, port: u16, n: i32, latency: i32|
                    call_ensures(probe, (c, port, n), latency) ==> latency >= 0),
                call_requires(lease, ()),
                forall|c: &VLink, port: u16| call_requires(start, (c, port)),
                forall|c: &VLink, port: u16, n: i32| call_requires(probe, (c, port, n)),
                forall|c: &VLink, port: u16| call_requires(stop, (c, port)),
            decreases n - w,
        {
            let ghost before = pool@;
            let done = match pool.phase(w) {
                Some(Phase::Done) => true,
                _ => false,
            };
            if !done {
                let event = events[w];
                proof {
                    assert(before.workers[w as int].phase.expects(event));
                    assert(event_witnessed(
                        before.workers[w as int],
                        event,
                        candidates@[before.workers[w as int].slot as int],
                        samples,
                        lease,
                        start,
                        probe,
                    ));
                    law_steps_are_bounded(before, w as int, event);
                    law_step_is_local(before, w as int, event);
                    law_counters_count_reports(before, w as int, event);
                    law_book_follows(before, w as int, event, book);
                    lemma_witness_follows(before, w as int, event, book, lease, start, probe);
                    book = before.book_after(w as int, event, book);
                }
                let action = pool.step(w, event);
                let ghost me = pool@.workers[w as int];
                let ghost held = candidates@[me.slot as int];
                proof {
                    if me.phase.busy() {
                        assert(me.candidate == Some(held));
                    }
                }
                let port = match pool.port(w) {
                    Some(port) => port,
                    None => 0,
                };
                let report = match action {
                    Action::AcquirePort => Event::PortLeased(lease()),
                    Action::Start { port } => match pool.candidate(w) {
                        Some(c) => if start(c, port) {
                            Event::StartSucceeded
                        } else {
                            Event::StartFailed
                        },
                        None => Event::Wake,
                    },
                    Action::Probe { port, samples } => match pool.candidate(w) {
                        Some(c) => Event::Probed(probe(c, port, samples)),
                        None => Event::Wake,
                    },
                    Action::Stop => {
                        match pool.candidate(w) {
                            Some(c) => stop(c, port),
                            None => {},
                        }
                        Event::Stopped
                    },
                    Action::Exit => Event::Wake,
                };
                events.set(w, report);
                proof {
                    progressed = true;
                    assert(event_witnessed(me, report, held, samples, lease, start, probe));
                    assert(me.phase == Phase::Done || me.phase.expects(report));
                    assert forall|v: int| w < v < n implies (#[trigger] pool@.workers[v])
                        == at_start.workers[v] by {
                        assert(pool@.workers[v] == before.workers[v]);
                    }
                    assert forall|v: int| 0 <= v < n implies (#[trigger] pool@.workers[v]).phase
                        == Phase::Done || pool@.workers[v].phase.expects(events[v]) by {
                        if v != w {
                            assert(pool@.workers[v] == before.workers[v]);
                        }
                    }
                    assert forall|v: int| 0 <= v < n implies event_witnessed(
                        #[trigger] pool@.workers[v],
                        events[v],
                        candidates@[pool@.workers[v].slot as int],
                        samples,
                        lease,
                        start,
                        probe,
                    ) by {
                        if v != w {
                            assert(pool@.workers[v] == before.workers[v]);
                        }
                    }
                }
            }
            w = w + 1;
        }
        proof {
            let v = choose|v: int| 0 <= v < n && at_start.workers[v].phase != Phase::Done;
            assert(at_start.workers[v].phase != Phase::Done);
            assert(progressed);
        }
    }
    proof {
        let s = pool@;
        if s.results.len() > 0 {
            law_results_are_candidates(s, 0, 0);
        }
        assert(drawn_from(s.results, candidates@, s.sources)) by {
            assert forall|k: int| 0 <= k < s.results.len() implies {
                &&& 0 <= #[trigger] s.sources[k] < candidates@.len()
                &&& s.results[k].latency >= 0
                &&& s.results[k] == annotated(candidates@[s.sources[k]], s.results[k].latency)
            } by {
                law_results_are_candidates(s, k, k);
            }
            assert forall|j: int, k: int| 0 <= j < k < s.results.len() implies #[trigger] s.sources[j]
                != #[trigger] s.sources[k] by {
                law_results_are_candidates(s, j, k);
            }
        }
        assert forall|k: int| 0 <= k < s.results.len() implies measured(
            candidates@[#[trigger] s.sources[k]],
            s.results[k].latency,
            samples,
            lease,
            start,
            probe,
        ) by {
            let i = s.sources[k];
            law_results_are_candidates(s, k, k);
            assert(book[i].stage == Stage::Published(k));
            assert(s.entry_ok(book, i));
            assert(entry_witnessed(book[i], candidates@[i], samples, lease, start, probe));
            let port = book[i].port->0;
            assert(call_ensures(start, (&candidates@[i], port), true));
        }
        if n >= 1 {
            law_finished_means_drained(s);
            assert forall|i: int| 0 <= i < candidates@.len() && !s.sources.contains(i) implies refused(
                #[trigger] candidates@[i],
                lease,
                start,
            ) || found_unreachable(candidates@[i], samples, lease, start, probe) by {
                law_finished_book_is_settled(s, book, i);
                if let Stage::Published(k) = book[i].stage {
                    assert(s.sources[k] == i);
                    assert(s.sources.contains(i));
                }
                assert(book[i].gave_up());
                assert(entry_witnessed(book[i], candidates@[i], samples, lease, start, probe));
                let port = book[i].port->0;
                if book[i].started == Some(false) {
                    assert(call_ensures(start, (&candidates@[i], port), false));
                } else {
                    let reported = book[i].probed->0;
                    assert(call_ensures(probe, (&candidates@[i], port, samples), reported));
                }
            }
            lemma_total_zero(s.workers, Tally::Unstarted);
            lemma_total_zero(s.workers, Tally::Probing);
            lemma_total_zero(s.workers, Tally::Publishing);
            assert forall|v: int| 0 <= v < s.workers.len() implies score(
                Tally::Unstarted,
                #[trigger] s.workers[v],
            ) == 0 && score(Tally::Probing, s.workers[v]) == 0 && score(
                Tally::Publishing,
                s.workers[v],
            ) == 0 by {
                assert(s.workers[v].phase == Phase::Done);
            }
        }
        assert(accounted(
            s.results,
            candidates@,
            s.sources,
            requested,
            samples,
            lease,
            start,
            probe,
        ));
        if no_success {
            law_no_success_no_result(s);
        }
    }
    pool.into_results()
}

} // verus!
