//! The ramp scheduler: decides, from the elapsed time alone, whether another
//! worker batch is owed and how large it is. Batches are additive — a step
//! never retires the previous step's workers — and no batch is begun once the
//! run deadline has elapsed. Performing the spawns and the sleeps is the
//! caller's business; the scheduler only decides.

use vstd::prelude::*;

use crate::config::Config;

verus! {

/// Planned size of ramp step `k` (counting from zero).
pub open spec fn batch_size_spec(base: int, increment: int, k: int) -> int {
    base + k * increment
}

/// Workers spawned by the first `k` steps together.
pub open spec fn cumulative_spawned_spec(base: int, increment: int, k: nat) -> int
    decreases k,
{
    if k == 0 {
        0
    } else {
        cumulative_spawned_spec(base, increment, (k - 1) as nat) + batch_size_spec(
            base,
            increment,
            k - 1,
        )
    }
}

/// Ramp schedule determinism, in closed form: the first `k` steps spawn
/// `k*base + increment*(0 + 1 + ... + (k-1))` workers in all (stated doubled,
/// to stay clear of integer division).
pub proof fn lemma_cumulative_closed_form(base: int, increment: int, k: nat)
    ensures
        2 * cumulative_spawned_spec(base, increment, k) == k * (2 * base + (k - 1) * increment),
    decreases k,
{
    if k > 0 {
        let j = (k - 1) as nat;
        lemma_cumulative_closed_form(base, increment, j);
        assert(cumulative_spawned_spec(base, increment, k) == cumulative_spawned_spec(
            base,
            increment,
            j,
        ) + base + j * increment);
        assert(2 * cumulative_spawned_spec(base, increment, k) == j * (2 * base + (j - 1)
            * increment) + 2 * (base + j * increment));
        assert(j * (2 * base + (j - 1) * increment) + 2 * (base + j * increment) == (j + 1) * (2
            * base + j * increment)) by (nonlinear_arith);
        assert((j + 1) * (2 * base + j * increment) == k * (2 * base + (k - 1) * increment));
    } else {
        assert(k * (2 * base + (k - 1) * increment) == 0) by (nonlinear_arith)
            requires
                k == 0nat;
    }
}

/// The scheduler's logical state.
#[derive(Clone, Copy, PartialEq, Eq, Structural, Debug)]
pub enum RampState {
    /// No batch begun yet.
    Idle,
    /// Batches are being begun on schedule.
    Ramping,
    /// The deadline was seen; no batch will ever be begun again.
    Stopped,
}

/// Drives how many workers are active over time. `Idle` until the first
/// batch, ramping while batches are begun, stopped for good once the deadline
/// was seen.
pub struct RampScheduler {
    /// Size of the first batch.
    pub base: u64,
    /// Growth of the batch size at each step.
    pub increment: u64,
    /// The run deadline, in seconds from the run's start.
    pub total_run_duration_sec: u64,
    /// Seconds the caller is to wait between steps.
    pub step_interval_sec: u64,
    /// Steps begun so far.
    pub batches_spawned: u64,
    /// Workers spawned so far, over all steps.
    pub total_spawned: u64,
    /// Whether the deadline has been seen; never leaves this state.
    pub stopped: bool,
}

impl RampScheduler {
    /// The spawn total always equals what the schedule plans for the number of
    /// steps begun.
    pub open spec fn inv(self) -> bool {
        self.total_spawned as int == cumulative_spawned_spec(
            self.base as int,
            self.increment as int,
            self.batches_spawned as nat,
        )
    }

    /// Size of the next batch, were one begun now.
    pub open spec fn next_batch_spec(self) -> int {
        batch_size_spec(self.base as int, self.increment as int, self.batches_spawned as int)
    }

    /// The logical state the spawn history implies.
    pub open spec fn state_spec(self) -> RampState {
        if self.stopped {
            RampState::Stopped
        } else if self.batches_spawned == 0 {
            RampState::Idle
        } else {
            RampState::Ramping
        }
    }

    /// The logical state the spawn history implies.
    pub fn state(&self) -> (s: RampState)
        ensures
            s == self.state_spec(),
    {
        if self.stopped {
            RampState::Stopped
        } else if self.batches_spawned == 0 {
            RampState::Idle
        } else {
            RampState::Ramping
        }
    }

    /// A fresh scheduler in its idle state, taking its shape from the
    /// configuration.
    pub fn new(cfg: &Config) -> (s: RampScheduler)
        requires
            cfg.wf(),
        ensures
            s.inv(),
            s.base == cfg.base_concurrency,
            s.increment == cfg.concurrency_increment,
            s.total_run_duration_sec == cfg.total_run_duration_sec,
            s.step_interval_sec == cfg.step_interval_sec,
            s.batches_spawned == 0,
            s.total_spawned == 0,
            !s.stopped,
    {
        RampScheduler {
            base: cfg.base_concurrency,
            increment: cfg.concurrency_increment,
            total_run_duration_sec: cfg.total_run_duration_sec,
            step_interval_sec: cfg.step_interval_sec,
            batches_spawned: 0,
            total_spawned: 0,
            stopped: false,
        }
    }

    /// One scheduling decision at elapsed time `elapsed_sec`: the size of the
    /// batch to spawn now, or `None` once the deadline has elapsed — from then
    /// on every further decision is `None`, and the spawn totals never move
    /// again. Already-running workers are deliberately left alone.
    pub fn tick(&mut self, elapsed_sec: u64) -> (batch: Option<u64>)
        requires
            old(self).inv(),
            old(self).next_batch_spec() <= u64::MAX,
            old(self).total_spawned + old(self).next_batch_spec() <= u64::MAX,
            old(self).batches_spawned < u64::MAX,
        ensures
            final(self).inv(),
            final(self).base == old(self).base,
            final(self).increment == old(self).increment,
            final(self).total_run_duration_sec == old(self).total_run_duration_sec,
            final(self).step_interval_sec == old(self).step_interval_sec,
            final(self).total_spawned >= old(self).total_spawned,
            final(self).batches_spawned >= old(self).batches_spawned,
            old(self).stopped ==> *final(self) == *old(self) && batch is None,
            elapsed_sec >= old(self).total_run_duration_sec ==> {
                &&& batch is None
                &&& final(self).stopped
                &&& final(self).batches_spawned == old(self).batches_spawned
                &&& final(self).total_spawned == old(self).total_spawned
            },
            !old(self).stopped && elapsed_sec >= old(self).total_run_duration_sec ==> final(self).state_spec() == RampState::Stopped,
            !old(self).stopped && elapsed_sec < old(self).total_run_duration_sec ==> {
                &&& batch == Some((old(self).next_batch_spec()) as u64)
                &&& final(self).state_spec() == RampState::Ramping
                &&& final(self).batches_spawned == old(self).batches_spawned + 1
                &&& final(self).total_spawned == old(self).total_spawned + old(
                    self,
                ).next_batch_spec()
                &&& !final(self).stopped
            },
    {
        if self.stopped {
            return None;
        }
        if elapsed_sec >= self.total_run_duration_sec {
            self.stopped = true;
            return None;
        }
        let b = self.base + self.batches_spawned * self.increment;
        self.total_spawned = self.total_spawned + b;
        self.batches_spawned = self.batches_spawned + 1;
        Some(b)
    }
}

} // verus!
