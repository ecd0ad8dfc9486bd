//! Footstep timing: when the steps of a footstep sequence fall.
//!
//! A walking, running or sneaking figure steps periodically — the interval
//! is re-drawn with a small jitter around a base interval at every step,
//! so drift does not accumulate; a jump landing is one-shot and only steps
//! when asked. A step is due when one has been requested, or when a
//! periodic sequence has gone a full interval since the last step. The
//! jittered interval itself is chosen by the synthesizer that owns the
//! clock.

use vstd::prelude::*;

verus! {

/// Step timing of a footstep sequence, counted in samples.
#[derive(Clone, Copy, Debug)]
pub struct StepClock {
    base_interval: usize,
    interval: usize,
    since_last: usize,
    pending: bool,
}

/// Whether a step is due: one was requested, or a periodic sequence has
/// gone a full interval since the last step.
pub open spec fn step_due(interval: nat, since_last: nat, pending: bool) -> bool {
    pending || (interval > 0 && since_last >= interval)
}

impl StepClock {
    /// Interval the jitter is drawn around (0 for a one-shot sequence).
    pub closed spec fn base(self) -> nat {
        self.base_interval as nat
    }

    /// Current interval between steps.
    pub closed spec fn current_interval(self) -> nat {
        self.interval as nat
    }

    /// Samples since the last step.
    pub closed spec fn since(self) -> nat {
        self.since_last as nat
    }

    /// Whether a step has been requested and not yet taken.
    pub closed spec fn requested(self) -> bool {
        self.pending
    }

    /// A clock with the given step interval (0 for one-shot). A periodic
    /// clock counts a full interval as already elapsed, so its first step
    /// falls on the first sample; `pending` requests a first step.
    pub fn new(interval: usize, pending: bool) -> (r: Self)
        ensures
            r.base() == interval,
            r.current_interval() == interval,
            r.since() == interval,
            r.requested() == pending,
    {
        StepClock { base_interval: interval, interval, since_last: interval, pending }
    }

    /// A clock resumed at a saved state, as read back from its getters: the
    /// base interval, the current interval, the samples since the last step
    /// and whether a step is requested.
    pub fn resume(base_interval: usize, interval: usize, since_last: usize, pending: bool) -> (r:
        Self)
        ensures
            r.base() == base_interval,
            r.current_interval() == interval,
            r.since() == since_last,
            r.requested() == pending,
    {
        StepClock { base_interval, interval, since_last, pending }
    }

    /// The current interval between steps.
    pub fn interval(&self) -> (r: usize)
        ensures
            r == self.current_interval(),
    {
        self.interval
    }

    /// Whether a step has been requested and not yet taken.
    pub fn is_requested(&self) -> (r: bool)
        ensures
            r == self.requested(),
    {
        self.pending
    }

    /// Whether the sequence steps periodically (as opposed to one-shot).
    pub fn is_periodic(&self) -> (r: bool)
        ensures
            r == (self.base() > 0),
    {
        self.base_interval > 0
    }

    /// The interval the jitter is drawn around.
    pub fn base_interval(&self) -> (r: usize)
        ensures
            r == self.base(),
    {
        self.base_interval
    }

    /// Samples since the last step.
    pub fn samples_since_step(&self) -> (r: usize)
        ensures
            r == self.since(),
    {
        self.since_last
    }

    /// Requests a single step at the next sample.
    pub fn request(&mut self)
        ensures
            final(self).requested(),
            final(self).base() == old(self).base(),
            final(self).current_interval() == old(self).current_interval(),
            final(self).since() == old(self).since(),
    {
        self.pending = true;
    }

    /// Whether a step is due at this sample.
    pub fn is_due(&self) -> (r: bool)
        ensures
            r == step_due(self.current_interval(), self.since(), self.requested()),
            self.requested() ==> r,
            !self.requested() && self.current_interval() == 0 ==> !r,
            !self.requested() && self.current_interval() > 0 ==> (r <==> self.since()
                >= self.current_interval()),
    {
        self.pending || (self.interval > 0 && self.since_last >= self.interval)
    }

    /// Takes a step: the count since the last step restarts, a request is
    /// consumed, and a periodic sequence adopts `next_interval` as its new
    /// interval (a one-shot sequence keeps interval 0).
    pub fn fire(&mut self, next_interval: usize)
        ensures
            final(self).since() == 0,
            !final(self).requested(),
            !step_due(final(self).current_interval(), final(self).since(), final(self).requested()),
            final(self).base() == old(self).base(),
            final(self).current_interval() == if old(self).base() > 0 {
                next_interval as nat
            } else {
                old(self).current_interval()
            },
    {
        self.since_last = 0;
        self.pending = false;
        if self.base_interval > 0 {
            self.interval = next_interval;
        }
    }

    /// Moves one sample on.
    pub fn advance(&mut self)
        requires
            old(self).since() < usize::MAX,
        ensures
            final(self).since() == old(self).since() + 1,
            final(self).requested() == old(self).requested(),
            final(self).base() == old(self).base(),
            final(self).current_interval() == old(self).current_interval(),
    {
        self.since_last = self.since_last + 1;
    }
}

/// (interval, samples since last step, requested) after `k` samples of an
/// undisturbed sequence whose every step re-draws the interval as `n`,
/// starting from a fresh clock of interval `n`: each sample fires if a step
/// is due, then moves on.
pub open spec fn clock_after(n: nat, k: nat) -> (nat, bool)
    decreases k,
{
    if k == 0 {
        (n, false)
    } else {
        let (since, pending) = clock_after(n, (k - 1) as nat);
        if step_due(n, since, pending) {
            (1, false)
        } else {
            (since + 1, pending)
        }
    }
}

/// When a step falls, for every interval and every count: a request makes
/// a step due at once; without a request a one-shot sequence never steps,
/// and a periodic one is not due for the first `interval - 1` samples after
/// a step, becomes due once a full interval has elapsed, and stays due at
/// every later sample until it steps. In particular a periodic sequence is
/// not due on the sample of the step it has just taken.
pub proof fn lemma_step_due_timing(interval: nat, since_last: nat, pending: bool)
    ensures
        pending ==> step_due(interval, since_last, pending),
        !pending && interval == 0 ==> !step_due(interval, since_last, pending),
        !pending && interval > 0 && since_last < interval ==> !step_due(
            interval,
            since_last,
            pending,
        ),
        !pending && interval > 0 && since_last >= interval ==> step_due(
            interval,
            since_last,
            pending,
        ),
        interval > 0 ==> !step_due(interval, 0, false),
        !pending && step_due(interval, since_last, pending) ==> step_due(
            interval,
            since_last + 1,
            pending,
        ),
{
}

/// A one-shot sequence (interval 0) steps exactly when a step has been
/// requested, however long it waits.
pub proof fn lemma_one_shot_steps_on_request(since_last: nat, pending: bool)
    ensures
        step_due(0, since_last, pending) == pending,
{
}

proof fn lemma_mod_succ(j: nat, n: nat)
    requires
        n > 0,
    ensures
        (j + 1) % n == if j % n == n - 1 {
            0
        } else {
            j % n + 1
        },
{
    let q = j / n;
    let r = j % n;
    vstd::arithmetic::div_mod::lemma_fundamental_div_mod(j as int, n as int);
    if r + 1 < n {
        vstd::arithmetic::div_mod::lemma_fundamental_div_mod_converse(
            (j + 1) as int,
            n as int,
            q as int,
            (r + 1) as int,
        );
    } else {
        assert((j + 1) as int == (q + 1) * n + 0) by (nonlinear_arith)
            requires
                j as int == n * q + r,
                r + 1 == n,
        ;
        vstd::arithmetic::div_mod::lemma_fundamental_div_mod_converse(
            (j + 1) as int,
            n as int,
            (q + 1) as int,
            0,
        );
    }
}

/// A periodic sequence whose interval stays `n` steps on every `n`-th
/// sample, starting with the first: the step at sample `k` is due exactly
/// when `k` is a multiple of `n`.
pub proof fn lemma_periodic_steps(n: nat, k: nat)
    requires
        n > 0,
    ensures
        clock_after(n, k).1 == false,
        clock_after(n, k).0 == if k == 0 {
            n
        } else {
            ((k - 1) as nat % n) + 1
        },
        step_due(n, clock_after(n, k).0, clock_after(n, k).1) <==> k % n == 0,
    decreases k,
{
    if k == 0 {
        vstd::arithmetic::div_mod::lemma_small_mod(0, n);
    } else {
        let km = (k - 1) as nat;
        lemma_periodic_steps(n, km);
        lemma_mod_succ(km, n);
        if km > 0 {
            lemma_mod_succ((km - 1) as nat, n);
        } else {
            vstd::arithmetic::div_mod::lemma_small_mod(0, n);
        }
    }
}

} // verus!
