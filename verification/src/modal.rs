//! Modal synthesis: mode frequency patterns, excitation shapes, and the
//! clock that times an excitation pulse.
//!
//! A struck object is modelled as a bank of damped resonators driven by a
//! short excitation: a single-sample impulse, a noise burst, or a half-sine
//! pulse. The clock here decides, sample by sample, which part of the pulse
//! is due — its sample values are computed by the synthesizer that owns it.

use vstd::prelude::*;

verus! {

/// Pattern for generating mode frequencies from a base frequency.
#[derive(Clone, Copy, Debug, PartialEq, Eq, Hash, Structural)]
#[non_exhaustive]
pub enum ModePattern {
    /// Harmonic series: `f_k = f0 * k` (strings, tubes).
    Harmonic,
    /// Free-free beam modes (wood, marimba): highly inharmonic.
    Beam,
    /// Plate/shell modes: `f_k = f0 * k^1.7` (metal, glass, ceramic).
    Plate,
    /// Stiff string: `f_k = f0 * k * sqrt(1 + B*k^2)` with stiffness B.
    StiffString,
    /// Heavily damped: all modes near f0 with slight random spread.
    Damped,
}

/// Shape of the excitation signal that drives a modal bank.
#[derive(Clone, Copy, Debug, PartialEq, Eq, Hash, Structural)]
#[non_exhaustive]
pub enum ExcitationType {
    /// Single-sample impulse (sharpest, excites all frequencies equally).
    Impulse,
    /// White noise burst of the given duration in samples.
    NoiseBurst {
        /// Duration of the noise burst in samples.
        duration_samples: usize,
    },
    /// Half-sine pulse of the given duration in samples (softest).
    HalfSine {
        /// Duration of the pulse in samples.
        duration_samples: usize,
    },
}

/// What an excitation produces at one sample.
#[derive(Clone, Copy, Debug, PartialEq, Eq, Structural)]
pub enum ExcitationStep {
    /// Nothing: the pulse is over (or was never triggered).
    Silent,
    /// The single full-amplitude sample of an impulse.
    Impulse,
    /// One noise sample of a burst.
    Noise,
    /// The sample at `position` of a half-sine pulse `duration` samples long.
    HalfSine {
        /// Index of this sample within the pulse.
        position: usize,
        /// Length of the pulse in samples.
        duration: usize,
    },
}

/// Number of sounding samples in one pulse: one for an impulse, the
/// duration for a noise burst or a half-sine.
pub open spec fn pulse_length(kind: ExcitationType) -> nat {
    match kind {
        ExcitationType::Impulse => 1,
        ExcitationType::NoiseBurst { duration_samples } => duration_samples as nat,
        ExcitationType::HalfSine { duration_samples } => duration_samples as nat,
    }
}

/// The output of a pulse of shape `kind` at `position` samples after its
/// trigger.
pub open spec fn pulse_sample(kind: ExcitationType, position: nat) -> ExcitationStep {
    match kind {
        ExcitationType::Impulse => if position == 0 {
            ExcitationStep::Impulse
        } else {
            ExcitationStep::Silent
        },
        ExcitationType::NoiseBurst { duration_samples } => if position < duration_samples {
            ExcitationStep::Noise
        } else {
            ExcitationStep::Silent
        },
        ExcitationType::HalfSine { duration_samples } => if position < duration_samples {
            ExcitationStep::HalfSine { position: position as usize, duration: duration_samples }
        } else {
            ExcitationStep::Silent
        },
    }
}

/// One sample of the clock, from (position, active) to (output, position,
/// active): an active clock emits the pulse's sample at its position, moves
/// one sample on, and stays active exactly when that sample sounded; an
/// inactive clock emits nothing and does not move.
pub open spec fn clock_step(kind: ExcitationType, position: nat, active: bool) -> (
    ExcitationStep,
    nat,
    bool,
) {
    if active {
        let out = pulse_sample(kind, position);
        (out, position + 1, !(out is Silent))
    } else {
        (ExcitationStep::Silent, position, false)
    }
}

/// The clock's (position, active) after `k` samples from a trigger.
pub open spec fn clock_after_trigger(kind: ExcitationType, k: nat) -> (nat, bool)
    decreases k,
{
    if k == 0 {
        (0, true)
    } else {
        let (p, a) = clock_after_trigger(kind, (k - 1) as nat);
        let (_, p2, a2) = clock_step(kind, p, a);
        (p2, a2)
    }
}

/// Times an excitation pulse: after `trigger`, each `advance` says which
/// sample of the pulse is due, until the pulse is spent.
#[derive(Clone, Copy, Debug)]
pub struct ExcitationClock {
    excitation_type: ExcitationType,
    position: usize,
    active: bool,
}

impl ExcitationClock {
    /// The pulse shape.
    pub closed spec fn kind(self) -> ExcitationType {
        self.excitation_type
    }

    /// Samples elapsed since the last trigger while active.
    pub closed spec fn position(self) -> nat {
        self.position as nat
    }

    /// Whether the pulse is still running.
    pub closed spec fn running(self) -> bool {
        self.active
    }

    /// A clock for pulses of the given shape, not yet triggered.
    pub fn new(excitation_type: ExcitationType) -> (r: Self)
        ensures
            r.kind() == excitation_type,
            r.position() == 0,
            !r.running(),
    {
        ExcitationClock { excitation_type, position: 0, active: false }
    }

    /// A clock resumed at a saved state: `position` samples into a pulse of
    /// the given shape, running or not, as read back from
    /// [`ExcitationClock::samples_elapsed`] and [`ExcitationClock::is_active`].
    pub fn resume(excitation_type: ExcitationType, position: usize, active: bool) -> (r: Self)
        ensures
            r.kind() == excitation_type,
            r.position() == position,
            r.running() == active,
    {
        ExcitationClock { excitation_type, position, active }
    }

    /// The pulse shape.
    pub fn excitation_type(&self) -> (r: ExcitationType)
        ensures
            r == self.kind(),
    {
        self.excitation_type
    }

    /// Starts the pulse from its beginning.
    pub fn trigger(&mut self)
        ensures
            final(self).kind() == old(self).kind(),
            final(self).position() == 0,
            final(self).running(),
    {
        self.position = 0;
        self.active = true;
    }

    /// Samples elapsed since the last trigger while the pulse ran.
    pub fn samples_elapsed(&self) -> (r: usize)
        ensures
            r == self.position(),
    {
        self.position
    }

    /// Returns true while the pulse is still producing output.
    pub fn is_active(&self) -> (r: bool)
        ensures
            r == self.running(),
    {
        self.active
    }

    /// Moves the clock one sample on and says what that sample is.
    pub fn advance(&mut self) -> (r: ExcitationStep)
        requires
            old(self).running() ==> old(self).position() < usize::MAX,
        ensures
            (r, final(self).position(), final(self).running()) == clock_step(
                old(self).kind(),
                old(self).position(),
                old(self).running(),
            ),
            final(self).kind() == old(self).kind(),
            !old(self).running() ==> r == ExcitationStep::Silent && final(self).position()
                == old(self).position() && !final(self).running(),
            old(self).running() ==> final(self).position() == old(self).position() + 1,
            old(self).running() && old(self).kind() == ExcitationType::Impulse ==> r == (if old(
                self,
            ).position() == 0 {
                ExcitationStep::Impulse
            } else {
                ExcitationStep::Silent
            }),
            old(self).kind() matches ExcitationType::NoiseBurst { duration_samples }
                ==> (old(self).running() ==> r == (if old(self).position() < duration_samples {
                ExcitationStep::Noise
            } else {
                ExcitationStep::Silent
            })),
            old(self).kind() matches ExcitationType::HalfSine { duration_samples }
                ==> (old(self).running() ==> r == (if old(self).position() < duration_samples {
                ExcitationStep::HalfSine {
                    position: old(self).position() as usize,
                    duration: duration_samples,
                }
            } else {
                ExcitationStep::Silent
            })),
            old(self).running() ==> (final(self).running() <==> r != ExcitationStep::Silent),
    {
        if !self.active {
            return ExcitationStep::Silent;
        }
        let out = match self.excitation_type {
            ExcitationType::Impulse => {
                if self.position == 0 {
                    ExcitationStep::Impulse
                } else {
                    ExcitationStep::Silent
                }
            },
            ExcitationType::NoiseBurst { duration_samples } => {
                if self.position < duration_samples {
                    ExcitationStep::Noise
                } else {
                    ExcitationStep::Silent
                }
            },
            ExcitationType::HalfSine { duration_samples } => {
                if self.position < duration_samples {
                    ExcitationStep::HalfSine { position: self.position, duration: duration_samples }
                } else {
                    ExcitationStep::Silent
                }
            },
        };
        if let ExcitationStep::Silent = out {
            self.active = false;
        }
        self.position = self.position + 1;
        out
    }
}

/// What a pulse emits `k` samples after its trigger, for every shape and
/// every `k`: an impulse sounds only at sample 0; a noise burst of `d`
/// samples gives noise at samples 0 to `d - 1`; a half-sine of `d` samples
/// gives, at sample `k < d`, its sample `k` of `d` — the position counts
/// every sample since the trigger, with no wrap — and every shape is silent
/// after that.
pub proof fn lemma_pulse_samples(kind: ExcitationType, k: nat)
    requires
        k <= usize::MAX,
    ensures
        kind == ExcitationType::Impulse ==> (pulse_sample(kind, k) == ExcitationStep::Impulse
            <==> k == 0),
        kind == ExcitationType::Impulse && k > 0 ==> pulse_sample(kind, k)
            == ExcitationStep::Silent,
        kind matches ExcitationType::NoiseBurst { duration_samples } ==> (k < duration_samples
            ==> pulse_sample(kind, k) == ExcitationStep::Noise) && (k >= duration_samples
            ==> pulse_sample(kind, k) == ExcitationStep::Silent),
        kind matches ExcitationType::HalfSine { duration_samples } ==> (k < duration_samples
            ==> (pulse_sample(kind, k) matches ExcitationStep::HalfSine { position, duration }
            && position == k && duration == duration_samples)) && (k >= duration_samples
            ==> pulse_sample(kind, k) == ExcitationStep::Silent),
{
}

/// A pulse sounds for exactly `pulse_length` samples and is silent ever
/// after.
pub proof fn lemma_pulse_length(kind: ExcitationType, position: nat)
    ensures
        !(pulse_sample(kind, position) is Silent) <==> position < pulse_length(kind),
{
}

/// After a trigger the clock behaves as a function of time alone: `k`
/// samples on it is running exactly when `k` does not exceed the pulse
/// length, its position while running is `k`, and the sample it emits next
/// is the pulse's sample at `k` — so every trigger yields the full pulse,
/// once, followed by silence.
pub proof fn lemma_triggered_clock_schedule(kind: ExcitationType, k: nat)
    ensures
        clock_after_trigger(kind, k).1 == (k <= pulse_length(kind)),
        clock_after_trigger(kind, k).1 ==> clock_after_trigger(kind, k).0 == k,
        clock_step(kind, clock_after_trigger(kind, k).0, clock_after_trigger(kind, k).1).0
            == pulse_sample(kind, k),
    decreases k,
{
    if k > 0 {
        lemma_triggered_clock_schedule(kind, (k - 1) as nat);
    }
}

} // verus!
