//! Weather sound synthesis: rain intensity levels, and the timeline of a
//! thunderclap — silence while the sound travels, a sharp crack for close
//! strikes, then the rumble.

use vstd::prelude::*;

verus! {

/// Rain intensity levels.
#[derive(Clone, Copy, Debug, PartialEq, Eq, Hash, Structural)]
#[non_exhaustive]
pub enum RainIntensity {
    /// Light drizzle — sparse, quiet drops.
    Light,
    /// Moderate rainfall — steady, even.
    Moderate,
    /// Heavy rain — dense, loud.
    Heavy,
    /// Downpour — extremely dense, roaring.
    Torrential,
}

/// Which part of a thunderclap a sample falls in.
#[derive(Clone, Copy, Debug, PartialEq, Eq, Structural)]
pub enum ThunderSegment {
    /// The sound has not arrived yet.
    Waiting,
    /// The crack, `position` samples after the sound arrived.
    Crack {
        /// Samples since the sound arrived.
        position: usize,
    },
    /// The rumble, `position` samples after it began.
    Rumble {
        /// Samples since the rumble began.
        position: usize,
    },
}

/// The part of the thunderclap at sample `abs_pos`, for a sound that
/// arrives after `delay` samples and opens with a crack of `crack_len`
/// samples (none for a distant strike): silence before the arrival, then the
/// crack, then the rumble for the rest of time.
pub open spec fn thunder_segment_at(abs_pos: nat, delay: nat, crack_len: nat) -> ThunderSegment {
    if abs_pos < delay {
        ThunderSegment::Waiting
    } else if abs_pos - delay < crack_len {
        ThunderSegment::Crack { position: (abs_pos - delay) as usize }
    } else {
        ThunderSegment::Rumble { position: (abs_pos - delay - crack_len) as usize }
    }
}

/// Order of the parts of a thunderclap.
pub open spec fn segment_rank(s: ThunderSegment) -> nat {
    match s {
        ThunderSegment::Waiting => 0,
        ThunderSegment::Crack { .. } => 1,
        ThunderSegment::Rumble { .. } => 2,
    }
}

/// Returns the part of the thunderclap at sample `abs_pos` (counted from
/// the start of synthesis), for a sound delayed by `delay_samples` whose
/// crack lasts `crack_len` samples.
pub fn thunder_segment(abs_pos: usize, delay_samples: usize, crack_len: usize) -> (r:
    ThunderSegment)
    ensures
        r == thunder_segment_at(abs_pos as nat, delay_samples as nat, crack_len as nat),
        abs_pos < delay_samples ==> r == ThunderSegment::Waiting,
        delay_samples <= abs_pos < delay_samples + crack_len ==> r == (ThunderSegment::Crack {
            position: (abs_pos - delay_samples) as usize,
        }),
        abs_pos >= delay_samples + crack_len ==> r == (ThunderSegment::Rumble {
            position: (abs_pos - delay_samples - crack_len) as usize,
        }),
{
    if abs_pos < delay_samples {
        ThunderSegment::Waiting
    } else {
        let after = abs_pos - delay_samples;
        if after < crack_len {
            ThunderSegment::Crack { position: after }
        } else {
            ThunderSegment::Rumble { position: after - crack_len }
        }
    }
}

/// The parts of a thunderclap come in order — silence, crack, rumble —
/// and never go back: a later sample is never in an earlier part.
pub proof fn lemma_thunder_segments_in_order(a: nat, b: nat, delay: nat, crack_len: nat)
    requires
        a <= b,
    ensures
        segment_rank(thunder_segment_at(a, delay, crack_len)) <= segment_rank(
            thunder_segment_at(b, delay, crack_len),
        ),
{
}

/// The whole timeline, for every delay and every crack length (zero, for a
/// distant strike, included): a sample before the sound arrives is silent;
/// the `crack_len` samples from the arrival are the crack, numbered from 0
/// at the arrival; every later sample is rumble, numbered from 0 where the
/// crack ends.
pub proof fn lemma_thunder_timeline(abs_pos: nat, delay: nat, crack_len: nat)
    requires
        abs_pos <= usize::MAX,
    ensures
        abs_pos < delay ==> thunder_segment_at(abs_pos, delay, crack_len)
            == ThunderSegment::Waiting,
        delay <= abs_pos < delay + crack_len ==> (thunder_segment_at(abs_pos, delay, crack_len)
            matches ThunderSegment::Crack { position } && position == abs_pos - delay),
        abs_pos >= delay + crack_len ==> (thunder_segment_at(abs_pos, delay, crack_len)
            matches ThunderSegment::Rumble { position } && position == abs_pos - delay
            - crack_len),
{
}

/// The crack lasts exactly `crack_len` samples from the arrival of the
/// sound, so a distant strike (no crack) goes straight from silence to
/// rumble, and the rumble counts its samples from zero.
pub proof fn lemma_thunder_crack_length(abs_pos: nat, delay: nat, crack_len: nat)
    ensures
        (thunder_segment_at(abs_pos, delay, crack_len) is Crack) <==> (delay <= abs_pos < delay
            + crack_len),
        thunder_segment_at(delay + crack_len, delay, crack_len) == (ThunderSegment::Rumble {
            position: 0,
        }),
{
}

} // verus!
