//! Scheduling of stochastic sound events within an output buffer.
//!
//! Rain drops, crackles, bubbles, flaps and leaf contacts are scattered
//! over the buffer block by block: the buffer is walked in blocks of a fixed
//! size (10 ms of audio), a random number of events is drawn for each block,
//! and each event starts at a random offset into its block and lasts a
//! number of samples, cut short where the buffer ends. The random draws are
//! made by the synthesizer; this module walks the blocks and places the
//! events.

use vstd::prelude::*;

verus! {

/// Distance between the starts of consecutive blocks: the block size, but
/// at least one sample.
pub open spec fn block_step(block_size: nat) -> nat {
    if block_size == 0 {
        1
    } else {
        block_size
    }
}

/// End (exclusive) of the block that starts at `start`: a full block, or
/// the end of the buffer, whichever comes first.
pub open spec fn block_end(num_samples: nat, block_size: nat, start: nat) -> nat {
    if start + block_size <= num_samples {
        start + block_size
    } else {
        num_samples
    }
}

/// Where the walk stands after `k` blocks: the start of block `k`, or the
/// end of the buffer once every block has been visited.
pub open spec fn walk_position(num_samples: nat, block_size: nat, k: nat) -> nat
    decreases k,
{
    if k == 0 {
        0
    } else {
        let p = walk_position(num_samples, block_size, (k - 1) as nat);
        if p + block_step(block_size) <= num_samples {
            p + block_step(block_size)
        } else {
            num_samples
        }
    }
}

/// Where an event lands: it starts `offset` samples into the block at
/// `block_start` and lasts `duration` samples, cut short at the end of the
/// buffer; an event that would start at or past the end is dropped.
/// Returns the first sample and the number of samples.
pub open spec fn event_span(num_samples: nat, block_start: nat, offset: nat, duration: nat) -> Option<
    (nat, nat),
> {
    let start = block_start + offset;
    if start >= num_samples {
        None
    } else if duration <= num_samples - start {
        Some((start, duration))
    } else {
        Some((start, (num_samples - start) as nat))
    }
}

/// Walks a buffer of `num_samples` samples in blocks of `block_size`.
#[derive(Clone, Copy, Debug)]
pub struct EventBlocks {
    num_samples: usize,
    block_size: usize,
    next_start: usize,
}

impl EventBlocks {
    /// Length of the buffer being walked.
    pub closed spec fn len(self) -> nat {
        self.num_samples as nat
    }

    /// Block size of the walk.
    pub closed spec fn size(self) -> nat {
        self.block_size as nat
    }

    /// Start of the next block (the buffer length once the walk is over).
    pub closed spec fn position(self) -> nat {
        self.next_start as nat
    }

    /// The walk never stands past the end of the buffer.
    #[verifier::type_invariant]
    spec fn within_buffer(self) -> bool {
        self.next_start <= self.num_samples
    }

    /// A walk over a buffer of `num_samples` samples, standing at its first
    /// block.
    pub fn new(num_samples: usize, block_size: usize) -> (r: Self)
        ensures
            r.len() == num_samples,
            r.size() == block_size,
            r.position() == 0,
    {
        EventBlocks { num_samples, block_size, next_start: 0 }
    }

    /// The next block as (start, end), or `None` once the buffer has been
    /// covered. A block starts a block step after the previous one and ends
    /// a full block size later or at the end of the buffer; a block size of
    /// zero walks one sample at a time with empty blocks.
    pub fn next_block(&mut self) -> (r: Option<(usize, usize)>)
        ensures
            old(self).position() <= old(self).len(),
            final(self).position() <= final(self).len(),
            final(self).len() == old(self).len(),
            final(self).size() == old(self).size(),
            old(self).position() < old(self).len() ==> {
                &&& r == Some(
                    (
                        old(self).position() as usize,
                        block_end(old(self).len(), old(self).size(), old(self).position()) as usize,
                    ),
                )
                &&& final(self).position() == if old(self).position() + block_step(old(self).size())
                    <= old(self).len() {
                    old(self).position() + block_step(old(self).size())
                } else {
                    old(self).len()
                }
            },
            old(self).position() >= old(self).len() ==> r is None && final(self).position()
                == old(self).position(),
    {
        proof {
            use_type_invariant(&*self);
        }
        if self.next_start >= self.num_samples {
            return None;
        }
        let start = self.next_start;
        let remaining = self.num_samples - start;
        let end = if self.block_size <= remaining {
            start + self.block_size
        } else {
            self.num_samples
        };
        let step = if self.block_size == 0 {
            1
        } else {
            self.block_size
        };
        if step <= remaining {
            self.next_start = start + step;
        } else {
            self.next_start = self.num_samples;
        }
        Some((start, end))
    }
}

/// Places an event that starts `offset` samples into the block at
/// `block_start` and lasts `duration` samples: `Some((first sample,
/// length))` with the length cut at the end of the buffer, or `None` when
/// the event would start at or past the end.
pub fn place_event(num_samples: usize, block_start: usize, offset: usize, duration: usize) -> (r:
    Option<(usize, usize)>)
    ensures
        match event_span(num_samples as nat, block_start as nat, offset as nat, duration as nat) {
            None => r is None,
            Some((s, l)) => r == Some((s as usize, l as usize)),
        },
{
    if block_start >= num_samples || offset >= num_samples - block_start {
        return None;
    }
    let start = block_start + offset;
    let room = num_samples - start;
    if duration <= room {
        Some((start, duration))
    } else {
        Some((start, room))
    }
}

/// A placed event lies inside the buffer: it starts before the end, its
/// last sample is inside the buffer, and it is as long as asked unless the
/// end of the buffer cuts it.
pub proof fn lemma_event_within_buffer(num_samples: nat, block_start: nat, offset: nat, duration: nat)
    ensures
        match event_span(num_samples, block_start, offset, duration) {
            None => block_start + offset >= num_samples,
            Some((s, l)) => {
                &&& s == block_start + offset
                &&& s < num_samples
                &&& s + l <= num_samples
                &&& l <= duration
                &&& (l < duration ==> s + l == num_samples)
            },
        },
{
}

/// The walk visits the block starts 0, step, 2·step, … in order: after `k`
/// blocks it stands at `k·step`, or at the end of the buffer once `k·step`
/// reaches it.
pub proof fn lemma_walk_position(num_samples: nat, block_size: nat, k: nat)
    ensures
        walk_position(num_samples, block_size, k) == if k * block_step(block_size) <= num_samples {
            k * block_step(block_size)
        } else {
            num_samples
        },
    decreases k,
{
    if k == 0 {
        assert(k * block_step(block_size) == 0) by (nonlinear_arith)
            requires
                k == 0,
        ;
    } else {
        let km = (k - 1) as nat;
        let st = block_step(block_size);
        lemma_walk_position(num_samples, block_size, km);
        assert(k * st == km * st + st) by (nonlinear_arith)
            requires
                k == km + 1,
        ;
        assert(st >= 1);
        let p = walk_position(num_samples, block_size, km);
        assert(walk_position(num_samples, block_size, k) == if p + st <= num_samples {
            p + st
        } else {
            num_samples
        });
    }
}

/// With a block size of at least one sample the blocks tile the buffer:
/// each block ends where the next one starts, and the last one ends at the
/// end of the buffer — every sample falls in exactly one block.
pub proof fn lemma_blocks_tile_buffer(num_samples: nat, block_size: nat, k: nat)
    requires
        block_size >= 1,
        walk_position(num_samples, block_size, k) < num_samples,
    ensures
        block_end(num_samples, block_size, walk_position(num_samples, block_size, k))
            == walk_position(num_samples, block_size, k + 1),
        walk_position(num_samples, block_size, k) < walk_position(num_samples, block_size, k + 1),
{
}

/// Every walk ends: after `num_samples` blocks the whole buffer has been
/// visited.
pub proof fn lemma_walk_covers_buffer(num_samples: nat, block_size: nat)
    ensures
        walk_position(num_samples, block_size, num_samples) == num_samples,
{
    lemma_walk_position(num_samples, block_size, num_samples);
    let st = block_step(block_size);
    assert(num_samples * st >= num_samples) by (nonlinear_arith)
        requires
            st >= 1,
    ;
}

} // verus!
