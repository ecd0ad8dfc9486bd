//! Voice management: priority-based polyphony with voice stealing.
//!
//! A fixed pool of synthesizer "voices" (active sound instances). When the
//! pool is full and a new sound is requested, the lowest-priority or the
//! oldest voice is stolen, or the request is refused, as the pool's steal
//! policy says.
//!
//! The pool is synthesizer-agnostic: it tracks voice metadata (priority,
//! age, active state) and hands out slot indices; the caller keeps the
//! actual synthesizer instances under those indices.

use vstd::prelude::*;

verus! {

/// How to select which voice to steal when the pool is full.
#[derive(Clone, Copy, Debug, PartialEq, Eq, Hash, Structural)]
#[non_exhaustive]
pub enum StealPolicy {
    /// Steal the oldest active voice.
    Oldest,
    /// Steal the lowest-priority voice (ties broken by age).
    LowestPriority,
    /// Do not steal — reject the new voice if pool is full.
    Reject,
}

/// Metadata for a single voice slot.
#[derive(Clone, Copy, Debug, PartialEq, Eq, Structural)]
pub struct VoiceSlot {
    /// Whether this slot is currently active.
    pub active: bool,
    /// Priority (higher = more important, less likely to be stolen).
    pub priority: u8,
    /// Age in ticks since activation (incremented by `tick()`).
    pub age: u64,
    /// User-defined tag for identifying what sound this voice plays.
    pub tag: u32,
}

// ---------------------------------------------------------------------------
// The model: a pool is a sequence of slots.
// ---------------------------------------------------------------------------

/// A slot that has never been used.
pub open spec fn idle_voice() -> VoiceSlot {
    VoiceSlot { active: false, priority: 0, age: 0, tag: 0 }
}

/// The slot written when a voice is granted.
pub open spec fn fresh_voice(priority: u8, tag: u32) -> VoiceSlot {
    VoiceSlot { active: true, priority, age: 0, tag }
}

/// A slot after release: inactive with its age cleared; priority and tag
/// are left as they were.
pub open spec fn released_voice(v: VoiceSlot) -> VoiceSlot {
    VoiceSlot { active: false, age: 0, ..v }
}

/// A slot one tick later: an active voice grows one tick older (saturating
/// at the largest age); an inactive slot is unchanged.
pub open spec fn aged_voice(v: VoiceSlot) -> VoiceSlot {
    if v.active {
        VoiceSlot { age: if v.age == u64::MAX { v.age } else { (v.age + 1) as u64 }, ..v }
    } else {
        v
    }
}

/// Whether some slot is free.
pub open spec fn has_free(s: Seq<VoiceSlot>) -> bool {
    exists|i: int| 0 <= i < s.len() && !s[i].active
}

/// `i` is the first free slot.
pub open spec fn is_first_free(s: Seq<VoiceSlot>, i: int) -> bool {
    &&& 0 <= i < s.len()
    &&& !s[i].active
    &&& forall|j: int| 0 <= j < i ==> s[j].active
}

/// `i` is the oldest slot; among slots of equal greatest age, the last one.
pub open spec fn is_oldest(s: Seq<VoiceSlot>, i: int) -> bool {
    &&& 0 <= i < s.len()
    &&& forall|j: int| 0 <= j < s.len() ==> s[j].age <= s[i].age
    &&& forall|j: int| i < j < s.len() ==> s[j].age < s[i].age
}

/// `a` is a strictly better victim than `b`: lower priority, or equal
/// priority and older.
pub open spec fn steals_before(a: VoiceSlot, b: VoiceSlot) -> bool {
    a.priority < b.priority || (a.priority == b.priority && a.age > b.age)
}

/// `i` is the slot of lowest priority, ties broken by greatest age; among
/// slots that tie on both, the first one.
pub open spec fn is_lowest_priority(s: Seq<VoiceSlot>, i: int) -> bool {
    &&& 0 <= i < s.len()
    &&& forall|j: int| 0 <= j < s.len() ==> !steals_before(#[trigger] s[j], s[i])
    &&& forall|j: int| 0 <= j < i ==> steals_before(s[i], #[trigger] s[j])
}

/// Whether a request with `priority` gets a slot: a free slot is always
/// granted; a full pool grants under `Oldest`, under `LowestPriority` only
/// when some voice has a priority no higher than the request's, and never
/// under `Reject`.
pub open spec fn allocation_granted(s: Seq<VoiceSlot>, policy: StealPolicy, priority: u8) -> bool {
    ||| has_free(s)
    ||| (s.len() > 0 && policy == StealPolicy::Oldest)
    ||| (policy == StealPolicy::LowestPriority && exists|j: int|
        0 <= j < s.len() && #[trigger] s[j].priority <= priority)
}

/// The slot a granted request takes: the first free slot if there is one,
/// otherwise the victim that the policy selects.
pub open spec fn allocation_slot(s: Seq<VoiceSlot>, policy: StealPolicy, i: int) -> bool {
    if has_free(s) {
        is_first_free(s, i)
    } else {
        match policy {
            StealPolicy::Oldest => is_oldest(s, i),
            StealPolicy::LowestPriority => is_lowest_priority(s, i),
            StealPolicy::Reject => false,
        }
    }
}

/// A call that changes a pool: a voice request, a release of one slot, a
/// tick, a release of all slots, or a write of `slot` through a mutable
/// reference to the slot at `index`.
#[derive(Clone, Copy, Debug)]
pub enum PoolOp {
    /// `allocate(priority, tag)`.
    Allocate {
        /// Priority of the request.
        priority: u8,
        /// Tag of the request.
        tag: u32,
    },
    /// `release(index)`.
    Release {
        /// Slot to release.
        index: usize,
    },
    /// `tick()`.
    Tick,
    /// `release_all()`.
    ReleaseAll,
    /// `slot_mut(index)`, with `slot` left in it when the reference is
    /// given up.
    Write {
        /// Slot asked for.
        index: usize,
        /// What the slot holds afterwards.
        slot: VoiceSlot,
    },
}

/// `t` is a pool that the call `op` can leave behind, from the pool `s`
/// with steal policy `policy`.
pub open spec fn pool_step(s: Seq<VoiceSlot>, policy: StealPolicy, op: PoolOp, t: Seq<VoiceSlot>) -> bool {
    match op {
        PoolOp::Allocate { priority, tag } => {
            ||| (!allocation_granted(s, policy, priority) && t == s)
            ||| exists|i: int|
                allocation_slot(s, policy, i) && t == s.update(i, fresh_voice(priority, tag))
        },
        PoolOp::Release { index } => t == if index < s.len() {
            s.update(index as int, released_voice(s[index as int]))
        } else {
            s
        },
        PoolOp::Tick => t.len() == s.len() && forall|i: int|
            0 <= i < s.len() ==> t[i] == aged_voice(s[i]),
        PoolOp::ReleaseAll => t.len() == s.len() && forall|i: int|
            0 <= i < s.len() ==> t[i] == released_voice(s[i]),
        PoolOp::Write { index, slot } => t == if index < s.len() {
            s.update(index as int, slot)
        } else {
            s
        },
    }
}

/// Number of active slots.
pub open spec fn active_count_of(s: Seq<VoiceSlot>) -> nat
    decreases s.len(),
{
    if s.len() == 0 {
        0
    } else {
        active_count_of(s.drop_last()) + if s.last().active {
            1nat
        } else {
            0nat
        }
    }
}

/// The active slots with their indices, in index order.
pub open spec fn active_entries(s: Seq<VoiceSlot>) -> Seq<(usize, VoiceSlot)>
    decreases s.len(),
{
    if s.len() == 0 {
        Seq::empty()
    } else {
        let prefix = active_entries(s.drop_last());
        if s.last().active {
            prefix.push(((s.len() - 1) as usize, s.last()))
        } else {
            prefix
        }
    }
}

/// At most every slot is active.
pub proof fn lemma_active_count_bounded(s: Seq<VoiceSlot>)
    ensures
        active_count_of(s) <= s.len(),
    decreases s.len(),
{
    if s.len() > 0 {
        lemma_active_count_bounded(s.drop_last());
    }
}

/// Index of the oldest slot (the last of equal greatest age).
fn oldest_index(slots: &Vec<VoiceSlot>) -> (r: usize)
    requires
        slots@.len() >= 1,
    ensures
        is_oldest(slots@, r as int),
{
    let n = slots.len();
    let mut best: usize = 0;
    let mut i: usize = 1;
    while i < n
        invariant
            n == slots@.len(),
            1 <= i <= n,
            best < i,
            forall|j: int| 0 <= j < i ==> slots@[j].age <= slots@[best as int].age,
            forall|j: int| best < j < i ==> slots@[j].age < slots@[best as int].age,
        decreases n - i,
    {
        if slots[i].age >= slots[best].age {
            best = i;
        }
        i = i + 1;
    }
    best
}

/// Index of the slot of lowest priority (ties: the oldest; then the first).
fn lowest_priority_index(slots: &Vec<VoiceSlot>) -> (r: usize)
    requires
        slots@.len() >= 1,
    ensures
        is_lowest_priority(slots@, r as int),
{
    let n = slots.len();
    let mut best: usize = 0;
    let mut i: usize = 1;
    while i < n
        invariant
            n == slots@.len(),
            1 <= i <= n,
            best < i,
            forall|j: int| 0 <= j < i ==> !steals_before(#[trigger] slots@[j], slots@[best as int]),
            forall|j: int| 0 <= j < best ==> steals_before(slots@[best as int], #[trigger] slots@[j]),
        decreases n - i,
    {
        let a = slots[i];
        let b = slots[best];
        if a.priority < b.priority || (a.priority == b.priority && a.age > b.age) {
            best = i;
        }
        i = i + 1;
    }
    best
}

// ---------------------------------------------------------------------------
// VoicePool
// ---------------------------------------------------------------------------

/// Voice pool manager — tracks active voices with priority-based stealing.
#[derive(Debug)]
pub struct VoicePool {
    slots: Vec<VoiceSlot>,
    steal_policy: StealPolicy,
    max_voices: usize,
}

impl View for VoicePool {
    type V = Seq<VoiceSlot>;

    closed spec fn view(&self) -> Seq<VoiceSlot> {
        self.slots@
    }
}

impl Clone for VoicePool {
    /// A pool with the same slots and the same steal policy.
    fn clone(&self) -> (r: Self)
        ensures
            r@ == self@,
            r.policy() == self.policy(),
    {
        proof {
            use_type_invariant(self);
        }
        let n = self.slots.len();
        let mut slots: Vec<VoiceSlot> = Vec::new();
        let mut i: usize = 0;
        while i < n
            invariant
                n == self.slots@.len(),
                i <= n,
                slots@ == self.slots@.take(i as int),
            decreases n - i,
        {
            slots.push(self.slots[i]);
            i = i + 1;
            proof {
                assert(slots@ =~= self.slots@.take(i as int));
            }
        }
        proof {
            assert(self.slots@.take(n as int) =~= self.slots@);
        }
        VoicePool { slots, steal_policy: self.steal_policy, max_voices: self.max_voices }
    }
}

impl VoicePool {
    /// The pool holds exactly `max_voices` slots, and at least one.
    #[verifier::type_invariant]
    spec fn well_formed(self) -> bool {
        &&& self.slots.len() == self.max_voices
        &&& self.max_voices >= 1
    }

    /// The pool's steal policy.
    pub closed spec fn policy(self) -> StealPolicy {
        self.steal_policy
    }

    /// Creates a new voice pool with the given capacity (at least one slot)
    /// and steal policy; every slot starts idle.
    pub fn new(max_voices: usize, steal_policy: StealPolicy) -> (r: Self)
        ensures
            r@.len() == if max_voices < 1 {
                1
            } else {
                max_voices
            },
            forall|i: int| 0 <= i < r@.len() ==> r@[i] == idle_voice(),
            r.policy() == steal_policy,
    {
        let max_voices = if max_voices < 1 {
            1
        } else {
            max_voices
        };
        let mut slots: Vec<VoiceSlot> = Vec::new();
        let mut i: usize = 0;
        while i < max_voices
            invariant
                i <= max_voices,
                slots@.len() == i,
                forall|j: int| 0 <= j < i ==> slots@[j] == idle_voice(),
            decreases max_voices - i,
        {
            slots.push(VoiceSlot { active: false, priority: 0, age: 0, tag: 0 });
            i = i + 1;
        }
        VoicePool { slots, steal_policy, max_voices }
    }

    /// Rebuilds a pool from its slots and steal policy, as saved by
    /// [`VoicePool::slot`] and [`VoicePool::steal_policy`]; `None` when there
    /// are no slots, since a pool always holds at least one.
    pub fn from_slots(slots: Vec<VoiceSlot>, steal_policy: StealPolicy) -> (r: Option<Self>)
        ensures
            r is Some <==> slots@.len() >= 1,
            r matches Some(p) ==> p@ == slots@ && p.policy() == steal_policy,
    {
        if slots.len() == 0 {
            None
        } else {
            let max_voices = slots.len();
            Some(VoicePool { slots, steal_policy, max_voices })
        }
    }

    /// The pool's steal policy.
    pub fn steal_policy(&self) -> (r: StealPolicy)
        ensures
            r == self.policy(),
    {
        self.steal_policy
    }

    /// Returns the maximum number of voices.
    pub fn max_voices(&self) -> (r: usize)
        ensures
            r == self@.len(),
            r >= 1,
    {
        proof {
            use_type_invariant(self);
        }
        self.max_voices
    }

    /// Returns the number of currently active voices.
    pub fn active_count(&self) -> (r: usize)
        ensures
            r == active_count_of(self@),
    {
        let n = self.slots.len();
        let mut count: usize = 0;
        let mut i: usize = 0;
        while i < n
            invariant
                n == self.slots@.len(),
                i <= n,
                count == active_count_of(self.slots@.take(i as int)),
            decreases n - i,
        {
            proof {
                assert(self.slots@.take(i + 1).drop_last() =~= self.slots@.take(i as int));
                lemma_active_count_bounded(self.slots@.take(i as int));
            }
            if self.slots[i].active {
                count = count + 1;
            }
            i = i + 1;
        }
        proof {
            assert(self.slots@.take(n as int) =~= self.slots@);
        }
        count
    }

    /// Requests a voice slot for a sound of the given `priority` (higher is
    /// harder to steal) and user `tag`.
    ///
    /// The first free slot is taken if there is one. A full pool steals the
    /// oldest voice under `Oldest`; under `LowestPriority` it steals the
    /// voice of lowest priority (the oldest among equals), but only when the
    /// new voice's priority is at least as high; under `Reject` it refuses.
    /// The granted slot becomes active with the given priority and tag and
    /// age 0; a refused request changes nothing.
    pub fn allocate(&mut self, priority: u8, tag: u32) -> (r: Option<usize>)
        ensures
            r is Some <==> allocation_granted(old(self)@, old(self).policy(), priority),
            r matches Some(i) ==> allocation_slot(old(self)@, old(self).policy(), i as int)
                && final(self)@ == old(self)@.update(i as int, fresh_voice(priority, tag)),
            r is None ==> final(self)@ == old(self)@,
            final(self)@.len() == old(self)@.len(),
            final(self).policy() == old(self).policy(),
            pool_step(
                old(self)@,
                old(self).policy(),
                PoolOp::Allocate { priority, tag },
                final(self)@,
            ),
    {
        proof {
            use_type_invariant(&*self);
        }
        let n = self.slots.len();
        let mut i: usize = 0;
        while i < n
            invariant
                n == self.slots@.len(),
                self.slots@ == old(self).slots@,
                self.steal_policy == old(self).steal_policy,
                self.max_voices == n,
                i <= n,
                forall|j: int| 0 <= j < i ==> self.slots@[j].active,
            decreases n - i,
        {
            if !self.slots[i].active {
                assert(is_first_free(self.slots@, i as int));
                assert(has_free(self.slots@));
                self.slots[i] = VoiceSlot { active: true, priority, age: 0, tag };
                assert(allocation_slot(old(self)@, old(self).policy(), i as int));
                assert(self@ == old(self)@.update(i as int, fresh_voice(priority, tag)));
                return Some(i);
            }
            i = i + 1;
        }
        assert(!has_free(old(self)@));
        match self.steal_policy {
            StealPolicy::Reject => None,
            StealPolicy::Oldest => {
                let idx = oldest_index(&self.slots);
                self.slots[idx] = VoiceSlot { active: true, priority, age: 0, tag };
                assert(allocation_slot(old(self)@, old(self).policy(), idx as int));
                assert(self@ == old(self)@.update(idx as int, fresh_voice(priority, tag)));
                Some(idx)
            },
            StealPolicy::LowestPriority => {
                let idx = lowest_priority_index(&self.slots);
                if priority >= self.slots[idx].priority {
                    assert(old(self)@[idx as int].priority <= priority);
                    self.slots[idx] = VoiceSlot { active: true, priority, age: 0, tag };
                    assert(allocation_slot(old(self)@, old(self).policy(), idx as int));
                    assert(self@ == old(self)@.update(idx as int, fresh_voice(priority, tag)));
                    Some(idx)
                } else {
                    assert forall|j: int| 0 <= j < old(self)@.len() implies !(
                    #[trigger] old(self)@[j].priority <= priority) by {
                        assert(!steals_before(old(self)@[j], old(self)@[idx as int]));
                    }
                    None
                }
            },
        }
    }

    /// Releases a voice slot, making it available for reuse; an index out
    /// of range is ignored.
    pub fn release(&mut self, index: usize)
        ensures
            final(self)@ == if index < old(self)@.len() {
                old(self)@.update(index as int, released_voice(old(self)@[index as int]))
            } else {
                old(self)@
            },
            final(self)@.len() == old(self)@.len(),
            final(self).policy() == old(self).policy(),
            pool_step(old(self)@, old(self).policy(), PoolOp::Release { index }, final(self)@),
    {
        proof {
            use_type_invariant(&*self);
        }
        if index < self.slots.len() {
            let v = self.slots[index];
            self.slots[index] = VoiceSlot { active: false, age: 0, ..v };
        }
    }

    /// Advances the age counter for all active voices. Call once per audio
    /// block.
    pub fn tick(&mut self)
        ensures
            final(self)@.len() == old(self)@.len(),
            forall|i: int| 0 <= i < old(self)@.len() ==> final(self)@[i] == aged_voice(old(self)@[i]),
            final(self).policy() == old(self).policy(),
            pool_step(old(self)@, old(self).policy(), PoolOp::Tick, final(self)@),
    {
        proof {
            use_type_invariant(&*self);
        }
        let n = self.slots.len();
        let mut i: usize = 0;
        while i < n
            invariant
                n == self.slots@.len(),
                n == old(self).slots@.len(),
                self.steal_policy == old(self).steal_policy,
                self.max_voices == n,
                i <= n,
                forall|j: int| 0 <= j < i ==> self.slots@[j] == aged_voice(old(self).slots@[j]),
                forall|j: int| i <= j < n ==> self.slots@[j] == old(self).slots@[j],
            decreases n - i,
        {
            let v = self.slots[i];
            if v.active {
                self.slots[i] = VoiceSlot { age: v.age.saturating_add(1), ..v };
            }
            i = i + 1;
        }
    }

    /// Returns a reference to the voice slot at the given index, or `None`
    /// when the index is out of range.
    pub fn slot(&self, index: usize) -> (r: Option<&VoiceSlot>)
        ensures
            match r {
                Some(v) => index < self@.len() && *v == self@[index as int],
                None => index >= self@.len(),
            },
    {
        if index < self.slots.len() {
            Some(&self.slots[index])
        } else {
            None
        }
    }

    /// Returns a mutable reference to the voice slot at the given index, or
    /// `None` when the index is out of range.
    pub fn slot_mut(&mut self, index: usize) -> (r: Option<&mut VoiceSlot>)
        ensures
            index < old(self)@.len() <==> r is Some,
            r is None ==> final(self)@ == old(self)@,
            r matches Some(m) ==> *m == old(self)@[index as int]
                && final(self)@ == old(self)@.update(index as int, *final(m)),
            final(self)@.len() == old(self)@.len(),
            final(self).policy() == old(self).policy(),
            r matches Some(m) ==> pool_step(
                old(self)@,
                old(self).policy(),
                PoolOp::Write { index, slot: *final(m) },
                final(self)@,
            ),
    {
        proof {
            use_type_invariant(&*self);
        }
        if index < self.slots.len() {
            Some(&mut self.slots[index])
        } else {
            None
        }
    }

    /// Returns the active voices with their slot indices, in slot order.
    pub fn active_voices(&self) -> (r: Vec<(usize, VoiceSlot)>)
        ensures
            r@ == active_entries(self@),
    {
        let n = self.slots.len();
        let mut out: Vec<(usize, VoiceSlot)> = Vec::new();
        let mut i: usize = 0;
        while i < n
            invariant
                n == self.slots@.len(),
                i <= n,
                out@ == active_entries(self.slots@.take(i as int)),
            decreases n - i,
        {
            proof {
                assert(self.slots@.take(i + 1).drop_last() =~= self.slots@.take(i as int));
            }
            let v = self.slots[i];
            if v.active {
                out.push((i, v));
            }
            i = i + 1;
        }
        proof {
            assert(self.slots@.take(n as int) =~= self.slots@);
        }
        out
    }

    /// Releases all voices.
    pub fn release_all(&mut self)
        ensures
            final(self)@.len() == old(self)@.len(),
            forall|i: int| 0 <= i < old(self)@.len() ==> final(self)@[i] == released_voice(old(self)@[i]),
            final(self).policy() == old(self).policy(),
            pool_step(old(self)@, old(self).policy(), PoolOp::ReleaseAll, final(self)@),
    {
        proof {
            use_type_invariant(&*self);
        }
        let n = self.slots.len();
        let mut i: usize = 0;
        while i < n
            invariant
                n == self.slots@.len(),
                n == old(self).slots@.len(),
                self.steal_policy == old(self).steal_policy,
                self.max_voices == n,
                i <= n,
                forall|j: int| 0 <= j < i ==> self.slots@[j] == released_voice(old(self).slots@[j]),
                forall|j: int| i <= j < n ==> self.slots@[j] == old(self).slots@[j],
            decreases n - i,
        {
            let v = self.slots[i];
            self.slots[i] = VoiceSlot { active: false, age: 0, ..v };
            i = i + 1;
        }
    }
}


// ---------------------------------------------------------------------------
// Laws of the pool
// ---------------------------------------------------------------------------

/// Overwriting one slot changes the active count by the difference in that
/// slot's activity.
pub proof fn lemma_active_count_update(s: Seq<VoiceSlot>, i: int, v: VoiceSlot)
    requires
        0 <= i < s.len(),
    ensures
        active_count_of(s.update(i, v)) + (if s[i].active {
            1int
        } else {
            0int
        }) == active_count_of(s) + (if v.active {
            1int
        } else {
            0int
        }),
    decreases s.len(),
{
    let t = s.update(i, v);
    if i == s.len() - 1 {
        assert(t.drop_last() =~= s.drop_last());
    } else {
        assert(t.drop_last() =~= s.drop_last().update(i, v));
        lemma_active_count_update(s.drop_last(), i, v);
    }
}

/// The list of active voices has exactly as many entries as the active
/// count: `active_voices` and `active_count` agree.
pub proof fn lemma_active_entries_match_count(s: Seq<VoiceSlot>)
    ensures
        active_entries(s).len() == active_count_of(s),
    decreases s.len(),
{
    if s.len() > 0 {
        lemma_active_entries_match_count(s.drop_last());
    }
}

/// Every listed entry names an active slot by its index, with that slot's
/// contents, and no slot is listed twice.
pub proof fn lemma_active_entries_sound(s: Seq<VoiceSlot>)
    requires
        s.len() <= usize::MAX + 1,
    ensures
        forall|k: int|
            0 <= k < active_entries(s).len() ==> {
                let (idx, v) = #[trigger] active_entries(s)[k];
                &&& idx < s.len()
                &&& v == s[idx as int]
                &&& v.active
            },
        forall|k: int, l: int|
            0 <= k < l < active_entries(s).len() ==> (#[trigger] active_entries(s)[k]).0 < (
            #[trigger] active_entries(s)[l]).0,
    decreases s.len(),
{
    if s.len() > 0 {
        let p = s.drop_last();
        lemma_active_entries_sound(p);
        assert forall|k: int| 0 <= k < active_entries(p).len() implies (#[trigger] active_entries(
            p,
        )[k]).0 < s.len() - 1 by {}
    }
}

/// An active slot is always listed among the active voices.
pub proof fn lemma_active_slot_listed(s: Seq<VoiceSlot>, i: int)
    requires
        0 <= i < s.len(),
        s.len() <= usize::MAX + 1,
        s[i].active,
    ensures
        active_entries(s).contains((i as usize, s[i])),
    decreases s.len(),
{
    let p = s.drop_last();
    if i == s.len() - 1 {
        assert(active_entries(s).last() == (i as usize, s[i]));
    } else {
        lemma_active_slot_listed(p, i);
        let k = choose|k: int| 0 <= k < active_entries(p).len() && active_entries(p)[k] == (
        i as usize, p[i]);
        assert(active_entries(s)[k] == (i as usize, s[i]));
    }
}

/// No voice is ever active beyond the pool's capacity.
pub proof fn lemma_capacity_bounds_active(s: Seq<VoiceSlot>)
    ensures
        active_count_of(s) <= s.len(),
        active_entries(s).len() <= s.len(),
{
    lemma_active_count_bounded(s);
    lemma_active_entries_match_count(s);
}

/// A request always gets a slot while one is free, whatever the policy.
pub proof fn lemma_free_slot_always_granted(s: Seq<VoiceSlot>, policy: StealPolicy, priority: u8)
    requires
        has_free(s),
    ensures
        allocation_granted(s, policy, priority),
{
}

/// Under `Reject` a full pool refuses every request.
pub proof fn lemma_reject_never_steals(s: Seq<VoiceSlot>, priority: u8)
    requires
        !has_free(s),
    ensures
        !allocation_granted(s, StealPolicy::Reject, priority),
{
}

/// Under `LowestPriority` a stolen voice never outranks the voice that
/// replaces it.
pub proof fn lemma_lowest_priority_victim_outranked(s: Seq<VoiceSlot>, priority: u8, i: int)
    requires
        !has_free(s),
        allocation_granted(s, StealPolicy::LowestPriority, priority),
        allocation_slot(s, StealPolicy::LowestPriority, i),
    ensures
        s[i].priority <= priority,
{
    let j = choose|j: int| 0 <= j < s.len() && #[trigger] s[j].priority <= priority;
    assert(!steals_before(s[j], s[i]));
}

/// Granting a request sets exactly one slot to the new voice: the active
/// count grows by one when a free slot is taken and stays when a voice is
/// stolen, and the new voice is listed among the active voices.
pub proof fn lemma_allocation_effect(
    s: Seq<VoiceSlot>,
    policy: StealPolicy,
    i: int,
    priority: u8,
    tag: u32,
)
    requires
        allocation_slot(s, policy, i),
        s.len() <= usize::MAX + 1,
    ensures
        0 <= i < s.len(),
        active_count_of(s.update(i, fresh_voice(priority, tag))) == active_count_of(s) + (if has_free(
            s,
        ) {
            1int
        } else {
            0int
        }),
        s.update(i, fresh_voice(priority, tag))[i] == fresh_voice(priority, tag),
        active_entries(s.update(i, fresh_voice(priority, tag))).contains(
            (i as usize, fresh_voice(priority, tag)),
        ),
{
    let t = s.update(i, fresh_voice(priority, tag));
    if !has_free(s) {
        assert(s[i].active);
    }
    lemma_active_count_update(s, i, fresh_voice(priority, tag));
    lemma_active_slot_listed(t, i);
}

/// Releasing a slot in range frees it: the active count drops by one if
/// the slot was active and the slot is no longer listed.
pub proof fn lemma_release_effect(s: Seq<VoiceSlot>, i: int)
    requires
        0 <= i < s.len(),
        s.len() <= usize::MAX + 1,
    ensures
        active_count_of(s.update(i, released_voice(s[i]))) + (if s[i].active {
            1int
        } else {
            0int
        }) == active_count_of(s),
        forall|k: int|
            0 <= k < active_entries(s.update(i, released_voice(s[i]))).len() ==> (
            #[trigger] active_entries(s.update(i, released_voice(s[i])))[k]).0 != i,
{
    let t = s.update(i, released_voice(s[i]));
    lemma_active_count_update(s, i, released_voice(s[i]));
    lemma_active_entries_sound(t);
}

/// In a full pool, the slot of a released voice is the one the next
/// request gets, whatever the policy.
pub proof fn lemma_released_slot_reused(
    s: Seq<VoiceSlot>,
    policy: StealPolicy,
    i: int,
    priority: u8,
)
    requires
        !has_free(s),
        0 <= i < s.len(),
    ensures
        allocation_granted(s.update(i, released_voice(s[i])), policy, priority),
        allocation_slot(s.update(i, released_voice(s[i])), policy, i),
{
    let t = s.update(i, released_voice(s[i]));
    assert(!t[i].active);
    assert(has_free(t));
    assert forall|j: int| 0 <= j < i implies t[j].active by {
        assert(s[j].active);
    }
}

/// No call ever changes a pool's capacity: along any sequence of calls,
/// each leaving a pool that `pool_step` allows, every pool has as many slots
/// as the first. With the contracts of `new` and `max_voices` this makes
/// `max_voices()` equal to `max(n, 1)` after every call on a pool made by
/// `new(n, policy)`.
pub proof fn lemma_capacity_never_changes(
    policy: StealPolicy,
    ops: Seq<PoolOp>,
    states: Seq<Seq<VoiceSlot>>,
)
    requires
        states.len() == ops.len() + 1,
        forall|k: int| 0 <= k < ops.len() ==> pool_step(states[k], policy, ops[k], states[k + 1]),
    ensures
        forall|k: int| 0 <= k < states.len() ==> (#[trigger] states[k]).len() == states[0].len(),
    decreases ops.len(),
{
    if ops.len() > 0 {
        let n = ops.len() - 1;
        lemma_capacity_never_changes(policy, ops.take(n), states.take(n + 1));
        assert forall|k: int| 0 <= k < states.len() implies (#[trigger] states[k]).len()
            == states[0].len() by {
            if k < n + 1 {
                assert(states.take(n + 1)[k] == states[k]);
            } else {
                assert(states.take(n + 1)[n] == states[n]);
                lemma_step_keeps_capacity(states[n], policy, ops[n], states[n + 1]);
            }
        }
    }
}

/// One call keeps the number of slots.
pub proof fn lemma_step_keeps_capacity(
    s: Seq<VoiceSlot>,
    policy: StealPolicy,
    op: PoolOp,
    t: Seq<VoiceSlot>,
)
    requires
        pool_step(s, policy, op, t),
    ensures
        t.len() == s.len(),
{
}

/// After releasing all voices none is active and none is listed.
pub proof fn lemma_release_all_effect(s: Seq<VoiceSlot>, t: Seq<VoiceSlot>)
    requires
        t.len() == s.len(),
        forall|i: int| 0 <= i < s.len() ==> t[i] == released_voice(s[i]),
    ensures
        active_count_of(t) == 0,
        active_entries(t).len() == 0,
    decreases t.len(),
{
    if t.len() > 0 {
        lemma_release_all_effect(s.drop_last(), t.drop_last());
    }
    lemma_active_entries_match_count(t);
}

/// A tick changes only ages: the same slots stay active with the same
/// priorities and tags, and active voices grow older by one tick unless
/// already at the largest age.
pub proof fn lemma_tick_effect(s: Seq<VoiceSlot>, t: Seq<VoiceSlot>)
    requires
        t.len() == s.len(),
        forall|i: int| 0 <= i < s.len() ==> t[i] == aged_voice(s[i]),
    ensures
        active_count_of(t) == active_count_of(s),
        forall|i: int|
            0 <= i < s.len() ==> {
                &&& (#[trigger] t[i]).active == s[i].active
                &&& t[i].priority == s[i].priority
                &&& t[i].tag == s[i].tag
                &&& s[i].active && s[i].age < u64::MAX ==> t[i].age == s[i].age + 1
            },
    decreases t.len(),
{
    if t.len() > 0 {
        lemma_tick_effect(s.drop_last(), t.drop_last());
    }
}

} // verus!
