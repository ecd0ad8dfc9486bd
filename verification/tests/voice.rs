use garjan::voice::{StealPolicy, VoicePool, VoiceSlot};

#[test]
fn test_voice_pool_basic() {
    let mut pool = VoicePool::new(4, StealPolicy::Oldest);
    assert_eq!(pool.max_voices(), 4);
    assert_eq!(pool.active_count(), 0);

    let idx = pool.allocate(5, 100).unwrap();
    assert_eq!(idx, 0);
    assert_eq!(pool.active_count(), 1);
    assert!(pool.slot(0).unwrap().active);
    assert_eq!(pool.slot(0).unwrap().tag, 100);

    pool.release(0);
    assert_eq!(pool.active_count(), 0);
}

#[test]
fn test_voice_pool_fill_and_steal_oldest() {
    let mut pool = VoicePool::new(2, StealPolicy::Oldest);
    pool.allocate(5, 1).unwrap(); // slot 0
    pool.tick();
    pool.allocate(5, 2).unwrap(); // slot 1
    assert_eq!(pool.active_count(), 2);

    // Pool full — should steal oldest (slot 0, age=1)
    let stolen = pool.allocate(5, 3).unwrap();
    assert_eq!(stolen, 0);
    assert_eq!(pool.slot(0).unwrap().tag, 3);
}

#[test]
fn test_voice_pool_steal_lowest_priority() {
    let mut pool = VoicePool::new(2, StealPolicy::LowestPriority);
    pool.allocate(10, 1).unwrap(); // slot 0, high priority
    pool.allocate(1, 2).unwrap(); // slot 1, low priority

    // New voice with priority 5 — should steal slot 1 (priority 1)
    let stolen = pool.allocate(5, 3).unwrap();
    assert_eq!(stolen, 1);
    assert_eq!(pool.slot(1).unwrap().tag, 3);
}

#[test]
fn test_voice_pool_no_steal_policy() {
    let mut pool = VoicePool::new(1, StealPolicy::Reject);
    pool.allocate(5, 1).unwrap();
    assert!(pool.allocate(5, 2).is_none()); // rejected
}

#[test]
fn test_voice_pool_no_steal_higher_priority() {
    let mut pool = VoicePool::new(1, StealPolicy::LowestPriority);
    pool.allocate(10, 1).unwrap(); // high priority
    // Lower priority voice should not steal
    assert!(pool.allocate(5, 2).is_none());
}

#[test]
fn test_voice_pool_tick_ages() {
    let mut pool = VoicePool::new(2, StealPolicy::Oldest);
    pool.allocate(5, 1).unwrap();
    assert_eq!(pool.slot(0).unwrap().age, 0);
    pool.tick();
    assert_eq!(pool.slot(0).unwrap().age, 1);
    pool.tick();
    assert_eq!(pool.slot(0).unwrap().age, 2);
}

#[test]
fn test_voice_pool_release_all() {
    let mut pool = VoicePool::new(4, StealPolicy::Oldest);
    pool.allocate(5, 1).unwrap();
    pool.allocate(5, 2).unwrap();
    pool.allocate(5, 3).unwrap();
    assert_eq!(pool.active_count(), 3);
    pool.release_all();
    assert_eq!(pool.active_count(), 0);
}

#[test]
fn test_voice_pool_active_voices_iterator() {
    let mut pool = VoicePool::new(4, StealPolicy::Oldest);
    pool.allocate(5, 10).unwrap();
    pool.allocate(3, 20).unwrap();
    let tags: Vec<u32> = pool.active_voices().iter().map(|(_, s)| s.tag).collect();
    assert_eq!(tags, vec![10, 20]);
}

// ---------------------------------------------------------------------------
// Further scenarios of the pool
// ---------------------------------------------------------------------------

#[test]
fn voice_pool_zero_capacity_holds_one_slot() {
    let mut pool = VoicePool::new(0, StealPolicy::Reject);
    assert_eq!(pool.max_voices(), 1);
    assert_eq!(pool.allocate(1, 7), Some(0));
    assert_eq!(pool.allocate(1, 8), None);
}

#[test]
fn voice_pool_new_slots_are_idle() {
    let pool = VoicePool::new(3, StealPolicy::Oldest);
    for i in 0..3 {
        let s = pool.slot(i).unwrap();
        assert!(!s.active);
        assert_eq!((s.priority, s.age, s.tag), (0, 0, 0));
    }
    assert!(pool.slot(3).is_none());
}

#[test]
fn voice_pool_reuses_first_free_slot() {
    let mut pool = VoicePool::new(3, StealPolicy::Reject);
    pool.allocate(1, 1).unwrap();
    pool.allocate(1, 2).unwrap();
    pool.allocate(1, 3).unwrap();
    pool.release(1);
    pool.release(0);
    assert_eq!(pool.allocate(9, 4), Some(0));
    assert_eq!(pool.allocate(9, 5), Some(1));
    assert_eq!(pool.allocate(9, 6), None);
}

#[test]
fn voice_pool_release_keeps_priority_and_tag() {
    let mut pool = VoicePool::new(2, StealPolicy::Oldest);
    pool.allocate(7, 42).unwrap();
    pool.tick();
    pool.release(0);
    let s = *pool.slot(0).unwrap();
    assert_eq!(s, VoiceSlot { active: false, priority: 7, age: 0, tag: 42 });
    // out of range is ignored
    pool.release(99);
    assert_eq!(pool.active_count(), 0);
}

#[test]
fn voice_pool_oldest_ties_go_to_last() {
    let mut pool = VoicePool::new(3, StealPolicy::Oldest);
    pool.allocate(1, 1).unwrap();
    pool.allocate(1, 2).unwrap();
    pool.allocate(1, 3).unwrap();
    pool.tick();
    // all of age 1: the last of them is stolen
    assert_eq!(pool.allocate(1, 4), Some(2));
    assert_eq!(pool.slot(2).unwrap().age, 0);
}

#[test]
fn voice_pool_lowest_priority_ties_prefer_older_then_first() {
    let mut pool = VoicePool::new(3, StealPolicy::LowestPriority);
    pool.allocate(2, 1).unwrap();
    pool.tick();
    pool.allocate(2, 2).unwrap();
    pool.allocate(2, 3).unwrap();
    // slot 0 is the oldest of the lowest priority
    assert_eq!(pool.allocate(2, 4), Some(0));
    // now slots 1 and 2 tie on priority and age: the first is stolen
    pool.tick();
    pool.release(0);
    pool.allocate(3, 5).unwrap();
    assert_eq!(pool.allocate(2, 6), Some(1));
}

#[test]
fn voice_pool_equal_priority_may_steal() {
    let mut pool = VoicePool::new(1, StealPolicy::LowestPriority);
    pool.allocate(5, 1).unwrap();
    assert_eq!(pool.allocate(5, 2), Some(0));
    assert_eq!(pool.slot(0).unwrap().tag, 2);
}

#[test]
fn voice_pool_tick_only_ages_active_voices() {
    let mut pool = VoicePool::new(2, StealPolicy::Oldest);
    pool.allocate(1, 1).unwrap();
    pool.tick();
    pool.tick();
    assert_eq!(pool.slot(0).unwrap().age, 2);
    assert_eq!(pool.slot(1).unwrap().age, 0);
    assert!(!pool.slot(1).unwrap().active);
}

#[test]
fn voice_pool_slot_mut_edits_in_place() {
    let mut pool = VoicePool::new(2, StealPolicy::Oldest);
    pool.allocate(1, 1).unwrap();
    pool.slot_mut(0).unwrap().tag = 77;
    assert_eq!(pool.slot(0).unwrap().tag, 77);
    assert!(pool.slot_mut(2).is_none());
}

#[test]
fn voice_pool_active_voices_lists_indices() {
    let mut pool = VoicePool::new(4, StealPolicy::Oldest);
    pool.allocate(1, 10).unwrap();
    pool.allocate(1, 20).unwrap();
    pool.allocate(1, 30).unwrap();
    pool.release(1);
    let listed: Vec<(usize, u32)> = pool.active_voices().iter().map(|(i, s)| (*i, s.tag)).collect();
    assert_eq!(listed, vec![(0, 10), (2, 30)]);
    assert_eq!(pool.active_voices().len(), pool.active_count());
}

#[test]
fn voice_pool_full_pool_reuses_released_slot() {
    for policy in [StealPolicy::Oldest, StealPolicy::LowestPriority, StealPolicy::Reject] {
        let mut pool = VoicePool::new(3, policy);
        for tag in 0..3 {
            pool.allocate(9, tag).unwrap();
        }
        pool.tick();
        pool.release(1);
        assert_eq!(pool.allocate(0, 77), Some(1));
        assert_eq!(pool.slot(1).unwrap().tag, 77);
        assert_eq!(pool.active_count(), 3);
    }
}

#[test]
fn voice_pool_clone_is_equal_and_independent() {
    let mut pool = VoicePool::new(3, StealPolicy::LowestPriority);
    pool.allocate(4, 11).unwrap();
    pool.tick();
    let copy = pool.clone();
    assert_eq!(copy.max_voices(), 3);
    assert_eq!(copy.steal_policy(), StealPolicy::LowestPriority);
    for i in 0..3 {
        assert_eq!(copy.slot(i), pool.slot(i));
    }
    pool.release_all();
    assert_eq!(copy.active_count(), 1);
    assert_eq!(pool.active_count(), 0);
}

#[test]
fn voice_pool_rebuilt_from_saved_slots() {
    let mut pool = VoicePool::new(2, StealPolicy::Oldest);
    pool.allocate(7, 5).unwrap();
    pool.tick();
    let slots: Vec<VoiceSlot> = (0..pool.max_voices()).map(|i| *pool.slot(i).unwrap()).collect();
    let back = VoicePool::from_slots(slots, pool.steal_policy()).unwrap();
    assert_eq!(back.max_voices(), 2);
    assert_eq!(back.steal_policy(), StealPolicy::Oldest);
    assert_eq!(back.slot(0).unwrap().age, 1);
    assert_eq!(back.slot(0).unwrap().tag, 5);
    assert!(VoicePool::from_slots(Vec::new(), StealPolicy::Oldest).is_none());
}

#[test]
fn voice_pool_capacity_never_changes() {
    for (n, expected) in [(0usize, 1usize), (1, 1), (3, 3)] {
        for policy in [StealPolicy::Oldest, StealPolicy::LowestPriority, StealPolicy::Reject] {
            let mut pool = VoicePool::new(n, policy);
            assert_eq!(pool.max_voices(), expected);
            for step in 0..40u32 {
                match step % 5 {
                    0 | 1 => {
                        let _ = pool.allocate((step % 7) as u8, step);
                    }
                    2 => pool.release((step as usize) % 5),
                    3 => pool.tick(),
                    _ => {
                        if let Some(v) = pool.slot_mut((step as usize) % 4) {
                            v.active = !v.active;
                        }
                        if step % 20 == 19 {
                            pool.release_all();
                        }
                    }
                }
                assert_eq!(pool.max_voices(), expected);
                assert!(pool.active_count() <= expected);
            }
        }
    }
}
