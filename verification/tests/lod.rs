use garjan::lod::Quality;

#[test]
fn scale_modes_exact_shares() {
    assert_eq!(Quality::Full.scale_modes(12), 12);
    assert_eq!(Quality::Reduced.scale_modes(12), 6);
    assert_eq!(Quality::Minimal.scale_modes(12), 3);
    assert_eq!(Quality::Reduced.scale_modes(7), 3);
    assert_eq!(Quality::Minimal.scale_modes(10), 2);
}

#[test]
fn scale_modes_never_below_one() {
    assert_eq!(Quality::Full.scale_modes(0), 1);
    assert_eq!(Quality::Reduced.scale_modes(1), 1);
    assert_eq!(Quality::Minimal.scale_modes(3), 1);
    assert_eq!(Quality::Minimal.scale_modes(4), 1);
    assert_eq!(Quality::Minimal.scale_modes(8), 2);
}

#[test]
fn scale_modes_rounds_like_single_precision() {
    // 2^24 + 1 is not representable in single precision: it rounds to 2^24
    assert_eq!(Quality::Full.scale_modes((1 << 24) + 1), 1 << 24);
    // 2^24 + 3 rounds up to 2^24 + 4
    assert_eq!(Quality::Full.scale_modes((1 << 24) + 3), (1 << 24) + 4);
    // a tie between 2^24 + 4 and 2^24 + 6 goes to the even significand
    assert_eq!(Quality::Full.scale_modes((1 << 24) + 5), (1 << 24) + 4);
    assert_eq!(Quality::Reduced.scale_modes((1 << 25) + 3), (1 << 24) + 2);
}

#[test]
fn scale_modes_saturates_at_the_largest_count() {
    assert_eq!(Quality::Full.scale_modes(usize::MAX), usize::MAX);
    assert_eq!(Quality::Reduced.scale_modes(usize::MAX), ((usize::MAX as u128 + 1) / 2) as usize);
}

#[test]
fn scale_modes_tiers_are_ordered() {
    for n in [0usize, 1, 2, 5, 17, 100, 1 << 30] {
        let f = Quality::Full.scale_modes(n);
        let r = Quality::Reduced.scale_modes(n);
        let m = Quality::Minimal.scale_modes(n);
        assert!(f >= r && r >= m && m >= 1);
    }
}

#[test]
fn scale_modes_agrees_with_float_formula() {
    for n in [0usize, 1, 3, 9, 255, 1000, (1 << 24) + 1, (1 << 24) + 3, 123_456_789, 1 << 40, usize::MAX] {
        for (q, f) in [(Quality::Full, 1.0f32), (Quality::Reduced, 0.5), (Quality::Minimal, 0.25)] {
            assert_eq!(q.scale_modes(n), ((n as f32 * f) as usize).max(1), "{n}");
        }
    }
}
