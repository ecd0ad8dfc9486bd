use garjan::weather::{thunder_segment, ThunderSegment};

#[test]
fn thunder_is_silent_until_the_sound_arrives() {
    assert_eq!(thunder_segment(0, 10, 3), ThunderSegment::Waiting);
    assert_eq!(thunder_segment(9, 10, 3), ThunderSegment::Waiting);
}

#[test]
fn close_thunder_cracks_then_rumbles() {
    assert_eq!(thunder_segment(10, 10, 3), ThunderSegment::Crack { position: 0 });
    assert_eq!(thunder_segment(12, 10, 3), ThunderSegment::Crack { position: 2 });
    assert_eq!(thunder_segment(13, 10, 3), ThunderSegment::Rumble { position: 0 });
    assert_eq!(thunder_segment(20, 10, 3), ThunderSegment::Rumble { position: 7 });
}

#[test]
fn distant_thunder_has_no_crack() {
    assert_eq!(thunder_segment(10, 10, 0), ThunderSegment::Rumble { position: 0 });
    assert_eq!(thunder_segment(0, 0, 0), ThunderSegment::Rumble { position: 0 });
}

#[test]
fn segments_come_in_order() {
    let rank = |s: ThunderSegment| match s {
        ThunderSegment::Waiting => 0,
        ThunderSegment::Crack { .. } => 1,
        ThunderSegment::Rumble { .. } => 2,
    };
    let mut last = 0;
    for p in 0..40 {
        let r = rank(thunder_segment(p, 7, 5));
        assert!(r >= last);
        last = r;
    }
    assert_eq!(last, 2);
}
