use garjan::modal::{ExcitationClock, ExcitationStep, ExcitationType};

fn run(kind: ExcitationType, n: usize) -> Vec<ExcitationStep> {
    let mut c = ExcitationClock::new(kind);
    c.trigger();
    (0..n).map(|_| c.advance()).collect()
}

#[test]
fn clock_is_silent_until_triggered() {
    let mut c = ExcitationClock::new(ExcitationType::Impulse);
    assert!(!c.is_active());
    assert_eq!(c.advance(), ExcitationStep::Silent);
    assert!(!c.is_active());
}

#[test]
fn impulse_sounds_once() {
    let steps = run(ExcitationType::Impulse, 4);
    assert_eq!(
        steps,
        vec![
            ExcitationStep::Impulse,
            ExcitationStep::Silent,
            ExcitationStep::Silent,
            ExcitationStep::Silent
        ]
    );
}

#[test]
fn noise_burst_sounds_for_its_duration() {
    let steps = run(ExcitationType::NoiseBurst { duration_samples: 3 }, 5);
    assert_eq!(&steps[..3], &[ExcitationStep::Noise; 3]);
    assert_eq!(&steps[3..], &[ExcitationStep::Silent; 2]);
}

#[test]
fn half_sine_reports_positions() {
    let steps = run(ExcitationType::HalfSine { duration_samples: 2 }, 3);
    assert_eq!(
        steps,
        vec![
            ExcitationStep::HalfSine { position: 0, duration: 2 },
            ExcitationStep::HalfSine { position: 1, duration: 2 },
            ExcitationStep::Silent
        ]
    );
}

#[test]
fn zero_length_burst_is_silent_and_stops() {
    let mut c = ExcitationClock::new(ExcitationType::NoiseBurst { duration_samples: 0 });
    c.trigger();
    assert!(c.is_active());
    assert_eq!(c.advance(), ExcitationStep::Silent);
    assert!(!c.is_active());
}

#[test]
fn retrigger_restarts_the_pulse() {
    let mut c = ExcitationClock::new(ExcitationType::NoiseBurst { duration_samples: 2 });
    c.trigger();
    c.advance();
    c.advance();
    c.advance();
    assert!(!c.is_active());
    c.trigger();
    assert!(c.is_active());
    assert_eq!(c.advance(), ExcitationStep::Noise);
    assert_eq!(c.excitation_type(), ExcitationType::NoiseBurst { duration_samples: 2 });
}

#[test]
fn clock_counts_elapsed_samples_until_spent() {
    let mut c = ExcitationClock::new(ExcitationType::NoiseBurst { duration_samples: 2 });
    assert_eq!(c.samples_elapsed(), 0);
    c.trigger();
    c.advance();
    assert_eq!(c.samples_elapsed(), 1);
    c.advance();
    c.advance();
    assert_eq!(c.samples_elapsed(), 3);
    assert!(!c.is_active());
    // A spent clock no longer moves.
    c.advance();
    assert_eq!(c.samples_elapsed(), 3);
    c.trigger();
    assert_eq!(c.samples_elapsed(), 0);
}

#[test]
fn clock_resumes_where_it_was_saved() {
    let kind = ExcitationType::HalfSine { duration_samples: 4 };
    let mut c = ExcitationClock::new(kind);
    c.trigger();
    c.advance();
    c.advance();
    let mut r = ExcitationClock::resume(c.excitation_type(), c.samples_elapsed(), c.is_active());
    assert_eq!(r.advance(), c.advance());
    assert_eq!(r.advance(), ExcitationStep::HalfSine { position: 3, duration: 4 });
    assert_eq!(r.advance(), ExcitationStep::Silent);
}
