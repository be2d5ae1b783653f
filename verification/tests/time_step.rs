use cartpole_sim::time_step::DEFAULT_DT_BITS;
use cartpole_sim::{TimeStep, TimeStepError};
use std::time::Duration;

fn refused(value: f32) -> TimeStepError {
    match TimeStep::new(value.to_bits()) {
        Ok(_) => panic!("{value} was accepted"),
        Err(e) => e,
    }
}

#[test]
fn default_is_twelve_milliseconds() {
    assert_eq!(DEFAULT_DT_BITS, 0.012f32.to_bits());
    let step = TimeStep::or_default(None).unwrap();
    assert_eq!(step.bits(), 0.012f32.to_bits());
    assert_eq!(step.period_secs(), 0);
    assert_eq!(step.period_subsec_nanos(), 12_000_000);
    assert_eq!(step.period_total_nanos(), 12_000_000);
}

#[test]
fn given_step_is_kept() {
    let step = TimeStep::or_default(Some(2.5f32.to_bits())).unwrap();
    assert_eq!(step.bits(), 2.5f32.to_bits());
    assert_eq!(step.period_secs(), 2);
    assert_eq!(step.period_subsec_nanos(), 500_000_000);
    assert_eq!(step.period_total_nanos(), 2_500_000_000);
}

#[test]
fn period_is_the_duration_of_the_step() {
    for value in [0.012f32, 0.008, 1.0e-3, 1.0, 2.7, 60.0, 1.0e10, 1.0e-9, 1.0e-30] {
        let step = TimeStep::new(value.to_bits()).unwrap();
        let period = Duration::new(step.period_secs(), step.period_subsec_nanos());
        assert_eq!(period, Duration::from_secs_f32(value), "{value}");
    }
}

#[test]
fn zero_is_not_positive() {
    assert_eq!(refused(0.0), TimeStepError::NotPositive);
    assert_eq!(refused(-0.0), TimeStepError::NotPositive);
}

#[test]
fn negative_steps_are_not_positive() {
    assert_eq!(refused(-0.012), TimeStepError::NotPositive);
    assert_eq!(refused(-1.0e-45), TimeStepError::NotPositive);
    assert_eq!(refused(f32::MIN), TimeStepError::NotPositive);
    assert_eq!(refused(f32::NEG_INFINITY), TimeStepError::NotPositive);
}

#[test]
fn not_a_number_is_refused_as_such() {
    assert_eq!(refused(f32::NAN), TimeStepError::NotANumber);
    assert_eq!(refused(-f32::NAN), TimeStepError::NotANumber);
}

#[test]
fn steps_beyond_a_duration_are_too_large() {
    assert_eq!(refused(f32::INFINITY), TimeStepError::TooLarge);
    assert_eq!(refused(f32::MAX), TimeStepError::TooLarge);
    assert_eq!(refused(18_446_744_073_709_551_616.0), TimeStepError::TooLarge);
}

#[test]
fn smallest_and_largest_steps_are_accepted() {
    let tiny = TimeStep::new(1).unwrap();
    assert_eq!(tiny.period_total_nanos(), 0);
    let huge = TimeStep::new(0x5F7F_FFFF).unwrap();
    assert_eq!(huge.period_secs(), 18_446_742_974_197_923_840);
    assert_eq!(huge.period_subsec_nanos(), 0);
}

#[test]
fn rejection_matches_the_comparison_with_zero() {
    let mut bits: u32 = 0;
    loop {
        let value = f32::from_bits(bits);
        if value <= 0.0 {
            assert_eq!(TimeStep::new(bits).err(), Some(TimeStepError::NotPositive));
        }
        if TimeStep::new(bits).is_ok() {
            assert!(value > 0.0);
        }
        match bits.checked_add(1_000_003) {
            Some(next) => bits = next,
            None => break,
        }
    }
}
