//! The time step of a simulation and the tick period derived from it.
use vstd::prelude::*;
use vstd::arithmetic::power2::{lemma2_to64, pow2};
use crate::binary32::{
    biased_exponent, binary_exponent, check_nan, check_positive, exponent_field, is_nan,
    is_positive, is_zero, magnitude_nanos, nanos_limit, round_half_even, seconds_to_nanos,
    sign_bit, significand, MAX_SECONDS_EXPONENT,
};

verus! {

/// The time step used when none is given: the single-precision number
/// nearest to twelve milliseconds.
pub const DEFAULT_DT_BITS: u32 = 0x3C44_9BA6;

/// Why a time step was refused.
#[derive(Clone, Copy, PartialEq, Eq, Structural, Debug)]
pub enum TimeStepError {
    /// The pattern is not a number.
    NotANumber,
    /// The number is zero or negative.
    NotPositive,
    /// The number is 2^64 seconds or more, or infinite.
    TooLarge,
}

/// The reason for which `bits` is refused as a time step, if there is one.
pub open spec fn time_step_error(bits: u32) -> Option<TimeStepError> {
    if is_nan(bits) {
        Some(TimeStepError::NotANumber)
    } else if !is_positive(bits) {
        Some(TimeStepError::NotPositive)
    } else if biased_exponent(bits) > MAX_SECONDS_EXPONENT {
        Some(TimeStepError::TooLarge)
    } else {
        None
    }
}

/// `bits` is a number of seconds greater than zero and below 2^64.
pub open spec fn valid_time_step(bits: u32) -> bool {
    time_step_error(bits) is None
}

/// A step of zero or less is refused as not positive.
pub proof fn lemma_step_of_zero_or_less_is_refused(bits: u32)
    requires
        !is_nan(bits),
        sign_bit(bits) || is_zero(bits),
    ensures
        time_step_error(bits) == Some(TimeStepError::NotPositive),
        !valid_time_step(bits),
{
}

/// The default step is accepted, and its period is twelve million
/// nanoseconds.
pub proof fn lemma_default_step_is_valid()
    ensures
        valid_time_step(DEFAULT_DT_BITS),
        magnitude_nanos(DEFAULT_DT_BITS) == 12_000_000,
{
    lemma2_to64();
    assert(biased_exponent(DEFAULT_DT_BITS) == 120);
    assert(significand(DEFAULT_DT_BITS) == 12_884_902);
    assert(binary_exponent(DEFAULT_DT_BITS) == -30);
    assert(pow2(30) == 0x4000_0000);
    assert(round_half_even(12_884_902 * 1_000_000_000, 0x4000_0000) == 12_000_000);
}

/// The step that a simulation runs with when asked for `dt`.
pub open spec fn effective_dt(dt: Option<u32>) -> u32 {
    match dt {
        Some(bits) => bits,
        None => DEFAULT_DT_BITS,
    }
}

/// A validated time step together with the period of one tick.
///
/// The period is the step rounded to whole nanoseconds. It serves both as
/// the longest wait for a control action and as the interval between ticks.
#[derive(Clone, Copy, Debug)]
pub struct TimeStep {
    bits: u32,
    secs: u64,
    subsec_nanos: u32,
}

impl TimeStep {
    #[verifier::type_invariant]
    spec fn well_formed(self) -> bool {
        &&& valid_time_step(self.bits)
        &&& self.subsec_nanos < 1_000_000_000
        &&& self.secs * 1_000_000_000 + self.subsec_nanos == magnitude_nanos(self.bits)
    }

    /// The step in seconds, as the bit pattern it was given with.
    pub closed spec fn spec_bits(&self) -> u32 {
        self.bits
    }

    /// The whole seconds of the period.
    pub closed spec fn spec_period_secs(&self) -> u64 {
        self.secs
    }

    /// The nanoseconds of the period beyond its whole seconds.
    pub closed spec fn spec_period_subsec_nanos(&self) -> u32 {
        self.subsec_nanos
    }

    /// The period of one tick in nanoseconds.
    pub open spec fn period_nanos(&self) -> nat {
        magnitude_nanos(self.spec_bits())
    }

    /// Validates a time step and derives its period.
    ///
    /// A step is accepted exactly when it is a number greater than zero and
    /// below 2^64 seconds; otherwise the error names the first of these that
    /// fails.
    pub fn new(bits: u32) -> (r: Result<TimeStep, TimeStepError>)
        ensures
            match r {
                Ok(step) => time_step_error(bits) is None && step.spec_bits() == bits,
                Err(e) => time_step_error(bits) == Some(e),
            },
            sign_bit(bits) || is_zero(bits) ==> r is Err,
    {
        if check_nan(bits) {
            return Err(TimeStepError::NotANumber);
        }
        if !check_positive(bits) {
            return Err(TimeStepError::NotPositive);
        }
        if exponent_field(bits) > MAX_SECONDS_EXPONENT {
            return Err(TimeStepError::TooLarge);
        }
        match seconds_to_nanos(bits) {
            Some(total) => {
                let secs: u64 = (total / 1_000_000_000) as u64;
                let subsec_nanos: u32 = (total % 1_000_000_000) as u32;
                Ok(TimeStep { bits, secs, subsec_nanos })
            },
            None => Err(TimeStepError::TooLarge),
        }
    }

    /// Validates `dt`, or the default step of twelve milliseconds where none
    /// is given.
    pub fn or_default(dt: Option<u32>) -> (r: Result<TimeStep, TimeStepError>)
        ensures
            match r {
                Ok(step) => time_step_error(effective_dt(dt)) is None && step.spec_bits()
                    == effective_dt(dt),
                Err(e) => time_step_error(effective_dt(dt)) == Some(e),
            },
            dt is None ==> r is Ok,
    {
        proof {
            lemma_default_step_is_valid();
        }
        match dt {
            Some(bits) => TimeStep::new(bits),
            None => TimeStep::new(DEFAULT_DT_BITS),
        }
    }

    /// The step in seconds, as a bit pattern.
    #[verifier::when_used_as_spec(spec_bits)]
    pub fn bits(&self) -> (b: u32)
        ensures
            b == self.spec_bits(),
            valid_time_step(b),
    {
        proof {
            use_type_invariant(self);
        }
        self.bits
    }

    /// The whole seconds of the period.
    #[verifier::when_used_as_spec(spec_period_secs)]
    pub fn period_secs(&self) -> (s: u64)
        ensures
            s == self.spec_period_secs(),
            s == self.period_nanos() / 1_000_000_000,
    {
        proof {
            use_type_invariant(self);
        }
        self.secs
    }

    /// The nanoseconds of the period beyond its whole seconds.
    #[verifier::when_used_as_spec(spec_period_subsec_nanos)]
    pub fn period_subsec_nanos(&self) -> (n: u32)
        ensures
            n == self.spec_period_subsec_nanos(),
            n == self.period_nanos() % 1_000_000_000,
            n < 1_000_000_000,
    {
        proof {
            use_type_invariant(self);
        }
        self.subsec_nanos
    }

    /// The period of one tick in nanoseconds.
    pub fn period_total_nanos(&self) -> (total: u128)
        ensures
            total == self.period_nanos(),
            total < nanos_limit(),
    {
        proof {
            use_type_invariant(self);
        }
        self.secs as u128 * 1_000_000_000 + self.subsec_nanos as u128
    }
}

} // verus!
