//! The integration scheme of the dynamics: semi-implicit Euler.
//!
//! The scheme fixes the order of the updates and nothing else. The equations
//! of motion and the arithmetic on scalars are floating-point work and come
//! from the caller as two functions: `accelerate`, which gives the linear
//! and the angular acceleration for a state, an action, the physical
//! constants and the time step; and `axpy`, which for `(y, a, x)` returns
//! `y + a * x`.
use vstd::prelude::*;
use crate::state::{State, StepInput};

verus! {

/// The linear and the angular acceleration of one step, each the bit pattern
/// of a single-precision number.
#[derive(Clone, Copy, PartialEq, Eq, Structural, Debug)]
pub struct Acceleration {
    /// Acceleration of the cart.
    pub x_ddot: u32,
    /// Angular acceleration of the pole.
    pub theta_ddot: u32,
}

/// `after` is a semi-implicit Euler step of length `dt` from `before` under
/// the accelerations `rate`: each velocity is advanced by its acceleration,
/// and each position is then advanced by the velocity that has just been
/// updated, not by the one before the step.
pub open spec fn euler_step<A: Fn(u32, u32, u32) -> u32>(
    axpy: A,
    before: State,
    rate: Acceleration,
    dt: u32,
    after: State,
) -> bool {
    &&& axpy.ensures((before.x_dot, dt, rate.x_ddot), after.x_dot)
    &&& axpy.ensures((before.x, dt, after.x_dot), after.x)
    &&& axpy.ensures((before.theta_dot, dt, rate.theta_ddot), after.theta_dot)
    &&& axpy.ensures((before.theta, dt, after.theta_dot), after.theta)
}

/// `next` is the state after one step from `input`: some accelerations that
/// `accelerate` gives for `input`, followed by a semi-implicit Euler step
/// under them.
pub open spec fn integrates<F: Fn(StepInput) -> Acceleration, A: Fn(u32, u32, u32) -> u32>(
    accelerate: F,
    axpy: A,
    input: StepInput,
    next: State,
) -> bool {
    exists|rate: Acceleration|
        {
            &&& #[trigger] accelerate.ensures((input,), rate)
            &&& euler_step(axpy, input.state, rate, input.dt, next)
        }
}

/// `axpy` gives one result for each triple of arguments.
pub open spec fn deterministic_arithmetic<A: Fn(u32, u32, u32) -> u32>(axpy: A) -> bool {
    forall|args: (u32, u32, u32), r1: u32, r2: u32|
        #[trigger] axpy.ensures(args, r1) && #[trigger] axpy.ensures(args, r2) ==> r1 == r2
}

/// `accelerate` gives one pair of accelerations for each input.
pub open spec fn deterministic_equations<F: Fn(StepInput) -> Acceleration>(accelerate: F) -> bool {
    forall|input: StepInput, r1: Acceleration, r2: Acceleration|
        #[trigger] accelerate.ensures((input,), r1) && #[trigger] accelerate.ensures((input,), r2)
            ==> r1 == r2
}

/// With arithmetic that gives one result for each triple of arguments, a
/// semi-implicit Euler step is determined by the state before it, the
/// accelerations and the time step: two steps from the same inputs end in
/// the same state.
pub proof fn lemma_euler_step_is_determined<A: Fn(u32, u32, u32) -> u32>(
    axpy: A,
    before: State,
    rate: Acceleration,
    dt: u32,
    first: State,
    second: State,
)
    requires
        deterministic_arithmetic(axpy),
        euler_step(axpy, before, rate, dt, first),
        euler_step(axpy, before, rate, dt, second),
    ensures
        first == second,
{
    assert(first.x_dot == second.x_dot);
    assert(first.theta_dot == second.theta_dot);
}

/// With equations of motion and arithmetic that each give one result for
/// each input, one integrated step is determined by its input, which is the
/// state, the action, the physical constants and the time step: two steps
/// from the same input end in the same state.
pub proof fn lemma_step_is_determined<F: Fn(StepInput) -> Acceleration, A: Fn(u32, u32, u32) -> u32>(
    accelerate: F,
    axpy: A,
    input: StepInput,
    first: State,
    second: State,
)
    requires
        deterministic_equations(accelerate),
        deterministic_arithmetic(axpy),
        integrates(accelerate, axpy, input, first),
        integrates(accelerate, axpy, input, second),
    ensures
        first == second,
{
    let rate1 = choose|rate: Acceleration|
        #[trigger] accelerate.ensures((input,), rate) && euler_step(
            axpy,
            input.state,
            rate,
            input.dt,
            first,
        );
    let rate2 = choose|rate: Acceleration|
        #[trigger] accelerate.ensures((input,), rate) && euler_step(
            axpy,
            input.state,
            rate,
            input.dt,
            second,
        );
    assert(rate1 == rate2);
    lemma_euler_step_is_determined(axpy, input.state, rate1, input.dt, first, second);
}

/// Advances `state` by one semi-implicit Euler step of length `dt` under
/// the accelerations `rate`.
pub fn semi_implicit_euler<A: Fn(u32, u32, u32) -> u32>(
    state: State,
    rate: Acceleration,
    dt: u32,
    axpy: &A,
) -> (next: State)
    requires
        forall|y: u32, a: u32, x: u32| #[trigger] axpy.requires((y, a, x)),
    ensures
        euler_step(*axpy, state, rate, dt, next),
{
    let x_dot = axpy(state.x_dot, dt, rate.x_ddot);
    let x = axpy(state.x, dt, x_dot);
    let theta_dot = axpy(state.theta_dot, dt, rate.theta_ddot);
    let theta = axpy(state.theta, dt, theta_dot);
    State { x, x_dot, theta, theta_dot }
}

/// Integrates one step from `input`: the accelerations are asked for once,
/// then the state is advanced by one semi-implicit Euler step.
pub fn integrate<F: Fn(StepInput) -> Acceleration, A: Fn(u32, u32, u32) -> u32>(
    input: StepInput,
    accelerate: &F,
    axpy: &A,
) -> (next: State)
    requires
        accelerate.requires((input,)),
        forall|y: u32, a: u32, x: u32| #[trigger] axpy.requires((y, a, x)),
    ensures
        integrates(*accelerate, *axpy, input, next),
{
    let rate = accelerate(input);
    semi_implicit_euler(input.state, rate, input.dt, axpy)
}

} // verus!
