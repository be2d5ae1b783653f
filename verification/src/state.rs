//! The plain data of a simulation: its state, its physical constants, and
//! what one integration step is given.
use vstd::prelude::*;
use crate::binary32::POSITIVE_ZERO;

verus! {

/// The four components of a cart-pole state, each the bit pattern of a
/// single-precision number.
#[derive(Clone, Copy, PartialEq, Eq, Structural, Debug)]
pub struct State {
    /// Cart position.
    pub x: u32,
    /// Cart velocity.
    pub x_dot: u32,
    /// Pole angle, in radians from upright.
    pub theta: u32,
    /// Pole angular velocity.
    pub theta_dot: u32,
}

impl State {
    /// The state as the sequence `x, x_dot, theta, theta_dot`.
    pub open spec fn words(self) -> Seq<u32> {
        seq![self.x, self.x_dot, self.theta, self.theta_dot]
    }

    /// The state that the sequence `x, x_dot, theta, theta_dot` stands for.
    pub open spec fn of_words(words: Seq<u32>) -> State
        recommends
            words.len() == 4,
    {
        State { x: words[0], x_dot: words[1], theta: words[2], theta_dot: words[3] }
    }

    /// The state whose four components are positive zero.
    pub open spec fn origin() -> State {
        State {
            x: POSITIVE_ZERO,
            x_dot: POSITIVE_ZERO,
            theta: POSITIVE_ZERO,
            theta_dot: POSITIVE_ZERO,
        }
    }

    /// The all-zero state.
    pub fn zero() -> (s: State)
        ensures
            s == State::origin(),
            s.words() == seq![0u32, 0u32, 0u32, 0u32],
    {
        let s = State {
            x: POSITIVE_ZERO,
            x_dot: POSITIVE_ZERO,
            theta: POSITIVE_ZERO,
            theta_dot: POSITIVE_ZERO,
        };
        assert(s.words() =~= seq![0u32, 0u32, 0u32, 0u32]);
        s
    }

    /// The components in the order in which they are published.
    pub fn to_words(self) -> (w: [u32; 4])
        ensures
            w@ == self.words(),
    {
        let w: [u32; 4] = [self.x, self.x_dot, self.theta, self.theta_dot];
        assert(w@ =~= self.words());
        w
    }

    /// The state that a published array of four components stands for.
    pub fn from_words(w: [u32; 4]) -> (s: State)
        ensures
            s == State::of_words(w@),
            s.words() == w@,
    {
        let s = State { x: w[0], x_dot: w[1], theta: w[2], theta_dot: w[3] };
        assert(s.words() =~= w@);
        s
    }
}

/// The physical constants of one cart-pole, fixed for the life of a
/// simulation; each is the bit pattern of a single-precision number.
#[derive(Clone, Copy, PartialEq, Eq, Structural, Debug)]
pub struct PhysicalParameters {
    /// Mass of the pole.
    pub mp: u32,
    /// Mass of the cart.
    pub mc: u32,
    /// Half the length of the pole.
    pub lp: u32,
}

/// Everything that one integration step reads.
#[derive(Clone, Copy, PartialEq, Eq, Structural, Debug)]
pub struct StepInput {
    /// The state before the step.
    pub state: State,
    /// The horizontal force on the cart during the step.
    pub action: u32,
    /// The physical constants.
    pub params: PhysicalParameters,
    /// The length of the step in seconds.
    pub dt: u32,
}

} // verus!
