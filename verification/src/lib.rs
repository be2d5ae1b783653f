//! A cart-pole simulation engine: validated construction, the per-tick
//! pipeline from control action to published state, the scheduler's lifecycle
//! and timing diagnostics.
//!
//! Scalars are carried as the bit patterns of single-precision numbers. What
//! is floating-point arithmetic, the equations of motion and the multiply-add
//! of the integration scheme, is supplied by the caller as two functions; see
//! [`integrator`].
pub mod action;
pub mod binary32;
pub mod channels;
pub mod drift;
pub mod integrator;
pub mod simulation;
pub mod state;
pub mod subscription;
pub mod time_step;

pub use crate::action::Reception;
pub use crate::drift::{DriftMonitor, DriftReport};
pub use crate::integrator::Acceleration;
pub use crate::simulation::{Phase, SpinnerError, ThreadableCartPole};
pub use crate::state::{PhysicalParameters, State, StepInput};
pub use crate::subscription::StateSubscription;
pub use crate::time_step::{TimeStep, TimeStepError};
