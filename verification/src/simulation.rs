//! The simulation engine: construction, the tick, and the scheduler's
//! lifecycle.
//!
//! One tick is, in this order: wait for an action for at most one period;
//! integrate one step from the current state and the resolved action; commit
//! the result as the new state; publish it; honour a pending stop request.
//! The loop that repeats ticks at a fixed period belongs to the caller, who
//! ends it when a tick returns `false`.
//!
//! The equations of motion and the arithmetic of the integration are handed
//! to each tick as the two functions that `integrator` describes.
use vstd::prelude::*;
use crate::action::{resolve_action, resolved_action, Reception};
use crate::binary32::{is_zero, sign_bit};
use crate::channels::{
    broadcast, bus_sent, clone_sender, open_bus, open_mailbox, reader_position, receive_within,
    subscribe,
};
use crate::integrator::{integrate, integrates, Acceleration};
use crate::state::{PhysicalParameters, State, StepInput};
use crate::time_step::{effective_dt, time_step_error, valid_time_step, TimeStep, TimeStepError};

verus! {

/// How many published states the broadcast holds for a subscriber that has
/// fallen behind. With that many waiting, publishing waits for the slowest
/// subscriber: states are never dropped in favour of newer ones.
pub const STATE_BUS_CAPACITY: usize = 16;

/// Where the scheduler stands in its life.
#[derive(Clone, Copy, PartialEq, Eq, Structural, Debug)]
pub enum Phase {
    /// Built or stopped: no tick loop is active.
    Idle,
    /// The tick loop is active.
    Running,
    /// The tick loop is active and has been asked to stop; it ends with its
    /// next tick.
    Stopping,
}

/// Why the tick loop could not be started.
#[derive(Clone, Copy, PartialEq, Eq, Structural, Debug)]
pub enum SpinnerError {
    /// The loop is already active.
    AlreadyRunning,
}

/// What a simulation is, apart from the handles of its two transports.
pub struct Model {
    /// The current state.
    pub state: State,
    /// The physical constants.
    pub params: PhysicalParameters,
    /// The time step in seconds, as a bit pattern.
    pub dt: u32,
    /// A tick loop is active.
    pub running: bool,
    /// A stop has been asked for and not yet honoured.
    pub stop_requested: bool,
    /// Every state published so far, oldest first, each as its four words.
    pub published: Seq<Seq<u32>>,
}

impl Model {
    /// A simulation as it is built: idle, with nothing published.
    pub open spec fn initial(state: State, params: PhysicalParameters, dt: u32) -> Model {
        Model {
            state,
            params,
            dt,
            running: false,
            stop_requested: false,
            published: Seq::empty(),
        }
    }

    /// The phase of the scheduler.
    pub open spec fn phase(self) -> Phase {
        if !self.running {
            Phase::Idle
        } else if self.stop_requested {
            Phase::Stopping
        } else {
            Phase::Running
        }
    }

    /// What the integrator is given in a tick whose wait for an action ended
    /// with `reception`.
    pub open spec fn step_input(self, reception: Reception) -> StepInput {
        StepInput {
            state: self.state,
            action: resolved_action(reception),
            params: self.params,
            dt: self.dt,
        }
    }

    /// Whether the tick loop goes on after a tick that begins here.
    pub open spec fn tick_goes_on(self) -> bool {
        !self.stop_requested
    }

    /// The simulation after a tick in which the integrator returned `next`:
    /// `next` is committed and published, and a pending stop request is
    /// cleared and leaves the scheduler idle.
    pub open spec fn after_tick(self, next: State) -> Model {
        Model {
            state: next,
            published: self.published.push(next.words()),
            running: self.running && !self.stop_requested,
            stop_requested: false,
            ..self
        }
    }

    /// The simulation after its loop was started.
    pub open spec fn after_start(self) -> Model {
        Model { running: true, ..self }
    }

    /// The simulation after a stop was asked for.
    pub open spec fn after_stop_request(self) -> Model {
        Model { stop_requested: true, ..self }
    }

    /// The simulation after a reset.
    pub open spec fn after_reset(self) -> Model {
        Model { state: State::origin(), ..self }
    }
}

/// A tick that receives no action, because the wait timed out or the mailbox
/// is closed, integrates with zero force.
pub proof fn lemma_tick_without_action_applies_no_force(model: Model, reception: Reception)
    requires
        !(reception is Action),
    ensures
        model.step_input(reception).action == 0,
        model.step_input(reception) == model.step_input(Reception::TimedOut),
{
}

/// A tick publishes exactly one state, the one it has just committed, after
/// everything published before.
pub proof fn lemma_tick_publishes_the_committed_state(model: Model, next: State)
    ensures
        model.after_tick(next).state == next,
        model.after_tick(next).published.len() == model.published.len() + 1,
        model.after_tick(next).published.last() == model.after_tick(next).state.words(),
        model.after_tick(next).published.drop_last() == model.published,
{
    assert(model.published.push(next.words()).drop_last() =~= model.published);
}

/// A reset sets the state to all zeros whatever it was, and neither stops a
/// running loop nor starts an idle one.
pub proof fn lemma_reset_zeroes_the_state_and_keeps_the_phase(model: Model)
    ensures
        model.after_reset().state == (State { x: 0, x_dot: 0, theta: 0, theta_dot: 0 }),
        model.after_reset().phase() == model.phase(),
        model.after_reset().running == model.running,
        model.after_reset().stop_requested == model.stop_requested,
        model.after_reset().published == model.published,
        model.after_reset().after_reset() == model.after_reset(),
{
}

/// A stop request does not end the loop at once: the phase becomes
/// `Stopping` where the loop was active, one more tick is completed, and
/// that tick ends the loop and leaves the scheduler idle, with the request
/// cleared.
pub proof fn lemma_stop_ends_the_loop_with_the_next_tick(model: Model, next: State)
    requires
        model.running,
    ensures
        model.after_stop_request().phase() == Phase::Stopping,
        model.after_stop_request().state == model.state,
        !model.after_stop_request().tick_goes_on(),
        model.after_stop_request().after_tick(next).phase() == Phase::Idle,
        model.after_stop_request().after_tick(next).state == next,
        !model.after_stop_request().after_tick(next).stop_requested,
{
}

/// While no stop is asked for, a tick leaves the phase as it is and the loop
/// goes on.
pub proof fn lemma_tick_without_stop_request_goes_on(model: Model, next: State)
    requires
        !model.stop_requested,
    ensures
        model.tick_goes_on(),
        model.after_tick(next).phase() == model.phase(),
{
}

/// Starting leads from `Idle` to `Running`, or to `Stopping` where a stop
/// was asked for while the scheduler was idle.
pub proof fn lemma_start_leaves_idle(model: Model)
    requires
        model.phase() == Phase::Idle,
    ensures
        model.after_start().phase() == if model.stop_requested {
            Phase::Stopping
        } else {
            Phase::Running
        },
{
}

/// A cart-pole simulation that is driven tick by tick.
///
/// It owns the state, the mailbox through which control actions arrive and
/// the broadcast on which every new state is published.
pub struct ThreadableCartPole {
    state: State,
    state_bus: bus::Bus<[u32; 4]>,
    action_receiver: std::sync::mpsc::Receiver<u32>,
    action_sender: std::sync::mpsc::Sender<u32>,
    params: PhysicalParameters,
    time_step: TimeStep,
    running: bool,
    spinner_kill: bool,
}

impl View for ThreadableCartPole {
    type V = Model;

    closed spec fn view(&self) -> Model {
        Model {
            state: self.state,
            params: self.params,
            dt: self.time_step.spec_bits(),
            running: self.running,
            stop_requested: self.spinner_kill,
            published: bus_sent(self.state_bus),
        }
    }
}

impl ThreadableCartPole {
    /// The sending end that the simulation keeps of its own mailbox; the
    /// handles that are given out are clones of it.
    pub closed spec fn mailbox_sender(&self) -> std::sync::mpsc::Sender<u32> {
        self.action_sender
    }

    /// Builds an idle simulation.
    ///
    /// The time step is `dt`, or twelve milliseconds where none is given. It
    /// is refused unless it is a number greater than zero and below 2^64
    /// seconds; a step of zero or less is refused as `NotPositive`.
    pub fn new(
        x0: u32,
        xdot0: u32,
        theta0: u32,
        thetadot0: u32,
        mp: u32,
        mc: u32,
        lp: u32,
        dt: Option<u32>,
    ) -> (r: Result<ThreadableCartPole, TimeStepError>)
        ensures
            match r {
                Ok(sim) => {
                    &&& valid_time_step(effective_dt(dt))
                    &&& sim@ == Model::initial(
                        State { x: x0, x_dot: xdot0, theta: theta0, theta_dot: thetadot0 },
                        PhysicalParameters { mp, mc, lp },
                        effective_dt(dt),
                    )
                },
                Err(e) => time_step_error(effective_dt(dt)) == Some(e),
            },
            dt matches Some(bits) && (sign_bit(bits) || is_zero(bits)) ==> r is Err,
            dt is None ==> r is Ok,
    {
        let time_step = match TimeStep::or_default(dt) {
            Ok(step) => step,
            Err(e) => {
                return Err(e);
            },
        };
        let (action_sender, action_receiver) = open_mailbox();
        let state_bus = open_bus(STATE_BUS_CAPACITY);
        Ok(
            ThreadableCartPole {
                state: State { x: x0, x_dot: xdot0, theta: theta0, theta_dot: thetadot0 },
                state_bus,
                action_receiver,
                action_sender,
                params: PhysicalParameters { mp, mc, lp },
                time_step,
                running: false,
                spinner_kill: false,
            },
        )
    }

    /// Completes one tick whose wait for an action ended with `reception`.
    ///
    /// One step is integrated from the current state, the resolved action,
    /// the physical constants and the time step. Its result becomes the
    /// state and is published. Then a pending stop request is honoured: it
    /// is cleared, the scheduler becomes idle, and the result is `false`.
    /// Otherwise the result is `true`.
    pub fn advance<F: Fn(StepInput) -> Acceleration, A: Fn(u32, u32, u32) -> u32>(
        &mut self,
        reception: Reception,
        accelerate: F,
        axpy: A,
    ) -> (go_on: bool)
        requires
            accelerate.requires((old(self)@.step_input(reception),)),
            forall|y: u32, a: u32, x: u32| #[trigger] axpy.requires((y, a, x)),
        ensures
            integrates(accelerate, axpy, old(self)@.step_input(reception), final(self)@.state),
            final(self)@ == old(self)@.after_tick(final(self)@.state),
            final(self).mailbox_sender() == old(self).mailbox_sender(),
            go_on == old(self)@.tick_goes_on(),
    {
        let input = StepInput {
            state: self.state,
            action: resolve_action(reception),
            params: self.params,
            dt: self.time_step.bits(),
        };
        let next = integrate(input, &accelerate, &axpy);
        self.state = next;
        broadcast(&mut self.state_bus, next.to_words());
        if self.spinner_kill {
            self.spinner_kill = false;
            self.running = false;
            false
        } else {
            true
        }
    }

    /// Runs one tick: waits for an action for at most one period, then
    /// completes the tick as `advance` does.
    ///
    /// Which action arrives in time, if any, depends on the senders and on
    /// the clock: the contract holds for some outcome of the wait.
    pub fn step<F: Fn(StepInput) -> Acceleration, A: Fn(u32, u32, u32) -> u32>(
        &mut self,
        accelerate: F,
        axpy: A,
    ) -> (go_on: bool)
        requires
            forall|reception: Reception|
                accelerate.requires((#[trigger] old(self)@.step_input(reception),)),
            forall|y: u32, a: u32, x: u32| #[trigger] axpy.requires((y, a, x)),
        ensures
            exists|reception: Reception|
                integrates(
                    accelerate,
                    axpy,
                    #[trigger] old(self)@.step_input(reception),
                    final(self)@.state,
                ),
            final(self)@ == old(self)@.after_tick(final(self)@.state),
            final(self).mailbox_sender() == old(self).mailbox_sender(),
            go_on == old(self)@.tick_goes_on(),
    {
        let secs = self.time_step.period_secs();
        let subsec_nanos = self.time_step.period_subsec_nanos();
        let reception = receive_within(&self.action_receiver, secs, subsec_nanos);
        self.advance(reception, accelerate, axpy)
    }

    /// A handle through which control actions are sent to this simulation:
    /// a clone of the sending end that the simulation keeps of its own
    /// mailbox. It can be cloned again and moved to other threads.
    pub fn get_action_sender(&mut self) -> (sender: std::sync::mpsc::Sender<u32>)
        ensures
            cloned(old(self).mailbox_sender(), sender),
            final(self).mailbox_sender() == old(self).mailbox_sender(),
            final(self)@ == old(self)@,
    {
        clone_sender(&self.action_sender)
    }

    /// Subscribes to the states published from now on: the reader stands
    /// behind every state published so far, and the first state it is handed
    /// is the next one published. Subscribing publishes nothing and changes
    /// nothing else.
    pub fn get_state_bus_receiver(&mut self) -> (reader: bus::BusReader<[u32; 4]>)
        ensures
            reader_position(reader) == old(self)@.published.len(),
            final(self).mailbox_sender() == old(self).mailbox_sender(),
            final(self)@ == old(self)@,
    {
        subscribe(&mut self.state_bus)
    }

    /// Asks the tick loop to stop. The request is honoured at the end of the
    /// next tick, not before.
    pub fn stop_spinner(&mut self)
        ensures
            final(self)@ == old(self)@.after_stop_request(),
            final(self).mailbox_sender() == old(self).mailbox_sender(),
    {
        self.spinner_kill = true;
    }

    /// Marks the tick loop as started. Only an idle scheduler can be
    /// started; an active one is left as it is.
    pub fn start_spinner(&mut self) -> (r: Result<(), SpinnerError>)
        ensures
            match r {
                Ok(_) => {
                    &&& old(self)@.phase() == Phase::Idle
                    &&& final(self)@ == old(self)@.after_start()
                },
                Err(e) => {
                    &&& e == SpinnerError::AlreadyRunning
                    &&& old(self)@.phase() != Phase::Idle
                    &&& final(self)@ == old(self)@
                },
            },
            final(self).mailbox_sender() == old(self).mailbox_sender(),
    {
        if self.running {
            Err(SpinnerError::AlreadyRunning)
        } else {
            self.running = true;
            Ok(())
        }
    }

    /// Puts the state back to all zeros. Nothing else changes: an active
    /// loop stays active, and nothing is published.
    pub fn reset(&mut self)
        ensures
            final(self)@ == old(self)@.after_reset(),
            final(self).mailbox_sender() == old(self).mailbox_sender(),
            final(self)@.state == State::origin(),
            final(self)@.phase() == old(self)@.phase(),
    {
        self.state = State::zero();
    }

    /// The current state.
    pub fn current_state(&self) -> (s: State)
        ensures
            s == self@.state,
    {
        self.state
    }

    /// The physical constants.
    pub fn parameters(&self) -> (p: PhysicalParameters)
        ensures
            p == self@.params,
    {
        self.params
    }

    /// The time step and the period of one tick.
    pub fn step_size(&self) -> (t: TimeStep)
        ensures
            t.spec_bits() == self@.dt,
            valid_time_step(self@.dt),
    {
        let t = self.time_step;
        let _ = t.bits();
        t
    }

    /// The phase of the scheduler.
    pub fn phase(&self) -> (p: Phase)
        ensures
            p == self@.phase(),
    {
        if !self.running {
            Phase::Idle
        } else if self.spinner_kill {
            Phase::Stopping
        } else {
            Phase::Running
        }
    }
}

} // verus!
