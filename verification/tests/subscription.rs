use cartpole_sim::{
    Acceleration, Reception, State, StateSubscription, StepInput, ThreadableCartPole,
};

fn coast(_input: StepInput) -> Acceleration {
    Acceleration { x_ddot: 0, theta_ddot: 0 }
}

fn count(y: u32, _a: u32, x: u32) -> u32 {
    y.wrapping_add(x)
}

/// A simulation whose cart moves by one unit per tick under `coast` and `count`.
fn simulation() -> ThreadableCartPole {
    ThreadableCartPole::new(0, 1, 8, 0, 1, 1, 1, None).unwrap()
}

#[test]
fn subscription_starts_from_the_zero_state() {
    let mut sim = simulation();
    let follower = StateSubscription::new(sim.get_state_bus_receiver());
    assert_eq!(follower.current(), State::zero());
}

#[test]
fn absorb_takes_a_state_and_keeps_the_old_one_otherwise() {
    let mut sim = simulation();
    let mut follower = StateSubscription::new(sim.get_state_bus_receiver());
    assert!(follower.absorb(Some([1, 2, 3, 4])));
    assert_eq!(follower.current(), State { x: 1, x_dot: 2, theta: 3, theta_dot: 4 });
    assert!(!follower.absorb(None));
    assert_eq!(follower.current(), State { x: 1, x_dot: 2, theta: 3, theta_dot: 4 });
    assert!(follower.absorb(Some([5, 6, 7, 8])));
    assert_eq!(follower.current(), State { x: 5, x_dot: 6, theta: 7, theta_dot: 8 });
}

#[test]
fn update_states_keeps_the_previous_state_on_a_timeout() {
    let mut sim = simulation();
    let mut follower = StateSubscription::new(sim.get_state_bus_receiver());
    assert!(!follower.update_states(5));
    assert_eq!(follower.current(), State::zero());
    sim.advance(Reception::TimedOut, coast, count);
    assert!(follower.update_states(1_000));
    assert_eq!(follower.current(), State { x: 1, x_dot: 1, theta: 8, theta_dot: 0 });
    assert!(!follower.update_states(5));
    assert_eq!(follower.current(), State { x: 1, x_dot: 1, theta: 8, theta_dot: 0 });
}

#[test]
fn update_states_receives_one_state_per_call_in_order() {
    let mut sim = simulation();
    let mut follower = StateSubscription::new(sim.get_state_bus_receiver());
    let mut other = StateSubscription::new(sim.get_state_bus_receiver());
    for _ in 0..3 {
        sim.advance(Reception::TimedOut, coast, count);
    }
    for x in 1..=3 {
        assert!(follower.update_states(1_000));
        assert_eq!(follower.current().x, x);
    }
    for x in 1..=3 {
        assert!(other.update_states(1_000));
        assert_eq!(other.current().x, x);
    }
    assert!(!follower.update_states(1));
    assert!(!other.update_states(1));
}

#[test]
fn update_states_after_the_simulation_is_gone_keeps_the_state() {
    let mut sim = simulation();
    let mut follower = StateSubscription::new(sim.get_state_bus_receiver());
    sim.advance(Reception::TimedOut, coast, count);
    drop(sim);
    assert!(follower.update_states(1_000));
    assert!(!follower.update_states(1_000));
    assert_eq!(follower.current().x, 1);
}

#[test]
fn simulation_follows_the_actions_it_is_sent() {
    let mut sim = ThreadableCartPole::new(0, 0, 0, 0, 1, 1, 1, Some(0.002f32.to_bits())).unwrap();
    let mut follower = StateSubscription::new(sim.get_state_bus_receiver());
    let sender = sim.get_action_sender();
    sim.start_spinner().unwrap();
    for action in 1..=5u32 {
        sender.send(action).unwrap();
    }
    let by_action = |input: StepInput| Acceleration { x_ddot: input.action, theta_ddot: 0 };
    let last = |_y: u32, _a: u32, x: u32| x;
    for expected in 1..=5u32 {
        assert!(sim.step(&by_action, &last));
        assert!(follower.update_states(1_000));
        assert_eq!(follower.current().x, expected);
    }
    sim.stop_spinner();
    assert!(!sim.step(&by_action, &last));
    assert!(follower.update_states(1_000));
    assert_eq!(follower.current().x, 0);
}
