use std::cell::{Cell, RefCell};

use pymxsrs::facade::Simulation;
use pymxsrs::geometry::{Controls, Matrix3, Vector3};
use pymxsrs::protocol::{Action, Event, StepError};
use pymxsrs::state::BodyState;
use pymxsrs::wind::{ConstantWind, ForeignObject, MarshalError, Probe, WindModel};

/// A foreign wind model for the tests: answers with a fixed list, or fails.
#[derive(Debug)]
struct Stub {
    answer: Vec<f64>,
    get_wind_fails: bool,
    step_fails: bool,
    asked_at: RefCell<Vec<[f64; 3]>>,
    stepped: Cell<u32>,
}

impl Stub {
    fn answering(answer: &[f64]) -> Stub {
        Stub {
            answer: answer.to_vec(),
            get_wind_fails: false,
            step_fails: false,
            asked_at: RefCell::new(Vec::new()),
            stepped: Cell::new(0),
        }
    }

    fn get_wind(&self, position: [f64; 3]) -> Result<Vec<f64>, String> {
        self.asked_at.borrow_mut().push(position);
        if self.get_wind_fails {
            Err(String::from("gust model diverged"))
        } else {
            Ok(self.answer.clone())
        }
    }

    fn step(&self, _dt: f64) -> Result<(), String> {
        if self.step_fails {
            Err(String::from("clock stuck"))
        } else {
            self.stepped.set(self.stepped.get() + 1);
            Ok(())
        }
    }
}

fn as_bits<const N: usize>(values: [f64; N]) -> [u64; N] {
    values.map(f64::to_bits)
}

fn as_floats<const N: usize>(bits: [u64; N]) -> [f64; N] {
    bits.map(f64::from_bits)
}

/// Stands in for the integrator: the body drifts with its velocity, and its
/// velocity is drawn towards the wind and pushed along x by the throttle.
fn stand_in_integrator(state: [f64; 13], dt: f64, controls: [f64; 4], wind: [f64; 3]) -> [f64; 13] {
    let mut next = state;
    for axis in 0..3 {
        next[axis] = state[axis] + dt * state[3 + axis];
        next[3 + axis] = state[3 + axis] + dt * 0.5 * (wind[axis] - state[3 + axis]);
    }
    next[3] += dt * controls[2];
    next
}

/// Runs one time step as a driver does: does what the simulation asks for
/// until it says that the step is over.
fn drive(sim: &mut Simulation<Stub>, dt: f64, controls: [f64; 4]) -> Result<(), StepError<String>> {
    let mut action =
        sim.step(Event::Begin { dt: dt.to_bits(), controls: Controls::from_array(as_bits(controls)) });
    loop {
        let event = match action {
            Action::GetWind { position } => {
                let reply = sim.handle().unwrap().get_wind(as_floats(position.to_array()));
                Event::Wind(reply.map(|list| list.iter().map(|x| x.to_bits()).collect()))
            }
            Action::Integrate { state, dt, controls, wind } => {
                let next = stand_in_integrator(
                    as_floats(state.to_array()),
                    f64::from_bits(dt),
                    as_floats(controls.to_array()),
                    as_floats(wind.to_array()),
                );
                Event::Integrated(BodyState::from_array(as_bits(next)))
            }
            Action::StepWind { dt } => Event::WindStepped(sim.handle().unwrap().step(f64::from_bits(dt))),
            Action::Done(result) => return result,
        };
        action = sim.step(event);
    }
}

fn lists_of(values: &[f64]) -> Vec<u64> {
    values.iter().map(|x| x.to_bits()).collect()
}

fn simulation(stub: Option<Stub>) -> Simulation<Stub> {
    let inertia = vec![lists_of(&[1.0, 0.0, 0.0]), lists_of(&[0.0, 1.0, 0.0]), lists_of(&[0.0, 0.0, 1.0])];
    let wind_model = stub.map(|handle| ForeignObject {
        handle,
        get_wind: Probe::Compatible,
        step: Probe::Compatible,
    });
    Simulation::new(
        1.0f64.to_bits(),
        inertia,
        lists_of(&[0.0, 0.0, -100.0]),
        lists_of(&[15.0, 0.0, 0.0]),
        lists_of(&[0.0, 0.0, 0.0, 1.0]),
        lists_of(&[0.0, 0.0, 0.0]),
        wind_model,
    )
    .unwrap()
}

fn constant_simulation(wind: [f64; 3]) -> Simulation<Stub> {
    let start = simulation(None);
    Simulation::with_wind_model(
        start.mass(),
        start.inertia(),
        BodyState::from_array(start.get_statevector()),
        WindModel::Constant(ConstantWind::new(Vector3::from_array(as_bits(wind)))),
    )
    .unwrap()
}

fn some_controls() -> Controls {
    Controls::from_array(as_bits([0.1, -0.2, 0.7, 0.0]))
}

fn some_state() -> BodyState {
    BodyState::from_array(as_bits([
        1.0, 2.0, -99.0, 14.0, 0.5, 0.25, 0.0, 0.0, 0.0, 1.0, 0.01, 0.02, 0.03,
    ]))
}

#[test]
fn a_step_under_constant_wind_is_two_exchanges() {
    let mut sim = simulation(None);
    let before = BodyState::from_array(sim.get_statevector());
    let dt = 0.01f64.to_bits();
    let action: Action<String> = sim.step(Event::Begin { dt, controls: some_controls() });
    assert_eq!(
        action,
        Action::Integrate { state: before, dt, controls: some_controls(), wind: Vector3::zero() }
    );
    assert_eq!(sim.get_statevector(), before.to_array());
    let action: Action<String> = sim.step(Event::Integrated(some_state()));
    assert_eq!(action, Action::Done(Ok(())));
    assert_eq!(sim.get_statevector(), some_state().to_array());
}

#[test]
fn a_step_under_a_foreign_model_is_four_exchanges() {
    let mut sim = simulation(Some(Stub::answering(&[5.0, 0.0, 0.0])));
    let before = BodyState::from_array(sim.get_statevector());
    let dt = 0.01f64.to_bits();
    let action: Action<String> = sim.step(Event::Begin { dt, controls: some_controls() });
    assert_eq!(action, Action::GetWind { position: before.position });
    assert_eq!(as_floats(before.position.to_array()), [0.0, 0.0, -100.0]);
    let action: Action<String> = sim.step(Event::Wind(Ok(lists_of(&[5.0, 0.0, 0.0]))));
    assert_eq!(
        action,
        Action::Integrate {
            state: before,
            dt,
            controls: some_controls(),
            wind: Vector3::from_array(as_bits([5.0, 0.0, 0.0])),
        }
    );
    let action: Action<String> = sim.step(Event::Integrated(some_state()));
    assert_eq!(action, Action::StepWind { dt });
    assert_eq!(sim.get_statevector(), before.to_array());
    let action: Action<String> = sim.step(Event::WindStepped(Ok(())));
    assert_eq!(action, Action::Done(Ok(())));
    assert_eq!(sim.get_statevector(), some_state().to_array());
}

#[test]
fn the_foreign_model_is_asked_at_the_position_of_the_body() {
    let mut sim = simulation(Some(Stub::answering(&[5.0, 0.0, 0.0])));
    drive(&mut sim, 0.1, [0.0; 4]).unwrap();
    drive(&mut sim, 0.1, [0.0; 4]).unwrap();
    let stub = sim.handle().unwrap();
    let asked = stub.asked_at.borrow();
    assert_eq!(asked.len(), 2);
    assert_eq!(asked[0], [0.0, 0.0, -100.0]);
    assert_eq!(asked[1], [1.5, 0.0, -100.0]);
    assert_eq!(stub.stepped.get(), 2);
}

#[test]
fn wind_forwarding() {
    let mut windy = simulation(Some(Stub::answering(&[5.0, 0.0, 0.0])));
    let mut calm = simulation(None);
    assert_eq!(windy.get_statevector(), calm.get_statevector());
    drive(&mut windy, 0.1, [0.0, 0.0, 0.5, 0.0]).unwrap();
    drive(&mut calm, 0.1, [0.0, 0.0, 0.5, 0.0]).unwrap();
    let windy_velocity = as_floats(windy.get_velocity());
    let calm_velocity = as_floats(calm.get_velocity());
    assert!((windy_velocity[0] - calm_velocity[0]).abs() > 0.1);
    assert_eq!(calm_velocity[0], 15.0 + 0.1 * 0.5 * (0.0 - 15.0) + 0.1 * 0.5);
    assert_eq!(windy_velocity[0], 15.0 + 0.1 * 0.5 * (5.0 - 15.0) + 0.1 * 0.5);
    assert_eq!(windy.get_position(), calm.get_position());
}

#[test]
fn the_wind_of_the_foreign_model_reaches_the_integrator_unchanged() {
    let mut sim = simulation(Some(Stub::answering(&[5.0, 0.0, 0.0])));
    let _: Action<String> = sim.step(Event::Begin { dt: 0, controls: some_controls() });
    let reply = vec![5.0f64.to_bits(), (-0.0f64).to_bits(), 5e-324f64.to_bits()];
    let action: Action<String> = sim.step(Event::Wind(Ok(reply.clone())));
    match action {
        Action::Integrate { wind, .. } => assert_eq!(wind.to_array().to_vec(), reply),
        other => panic!("{other:?}"),
    }
}

#[test]
fn default_wind_transparency() {
    let mut by_default = simulation(None);
    let mut by_choice = constant_simulation([0.0, 0.0, 0.0]);
    assert_eq!(by_default.wind_kind(), by_choice.wind_kind());
    for n in 0..50 {
        let controls = [0.01 * n as f64, -0.02, 0.5, 0.0];
        assert_eq!(drive(&mut by_default, 0.01, controls), Ok(()));
        assert_eq!(drive(&mut by_choice, 0.01, controls), Ok(()));
        assert_eq!(by_default.get_statevector(), by_choice.get_statevector());
    }
    assert_ne!(by_default.get_statevector(), simulation(None).get_statevector());
}

#[test]
fn a_constant_wind_other_than_zero_is_handed_to_the_integrator() {
    let mut sim = constant_simulation([0.0, -3.0, 0.0]);
    let action: Action<String> = sim.step(Event::Begin { dt: 1, controls: some_controls() });
    match action {
        Action::Integrate { wind, .. } => assert_eq!(as_floats(wind.to_array()), [0.0, -3.0, 0.0]),
        other => panic!("{other:?}"),
    }
}

#[test]
fn step_determinism() {
    let mut first = simulation(Some(Stub::answering(&[1.0, 2.0, 3.0])));
    let mut second = simulation(Some(Stub::answering(&[1.0, 2.0, 3.0])));
    for n in 0..50 {
        let dt = 0.01 + 0.001 * n as f64;
        let controls = [0.1, 0.01 * n as f64, 0.5, -0.1];
        assert_eq!(drive(&mut first, dt, controls), drive(&mut second, dt, controls));
        assert_eq!(first.get_statevector(), second.get_statevector());
    }
}

#[test]
fn equal_events_give_equal_actions() {
    let mut first = simulation(Some(Stub::answering(&[])));
    let mut second = simulation(Some(Stub::answering(&[9.0])));
    let events = || -> Vec<Event<String>> {
        vec![
            Event::Begin { dt: 3, controls: some_controls() },
            Event::Wind(Ok(lists_of(&[1.0, 2.0, 3.0]))),
            Event::Integrated(some_state()),
            Event::WindStepped(Ok(())),
            Event::WindStepped(Ok(())),
            Event::Begin { dt: 4, controls: some_controls() },
            Event::Wind(Err(String::from("no"))),
            Event::Integrated(some_state()),
        ]
    };
    for (a, b) in events().into_iter().zip(events()) {
        assert_eq!(first.step(a), second.step(b));
        assert_eq!(first.get_statevector(), second.get_statevector());
    }
}

#[test]
fn atomicity_on_failure() {
    let mut stub = Stub::answering(&[5.0, 0.0, 0.0]);
    stub.get_wind_fails = true;
    let mut sim = simulation(Some(stub));
    let before = sim.get_statevector();
    let r = drive(&mut sim, 0.1, [0.0; 4]);
    assert_eq!(r, Err(StepError::Foreign(String::from("gust model diverged"))));
    assert_eq!(sim.get_statevector(), before);
    assert_eq!(sim.handle().unwrap().stepped.get(), 0);
}

#[test]
fn a_wind_of_the_wrong_length_gives_the_step_up() {
    let mut sim = simulation(Some(Stub::answering(&[5.0, 0.0])));
    let before = sim.get_statevector();
    let r = drive(&mut sim, 0.1, [0.0; 4]);
    assert_eq!(r, Err(StepError::Marshalling(MarshalError::WrongLength(2))));
    assert_eq!(sim.get_statevector(), before);
}

#[test]
fn a_wind_that_is_not_finite_gives_the_step_up() {
    let mut sim = simulation(Some(Stub::answering(&[5.0, f64::NAN, 0.0])));
    let before = sim.get_statevector();
    let r = drive(&mut sim, 0.1, [0.0; 4]);
    assert_eq!(r, Err(StepError::Marshalling(MarshalError::NonFinite(1))));
    assert_eq!(sim.get_statevector(), before);
    assert_eq!(sim.handle().unwrap().stepped.get(), 0);
}

#[test]
fn a_failing_wind_step_gives_the_step_up() {
    let mut stub = Stub::answering(&[5.0, 0.0, 0.0]);
    stub.step_fails = true;
    let mut sim = simulation(Some(stub));
    let before = sim.get_statevector();
    let r = drive(&mut sim, 0.1, [0.0; 4]);
    assert_eq!(r, Err(StepError::Foreign(String::from("clock stuck"))));
    assert_eq!(sim.get_statevector(), before);
}

#[test]
fn a_step_after_a_failed_one_starts_from_the_old_state() {
    let mut stub = Stub::answering(&[5.0, 0.0, 0.0]);
    stub.step_fails = true;
    let mut failing = simulation(Some(stub));
    let mut fresh = simulation(Some(Stub::answering(&[5.0, 0.0, 0.0])));
    assert!(drive(&mut failing, 0.1, [0.0; 4]).is_err());
    let action: Action<String> = failing.step(Event::Begin { dt: 1, controls: some_controls() });
    let expected: Action<String> = fresh.step(Event::Begin { dt: 1, controls: some_controls() });
    assert_eq!(action, expected);
}

#[test]
fn an_event_that_was_not_asked_for_gives_the_step_up() {
    let mut sim = simulation(Some(Stub::answering(&[5.0, 0.0, 0.0])));
    let before = sim.get_statevector();
    let out_of_order: Action<String> = Action::Done(Err(StepError::OutOfOrder));
    assert_eq!(sim.step(Event::Wind(Ok(lists_of(&[1.0, 2.0, 3.0])))), out_of_order);
    assert_eq!(sim.step(Event::Integrated(some_state())), out_of_order);
    assert_eq!(sim.step(Event::WindStepped(Ok(()))), out_of_order);
    let _: Action<String> = sim.step(Event::Begin { dt: 1, controls: some_controls() });
    assert_eq!(sim.step(Event::Integrated(some_state())), out_of_order);
    // the step is over: the wind that was asked for is no longer wanted
    assert_eq!(sim.step(Event::Wind(Ok(lists_of(&[1.0, 2.0, 3.0])))), out_of_order);
    let _: Action<String> = sim.step(Event::Begin { dt: 1, controls: some_controls() });
    let _: Action<String> = sim.step(Event::Wind(Ok(lists_of(&[1.0, 2.0, 3.0]))));
    assert_eq!(sim.step(Event::WindStepped(Ok(()))), out_of_order);
    assert_eq!(sim.get_statevector(), before);
}

#[test]
fn a_constant_wind_wants_no_wind_events() {
    let mut sim = simulation(None);
    let before = sim.get_statevector();
    let out_of_order: Action<String> = Action::Done(Err(StepError::OutOfOrder));
    let _: Action<String> = sim.step(Event::Begin { dt: 1, controls: some_controls() });
    assert_eq!(sim.step(Event::Wind(Ok(lists_of(&[1.0, 2.0, 3.0])))), out_of_order);
    let _: Action<String> = sim.step(Event::Begin { dt: 1, controls: some_controls() });
    assert_eq!(sim.step(Event::WindStepped(Ok(()))), out_of_order);
    assert_eq!(sim.get_statevector(), before);
}

#[test]
fn begin_starts_afresh_whatever_went_before() {
    let mut sim = simulation(Some(Stub::answering(&[5.0, 0.0, 0.0])));
    let before = BodyState::from_array(sim.get_statevector());
    let asked: Action<String> = Action::GetWind { position: before.position };
    assert_eq!(sim.step(Event::Begin { dt: 1, controls: some_controls() }), asked);
    assert_eq!(sim.step(Event::Begin { dt: 2, controls: some_controls() }), asked);
    let _: Action<String> = sim.step(Event::Wind(Ok(lists_of(&[1.0, 2.0, 3.0]))));
    assert_eq!(sim.step(Event::Begin { dt: 3, controls: some_controls() }), asked);
    let _: Action<String> = sim.step(Event::Wind(Ok(lists_of(&[1.0, 2.0, 3.0]))));
    let _: Action<String> = sim.step(Event::Integrated(some_state()));
    assert_eq!(sim.step(Event::Begin { dt: 4, controls: some_controls() }), asked);
    assert_eq!(sim.get_statevector(), before.to_array());
    // the step that was begun last is the one that counts
    let action: Action<String> = sim.step(Event::Wind(Ok(lists_of(&[1.0, 2.0, 3.0]))));
    assert!(matches!(action, Action::Integrate { dt: 4, .. }));
}

#[test]
fn set_statevector_drops_the_step_under_way() {
    let mut sim = simulation(None);
    let _: Action<String> = sim.step(Event::Begin { dt: 1, controls: some_controls() });
    let written = as_bits([9.0, 9.0, 9.0, 1.0, 1.0, 1.0, 0.0, 0.0, 0.0, 1.0, 0.0, 0.0, 0.0]);
    sim.set_statevector(written);
    let action: Action<String> = sim.step(Event::Integrated(some_state()));
    assert_eq!(action, Action::Done(Err(StepError::OutOfOrder)));
    assert_eq!(sim.get_statevector(), written);
}

#[test]
fn a_step_starts_from_the_state_that_was_set() {
    let mut sim = simulation(None);
    let written = as_bits([9.0, 9.0, 9.0, 1.0, 1.0, 1.0, 0.0, 0.0, 0.0, 1.0, 0.0, 0.0, 0.0]);
    sim.set_statevector(written);
    let action: Action<String> = sim.step(Event::Begin { dt: 1, controls: some_controls() });
    match action {
        Action::Integrate { state, .. } => assert_eq!(state.to_array(), written),
        other => panic!("{other:?}"),
    }
}

#[test]
fn stepping_keeps_what_the_simulation_was_built_with() {
    let mut sim = simulation(Some(Stub::answering(&[5.0, 0.0, 0.0])));
    let inertia: Matrix3 = sim.inertia();
    let mass = sim.mass();
    let kind = sim.wind_kind();
    for _ in 0..10 {
        drive(&mut sim, 0.1, [0.0; 4]).unwrap();
    }
    assert_eq!(sim.inertia(), inertia);
    assert_eq!(sim.mass(), mass);
    assert_eq!(sim.wind_kind(), kind);
    assert_eq!(sim.handle().unwrap().stepped.get(), 10);
}
