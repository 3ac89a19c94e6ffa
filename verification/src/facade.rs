//! The simulation facade: one body, one wind model, and the operations that
//! read the state, overwrite it and move it through time.
use vstd::prelude::*;
use crate::geometry::{Controls, Matrix3, Quaternion, Vector3};
use crate::protocol::{Action, Event, Model, Phase, StepError};
use crate::state::BodyState;
use crate::wind::{marshal_wind, ConfigError, ConstantWind, ForeignObject, WindKind, WindModel};

verus! {

/// Why a simulation was not built.
#[derive(Clone, Copy, Debug, PartialEq, Eq, Structural)]
pub enum BuildError {
    /// The attitude has a component that is an infinity or a NaN; its
    /// place, in the order `i`, `j`, `k`, `w`, the first such.
    Attitude(usize),
    /// The foreign object was refused as a wind model.
    WindModel(ConfigError),
}

/// A simulation instance. `H` is the type of the handle of a foreign wind
/// model.
///
/// The instance is the only owner of the state of the body. A wind model
/// gets to see a position and a time step and nothing else.
#[derive(Debug)]
pub struct Simulation<H> {
    mass: u64,
    inertia: Matrix3,
    body: BodyState,
    wind: WindModel<H>,
    phase: Phase,
}

impl<H> View for Simulation<H> {
    type V = Model;

    closed spec fn view(&self) -> Model {
        Model {
            mass: self.mass,
            inertia: self.inertia,
            body: self.body,
            wind: self.wind@,
            phase: self.phase,
        }
    }
}

impl<H> Simulation<H> {
    /// The handle of the foreign wind model, if the simulation has one.
    pub closed spec fn spec_handle(&self) -> Option<H> {
        self.wind.spec_handle()
    }

    /// Whether the lists hold all that [`Simulation::new`] reads from them:
    /// three columns of three entries, three components each for position,
    /// velocity and rates, and four for the attitude.
    pub open spec fn complete(
        inertia: Seq<Vec<u64>>,
        position: Seq<u64>,
        velocity: Seq<u64>,
        attitude: Seq<u64>,
        rates: Seq<u64>,
    ) -> bool {
        &&& Matrix3::covers(inertia)
        &&& position.len() >= 3
        &&& velocity.len() >= 3
        &&& attitude.len() >= 4
        &&& rates.len() >= 3
    }

    /// The state that [`Simulation::new`] reads from its lists. The
    /// attitude is read as `i`, `j`, `k`, `w`.
    pub open spec fn initial_body(
        position: Seq<u64>,
        velocity: Seq<u64>,
        attitude: Seq<u64>,
        rates: Seq<u64>,
    ) -> BodyState {
        BodyState {
            position: Vector3::of_components(position),
            velocity: Vector3::of_components(velocity),
            attitude: Quaternion::of_components(attitude),
            rates: Vector3::of_components(rates),
        }
    }

    /// The kind of wind model that [`Simulation::new`] chooses: the
    /// constant wind of zero where no foreign object is given, the foreign
    /// one otherwise.
    pub open spec fn chosen_kind(wind_model: Option<ForeignObject<H>>) -> WindKind {
        match wind_model {
            None => WindKind::Constant(Vector3::spec_zero()),
            Some(_) => WindKind::Foreign,
        }
    }

    /// Tells whether the lists hold all that [`Simulation::new`] reads from
    /// them.
    pub fn is_complete(
        inertia: &Vec<Vec<u64>>,
        position: &Vec<u64>,
        velocity: &Vec<u64>,
        attitude: &Vec<u64>,
        rates: &Vec<u64>,
    ) -> (r: bool)
        ensures
            r == Self::complete(inertia@, position@, velocity@, attitude@, rates@),
    {
        inertia.len() >= 3 && inertia[0].len() >= 3 && inertia[1].len() >= 3 && inertia[2].len()
            >= 3 && position.len() >= 3 && velocity.len() >= 3 && attitude.len() >= 4
            && rates.len() >= 3
    }

    /// The outcome of building a simulation from `body` under the foreign
    /// object or none: the fault of the attitude, if it has one, before the
    /// fault of the object.
    pub open spec fn refusal(body: BodyState, wind_model: Option<ForeignObject<H>>) -> Option<
        BuildError,
    > {
        match body.attitude.first_non_finite() {
            Some(at) => Some(BuildError::Attitude(at)),
            None => match wind_model {
                None => None,
                Some(object) => match object.defect() {
                    Some(e) => Some(BuildError::WindModel(e)),
                    None => None,
                },
            },
        }
    }

    /// Builds a simulation.
    ///
    /// Each inner list of `inertia` is one column of the inertia matrix.
    /// `attitude` is read as `i`, `j`, `k`, `w`. It is meant to be of unit
    /// norm, and bringing it to unit norm is for the caller to do
    /// beforehand: it is stored as given. An attitude with a component that
    /// is an infinity or a NaN, which is what scaling an attitude of norm
    /// zero gives, is refused. Entries of a list beyond those that are read
    /// are ignored.
    ///
    /// Without `wind_model` the simulation runs under the constant wind of
    /// zero. With it, the simulation runs under that foreign model, and is
    /// not built at all if the object lacks an operation: it never falls
    /// back to the constant wind.
    pub fn new(
        mass: u64,
        inertia: Vec<Vec<u64>>,
        position: Vec<u64>,
        velocity: Vec<u64>,
        attitude: Vec<u64>,
        rates: Vec<u64>,
        wind_model: Option<ForeignObject<H>>,
    ) -> (r: Result<Simulation<H>, BuildError>)
        requires
            Self::complete(inertia@, position@, velocity@, attitude@, rates@),
        ensures
            match r {
                Ok(sim) => {
                    &&& Self::refusal(
                        Self::initial_body(position@, velocity@, attitude@, rates@),
                        wind_model,
                    ) is None
                    &&& sim@ == Model::initial(
                        mass,
                        Matrix3::of_columns(inertia@),
                        Self::initial_body(position@, velocity@, attitude@, rates@),
                        Self::chosen_kind(wind_model),
                    )
                    &&& sim@.body.attitude.finite()
                    &&& match wind_model {
                        None => sim.spec_handle() is None,
                        Some(object) => object.conforms() && sim.spec_handle() == Some(
                            object.handle,
                        ),
                    }
                },
                Err(e) => Self::refusal(
                    Self::initial_body(position@, velocity@, attitude@, rates@),
                    wind_model,
                ) == Some(e),
            },
    {
        let inertia = Matrix3::from_columns(&inertia);
        let initial_position = Vector3::from_list(&position);
        let initial_velocity = Vector3::from_list(&velocity);
        let initial_attitude = Quaternion::from_list(&attitude);
        let initial_rates = Vector3::from_list(&rates);
        let body = BodyState::from_parts(
            initial_position,
            initial_velocity,
            initial_attitude,
            initial_rates,
        );
        match initial_attitude.non_finite() {
            Some(at) => Err(BuildError::Attitude(at)),
            None => match WindModel::select(wind_model) {
                Ok(wind) => Ok(Simulation::assemble(mass, inertia, body, wind)),
                Err(e) => Err(BuildError::WindModel(e)),
            },
        }
    }

    /// Builds a simulation that runs under `wind`, unless the attitude of
    /// `body` has a component that is an infinity or a NaN.
    pub fn with_wind_model(mass: u64, inertia: Matrix3, body: BodyState, wind: WindModel<H>) -> (r:
        Result<Simulation<H>, BuildError>)
        ensures
            match r {
                Ok(sim) => {
                    &&& body.attitude.finite()
                    &&& sim@ == Model::initial(mass, inertia, body, wind@)
                    &&& sim.spec_handle() == wind.spec_handle()
                },
                Err(e) => body.attitude.first_non_finite() matches Some(at) && e
                    == BuildError::Attitude(at),
            },
    {
        match body.attitude.non_finite() {
            Some(at) => Err(BuildError::Attitude(at)),
            None => Ok(Simulation::assemble(mass, inertia, body, wind)),
        }
    }

    /// Puts a simulation together with no step under way.
    fn assemble(mass: u64, inertia: Matrix3, body: BodyState, wind: WindModel<H>) -> (sim:
        Simulation<H>)
        ensures
            sim@ == Model::initial(mass, inertia, body, wind@),
            sim.spec_handle() == wind.spec_handle(),
    {
        Simulation { mass, inertia, body, wind, phase: Phase::Idle }
    }

    /// The mass that the simulation was built with.
    pub fn mass(&self) -> (m: u64)
        ensures
            m == self@.mass,
    {
        self.mass
    }

    /// The inertia matrix that the simulation was built with.
    pub fn inertia(&self) -> (m: Matrix3)
        ensures
            m == self@.inertia,
    {
        self.inertia
    }

    /// The kind of wind model that the simulation runs under.
    pub fn wind_kind(&self) -> (k: WindKind)
        ensures
            k == self@.wind,
    {
        match &self.wind {
            WindModel::Constant(c) => WindKind::Constant(c.wind),
            WindModel::Foreign(_) => WindKind::Foreign,
        }
    }

    /// Lends the handle of the foreign wind model, if the simulation has
    /// one.
    pub fn handle(&self) -> (h: Option<&H>)
        ensures
            match h {
                Some(handle) => self.spec_handle() == Some(*handle),
                None => self.spec_handle() is None,
            },
            h is Some <==> self@.wind is Foreign,
    {
        self.wind.handle()
    }

    /// The world-frame position: positions 0 to 2 of the state vector.
    pub fn get_position(&self) -> (p: [u64; 3])
        ensures
            p@ == self@.body.position.components(),
            p@ == self@.statevector().subrange(0, 3),
    {
        proof {
            crate::state::lemma_flat_layout(self.body);
        }
        self.body.position.to_array()
    }

    /// The body-frame velocity: positions 3 to 5 of the state vector.
    pub fn get_velocity(&self) -> (v: [u64; 3])
        ensures
            v@ == self@.body.velocity.components(),
            v@ == self@.statevector().subrange(3, 6),
    {
        proof {
            crate::state::lemma_flat_layout(self.body);
        }
        self.body.velocity.to_array()
    }

    /// The attitude in the order `i`, `j`, `k`, `w`: positions 6 to 9 of
    /// the state vector.
    pub fn get_attitude(&self) -> (q: [u64; 4])
        ensures
            q@ == self@.body.attitude.components(),
            q@ == self@.statevector().subrange(6, 10),
    {
        proof {
            crate::state::lemma_flat_layout(self.body);
        }
        let q = self.body.attitude;
        [q.i, q.j, q.k, q.w]
    }

    /// The body-frame angular rates: positions 10 to 12 of the state
    /// vector.
    pub fn get_rates(&self) -> (w: [u64; 3])
        ensures
            w@ == self@.body.rates.components(),
            w@ == self@.statevector().subrange(10, 13),
    {
        proof {
            crate::state::lemma_flat_layout(self.body);
        }
        self.body.rates.to_array()
    }

    /// The whole state vector: position, velocity, attitude as `i`, `j`,
    /// `k`, `w`, and rates.
    pub fn get_statevector(&self) -> (v: [u64; 13])
        ensures
            v@ == self@.statevector(),
    {
        self.body.to_array()
    }

    /// Overwrites the whole state with `state`, all thirteen components at
    /// once. The attitude among them is taken as it is; that it is of unit
    /// norm is for the caller to see to. A step under way is dropped.
    pub fn set_statevector(&mut self, state: [u64; 13])
        ensures
            final(self)@ == old(self)@.with_statevector(state@),
            final(self)@.statevector() == state@,
            final(self).spec_handle() == old(self).spec_handle(),
    {
        self.body = BodyState::from_array(state);
        self.phase = Phase::Idle;
    }

    /// Takes `event` from the driver and answers with the work to do next:
    /// one move of a time step. The state of the body changes only with the
    /// move that completes a step.
    pub fn step<E>(&mut self, event: Event<E>) -> (action: Action<E>)
        ensures
            (final(self)@, action) == old(self)@.next(event),
            final(self).spec_handle() == old(self).spec_handle(),
    {
        match event {
            Event::Begin { dt, controls } => self.begin(dt, controls),
            Event::Wind(reply) => match self.phase {
                Phase::AwaitingWind { dt, controls } => match reply {
                    Ok(list) => match marshal_wind(&list) {
                        Ok(wind) => self.integrate(dt, controls, wind),
                        Err(e) => self.give_up(StepError::Marshalling(e)),
                    },
                    Err(e) => self.give_up(StepError::Foreign(e)),
                },
                _ => self.give_up(StepError::OutOfOrder),
            },
            Event::Integrated(candidate) => match self.phase {
                Phase::AwaitingState { dt } => match &mut self.wind {
                    WindModel::Constant(constant) => {
                        constant.step(dt);
                        self.complete_with(candidate)
                    },
                    WindModel::Foreign(_) => {
                        self.phase = Phase::AwaitingWindStep { candidate };
                        Action::StepWind { dt }
                    },
                },
                _ => self.give_up(StepError::OutOfOrder),
            },
            Event::WindStepped(reply) => match self.phase {
                Phase::AwaitingWindStep { candidate } => match reply {
                    Ok(_) => self.complete_with(candidate),
                    Err(e) => self.give_up(StepError::Foreign(e)),
                },
                _ => self.give_up(StepError::OutOfOrder),
            },
        }
    }

    /// Starts a step: asks the constant wind here, or the driver for the
    /// foreign one.
    fn begin<E>(&mut self, dt: u64, controls: Controls) -> (action: Action<E>)
        ensures
            (final(self)@, action) == old(self)@.begun::<E>(dt, controls),
            final(self).spec_handle() == old(self).spec_handle(),
    {
        match &self.wind {
            WindModel::Constant(constant) => {
                let wind = constant.get_wind(self.body.position);
                self.integrate(dt, controls, wind)
            },
            WindModel::Foreign(_) => {
                self.phase = Phase::AwaitingWind { dt, controls };
                Action::GetWind { position: self.body.position }
            },
        }
    }

    /// Hands the state to the integrator, with the wind to integrate under.
    fn integrate<E>(&mut self, dt: u64, controls: Controls, wind: Vector3) -> (action: Action<E>)
        ensures
            final(self)@ == (Model { phase: Phase::AwaitingState { dt }, ..old(self)@ }),
            action == (Action::<E>::Integrate { state: old(self)@.body, dt, controls, wind }),
            final(self).spec_handle() == old(self).spec_handle(),
    {
        self.phase = Phase::AwaitingState { dt };
        Action::Integrate { state: self.body, dt, controls, wind }
    }

    /// Takes the state that the integrator gave for the state of the body.
    fn complete_with<E>(&mut self, candidate: BodyState) -> (action: Action<E>)
        ensures
            final(self)@ == (Model { body: candidate, phase: Phase::Idle, ..old(self)@ }),
            action == Action::<E>::Done(Ok(())),
            final(self).spec_handle() == old(self).spec_handle(),
    {
        self.body = candidate;
        self.phase = Phase::Idle;
        Action::Done(Ok(()))
    }

    /// Gives the step up and leaves the body where it was.
    fn give_up<E>(&mut self, error: StepError<E>) -> (action: Action<E>)
        ensures
            (final(self)@, action) == old(self)@.given_up(error),
            final(self).spec_handle() == old(self).spec_handle(),
    {
        self.phase = Phase::Idle;
        Action::Done(Err(error))
    }
}

/// A simulation is built exactly from an attitude whose components are all
/// finite and, where a foreign object is given, an object that has both
/// operations. An object without `step` is always refused, and so is an
/// attitude with a component that is not finite, whatever the object.
pub proof fn lemma_built_exactly_when_sound<H>(
    body: BodyState,
    wind_model: Option<ForeignObject<H>>,
)
    ensures
        Simulation::<H>::refusal(body, wind_model) is None <==> {
            &&& body.attitude.finite()
            &&& wind_model matches Some(object) ==> object.conforms()
        },
        !body.attitude.finite() ==> Simulation::<H>::refusal(body, wind_model) matches Some(
            BuildError::Attitude(_),
        ),
        wind_model matches Some(object) && object.step == crate::wind::Probe::Absent
            ==> Simulation::<H>::refusal(body, wind_model) is Some,
{
}

/// Simulations that were built alike and are told the same behave the same:
/// after every event they are in the same state and ask for the same work.
/// Neither the handle of a foreign wind model nor its type has any part in
/// it.
pub proof fn lemma_equal_simulations_run_alike<H1, H2, E>(
    a: Simulation<H1>,
    b: Simulation<H2>,
    events: Seq<Event<E>>,
)
    requires
        a@ == b@,
    ensures
        a@.after(events) == b@.after(events),
        a@.actions(events) == b@.actions(events),
        a@.trajectory(events) == b@.trajectory(events),
{
}

/// A simulation built without a wind model is a simulation under the
/// constant wind of zero: built from the same values otherwise, the two are
/// in the same state, go through the same states and ask for the same work,
/// whatever they are told.
pub proof fn lemma_default_wind_is_constant_zero<H, E>(
    mass: u64,
    inertia: Matrix3,
    body: BodyState,
    events: Seq<Event<E>>,
)
    ensures
        ({
            let by_default = Model::initial(
                mass,
                inertia,
                body,
                Simulation::<H>::chosen_kind(None),
            );
            let zero = WindModel::<H>::Constant(ConstantWind { wind: Vector3::spec_zero() });
            let by_choice = Model::initial(mass, inertia, body, zero@);
            &&& by_default == by_choice
            &&& by_default.trajectory(events) == by_choice.trajectory(events)
            &&& by_default.actions(events) == by_choice.actions(events)
        }),
{
}

} // verus!
