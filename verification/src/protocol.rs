//! One time step as an exchange between the simulation and its driver.
//!
//! A step needs work that is done outside this crate: asking a foreign wind
//! model for the wind, integrating the equations of motion, telling the
//! foreign wind model to move on. The simulation asks for each piece of work
//! with an [`Action`] and is told how it went with an [`Event`]. It decides
//! what comes next, and it alone changes the state of the body.
//!
//! With a constant wind a step is two exchanges:
//! `Begin` gives `Integrate`, `Integrated` gives `Done(Ok)`.
//! With a foreign wind model it is four:
//! `Begin` gives `GetWind`, `Wind` gives `Integrate`, `Integrated` gives
//! `StepWind`, `WindStepped` gives `Done(Ok)`.
//! The new state is taken over only with that last `Done(Ok)`. A step that
//! ends in `Done(Err)` leaves the state of the body as it was when the step
//! began.
use vstd::prelude::*;
use crate::geometry::{Controls, Matrix3, Vector3};
use crate::state::BodyState;
use crate::wind::{marshal, MarshalError, WindKind};

verus! {

/// Why a step was given up. `E` is the type of the failures of the foreign
/// wind model.
#[derive(Debug, PartialEq)]
pub enum StepError<E> {
    /// The foreign `get_wind` answered, but not with three finite scalars.
    Marshalling(MarshalError),
    /// An operation of the foreign wind model failed; the failure is passed
    /// on as it came.
    Foreign(E),
    /// The event does not report on the work that was asked for.
    OutOfOrder,
}

/// How far a step has come.
#[derive(Clone, Copy, Debug, PartialEq, Eq, Structural)]
pub enum Phase {
    /// No step is under way.
    Idle,
    /// The foreign wind model has been asked for the wind.
    AwaitingWind { dt: u64, controls: Controls },
    /// The integrator has been asked for the next state.
    AwaitingState { dt: u64 },
    /// The foreign wind model has been told to move on; `candidate` is the
    /// state that the integrator gave.
    AwaitingWindStep { candidate: BodyState },
}

/// What the driver reports.
#[derive(Debug, PartialEq)]
pub enum Event<E> {
    /// A step of `dt` under `controls` is wanted.
    Begin { dt: u64, controls: Controls },
    /// The foreign `get_wind` returned this list, or failed.
    Wind(Result<Vec<u64>, E>),
    /// The integrator gave this state.
    Integrated(BodyState),
    /// The foreign `step` returned, or failed.
    WindStepped(Result<(), E>),
}

/// What the driver is to do next.
#[derive(Debug, PartialEq)]
pub enum Action<E> {
    /// Call `get_wind` of the foreign wind model with `position`, and report
    /// with [`Event::Wind`].
    GetWind { position: Vector3 },
    /// Integrate from `state` over `dt` under `controls` and `wind`, and
    /// report with [`Event::Integrated`].
    Integrate { state: BodyState, dt: u64, controls: Controls, wind: Vector3 },
    /// Call `step` of the foreign wind model with `dt`, and report with
    /// [`Event::WindStepped`].
    StepWind { dt: u64 },
    /// The step is over.
    Done(Result<(), StepError<E>>),
}

/// A simulation as the protocol sees it: what it was built with, the state
/// of the body, and how far the step under way has come.
pub struct Model {
    pub mass: u64,
    pub inertia: Matrix3,
    pub body: BodyState,
    pub wind: WindKind,
    pub phase: Phase,
}

impl Model {
    /// A simulation that has just been built.
    pub open spec fn initial(mass: u64, inertia: Matrix3, body: BodyState, wind: WindKind) -> Model {
        Model { mass, inertia, body, wind, phase: Phase::Idle }
    }

    /// The state vector of the simulation.
    pub open spec fn statevector(self) -> Seq<u64> {
        self.body.flat()
    }

    /// The simulation after its state vector was overwritten with `v`. A
    /// step under way is dropped with the state it started from.
    pub open spec fn with_statevector(self, v: Seq<u64>) -> Model
        recommends
            v.len() == crate::state::STATE_LEN,
    {
        Model { body: BodyState::of_flat(v), phase: Phase::Idle, ..self }
    }

    /// The step was given up: no step is under way and the body is where it
    /// was.
    pub open spec fn given_up<E>(self, error: StepError<E>) -> (Model, Action<E>) {
        (Model { phase: Phase::Idle, ..self }, Action::Done(Err(error)))
    }

    /// The work with which a step of `dt` under `controls` starts.
    pub open spec fn begun<E>(self, dt: u64, controls: Controls) -> (Model, Action<E>) {
        match self.wind {
            WindKind::Constant(wind) => (
                Model { phase: Phase::AwaitingState { dt }, ..self },
                Action::Integrate { state: self.body, dt, controls, wind },
            ),
            WindKind::Foreign => (
                Model { phase: Phase::AwaitingWind { dt, controls }, ..self },
                Action::GetWind { position: self.body.position },
            ),
        }
    }

    /// The simulation after `event`, and what it asks for in answer.
    ///
    /// `Begin` always starts a step afresh; a step under way is dropped.
    /// Any other event must report on the work that was asked for last, or
    /// the step is given up as out of order.
    pub open spec fn next<E>(self, event: Event<E>) -> (Model, Action<E>) {
        match event {
            Event::Begin { dt, controls } => self.begun(dt, controls),
            Event::Wind(reply) => match self.phase {
                Phase::AwaitingWind { dt, controls } => match reply {
                    Ok(list) => match marshal(list@) {
                        Ok(wind) => (
                            Model { phase: Phase::AwaitingState { dt }, ..self },
                            Action::Integrate { state: self.body, dt, controls, wind },
                        ),
                        Err(e) => self.given_up(StepError::Marshalling(e)),
                    },
                    Err(e) => self.given_up(StepError::Foreign(e)),
                },
                _ => self.given_up(StepError::OutOfOrder),
            },
            Event::Integrated(candidate) => match self.phase {
                Phase::AwaitingState { dt } => match self.wind {
                    WindKind::Constant(_) => (
                        Model { body: candidate, phase: Phase::Idle, ..self },
                        Action::Done(Ok(())),
                    ),
                    WindKind::Foreign => (
                        Model { phase: Phase::AwaitingWindStep { candidate }, ..self },
                        Action::StepWind { dt },
                    ),
                },
                _ => self.given_up(StepError::OutOfOrder),
            },
            Event::WindStepped(reply) => match self.phase {
                Phase::AwaitingWindStep { candidate } => match reply {
                    Ok(_) => (
                        Model { body: candidate, phase: Phase::Idle, ..self },
                        Action::Done(Ok(())),
                    ),
                    Err(e) => self.given_up(StepError::Foreign(e)),
                },
                _ => self.given_up(StepError::OutOfOrder),
            },
        }
    }

    /// The simulation after one whole step of `dt` under `controls` that a
    /// driver carries out as it is asked to: the foreign wind model, where
    /// there is one, answers `get_wind` with `list` and its `step` returns;
    /// the state that the driver reports is what `integrator` makes of the
    /// state, time step, controls and wind that it was handed.
    pub open spec fn stepped<E>(
        self,
        dt: u64,
        controls: Controls,
        list: Vec<u64>,
        integrator: spec_fn(BodyState, u64, Controls, Vector3) -> BodyState,
    ) -> Model {
        let (begun, first) = self.next(Event::<E>::Begin { dt, controls });
        let (blown, second) = if first is GetWind {
            begun.next(Event::<E>::Wind(Ok(list)))
        } else {
            (begun, first)
        };
        match second {
            Action::Integrate { state, dt: over, controls: under, wind } => {
                let (integrated, third) = blown.next(
                    Event::<E>::Integrated(integrator(state, over, under, wind)),
                );
                if third is StepWind {
                    integrated.next(Event::<E>::WindStepped(Ok(()))).0
                } else {
                    integrated
                }
            },
            _ => blown,
        }
    }

    /// The simulation after all of `events`, one after the other.
    pub open spec fn after<E>(self, events: Seq<Event<E>>) -> Model
        decreases events.len(),
    {
        if events.len() == 0 {
            self
        } else {
            self.after(events.drop_last()).next(events.last()).0
        }
    }

    /// The answers to `events`, one for each.
    pub open spec fn actions<E>(self, events: Seq<Event<E>>) -> Seq<Action<E>> {
        Seq::new(events.len(), |i: int| self.after(events.take(i)).next(events[i]).1)
    }

    /// The state vectors after each of `events`.
    pub open spec fn trajectory<E>(self, events: Seq<Event<E>>) -> Seq<Seq<u64>> {
        Seq::new(events.len(), |i: int| self.after(events.take(i + 1)).statevector())
    }
}

/// Overwriting the state vector and reading it again gives what was written,
/// bit for bit, whatever the thirteen values are.
pub proof fn lemma_statevector_round_trip(m: Model, v: Seq<u64>)
    requires
        v.len() == crate::state::STATE_LEN,
    ensures
        m.with_statevector(v).statevector() == v,
{
    crate::state::lemma_flat_of_flat(v);
}

/// A simulation is always ready to step: whatever went before, `Begin` is
/// answered with the first piece of work of a step, and never with `Done`.
/// With a constant wind that work is the integration, under that wind; with
/// a foreign wind model it is the question for the wind at the position of
/// the body.
pub proof fn lemma_begin_starts_a_step<E>(m: Model, dt: u64, controls: Controls)
    ensures
        m.wind matches WindKind::Constant(wind) ==> m.next(Event::<E>::Begin { dt, controls }).1
            == (Action::<E>::Integrate { state: m.body, dt, controls, wind }),
        m.wind is Foreign ==> m.next(Event::<E>::Begin { dt, controls }).1 == (Action::<E>::GetWind {
            position: m.body.position,
        }),
        m.next(Event::<E>::Begin { dt, controls }).0.body == m.body,
{
}

/// No event changes what the simulation was built with: the kind of wind
/// model is chosen once. And an event changes the state of the body only
/// when it completes a step: the answer is then `Done(Ok)`. In particular a
/// step that is given up leaves the body where it was, with no step under
/// way.
pub proof fn lemma_body_changes_only_on_success<E>(m: Model, event: Event<E>)
    ensures
        m.next(event).0.wind == m.wind,
        m.next(event).0.mass == m.mass,
        m.next(event).0.inertia == m.inertia,
        m.next(event).0.body != m.body ==> m.next(event).1 == Action::<E>::Done(Ok(())),
        m.next(event).1 matches Action::Done(_) ==> m.next(event).0.phase == Phase::Idle,
        m.next(event).1 matches Action::Done(Err(_)) ==> m.next(event).0.body == m.body,
{
}

/// As long as no answer is `Done(Ok)`, the state of the body stays what it
/// was before the first event, however many events there were and in
/// whatever order.
pub proof fn lemma_state_kept_until_success<E>(m: Model, events: Seq<Event<E>>)
    requires
        forall|i: int|
            0 <= i < events.len() ==> (#[trigger] m.actions(events)[i]) != Action::<E>::Done(
                Ok(()),
            ),
    ensures
        m.after(events).body == m.body,
        m.after(events).statevector() == m.statevector(),
    decreases events.len(),
{
    if events.len() > 0 {
        let front = events.drop_last();
        let last = events.len() - 1;
        assert forall|i: int| 0 <= i < front.len() implies (#[trigger] m.actions(front)[i])
            != Action::<E>::Done(Ok(())) by {
            assert(front.take(i) =~= events.take(i));
            assert(m.actions(events)[i] != Action::<E>::Done(Ok(())));
        }
        lemma_state_kept_until_success(m, front);
        assert(events.take(last) =~= front);
        assert(m.actions(events)[last] != Action::<E>::Done(Ok(())));
        lemma_body_changes_only_on_success(m.after(front), events.last());
    }
}

/// A failing `get_wind` gives the step up with the state untouched: if the
/// foreign wind model fails, or answers with anything but three finite
/// scalars, the answer to that is `Done(Err)`, the failure of the model
/// being passed on as it came, and the state vector is what it was before
/// the step began.
pub proof fn lemma_failed_get_wind_keeps_state<E>(
    m: Model,
    dt: u64,
    controls: Controls,
    reply: Result<Vec<u64>, E>,
)
    requires
        m.wind is Foreign,
        reply matches Ok(list) ==> marshal(list@) is Err,
    ensures
        ({
            let asked = m.next(Event::<E>::Begin { dt, controls }).0;
            let (left, answer) = asked.next(Event::Wind(reply));
            &&& left.statevector() == m.statevector()
            &&& left.phase == Phase::Idle
            &&& match reply {
                Ok(list) => answer == Action::<E>::Done(
                    Err(StepError::Marshalling(marshal(list@)->Err_0)),
                ),
                Err(e) => answer == Action::<E>::Done(Err(StepError::Foreign(e))),
            }
        }),
{
}

/// The wind that the integrator is given is the wind that the wind model
/// gave: for a foreign model the three scalars of its answer, unchanged and
/// in their order.
pub proof fn lemma_wind_is_forwarded<E>(m: Model, dt: u64, controls: Controls, list: Vec<u64>)
    requires
        m.wind is Foreign,
        crate::wind::acceptable(list@),
    ensures
        ({
            let asked = m.next(Event::<E>::Begin { dt, controls }).0;
            let (_, answer) = asked.next(Event::<E>::Wind(Ok(list)));
            &&& answer matches Action::Integrate { state, dt: d, controls: c, wind }
            &&& state == m.body
            &&& d == dt
            &&& c == controls
            &&& wind.components() == list@
        }),
{
    crate::wind::lemma_marshal(list@);
}

/// No answer of a foreign wind model that holds an infinity or a NaN gets
/// to the integrator: the wind of an integration that answers a `Wind`
/// event is finite in all three components.
pub proof fn lemma_foreign_wind_is_finite<E>(m: Model, reply: Result<Vec<u64>, E>)
    ensures
        m.next(Event::Wind(reply)).1 matches Action::Integrate { wind, .. } ==> {
            &&& crate::scalar::finite(wind.x)
            &&& crate::scalar::finite(wind.y)
            &&& crate::scalar::finite(wind.z)
        },
{
}

/// A simulation under a constant wind never asks for foreign work: every
/// answer is the integration or the end of the step.
pub proof fn lemma_constant_wind_needs_no_foreign_work<E>(m: Model, event: Event<E>)
    requires
        m.wind is Constant,
    ensures
        m.next(event).1 is Integrate || m.next(event).1 is Done,
{
}

/// A step whose work succeeds ends with the state that the integrator gave:
/// under a constant wind after two exchanges, under a foreign wind model,
/// whose answer is three finite scalars, after four.
pub proof fn lemma_step_completes<E>(
    m: Model,
    dt: u64,
    controls: Controls,
    list: Vec<u64>,
    candidate: BodyState,
)
    requires
        m.wind is Foreign ==> crate::wind::acceptable(list@),
    ensures
        ({
            let begun = m.next(Event::<E>::Begin { dt, controls }).0;
            let blown = if m.wind is Foreign {
                begun.next(Event::<E>::Wind(Ok(list))).0
            } else {
                begun
            };
            let (integrated, answer) = blown.next(Event::<E>::Integrated(candidate));
            let (ended, last) = if m.wind is Foreign {
                integrated.next(Event::<E>::WindStepped(Ok(())))
            } else {
                (integrated, answer)
            };
            &&& m.wind is Foreign ==> answer == (Action::<E>::StepWind { dt }) && integrated.body
                == m.body
            &&& last == Action::<E>::Done(Ok(()))
            &&& ended == (Model { body: candidate, phase: Phase::Idle, ..m })
        }),
{
    crate::wind::lemma_marshal(list@);
}

/// The wind of the wind model decides what the integrator makes of a step.
/// After one whole step the state of a simulation under a constant wind is
/// what the integrator makes of that wind, and the state of a simulation
/// under a foreign wind model is what the integrator makes of the model's
/// answer. So two simulations in the same state, one under a constant wind
/// and one under a foreign model, come out of the same step with different
/// velocities wherever the integrator gives different velocities for the two
/// winds. That it does is the integrator's to show.
pub proof fn lemma_wind_reaches_the_state<E>(
    calm: Model,
    windy: Model,
    dt: u64,
    controls: Controls,
    list: Vec<u64>,
    integrator: spec_fn(BodyState, u64, Controls, Vector3) -> BodyState,
)
    requires
        calm.wind is Constant,
        windy.wind is Foreign,
        calm.body == windy.body,
        crate::wind::acceptable(list@),
    ensures
        calm.stepped::<E>(dt, controls, list, integrator).body == integrator(
            calm.body,
            dt,
            controls,
            calm.wind->Constant_0,
        ),
        windy.stepped::<E>(dt, controls, list, integrator).body == integrator(
            windy.body,
            dt,
            controls,
            Vector3::of_components(list@),
        ),
        integrator(calm.body, dt, controls, calm.wind->Constant_0).velocity != integrator(
            calm.body,
            dt,
            controls,
            Vector3::of_components(list@),
        ).velocity ==> calm.stepped::<E>(dt, controls, list, integrator).body.velocity
            != windy.stepped::<E>(dt, controls, list, integrator).body.velocity,
{
    crate::wind::lemma_marshal(list@);
}

} // verus!
