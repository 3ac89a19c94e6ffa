//! Simulation facade for a rigid-body aircraft whose equations of motion are
//! integrated elsewhere.
//!
//! The crate owns everything about a simulation instance that can be decided
//! without doing arithmetic on reals: the layout of the thirteen-component
//! state vector, the choice between a constant wind and a wind model supplied
//! by the caller, the validation of such a model, the checking of what it
//! answers, and the order in which wind model and integrator are consulted
//! during one time step.
//!
//! Scalars cross this crate as IEEE 754 binary64 bit patterns held in `u64`.
//! The crate moves them, compares them and inspects their exponent field; it
//! never computes with them, so every value comes out bit for bit as it went
//! in.
//!
//! Work that only a driver can do (calling the wind model of the caller,
//! running the integrator) is asked for with a [`protocol::Action`]; its
//! outcome comes back as a [`protocol::Event`].
//!
//! The one place where the crate itself reaches outside is [`python`],
//! which asks of what a Python object has under the name of an operation
//! whether it can be called.
pub mod scalar;
pub mod geometry;
pub mod state;
pub mod wind;
pub mod protocol;
pub mod facade;
pub mod python;
