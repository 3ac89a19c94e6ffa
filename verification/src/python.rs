//! Looking at a Python object that is offered as a wind model.
//!
//! Two questions are put to the object for each operation: whether it has
//! something of the operation's name, and what that is. Putting them runs
//! the object's own code, so whoever holds the object puts them and brings
//! the answers here. What is decided here is what the answers amount to; the
//! one question that is asked from here is whether what the object has can
//! be called.
use vstd::prelude::*;
use pyo3::PyAny;
use crate::wind::{ForeignObject, Probe};

verus! {

/// `pyo3::PyAny`, a Python object of any type. Nothing is known of what is
/// inside.
#[verifier::external_type_specification]
#[verifier::external_body]
pub struct ExPyAny(PyAny);

/// What an object answered about the name of one operation.
pub struct Answers<'py> {
    /// Whether the object has something of that name; `None` where asking
    /// failed.
    pub present: Option<bool>,
    /// What the object has under that name; `None` where it could not be
    /// had.
    pub value: Option<&'py PyAny>,
}

impl<'py> Answers<'py> {
    /// Whether `found` can be the finding for these answers. Where there is
    /// nothing to call, the finding is fixed; where there is, it is the one
    /// for a thing that can be called or the one for a thing that cannot.
    pub open spec fn admits(self, found: Probe) -> bool {
        match self.value {
            None => found == Probe::finding(self.present, None),
            Some(_) => {
                ||| found == Probe::finding(self.present, Some(true))
                ||| found == Probe::finding(self.present, Some(false))
            },
        }
    }
}

/// `pyo3::PyAny::is_callable`: whether `object` can be called, as Python's
/// `callable` tells it. Nothing is claimed of the answer.
#[verifier::external_body]
fn is_callable(object: &PyAny) -> (r: bool) {
    object.is_callable()
}

/// The finding for `answers`. What the object has is asked whether it can
/// be called only where the answers say that it has something; an answer
/// that failed counts as the wrong shape.
fn look(answers: &Answers) -> (found: Probe)
    ensures
        answers.admits(found),
{
    let callable = match answers.present {
        Some(true) => match answers.value {
            Some(value) => Some(is_callable(value)),
            None => None,
        },
        _ => None,
    };
    Probe::found(answers.present, callable)
}

/// Puts the findings for the two operations of a wind model beside
/// `handle`, which is meant to be a handle of the object that gave the
/// answers.
pub fn inspect<H>(handle: H, get_wind: &Answers, step: &Answers) -> (r: ForeignObject<H>)
    ensures
        r.handle == handle,
        get_wind.admits(r.get_wind),
        step.admits(r.step),
{
    let get_wind = look(get_wind);
    let step = look(step);
    ForeignObject { handle, get_wind, step }
}

/// An object that lacks an operation is found to lack it, and one for which
/// asking failed, or from which the operation could not be had, is found to
/// be of the wrong shape, whatever else was answered. Only an object that
/// has the operation can be found to have it.
pub proof fn lemma_findings(answers: Answers, found: Probe)
    requires
        answers.admits(found),
    ensures
        answers.present == Some(false) ==> found == Probe::Absent,
        answers.present is None ==> found == Probe::Incompatible,
        answers.value is None && answers.present == Some(true) ==> found == Probe::Incompatible,
        found == Probe::Compatible ==> answers.present == Some(true) && answers.value is Some,
{
}

} // verus!
