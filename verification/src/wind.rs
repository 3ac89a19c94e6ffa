//! Wind models: the constant wind, the adapter for a wind model that the
//! caller supplies, and the closed choice between the two.
//!
//! A wind model answers two requests: `get_wind`, with a position, gives the
//! wind there; `step`, with a time step, lets the model move its own clock
//! on. The constant wind answers both here. A foreign model lives outside
//! this crate, behind a handle of a type `H` that is carried and handed out
//! but never looked into. What such a model answers arrives as a list of
//! scalars and is checked before it is used.
use vstd::prelude::*;
use crate::geometry::Vector3;
use crate::scalar::{finite, is_finite};

verus! {

/// The two operations of a wind model.
#[derive(Clone, Copy, Debug, PartialEq, Eq, Structural)]
pub enum Method {
    GetWind,
    Step,
}

impl Method {
    /// The name under which a foreign object has the operation.
    pub open spec fn spec_name(self) -> Seq<char> {
        match self {
            Method::GetWind => "get_wind"@,
            Method::Step => "step"@,
        }
    }

    pub fn name(self) -> (name: &'static str)
        ensures
            name@ == self.spec_name(),
    {
        match self {
            Method::GetWind => "get_wind",
            Method::Step => "step",
        }
    }
}

/// What a look at a foreign object found under the name of an operation.
#[derive(Clone, Copy, Debug, PartialEq, Eq, Structural)]
pub enum Probe {
    /// The object has nothing of that name.
    Absent,
    /// It has something of that name that cannot be called as the operation
    /// must be.
    Incompatible,
    /// It has the operation.
    Compatible,
}

/// Why a foreign object was refused as a wind model.
#[derive(Clone, Copy, Debug, PartialEq, Eq, Structural)]
pub enum ConfigError {
    /// The object lacks the operation.
    Missing(Method),
    /// The object has something of the operation's name, but of another
    /// shape.
    Incompatible(Method),
}

impl Probe {
    /// The finding for an object that has (`present`) or lacks something of
    /// the operation's name, which can (`callable`) or cannot be called.
    pub open spec fn classification(present: bool, callable: bool) -> Probe {
        if !present {
            Probe::Absent
        } else if callable {
            Probe::Compatible
        } else {
            Probe::Incompatible
        }
    }

    pub fn classify(present: bool, callable: bool) -> (r: Probe)
        ensures
            r == Probe::classification(present, callable),
    {
        if !present {
            Probe::Absent
        } else if callable {
            Probe::Compatible
        } else {
            Probe::Incompatible
        }
    }

    /// The finding for what two questions to an object gave. `present` is
    /// the answer to whether it has something of the operation's name,
    /// `callable` the answer to whether that can be called; an answer is
    /// `None` where the question failed or was not put. A failed question
    /// counts as the wrong shape, and what an object lacks is absent
    /// whatever else was answered.
    pub open spec fn finding(present: Option<bool>, callable: Option<bool>) -> Probe {
        match present {
            None => Probe::Incompatible,
            Some(p) => Probe::classification(p, callable == Some(true)),
        }
    }

    pub fn found(present: Option<bool>, callable: Option<bool>) -> (r: Probe)
        ensures
            r == Probe::finding(present, callable),
    {
        match present {
            None => Probe::Incompatible,
            Some(p) => {
                let can = match callable {
                    Some(c) => c,
                    None => false,
                };
                Probe::classify(p, can)
            },
        }
    }

    /// The fault that this finding is, if it was made for `method`.
    pub open spec fn defect(self, method: Method) -> Option<ConfigError> {
        match self {
            Probe::Absent => Some(ConfigError::Missing(method)),
            Probe::Incompatible => Some(ConfigError::Incompatible(method)),
            Probe::Compatible => None,
        }
    }

    pub fn check(self, method: Method) -> (r: Option<ConfigError>)
        ensures
            r == self.defect(method),
    {
        match self {
            Probe::Absent => Some(ConfigError::Missing(method)),
            Probe::Incompatible => Some(ConfigError::Incompatible(method)),
            Probe::Compatible => None,
        }
    }
}

/// A foreign object offered as a wind model: its handle, and what a look at
/// it found under the names of the two operations.
#[derive(Debug)]
pub struct ForeignObject<H> {
    pub handle: H,
    pub get_wind: Probe,
    pub step: Probe,
}

impl<H> ForeignObject<H> {
    /// Whether the object has both operations.
    pub open spec fn conforms(self) -> bool {
        self.get_wind == Probe::Compatible && self.step == Probe::Compatible
    }

    /// The first fault of the object, `get_wind` being looked at before
    /// `step`; none if it has both operations.
    pub open spec fn defect(self) -> Option<ConfigError> {
        match self.get_wind.defect(Method::GetWind) {
            Some(e) => Some(e),
            None => self.step.defect(Method::Step),
        }
    }
}

/// An object has no fault exactly if it has both operations, and an object
/// without `step` always has one.
pub proof fn lemma_defect_iff_not_conforming<H>(object: ForeignObject<H>)
    ensures
        object.defect() is None <==> object.conforms(),
        object.step == Probe::Absent ==> object.defect() is Some,
        object.get_wind == Probe::Compatible && object.step == Probe::Absent ==> object.defect()
            == Some(ConfigError::Missing(Method::Step)),
{
}

/// The adapter for a foreign wind model. It exists only for objects that
/// have both operations: the check is made once, when the adapter is built.
#[derive(Debug)]
pub struct ForeignWind<H> {
    handle: H,
}

impl<H> ForeignWind<H> {
    /// The handle of the foreign object.
    pub closed spec fn spec_handle(self) -> H {
        self.handle
    }

    /// Builds the adapter for `object` if it has both operations, and
    /// reports its first fault otherwise.
    pub fn new(object: ForeignObject<H>) -> (r: Result<ForeignWind<H>, ConfigError>)
        ensures
            match r {
                Ok(model) => object.conforms() && model.spec_handle() == object.handle,
                Err(e) => object.defect() == Some(e),
            },
    {
        match object.get_wind.check(Method::GetWind) {
            Some(e) => Err(e),
            None => match object.step.check(Method::Step) {
                Some(e) => Err(e),
                None => Ok(ForeignWind { handle: object.handle }),
            },
        }
    }

    /// Lends the handle, for the driver to call the foreign object with.
    pub fn handle(&self) -> (h: &H)
        ensures
            *h == self.spec_handle(),
    {
        &self.handle
    }
}

/// The wind model that gives the same wind everywhere and at all times.
#[derive(Clone, Copy, Debug, PartialEq, Eq, Structural)]
pub struct ConstantWind {
    pub wind: Vector3,
}

impl ConstantWind {
    pub fn new(wind: Vector3) -> (r: ConstantWind)
        ensures
            r.wind == wind,
    {
        ConstantWind { wind }
    }

    /// The wind at `position`: the wind the model was built with, wherever
    /// the position is.
    pub fn get_wind(&self, position: Vector3) -> (wind: Vector3)
        ensures
            wind == self.wind,
    {
        self.wind
    }

    /// Moves the model's clock on by `dt`. The model has none: nothing
    /// changes.
    pub fn step(&mut self, dt: u64)
        ensures
            *final(self) == *old(self),
    {
    }
}

/// The wind model of a simulation: one of two kinds, chosen when the
/// simulation is built and kept for its lifetime.
#[derive(Debug)]
pub enum WindModel<H> {
    Constant(ConstantWind),
    Foreign(ForeignWind<H>),
}

/// A wind model without the handle: its kind and, for the constant one, its
/// wind.
#[derive(Clone, Copy, Debug, PartialEq, Eq, Structural)]
pub enum WindKind {
    Constant(Vector3),
    Foreign,
}

impl<H> View for WindModel<H> {
    type V = WindKind;

    open spec fn view(&self) -> WindKind {
        match self {
            WindModel::Constant(c) => WindKind::Constant(c.wind),
            WindModel::Foreign(_) => WindKind::Foreign,
        }
    }
}

impl<H> WindModel<H> {
    /// The handle of the foreign object, if the model is a foreign one.
    pub open spec fn spec_handle(self) -> Option<H> {
        match self {
            WindModel::Constant(_) => None,
            WindModel::Foreign(f) => Some(f.spec_handle()),
        }
    }

    /// Chooses the wind model of a simulation. Without a foreign object it
    /// is the constant wind of zero; with one it is the adapter for that
    /// object, or the object's first fault. There is no falling back from a
    /// faulty object to the constant wind.
    pub fn select(wind_model: Option<ForeignObject<H>>) -> (r: Result<WindModel<H>, ConfigError>)
        ensures
            match wind_model {
                None => r matches Ok(model) && model@ == WindKind::Constant(Vector3::spec_zero()),
                Some(object) => match r {
                    Ok(model) => object.conforms() && model@ == WindKind::Foreign
                        && model.spec_handle() == Some(object.handle),
                    Err(e) => object.defect() == Some(e),
                },
            },
    {
        match wind_model {
            None => Ok(WindModel::Constant(ConstantWind::new(Vector3::zero()))),
            Some(object) => match ForeignWind::new(object) {
                Ok(model) => Ok(WindModel::Foreign(model)),
                Err(e) => Err(e),
            },
        }
    }

    /// Lends the handle of the foreign object, if the model is a foreign
    /// one.
    pub fn handle(&self) -> (h: Option<&H>)
        ensures
            match h {
                Some(handle) => self.spec_handle() == Some(*handle),
                None => self.spec_handle() is None,
            },
    {
        match self {
            WindModel::Constant(_) => None,
            WindModel::Foreign(f) => Some(f.handle()),
        }
    }
}

/// Why the answer of a foreign `get_wind` was refused.
#[derive(Clone, Copy, Debug, PartialEq, Eq, Structural)]
pub enum MarshalError {
    /// The answer does not have three entries; the number it has.
    WrongLength(usize),
    /// The entry at this index, the first such, is an infinity or a NaN.
    NonFinite(usize),
}

/// Whether `reply` is exactly three finite scalars.
pub open spec fn acceptable(reply: Seq<u64>) -> bool {
    &&& reply.len() == 3
    &&& forall|i: int| 0 <= i < 3 ==> finite(#[trigger] reply[i])
}

/// The wind that `reply` gives, or why it gives none.
pub open spec fn marshal(reply: Seq<u64>) -> Result<Vector3, MarshalError> {
    if reply.len() != 3 {
        Err(MarshalError::WrongLength(reply.len() as usize))
    } else if !finite(reply[0]) {
        Err(MarshalError::NonFinite(0))
    } else if !finite(reply[1]) {
        Err(MarshalError::NonFinite(1))
    } else if !finite(reply[2]) {
        Err(MarshalError::NonFinite(2))
    } else {
        Ok(Vector3::of_components(reply))
    }
}

/// A reply gives a wind exactly if it is three finite scalars, and then the
/// wind has just these as its components. Otherwise the error names the
/// length, or the first entry that is not finite.
pub proof fn lemma_marshal(reply: Seq<u64>)
    ensures
        marshal(reply) is Ok <==> acceptable(reply),
        marshal(reply) matches Ok(wind) ==> wind.components() == reply,
        marshal(reply) matches Err(MarshalError::WrongLength(n)) ==> reply.len() != 3 && n
            == reply.len() as usize,
        marshal(reply) matches Err(MarshalError::NonFinite(at)) ==> {
            &&& reply.len() == 3
            &&& at < 3
            &&& !finite(reply[at as int])
            &&& forall|i: int| 0 <= i < at ==> finite(#[trigger] reply[i])
        },
{
    if marshal(reply) is Ok {
        assert(Vector3::of_components(reply).components() =~= reply);
    }
}

/// Checks the answer of a foreign `get_wind` and turns it into a wind.
/// Nothing is put in the place of a bad answer.
pub fn marshal_wind(reply: &Vec<u64>) -> (r: Result<Vector3, MarshalError>)
    ensures
        r == marshal(reply@),
{
    if reply.len() != 3 {
        Err(MarshalError::WrongLength(reply.len()))
    } else if !is_finite(reply[0]) {
        Err(MarshalError::NonFinite(0))
    } else if !is_finite(reply[1]) {
        Err(MarshalError::NonFinite(1))
    } else if !is_finite(reply[2]) {
        Err(MarshalError::NonFinite(2))
    } else {
        Ok(Vector3::from_list(reply))
    }
}

} // verus!
