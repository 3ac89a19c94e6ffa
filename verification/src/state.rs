//! The state of the rigid body and its flat, thirteen-component form.
//!
//! The state vector is, in this order: position (three components, world
//! frame), velocity (three, body frame), attitude (four, as `i`, `j`, `k`,
//! `w`) and angular rates (three, body frame). Positions `0..3`, `3..6`,
//! `6..10` and `10..13` of the vector therefore belong to these four parts.
use vstd::prelude::*;
use crate::geometry::{Quaternion, Vector3};

verus! {

/// The number of components of a state vector.
pub const STATE_LEN: usize = 13;

/// Position, velocity, attitude and angular rates of the body.
#[derive(Clone, Copy, Debug, PartialEq, Eq, Structural)]
pub struct BodyState {
    /// World-frame position.
    pub position: Vector3,
    /// Body-frame velocity.
    pub velocity: Vector3,
    /// Attitude; meant to be of unit norm, which is not checked.
    pub attitude: Quaternion,
    /// Body-frame angular rates.
    pub rates: Vector3,
}

impl BodyState {
    /// The state vector: the components of position, velocity, attitude and
    /// rates, one part after the other.
    pub open spec fn flat(self) -> Seq<u64> {
        self.position.components() + self.velocity.components() + self.attitude.components()
            + self.rates.components()
    }

    /// The state whose state vector is `v`.
    pub open spec fn of_flat(v: Seq<u64>) -> BodyState
        recommends
            v.len() == STATE_LEN,
    {
        BodyState {
            position: Vector3::of_components(v.subrange(0, 3)),
            velocity: Vector3::of_components(v.subrange(3, 6)),
            attitude: Quaternion::of_components(v.subrange(6, 10)),
            rates: Vector3::of_components(v.subrange(10, 13)),
        }
    }

    pub fn from_parts(
        position: Vector3,
        velocity: Vector3,
        attitude: Quaternion,
        rates: Vector3,
    ) -> (s: BodyState)
        ensures
            s == (BodyState { position, velocity, attitude, rates }),
    {
        BodyState { position, velocity, attitude, rates }
    }

    /// Splits a state vector into the four parts of the state.
    pub fn from_array(v: [u64; 13]) -> (s: BodyState)
        ensures
            s == BodyState::of_flat(v@),
            s.flat() == v@,
    {
        let s = BodyState {
            position: Vector3::new(v[0], v[1], v[2]),
            velocity: Vector3::new(v[3], v[4], v[5]),
            attitude: Quaternion::from_parts(v[9], Vector3::new(v[6], v[7], v[8])),
            rates: Vector3::new(v[10], v[11], v[12]),
        };
        proof {
            lemma_flat_of_flat(v@);
        }
        s
    }

    /// Lays the four parts of the state out as a state vector.
    pub fn to_array(&self) -> (v: [u64; 13])
        ensures
            v@ == self.flat(),
    {
        let v: [u64; 13] = [
            self.position.x,
            self.position.y,
            self.position.z,
            self.velocity.x,
            self.velocity.y,
            self.velocity.z,
            self.attitude.i,
            self.attitude.j,
            self.attitude.k,
            self.attitude.w,
            self.rates.x,
            self.rates.y,
            self.rates.z,
        ];
        assert(v@ =~= self.flat());
        v
    }
}

/// A state vector has thirteen components, and each part of the state sits
/// at its own positions in it.
pub proof fn lemma_flat_layout(s: BodyState)
    ensures
        s.flat().len() == STATE_LEN,
        s.flat().subrange(0, 3) == s.position.components(),
        s.flat().subrange(3, 6) == s.velocity.components(),
        s.flat().subrange(6, 10) == s.attitude.components(),
        s.flat().subrange(10, 13) == s.rates.components(),
{
    assert(s.flat().subrange(0, 3) =~= s.position.components());
    assert(s.flat().subrange(3, 6) =~= s.velocity.components());
    assert(s.flat().subrange(6, 10) =~= s.attitude.components());
    assert(s.flat().subrange(10, 13) =~= s.rates.components());
}

/// Splitting a vector of thirteen components and laying the parts out again
/// gives the vector back.
pub proof fn lemma_flat_of_flat(v: Seq<u64>)
    requires
        v.len() == STATE_LEN,
    ensures
        BodyState::of_flat(v).flat() == v,
{
    assert(BodyState::of_flat(v).flat() =~= v);
}

/// Laying a state out and splitting the vector again gives the state back.
pub proof fn lemma_of_flat_flat(s: BodyState)
    ensures
        BodyState::of_flat(s.flat()) == s,
{
    lemma_flat_layout(s);
}

} // verus!
