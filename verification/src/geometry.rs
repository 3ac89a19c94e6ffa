//! The fixed-size values that make up a simulation's state, with named
//! components, and their conversion to and from ordered lists of scalars.
//!
//! Every conversion fixes an order. The orders are part of the interface of
//! this crate: a caller that assembles a list in another order gets another
//! value.
use vstd::prelude::*;

verus! {

/// Three scalars: a position, a velocity, angular rates or a wind.
#[derive(Clone, Copy, Debug, PartialEq, Eq, Structural)]
pub struct Vector3 {
    pub x: u64,
    pub y: u64,
    pub z: u64,
}

impl Vector3 {
    /// The components in the order `x`, `y`, `z`.
    pub open spec fn components(self) -> Seq<u64> {
        seq![self.x, self.y, self.z]
    }

    /// The vector whose first three components are the first three entries
    /// of `s`.
    pub open spec fn of_components(s: Seq<u64>) -> Vector3
        recommends
            s.len() >= 3,
    {
        Vector3 { x: s[0], y: s[1], z: s[2] }
    }

    pub fn new(x: u64, y: u64, z: u64) -> (r: Vector3)
        ensures
            r == (Vector3 { x, y, z }),
    {
        Vector3 { x, y, z }
    }

    /// The vector with all three components positive zero.
    pub fn zero() -> (r: Vector3)
        ensures
            r == Vector3::spec_zero(),
    {
        Vector3 {
            x: crate::scalar::POSITIVE_ZERO,
            y: crate::scalar::POSITIVE_ZERO,
            z: crate::scalar::POSITIVE_ZERO,
        }
    }

    pub open spec fn spec_zero() -> Vector3 {
        Vector3 {
            x: crate::scalar::POSITIVE_ZERO,
            y: crate::scalar::POSITIVE_ZERO,
            z: crate::scalar::POSITIVE_ZERO,
        }
    }

    /// Reads a vector from the first three entries of `list`; further
    /// entries are ignored.
    pub fn from_list(list: &Vec<u64>) -> (r: Vector3)
        requires
            list@.len() >= 3,
        ensures
            r == Vector3::of_components(list@),
    {
        Vector3 { x: list[0], y: list[1], z: list[2] }
    }

    pub fn from_array(a: [u64; 3]) -> (r: Vector3)
        ensures
            r == Vector3::of_components(a@),
            r.components() == a@,
    {
        let r = Vector3 { x: a[0], y: a[1], z: a[2] };
        assert(r.components() =~= a@);
        r
    }

    pub fn to_array(&self) -> (a: [u64; 3])
        ensures
            a@ == self.components(),
    {
        let a: [u64; 3] = [self.x, self.y, self.z];
        assert(a@ =~= self.components());
        a
    }
}

/// A quaternion with imaginary components `i`, `j`, `k` and real component
/// `w`.
///
/// As an attitude it is meant to be of unit norm. Nothing here rescales it or
/// checks its norm: that is arithmetic on reals, which is the caller's.
#[derive(Clone, Copy, Debug, PartialEq, Eq, Structural)]
pub struct Quaternion {
    pub i: u64,
    pub j: u64,
    pub k: u64,
    pub w: u64,
}

impl Quaternion {
    /// The components in the order `i`, `j`, `k`, `w`: the real component
    /// comes last.
    pub open spec fn components(self) -> Seq<u64> {
        seq![self.i, self.j, self.k, self.w]
    }

    /// The quaternion whose components, in the order `i`, `j`, `k`, `w`, are
    /// the first four entries of `s`.
    pub open spec fn of_components(s: Seq<u64>) -> Quaternion
        recommends
            s.len() >= 4,
    {
        Quaternion { i: s[0], j: s[1], k: s[2], w: s[3] }
    }

    /// Whether all four components are finite numbers.
    pub open spec fn finite(self) -> bool {
        &&& crate::scalar::finite(self.i)
        &&& crate::scalar::finite(self.j)
        &&& crate::scalar::finite(self.k)
        &&& crate::scalar::finite(self.w)
    }

    /// The place, in the order `i`, `j`, `k`, `w`, of the first component
    /// that is an infinity or a NaN; none if all four are finite.
    pub open spec fn first_non_finite(self) -> Option<usize> {
        if !crate::scalar::finite(self.i) {
            Some(0)
        } else if !crate::scalar::finite(self.j) {
            Some(1)
        } else if !crate::scalar::finite(self.k) {
            Some(2)
        } else if !crate::scalar::finite(self.w) {
            Some(3)
        } else {
            None
        }
    }

    /// Finds the first component that is an infinity or a NaN. A quaternion
    /// that has one has no norm to speak of and cannot be an attitude.
    pub fn non_finite(&self) -> (at: Option<usize>)
        ensures
            at == self.first_non_finite(),
            at is None <==> self.finite(),
    {
        if !crate::scalar::is_finite(self.i) {
            Some(0)
        } else if !crate::scalar::is_finite(self.j) {
            Some(1)
        } else if !crate::scalar::is_finite(self.k) {
            Some(2)
        } else if !crate::scalar::is_finite(self.w) {
            Some(3)
        } else {
            None
        }
    }

    /// Builds a quaternion from its real component and the vector of its
    /// imaginary components, the real one first.
    pub fn from_parts(scalar: u64, vector: Vector3) -> (r: Quaternion)
        ensures
            r == (Quaternion { i: vector.x, j: vector.y, k: vector.z, w: scalar }),
    {
        Quaternion { i: vector.x, j: vector.y, k: vector.z, w: scalar }
    }

    /// Reads a quaternion from the first four entries of `list`, taken as
    /// `i`, `j`, `k`, `w`; further entries are ignored.
    pub fn from_list(list: &Vec<u64>) -> (r: Quaternion)
        requires
            list@.len() >= 4,
        ensures
            r == Quaternion::of_components(list@),
    {
        Quaternion::from_parts(list[3], Vector3::new(list[0], list[1], list[2]))
    }

    pub fn from_array(a: [u64; 4]) -> (r: Quaternion)
        ensures
            r == Quaternion::of_components(a@),
            r.components() == a@,
    {
        let r = Quaternion::from_parts(a[3], Vector3::new(a[0], a[1], a[2]));
        assert(r.components() =~= a@);
        r
    }

    pub fn to_array(&self) -> (a: [u64; 4])
        ensures
            a@ == self.components(),
    {
        let a: [u64; 4] = [self.i, self.j, self.k, self.w];
        assert(a@ =~= self.components());
        a
    }
}

/// A quaternion has no component that is not finite exactly if all four are
/// finite; otherwise the place named is that of a component that is not
/// finite, and every component before it is finite.
pub proof fn lemma_first_non_finite(q: Quaternion)
    ensures
        q.first_non_finite() is None <==> q.finite(),
        q.first_non_finite() matches Some(at) ==> {
            &&& at < 4
            &&& !crate::scalar::finite(q.components()[at as int])
            &&& forall|i: int| 0 <= i < at ==> crate::scalar::finite(#[trigger] q.components()[i])
        },
{
}

/// The four control inputs of one time step. Their ranges are the force
/// model's business; nothing here restricts them.
#[derive(Clone, Copy, Debug, PartialEq, Eq, Structural)]
pub struct Controls {
    pub aileron: u64,
    pub elevator: u64,
    pub throttle: u64,
    pub rudder: u64,
}

impl Controls {
    /// The inputs in the order aileron, elevator, throttle, rudder.
    pub open spec fn components(self) -> Seq<u64> {
        seq![self.aileron, self.elevator, self.throttle, self.rudder]
    }

    pub open spec fn of_components(s: Seq<u64>) -> Controls
        recommends
            s.len() >= 4,
    {
        Controls { aileron: s[0], elevator: s[1], throttle: s[2], rudder: s[3] }
    }

    pub fn from_array(a: [u64; 4]) -> (r: Controls)
        ensures
            r == Controls::of_components(a@),
            r.components() == a@,
    {
        let r = Controls { aileron: a[0], elevator: a[1], throttle: a[2], rudder: a[3] };
        assert(r.components() =~= a@);
        r
    }

    pub fn to_array(&self) -> (a: [u64; 4])
        ensures
            a@ == self.components(),
    {
        let a: [u64; 4] = [self.aileron, self.elevator, self.throttle, self.rudder];
        assert(a@ =~= self.components());
        a
    }
}

/// A three by three matrix; `m23` is the entry in row two, column three.
#[derive(Clone, Copy, Debug, PartialEq, Eq, Structural)]
pub struct Matrix3 {
    pub m11: u64,
    pub m12: u64,
    pub m13: u64,
    pub m21: u64,
    pub m22: u64,
    pub m23: u64,
    pub m31: u64,
    pub m32: u64,
    pub m33: u64,
}

impl Matrix3 {
    /// The entry in row `r`, column `c`, both counted from zero.
    pub open spec fn entry(self, r: int, c: int) -> u64
        recommends
            0 <= r < 3,
            0 <= c < 3,
    {
        if r == 0 {
            if c == 0 { self.m11 } else if c == 1 { self.m12 } else { self.m13 }
        } else if r == 1 {
            if c == 0 { self.m21 } else if c == 1 { self.m22 } else { self.m23 }
        } else {
            if c == 0 { self.m31 } else if c == 1 { self.m32 } else { self.m33 }
        }
    }

    /// Whether `lists` holds at least three lists of at least three entries
    /// each.
    pub open spec fn covers(lists: Seq<Vec<u64>>) -> bool {
        &&& lists.len() >= 3
        &&& lists[0]@.len() >= 3
        &&& lists[1]@.len() >= 3
        &&& lists[2]@.len() >= 3
    }

    /// The matrix whose column `c` is the start of `lists[c]`.
    pub open spec fn of_columns(lists: Seq<Vec<u64>>) -> Matrix3
        recommends
            Matrix3::covers(lists),
    {
        Matrix3 {
            m11: lists[0]@[0],
            m12: lists[1]@[0],
            m13: lists[2]@[0],
            m21: lists[0]@[1],
            m22: lists[1]@[1],
            m23: lists[2]@[1],
            m31: lists[0]@[2],
            m32: lists[1]@[2],
            m33: lists[2]@[2],
        }
    }

    /// Reads a matrix from nested lists, each inner list giving one column:
    /// entry `lists[c][r]` goes to row `r`, column `c`. Lists and entries
    /// beyond the third are ignored.
    pub fn from_columns(lists: &Vec<Vec<u64>>) -> (m: Matrix3)
        requires
            Matrix3::covers(lists@),
        ensures
            m == Matrix3::of_columns(lists@),
            forall|r: int, c: int| 0 <= r < 3 && 0 <= c < 3 ==> m.entry(r, c) == lists@[c]@[r],
    {
        Matrix3 {
            m11: lists[0][0],
            m12: lists[1][0],
            m13: lists[2][0],
            m21: lists[0][1],
            m22: lists[1][1],
            m23: lists[2][1],
            m31: lists[0][2],
            m32: lists[1][2],
            m33: lists[2][2],
        }
    }
}

} // verus!
