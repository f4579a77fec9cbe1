//! Spatial value types carried over the wire protocol: positions, Euler
//! orientations, quaternions, joint-angle sets and six-axis force readings.

use vstd::prelude::*;
use crate::fixed::Fix;

verus! {

/// A cartesian triple: a position, a translation, or three Euler angles.
#[derive(Clone, Copy, PartialEq, Eq, Structural, Debug)]
pub struct V3 {
    pub x: Fix,
    pub y: Fix,
    pub z: Fix,
}

impl V3 {
    /// Whether every component is within the library's working range.
    pub open spec fn valid(self) -> bool {
        self.x.valid() && self.y.valid() && self.z.valid()
    }
}

/// An orientation quaternion, scalar part first.
#[derive(Clone, Copy, PartialEq, Eq, Structural, Debug)]
pub struct Quartenion {
    pub w: Fix,
    pub x: Fix,
    pub y: Fix,
    pub z: Fix,
}

impl Quartenion {
    /// Whether every component is within the library's working range.
    pub open spec fn valid(self) -> bool {
        self.w.valid() && self.x.valid() && self.y.valid() && self.z.valid()
    }
}

/// The six joint angles of the arm, base joint first.
#[derive(Clone, Copy, PartialEq, Eq, Structural, Debug)]
pub struct Joints {
    pub j1: Fix,
    pub j2: Fix,
    pub j3: Fix,
    pub j4: Fix,
    pub j5: Fix,
    pub j6: Fix,
}

impl Joints {
    /// Whether every joint angle is within the library's working range.
    pub open spec fn valid(self) -> bool {
        self.j1.valid() && self.j2.valid() && self.j3.valid() && self.j4.valid() && self.j5.valid()
            && self.j6.valid()
    }
}

/// A six-axis load reading: three force components and three moments.
#[derive(Clone, Copy, PartialEq, Eq, Structural, Debug)]
pub struct Wrench {
    pub fx: Fix,
    pub fy: Fix,
    pub fz: Fix,
    pub mx: Fix,
    pub my: Fix,
    pub mz: Fix,
}

impl Wrench {
    /// Whether every component is within the library's working range.
    pub open spec fn valid(self) -> bool {
        self.fx.valid() && self.fy.valid() && self.fz.valid() && self.mx.valid() && self.my.valid()
            && self.mz.valid()
    }
}

/// The axis a force-control law acts along.
#[derive(Clone, Copy, PartialEq, Eq, Structural, Debug)]
pub enum ForceAxis {
    X,
    Y,
    Z,
}

} // verus!
