//! The rotation applied to a frame before it is encoded, and the options of the
//! preparation pipeline.

use vstd::prelude::*;

verus! {

/// A clockwise rotation by a multiple of 90 degrees.
#[derive(Debug, Clone, Copy, PartialEq, Eq, Structural)]
pub enum Rotation {
    Deg0,
    Deg90,
    Deg180,
    Deg270,
}

/// The `rotate_degrees` value was not one of 0, 90, 180 or 270.
#[derive(Debug, Clone, Copy, PartialEq, Eq, Structural)]
pub struct InvalidRotation {
    pub degrees: u16,
}

/// The angle of a rotation, in degrees.
pub open spec fn rotation_degrees(r: Rotation) -> u16 {
    match r {
        Rotation::Deg0 => 0,
        Rotation::Deg90 => 90,
        Rotation::Deg180 => 180,
        Rotation::Deg270 => 270,
    }
}

/// The rotation by `degrees`, for the four supported angles.
pub open spec fn rotation_from_degrees_spec(degrees: u16) -> Result<Rotation, InvalidRotation> {
    if degrees == 0 {
        Ok(Rotation::Deg0)
    } else if degrees == 90 {
        Ok(Rotation::Deg90)
    } else if degrees == 180 {
        Ok(Rotation::Deg180)
    } else if degrees == 270 {
        Ok(Rotation::Deg270)
    } else {
        Err(InvalidRotation { degrees })
    }
}

/// Whether a rotation turns a frame on its side, swapping width and height.
pub open spec fn swaps_axes(r: Rotation) -> bool {
    r == Rotation::Deg90 || r == Rotation::Deg270
}

impl Rotation {
    /// The angle of this rotation, in degrees.
    pub fn degrees(self) -> (d: u16)
        ensures
            d == rotation_degrees(self),
    {
        match self {
            Rotation::Deg0 => 0,
            Rotation::Deg90 => 90,
            Rotation::Deg180 => 180,
            Rotation::Deg270 => 270,
        }
    }

    /// The rotation by `value` degrees; only 0, 90, 180 and 270 are accepted.
    pub fn from_degrees(value: u16) -> (r: Result<Rotation, InvalidRotation>)
        ensures
            r == rotation_from_degrees_spec(value),
    {
        match value {
            0 => Ok(Rotation::Deg0),
            90 => Ok(Rotation::Deg90),
            180 => Ok(Rotation::Deg180),
            270 => Ok(Rotation::Deg270),
            _ => Err(InvalidRotation { degrees: value }),
        }
    }

    /// Whether this rotation swaps the width and height of a frame.
    pub fn swaps_axes(self) -> (r: bool)
        ensures
            r == swaps_axes(self),
    {
        match self {
            Rotation::Deg90 | Rotation::Deg270 => true,
            _ => false,
        }
    }
}

impl Default for Rotation {
    fn default() -> (r: Rotation)
        ensures
            r == Rotation::Deg0,
    {
        Rotation::Deg0
    }
}

/// Reading a rotation back from its angle gives the same rotation, and an
/// accepted angle is exactly the angle of the rotation it names.
pub proof fn lemma_degrees_roundtrip(r: Rotation, degrees: u16)
    ensures
        rotation_from_degrees_spec(rotation_degrees(r)) == Ok::<Rotation, InvalidRotation>(r),
        rotation_from_degrees_spec(degrees) matches Ok(q) ==> rotation_degrees(q) == degrees,
        rotation_from_degrees_spec(degrees) is Ok <==> (degrees == 0 || degrees == 90 || degrees
            == 180 || degrees == 270),
{
}

/// The options of the frame preparation pipeline.
#[derive(Debug, Clone, Copy, PartialEq, Eq, Structural)]
pub struct PrepareOptions {
    rotation: Rotation,
}

impl PrepareOptions {
    /// The rotation these options apply.
    pub closed spec fn spec_rotation(self) -> Rotation {
        self.rotation
    }

    /// Options that apply `rotation`.
    pub fn new(rotation: Rotation) -> (o: PrepareOptions)
        ensures
            o.spec_rotation() == rotation,
    {
        PrepareOptions { rotation }
    }

    /// The rotation these options apply.
    pub fn rotation(self) -> (r: Rotation)
        ensures
            r == self.spec_rotation(),
    {
        self.rotation
    }
}

impl Default for PrepareOptions {
    fn default() -> (o: PrepareOptions)
        ensures
            o.spec_rotation() == Rotation::Deg0,
    {
        PrepareOptions { rotation: Rotation::Deg0 }
    }
}

} // verus!
