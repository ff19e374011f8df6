use vstd::prelude::*;

verus! {

/// One of the three axes of a spatial vector.
#[derive(Clone, Copy, Debug, PartialEq, Eq, Structural)]
pub enum Axis {
    X,
    Y,
    Z,
}

/// A three-component vector over any scalar type; the simulator's state
/// vectors (position, velocity, orientation, ...) are of this shape.
#[derive(Clone, Copy, Debug)]
pub struct Vec3<S> {
    pub x: S,
    pub y: S,
    pub z: S,
}

/// The axis that a component index (0, 1 or 2) names, if any.
pub open spec fn spec_axis(id: i8) -> Option<Axis> {
    if id == 0 {
        Some(Axis::X)
    } else if id == 1 {
        Some(Axis::Y)
    } else if id == 2 {
        Some(Axis::Z)
    } else {
        None
    }
}

/// The component index of an axis: 0 for x, 1 for y, 2 for z.
pub open spec fn axis_index(a: Axis) -> i8 {
    match a {
        Axis::X => 0,
        Axis::Y => 1,
        Axis::Z => 2,
    }
}

/// Component indices and axes correspond one to one: exactly the indices
/// 0, 1 and 2 name an axis, the axis an index names has that index, and
/// every axis is named by its own index.
pub proof fn lemma_axis_decoding(id: i8, a: Axis)
    ensures
        spec_axis(id) is Some <==> 0 <= id <= 2,
        spec_axis(id) matches Some(b) ==> axis_index(b) == id,
        spec_axis(axis_index(a)) == Some(a),
        0 <= axis_index(a) <= 2,
{
}

/// Decodes a component index.
pub fn axis_of(id: i8) -> (res: Option<Axis>)
    ensures
        res == spec_axis(id),
        res is Some <==> 0 <= id <= 2,
        res matches Some(a) ==> axis_index(a) == id,
{
    proof {
        lemma_axis_decoding(id, Axis::X);
    }
    match id {
        0 => Some(Axis::X),
        1 => Some(Axis::Y),
        2 => Some(Axis::Z),
        _ => None,
    }
}

impl<S: Copy> Vec3<S> {
    /// Builds a vector from its three components.
    pub fn from_xyz(x: S, y: S, z: S) -> (v: Vec3<S>)
        ensures
            v.x == x,
            v.y == y,
            v.z == z,
    {
        Vec3 { x, y, z }
    }

    /// The component along axis `a`.
    pub open spec fn spec_component(self, a: Axis) -> S {
        match a {
            Axis::X => self.x,
            Axis::Y => self.y,
            Axis::Z => self.z,
        }
    }

    /// Each axis reads its own component of the vector.
    pub proof fn lemma_components(self)
        ensures
            self.spec_component(Axis::X) == self.x,
            self.spec_component(Axis::Y) == self.y,
            self.spec_component(Axis::Z) == self.z,
    {
    }

    /// The component along axis `a`.
    pub fn component(&self, a: Axis) -> (c: S)
        ensures
            c == self.spec_component(a),
            a == Axis::X ==> c == self.x,
            a == Axis::Y ==> c == self.y,
            a == Axis::Z ==> c == self.z,
    {
        match a {
            Axis::X => self.x,
            Axis::Y => self.y,
            Axis::Z => self.z,
        }
    }
}

} // verus!
