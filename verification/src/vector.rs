//! Small coordinate vectors.

use vstd::prelude::*;

verus! {

/// Vector 3 (x, y and z coordinates).
#[derive(Clone, Copy, Debug, Default)]
pub struct Vec3<T> {
    pub x: T,
    pub y: T,
    pub z: T,
}

impl<T> Vec3<T> {
    pub fn new(x: T, y: T, z: T) -> (v: Vec3<T>)
        ensures
            v == (Vec3 { x, y, z }),
    {
        Vec3 { x, y, z }
    }
}

/// Vector 2 (x and y coordinates).
#[derive(Clone, Copy, Debug, Default)]
pub struct Vec2<T> {
    pub x: T,
    pub y: T,
}

impl<T> Vec2<T> {
    pub fn new(x: T, y: T) -> (v: Vec2<T>)
        ensures
            v == (Vec2 { x, y }),
    {
        Vec2 { x, y }
    }
}

} // verus!
