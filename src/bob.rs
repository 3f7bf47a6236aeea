use vstd::prelude::*;

verus! {

/// A point of the plane.
#[derive(Clone, Copy, Debug, PartialEq)]
pub struct Coordinate<R> {
    pub x: R,
    pub y: R,
}

impl<R: Copy> Coordinate<R> {
    pub fn new(x: R, y: R) -> (r: Self)
        ensures
            r.x == x,
            r.y == y,
    {
        Coordinate { x, y }
    }
}

/// One link of the chain: a point mass at the end of a rigid, massless rod.
///
/// `coordinate` is the bob's position as last derived from the angles of the
/// chain; it is a cache, and edits to the other fields leave it as it was.
#[derive(Clone, Copy, Debug, PartialEq)]
pub struct Bob<R> {
    pub length_rod: R,
    pub mass: R,
    pub theta: R,
    pub omega: R,
    pub coordinate: Coordinate<R>,
}

impl<R: Copy> Bob<R> {
    /// A bob with the given rod length, mass, angle and angular velocity,
    /// whose cached position starts at `coordinate`.
    pub fn new(length_rod: R, mass: R, theta: R, omega: R, coordinate: Coordinate<R>) -> (r: Self)
        ensures
            r.length_rod == length_rod,
            r.mass == mass,
            r.theta == theta,
            r.omega == omega,
            r.coordinate == coordinate,
    {
        Bob { length_rod, mass, theta, omega, coordinate }
    }
}

impl<R> Bob<R> {
    /// The bob after an edit that sets each field that is given and keeps
    /// the others, the cached position included.
    pub open spec fn edited(
        self,
        length_rod: Option<R>,
        mass: Option<R>,
        theta: Option<R>,
        omega: Option<R>,
    ) -> Self {
        Bob {
            length_rod: match length_rod {
                Some(l) => l,
                None => self.length_rod,
            },
            mass: match mass {
                Some(m) => m,
                None => self.mass,
            },
            theta: match theta {
                Some(t) => t,
                None => self.theta,
            },
            omega: match omega {
                Some(o) => o,
                None => self.omega,
            },
            coordinate: self.coordinate,
        }
    }
}

} // verus!
