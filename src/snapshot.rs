use vstd::prelude::*;

use crate::bob::{Bob, Coordinate};

verus! {

/// What a snapshot records of one bob.
#[derive(Clone, Copy, Debug, PartialEq)]
pub struct BobState<R> {
    pub theta: R,
    pub omega: R,
    pub position: Coordinate<R>,
    pub mass: R,
    pub length_rod: R,
}

/// A detached copy of the whole chain at one instant: values only, sharing
/// nothing with the live pendulum.
#[derive(Clone, Debug, PartialEq)]
pub struct PendulumState<R> {
    pub bobs: Vec<BobState<R>>,
}

impl<R> Bob<R> {
    /// The record of this bob in a snapshot.
    pub open spec fn state(self) -> BobState<R> {
        BobState {
            theta: self.theta,
            omega: self.omega,
            position: self.coordinate,
            mass: self.mass,
            length_rod: self.length_rod,
        }
    }
}

impl<R: Copy> BobState<R> {
    pub fn of_bob(bob: &Bob<R>) -> (r: Self)
        ensures
            r == bob.state(),
    {
        BobState {
            theta: bob.theta,
            omega: bob.omega,
            position: bob.coordinate,
            mass: bob.mass,
            length_rod: bob.length_rod,
        }
    }
}

} // verus!
