use vstd::prelude::*;

use crate::bob::Bob;
use crate::snapshot::{BobState, PendulumState};

verus! {

/// The error of an edit that names a bob the chain does not have.
#[derive(Clone, Copy, Debug, PartialEq, Eq, Structural)]
pub struct IndexOutOfBounds {
    /// The index that was asked for.
    pub index: usize,
    /// The number of bobs the chain had.
    pub len: usize,
}

impl IndexOutOfBounds {
    /// The text reported to whoever asked for the edit.
    pub fn message(&self) -> (r: String)
        ensures
            r@ == "Index out of bounds"@,
    {
        let r = "Index out of bounds".to_owned();
        proof {
            reveal_strlit("Index out of bounds");
        }
        r
    }
}

/// What bob `i` of `chain` hangs from: `None` for the fixed origin, else the
/// bob before it.
pub open spec fn parent_of<R>(chain: Seq<Bob<R>>, i: int) -> Option<Bob<R>> {
    if i == 0 {
        None
    } else {
        Some(chain[i - 1])
    }
}

/// An ordered chain of bobs: bob 0 hangs from the fixed origin and bob `i`
/// hangs from bob `i - 1`.
#[derive(Clone, Debug, PartialEq)]
pub struct Pendulum<R> {
    pub bobs: Vec<Bob<R>>,
}

impl<R> Pendulum<R> {
    /// The number of bobs.
    pub open spec fn len(self) -> nat {
        self.bobs@.len()
    }

    /// The chain with `bob` appended at its end.
    pub open spec fn added(self, bob: Bob<R>) -> Seq<Bob<R>> {
        self.bobs@.push(bob)
    }

    /// The chain without bob `index`; the bobs after it move down by one.
    pub open spec fn removed(self, index: int) -> Seq<Bob<R>> {
        self.bobs@.remove(index)
    }

    /// The chain after bob `index` took the given edit.
    pub open spec fn modified(
        self,
        index: int,
        length_rod: Option<R>,
        mass: Option<R>,
        theta: Option<R>,
        omega: Option<R>,
    ) -> Seq<Bob<R>> {
        self.bobs@.update(index, self.bobs@[index].edited(length_rod, mass, theta, omega))
    }
}

impl<R: Copy> Pendulum<R> {
    pub fn new(bobs: Vec<Bob<R>>) -> (r: Self)
        ensures
            r.bobs@ == bobs@,
    {
        Pendulum { bobs }
    }

    /// The number of bobs.
    pub fn n(&self) -> (r: usize)
        ensures
            r == self.len(),
    {
        self.bobs.len()
    }

    /// Appends `bob` at the end of the chain. Always succeeds.
    pub fn add_bob(&mut self, bob: Bob<R>)
        requires
            old(self).len() < usize::MAX,
        ensures
            final(self).bobs@ == old(self).added(bob),
    {
        self.bobs.push(bob);
    }

    /// Removes bob `index`; the bobs after it move down by one and now hang
    /// from the removed bob's predecessor. Fails, leaving the chain as it
    /// was, when there is no bob `index`.
    pub fn remove_bob(&mut self, index: usize) -> (r: Result<(), IndexOutOfBounds>)
        ensures
            index < old(self).len() <==> r is Ok,
            r is Ok ==> final(self).bobs@ == old(self).removed(index as int),
            r is Err ==> *final(self) == *old(self) && r == Err::<(), IndexOutOfBounds>(
                IndexOutOfBounds { index, len: old(self).len() as usize },
            ),
    {
        let len = self.bobs.len();
        if index >= len {
            return Err(IndexOutOfBounds { index, len });
        }
        self.bobs.remove(index);
        Ok(())
    }

    /// Sets those of rod length, mass, angle and angular velocity of bob
    /// `index` that are given and keeps the rest; the cached position is not
    /// recomputed. Fails, leaving the chain as it was, when there is no bob
    /// `index`.
    pub fn modify_bob(
        &mut self,
        index: usize,
        length_rod: Option<R>,
        mass: Option<R>,
        theta: Option<R>,
        omega: Option<R>,
    ) -> (r: Result<(), IndexOutOfBounds>)
        ensures
            index < old(self).len() <==> r is Ok,
            r is Ok ==> final(self).bobs@ == old(self).modified(
                index as int,
                length_rod,
                mass,
                theta,
                omega,
            ),
            r is Err ==> *final(self) == *old(self) && r == Err::<(), IndexOutOfBounds>(
                IndexOutOfBounds { index, len: old(self).len() as usize },
            ),
    {
        let len = self.bobs.len();
        if index >= len {
            return Err(IndexOutOfBounds { index, len });
        }
        let mut bob = self.bobs[index];
        if let Some(l) = length_rod {
            bob.length_rod = l;
        }
        if let Some(m) = mass {
            bob.mass = m;
        }
        if let Some(t) = theta {
            bob.theta = t;
        }
        if let Some(o) = omega {
            bob.omega = o;
        }
        self.bobs.set(index, bob);
        Ok(())
    }

    /// A detached copy of every bob's angle, angular velocity, cached
    /// position, mass and rod length, in chain order.
    pub fn snapshot(&self) -> (r: PendulumState<R>)
        ensures
            r.bobs@ == self.bobs@.map_values(|b: Bob<R>| b.state()),
    {
        let n = self.bobs.len();
        let mut states: Vec<BobState<R>> = Vec::with_capacity(n);
        let mut i: usize = 0;
        while i < n
            invariant
                n == self.bobs@.len(),
                i <= n,
                states@ == self.bobs@.subrange(0, i as int).map_values(|b: Bob<R>| b.state()),
            decreases n - i,
        {
            states.push(BobState::of_bob(&self.bobs[i]));
            i += 1;
            assert(states@ =~= self.bobs@.subrange(0, i as int).map_values(|b: Bob<R>| b.state()));
        }
        assert(self.bobs@.subrange(0, n as int) =~= self.bobs@);
        PendulumState { bobs: states }
    }
}

/// Removing a bob splices the chain: after bob `index` is removed and a bob
/// is appended, the bob that followed the removed one sits at `index` and
/// hangs from what the removed bob hung from, each later bob moves down by
/// one, the bobs before `index` stay as they were, and the length is back
/// where it started.
pub proof fn lemma_remove_then_add_splices<R>(p: Pendulum<R>, index: int, bob: Bob<R>)
    requires
        0 <= index < p.len(),
    ensures
        ({
            let spliced = p.removed(index).push(bob);
            &&& spliced.len() == p.len()
            &&& forall|j: int| 0 <= j < index ==> #[trigger] spliced[j] == p.bobs@[j]
            &&& forall|j: int| index <= j < p.len() - 1 ==> #[trigger] spliced[j] == p.bobs@[j + 1]
            &&& spliced[p.len() - 1] == bob
            &&& index + 1 < p.len() ==> parent_of(spliced, index) == parent_of(p.bobs@, index)
        }),
{
}

} // verus!
