use vstd::prelude::*;

verus! {

/// Tracks whether a spawned child has been killed and reaped.
///
/// Every way out of the scope that uses the child calls `release`; only the
/// first call asks for the kill and the wait, so the child is terminated and
/// reaped exactly once whichever path leaves first.
pub struct Cleanup {
    released: bool,
}

impl View for Cleanup {
    type V = bool;

    /// Whether the kill and the wait have been asked for.
    closed spec fn view(&self) -> bool {
        self.released
    }
}

/// `n` calls of `release` on a tracker in state `released`: the state reached
/// and the answer of each call.
pub open spec fn release_run(released: bool, n: nat) -> (bool, Seq<bool>)
    decreases n,
{
    if n == 0 {
        (released, Seq::empty())
    } else {
        let (r1, answers) = release_run(released, (n - 1) as nat);
        (true, answers.push(!r1))
    }
}

impl Cleanup {
    /// A tracker for a child that has just been spawned.
    pub fn new() -> (r: Self)
        ensures
            !r@,
    {
        Cleanup { released: false }
    }

    /// Whether the kill and the wait have been asked for.
    pub fn is_released(&self) -> (r: bool)
        ensures
            r == self@,
    {
        self.released
    }

    /// Called on a way out of the scope: `true` when the caller must now kill
    /// and reap the child, `false` when that was already asked for.
    pub fn release(&mut self) -> (r: bool)
        ensures
            r == !old(self)@,
            final(self)@,
    {
        let first = !self.released;
        self.released = true;
        first
    }
}

/// However many ways out run their cleanup (one or more), the child is killed
/// and reaped exactly once: on the first.
pub proof fn lemma_killed_exactly_once(n: nat)
    requires
        n >= 1,
    ensures
        release_run(false, n).0,
        release_run(false, n).1.len() == n,
        release_run(false, n).1[0],
        forall|i: int| 1 <= i < n ==> !#[trigger] release_run(false, n).1[i],
    decreases n,
{
    if n > 1 {
        lemma_killed_exactly_once((n - 1) as nat);
        let prev = release_run(false, (n - 1) as nat).1;
        assert forall|i: int| 1 <= i < n implies !#[trigger] release_run(false, n).1[i] by {
            if i < n - 1 {
                assert(release_run(false, n).1[i] == prev[i]);
            }
        }
    } else {
        assert(release_run(false, 0).1 =~= Seq::<bool>::empty());
    }
}

} // verus!
