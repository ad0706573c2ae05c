use vstd::prelude::*;

verus! {

/// What a [`Tally`] has counted so far.
pub struct TallyView {
    pub bounces: nat,
    pub collisions: nat,
}

/// The run's wall-bounce and collision counters. They only ever grow; at
/// `u64::MAX` a counter stays there.
pub struct Tally {
    bounces: u64,
    collisions: u64,
}

/// `a + b`, held at `u64::MAX` where the sum would pass it.
pub open spec fn add_held(a: nat, b: nat) -> nat {
    if a + b > u64::MAX {
        u64::MAX as nat
    } else {
        a + b
    }
}

impl View for Tally {
    type V = TallyView;

    closed spec fn view(&self) -> TallyView {
        TallyView { bounces: self.bounces as nat, collisions: self.collisions as nat }
    }
}

impl Tally {
    /// Both counters at zero.
    pub fn new() -> (r: Tally)
        ensures
            r@.bounces == 0,
            r@.collisions == 0,
    {
        Tally { bounces: 0, collisions: 0 }
    }

    /// The number of wall bounces counted so far.
    pub fn bounces(&self) -> (r: u64)
        ensures
            r == self@.bounces,
    {
        self.bounces
    }

    /// The number of resolved collisions counted so far.
    pub fn collisions(&self) -> (r: u64)
        ensures
            r == self@.collisions,
    {
        self.collisions
    }

    /// Counts `delta` more wall bounces, as one reflection reports them.
    pub fn record_bounces(&mut self, delta: u64)
        ensures
            final(self)@.bounces == add_held(old(self)@.bounces, delta as nat),
            final(self)@.bounces >= old(self)@.bounces,
            final(self)@.collisions == old(self)@.collisions,
    {
        self.bounces = self.bounces.saturating_add(delta);
    }

    /// Counts one more resolved collision.
    pub fn record_collision(&mut self)
        ensures
            final(self)@.collisions == add_held(old(self)@.collisions, 1),
            final(self)@.collisions >= old(self)@.collisions,
            final(self)@.bounces == old(self)@.bounces,
    {
        self.collisions = self.collisions.saturating_add(1);
    }
}

} // verus!
