use vstd::prelude::*;

verus! {

/// The state of a one-shot rendezvous: how many parties it waits for and how
/// many have arrived. It releases everyone once the last party arrives and is
/// not reused afterwards.
#[derive(Debug)]
pub struct Rendezvous {
    parties: usize,
    arrived: usize,
}

impl Rendezvous {
    pub closed spec fn parties(&self) -> nat {
        self.parties as nat
    }

    pub closed spec fn arrived(&self) -> nat {
        self.arrived as nat
    }

    pub closed spec fn wf(&self) -> bool {
        1 <= self.parties && self.arrived <= self.parties
    }

    /// Every party has arrived.
    pub open spec fn released(&self) -> bool {
        self.arrived() == self.parties()
    }

    /// A rendezvous for `parties` participants, none of them arrived.
    pub fn new(parties: usize) -> (r: Rendezvous)
        requires
            parties >= 1,
        ensures
            r.wf(),
            r.parties() == parties,
            r.arrived() == 0,
    {
        Rendezvous { parties, arrived: 0 }
    }

    /// A rendezvous for exactly two participants.
    pub fn pair() -> (r: Rendezvous)
        ensures
            r.wf(),
            r.parties() == 2,
            r.arrived() == 0,
    {
        Rendezvous::new(2)
    }

    /// Records one arrival; returns whether that arrival released the
    /// rendezvous.
    pub fn arrive(&mut self) -> (released: bool)
        requires
            old(self).wf(),
            !old(self).released(),
        ensures
            final(self).wf(),
            final(self).parties() == old(self).parties(),
            final(self).arrived() == old(self).arrived() + 1,
            released == final(self).released(),
    {
        self.arrived = self.arrived + 1;
        self.arrived == self.parties
    }

    /// Whether every party has arrived, so that all may proceed.
    pub fn is_released(&self) -> (r: bool)
        ensures
            r == self.released(),
    {
        self.arrived == self.parties
    }

    /// The number of parties the rendezvous waits for.
    pub fn party_count(&self) -> (r: usize)
        ensures
            r == self.parties(),
    {
        self.parties
    }

    /// The number of parties that have arrived.
    pub fn arrival_count(&self) -> (r: usize)
        ensures
            r == self.arrived(),
    {
        self.arrived
    }
}

/// A two-party rendezvous holds its first arrival back and releases both
/// parties at the second: no party proceeds alone.
pub proof fn lemma_pair_releases_only_both(r0: Rendezvous, r1: Rendezvous, r2: Rendezvous)
    requires
        r0.wf(),
        r0.parties() == 2,
        r0.arrived() == 0,
        r1.parties() == r0.parties(),
        r1.arrived() == r0.arrived() + 1,
        r2.parties() == r1.parties(),
        r2.arrived() == r1.arrived() + 1,
    ensures
        !r0.released(),
        !r1.released(),
        r2.released(),
{
}

} // verus!
