use vstd::prelude::*;

verus! {

/// A charge that is live from the start and has to be taken off before its
/// holder lets go of it.
#[derive(Debug)]
pub struct DropBomb {
    is_active: bool,
}

impl DropBomb {
    /// Whether the charge is still live.
    pub closed spec fn armed(&self) -> bool {
        self.is_active
    }

    /// A bomb with a live charge.
    pub fn new() -> (bomb: Self)
        ensures
            bomb.armed(),
    {
        DropBomb { is_active: true }
    }

    /// Whether the charge is still live.
    pub fn is_active(&self) -> (active: bool)
        ensures
            active == self.armed(),
    {
        self.is_active
    }

    /// Takes the charge off. The bomb stays with its holder.
    pub fn disarm(&mut self)
        ensures
            !final(self).armed(),
    {
        self.is_active = false;
    }

    /// Takes the charge off and lets go of the bomb.
    pub fn defuse(self) {
        let mut bomb = self;
        bomb.disarm();
    }
}

} // verus!
