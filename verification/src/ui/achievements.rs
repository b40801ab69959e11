//! The achievements page.
use vstd::prelude::*;

verus! {

/// What the achievements page takes.
#[derive(Debug, Clone, Copy, PartialEq, Eq, Structural)]
pub enum Message {
    NoOp,
}

/// The achievements page. It holds no state.
#[derive(Debug, Clone, Copy)]
pub struct Achievements;

impl Default for Achievements {
    fn default() -> Self {
        Achievements
    }
}

impl Achievements {
    /// Takes a message. Nothing is to be done.
    pub fn update(&mut self, message: Message)
        ensures
            *final(self) == *old(self),
    {
    }
}

} // verus!
