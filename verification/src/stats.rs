//! Figures about the running bot.

use vstd::prelude::*;

verus! {

/// Takes the figures that the bot reports about itself.  For now they are
/// kept nowhere.
#[derive(Debug, PartialEq, Eq)]
pub struct StatsManager {}

impl StatsManager {
    /// A manager of figures.
    pub fn new() -> (manager: Self)
        ensures
            manager == (StatsManager {  }),
    {
        StatsManager {  }
    }

    /// Takes the number of guilds with a live session.  This cannot fail.
    pub fn set_active_count(&mut self, count: usize) -> (taken: Result<(), ()>)
        ensures
            taken is Ok,
            *final(self) == *old(self),
    {
        Ok(())
    }
}

} // verus!
