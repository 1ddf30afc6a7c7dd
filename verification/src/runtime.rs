//! Who holds the engine, and when it must start and stop.
//!
//! The engine is started once for the whole process and shared by everyone
//! who needs it. The count of owners decides: the first owner to come starts
//! the engine, the last one to go shuts it down.

use vstd::prelude::*;

verus! {

/// What must be done to the engine when an owner comes or goes.
#[derive(Clone, Copy, Debug, PartialEq, Eq, Structural)]
pub enum EngineAction {
    /// The engine stays as it is.
    Nothing,
    /// The engine does not run yet: start it.
    StartUp,
    /// Nobody holds the engine any more: shut it down.
    ShutDown,
}

/// The owners of the engine, counted.
#[derive(Debug)]
pub struct EngineOwners {
    pub owners: usize,
}

impl EngineOwners {
    /// Whether the engine runs: it does exactly while somebody holds it.
    pub open spec fn running(self) -> bool {
        self.owners > 0
    }

    /// An owner comes. The engine must be started if it did not run, and
    /// only then. Where the count cannot go up any more, nobody is added and
    /// there is no answer.
    pub fn acquire(&mut self) -> (action: Option<EngineAction>)
        ensures
            action is Some <==> old(self).owners < usize::MAX,
            action is None ==> *final(self) == *old(self),
            action is Some ==> final(self).owners == old(self).owners + 1,
            action == Some(EngineAction::StartUp) <==> !old(self).running() && final(self).running(),
            action != Some(EngineAction::ShutDown),
    {
        if self.owners == usize::MAX {
            None
        } else if self.owners == 0 {
            self.owners = 1;
            Some(EngineAction::StartUp)
        } else {
            self.owners = self.owners + 1;
            Some(EngineAction::Nothing)
        }
    }

    /// An owner goes. The engine must be shut down if that was the last one,
    /// and only then. Where nobody held the engine, nothing changes.
    pub fn release(&mut self) -> (action: EngineAction)
        ensures
            old(self).owners == 0 ==> *final(self) == *old(self),
            old(self).owners > 0 ==> final(self).owners == old(self).owners - 1,
            action == EngineAction::ShutDown <==> old(self).running() && !final(self).running(),
            action != EngineAction::StartUp,
    {
        if self.owners == 0 {
            EngineAction::Nothing
        } else {
            self.owners = self.owners - 1;
            if self.owners == 0 {
                EngineAction::ShutDown
            } else {
                EngineAction::Nothing
            }
        }
    }
}

} // verus!
