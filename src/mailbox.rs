//! A single-slot mailbox that carries commands from the bus to the render loop.
use vstd::prelude::*;

verus! {

/// Holds at most one command: a new one replaces any that was not yet taken,
/// so the newest command wins and memory stays bounded.
pub struct Mailbox {
    pub slot: Option<String>,
}

impl Mailbox {
    pub fn new() -> (r: Mailbox)
        ensures
            r.slot is None,
    {
        Mailbox { slot: None }
    }

    /// Leaves `command` in the slot, dropping any command not yet taken.
    pub fn post(&mut self, command: String)
        ensures
            final(self).slot == Some(command),
    {
        self.slot = Some(command);
    }

    /// Takes the pending command, if any, without waiting; the slot is then empty.
    pub fn take(&mut self) -> (r: Option<String>)
        ensures
            r == old(self).slot,
            final(self).slot is None,
    {
        self.slot.take()
    }
}

} // verus!
