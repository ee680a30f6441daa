//! The audio processing unit's bus-facing stub. Audio synthesis is an
//! external collaborator: it receives register writes and produces no
//! feedback the core depends on, so the write entry point accepts and
//! discards its byte.

use vstd::prelude::*;

verus! {

pub struct Apu {}

impl Apu {
    /// Accept a register write; synthesis happens outside the core, so the
    /// core-visible state is unchanged.
    pub fn write(&mut self, data: u8)
        ensures
            *final(self) == *old(self),
    {
    }
}

} // verus!
