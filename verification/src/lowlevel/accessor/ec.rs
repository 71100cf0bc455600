//! The embedded-controller channel as the library sees it.
//!
//! The controller sits in the machine's I/O space, which the caller drives.
//! An [`EcAccessor`] is the exchange point between the two sides: the caller
//! stores the register bytes it has read from the controller, the library
//! reads them, and the library queues the command sequences that the caller
//! then transmits in order.

use vstd::prelude::*;

verus! {

/// Number of byte registers that the controller exposes.
pub const EC_REGISTER_COUNT: usize = 256;

/// One three-byte command sequence of the controller protocol.
#[derive(Clone, Copy, Debug, PartialEq, Eq, Structural)]
pub struct EcCommand {
    pub command: u8,
    pub arg1: u8,
    pub arg2: u8,
}

/// What an [`EcAccessor`] stands for: the register image and the commands
/// that wait to be transmitted, oldest first.
pub struct EcState {
    pub registers: Seq<u8>,
    pub pending: Seq<EcCommand>,
}

/// Register-level view of the embedded controller.
pub struct EcAccessor {
    registers: [u8; 256],
    pending: Vec<EcCommand>,
}

impl View for EcAccessor {
    type V = EcState;

    closed spec fn view(&self) -> EcState {
        EcState { registers: self.registers@, pending: self.pending@ }
    }
}

impl EcAccessor {
    /// Every accessor holds one byte for each of the 256 register addresses.
    pub proof fn lemma_register_count(self)
        ensures
            self@.registers.len() == EC_REGISTER_COUNT,
    {
    }

    /// A channel with every register reading zero and nothing queued.
    pub fn new() -> (ec: EcAccessor)
        ensures
            ec@.registers == Seq::new(EC_REGISTER_COUNT as nat, |i: int| 0u8),
            ec@.pending == Seq::<EcCommand>::empty(),
    {
        EcAccessor { registers: [0u8; 256], pending: Vec::new() }
    }

    /// Stores the byte that the controller reported for `address`.
    pub fn store_register(&mut self, address: u8, value: u8)
        ensures
            final(self)@.registers == old(self)@.registers.update(address as int, value),
            final(self)@.pending == old(self)@.pending,
    {
        self.registers[address as usize] = value;
    }

    /// The byte held for the register at `address`.
    pub fn read_byte(&self, address: u8) -> (value: u8)
        ensures
            value == self@.registers[address as int],
    {
        self.registers[address as usize]
    }

    /// Queues the command sequence `(command, arg1, arg2)` behind those
    /// already waiting. The register image is left as it is.
    pub fn cmd_write(&mut self, command: u8, arg1: u8, arg2: u8)
        ensures
            final(self)@.pending == old(self)@.pending.push(
                (EcCommand { command, arg1, arg2 }),
            ),
            final(self)@.registers == old(self)@.registers,
    {
        self.pending.push(EcCommand { command, arg1, arg2 });
    }

    /// Hands out the queued commands in the order they were issued and
    /// leaves the queue empty.
    pub fn take_commands(&mut self) -> (commands: Vec<EcCommand>)
        ensures
            commands@ == old(self)@.pending,
            final(self)@.pending == Seq::<EcCommand>::empty(),
            final(self)@.registers == old(self)@.registers,
    {
        let mut commands: Vec<EcCommand> = Vec::new();
        std::mem::swap(&mut self.pending, &mut commands);
        commands
    }
}

} // verus!
