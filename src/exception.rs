//! Synchronous exceptions and asynchronous interrupts, with their cause codes.
use vstd::prelude::*;

verus! {

/// A fault raised by the instruction being executed. Each variant carries the
/// faulting address or the raw instruction word.
#[derive(Clone, Copy, Debug, PartialEq, Eq, Structural)]
pub enum Exception {
    InstructionAddressMisaligned(u64),
    InstructionAccessFault(u64),
    IllegalInstruction(u64),
    LoadAccessFault(u64),
    StoreAMOAccessFault(u64),
}

/// An event raised by a device, taken between two instructions.
#[derive(Clone, Copy, Debug, PartialEq, Eq, Structural)]
pub enum Interrupt {
    MachineTimerInterrupt,
    MachineExternalInterrupt,
}

impl Exception {
    /// The cause code that trap entry records for this exception.
    pub open spec fn spec_code(self) -> u64 {
        match self {
            Exception::InstructionAddressMisaligned(_) => 0,
            Exception::InstructionAccessFault(_) => 1,
            Exception::IllegalInstruction(_) => 2,
            Exception::LoadAccessFault(_) => 5,
            Exception::StoreAMOAccessFault(_) => 7,
        }
    }

    /// The address or instruction word carried by this exception.
    pub open spec fn spec_value(self) -> u64 {
        match self {
            Exception::InstructionAddressMisaligned(v) => v,
            Exception::InstructionAccessFault(v) => v,
            Exception::IllegalInstruction(v) => v,
            Exception::LoadAccessFault(v) => v,
            Exception::StoreAMOAccessFault(v) => v,
        }
    }

    pub fn code(&self) -> (r: u64)
        ensures
            r == self.spec_code(),
    {
        match self {
            Exception::InstructionAddressMisaligned(_) => 0,
            Exception::InstructionAccessFault(_) => 1,
            Exception::IllegalInstruction(_) => 2,
            Exception::LoadAccessFault(_) => 5,
            Exception::StoreAMOAccessFault(_) => 7,
        }
    }

    pub fn value(&self) -> (r: u64)
        ensures
            r == self.spec_value(),
    {
        match self {
            Exception::InstructionAddressMisaligned(v) => *v,
            Exception::InstructionAccessFault(v) => *v,
            Exception::IllegalInstruction(v) => *v,
            Exception::LoadAccessFault(v) => *v,
            Exception::StoreAMOAccessFault(v) => *v,
        }
    }

    /// Whether the emulation stops after this exception has been delivered.
    /// With a single privilege level nothing can repair any of these faults,
    /// so every kind is fatal.
    pub open spec fn spec_is_fatal(self) -> bool {
        true
    }

    pub fn is_fatal(&self) -> (r: bool)
        ensures
            r == self.spec_is_fatal(),
    {
        match self {
            Exception::InstructionAddressMisaligned(_)
            | Exception::InstructionAccessFault(_)
            | Exception::IllegalInstruction(_)
            | Exception::LoadAccessFault(_)
            | Exception::StoreAMOAccessFault(_) => true,
        }
    }
}

/// The top bit of the cause register marks an interrupt.
pub const INTERRUPT_BIT: u64 = 0x8000_0000_0000_0000;

impl Interrupt {
    /// The full cause value recorded for this interrupt: the interrupt bit
    /// together with the interrupt's code.
    pub open spec fn spec_cause(self) -> u64 {
        match self {
            Interrupt::MachineTimerInterrupt => INTERRUPT_BIT | 7,
            Interrupt::MachineExternalInterrupt => INTERRUPT_BIT | 11,
        }
    }

    pub fn cause(&self) -> (r: u64)
        ensures
            r == self.spec_cause(),
    {
        match self {
            Interrupt::MachineTimerInterrupt => INTERRUPT_BIT | 7,
            Interrupt::MachineExternalInterrupt => INTERRUPT_BIT | 11,
        }
    }
}

} // verus!
