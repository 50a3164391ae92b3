//! The bank of machine-mode control and status registers.
use vstd::prelude::*;
use crate::exception::Exception;

verus! {

/// Number of addressable registers: indices are 12 bits wide.
pub const NUM_CSRS: u64 = 4096;

pub const MSTATUS: u64 = 0x300;
pub const MISA: u64 = 0x301;
pub const MEDELEG: u64 = 0x302;
pub const MIDELEG: u64 = 0x303;
pub const MIE: u64 = 0x304;
pub const MTVEC: u64 = 0x305;
pub const MSCRATCH: u64 = 0x340;
pub const MEPC: u64 = 0x341;
pub const MCAUSE: u64 = 0x342;
pub const MTVAL: u64 = 0x343;
pub const MIP: u64 = 0x344;

/// Global machine interrupt enable in `mstatus`.
pub const MSTATUS_MIE: u64 = 0x8;
/// Interrupt enable before the last trap, in `mstatus`.
pub const MSTATUS_MPIE: u64 = 0x80;
/// Privilege level before the last trap, in `mstatus` (always machine here).
pub const MSTATUS_MPP: u64 = 0x1800;

/// Machine timer interrupt bit of `mie` and `mip`.
pub const MIP_MTIP: u64 = 0x80;
/// Machine external interrupt bit of `mie` and `mip`.
pub const MIP_MEIP: u64 = 0x800;

/// The registers this bank implements.
pub open spec fn implemented(index: u64) -> bool {
    index == MSTATUS || index == MISA || index == MEDELEG || index == MIDELEG || index == MIE
        || index == MTVEC || index == MSCRATCH || index == MEPC || index == MCAUSE || index
        == MTVAL || index == MIP
}

/// Whether an access of `size` bits to register `index` is served.
pub open spec fn access_ok(index: u64, size: u64) -> bool {
    size == 64 && implemented(index)
}

pub fn is_implemented(index: u64) -> (r: bool)
    ensures
        r == implemented(index),
{
    index == MSTATUS || index == MISA || index == MEDELEG || index == MIDELEG || index == MIE
        || index == MTVEC || index == MSCRATCH || index == MEPC || index == MCAUSE || index
        == MTVAL || index == MIP
}

pub struct Csr {
    pub csrs: Vec<u64>,
}

impl View for Csr {
    type V = Seq<u64>;

    open spec fn view(&self) -> Seq<u64> {
        self.csrs@
    }
}

impl Csr {
    pub open spec fn wf(&self) -> bool {
        self.csrs.len() == NUM_CSRS
    }

    /// A bank with every register zero.
    pub fn new() -> (r: Csr)
        ensures
            r.wf(),
            forall|i: int| 0 <= i < NUM_CSRS ==> r@[i] == 0,
    {
        let mut csrs: Vec<u64> = Vec::new();
        let mut i: u64 = 0;
        while i < NUM_CSRS
            invariant
                i <= NUM_CSRS,
                csrs.len() == i,
                forall|j: int| 0 <= j < i ==> csrs@[j] == 0,
            decreases NUM_CSRS - i,
        {
            csrs.push(0);
            i = i + 1;
        }
        Csr { csrs }
    }

    /// Reads register `index`; only full 64-bit reads of implemented
    /// registers are served.
    pub fn load(&self, index: u64, size: u64) -> (r: Result<u64, Exception>)
        requires
            self.wf(),
        ensures
            r == if access_ok(index, size) {
                Ok(self@[index as int])
            } else {
                Err(Exception::IllegalInstruction(index))
            },
    {
        if size != 64 || !is_implemented(index) {
            return Err(Exception::IllegalInstruction(index));
        }
        Ok(self.csrs[index as usize])
    }

    /// Writes register `index`; only full 64-bit writes of implemented
    /// registers are served, and a refused write changes nothing.
    pub fn store(&mut self, index: u64, size: u64, value: u64) -> (r: Result<(), Exception>)
        requires
            old(self).wf(),
        ensures
            final(self).wf(),
            access_ok(index, size) ==> r == Ok::<(), Exception>(()) && final(self)@ == old(
                self,
            )@.update(index as int, value),
            !access_ok(index, size) ==> r == Err::<(), Exception>(
                Exception::IllegalInstruction(index),
            ) && final(self)@ == old(self)@,
    {
        if size != 64 || !is_implemented(index) {
            return Err(Exception::IllegalInstruction(index));
        }
        self.csrs.set(index as usize, value);
        Ok(())
    }

    /// Reads a register directly, as trap entry and interrupt polling do.
    pub fn get(&self, index: u64) -> (r: u64)
        requires
            self.wf(),
            index < NUM_CSRS,
        ensures
            r == self@[index as int],
    {
        self.csrs[index as usize]
    }

    /// Writes a register directly, bypassing the implemented-set check, as
    /// trap entry does.
    pub fn set(&mut self, index: u64, value: u64)
        requires
            old(self).wf(),
            index < NUM_CSRS,
        ensures
            final(self).wf(),
            final(self)@ == old(self)@.update(index as int, value),
    {
        self.csrs.set(index as usize, value);
    }
}

} // verus!
