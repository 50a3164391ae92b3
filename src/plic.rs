//! The platform-level interrupt controller: four 32-bit registers.
use vstd::prelude::*;
use crate::exception::Exception;
use crate::param::{PLIC_PENDING, PLIC_SCLAIM, PLIC_SENABLE, PLIC_SPRIORITY};

verus! {

#[derive(Clone, Copy, Debug, PartialEq, Eq, Structural)]
pub struct PLIC {
    pub pending: u64,
    pub senable: u64,
    pub spriority: u64,
    pub sclaim: u64,
}

impl PLIC {
    /// What a load of `size` bits at `addr` returns: only 32-bit accesses are
    /// served, and an address that holds no register reads as zero.
    pub open spec fn spec_load(self, addr: u64, size: u64) -> Result<u64, Exception> {
        if size != 32 {
            Err(Exception::LoadAccessFault(addr))
        } else if addr == PLIC_PENDING {
            Ok(self.pending)
        } else if addr == PLIC_SENABLE {
            Ok(self.senable)
        } else if addr == PLIC_SPRIORITY {
            Ok(self.spriority)
        } else if addr == PLIC_SCLAIM {
            Ok(self.sclaim)
        } else {
            Ok(0)
        }
    }

    /// The device after a store, and the outcome of the store. A store to an
    /// address that holds no register is ignored.
    pub open spec fn spec_store(self, addr: u64, size: u64, value: u64) -> (PLIC, Result<(), Exception>) {
        if size != 32 {
            (self, Err(Exception::StoreAMOAccessFault(addr)))
        } else if addr == PLIC_PENDING {
            (PLIC { pending: value, ..self }, Ok(()))
        } else if addr == PLIC_SENABLE {
            (PLIC { senable: value, ..self }, Ok(()))
        } else if addr == PLIC_SPRIORITY {
            (PLIC { spriority: value, ..self }, Ok(()))
        } else if addr == PLIC_SCLAIM {
            (PLIC { sclaim: value, ..self }, Ok(()))
        } else {
            (self, Ok(()))
        }
    }

    pub fn new() -> (r: PLIC)
        ensures
            r == (PLIC { pending: 0, senable: 0, spriority: 0, sclaim: 0 }),
    {
        PLIC { pending: 0, senable: 0, spriority: 0, sclaim: 0 }
    }

    pub fn load(&self, addr: u64, size: u64) -> (r: Result<u64, Exception>)
        ensures
            r == self.spec_load(addr, size),
    {
        if size != 32 {
            return Err(Exception::LoadAccessFault(addr));
        }
        if addr == PLIC_PENDING {
            Ok(self.pending)
        } else if addr == PLIC_SENABLE {
            Ok(self.senable)
        } else if addr == PLIC_SPRIORITY {
            Ok(self.spriority)
        } else if addr == PLIC_SCLAIM {
            Ok(self.sclaim)
        } else {
            Ok(0)
        }
    }

    pub fn store(&mut self, addr: u64, size: u64, value: u64) -> (r: Result<(), Exception>)
        ensures
            (*final(self), r) == old(self).spec_store(addr, size, value),
    {
        if size != 32 {
            return Err(Exception::StoreAMOAccessFault(addr));
        }
        if addr == PLIC_PENDING {
            self.pending = value;
        } else if addr == PLIC_SENABLE {
            self.senable = value;
        } else if addr == PLIC_SPRIORITY {
            self.spriority = value;
        } else if addr == PLIC_SCLAIM {
            self.sclaim = value;
        }
        Ok(())
    }
}

} // verus!
