//! The core-local interruptor: a free-running timer and its compare register.
use vstd::prelude::*;
use crate::exception::Exception;
use crate::param::{CLINT_MTIME, CLINT_MTIMECMP};

verus! {

#[derive(Clone, Copy, Debug, PartialEq, Eq, Structural)]
pub struct CLINT {
    pub mtime: u64,
    pub mtimecmp: u64,
}

impl CLINT {
    /// What a load of `size` bits at `addr` returns. Both registers are
    /// 64 bits wide and only full-width accesses are served.
    pub open spec fn spec_load(self, addr: u64, size: u64) -> Result<u64, Exception> {
        if size != 64 {
            Err(Exception::LoadAccessFault(addr))
        } else if addr == CLINT_MTIMECMP {
            Ok(self.mtimecmp)
        } else if addr == CLINT_MTIME {
            Ok(self.mtime)
        } else {
            Err(Exception::LoadAccessFault(addr))
        }
    }

    /// The device after a store, and the outcome of the store.
    pub open spec fn spec_store(self, addr: u64, size: u64, value: u64) -> (CLINT, Result<(), Exception>) {
        if size != 64 {
            (self, Err(Exception::StoreAMOAccessFault(addr)))
        } else if addr == CLINT_MTIMECMP {
            (CLINT { mtimecmp: value, ..self }, Ok(()))
        } else if addr == CLINT_MTIME {
            (CLINT { mtime: value, ..self }, Ok(()))
        } else {
            (self, Err(Exception::StoreAMOAccessFault(addr)))
        }
    }

    /// A timer interrupt is pending once the timer has reached the compare value.
    pub open spec fn spec_timer_pending(self) -> bool {
        self.mtimecmp <= self.mtime
    }

    pub fn new() -> (r: CLINT)
        ensures
            r.mtime == 0,
            r.mtimecmp == 0,
    {
        CLINT { mtime: 0, mtimecmp: 0 }
    }

    pub fn load(&self, addr: u64, size: u64) -> (r: Result<u64, Exception>)
        ensures
            r == self.spec_load(addr, size),
    {
        if size != 64 {
            return Err(Exception::LoadAccessFault(addr));
        }
        if addr == CLINT_MTIMECMP {
            Ok(self.mtimecmp)
        } else if addr == CLINT_MTIME {
            Ok(self.mtime)
        } else {
            Err(Exception::LoadAccessFault(addr))
        }
    }

    pub fn store(&mut self, addr: u64, size: u64, value: u64) -> (r: Result<(), Exception>)
        ensures
            (*final(self), r) == old(self).spec_store(addr, size, value),
    {
        if size != 64 {
            return Err(Exception::StoreAMOAccessFault(addr));
        }
        if addr == CLINT_MTIMECMP {
            self.mtimecmp = value;
            Ok(())
        } else if addr == CLINT_MTIME {
            self.mtime = value;
            Ok(())
        } else {
            Err(Exception::StoreAMOAccessFault(addr))
        }
    }

    /// Advances the timer by one tick, wrapping at the top of its range.
    pub fn tick(&mut self)
        ensures
            final(self).mtime == old(self).mtime.wrapping_add(1),
            final(self).mtimecmp == old(self).mtimecmp,
    {
        self.mtime = self.mtime.wrapping_add(1);
    }

    pub fn timer_pending(&self) -> (r: bool)
        ensures
            r == self.spec_timer_pending(),
    {
        self.mtimecmp <= self.mtime
    }
}

} // verus!
