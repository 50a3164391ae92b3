//! Main memory: a fixed-size byte array read and written little-endian.
use vstd::prelude::*;
use crate::exception::Exception;
use crate::param::{DRAM_BASE, DRAM_SIZE};

verus! {

/// The widths in bits that a memory access may have.
pub open spec fn valid_width(size: u64) -> bool {
    size == 8 || size == 16 || size == 32 || size == 64
}

/// The value of the `n` bytes of `mem` that start at `idx`, least significant
/// byte first.
pub open spec fn le_load(mem: Seq<u8>, idx: int, n: nat) -> u64
    decreases n,
{
    if n == 0 {
        0
    } else {
        le_load(mem, idx, (n - 1) as nat) | ((mem[idx + n - 1] as u64) << ((8 * (n - 1)) as u64))
    }
}

/// Byte `k` of `v`, counting from the least significant one.
pub open spec fn byte_of(v: u64, k: int) -> u8 {
    ((v >> ((8 * k) as u64)) & 0xff) as u8
}

/// Whether an access of `size` bits at `addr` lies wholly inside `mem`.
pub open spec fn in_memory(mem: Seq<u8>, addr: u64, size: u64) -> bool {
    DRAM_BASE <= addr && (addr - DRAM_BASE) + size / 8 <= mem.len()
}

/// What a load of `size` bits at `addr` returns.
pub open spec fn dram_load(mem: Seq<u8>, addr: u64, size: u64) -> Result<u64, Exception> {
    if valid_width(size) && in_memory(mem, addr, size) {
        Ok(le_load(mem, addr - DRAM_BASE, (size / 8) as nat))
    } else {
        Err(Exception::LoadAccessFault(addr))
    }
}

/// Whether a store of `size` bits at `addr` succeeds.
pub open spec fn dram_store_ok(mem: Seq<u8>, addr: u64, size: u64) -> bool {
    valid_width(size) && in_memory(mem, addr, size)
}

/// The memory after the low `size` bits of `value` are written at `addr`.
pub open spec fn dram_store(mem: Seq<u8>, addr: u64, size: u64, value: u64) -> Seq<u8> {
    if dram_store_ok(mem, addr, size) {
        let idx = addr - DRAM_BASE;
        Seq::new(
            mem.len(),
            |j: int|
                if idx <= j < idx + size / 8 {
                    byte_of(value, j - idx)
                } else {
                    mem[j]
                },
        )
    } else {
        mem
    }
}

/// The memory at boot: the program at offset 0, zero everywhere else.
pub open spec fn initial_image(code: Seq<u8>) -> Seq<u8> {
    Seq::new(DRAM_SIZE as nat, |i: int| if i < code.len() { code[i] } else { 0u8 })
}

pub struct Dram {
    pub dram: Vec<u8>,
}

impl View for Dram {
    type V = Seq<u8>;

    open spec fn view(&self) -> Seq<u8> {
        self.dram@
    }
}

impl Dram {
    pub open spec fn wf(&self) -> bool {
        self.dram.len() == DRAM_SIZE
    }

    /// Memory holding `code` at its start.
    pub fn new(code: Vec<u8>) -> (r: Dram)
        requires
            code.len() <= DRAM_SIZE,
        ensures
            r.wf(),
            r@ == initial_image(code@),
    {
        let mut dram = vec![0u8; DRAM_SIZE as usize];
        let mut i: usize = 0;
        while i < code.len()
            invariant
                code.len() <= DRAM_SIZE,
                dram.len() == DRAM_SIZE,
                i <= code.len(),
                forall|j: int| 0 <= j < i ==> dram@[j] == code@[j],
                forall|j: int| i <= j < DRAM_SIZE ==> dram@[j] == 0u8,
            decreases code.len() - i,
        {
            dram.set(i, code[i]);
            i = i + 1;
        }
        assert(dram@ =~= initial_image(code@));
        Dram { dram }
    }

    /// Reads `size` bits at `addr`, little-endian.
    pub fn load(&self, addr: u64, size: u64) -> (r: Result<u64, Exception>)
        requires
            self.wf(),
        ensures
            r == dram_load(self@, addr, size),
    {
        if !(size == 8 || size == 16 || size == 32 || size == 64) {
            return Err(Exception::LoadAccessFault(addr));
        }
        let bytes = size / 8;
        if addr < DRAM_BASE || addr - DRAM_BASE > DRAM_SIZE - bytes {
            return Err(Exception::LoadAccessFault(addr));
        }
        let index = (addr - DRAM_BASE) as usize;
        let mut code: u64 = 0;
        let mut i: u64 = 0;
        while i < bytes
            invariant
                self.wf(),
                bytes <= 8,
                i <= bytes,
                index + bytes <= DRAM_SIZE,
                index == addr - DRAM_BASE,
                code == le_load(self@, index as int, i as nat),
            decreases bytes - i,
        {
            code = code | ((self.dram[index + i as usize] as u64) << (8 * i));
            i = i + 1;
        }
        Ok(code)
    }

    /// Writes the low `size` bits of `value` at `addr`, little-endian.
    pub fn store(&mut self, addr: u64, size: u64, value: u64) -> (r: Result<(), Exception>)
        requires
            old(self).wf(),
        ensures
            final(self).wf(),
            final(self)@ == dram_store(old(self)@, addr, size, value),
            r == (if dram_store_ok(old(self)@, addr, size) {
                Ok(())
            } else {
                Err(Exception::StoreAMOAccessFault(addr))
            }),
    {
        if !(size == 8 || size == 16 || size == 32 || size == 64) {
            return Err(Exception::StoreAMOAccessFault(addr));
        }
        let bytes = size / 8;
        if addr < DRAM_BASE || addr - DRAM_BASE > DRAM_SIZE - bytes {
            return Err(Exception::StoreAMOAccessFault(addr));
        }
        let index = (addr - DRAM_BASE) as usize;
        let ghost before = self@;
        let mut i: u64 = 0;
        while i < bytes
            invariant
                self.wf(),
                before.len() == DRAM_SIZE,
                bytes <= 8,
                bytes == size / 8,
                i <= bytes,
                index + bytes <= DRAM_SIZE,
                index == addr - DRAM_BASE,
                forall|j: int|
                    0 <= j < DRAM_SIZE ==> #[trigger] self@[j] == if index <= j < index + i {
                        byte_of(value, j - index)
                    } else {
                        before[j]
                    },
            decreases bytes - i,
        {
            let b = #[verifier::truncate] (((value >> (8 * i)) & 0xff) as u8);
            assert(b == byte_of(value, i as int));
            let ghost prev = self@;
            self.dram.set(index + i as usize, b);
            assert(self@ == prev.update(index + i, b));
            i = i + 1;
        }
        assert(self@ =~= dram_store(before, addr, size, value));
        Ok(())
    }
}

} // verus!
