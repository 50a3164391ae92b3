//! The bus: routes every load and store to the one device whose address range
//! holds the address, and faults where none does.
use vstd::prelude::*;
use crate::clint::CLINT;
use crate::dram::{
    byte_of, dram_load, dram_store, dram_store_ok, in_memory, initial_image, le_load, valid_width, Dram,
};
use crate::exception::Exception;
use crate::param::{
    CLINT_BASE, CLINT_END, DRAM_BASE, DRAM_END, DRAM_SIZE, PLIC_BASE, PLIC_END, UART_BASE, UART_END,
    UART_LSR_TX,
};
use crate::plic::PLIC;
use crate::uart::{Uart, UartView};

verus! {

/// The targets that the bus can route an access to.
#[derive(Clone, Copy, Debug, PartialEq, Eq, Structural)]
pub enum Device {
    Clint,
    Plic,
    Dram,
    Uart,
}

pub open spec fn in_clint(addr: u64) -> bool {
    CLINT_BASE <= addr <= CLINT_END
}

pub open spec fn in_plic(addr: u64) -> bool {
    PLIC_BASE <= addr <= PLIC_END
}

pub open spec fn in_dram(addr: u64) -> bool {
    DRAM_BASE <= addr <= DRAM_END
}

pub open spec fn in_uart(addr: u64) -> bool {
    UART_BASE <= addr <= UART_END
}

/// The device whose range holds `addr`, if any.
pub open spec fn device_at(addr: u64) -> Option<Device> {
    if in_clint(addr) {
        Some(Device::Clint)
    } else if in_plic(addr) {
        Some(Device::Plic)
    } else if in_dram(addr) {
        Some(Device::Dram)
    } else if in_uart(addr) {
        Some(Device::Uart)
    } else {
        None
    }
}

/// Returns the device whose range holds `addr`, if any.
pub fn route(addr: u64) -> (r: Option<Device>)
    ensures
        r == device_at(addr),
{
    if CLINT_BASE <= addr && addr <= CLINT_END {
        Some(Device::Clint)
    } else if PLIC_BASE <= addr && addr <= PLIC_END {
        Some(Device::Plic)
    } else if DRAM_BASE <= addr && addr <= DRAM_END {
        Some(Device::Dram)
    } else if UART_BASE <= addr && addr <= UART_END {
        Some(Device::Uart)
    } else {
        None
    }
}

/// The abstract state of everything behind the bus.
pub struct BusView {
    pub dram: Seq<u8>,
    pub clint: CLINT,
    pub plic: PLIC,
    pub uart: UartView,
}

impl BusView {
    /// The state after a load of `size` bits at `addr`, and what it returns.
    pub open spec fn load(self, addr: u64, size: u64) -> (BusView, Result<u64, Exception>) {
        match device_at(addr) {
            Some(Device::Clint) => (self, self.clint.spec_load(addr, size)),
            Some(Device::Plic) => (self, self.plic.spec_load(addr, size)),
            Some(Device::Dram) => (self, dram_load(self.dram, addr, size)),
            Some(Device::Uart) => {
                let (u, r) = self.uart.load(addr, size);
                (BusView { uart: u, ..self }, r)
            },
            None => (self, Err(Exception::LoadAccessFault(addr))),
        }
    }

    /// The state after a store of the low `size` bits of `value` at `addr`,
    /// and its outcome.
    pub open spec fn store(self, addr: u64, size: u64, value: u64) -> (BusView, Result<(), Exception>) {
        match device_at(addr) {
            Some(Device::Clint) => {
                let (c, r) = self.clint.spec_store(addr, size, value);
                (BusView { clint: c, ..self }, r)
            },
            Some(Device::Plic) => {
                let (p, r) = self.plic.spec_store(addr, size, value);
                (BusView { plic: p, ..self }, r)
            },
            Some(Device::Dram) => (
                BusView { dram: dram_store(self.dram, addr, size, value), ..self },
                if dram_store_ok(self.dram, addr, size) {
                    Ok(())
                } else {
                    Err(Exception::StoreAMOAccessFault(addr))
                },
            ),
            Some(Device::Uart) => {
                let (u, r) = self.uart.store(addr, size, value);
                (BusView { uart: u, ..self }, r)
            },
            None => (self, Err(Exception::StoreAMOAccessFault(addr))),
        }
    }
}

pub struct Bus {
    pub dram: Dram,
    pub plic: PLIC,
    pub clint: CLINT,
    pub uart: Uart,
}

impl View for Bus {
    type V = BusView;

    open spec fn view(&self) -> BusView {
        BusView { dram: self.dram@, clint: self.clint, plic: self.plic, uart: self.uart@ }
    }
}

impl Bus {
    pub open spec fn wf(&self) -> bool {
        self.dram.wf()
    }

    /// A bus whose memory holds `code` at its base and whose devices are in
    /// their reset state.
    pub fn new(code: Vec<u8>) -> (r: Bus)
        requires
            code.len() <= DRAM_SIZE,
        ensures
            r.wf(),
            r@.dram == initial_image(code@),
            r@.clint == (CLINT { mtime: 0, mtimecmp: 0 }),
            r@.plic == (PLIC { pending: 0, senable: 0, spriority: 0, sclaim: 0 }),
            r@.uart == (UartView { rhr: 0, lsr: UART_LSR_TX, interrupting: false, output: Seq::empty() }),
    {
        Bus { dram: Dram::new(code), plic: PLIC::new(), clint: CLINT::new(), uart: Uart::new() }
    }

    pub fn load(&mut self, addr: u64, size: u64) -> (r: Result<u64, Exception>)
        requires
            old(self).wf(),
        ensures
            final(self).wf(),
            (final(self)@, r) == old(self)@.load(addr, size),
    {
        match route(addr) {
            Some(Device::Clint) => self.clint.load(addr, size),
            Some(Device::Plic) => self.plic.load(addr, size),
            Some(Device::Dram) => self.dram.load(addr, size),
            Some(Device::Uart) => self.uart.load(addr, size),
            None => Err(Exception::LoadAccessFault(addr)),
        }
    }

    pub fn store(&mut self, addr: u64, size: u64, value: u64) -> (r: Result<(), Exception>)
        requires
            old(self).wf(),
        ensures
            final(self).wf(),
            (final(self)@, r) == old(self)@.store(addr, size, value),
    {
        match route(addr) {
            Some(Device::Clint) => self.clint.store(addr, size, value),
            Some(Device::Plic) => self.plic.store(addr, size, value),
            Some(Device::Dram) => self.dram.store(addr, size, value),
            Some(Device::Uart) => self.uart.store(addr, size, value),
            None => Err(Exception::StoreAMOAccessFault(addr)),
        }
    }
}

/// Reassembling the low `n` bytes of `v`, least significant first, gives
/// back the low `8 * n` bits of `v`.
proof fn lemma_bytes_reassemble(v: u64)
    by (bit_vector)
    ensures
        (0u64 | (((((v >> 0u64) & 0xff) as u8) as u64) << 0u64)) == (v & 0xff),
        ((0u64 | (((((v >> 0u64) & 0xff) as u8) as u64) << 0u64)) | (((((v >> 8u64) & 0xff) as u8) as u64) << 8u64)) == (v & 0xffff),
        ((((0u64 | (((((v >> 0u64) & 0xff) as u8) as u64) << 0u64)) | (((((v >> 8u64) & 0xff) as u8) as u64) << 8u64)) | (((((v >> 16u64) & 0xff) as u8) as u64) << 16u64)) | (((((v >> 24u64) & 0xff) as u8) as u64) << 24u64)) == (v & 0xffff_ffff),
        ((((((((0u64 | (((((v >> 0u64) & 0xff) as u8) as u64) << 0u64)) | (((((v >> 8u64) & 0xff) as u8) as u64) << 8u64)) | (((((v >> 16u64) & 0xff) as u8) as u64) << 16u64)) | (((((v >> 24u64) & 0xff) as u8) as u64) << 24u64)) | (((((v >> 32u64) & 0xff) as u8) as u64) << 32u64)) | (((((v >> 40u64) & 0xff) as u8) as u64) << 40u64)) | (((((v >> 48u64) & 0xff) as u8) as u64) << 48u64)) | (((((v >> 56u64) & 0xff) as u8) as u64) << 56u64)) == (v),
{
}

/// A store of a value that fits in `size` bits to memory, followed by a load
/// of `size` bits at the same address, returns that value.
pub proof fn lemma_store_load_round_trip(bus: BusView, addr: u64, size: u64, v: u64)
    requires
        bus.dram.len() == DRAM_SIZE,
        valid_width(size),
        in_memory(bus.dram, addr, size),
        size == 8 ==> v < 0x100,
        size == 16 ==> v < 0x1_0000,
        size == 32 ==> v < 0x1_0000_0000,
    ensures
        bus.store(addr, size, v).1 == Ok::<(), Exception>(()),
        bus.store(addr, size, v).0.load(addr, size).1 == Ok::<u64, Exception>(v),
{
    reveal_with_fuel(le_load, 9);
    lemma_bytes_reassemble(v);
    assert(device_at(addr) == Some(Device::Dram));
    let mem = bus.dram;
    let idx = addr - DRAM_BASE;
    let m2 = dram_store(mem, addr, size, v);
    assert(bus.store(addr, size, v).0.dram == m2);
    assert(m2[idx + 0] == byte_of(v, 0));
    if size >= 16 {
        assert(m2[idx + 1] == byte_of(v, 1));
    }
    if size >= 32 {
        assert(m2[idx + 2] == byte_of(v, 2));
        assert(m2[idx + 3] == byte_of(v, 3));
    }
    if size == 64 {
        assert(m2[idx + 4] == byte_of(v, 4));
        assert(m2[idx + 5] == byte_of(v, 5));
        assert(m2[idx + 6] == byte_of(v, 6));
        assert(m2[idx + 7] == byte_of(v, 7));
    }
    if size == 8 {
        assert((v & 0xff) == v) by (bit_vector)
            requires
                v < 0x100,
        ;
    } else if size == 16 {
        assert((v & 0xffff) == v) by (bit_vector)
            requires
                v < 0x1_0000,
        ;
    } else if size == 32 {
        assert((v & 0xffff_ffff) == v) by (bit_vector)
            requires
                v < 0x1_0000_0000,
        ;
    }
}

/// The four device ranges are pairwise disjoint, so an address routes to at
/// most one device; an address in no range faults on every load and store
/// and changes nothing.
pub proof fn lemma_address_map_disjoint(bus: BusView, addr: u64, size: u64, value: u64)
    ensures
        !(in_clint(addr) && in_plic(addr)),
        !(in_clint(addr) && in_dram(addr)),
        !(in_clint(addr) && in_uart(addr)),
        !(in_plic(addr) && in_dram(addr)),
        !(in_plic(addr) && in_uart(addr)),
        !(in_dram(addr) && in_uart(addr)),
        device_at(addr) == Some(Device::Clint) <==> in_clint(addr),
        device_at(addr) == Some(Device::Plic) <==> in_plic(addr),
        device_at(addr) == Some(Device::Dram) <==> in_dram(addr),
        device_at(addr) == Some(Device::Uart) <==> in_uart(addr),
        device_at(addr) is None ==> bus.load(addr, size) == (bus, Err::<u64, Exception>(
            Exception::LoadAccessFault(addr),
        )),
        device_at(addr) is None ==> bus.store(addr, size, value) == (bus, Err::<(), Exception>(
            Exception::StoreAMOAccessFault(addr),
        )),
{
}

} // verus!
