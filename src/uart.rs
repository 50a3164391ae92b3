//! The serial port. Bytes that the guest transmits are kept in an output
//! buffer for the host to drain; a byte from the host waits in the receive
//! holding register until the guest reads it.
use vstd::prelude::*;
use crate::exception::Exception;
use crate::param::{UART_LSR, UART_LSR_RX, UART_LSR_TX, UART_RHR, UART_THR};

verus! {

/// The abstract state of the serial port.
pub struct UartView {
    pub rhr: u8,
    pub lsr: u8,
    pub interrupting: bool,
    pub output: Seq<u8>,
}

impl UartView {
    /// The port after a load, and what the load returns. Reading the receive
    /// holding register marks it empty.
    pub open spec fn load(self, addr: u64, size: u64) -> (UartView, Result<u64, Exception>) {
        if size != 8 {
            (self, Err(Exception::LoadAccessFault(addr)))
        } else if addr == UART_RHR {
            (UartView { lsr: self.lsr & !UART_LSR_RX, ..self }, Ok(self.rhr as u64))
        } else if addr == UART_LSR {
            (self, Ok(self.lsr as u64))
        } else {
            (self, Ok(0))
        }
    }

    /// The port after a store, and its outcome. A byte written to the
    /// transmit holding register is appended to the output.
    pub open spec fn store(self, addr: u64, size: u64, value: u64) -> (UartView, Result<(), Exception>) {
        if size != 8 {
            (self, Err(Exception::StoreAMOAccessFault(addr)))
        } else if addr == UART_THR {
            (UartView { output: self.output.push(value as u8), ..self }, Ok(()))
        } else {
            (self, Ok(()))
        }
    }
}

pub struct Uart {
    pub rhr: u8,
    pub lsr: u8,
    pub interrupting: bool,
    pub output: Vec<u8>,
}

impl View for Uart {
    type V = UartView;

    open spec fn view(&self) -> UartView {
        UartView {
            rhr: self.rhr,
            lsr: self.lsr,
            interrupting: self.interrupting,
            output: self.output@,
        }
    }
}

impl Uart {
    /// An idle port, ready to transmit, with nothing received.
    pub fn new() -> (r: Uart)
        ensures
            r@ == (UartView { rhr: 0, lsr: UART_LSR_TX, interrupting: false, output: Seq::empty() }),
    {
        Uart { rhr: 0, lsr: UART_LSR_TX, interrupting: false, output: Vec::new() }
    }

    pub fn load(&mut self, addr: u64, size: u64) -> (r: Result<u64, Exception>)
        ensures
            (final(self)@, r) == old(self)@.load(addr, size),
    {
        if size != 8 {
            return Err(Exception::LoadAccessFault(addr));
        }
        if addr == UART_RHR {
            self.lsr = self.lsr & !UART_LSR_RX;
            Ok(self.rhr as u64)
        } else if addr == UART_LSR {
            Ok(self.lsr as u64)
        } else {
            Ok(0)
        }
    }

    pub fn store(&mut self, addr: u64, size: u64, value: u64) -> (r: Result<(), Exception>)
        ensures
            (final(self)@, r) == old(self)@.store(addr, size, value),
    {
        if size != 8 {
            return Err(Exception::StoreAMOAccessFault(addr));
        }
        if addr == UART_THR {
            self.output.push(#[verifier::truncate] (value as u8));
        }
        Ok(())
    }

    /// Hands a byte from the host to the guest. Returns false, and changes
    /// nothing, while the previous byte has not been read yet.
    pub fn receive(&mut self, byte: u8) -> (r: bool)
        ensures
            r == (old(self).lsr & UART_LSR_RX == 0),
            r ==> final(self)@ == (UartView {
                rhr: byte,
                lsr: old(self).lsr | UART_LSR_RX,
                interrupting: true,
                ..old(self)@
            }),
            !r ==> final(self)@ == old(self)@,
    {
        if self.lsr & UART_LSR_RX != 0 {
            return false;
        }
        self.rhr = byte;
        self.lsr = self.lsr | UART_LSR_RX;
        self.interrupting = true;
        true
    }

    /// Takes the bytes transmitted since the last call, leaving the buffer empty.
    pub fn take_output(&mut self) -> (r: Vec<u8>)
        ensures
            r@ == old(self)@.output,
            final(self)@ == (UartView { output: Seq::empty(), ..old(self)@ }),
    {
        let mut r: Vec<u8> = Vec::new();
        std::mem::swap(&mut r, &mut self.output);
        r
    }

    /// Whether a received byte has raised an interrupt since the last call;
    /// the request is cleared.
    pub fn take_interrupt(&mut self) -> (r: bool)
        ensures
            r == old(self).interrupting,
            final(self)@ == (UartView { interrupting: false, ..old(self)@ }),
    {
        let r = self.interrupting;
        self.interrupting = false;
        r
    }
}

} // verus!
