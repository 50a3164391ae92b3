//! The execution engine: registers, program counter, bus and CSR bank, with
//! fetch, decode and execute, trap entry, and interrupt polling.
use vstd::prelude::*;
use vstd::string::StringSliceAdditionalSpecFns;
use crate::bus::{Bus, BusView};
use crate::csr::{
    Csr, MCAUSE, MEPC, MIE, MIP, MIP_MEIP, MIP_MTIP, MSTATUS, MSTATUS_MIE, MSTATUS_MPIE,
    MSTATUS_MPP, MTVAL, MTVEC, NUM_CSRS,
};
use crate::clint::CLINT;
use crate::exception::{Exception, Interrupt};
use crate::plic::PLIC;
use crate::regname::{
    lemma_parse_register_in_range, parse_register, spec_parse_register, Register, UnknownRegister,
};
use crate::uart::UartView;
use crate::isa::{
    alu_imm, alu_imm_w, alu_reg, alu_reg_w, branch_taken, funct3, funct7, imm_b, imm_i, imm_j,
    imm_s, imm_u, load_extend, load_width, opcode, rd, rs1, rs2, spec_alu_imm, spec_alu_imm_w,
    spec_alu_reg, spec_alu_reg_w, spec_branch_taken, spec_load_extend, spec_load_width,
    spec_store_width, store_width,
};
use crate::param::{DRAM_BASE, DRAM_END, DRAM_SIZE, UART_IRQ};

verus! {

/// The register file after `v` is written to register `rd`; register 0
/// stays zero.
pub open spec fn with_reg(regs: Seq<u64>, rd: u64, v: u64) -> Seq<u64> {
    regs.update(rd as int, v).update(0, 0)
}

/// The effect of executing `inst` at `pc`: the register file and bus state
/// afterwards, and the next PC or the exception raised. Register 0 is forced
/// to zero first; a faulting instruction writes no register.
pub open spec fn spec_execute(regs: Seq<u64>, pc: u64, bus: BusView, inst: u64) -> (
    Seq<u64>,
    BusView,
    Result<u64, Exception>,
) {
    let x = regs.update(0, 0);
    let d = rd(inst);
    let a = x[rs1(inst) as int];
    let b = x[rs2(inst) as int];
    let f3 = funct3(inst);
    let f7 = funct7(inst);
    let next = pc.wrapping_add(4);
    let illegal = (x, bus, Err(Exception::IllegalInstruction(inst)));
    let op = opcode(inst);
    if op == 0x03 {
        match spec_load_width(f3) {
            None => illegal,
            Some(w) => {
                let (bus2, res) = bus.load(a.wrapping_add(imm_i(inst)), w);
                match res {
                    Ok(v) => (with_reg(x, d, spec_load_extend(f3, v)), bus2, Ok(next)),
                    Err(e) => (x, bus2, Err(e)),
                }
            },
        }
    } else if op == 0x13 {
        match spec_alu_imm(f3, f7, a, imm_i(inst)) {
            Some(v) => (with_reg(x, d, v), bus, Ok(next)),
            None => illegal,
        }
    } else if op == 0x17 {
        (with_reg(x, d, pc.wrapping_add(imm_u(inst))), bus, Ok(next))
    } else if op == 0x1b {
        match spec_alu_imm_w(f3, f7, a, imm_i(inst)) {
            Some(v) => (with_reg(x, d, v), bus, Ok(next)),
            None => illegal,
        }
    } else if op == 0x23 {
        match spec_store_width(f3) {
            None => illegal,
            Some(w) => {
                let (bus2, res) = bus.store(a.wrapping_add(imm_s(inst)), w, b);
                match res {
                    Ok(_) => (x, bus2, Ok(next)),
                    Err(e) => (x, bus2, Err(e)),
                }
            },
        }
    } else if op == 0x33 {
        match spec_alu_reg(f3, f7, a, b) {
            Some(v) => (with_reg(x, d, v), bus, Ok(next)),
            None => illegal,
        }
    } else if op == 0x37 {
        (with_reg(x, d, imm_u(inst)), bus, Ok(next))
    } else if op == 0x3b {
        match spec_alu_reg_w(f3, f7, a, b) {
            Some(v) => (with_reg(x, d, v), bus, Ok(next)),
            None => illegal,
        }
    } else if op == 0x63 {
        match spec_branch_taken(f3, a, b) {
            Some(t) => (x, bus, Ok(if t { pc.wrapping_add(imm_b(inst)) } else { next })),
            None => illegal,
        }
    } else if op == 0x67 {
        (with_reg(x, d, next), bus, Ok(a.wrapping_add(imm_i(inst)) & !1u64))
    } else if op == 0x6f {
        (with_reg(x, d, next), bus, Ok(pc.wrapping_add(imm_j(inst))))
    } else {
        illegal
    }
}


/// `mstatus` after trap entry: the interrupt enable moves to the
/// previous-enable bit, interrupts are disabled, and the previous privilege
/// is machine mode.
pub open spec fn status_on_trap(s: u64) -> u64 {
    (s & !(MSTATUS_MIE | MSTATUS_MPIE)) | (if s & MSTATUS_MIE != 0 {
        MSTATUS_MPIE
    } else {
        0
    }) | MSTATUS_MPP
}

/// The CSR bank after trap entry at `pc` with the given cause and trap value.
pub open spec fn trap_csrs(csrs: Seq<u64>, pc: u64, cause: u64, tval: u64) -> Seq<u64> {
    csrs.update(MEPC as int, pc).update(MCAUSE as int, cause).update(MTVAL as int, tval).update(
        MSTATUS as int,
        status_on_trap(csrs[MSTATUS as int]),
    )
}

/// The trap-vector base held in `mtvec`: its low two bits are the mode field.
pub open spec fn trap_vector(mtvec: u64) -> u64 {
    mtvec & !3u64
}

/// `mip` once the devices have been sampled: a serial-port request raises the
/// external bit, and the timer bit follows the timer comparison.
pub open spec fn sampled_mip(mip: u64, uart_irq: bool, timer: bool) -> u64 {
    let m = if uart_irq {
        mip | MIP_MEIP
    } else {
        mip
    };
    if timer {
        m | MIP_MTIP
    } else {
        m & !MIP_MTIP
    }
}

/// The interrupt taken for the enable bits `mie` and pending bits `mip`:
/// external before timer.
pub open spec fn select_interrupt(mie: u64, mip: u64) -> Option<Interrupt> {
    if mie & mip & MIP_MEIP != 0 {
        Some(Interrupt::MachineExternalInterrupt)
    } else if mie & mip & MIP_MTIP != 0 {
        Some(Interrupt::MachineTimerInterrupt)
    } else {
        None
    }
}

/// The abstract state of the whole machine.
pub struct CpuView {
    pub regs: Seq<u64>,
    pub pc: u64,
    pub csrs: Seq<u64>,
    pub bus: BusView,
}

impl CpuView {
    /// The machine after trap entry with the given cause and trap value.
    pub open spec fn trap(self, cause: u64, tval: u64) -> CpuView {
        CpuView {
            csrs: trap_csrs(self.csrs, self.pc, cause, tval),
            pc: trap_vector(self.csrs[MTVEC as int]),
            ..self
        }
    }

    /// The machine after the devices are sampled for an interrupt, and the
    /// interrupt to take, if any. Nothing is sampled while interrupts are
    /// globally disabled.
    pub open spec fn poll(self) -> (CpuView, Option<Interrupt>) {
        if self.csrs[MSTATUS as int] & MSTATUS_MIE == 0 {
            (self, None)
        } else {
            let mip = sampled_mip(
                self.csrs[MIP as int],
                self.bus.uart.interrupting,
                self.bus.clint.spec_timer_pending(),
            );
            let irq = select_interrupt(self.csrs[MIE as int], mip);
            let cleared_mip = if irq == Some(Interrupt::MachineExternalInterrupt) {
                mip & !MIP_MEIP
            } else {
                mip
            };
            let plic = if self.bus.uart.interrupting {
                PLIC { sclaim: UART_IRQ, ..self.bus.plic }
            } else {
                self.bus.plic
            };
            let bus = BusView {
                plic: plic,
                uart: UartView { interrupting: false, ..self.bus.uart },
                ..self.bus
            };
            (CpuView { csrs: self.csrs.update(MIP as int, cleared_mip), bus: bus, ..self }, irq)
        }
    }

    /// What follows an instruction: the timer ticks, then an interrupt is
    /// taken if one is pending and enabled.
    pub open spec fn after_retire(self) -> CpuView {
        let t = CpuView {
            bus: BusView {
                clint: CLINT { mtime: self.bus.clint.mtime.wrapping_add(1), ..self.bus.clint },
                ..self.bus
            },
            ..self
        };
        let (p, irq) = t.poll();
        match irq {
            Some(i) => p.trap(i.spec_cause(), 0),
            None => p,
        }
    }

    /// One fetch-execute cycle, and whether it ended in a fatal exception.
    pub open spec fn step(self) -> (CpuView, Result<(), Exception>) {
        let (b1, f) = self.bus.load(self.pc, 32);
        let s1 = CpuView { bus: b1, ..self };
        match f {
            Err(e) => {
                let s2 = s1.trap(e.spec_code(), e.spec_value());
                if e.spec_is_fatal() {
                    (s2, Err(e))
                } else {
                    (s2, Ok(()))
                }
            },
            Ok(inst) => {
                let (regs, bus, r) = spec_execute(s1.regs, s1.pc, s1.bus, inst);
                let s2 = CpuView { regs: regs, bus: bus, ..s1 };
                match r {
                    Ok(npc) => (CpuView { pc: npc, ..s2 }.after_retire(), Ok(())),
                    Err(e) => {
                        let s3 = s2.trap(e.spec_code(), e.spec_value());
                        if e.spec_is_fatal() {
                            (s3, Err(e))
                        } else {
                            (s3.after_retire(), Ok(()))
                        }
                    },
                }
            },
        }
    }
}

/// The value an instruction reads from register `i`: register 0 reads as zero.
pub open spec fn reg_value(regs: Seq<u64>, i: u64) -> u64 {
    if i == 0 {
        0
    } else {
        regs[i as int]
    }
}

proof fn lemma_fields_in_range(inst: u64)
    ensures
        rd(inst) < 32,
        rs1(inst) < 32,
        rs2(inst) < 32,
{
    assert((inst & 0xf80) >> 7 < 32) by (bit_vector);
    assert((inst & 0xf8000) >> 15 < 32) by (bit_vector);
    assert((inst & 0x1f0_0000) >> 20 < 32) by (bit_vector);
}

/// Execution is a function of the register file, the PC, the bus state and
/// the instruction word alone: from equal states two executions agree. An
/// instruction that is neither a load nor a store leaves the bus untouched,
/// so replaying it from the same registers and PC gives the same outcome.
pub proof fn lemma_execute_deterministic(
    regs1: Seq<u64>,
    regs2: Seq<u64>,
    pc: u64,
    bus1: BusView,
    bus2: BusView,
    inst: u64,
)
    requires
        regs1 == regs2,
        bus1 == bus2,
    ensures
        spec_execute(regs1, pc, bus1, inst) == spec_execute(regs2, pc, bus2, inst),
        opcode(inst) != 0x03 && opcode(inst) != 0x23 ==> spec_execute(regs1, pc, bus1, inst).1
            == bus1,
        opcode(inst) != 0x03 && opcode(inst) != 0x23 ==> spec_execute(
            regs1,
            pc,
            spec_execute(regs1, pc, bus1, inst).1,
            inst,
        ) == spec_execute(regs1, pc, bus1, inst),
{
}

/// Register 0 reads as zero after any instruction, whether or not the
/// instruction named it as its destination, and the register file keeps its
/// 32 entries.
pub proof fn lemma_register_zero(regs: Seq<u64>, pc: u64, bus: BusView, inst: u64)
    requires
        regs.len() == 32,
    ensures
        spec_execute(regs, pc, bus, inst).0.len() == 32,
        spec_execute(regs, pc, bus, inst).0[0] == 0,
{
    lemma_fields_in_range(inst);
}

/// `beq` goes to `pc + imm` when its two registers hold equal values and to
/// `pc + 4` otherwise. `jal` always goes to `pc + imm` and writes `pc + 4` to
/// its destination register.
pub proof fn lemma_branch_jump_targets(regs: Seq<u64>, pc: u64, bus: BusView, inst: u64)
    requires
        regs.len() == 32,
    ensures
        opcode(inst) == 0x63 && funct3(inst) == 0 ==> spec_execute(regs, pc, bus, inst).2 == Ok::<
            u64,
            Exception,
        >(
            if reg_value(regs, rs1(inst)) == reg_value(regs, rs2(inst)) {
                pc.wrapping_add(imm_b(inst))
            } else {
                pc.wrapping_add(4)
            },
        ),
        opcode(inst) == 0x6f ==> spec_execute(regs, pc, bus, inst).2 == Ok::<u64, Exception>(
            pc.wrapping_add(imm_j(inst)),
        ),
        opcode(inst) == 0x6f && rd(inst) != 0 ==> spec_execute(regs, pc, bus, inst).0[rd(
            inst,
        ) as int] == pc.wrapping_add(4),
{
    lemma_fields_in_range(inst);
}

pub struct CPU {
    /// The 32 general-purpose registers; register 0 reads as zero.
    pub regs: [u64; 32],
    pub pc: u64,
    pub bus: Bus,
    pub csr: Csr,
}

impl View for CPU {
    type V = CpuView;

    open spec fn view(&self) -> CpuView {
        CpuView { regs: self.regs@, pc: self.pc, csrs: self.csr@, bus: self.bus@ }
    }
}

impl CPU {
    pub open spec fn wf(&self) -> bool {
        self.bus.wf() && self.csr.wf()
    }

    /// A machine with `code` loaded at the memory base, the PC there, the
    /// stack pointer at the top of memory and every other register zero.
    pub fn new(code: Vec<u8>) -> (r: CPU)
        requires
            code.len() <= DRAM_SIZE,
        ensures
            r.wf(),
            r.regs@ == Seq::new(32, |i: int| 0u64).update(2, DRAM_END),
            r.pc == DRAM_BASE,
            r.bus@.dram == crate::dram::initial_image(code@),
            r.bus@.clint == (crate::clint::CLINT { mtime: 0, mtimecmp: 0 }),
            r.bus@.plic == (crate::plic::PLIC { pending: 0, senable: 0, spriority: 0, sclaim: 0 }),
            r.bus@.uart == (crate::uart::UartView {
                rhr: 0,
                lsr: crate::param::UART_LSR_TX,
                interrupting: false,
                output: Seq::empty(),
            }),
            forall|i: int| 0 <= i < NUM_CSRS ==> r.csr@[i] == 0,
    {
        let mut regs: [u64; 32] = [0u64; 32];
        regs[2] = DRAM_END;
        let bus = Bus::new(code);
        let csr = Csr::new();
        assert(regs@ =~= Seq::new(32, |i: int| 0u64).update(2, DRAM_END));
        CPU { regs, pc: DRAM_BASE, bus, csr }
    }

    /// The value of the register that `r` names: an ABI name such as `sp`,
    /// `fp`, a raw name `x0` to `x31`, or `pc`. Register 0 reads as zero.
    pub fn reg(&self, r: &str) -> (v: Result<u64, UnknownRegister>)
        ensures
            v == match spec_parse_register(r.spec_bytes()) {
                Some(Register::Gpr(i)) => Ok(reg_value(self.regs@, i as u64)),
                Some(Register::Pc) => Ok(self.pc),
                None => Err(UnknownRegister),
            },
    {
        proof {
            lemma_parse_register_in_range(r.spec_bytes());
        }
        match parse_register(r.as_bytes()) {
            Some(Register::Gpr(i)) => {
                if i == 0 {
                    Ok(0)
                } else {
                    Ok(self.regs[i])
                }
            },
            Some(Register::Pc) => Ok(self.pc),
            None => Err(UnknownRegister),
        }
    }

    /// Loads `size` bits at `addr` through the bus.
    pub fn load(&mut self, addr: u64, size: u64) -> (r: Result<u64, Exception>)
        requires
            old(self).wf(),
        ensures
            final(self).wf(),
            (final(self).bus@, r) == old(self).bus@.load(addr, size),
            final(self).regs == old(self).regs,
            final(self).pc == old(self).pc,
            final(self).csr == old(self).csr,
    {
        self.bus.load(addr, size)
    }

    /// Stores the low `size` bits of `value` at `addr` through the bus.
    pub fn store(&mut self, addr: u64, size: u64, value: u64) -> (r: Result<(), Exception>)
        requires
            old(self).wf(),
        ensures
            final(self).wf(),
            (final(self).bus@, r) == old(self).bus@.store(addr, size, value),
            final(self).regs == old(self).regs,
            final(self).pc == old(self).pc,
            final(self).csr == old(self).csr,
    {
        self.bus.store(addr, size, value)
    }

    /// Reads the 32-bit instruction word at the PC.
    pub fn fetch(&mut self) -> (r: Result<u64, Exception>)
        requires
            old(self).wf(),
        ensures
            final(self).wf(),
            (final(self).bus@, r) == old(self).bus@.load(old(self).pc, 32),
            final(self).regs == old(self).regs,
            final(self).pc == old(self).pc,
            final(self).csr == old(self).csr,
    {
        self.bus.load(self.pc, 32)
    }

    /// The PC of the next instruction in sequence.
    pub fn update_pc(&mut self) -> (r: Result<u64, Exception>)
        ensures
            r == Ok::<u64, Exception>(old(self).pc.wrapping_add(4)),
            *final(self) == *old(self),
    {
        Ok(self.pc.wrapping_add(4))
    }

    /// Writes register `rd`, keeping register 0 at zero.
    fn write_reg(&mut self, rd: usize, v: u64)
        requires
            rd < 32,
        ensures
            final(self).regs@ == with_reg(old(self).regs@, rd as u64, v),
            final(self).pc == old(self).pc,
            final(self).bus == old(self).bus,
            final(self).csr == old(self).csr,
    {
        self.regs[rd] = v;
        self.regs[0] = 0;
        assert(self.regs@ =~= with_reg(old(self).regs@, rd as u64, v));
    }

    /// Executes one instruction word, and returns the PC of the next one or
    /// the exception it raised. The PC itself is left for the caller to commit.
    pub fn execute(&mut self, inst: u64) -> (r: Result<u64, Exception>)
        requires
            old(self).wf(),
        ensures
            final(self).wf(),
            (final(self).regs@, final(self).bus@, r) == spec_execute(
                old(self).regs@,
                old(self).pc,
                old(self).bus@,
                inst,
            ),
            final(self).pc == old(self).pc,
            final(self).csr == old(self).csr,
    {
        let opcode = inst & 0x7f;
        let rd = ((inst & 0xf80) >> 7) as usize;
        let rs1 = ((inst & 0xf8000) >> 15) as usize;
        let rs2 = ((inst & 0x1f0_0000) >> 20) as usize;
        let funct3 = (inst & 0x7000) >> 12;
        let funct7 = (inst & 0xfe00_0000) >> 25;
        proof {
            assert((inst & 0xf80) >> 7 < 32) by (bit_vector);
            assert((inst & 0xf8000) >> 15 < 32) by (bit_vector);
            assert((inst & 0x1f0_0000) >> 20 < 32) by (bit_vector);
        }

        // Register 0 is hardwired to zero.
        self.regs[0] = 0;
        let ghost x = self.regs@;
        assert(x =~= old(self).regs@.update(0, 0));

        let a = self.regs[rs1];
        let b = self.regs[rs2];
        if opcode == 0x03 {
            match load_width(funct3) {
                None => Err(Exception::IllegalInstruction(inst)),
                Some(w) => {
                    let imm = (((inst & 0xfff0_0000) as i32 as i64) >> 20) as u64;
                    match self.load(a.wrapping_add(imm), w) {
                        Ok(v) => {
                            let val = load_extend(funct3, v);
                            self.write_reg(rd, val);
                            self.update_pc()
                        },
                        Err(e) => Err(e),
                    }
                },
            }
        } else if opcode == 0x13 {
            let imm = (((inst & 0xfff0_0000) as i32 as i64) >> 20) as u64;
            match alu_imm(funct3, funct7, a, imm) {
                Some(v) => {
                    self.write_reg(rd, v);
                    self.update_pc()
                },
                None => Err(Exception::IllegalInstruction(inst)),
            }
        } else if opcode == 0x17 {
            // auipc
            let imm = (inst & 0xffff_f000) as i32 as i64 as u64;
            let v = self.pc.wrapping_add(imm);
            self.write_reg(rd, v);
            self.update_pc()
        } else if opcode == 0x1b {
            let imm = (((inst & 0xfff0_0000) as i32 as i64) >> 20) as u64;
            match alu_imm_w(funct3, funct7, a, imm) {
                Some(v) => {
                    self.write_reg(rd, v);
                    self.update_pc()
                },
                None => Err(Exception::IllegalInstruction(inst)),
            }
        } else if opcode == 0x23 {
            match store_width(funct3) {
                None => Err(Exception::IllegalInstruction(inst)),
                Some(w) => {
                    let imm = ((((inst & 0xfe00_0000) as i32 as i64) >> 20) as u64) | ((inst >> 7)
                        & 0x1f);
                    match self.store(a.wrapping_add(imm), w, b) {
                        Ok(_) => self.update_pc(),
                        Err(e) => Err(e),
                    }
                },
            }
        } else if opcode == 0x33 {
            match alu_reg(funct3, funct7, a, b) {
                Some(v) => {
                    self.write_reg(rd, v);
                    self.update_pc()
                },
                None => Err(Exception::IllegalInstruction(inst)),
            }
        } else if opcode == 0x37 {
            // lui
            let v = (inst & 0xffff_f000) as i32 as i64 as u64;
            self.write_reg(rd, v);
            self.update_pc()
        } else if opcode == 0x3b {
            match alu_reg_w(funct3, funct7, a, b) {
                Some(v) => {
                    self.write_reg(rd, v);
                    self.update_pc()
                },
                None => Err(Exception::IllegalInstruction(inst)),
            }
        } else if opcode == 0x63 {
            let imm = ((((inst & 0x8000_0000) as i32 as i64) >> 19) as u64) | ((inst & 0x80) << 4)
                | ((inst >> 20) & 0x7e0) | ((inst >> 7) & 0x1e);
            match branch_taken(funct3, a, b) {
                Some(true) => Ok(self.pc.wrapping_add(imm)),
                Some(false) => self.update_pc(),
                None => Err(Exception::IllegalInstruction(inst)),
            }
        } else if opcode == 0x67 {
            // jalr: the target is computed before the link register is written.
            let t = self.pc.wrapping_add(4);
            let imm = (((inst & 0xfff0_0000) as i32 as i64) >> 20) as u64;
            let new_pc = a.wrapping_add(imm) & !1u64;
            self.write_reg(rd, t);
            Ok(new_pc)
        } else if opcode == 0x6f {
            // jal
            let t = self.pc.wrapping_add(4);
            let imm = ((((inst & 0x8000_0000) as i32 as i64) >> 11) as u64) | (inst & 0xff000) | ((
            inst >> 9) & 0x800) | ((inst >> 20) & 0x7fe);
            self.write_reg(rd, t);
            Ok(self.pc.wrapping_add(imm))
        } else {
            Err(Exception::IllegalInstruction(inst))
        }
    }

    /// Enters the trap handler: records the cause, the trap value and the PC,
    /// updates `mstatus`, and moves the PC to the trap vector.
    fn take_trap(&mut self, cause: u64, tval: u64)
        requires
            old(self).wf(),
        ensures
            final(self).wf(),
            final(self)@ == old(self)@.trap(cause, tval),
    {
        let status = self.csr.get(MSTATUS);
        let mpie = if status & MSTATUS_MIE != 0 {
            MSTATUS_MPIE
        } else {
            0
        };
        let vector = self.csr.get(MTVEC) & !3u64;
        self.csr.set(MEPC, self.pc);
        self.csr.set(MCAUSE, cause);
        self.csr.set(MTVAL, tval);
        self.csr.set(MSTATUS, (status & !(MSTATUS_MIE | MSTATUS_MPIE)) | mpie | MSTATUS_MPP);
        self.pc = vector;
    }

    /// Delivers an exception raised at the current PC.
    pub fn handle_exception(&mut self, e: Exception)
        requires
            old(self).wf(),
        ensures
            final(self).wf(),
            final(self)@ == old(self)@.trap(e.spec_code(), e.spec_value()),
    {
        let cause = e.code();
        let tval = e.value();
        self.take_trap(cause, tval);
    }

    /// Delivers an interrupt; the saved PC is that of the next instruction.
    pub fn handle_interrupt(&mut self, i: Interrupt)
        requires
            old(self).wf(),
        ensures
            final(self).wf(),
            final(self)@ == old(self)@.trap(i.spec_cause(), 0),
    {
        let cause = i.cause();
        self.take_trap(cause, 0);
    }

    /// Samples the devices and returns the interrupt to take, if one is
    /// pending and enabled.
    pub fn check_pending_interrupt(&mut self) -> (r: Option<Interrupt>)
        requires
            old(self).wf(),
        ensures
            final(self).wf(),
            (final(self)@, r) == old(self)@.poll(),
    {
        if self.csr.get(MSTATUS) & MSTATUS_MIE == 0 {
            return None;
        }
        let ghost before = self@;
        let uart_irq = self.bus.uart.take_interrupt();
        if uart_irq {
            self.bus.plic.sclaim = UART_IRQ;
        }
        let timer = self.bus.clint.timer_pending();
        let mip = self.csr.get(MIP);
        let m = if uart_irq {
            mip | MIP_MEIP
        } else {
            mip
        };
        let m = if timer {
            m | MIP_MTIP
        } else {
            m & !MIP_MTIP
        };
        let pending = self.csr.get(MIE) & m;
        if pending & MIP_MEIP != 0 {
            self.csr.set(MIP, m & !MIP_MEIP);
            Some(Interrupt::MachineExternalInterrupt)
        } else if pending & MIP_MTIP != 0 {
            self.csr.set(MIP, m);
            Some(Interrupt::MachineTimerInterrupt)
        } else {
            self.csr.set(MIP, m);
            None
        }
    }

    /// Ticks the timer, then takes a pending interrupt if there is one.
    fn retire(&mut self)
        requires
            old(self).wf(),
        ensures
            final(self).wf(),
            final(self)@ == old(self)@.after_retire(),
    {
        self.bus.clint.tick();
        match self.check_pending_interrupt() {
            Some(interrupt) => self.handle_interrupt(interrupt),
            None => {},
        }
    }

    /// Runs one fetch-execute cycle. A fault is delivered as a trap; the
    /// result is the exception when it was fatal, and the machine must then
    /// stop.
    pub fn step(&mut self) -> (r: Result<(), Exception>)
        requires
            old(self).wf(),
        ensures
            final(self).wf(),
            (final(self)@, r) == old(self)@.step(),
    {
        let inst = match self.fetch() {
            Ok(inst) => inst,
            Err(e) => {
                self.handle_exception(e);
                if e.is_fatal() {
                    return Err(e);
                }
                return Ok(());
            },
        };
        match self.execute(inst) {
            Ok(new_pc) => {
                self.pc = new_pc;
            },
            Err(e) => {
                self.handle_exception(e);
                if e.is_fatal() {
                    return Err(e);
                }
            },
        }
        self.retire();
        Ok(())
    }
}

} // verus!
