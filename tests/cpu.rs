use rriscv::bus::{route, Device};
use rriscv::cpu::CPU;
use rriscv::csr::{MCAUSE, MEPC, MIE, MIP_MTIP, MSTATUS, MSTATUS_MIE, MTVAL, MTVEC};
use rriscv::exception::{Exception, Interrupt};
use rriscv::param::{CLINT_MTIME, CLINT_MTIMECMP, DRAM_BASE, DRAM_END, UART_BASE};
use rriscv::regname::UnknownRegister;

fn words(ws: &[u32]) -> Vec<u8> {
    let mut v = Vec::new();
    for w in ws {
        v.extend_from_slice(&w.to_le_bytes());
    }
    v
}

#[test]
fn addi_at_pc_zero_sets_x1_and_advances() {
    let mut cpu = CPU::new(Vec::new());
    cpu.pc = 0;
    assert_eq!(cpu.execute(0x00500093), Ok(4));
    assert_eq!(cpu.regs[1], 5);
}

#[test]
fn jal_links_and_jumps_then_executes_at_target() {
    // jal x1, 8 ; (skipped) ; addi x2, x0, 7
    let code = words(&[0x008000ef, 0x00000013, 0x00700113]);
    let mut cpu = CPU::new(code);
    let before = cpu.pc;
    assert_eq!(cpu.step(), Ok(()));
    assert_eq!(cpu.regs[1], before + 4);
    assert_eq!(cpu.pc, before + 8);
    assert_eq!(cpu.step(), Ok(()));
    assert_eq!(cpu.regs[2], 7);
    assert_eq!(cpu.pc, before + 12);
}

#[test]
fn jal_execute_returns_target() {
    let mut cpu = CPU::new(Vec::new());
    cpu.pc = 0x8000_1000;
    assert_eq!(cpu.execute(0x008000ef), Ok(0x8000_1008));
    assert_eq!(cpu.regs[1], 0x8000_1004);
}

#[test]
fn load_outside_every_range_faults_without_touching_registers() {
    let mut cpu = CPU::new(Vec::new());
    assert_eq!(cpu.load(0x1000, 32), Err(Exception::LoadAccessFault(0x1000)));
    // lw x5, 0(x6) with x6 = 0x1000
    cpu.regs[6] = 0x1000;
    let regs = cpu.regs;
    assert_eq!(cpu.execute(0x00032283), Err(Exception::LoadAccessFault(0x1000)));
    assert_eq!(cpu.regs, regs);
}

#[test]
fn timer_interrupt_redirects_to_trap_vector() {
    let mut cpu = CPU::new(Vec::new());
    cpu.csr.csrs[MSTATUS as usize] = MSTATUS_MIE;
    cpu.csr.csrs[MIE as usize] = MIP_MTIP;
    cpu.csr.csrs[MTVEC as usize] = 0x8000_0100;
    cpu.bus.clint.mtime = 10;
    cpu.bus.clint.mtimecmp = 5;
    let pc = cpu.pc;
    let irq = cpu.check_pending_interrupt();
    assert_eq!(irq, Some(Interrupt::MachineTimerInterrupt));
    cpu.handle_interrupt(irq.unwrap());
    assert_eq!(cpu.pc, 0x8000_0100);
    assert_eq!(cpu.csr.csrs[MCAUSE as usize], (1u64 << 63) | 7);
    assert_eq!(cpu.csr.csrs[MEPC as usize], pc);
    assert_eq!(cpu.csr.csrs[MSTATUS as usize] & MSTATUS_MIE, 0);
}

#[test]
fn timer_interrupt_taken_after_step() {
    // addi x1, x0, 1
    let mut cpu = CPU::new(words(&[0x00100093]));
    cpu.csr.csrs[MSTATUS as usize] = MSTATUS_MIE;
    cpu.csr.csrs[MIE as usize] = MIP_MTIP;
    cpu.csr.csrs[MTVEC as usize] = 0x8000_0200;
    assert_eq!(cpu.step(), Ok(()));
    assert_eq!(cpu.regs[1], 1);
    assert_eq!(cpu.pc, 0x8000_0200);
    assert_eq!(cpu.csr.csrs[MCAUSE as usize], (1u64 << 63) | 7);
    assert_eq!(cpu.csr.csrs[MEPC as usize], DRAM_BASE + 4);
}

#[test]
fn no_interrupt_while_disabled() {
    let mut cpu = CPU::new(Vec::new());
    cpu.csr.csrs[MIE as usize] = MIP_MTIP;
    assert_eq!(cpu.check_pending_interrupt(), None);
    cpu.csr.csrs[MSTATUS as usize] = MSTATUS_MIE;
    cpu.bus.clint.mtimecmp = 100;
    assert_eq!(cpu.check_pending_interrupt(), None);
}

#[test]
fn external_interrupt_from_serial_input() {
    let mut cpu = CPU::new(Vec::new());
    cpu.csr.csrs[MSTATUS as usize] = MSTATUS_MIE;
    cpu.csr.csrs[MIE as usize] = 0x800;
    assert!(cpu.bus.uart.receive(b'a'));
    assert_eq!(cpu.check_pending_interrupt(), Some(Interrupt::MachineExternalInterrupt));
    assert_eq!(cpu.bus.plic.sclaim, 10);
    assert_eq!(cpu.check_pending_interrupt(), None);
}

#[test]
fn register_zero_stays_zero() {
    let mut cpu = CPU::new(Vec::new());
    // addi x0, x0, 5
    assert_eq!(cpu.execute(0x00500013), Ok(DRAM_BASE + 4));
    assert_eq!(cpu.regs[0], 0);
    // lui x0, 0x12345
    assert_eq!(cpu.execute(0x12345037), Ok(DRAM_BASE + 4));
    assert_eq!(cpu.regs[0], 0);
}

#[test]
fn beq_taken_and_not_taken() {
    let mut cpu = CPU::new(Vec::new());
    // beq x1, x2, 16
    let beq = 0x00208863;
    cpu.regs[1] = 3;
    cpu.regs[2] = 3;
    assert_eq!(cpu.execute(beq), Ok(DRAM_BASE + 16));
    cpu.regs[2] = 4;
    assert_eq!(cpu.execute(beq), Ok(DRAM_BASE + 4));
}

#[test]
fn backward_branch_wraps_to_lower_pc() {
    let mut cpu = CPU::new(Vec::new());
    cpu.pc = DRAM_BASE + 16;
    // bne x1, x0, -16
    cpu.regs[1] = 1;
    assert_eq!(cpu.execute(0xfe0098e3), Ok(DRAM_BASE));
}

#[test]
fn signed_and_unsigned_branches() {
    let mut cpu = CPU::new(Vec::new());
    cpu.regs[1] = u64::MAX; // -1
    cpu.regs[2] = 1;
    // blt x1, x2, 8
    assert_eq!(cpu.execute(0x0020c463), Ok(DRAM_BASE + 8));
    // bltu x1, x2, 8
    assert_eq!(cpu.execute(0x0020e463), Ok(DRAM_BASE + 4));
    // bge x1, x2, 8
    assert_eq!(cpu.execute(0x0020d463), Ok(DRAM_BASE + 4));
    // bgeu x1, x2, 8
    assert_eq!(cpu.execute(0x0020f463), Ok(DRAM_BASE + 8));
}

#[test]
fn jalr_clears_low_bit() {
    let mut cpu = CPU::new(Vec::new());
    cpu.regs[5] = 0x8000_0101;
    // jalr x1, 2(x5)
    assert_eq!(cpu.execute(0x002280e7), Ok(0x8000_0102));
    assert_eq!(cpu.regs[1], DRAM_BASE + 4);
}

#[test]
fn lui_and_auipc_sign_extend() {
    let mut cpu = CPU::new(Vec::new());
    // lui x1, 0x80000
    cpu.execute(0x800000b7).unwrap();
    assert_eq!(cpu.regs[1], 0xffff_ffff_8000_0000);
    // auipc x2, 1
    cpu.execute(0x00001117).unwrap();
    assert_eq!(cpu.regs[2], DRAM_BASE + 0x1000);
}

#[test]
fn immediate_alu_ops() {
    let mut cpu = CPU::new(Vec::new());
    cpu.regs[1] = 0xf0;
    // xori x2, x1, 0xff
    cpu.execute(0x0ff0c113).unwrap();
    assert_eq!(cpu.regs[2], 0x0f);
    // ori x3, x1, 0x0f
    cpu.execute(0x00f0e193).unwrap();
    assert_eq!(cpu.regs[3], 0xff);
    // andi x4, x1, 0x30
    cpu.execute(0x0300f213).unwrap();
    assert_eq!(cpu.regs[4], 0x30);
    // slli x5, x1, 4
    cpu.execute(0x00409293).unwrap();
    assert_eq!(cpu.regs[5], 0xf00);
    // srli x6, x1, 4
    cpu.execute(0x0040d313).unwrap();
    assert_eq!(cpu.regs[6], 0xf);
    // addi x7, x0, -1 ; srai x8, x7, 4
    cpu.execute(0xfff00393).unwrap();
    assert_eq!(cpu.regs[7], u64::MAX);
    cpu.execute(0x4043d413).unwrap();
    assert_eq!(cpu.regs[8], u64::MAX);
    // slti x9, x7, 0 ; sltiu x10, x7, 0
    cpu.execute(0x0003a493).unwrap();
    assert_eq!(cpu.regs[9], 1);
    cpu.execute(0x0003b513).unwrap();
    assert_eq!(cpu.regs[10], 0);
}

#[test]
fn register_alu_ops() {
    let mut cpu = CPU::new(Vec::new());
    cpu.regs[1] = 7;
    cpu.regs[2] = 3;
    // add x3, x1, x2
    cpu.execute(0x002081b3).unwrap();
    assert_eq!(cpu.regs[3], 10);
    // sub x4, x2, x1
    cpu.execute(0x40110233).unwrap();
    assert_eq!(cpu.regs[4], (-4i64) as u64);
    // mul x5, x1, x2
    cpu.execute(0x022082b3).unwrap();
    assert_eq!(cpu.regs[5], 21);
    // sll x6, x1, x2
    cpu.execute(0x00209333).unwrap();
    assert_eq!(cpu.regs[6], 56);
    // slt x7, x4, x1 ; sltu x8, x4, x1
    cpu.execute(0x001223b3).unwrap();
    assert_eq!(cpu.regs[7], 1);
    cpu.execute(0x00123433).unwrap();
    assert_eq!(cpu.regs[8], 0);
    // sra x9, x4, x2 ; srl x10, x4, x2
    cpu.execute(0x402254b3).unwrap();
    assert_eq!(cpu.regs[9], u64::MAX);
    cpu.execute(0x00225533).unwrap();
    assert_eq!(cpu.regs[10], u64::MAX >> 3);
    // xor x11, x1, x2 ; or x12, x1, x2 ; and x13, x1, x2
    cpu.execute(0x0020c5b3).unwrap();
    assert_eq!(cpu.regs[11], 4);
    cpu.execute(0x0020e633).unwrap();
    assert_eq!(cpu.regs[12], 7);
    cpu.execute(0x0020f6b3).unwrap();
    assert_eq!(cpu.regs[13], 3);
}

#[test]
fn word_ops_sign_extend() {
    let mut cpu = CPU::new(Vec::new());
    cpu.regs[1] = 0x7fff_ffff;
    cpu.regs[2] = 1;
    // addw x3, x1, x2
    cpu.execute(0x002081bb).unwrap();
    assert_eq!(cpu.regs[3], 0xffff_ffff_8000_0000);
    // addiw x4, x1, 1
    cpu.execute(0x0010821b).unwrap();
    assert_eq!(cpu.regs[4], 0xffff_ffff_8000_0000);
    // subw x5, x2, x1
    cpu.execute(0x401102bb).unwrap();
    assert_eq!(cpu.regs[5], 0xffff_ffff_8000_0002);
    // sllw x6, x1, x2
    cpu.execute(0x0020933b).unwrap();
    assert_eq!(cpu.regs[6], 0xffff_ffff_ffff_fffe);
    // sraw x7, x3, x2 ; srlw x8, x3, x2
    cpu.execute(0x4021d3bb).unwrap();
    assert_eq!(cpu.regs[7], 0xffff_ffff_c000_0000);
    cpu.execute(0x0021d43b).unwrap();
    assert_eq!(cpu.regs[8], 0x4000_0000);
    // slliw x9, x1, 1 ; srliw x10, x3, 1 ; sraiw x11, x3, 1
    cpu.execute(0x0010949b).unwrap();
    assert_eq!(cpu.regs[9], 0xffff_ffff_ffff_fffe);
    cpu.execute(0x0011d51b).unwrap();
    assert_eq!(cpu.regs[10], 0x4000_0000);
    cpu.execute(0x4011d59b).unwrap();
    assert_eq!(cpu.regs[11], 0xffff_ffff_c000_0000);
}

#[test]
fn store_then_load_each_width() {
    let mut cpu = CPU::new(Vec::new());
    cpu.regs[1] = DRAM_BASE + 0x100;
    cpu.regs[2] = 0x8899_aabb_ccdd_eeff;
    // sd x2, 0(x1) ; ld x3, 0(x1)
    cpu.execute(0x0020b023).unwrap();
    cpu.execute(0x0000b183).unwrap();
    assert_eq!(cpu.regs[3], 0x8899_aabb_ccdd_eeff);
    // lw x4 / lwu x5
    cpu.execute(0x0000a203).unwrap();
    assert_eq!(cpu.regs[4], 0xffff_ffff_ccdd_eeff);
    cpu.execute(0x0000e283).unwrap();
    assert_eq!(cpu.regs[5], 0xccdd_eeff);
    // lh x6 / lhu x7
    cpu.execute(0x00009303).unwrap();
    assert_eq!(cpu.regs[6], 0xffff_ffff_ffff_eeff);
    cpu.execute(0x0000d383).unwrap();
    assert_eq!(cpu.regs[7], 0xeeff);
    // lb x8 / lbu x9
    cpu.execute(0x00008403).unwrap();
    assert_eq!(cpu.regs[8], u64::MAX);
    cpu.execute(0x0000c483).unwrap();
    assert_eq!(cpu.regs[9], 0xff);
    // sb x0, 0(x1) then lbu
    cpu.execute(0x00008023).unwrap();
    cpu.execute(0x0000c483).unwrap();
    assert_eq!(cpu.regs[9], 0);
    // sh / sw keep the bytes above them
    cpu.regs[2] = 0x1234;
    cpu.execute(0x00209023).unwrap();
    cpu.execute(0x0000b183).unwrap();
    assert_eq!(cpu.regs[3], 0x8899_aabb_ccdd_1234);
    cpu.regs[2] = 0x0102_0304;
    cpu.execute(0x0020a023).unwrap();
    cpu.execute(0x0000b183).unwrap();
    assert_eq!(cpu.regs[3], 0x8899_aabb_0102_0304);
}

#[test]
fn bus_round_trip_every_width() {
    let mut cpu = CPU::new(Vec::new());
    let addr = DRAM_BASE + 0x40;
    for (size, v) in [(8u64, 0xabu64), (16, 0xbeef), (32, 0xdead_beef), (64, 0x0123_4567_89ab_cdef)] {
        assert_eq!(cpu.store(addr, size, v), Ok(()));
        assert_eq!(cpu.load(addr, size), Ok(v));
    }
}

#[test]
fn memory_access_past_the_end_faults() {
    let mut cpu = CPU::new(Vec::new());
    assert_eq!(cpu.load(DRAM_END, 8), Ok(0));
    assert_eq!(cpu.load(DRAM_END - 2, 64), Err(Exception::LoadAccessFault(DRAM_END - 2)));
    assert_eq!(cpu.store(DRAM_END - 2, 32, 1), Err(Exception::StoreAMOAccessFault(DRAM_END - 2)));
}

#[test]
fn store_outside_every_range_faults() {
    let mut cpu = CPU::new(Vec::new());
    cpu.regs[1] = 0x10;
    // sw x1, 0(x1)
    assert_eq!(cpu.execute(0x0010a023), Err(Exception::StoreAMOAccessFault(0x10)));
}

#[test]
fn illegal_instructions() {
    let mut cpu = CPU::new(Vec::new());
    assert_eq!(cpu.execute(0xffff_ffff), Err(Exception::IllegalInstruction(0xffff_ffff)));
    // store with funct3 = 4
    assert_eq!(cpu.execute(0x0000c023), Err(Exception::IllegalInstruction(0x0000c023)));
    // load with funct3 = 7
    assert_eq!(cpu.execute(0x0000f003), Err(Exception::IllegalInstruction(0x0000f003)));
    // register op with funct7 = 0x02
    assert_eq!(cpu.execute(0x042080b3), Err(Exception::IllegalInstruction(0x042080b3)));
    // branch with funct3 = 2
    assert_eq!(cpu.execute(0x0000a063), Err(Exception::IllegalInstruction(0x0000a063)));
}

#[test]
fn fatal_exception_is_trapped_and_reported() {
    let mut cpu = CPU::new(words(&[0xffff_ffff]));
    cpu.csr.csrs[MTVEC as usize] = 0x8000_0400;
    assert_eq!(cpu.step(), Err(Exception::IllegalInstruction(0xffff_ffff)));
    assert_eq!(cpu.pc, 0x8000_0400);
    assert_eq!(cpu.csr.csrs[MCAUSE as usize], 2);
    assert_eq!(cpu.csr.csrs[MTVAL as usize], 0xffff_ffff);
    assert_eq!(cpu.csr.csrs[MEPC as usize], DRAM_BASE);
}

#[test]
fn fetch_fault_is_reported() {
    let mut cpu = CPU::new(Vec::new());
    cpu.pc = 0;
    assert_eq!(cpu.fetch(), Err(Exception::LoadAccessFault(0)));
    assert_eq!(cpu.step(), Err(Exception::LoadAccessFault(0)));
    assert_eq!(cpu.csr.csrs[MCAUSE as usize], 5);
}

#[test]
fn exception_codes_and_values() {
    assert_eq!(Exception::InstructionAddressMisaligned(3).code(), 0);
    assert_eq!(Exception::InstructionAccessFault(3).code(), 1);
    assert_eq!(Exception::IllegalInstruction(3).code(), 2);
    assert_eq!(Exception::LoadAccessFault(3).code(), 5);
    assert_eq!(Exception::StoreAMOAccessFault(9).code(), 7);
    assert_eq!(Exception::StoreAMOAccessFault(9).value(), 9);
    assert!(Exception::LoadAccessFault(0).is_fatal());
    assert_eq!(Interrupt::MachineExternalInterrupt.cause(), (1u64 << 63) | 11);
}

#[test]
fn new_cpu_state() {
    let mut cpu = CPU::new(words(&[0x00500093]));
    assert_eq!(cpu.pc, DRAM_BASE);
    assert_eq!(cpu.regs[2], DRAM_END);
    assert_eq!(cpu.bus.dram.dram[0], 0x93);
    assert_eq!(cpu.bus.dram.dram[4], 0);
    assert_eq!(cpu.update_pc(), Ok(DRAM_BASE + 4));
}

#[test]
fn register_lookup_by_name() {
    let mut cpu = CPU::new(Vec::new());
    cpu.regs[8] = 42;
    cpu.regs[31] = 9;
    assert_eq!(cpu.reg("sp"), Ok(DRAM_END));
    assert_eq!(cpu.reg("x2"), Ok(DRAM_END));
    assert_eq!(cpu.reg("s0"), Ok(42));
    assert_eq!(cpu.reg("fp"), Ok(42));
    assert_eq!(cpu.reg("t6"), Ok(9));
    assert_eq!(cpu.reg("x31"), Ok(9));
    assert_eq!(cpu.reg("zero"), Ok(0));
    assert_eq!(cpu.reg("pc"), Ok(DRAM_BASE));
    assert_eq!(cpu.reg("x32"), Err(UnknownRegister));
    assert_eq!(cpu.reg("x"), Err(UnknownRegister));
    assert_eq!(cpu.reg("x1a"), Err(UnknownRegister));
    assert_eq!(cpu.reg("foo"), Err(UnknownRegister));
}

#[test]
fn routing_by_range() {
    assert_eq!(route(DRAM_BASE), Some(Device::Dram));
    assert_eq!(route(DRAM_END), Some(Device::Dram));
    assert_eq!(route(DRAM_END + 1), None);
    assert_eq!(route(CLINT_MTIME), Some(Device::Clint));
    assert_eq!(route(UART_BASE), Some(Device::Uart));
    assert_eq!(route(0xc00_0000), Some(Device::Plic));
    assert_eq!(route(0), None);
    let mut cpu = CPU::new(Vec::new());
    assert_eq!(cpu.store(0, 64, 1), Err(Exception::StoreAMOAccessFault(0)));
}

#[test]
fn timer_registers_through_bus() {
    let mut cpu = CPU::new(Vec::new());
    assert_eq!(cpu.store(CLINT_MTIMECMP, 64, 77), Ok(()));
    assert_eq!(cpu.load(CLINT_MTIMECMP, 64), Ok(77));
    assert_eq!(cpu.load(CLINT_MTIME, 32), Err(Exception::LoadAccessFault(CLINT_MTIME)));
    assert_eq!(cpu.store(CLINT_MTIME, 32, 1), Err(Exception::StoreAMOAccessFault(CLINT_MTIME)));
}

#[test]
fn serial_output_through_store_instruction() {
    let mut cpu = CPU::new(Vec::new());
    cpu.regs[1] = UART_BASE;
    cpu.regs[2] = b'h' as u64;
    // sb x2, 0(x1)
    cpu.execute(0x00208023).unwrap();
    assert_eq!(cpu.bus.uart.take_output(), vec![b'h']);
    assert_eq!(cpu.bus.uart.take_output(), Vec::<u8>::new());
}
