//! Instruction fields, immediates, and the value computed by each
//! arithmetic, comparison and memory-width rule of RV64I with `mul`.
//! Each rule is a spec function, and an executable function proved equal to it.
use vstd::prelude::*;

verus! {

/// Bits [6:0].
pub open spec fn opcode(inst: u64) -> u64 {
    inst & 0x7f
}

/// Bits [11:7]: the destination register.
pub open spec fn rd(inst: u64) -> u64 {
    (inst & 0xf80) >> 7
}

/// Bits [19:15]: the first source register.
pub open spec fn rs1(inst: u64) -> u64 {
    (inst & 0xf8000) >> 15
}

/// Bits [24:20]: the second source register.
pub open spec fn rs2(inst: u64) -> u64 {
    (inst & 0x1f0_0000) >> 20
}

/// Bits [14:12].
pub open spec fn funct3(inst: u64) -> u64 {
    (inst & 0x7000) >> 12
}

/// Bits [31:25].
pub open spec fn funct7(inst: u64) -> u64 {
    (inst & 0xfe00_0000) >> 25
}

/// The I-type immediate: bits [31:20], sign-extended.
pub open spec fn imm_i(inst: u64) -> u64 {
    (((inst & 0xfff0_0000) as i32 as i64) >> 20) as u64
}

/// The S-type immediate: bits [31:25] above bits [11:7], sign-extended.
pub open spec fn imm_s(inst: u64) -> u64 {
    ((((inst & 0xfe00_0000) as i32 as i64) >> 20) as u64) | ((inst >> 7) & 0x1f)
}

/// The B-type immediate: bits [31], [7], [30:25], [11:8] as imm[12|11|10:5|4:1],
/// sign-extended, with bit 0 clear.
pub open spec fn imm_b(inst: u64) -> u64 {
    ((((inst & 0x8000_0000) as i32 as i64) >> 19) as u64) | ((inst & 0x80) << 4) | ((inst >> 20)
        & 0x7e0) | ((inst >> 7) & 0x1e)
}

/// The U-type immediate: bits [31:12] shifted left by 12, sign-extended from 32 bits.
pub open spec fn imm_u(inst: u64) -> u64 {
    (inst & 0xffff_f000) as i32 as i64 as u64
}

/// The J-type immediate: bits [31], [19:12], [20], [30:21] as
/// imm[20|19:12|11|10:1], sign-extended, with bit 0 clear.
pub open spec fn imm_j(inst: u64) -> u64 {
    ((((inst & 0x8000_0000) as i32 as i64) >> 11) as u64) | (inst & 0xff000) | ((inst >> 9)
        & 0x800) | ((inst >> 20) & 0x7fe)
}

/// Sign extension of the low 8, 16 and 32 bits to 64.
pub open spec fn sext8(v: u64) -> u64 {
    v as i8 as i64 as u64
}

pub open spec fn sext16(v: u64) -> u64 {
    v as i16 as i64 as u64
}

pub open spec fn sext32(v: u64) -> u64 {
    v as i32 as i64 as u64
}

/// The result of the register-immediate operations (opcode 0x13) on `a`,
/// or `None` for an encoding that is not an instruction.
pub open spec fn spec_alu_imm(f3: u64, f7: u64, a: u64, imm: u64) -> Option<u64> {
    let shamt = (imm & 0x3f) as u32;
    if f3 == 0 {
        Some(a.wrapping_add(imm))
    } else if f3 == 1 {
        Some(a.wrapping_shl(shamt))
    } else if f3 == 2 {
        Some(if (a as i64) < (imm as i64) { 1 } else { 0 })
    } else if f3 == 3 {
        Some(if a < imm { 1 } else { 0 })
    } else if f3 == 4 {
        Some(a ^ imm)
    } else if f3 == 5 {
        if f7 >> 1 == 0 {
            Some(a.wrapping_shr(shamt))
        } else if f7 >> 1 == 0x10 {
            Some((a as i64).wrapping_shr(shamt) as u64)
        } else {
            None
        }
    } else if f3 == 6 {
        Some(a | imm)
    } else if f3 == 7 {
        Some(a & imm)
    } else {
        None
    }
}

pub fn alu_imm(f3: u64, f7: u64, a: u64, imm: u64) -> (r: Option<u64>)
    ensures
        r == spec_alu_imm(f3, f7, a, imm),
{
    let shamt = (imm & 0x3f) as u32;
    if f3 == 0 {
        Some(a.wrapping_add(imm))
    } else if f3 == 1 {
        Some(a.wrapping_shl(shamt))
    } else if f3 == 2 {
        Some(if (a as i64) < (imm as i64) { 1 } else { 0 })
    } else if f3 == 3 {
        Some(if a < imm { 1 } else { 0 })
    } else if f3 == 4 {
        Some(a ^ imm)
    } else if f3 == 5 {
        if f7 >> 1 == 0 {
            Some(a.wrapping_shr(shamt))
        } else if f7 >> 1 == 0x10 {
            Some((a as i64).wrapping_shr(shamt) as u64)
        } else {
            None
        }
    } else if f3 == 6 {
        Some(a | imm)
    } else if f3 == 7 {
        Some(a & imm)
    } else {
        None
    }
}

/// The result of the 32-bit register-immediate operations (opcode 0x1b),
/// sign-extended to 64 bits.
pub open spec fn spec_alu_imm_w(f3: u64, f7: u64, a: u64, imm: u64) -> Option<u64> {
    let shamt = (imm & 0x1f) as u32;
    if f3 == 0 {
        Some(sext32(a.wrapping_add(imm)))
    } else if f3 == 1 {
        Some(sext32(a.wrapping_shl(shamt)))
    } else if f3 == 5 {
        if f7 == 0 {
            Some((a as u32).wrapping_shr(shamt) as i32 as i64 as u64)
        } else if f7 == 0x20 {
            Some((a as i32).wrapping_shr(shamt) as i64 as u64)
        } else {
            None
        }
    } else {
        None
    }
}

pub fn alu_imm_w(f3: u64, f7: u64, a: u64, imm: u64) -> (r: Option<u64>)
    ensures
        r == spec_alu_imm_w(f3, f7, a, imm),
{
    let shamt = (imm & 0x1f) as u32;
    if f3 == 0 {
        Some(a.wrapping_add(imm) as i32 as i64 as u64)
    } else if f3 == 1 {
        Some(a.wrapping_shl(shamt) as i32 as i64 as u64)
    } else if f3 == 5 {
        if f7 == 0 {
            Some((a as u32).wrapping_shr(shamt) as i32 as i64 as u64)
        } else if f7 == 0x20 {
            Some((a as i32).wrapping_shr(shamt) as i64 as u64)
        } else {
            None
        }
    } else {
        None
    }
}

/// The result of the register-register operations (opcode 0x33), selected by
/// the pair of `f3` and `f7`.
pub open spec fn spec_alu_reg(f3: u64, f7: u64, a: u64, b: u64) -> Option<u64> {
    let shamt = (b & 0x3f) as u32;
    if f3 == 0 && f7 == 0 {
        Some(a.wrapping_add(b))
    } else if f3 == 0 && f7 == 1 {
        Some(a.wrapping_mul(b))
    } else if f3 == 0 && f7 == 0x20 {
        Some(a.wrapping_sub(b))
    } else if f3 == 1 && f7 == 0 {
        Some(a.wrapping_shl(shamt))
    } else if f3 == 2 && f7 == 0 {
        Some(if (a as i64) < (b as i64) { 1 } else { 0 })
    } else if f3 == 3 && f7 == 0 {
        Some(if a < b { 1 } else { 0 })
    } else if f3 == 4 && f7 == 0 {
        Some(a ^ b)
    } else if f3 == 5 && f7 == 0 {
        Some(a.wrapping_shr(shamt))
    } else if f3 == 5 && f7 == 0x20 {
        Some((a as i64).wrapping_shr(shamt) as u64)
    } else if f3 == 6 && f7 == 0 {
        Some(a | b)
    } else if f3 == 7 && f7 == 0 {
        Some(a & b)
    } else {
        None
    }
}

pub fn alu_reg(f3: u64, f7: u64, a: u64, b: u64) -> (r: Option<u64>)
    ensures
        r == spec_alu_reg(f3, f7, a, b),
{
    let shamt = (b & 0x3f) as u32;
    if f3 == 0 && f7 == 0 {
        Some(a.wrapping_add(b))
    } else if f3 == 0 && f7 == 1 {
        Some(a.wrapping_mul(b))
    } else if f3 == 0 && f7 == 0x20 {
        Some(a.wrapping_sub(b))
    } else if f3 == 1 && f7 == 0 {
        Some(a.wrapping_shl(shamt))
    } else if f3 == 2 && f7 == 0 {
        Some(if (a as i64) < (b as i64) { 1 } else { 0 })
    } else if f3 == 3 && f7 == 0 {
        Some(if a < b { 1 } else { 0 })
    } else if f3 == 4 && f7 == 0 {
        Some(a ^ b)
    } else if f3 == 5 && f7 == 0 {
        Some(a.wrapping_shr(shamt))
    } else if f3 == 5 && f7 == 0x20 {
        Some((a as i64).wrapping_shr(shamt) as u64)
    } else if f3 == 6 && f7 == 0 {
        Some(a | b)
    } else if f3 == 7 && f7 == 0 {
        Some(a & b)
    } else {
        None
    }
}

/// The result of the 32-bit register-register operations (opcode 0x3b),
/// sign-extended to 64 bits.
pub open spec fn spec_alu_reg_w(f3: u64, f7: u64, a: u64, b: u64) -> Option<u64> {
    let shamt = (b & 0x1f) as u32;
    if f3 == 0 && f7 == 0 {
        Some(sext32(a.wrapping_add(b)))
    } else if f3 == 0 && f7 == 0x20 {
        Some(sext32(a.wrapping_sub(b)))
    } else if f3 == 1 && f7 == 0 {
        Some((a as u32).wrapping_shl(shamt) as i32 as u64)
    } else if f3 == 5 && f7 == 0 {
        Some((a as u32).wrapping_shr(shamt) as i32 as u64)
    } else if f3 == 5 && f7 == 0x20 {
        Some((a as i32).wrapping_shr(shamt) as u64)
    } else {
        None
    }
}

pub fn alu_reg_w(f3: u64, f7: u64, a: u64, b: u64) -> (r: Option<u64>)
    ensures
        r == spec_alu_reg_w(f3, f7, a, b),
{
    let shamt = (b & 0x1f) as u32;
    if f3 == 0 && f7 == 0 {
        Some(a.wrapping_add(b) as i32 as i64 as u64)
    } else if f3 == 0 && f7 == 0x20 {
        Some(a.wrapping_sub(b) as i32 as i64 as u64)
    } else if f3 == 1 && f7 == 0 {
        Some((a as u32).wrapping_shl(shamt) as i32 as u64)
    } else if f3 == 5 && f7 == 0 {
        Some((a as u32).wrapping_shr(shamt) as i32 as u64)
    } else if f3 == 5 && f7 == 0x20 {
        Some((a as i32).wrapping_shr(shamt) as u64)
    } else {
        None
    }
}

/// Whether a conditional branch (opcode 0x63) is taken, or `None` for an
/// encoding that is not a branch.
pub open spec fn spec_branch_taken(f3: u64, a: u64, b: u64) -> Option<bool> {
    if f3 == 0 {
        Some(a == b)
    } else if f3 == 1 {
        Some(a != b)
    } else if f3 == 4 {
        Some((a as i64) < (b as i64))
    } else if f3 == 5 {
        Some((a as i64) >= (b as i64))
    } else if f3 == 6 {
        Some(a < b)
    } else if f3 == 7 {
        Some(a >= b)
    } else {
        None
    }
}

pub fn branch_taken(f3: u64, a: u64, b: u64) -> (r: Option<bool>)
    ensures
        r == spec_branch_taken(f3, a, b),
{
    if f3 == 0 {
        Some(a == b)
    } else if f3 == 1 {
        Some(a != b)
    } else if f3 == 4 {
        Some((a as i64) < (b as i64))
    } else if f3 == 5 {
        Some((a as i64) >= (b as i64))
    } else if f3 == 6 {
        Some(a < b)
    } else if f3 == 7 {
        Some(a >= b)
    } else {
        None
    }
}

/// The width in bits of a load (opcode 0x03).
pub open spec fn spec_load_width(f3: u64) -> Option<u64> {
    if f3 == 0 || f3 == 4 {
        Some(8)
    } else if f3 == 1 || f3 == 5 {
        Some(16)
    } else if f3 == 2 || f3 == 6 {
        Some(32)
    } else if f3 == 3 {
        Some(64)
    } else {
        None
    }
}

pub fn load_width(f3: u64) -> (r: Option<u64>)
    ensures
        r == spec_load_width(f3),
{
    if f3 == 0 || f3 == 4 {
        Some(8)
    } else if f3 == 1 || f3 == 5 {
        Some(16)
    } else if f3 == 2 || f3 == 6 {
        Some(32)
    } else if f3 == 3 {
        Some(64)
    } else {
        None
    }
}

/// The register value of a loaded `v`: the signed loads of a byte, a half and
/// a word sign-extend, the others keep `v` as the bus returned it.
pub open spec fn spec_load_extend(f3: u64, v: u64) -> u64 {
    if f3 == 0 {
        sext8(v)
    } else if f3 == 1 {
        sext16(v)
    } else if f3 == 2 {
        sext32(v)
    } else {
        v
    }
}

pub fn load_extend(f3: u64, v: u64) -> (r: u64)
    ensures
        r == spec_load_extend(f3, v),
{
    if f3 == 0 {
        v as i8 as i64 as u64
    } else if f3 == 1 {
        v as i16 as i64 as u64
    } else if f3 == 2 {
        v as i32 as i64 as u64
    } else {
        v
    }
}

/// The width in bits of a store (opcode 0x23).
pub open spec fn spec_store_width(f3: u64) -> Option<u64> {
    if f3 == 0 {
        Some(8)
    } else if f3 == 1 {
        Some(16)
    } else if f3 == 2 {
        Some(32)
    } else if f3 == 3 {
        Some(64)
    } else {
        None
    }
}

pub fn store_width(f3: u64) -> (r: Option<u64>)
    ensures
        r == spec_store_width(f3),
{
    if f3 == 0 {
        Some(8)
    } else if f3 == 1 {
        Some(16)
    } else if f3 == 2 {
        Some(32)
    } else if f3 == 3 {
        Some(64)
    } else {
        None
    }
}

} // verus!
