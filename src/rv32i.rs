use crate::isa::{
    Cause, Instruction, Rv32iOpcodeB, Rv32iOpcodeI, Rv32iOpcodeJ, Rv32iOpcodeR, Rv32iOpcodeS,
    Rv32iOpcodeU,
};
use crate::state::{
    add_offset, mem_le16, mem_le32, mem_store16, mem_store32, offset32, reg_write, sext32,
    ControlAndStatusRegister, IntegerRegister, ProgramCounter, SystemBus,
};
use vstd::prelude::*;

verus! {

pub type Rv32iInstruction = Instruction<
    Rv32iOpcodeR,
    Rv32iOpcodeI,
    Rv32iOpcodeS,
    Rv32iOpcodeB,
    Rv32iOpcodeU,
    Rv32iOpcodeJ,
>;

/// `a + b` modulo 2^32.
pub open spec fn add32(a: u32, b: u32) -> u32 {
    ((a as int + b as int) % 0x1_0000_0000) as u32
}

/// `a - b` modulo 2^32.
pub open spec fn sub32(a: u32, b: u32) -> u32 {
    ((a as int - b as int) % 0x1_0000_0000) as u32
}

/// Shift left by the low five bits of `b`.
pub open spec fn sll32(a: u32, b: u32) -> u32 {
    a << (b & 0x1f)
}

/// Logical shift right by the low five bits of `b`.
pub open spec fn srl32(a: u32, b: u32) -> u32 {
    a >> (b & 0x1f)
}

/// Arithmetic shift right by the low five bits of `b`.
pub open spec fn sra32(a: u32, b: u32) -> u32 {
    ((a as i32) >> (b & 0x1f)) as u32
}

/// 1 when `a < b` as signed numbers, else 0.
pub open spec fn slt32(a: u32, b: u32) -> u32 {
    if (a as i32) < (b as i32) {
        1
    } else {
        0
    }
}

/// 1 when `a < b` as unsigned numbers, else 0.
pub open spec fn sltu32(a: u32, b: u32) -> u32 {
    if a < b {
        1
    } else {
        0
    }
}

/// Result of a register-register operation on operands `a` and `b`.
pub open spec fn op_r(op: Rv32iOpcodeR, a: u32, b: u32) -> u32 {
    match op {
        Rv32iOpcodeR::Sll => sll32(a, b),
        Rv32iOpcodeR::Srl => srl32(a, b),
        Rv32iOpcodeR::Sra => sra32(a, b),
        Rv32iOpcodeR::Add => add32(a, b),
        Rv32iOpcodeR::Sub => sub32(a, b),
        Rv32iOpcodeR::Xor => a ^ b,
        Rv32iOpcodeR::Or => a | b,
        Rv32iOpcodeR::And => a & b,
        Rv32iOpcodeR::Slt => slt32(a, b),
        Rv32iOpcodeR::Sltu => sltu32(a, b),
    }
}

/// Whether a conditional branch on operands `a` and `b` is taken.
pub open spec fn branch_taken(op: Rv32iOpcodeB, a: u32, b: u32) -> bool {
    match op {
        Rv32iOpcodeB::Beq => a == b,
        Rv32iOpcodeB::Bne => a != b,
        Rv32iOpcodeB::Blt => (a as i32) < (b as i32),
        Rv32iOpcodeB::Bge => (a as i32) >= (b as i32),
        Rv32iOpcodeB::Bltu => a < b,
        Rv32iOpcodeB::Bgeu => a >= b,
    }
}

/// The CSR named by the 12-bit immediate field.
pub open spec fn csr_index(imm: i32) -> int {
    ((imm as u32) & 0xfff) as int
}

/// The low 32 bits of integer register `i`.
pub open spec fn xr(x: Seq<u64>, i: usize) -> u32 {
    x[i as int] as u32
}

/// Effective address of a load or store: register plus offset, modulo 2^32.
pub open spec fn eff_addr(x: Seq<u64>, rs1: usize, imm: i32) -> int {
    add_offset(xr(x, rs1), imm) as int
}

/// Number of bytes a load reads.
pub open spec fn load_width(op: Rv32iOpcodeI) -> int {
    match op {
        Rv32iOpcodeI::Lb | Rv32iOpcodeI::Lbu => 1,
        Rv32iOpcodeI::Lh | Rv32iOpcodeI::Lhu => 2,
        Rv32iOpcodeI::Lw => 4,
        _ => 0,
    }
}

/// Number of bytes a store writes.
pub open spec fn store_width(op: Rv32iOpcodeS) -> int {
    match op {
        Rv32iOpcodeS::Sb => 1,
        Rv32iOpcodeS::Sh => 2,
        Rv32iOpcodeS::Sw => 4,
    }
}

/// The 32-bit value a load writes to its destination, from memory `m` at `a`.
pub open spec fn load_value(op: Rv32iOpcodeI, m: Seq<u8>, a: int) -> u32 {
    match op {
        Rv32iOpcodeI::Lb => m[a] as i8 as i32 as u32,
        Rv32iOpcodeI::Lh => mem_le16(m, a) as i16 as i32 as u32,
        Rv32iOpcodeI::Lbu => m[a] as u32,
        Rv32iOpcodeI::Lhu => mem_le16(m, a) as u32,
        _ => mem_le32(m, a),
    }
}

/// The trap an RV32I instruction raises, if any: a load or store that
/// reaches past the end of memory.
pub open spec fn rv32i_fault(instr: Rv32iInstruction, x: Seq<u64>, m: Seq<u8>) -> Option<Cause> {
    match instr {
        Instruction::TypeI { opcode, rs1, imm, .. } => {
            if load_width(opcode) > 0 && eff_addr(x, rs1, imm) + load_width(opcode) > m.len() {
                Some(Cause::LoadAccessFault)
            } else {
                None
            }
        },
        Instruction::TypeS { opcode, rs1, imm, .. } => {
            if eff_addr(x, rs1, imm) + store_width(opcode) > m.len() {
                Some(Cause::StoreAccessFault)
            } else {
                None
            }
        },
        _ => None,
    }
}

/// The value an I-type instruction writes to rd, or `None` if it writes none.
pub open spec fn type_i_rd_value(
    op: Rv32iOpcodeI,
    rs1: usize,
    imm: i32,
    pc: u32,
    x: Seq<u64>,
    csr: Seq<u32>,
    m: Seq<u8>,
) -> Option<u32> {
    let a = xr(x, rs1);
    let b = imm as u32;
    match op {
        Rv32iOpcodeI::Slli => Some(sll32(a, b)),
        Rv32iOpcodeI::Srli => Some(srl32(a, b)),
        Rv32iOpcodeI::Srai => Some(sra32(a, b)),
        Rv32iOpcodeI::Addi => Some(add32(a, b)),
        Rv32iOpcodeI::Xori => Some(a ^ b),
        Rv32iOpcodeI::Ori => Some(a | b),
        Rv32iOpcodeI::Andi => Some(a & b),
        Rv32iOpcodeI::Slti => Some(slt32(a, b)),
        Rv32iOpcodeI::Sltiu => Some(sltu32(a, b)),
        Rv32iOpcodeI::Jalr => Some(add32(pc, 4)),
        Rv32iOpcodeI::Fence | Rv32iOpcodeI::FenceI | Rv32iOpcodeI::Ecall
        | Rv32iOpcodeI::Ebreak => None,
        Rv32iOpcodeI::Csrrw | Rv32iOpcodeI::Csrrs | Rv32iOpcodeI::Csrrc | Rv32iOpcodeI::Csrrwi
        | Rv32iOpcodeI::Csrrsi | Rv32iOpcodeI::Csrrci => Some(csr[csr_index(imm)]),
        _ => Some(load_value(op, m, eff_addr(x, rs1, imm))),
    }
}

/// The CSR file after an I-type instruction.
pub open spec fn type_i_csr(op: Rv32iOpcodeI, rs1: usize, imm: i32, x: Seq<u64>, csr: Seq<u32>) -> Seq<
    u32,
> {
    let c = csr_index(imm);
    let prev = csr[c];
    match op {
        Rv32iOpcodeI::Csrrw => csr.update(c, xr(x, rs1)),
        Rv32iOpcodeI::Csrrs => csr.update(c, prev | xr(x, rs1)),
        Rv32iOpcodeI::Csrrc => csr.update(c, prev & !xr(x, rs1)),
        Rv32iOpcodeI::Csrrwi => csr.update(c, rs1 as u32),
        Rv32iOpcodeI::Csrrsi => csr.update(c, prev | (rs1 as u32)),
        Rv32iOpcodeI::Csrrci => csr.update(c, prev & !(rs1 as u32)),
        _ => csr,
    }
}

/// The integer register file after an RV32I instruction that does not trap.
pub open spec fn rv32i_x(instr: Rv32iInstruction, pc: u32, x: Seq<u64>, csr: Seq<u32>, m: Seq<u8>) -> Seq<u64> {
    match instr {
        Instruction::TypeR { opcode, rd, rs1, rs2, .. } => reg_write(
            x,
            rd as int,
            sext32(op_r(opcode, xr(x, rs1), xr(x, rs2))),
        ),
        Instruction::TypeI { opcode, rd, rs1, imm, .. } => match type_i_rd_value(opcode, rs1, imm, pc, x, csr, m) {
            Some(v) => reg_write(x, rd as int, sext32(v)),
            None => x,
        },
        Instruction::TypeU { opcode, rd, imm } => reg_write(
            x,
            rd as int,
            sext32(
                match opcode {
                    Rv32iOpcodeU::Lui => imm as u32,
                    Rv32iOpcodeU::Auipc => add_offset(pc, imm),
                },
            ),
        ),
        Instruction::TypeJ { rd, .. } => reg_write(x, rd as int, sext32(add32(pc, 4))),
        _ => x,
    }
}

/// The program counter after an RV32I instruction that does not trap. Only
/// taken branches and jumps change it; the caller advances past the others.
pub open spec fn rv32i_pc(instr: Rv32iInstruction, pc: u32, x: Seq<u64>) -> u32 {
    match instr {
        Instruction::TypeI { opcode: Rv32iOpcodeI::Jalr, rs1, imm, .. } => add_offset(
            xr(x, rs1),
            imm,
        ) & !1u32,
        Instruction::TypeB { opcode, rs1, rs2, imm, .. } => if branch_taken(
            opcode,
            xr(x, rs1),
            xr(x, rs2),
        ) {
            add_offset(pc, imm)
        } else {
            pc
        },
        Instruction::TypeJ { imm, .. } => add_offset(pc, imm),
        _ => pc,
    }
}

/// The CSR file after an RV32I instruction that does not trap.
pub open spec fn rv32i_csr(instr: Rv32iInstruction, x: Seq<u64>, csr: Seq<u32>) -> Seq<u32> {
    match instr {
        Instruction::TypeI { opcode, rs1, imm, .. } => type_i_csr(opcode, rs1, imm, x, csr),
        _ => csr,
    }
}

/// Memory after an RV32I instruction that does not trap.
pub open spec fn rv32i_mem(instr: Rv32iInstruction, x: Seq<u64>, m: Seq<u8>) -> Seq<u8> {
    match instr {
        Instruction::TypeS { opcode, rs1, rs2, imm, .. } => {
            let a = eff_addr(x, rs1, imm);
            let v = xr(x, rs2);
            match opcode {
                Rv32iOpcodeS::Sb => m.update(a, v as u8),
                Rv32iOpcodeS::Sh => mem_store16(m, a, v as u16),
                Rv32iOpcodeS::Sw => mem_store32(m, a, v),
            }
        },
        _ => m,
    }
}

fn exec_op_r(op: Rv32iOpcodeR, a: u32, b: u32) -> (r: u32)
    ensures
        r == op_r(op, a, b),
{
    let s: u32 = b & 0x1f;
    assert(b & 0x1f < 32) by (bit_vector);
    match op {
        Rv32iOpcodeR::Sll => a << s,
        Rv32iOpcodeR::Srl => a >> s,
        Rv32iOpcodeR::Sra => ((a as i32) >> s) as u32,
        Rv32iOpcodeR::Add => a.wrapping_add(b),
        Rv32iOpcodeR::Sub => a.wrapping_sub(b),
        Rv32iOpcodeR::Xor => a ^ b,
        Rv32iOpcodeR::Or => a | b,
        Rv32iOpcodeR::And => a & b,
        Rv32iOpcodeR::Slt => if (a as i32) < (b as i32) {
            1
        } else {
            0
        },
        Rv32iOpcodeR::Sltu => if a < b {
            1
        } else {
            0
        },
    }
}

fn exec_branch_taken(op: Rv32iOpcodeB, a: u32, b: u32) -> (r: bool)
    ensures
        r == branch_taken(op, a, b),
{
    match op {
        Rv32iOpcodeB::Beq => a == b,
        Rv32iOpcodeB::Bne => a != b,
        Rv32iOpcodeB::Blt => (a as i32) < (b as i32),
        Rv32iOpcodeB::Bge => (a as i32) >= (b as i32),
        Rv32iOpcodeB::Bltu => a < b,
        Rv32iOpcodeB::Bgeu => a >= b,
    }
}

fn exec_csr_index(imm: i32) -> (r: u16)
    ensures
        r as int == csr_index(imm),
        r < 4096,
{
    let v: u32 = (imm as u32) & 0xfff;
    assert(v < 4096) by (bit_vector)
        requires
            v == (imm as u32) & 0xfff,
    ;
    v as u16
}

/// Executes one RV32I instruction: reads its operands, computes, and writes
/// the destination register, the CSR file, memory or the program counter.
/// Loads and stores that reach past the end of memory trap with no effect.
pub fn execute_rv32i(
    instruction: Rv32iInstruction,
    pc: &mut ProgramCounter,
    x: &mut IntegerRegister,
    csr: &mut ControlAndStatusRegister,
    bus: &mut SystemBus,
) -> (r: Result<(), Cause>)
    requires
        instruction.wf(),
        old(x).wf(),
        old(csr).wf(),
    ensures
        final(x).wf(),
        final(csr).wf(),
        match rv32i_fault(instruction, old(x)@, old(bus)@) {
            Some(c) => {
                &&& r == Err::<(), Cause>(c)
                &&& final(pc).value == old(pc).value
                &&& final(x)@ == old(x)@
                &&& final(csr)@ == old(csr)@
                &&& final(bus)@ == old(bus)@
            },
            None => {
                &&& r == Ok::<(), Cause>(())
                &&& final(pc).value == rv32i_pc(instruction, old(pc).value, old(x)@)
                &&& final(x)@ == rv32i_x(
                    instruction,
                    old(pc).value,
                    old(x)@,
                    old(csr)@,
                    old(bus)@,
                )
                &&& final(csr)@ == rv32i_csr(instruction, old(x)@, old(csr)@)
                &&& final(bus)@ == rv32i_mem(instruction, old(x)@, old(bus)@)
            },
        },
{
    match instruction {
        Instruction::TypeR { opcode, rd, rs1, rs2, .. } => {
            let v = exec_op_r(opcode, x.read_u32(rs1), x.read_u32(rs2));
            x.write_u32(rd, v);
            Ok(())
        },
        Instruction::TypeI { opcode, rd, rs1, imm, .. } => {
            let a = x.read_u32(rs1);
            let b = imm as u32;
            let addr = offset32(a, imm) as u64;
            match opcode {
                Rv32iOpcodeI::Slli => x.write_u32(rd, exec_op_r(Rv32iOpcodeR::Sll, a, b)),
                Rv32iOpcodeI::Srli => x.write_u32(rd, exec_op_r(Rv32iOpcodeR::Srl, a, b)),
                Rv32iOpcodeI::Srai => x.write_u32(rd, exec_op_r(Rv32iOpcodeR::Sra, a, b)),
                Rv32iOpcodeI::Addi => x.write_u32(rd, exec_op_r(Rv32iOpcodeR::Add, a, b)),
                Rv32iOpcodeI::Xori => x.write_u32(rd, a ^ b),
                Rv32iOpcodeI::Ori => x.write_u32(rd, a | b),
                Rv32iOpcodeI::Andi => x.write_u32(rd, a & b),
                Rv32iOpcodeI::Slti => x.write_u32(rd, exec_op_r(Rv32iOpcodeR::Slt, a, b)),
                Rv32iOpcodeI::Sltiu => x.write_u32(rd, exec_op_r(Rv32iOpcodeR::Sltu, a, b)),
                Rv32iOpcodeI::Jalr => {
                    let link = pc.read().wrapping_add(4);
                    pc.jump(offset32(a, imm) & !1u32);
                    x.write_u32(rd, link);
                },
                Rv32iOpcodeI::Fence | Rv32iOpcodeI::FenceI | Rv32iOpcodeI::Ecall
                | Rv32iOpcodeI::Ebreak => {},
                Rv32iOpcodeI::Csrrw => {
                    let prev = csr.csrrw(exec_csr_index(imm), a);
                    x.write_u32(rd, prev);
                },
                Rv32iOpcodeI::Csrrs => {
                    let prev = csr.csrrs(exec_csr_index(imm), a);
                    x.write_u32(rd, prev);
                },
                Rv32iOpcodeI::Csrrc => {
                    let prev = csr.csrrc(exec_csr_index(imm), a);
                    x.write_u32(rd, prev);
                },
                Rv32iOpcodeI::Csrrwi => {
                    let prev = csr.csrrw(exec_csr_index(imm), rs1 as u32);
                    x.write_u32(rd, prev);
                },
                Rv32iOpcodeI::Csrrsi => {
                    let prev = csr.csrrs(exec_csr_index(imm), rs1 as u32);
                    x.write_u32(rd, prev);
                },
                Rv32iOpcodeI::Csrrci => {
                    let prev = csr.csrrc(exec_csr_index(imm), rs1 as u32);
                    x.write_u32(rd, prev);
                },
                Rv32iOpcodeI::Lb => match bus.load8(addr) {
                    Ok(v) => x.write_u32(rd, v as i8 as i32 as u32),
                    Err(e) => {
                        return Err(e);
                    },
                },
                Rv32iOpcodeI::Lh => match bus.load16(addr) {
                    Ok(v) => x.write_u32(rd, v as i16 as i32 as u32),
                    Err(e) => {
                        return Err(e);
                    },
                },
                Rv32iOpcodeI::Lbu => match bus.load8(addr) {
                    Ok(v) => x.write_u32(rd, v as u32),
                    Err(e) => {
                        return Err(e);
                    },
                },
                Rv32iOpcodeI::Lhu => match bus.load16(addr) {
                    Ok(v) => x.write_u32(rd, v as u32),
                    Err(e) => {
                        return Err(e);
                    },
                },
                Rv32iOpcodeI::Lw => match bus.load32(addr) {
                    Ok(v) => x.write_u32(rd, v),
                    Err(e) => {
                        return Err(e);
                    },
                },
            }
            Ok(())
        },
        Instruction::TypeS { opcode, rs1, rs2, imm, .. } => {
            let addr = offset32(x.read_u32(rs1), imm) as u64;
            let v = x.read_u32(rs2);
            match opcode {
                Rv32iOpcodeS::Sb => bus.store8(addr, v as u8),
                Rv32iOpcodeS::Sh => bus.store16(addr, v as u16),
                Rv32iOpcodeS::Sw => bus.store32(addr, v),
            }
        },
        Instruction::TypeB { opcode, rs1, rs2, imm, .. } => {
            if exec_branch_taken(opcode, x.read_u32(rs1), x.read_u32(rs2)) {
                pc.jump_relative(imm);
            }
            Ok(())
        },
        Instruction::TypeU { opcode, rd, imm } => {
            match opcode {
                Rv32iOpcodeU::Lui => x.write_u32(rd, imm as u32),
                Rv32iOpcodeU::Auipc => x.write_u32(rd, offset32(pc.read(), imm)),
            }
            Ok(())
        },
        Instruction::TypeJ { rd, imm, .. } => {
            x.write_u32(rd, pc.read().wrapping_add(4));
            pc.jump_relative(imm);
            Ok(())
        },
    }
}

} // verus!
