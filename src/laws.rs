use crate::float::{class_index, fclass, frm_field, rm_of, rounding_of, selected_rm, SoftFloatOp};
use crate::isa::{Cause, Instruction, Rv32fOpcodeR, Rv32iOpcodeI, Rv32iOpcodeJ, Rv32iOpcodeR};
use crate::rv32f::{rounds, rv32f_f, rv32f_request, rv32f_x, Rv32fInstruction};
use crate::rv32i::{
    add32, eff_addr, op_r, rv32i_fault, rv32i_pc, rv32i_x, sll32, sra32, srl32, Rv32iInstruction,
};
use crate::rv64m::{rv64m_x, Rv64mInstruction};
use crate::state::{add_offset, sext32, FCSR};
use vstd::prelude::*;

verus! {

/// A well-formed integer register file: 32 registers, register 0 zero.
pub open spec fn x_wf(x: Seq<u64>) -> bool {
    x.len() == 32 && x[0] == 0
}


/// The low 32 bits of a sign-extended 32-bit value are that value.
pub proof fn lemma_sext32_low(v: u32)
    ensures
        sext32(v) as u32 == v,
{
    assert((v as i32 as i64 as u64) as u32 == v) by (bit_vector);
}

/// Register 0 reads zero after every instruction of every extension.
pub proof fn lemma_x0_is_zero(
    i: Rv32iInstruction,
    m: Rv64mInstruction,
    f_instr: Rv32fInstruction,
    pc: u32,
    x: Seq<u64>,
    f: Seq<u32>,
    csr: Seq<u32>,
    mem: Seq<u8>,
    k: u32,
)
    requires
        i.wf(),
        m.wf(),
        f_instr.wf(),
        x_wf(x),
    ensures
        rv32i_x(i, pc, x, csr, mem)[0] == 0,
        rv64m_x(m, x)[0] == 0,
        rv32f_x(f_instr, x, f, k)[0] == 0,
{
}

/// `add` and `sub` wrap modulo 2^32.
pub proof fn lemma_wrapping_arithmetic(a: u32, b: u32)
    ensures
        op_r(Rv32iOpcodeR::Add, a, b) as int == (a as int + b as int) % 0x1_0000_0000,
        op_r(Rv32iOpcodeR::Sub, a, b) as int == (a as int - b as int) % 0x1_0000_0000,
{
}

/// Shifts use only the low five bits of the amount, so adding 32 to the
/// amount changes nothing.
pub proof fn lemma_shift_masking(a: u32, s: u32)
    requires
        s as int + 32 <= u32::MAX,
    ensures
        sll32(a, s) == a << (s & 0x1f),
        sll32(a, s) == sll32(a, (s + 32) as u32),
        srl32(a, s) == srl32(a, (s + 32) as u32),
        sra32(a, s) == sra32(a, (s + 32) as u32),
{
    let t = (s + 32) as u32;
    assert(t & 0x1f == s & 0x1f) by (bit_vector)
        requires
            t == s + 32,
    ;
}

/// `lb` writes the loaded byte sign-extended to the full register width.
pub proof fn lemma_lb_sign_extends(
    rd: usize,
    rs1: usize,
    imm: i32,
    pc: u32,
    x: Seq<u64>,
    csr: Seq<u32>,
    mem: Seq<u8>,
)
    requires
        x_wf(x),
        0 < rd < 32,
        rs1 < 32,
        rv32i_fault(
            Instruction::TypeI { opcode: Rv32iOpcodeI::Lb, rd, funct3: 0, rs1, imm },
            x,
            mem,
        ) is None,
    ensures
        rv32i_x(
            Instruction::TypeI { opcode: Rv32iOpcodeI::Lb, rd, funct3: 0, rs1, imm },
            pc,
            x,
            csr,
            mem,
        )[rd as int] == mem[eff_addr(x, rs1, imm)] as i8 as i64 as u64,
{
    let b = mem[eff_addr(x, rs1, imm)];
    assert((b as i8 as i32 as u32) as i32 as i64 as u64 == b as i8 as i64 as u64) by (bit_vector);
}

/// `jal` links the address of the next instruction and jumps by its offset.
pub proof fn lemma_jal_links(rd: usize, imm: i32, pc: u32, x: Seq<u64>, csr: Seq<u32>, mem: Seq<u8>)
    requires
        x_wf(x),
        0 < rd < 32,
    ensures
        rv32i_x(Instruction::TypeJ { opcode: Rv32iOpcodeJ::Jal, rd, imm }, pc, x, csr, mem)[rd as int] as u32
            as int == (pc as int + 4) % 0x1_0000_0000,
        rv32i_pc(Instruction::TypeJ { opcode: Rv32iOpcodeJ::Jal, rd, imm }, pc, x) as int == (pc as int
            + imm as int) % 0x1_0000_0000,
{
    lemma_sext32_low(add32(pc, 4));
}

/// `jalr` always leaves the lowest bit of the program counter clear.
pub proof fn lemma_jalr_aligned(rd: usize, rs1: usize, imm: i32, funct3: usize, pc: u32, x: Seq<u64>)
    ensures
        rv32i_pc(Instruction::TypeI { opcode: Rv32iOpcodeI::Jalr, rd, funct3, rs1, imm }, pc, x)
            & 1 == 0,
{
    let t = add_offset(x[rs1 as int] as u32, imm);
    assert((t & !1u32) & 1 == 0) by (bit_vector);
}

/// Moving a bit pattern from an integer register to a floating-point
/// register and back gives the pattern unchanged, NaN payloads included.
pub proof fn lemma_fmv_round_trip(
    xs: usize,
    fd: usize,
    xd: usize,
    funct3: usize,
    funct7: usize,
    x: Seq<u64>,
    f: Seq<u32>,
    mem: Seq<u8>,
    k1: u32,
    k2: u32,
)
    requires
        x_wf(x),
        f.len() == 32,
        xs < 32,
        fd < 32,
        0 < xd < 32,
    ensures
        ({
            let to_f: Rv32fInstruction = Instruction::TypeR {
                opcode: Rv32fOpcodeR::FmvWx,
                rd: fd,
                funct3,
                rs1: xs,
                rs2: 0,
                funct7,
            };
            let to_x: Rv32fInstruction = Instruction::TypeR {
                opcode: Rv32fOpcodeR::FmvXw,
                rd: xd,
                funct3,
                rs1: fd,
                rs2: 0,
                funct7,
            };
            let f1 = rv32f_f(to_f, x, f, mem, k1);
            let x1 = rv32f_x(to_f, x, f, k1);
            rv32f_x(to_x, x1, f1, k2)[xd as int] as u32 == x[xs as int] as u32
        }),
{
    lemma_sext32_low(x[xs as int] as u32);
}

/// funct3 values 0 to 4 select their own rounding mode, 7 selects the mode
/// held in `fcsr`, and 5 and 6 make every rounding operation illegal. A
/// rounding operation hands the kernel exactly the selected mode.
pub proof fn lemma_rounding_mode_selection(
    op: Rv32fOpcodeR,
    funct3: usize,
    rd: usize,
    rs1: usize,
    rs2: usize,
    funct7: usize,
    x: Seq<u64>,
    f: Seq<u32>,
    csr: Seq<u32>,
)
    requires
        csr.len() == 4096,
    ensures
        funct3 <= 4 ==> selected_rm(funct3, csr) == rm_of(funct3 as int) && rm_of(
            funct3 as int,
        ) is Some,
        funct3 == 7 ==> selected_rm(funct3, csr) == rm_of(frm_field(csr[FCSR as int])),
        (funct3 == 5 || funct3 == 6) && rounds(op) ==> rv32f_request(
            Instruction::TypeR { opcode: op, rd, funct3, rs1, rs2, funct7 },
            x,
            f,
            csr,
        ) == Err::<Option<SoftFloatOp>, Cause>(Cause::IllegalInstruction),
        rounds(op) ==> match rv32f_request(
            Instruction::TypeR { opcode: op, rd, funct3, rs1, rs2, funct7 },
            x,
            f,
            csr,
        ) {
            Ok(Some(k)) => selected_rm(funct3, csr) is Some && rounding_of(k) == selected_rm(
                funct3,
                csr,
            ),
            Ok(None) => selected_rm(funct3, csr) is Some,
            Err(_) => selected_rm(funct3, csr) is None,
        },
{
}

/// `fclass.s` sets exactly one bit, among the low ten.
pub proof fn lemma_fclass_one_hot(w: u32)
    ensures
        fclass(w) != 0,
        fclass(w) & (fclass(w) - 1) as u32 == 0,
        fclass(w) < 0x400,
{
    let i = class_index(w);
    assert(i < 10);
    assert(i < 10 ==> (1u32 << i) != 0 && (1u32 << i) & (((1u32 << i) - 1) as u32) == 0 && (1u32
        << i) < 0x400) by (bit_vector);
}

} // verus!
