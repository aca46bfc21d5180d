use crate::float::{
    both_zero, fclass, float_both_zero, float_class, float_is_nan, float_with_sign, is_nan,
    select_rm, selected_rm, sign_bit, with_sign, RoundingMode, SoftFloatOp, CANONICAL_NAN,
};
use crate::isa::{Cause, Instruction, PrivilegeMode, Rv32fOpcodeI, Rv32fOpcodeR, Rv32fOpcodeS};
use crate::rv32i::{eff_addr, xr};
use crate::state::{
    mem_le32, mem_store32, offset32, reg_write, sext32, ControlAndStatusRegister,
    FloatingPointRegister, IntegerRegister, ProgramCounter, SystemBus,
};
use vstd::prelude::*;

verus! {

/// RV32F instructions: R-type arithmetic, an I-type load and an S-type store.
pub type Rv32fInstruction = Instruction<Rv32fOpcodeR, Rv32fOpcodeI, Rv32fOpcodeS, (), (), ()>;

/// Operations that round, and so need a valid rounding mode.
pub open spec fn rounds(op: Rv32fOpcodeR) -> bool {
    match op {
        Rv32fOpcodeR::FmaddS | Rv32fOpcodeR::FmsubS | Rv32fOpcodeR::FnmsubS
        | Rv32fOpcodeR::FnmaddS | Rv32fOpcodeR::FaddS | Rv32fOpcodeR::FsubS
        | Rv32fOpcodeR::FmulS | Rv32fOpcodeR::FdivS | Rv32fOpcodeR::FsqrtS
        | Rv32fOpcodeR::FcvtWs | Rv32fOpcodeR::FcvtWuS | Rv32fOpcodeR::FcvtSw
        | Rv32fOpcodeR::FcvtSWu => true,
        _ => false,
    }
}

/// Operations whose destination is an integer register.
pub open spec fn writes_x(op: Rv32fOpcodeR) -> bool {
    match op {
        Rv32fOpcodeR::FcvtWs | Rv32fOpcodeR::FcvtWuS | Rv32fOpcodeR::FmvXw | Rv32fOpcodeR::FeqS
        | Rv32fOpcodeR::FltS | Rv32fOpcodeR::FleS | Rv32fOpcodeR::FclassS => true,
        _ => false,
    }
}

/// The third source register of the fused multiply-add forms, held in
/// funct7[6:2].
pub open spec fn rs3_of(funct7: usize) -> usize {
    (funct7 >> 2) & 0x1f
}

/// `w` with its sign flipped.
pub open spec fn negated(w: u32) -> u32 {
    w ^ 0x8000_0000
}

/// The soft-float computation an R-type operation needs on source encodings
/// `a`, `b`, `c` (rs1, rs2, rs3) and integer operand `v` (rs1), if any.
/// Comparisons, min and max involving a NaN are decided without the kernel.
pub open spec fn kernel_op(op: Rv32fOpcodeR, a: u32, b: u32, c: u32, v: u32, rm: RoundingMode) -> Option<
    SoftFloatOp,
> {
    let ordered = !is_nan(a) && !is_nan(b);
    match op {
        Rv32fOpcodeR::FmaddS => Some(SoftFloatOp::MulAdd(a, b, c, rm)),
        Rv32fOpcodeR::FmsubS => Some(SoftFloatOp::MulAdd(a, b, negated(c), rm)),
        Rv32fOpcodeR::FnmsubS => Some(SoftFloatOp::MulAdd(a, negated(b), c, rm)),
        Rv32fOpcodeR::FnmaddS => Some(SoftFloatOp::MulAdd(a, negated(b), negated(c), rm)),
        Rv32fOpcodeR::FaddS => Some(SoftFloatOp::Add(a, b, rm)),
        Rv32fOpcodeR::FsubS => Some(SoftFloatOp::Sub(a, b, rm)),
        Rv32fOpcodeR::FmulS => Some(SoftFloatOp::Mul(a, b, rm)),
        Rv32fOpcodeR::FdivS => Some(SoftFloatOp::Div(a, b, rm)),
        Rv32fOpcodeR::FsqrtS => Some(SoftFloatOp::Sqrt(a, rm)),
        Rv32fOpcodeR::FminS | Rv32fOpcodeR::FmaxS | Rv32fOpcodeR::FltS => if ordered {
            Some(SoftFloatOp::Lt(a, b))
        } else {
            None
        },
        Rv32fOpcodeR::FeqS => if ordered {
            Some(SoftFloatOp::Eq(a, b))
        } else {
            None
        },
        Rv32fOpcodeR::FleS => if ordered {
            Some(SoftFloatOp::Le(a, b))
        } else {
            None
        },
        Rv32fOpcodeR::FcvtWs => Some(SoftFloatOp::ToI32(a, rm)),
        Rv32fOpcodeR::FcvtWuS => if is_nan(a) {
            None
        } else {
            Some(SoftFloatOp::ToU32(a, rm))
        },
        Rv32fOpcodeR::FcvtSw => Some(SoftFloatOp::FromI32(v as i32, rm)),
        Rv32fOpcodeR::FcvtSWu => Some(SoftFloatOp::FromU32(v, rm)),
        _ => None,
    }
}

/// What an RV32F instruction asks of the soft-float kernel: an illegal
/// instruction if it rounds and no rounding mode is selected, else the
/// computation it needs, if any.
pub open spec fn rv32f_request(
    instr: Rv32fInstruction,
    x: Seq<u64>,
    f: Seq<u32>,
    csr: Seq<u32>,
) -> Result<Option<SoftFloatOp>, Cause> {
    match instr {
        Instruction::TypeR { opcode, funct3, rs1, rs2, funct7, .. } => {
            let a = f[rs1 as int];
            let b = f[rs2 as int];
            let c = f[rs3_of(funct7) as int];
            let v = xr(x, rs1);
            if rounds(opcode) {
                match selected_rm(funct3, csr) {
                    Some(rm) => Ok(kernel_op(opcode, a, b, c, v, rm)),
                    None => Err(Cause::IllegalInstruction),
                }
            } else {
                Ok(kernel_op(opcode, a, b, c, v, RoundingMode::TiesToEven))
            }
        },
        _ => Ok(None),
    }
}

/// `fmin.s`: a NaN operand yields the other operand, two NaNs the canonical
/// NaN, and negative zero is below positive zero; otherwise the kernel's
/// answer `k` to `a < b` decides.
pub open spec fn fmin(a: u32, b: u32, k: u32) -> u32 {
    if is_nan(a) && is_nan(b) {
        CANONICAL_NAN
    } else if is_nan(a) {
        b
    } else if is_nan(b) {
        a
    } else if both_zero(a, b) {
        a | b
    } else if k != 0 {
        a
    } else {
        b
    }
}

/// `fmax.s`, the mirror of `fmin`.
pub open spec fn fmax(a: u32, b: u32, k: u32) -> u32 {
    if is_nan(a) && is_nan(b) {
        CANONICAL_NAN
    } else if is_nan(a) {
        b
    } else if is_nan(b) {
        a
    } else if both_zero(a, b) {
        a & b
    } else if k != 0 {
        b
    } else {
        a
    }
}

/// The encoding an operation writing a floating-point register stores, from
/// source encodings `a`, `b`, integer operand `v` and kernel answer `k`.
pub open spec fn fp_result(op: Rv32fOpcodeR, a: u32, b: u32, v: u32, k: u32) -> u32 {
    match op {
        Rv32fOpcodeR::FsgnjS => with_sign(a, sign_bit(b)),
        Rv32fOpcodeR::FsgnjnS => with_sign(a, sign_bit(b) ^ 1),
        Rv32fOpcodeR::FsgnjxS => with_sign(a, sign_bit(a) ^ sign_bit(b)),
        Rv32fOpcodeR::FminS => fmin(a, b, k),
        Rv32fOpcodeR::FmaxS => fmax(a, b, k),
        Rv32fOpcodeR::FmvWx => v,
        _ => k,
    }
}

/// The 32-bit value an operation writing an integer register produces,
/// before sign extension.
pub open spec fn x_result(op: Rv32fOpcodeR, a: u32, b: u32, k: u32) -> u32 {
    match op {
        Rv32fOpcodeR::FcvtWuS => if is_nan(a) {
            0xffff_ffff
        } else {
            k
        },
        Rv32fOpcodeR::FmvXw => a,
        Rv32fOpcodeR::FeqS | Rv32fOpcodeR::FltS | Rv32fOpcodeR::FleS => if is_nan(a) || is_nan(
            b,
        ) {
            0
        } else if k != 0 {
            1
        } else {
            0
        },
        Rv32fOpcodeR::FclassS => fclass(a),
        _ => k,
    }
}

/// The trap an RV32F instruction raises, if any.
pub open spec fn rv32f_fault(
    instr: Rv32fInstruction,
    x: Seq<u64>,
    csr: Seq<u32>,
    m: Seq<u8>,
) -> Option<Cause> {
    match instr {
        Instruction::TypeR { opcode, funct3, .. } => if rounds(opcode) && selected_rm(
            funct3,
            csr,
        ) is None {
            Some(Cause::IllegalInstruction)
        } else {
            None
        },
        Instruction::TypeI { rs1, imm, .. } => if eff_addr(x, rs1, imm) + 4 > m.len() {
            Some(Cause::LoadAccessFault)
        } else {
            None
        },
        Instruction::TypeS { rs1, imm, .. } => if eff_addr(x, rs1, imm) + 4 > m.len() {
            Some(Cause::StoreAccessFault)
        } else {
            None
        },
        _ => None,
    }
}

/// The integer register file after an RV32F instruction that does not trap.
pub open spec fn rv32f_x(instr: Rv32fInstruction, x: Seq<u64>, f: Seq<u32>, k: u32) -> Seq<u64> {
    match instr {
        Instruction::TypeR { opcode, rd, rs1, rs2, .. } => if writes_x(opcode) {
            reg_write(x, rd as int, sext32(x_result(opcode, f[rs1 as int], f[rs2 as int], k)))
        } else {
            x
        },
        _ => x,
    }
}

/// The floating-point register file after an RV32F instruction that does
/// not trap.
pub open spec fn rv32f_f(instr: Rv32fInstruction, x: Seq<u64>, f: Seq<u32>, m: Seq<u8>, k: u32) -> Seq<
    u32,
> {
    match instr {
        Instruction::TypeR { opcode, rd, rs1, rs2, .. } => if writes_x(opcode) {
            f
        } else {
            f.update(rd as int, fp_result(opcode, f[rs1 as int], f[rs2 as int], xr(x, rs1), k))
        },
        Instruction::TypeI { rd, rs1, imm, .. } => f.update(
            rd as int,
            mem_le32(m, eff_addr(x, rs1, imm)),
        ),
        _ => f,
    }
}

/// Memory after an RV32F instruction that does not trap.
pub open spec fn rv32f_mem(instr: Rv32fInstruction, x: Seq<u64>, f: Seq<u32>, m: Seq<u8>) -> Seq<u8> {
    match instr {
        Instruction::TypeS { rs1, rs2, imm, .. } => mem_store32(
            m,
            eff_addr(x, rs1, imm),
            f[rs2 as int],
        ),
        _ => m,
    }
}

fn exec_rounds(op: Rv32fOpcodeR) -> (r: bool)
    ensures
        r == rounds(op),
{
    match op {
        Rv32fOpcodeR::FmaddS | Rv32fOpcodeR::FmsubS | Rv32fOpcodeR::FnmsubS
        | Rv32fOpcodeR::FnmaddS | Rv32fOpcodeR::FaddS | Rv32fOpcodeR::FsubS
        | Rv32fOpcodeR::FmulS | Rv32fOpcodeR::FdivS | Rv32fOpcodeR::FsqrtS
        | Rv32fOpcodeR::FcvtWs | Rv32fOpcodeR::FcvtWuS | Rv32fOpcodeR::FcvtSw
        | Rv32fOpcodeR::FcvtSWu => true,
        _ => false,
    }
}

fn exec_kernel_op(op: Rv32fOpcodeR, a: u32, b: u32, c: u32, v: u32, rm: RoundingMode) -> (r:
    Option<SoftFloatOp>)
    ensures
        r == kernel_op(op, a, b, c, v, rm),
{
    let ordered = !float_is_nan(a) && !float_is_nan(b);
    match op {
        Rv32fOpcodeR::FmaddS => Some(SoftFloatOp::MulAdd(a, b, c, rm)),
        Rv32fOpcodeR::FmsubS => Some(SoftFloatOp::MulAdd(a, b, c ^ 0x8000_0000, rm)),
        Rv32fOpcodeR::FnmsubS => Some(SoftFloatOp::MulAdd(a, b ^ 0x8000_0000, c, rm)),
        Rv32fOpcodeR::FnmaddS => Some(
            SoftFloatOp::MulAdd(a, b ^ 0x8000_0000, c ^ 0x8000_0000, rm),
        ),
        Rv32fOpcodeR::FaddS => Some(SoftFloatOp::Add(a, b, rm)),
        Rv32fOpcodeR::FsubS => Some(SoftFloatOp::Sub(a, b, rm)),
        Rv32fOpcodeR::FmulS => Some(SoftFloatOp::Mul(a, b, rm)),
        Rv32fOpcodeR::FdivS => Some(SoftFloatOp::Div(a, b, rm)),
        Rv32fOpcodeR::FsqrtS => Some(SoftFloatOp::Sqrt(a, rm)),
        Rv32fOpcodeR::FminS | Rv32fOpcodeR::FmaxS | Rv32fOpcodeR::FltS => if ordered {
            Some(SoftFloatOp::Lt(a, b))
        } else {
            None
        },
        Rv32fOpcodeR::FeqS => if ordered {
            Some(SoftFloatOp::Eq(a, b))
        } else {
            None
        },
        Rv32fOpcodeR::FleS => if ordered {
            Some(SoftFloatOp::Le(a, b))
        } else {
            None
        },
        Rv32fOpcodeR::FcvtWs => Some(SoftFloatOp::ToI32(a, rm)),
        Rv32fOpcodeR::FcvtWuS => if float_is_nan(a) {
            None
        } else {
            Some(SoftFloatOp::ToU32(a, rm))
        },
        Rv32fOpcodeR::FcvtSw => Some(SoftFloatOp::FromI32(v as i32, rm)),
        Rv32fOpcodeR::FcvtSWu => Some(SoftFloatOp::FromU32(v, rm)),
        _ => None,
    }
}

fn exec_fmin(a: u32, b: u32, k: u32) -> (r: u32)
    ensures
        r == fmin(a, b, k),
{
    let na = float_is_nan(a);
    let nb = float_is_nan(b);
    if na && nb {
        CANONICAL_NAN
    } else if na {
        b
    } else if nb {
        a
    } else if float_both_zero(a, b) {
        a | b
    } else if k != 0 {
        a
    } else {
        b
    }
}

fn exec_fmax(a: u32, b: u32, k: u32) -> (r: u32)
    ensures
        r == fmax(a, b, k),
{
    let na = float_is_nan(a);
    let nb = float_is_nan(b);
    if na && nb {
        CANONICAL_NAN
    } else if na {
        b
    } else if nb {
        a
    } else if float_both_zero(a, b) {
        a & b
    } else if k != 0 {
        b
    } else {
        a
    }
}

fn exec_fp_result(op: Rv32fOpcodeR, a: u32, b: u32, v: u32, k: u32) -> (r: u32)
    ensures
        r == fp_result(op, a, b, v, k),
{
    match op {
        Rv32fOpcodeR::FsgnjS => float_with_sign(a, b >> 31),
        Rv32fOpcodeR::FsgnjnS => float_with_sign(a, (b >> 31) ^ 1),
        Rv32fOpcodeR::FsgnjxS => float_with_sign(a, (a >> 31) ^ (b >> 31)),
        Rv32fOpcodeR::FminS => exec_fmin(a, b, k),
        Rv32fOpcodeR::FmaxS => exec_fmax(a, b, k),
        Rv32fOpcodeR::FmvWx => v,
        _ => k,
    }
}

fn exec_x_result(op: Rv32fOpcodeR, a: u32, b: u32, k: u32) -> (r: u32)
    ensures
        r == x_result(op, a, b, k),
{
    match op {
        Rv32fOpcodeR::FcvtWuS => if float_is_nan(a) {
            0xffff_ffff
        } else {
            k
        },
        Rv32fOpcodeR::FmvXw => a,
        Rv32fOpcodeR::FeqS | Rv32fOpcodeR::FltS | Rv32fOpcodeR::FleS => if float_is_nan(a)
            || float_is_nan(b) {
            0
        } else if k != 0 {
            1
        } else {
            0
        },
        Rv32fOpcodeR::FclassS => float_class(a),
        _ => k,
    }
}

fn exec_writes_x(op: Rv32fOpcodeR) -> (r: bool)
    ensures
        r == writes_x(op),
{
    match op {
        Rv32fOpcodeR::FcvtWs | Rv32fOpcodeR::FcvtWuS | Rv32fOpcodeR::FmvXw | Rv32fOpcodeR::FeqS
        | Rv32fOpcodeR::FltS | Rv32fOpcodeR::FleS | Rv32fOpcodeR::FclassS => true,
        _ => false,
    }
}

/// Executor of the single-precision floating-point instructions of RV32F.
///
/// Rounding arithmetic runs in an IEEE-754 soft-float kernel outside this
/// executor: `kernel_request` names the computation an instruction needs,
/// and `execute` completes the instruction from the kernel's answer.
pub struct Rv32fExecutor;

impl Rv32fExecutor {
    /// The soft-float computation `instruction` needs, with its operands and
    /// its effective rounding mode; `Err(IllegalInstruction)` when it rounds
    /// and its funct3 selects no valid rounding mode.
    pub fn kernel_request(
        instruction: Rv32fInstruction,
        x: &IntegerRegister,
        f: &FloatingPointRegister,
        csr: &ControlAndStatusRegister,
    ) -> (r: Result<Option<SoftFloatOp>, Cause>)
        requires
            instruction.wf(),
            x.wf(),
            f.wf(),
            csr.wf(),
        ensures
            r == rv32f_request(instruction, x@, f@, csr@),
    {
        match instruction {
            Instruction::TypeR { opcode, funct3, rs1, rs2, funct7, .. } => {
                let rs3 = (funct7 >> 2) & 0x1f;
                assert((funct7 >> 2) & 0x1f < 32) by (bit_vector);
                let a = f.read_bits(rs1);
                let b = f.read_bits(rs2);
                let c = f.read_bits(rs3);
                let v = x.read_u32(rs1);
                if exec_rounds(opcode) {
                    match select_rm(funct3, csr) {
                        Some(rm) => Ok(exec_kernel_op(opcode, a, b, c, v, rm)),
                        None => Err(Cause::IllegalInstruction),
                    }
                } else {
                    Ok(exec_kernel_op(opcode, a, b, c, v, RoundingMode::TiesToEven))
                }
            },
            _ => Ok(None),
        }
    }

    /// Executes one RV32F instruction, given in `kernel` the soft-float
    /// kernel's answer to `kernel_request` for it (ignored when it needs
    /// none). Results are stored as raw encodings; results for integer
    /// registers are sign-extended from 32 bits.
    pub fn execute(
        instruction: Rv32fInstruction,
        _mode: &PrivilegeMode,
        _pc: &mut ProgramCounter,
        x: &mut IntegerRegister,
        f: &mut FloatingPointRegister,
        csr: &mut ControlAndStatusRegister,
        bus: &mut SystemBus,
        kernel: u32,
    ) -> (r: Result<(), Cause>)
        requires
            instruction.wf(),
            old(x).wf(),
            old(f).wf(),
            old(csr).wf(),
        ensures
            final(x).wf(),
            final(f).wf(),
            final(_pc).value == old(_pc).value,
            final(csr)@ == old(csr)@,
            match rv32f_fault(instruction, old(x)@, old(csr)@, old(bus)@) {
                Some(c) => {
                    &&& r == Err::<(), Cause>(c)
                    &&& final(x)@ == old(x)@
                    &&& final(f)@ == old(f)@
                    &&& final(bus)@ == old(bus)@
                },
                None => {
                    &&& r == Ok::<(), Cause>(())
                    &&& final(x)@ == rv32f_x(instruction, old(x)@, old(f)@, kernel)
                    &&& final(f)@ == rv32f_f(instruction, old(x)@, old(f)@, old(bus)@, kernel)
                    &&& final(bus)@ == rv32f_mem(instruction, old(x)@, old(f)@, old(bus)@)
                },
            },
    {
        match instruction {
            Instruction::TypeR { opcode, rd, funct3, rs1, rs2, .. } => {
                if exec_rounds(opcode) {
                    if select_rm(funct3, csr).is_none() {
                        return Err(Cause::IllegalInstruction);
                    }
                }
                let a = f.read_bits(rs1);
                let b = f.read_bits(rs2);
                if exec_writes_x(opcode) {
                    x.write_u32(rd, exec_x_result(opcode, a, b, kernel));
                } else {
                    let v = x.read_u32(rs1);
                    f.write_bits(rd, exec_fp_result(opcode, a, b, v, kernel));
                }
                Ok(())
            },
            Instruction::TypeI { rd, rs1, imm, .. } => {
                let addr = offset32(x.read_u32(rs1), imm) as u64;
                match bus.load32(addr) {
                    Ok(w) => {
                        f.write_bits(rd, w);
                        Ok(())
                    },
                    Err(e) => Err(e),
                }
            },
            Instruction::TypeS { rs1, rs2, imm, .. } => {
                let addr = offset32(x.read_u32(rs1), imm) as u64;
                bus.store32(addr, f.read_bits(rs2))
            },
            _ => Ok(()),
        }
    }
}

} // verus!
