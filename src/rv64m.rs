use crate::isa::{Cause, Instruction, PrivilegeMode, Rv64mOpcodeR};
use crate::state::{
    reg_write, sext32, ControlAndStatusRegister, FloatingPointRegister, IntegerRegister,
    ProgramCounter, SystemBus,
};
use vstd::prelude::*;

verus! {

/// RV64M instructions: only the R shape has opcodes.
pub type Rv64mInstruction = Instruction<Rv64mOpcodeR, (), (), (), (), ()>;

pub open spec fn abs(a: int) -> int {
    if a < 0 {
        -a
    } else {
        a
    }
}

/// Signed division rounding toward zero.
pub open spec fn div_trunc(a: int, b: int) -> int {
    if (a < 0) != (b < 0) {
        -(abs(a) / abs(b))
    } else {
        abs(a) / abs(b)
    }
}

/// Remainder of `div_trunc`: it takes the sign of the dividend.
pub open spec fn rem_trunc(a: int, b: int) -> int {
    if a < 0 {
        -(abs(a) % abs(b))
    } else {
        abs(a) % abs(b)
    }
}

/// The value a word-width multiply/divide writes to rd, from the full
/// 64-bit register values `a` (rs1) and `b` (rs2). Only their low 32 bits
/// are used; the 32-bit result is sign-extended.
pub open spec fn rv64m_value(op: Rv64mOpcodeR, a: u64, b: u64) -> u64 {
    let ua = a as u32;
    let ub = b as u32;
    let sa = ua as i32;
    let sb = ub as i32;
    let overflow = sa == i32::MIN && sb == -1;
    match op {
        Rv64mOpcodeR::Mulw => sext32(((ua as int * ub as int) % 0x1_0000_0000) as u32),
        Rv64mOpcodeR::Divw => if ub == 0 {
            u64::MAX
        } else if overflow {
            sext32(ua)
        } else {
            sext32(div_trunc(sa as int, sb as int) as i32 as u32)
        },
        Rv64mOpcodeR::Divuw => if ub == 0 {
            u64::MAX
        } else {
            sext32(ua / ub)
        },
        Rv64mOpcodeR::Remw => if ub == 0 {
            sext32(ua)
        } else if overflow {
            0
        } else {
            sext32(rem_trunc(sa as int, sb as int) as i32 as u32)
        },
        Rv64mOpcodeR::Remuw => if ub == 0 {
            sext32(ua)
        } else {
            sext32(ua % ub)
        },
    }
}

/// The integer register file after an RV64M instruction.
pub open spec fn rv64m_x(instr: Rv64mInstruction, x: Seq<u64>) -> Seq<u64> {
    match instr {
        Instruction::TypeR { opcode, rd, rs1, rs2, .. } => reg_write(
            x,
            rd as int,
            rv64m_value(opcode, x[rs1 as int], x[rs2 as int]),
        ),
        _ => x,
    }
}

fn sext(v: u32) -> (r: u64)
    ensures
        r == sext32(v),
{
    v as i32 as i64 as u64
}

fn exec_rv64m_value(op: Rv64mOpcodeR, a: u64, b: u64) -> (r: u64)
    ensures
        r == rv64m_value(op, a, b),
{
    let ua = a as u32;
    let ub = b as u32;
    let sa = ua as i32;
    let sb = ub as i32;
    let overflow = sa == i32::MIN && sb == -1;
    let wa: i64 = sa as i64;
    let wb: i64 = sb as i64;
    let ma: u64 = if wa < 0 {
        (-wa) as u64
    } else {
        wa as u64
    };
    assert(ub != 0 ==> (ub as i32) != 0) by (bit_vector);
    let mb: u64 = if wb < 0 {
        (-wb) as u64
    } else {
        wb as u64
    };
    match op {
        Rv64mOpcodeR::Mulw => {
            assert(ua as int * ub as int <= 0xffff_ffff * 0xffff_ffff) by (nonlinear_arith)
                requires
                    ua <= 0xffff_ffff,
                    ub <= 0xffff_ffff,
            ;
            let p: u64 = ua as u64 * ub as u64;
            sext((p % 0x1_0000_0000) as u32)
        },
        Rv64mOpcodeR::Divw => {
            if ub == 0 {
                u64::MAX
            } else if overflow {
                sext(ua)
            } else {
                let q: i64 = (ma / mb) as i64;
                let q: i64 = if (wa < 0) != (wb < 0) {
                    -q
                } else {
                    q
                };
                sext(q as i32 as u32)
            }
        },
        Rv64mOpcodeR::Divuw => {
            if ub == 0 {
                u64::MAX
            } else {
                sext(ua / ub)
            }
        },
        Rv64mOpcodeR::Remw => {
            if ub == 0 {
                sext(ua)
            } else if overflow {
                0
            } else {
                let m: i64 = (ma % mb) as i64;
                let m: i64 = if wa < 0 {
                    -m
                } else {
                    m
                };
                sext(m as i32 as u32)
            }
        },
        Rv64mOpcodeR::Remuw => {
            if ub == 0 {
                sext(ua)
            } else {
                sext(ua % ub)
            }
        },
    }
}

/// Executor of the word-width multiply, divide and remainder instructions of
/// RV64M.
pub struct Rv64mExecutor;

impl Rv64mExecutor {
    /// Executes one RV64M instruction. Instructions of other shapes have no
    /// effect. Division by zero and signed overflow do not trap: they give the
    /// results the RISC-V specification fixes.
    pub fn execute(
        instruction: Rv64mInstruction,
        _mode: &PrivilegeMode,
        _pc: &mut ProgramCounter,
        x: &mut IntegerRegister,
        _f: &mut FloatingPointRegister,
        _csr: &mut ControlAndStatusRegister,
        _bus: &mut SystemBus,
    ) -> (r: Result<(), Cause>)
        requires
            instruction.wf(),
            old(x).wf(),
        ensures
            r == Ok::<(), Cause>(()),
            final(x).wf(),
            final(x)@ == rv64m_x(instruction, old(x)@),
            final(_pc).value == old(_pc).value,
            final(_f)@ == old(_f)@,
            final(_csr)@ == old(_csr)@,
            final(_bus)@ == old(_bus)@,
    {
        if let Instruction::TypeR { opcode, rd, rs1, rs2, .. } = instruction {
            let v = exec_rv64m_value(opcode, x.read_unsigned(rs1), x.read_unsigned(rs2));
            x.write_unsigned(rd, v);
        }
        Ok(())
    }
}

} // verus!
