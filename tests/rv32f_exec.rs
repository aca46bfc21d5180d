use riscv_exec::float::{decode_rm, select_rm, RoundingMode, SoftFloatOp};
use riscv_exec::isa::{Cause, Instruction, PrivilegeMode, Rv32fOpcodeI, Rv32fOpcodeR, Rv32fOpcodeS};
use riscv_exec::rv32f::{Rv32fExecutor, Rv32fInstruction};
use riscv_exec::state::{
    ControlAndStatusRegister, FloatingPointRegister, IntegerRegister, ProgramCounter, SystemBus,
    FCSR,
};

struct Hart {
    pc: ProgramCounter,
    x: IntegerRegister,
    f: FloatingPointRegister,
    csr: ControlAndStatusRegister,
    bus: SystemBus,
}

fn hart() -> Hart {
    Hart {
        pc: ProgramCounter::new(0x1000),
        x: IntegerRegister::new(),
        f: FloatingPointRegister::new(),
        csr: ControlAndStatusRegister::new(),
        bus: SystemBus::new(0x100),
    }
}

fn r(opcode: Rv32fOpcodeR, rd: usize, funct3: usize, rs1: usize, rs2: usize) -> Rv32fInstruction {
    Instruction::TypeR { opcode, rd, funct3, rs1, rs2, funct7: 0 }
}

fn request(h: &Hart, i: Rv32fInstruction) -> Result<Option<SoftFloatOp>, Cause> {
    Rv32fExecutor::kernel_request(i, &h.x, &h.f, &h.csr)
}

fn run(h: &mut Hart, i: Rv32fInstruction, kernel: u32) -> Result<(), Cause> {
    Rv32fExecutor::execute(
        i,
        &PrivilegeMode::User,
        &mut h.pc,
        &mut h.x,
        &mut h.f,
        &mut h.csr,
        &mut h.bus,
        kernel,
    )
}

#[test]
fn fadd_round_to_nearest_even() {
    let mut h = hart();
    h.x.write_u32(5, 0x3F80_0000);
    run(&mut h, r(Rv32fOpcodeR::FmvWx, 1, 0, 5, 0), 0).unwrap();
    run(&mut h, r(Rv32fOpcodeR::FmvWx, 2, 0, 5, 0), 0).unwrap();
    let add = r(Rv32fOpcodeR::FaddS, 3, 0, 1, 2);
    assert_eq!(
        request(&h, add),
        Ok(Some(SoftFloatOp::Add(0x3F80_0000, 0x3F80_0000, RoundingMode::TiesToEven)))
    );
    run(&mut h, add, 0x4000_0000).unwrap();
    assert_eq!(h.f.read_bits(3), 0x4000_0000);
}

#[test]
fn fclass_of_infinity_and_quiet_nan() {
    let mut h = hart();
    h.f.write_bits(1, 0xFF80_0000);
    run(&mut h, r(Rv32fOpcodeR::FclassS, 1, 1, 1, 0), 0).unwrap();
    assert_eq!(h.x.read_u32(1), 0x001);
    h.f.write_bits(1, 0x7FC0_0000);
    run(&mut h, r(Rv32fOpcodeR::FclassS, 1, 1, 1, 0), 0).unwrap();
    assert_eq!(h.x.read_u32(1), 0x200);
}

#[test]
fn fclass_covers_every_class_with_one_bit() {
    let cases: [(u32, u32); 10] = [
        (0xFF80_0000, 0),
        (0xBF80_0000, 1),
        (0x8000_0001, 2),
        (0x8000_0000, 3),
        (0x0000_0000, 4),
        (0x0000_0001, 5),
        (0x3F80_0000, 6),
        (0x7F80_0000, 7),
        (0x7F80_0001, 8),
        (0xFFC0_0001, 9),
    ];
    let mut h = hart();
    for (w, bit) in cases {
        h.f.write_bits(4, w);
        run(&mut h, r(Rv32fOpcodeR::FclassS, 2, 1, 4, 0), 0).unwrap();
        let v = h.x.read_u32(2);
        assert_eq!(v, 1 << bit);
        assert_eq!(v.count_ones(), 1);
    }
}

#[test]
fn fmv_round_trip_keeps_nan_payload() {
    let mut h = hart();
    h.x.write_u32(1, 0x7F80_0123);
    run(&mut h, r(Rv32fOpcodeR::FmvWx, 7, 0, 1, 0), 0).unwrap();
    assert_eq!(h.f.read_bits(7), 0x7F80_0123);
    run(&mut h, r(Rv32fOpcodeR::FmvXw, 2, 0, 7, 0), 0).unwrap();
    assert_eq!(h.x.read_u32(2), 0x7F80_0123);
    h.x.write_u32(1, 0xFFC0_0000);
    run(&mut h, r(Rv32fOpcodeR::FmvWx, 7, 0, 1, 0), 0).unwrap();
    run(&mut h, r(Rv32fOpcodeR::FmvXw, 2, 0, 7, 0), 0).unwrap();
    assert_eq!(h.x.read_unsigned(2), 0xFFFF_FFFF_FFC0_0000);
}

#[test]
fn rounding_mode_from_funct3_and_fcsr() {
    let mut h = hart();
    assert_eq!(decode_rm(3), Some(RoundingMode::TowardPositive));
    assert_eq!(decode_rm(5), None);
    h.csr.csrrw(FCSR, 2 << 5);
    assert_eq!(select_rm(7, &h.csr), Some(RoundingMode::TowardNegative));
    assert_eq!(select_rm(1, &h.csr), Some(RoundingMode::TowardZero));
    assert_eq!(select_rm(4, &h.csr), Some(RoundingMode::TiesToAway));
    let mul = r(Rv32fOpcodeR::FmulS, 3, 7, 1, 2);
    assert_eq!(request(&h, mul), Ok(Some(SoftFloatOp::Mul(0, 0, RoundingMode::TowardNegative))));
    h.csr.csrrw(FCSR, 5 << 5);
    assert_eq!(select_rm(7, &h.csr), None);
    assert_eq!(request(&h, mul), Err(Cause::IllegalInstruction));
}

#[test]
fn reserved_rounding_mode_is_illegal() {
    let mut h = hart();
    h.f.write_bits(3, 0x1234);
    for funct3 in [5, 6] {
        let i = r(Rv32fOpcodeR::FaddS, 3, funct3, 1, 2);
        assert_eq!(request(&h, i), Err(Cause::IllegalInstruction));
        assert_eq!(run(&mut h, i, 0x4000_0000), Err(Cause::IllegalInstruction));
        assert_eq!(h.f.read_bits(3), 0x1234);
    }
    let sgnj = r(Rv32fOpcodeR::FsgnjS, 3, 6, 1, 2);
    assert_eq!(run(&mut h, sgnj, 0), Ok(()));
}

#[test]
fn fused_forms_negate_operands() {
    let mut h = hart();
    h.f.write_bits(1, 0x3F80_0000);
    h.f.write_bits(2, 0x4000_0000);
    h.f.write_bits(3, 0x4040_0000);
    let fma = |opcode| Instruction::TypeR { opcode, rd: 4, funct3: 0, rs1: 1, rs2: 2, funct7: 3 << 2 };
    let rne = RoundingMode::TiesToEven;
    assert_eq!(
        request(&h, fma(Rv32fOpcodeR::FmaddS)),
        Ok(Some(SoftFloatOp::MulAdd(0x3F80_0000, 0x4000_0000, 0x4040_0000, rne)))
    );
    assert_eq!(
        request(&h, fma(Rv32fOpcodeR::FmsubS)),
        Ok(Some(SoftFloatOp::MulAdd(0x3F80_0000, 0x4000_0000, 0xC040_0000, rne)))
    );
    assert_eq!(
        request(&h, fma(Rv32fOpcodeR::FnmsubS)),
        Ok(Some(SoftFloatOp::MulAdd(0x3F80_0000, 0xC000_0000, 0x4040_0000, rne)))
    );
    assert_eq!(
        request(&h, fma(Rv32fOpcodeR::FnmaddS)),
        Ok(Some(SoftFloatOp::MulAdd(0x3F80_0000, 0xC000_0000, 0xC040_0000, rne)))
    );
}

#[test]
fn sign_injection() {
    let mut h = hart();
    h.f.write_bits(1, 0x3F80_0000);
    h.f.write_bits(2, 0xC000_0000);
    run(&mut h, r(Rv32fOpcodeR::FsgnjS, 3, 0, 1, 2), 0).unwrap();
    run(&mut h, r(Rv32fOpcodeR::FsgnjnS, 4, 1, 1, 2), 0).unwrap();
    run(&mut h, r(Rv32fOpcodeR::FsgnjxS, 5, 2, 2, 2), 0).unwrap();
    assert_eq!(h.f.read_bits(3), 0xBF80_0000);
    assert_eq!(h.f.read_bits(4), 0x3F80_0000);
    assert_eq!(h.f.read_bits(5), 0x4000_0000);
}

#[test]
fn comparisons_with_nan_are_false() {
    let mut h = hart();
    h.f.write_bits(1, 0x7FC0_0000);
    h.f.write_bits(2, 0x3F80_0000);
    for op in [Rv32fOpcodeR::FeqS, Rv32fOpcodeR::FltS, Rv32fOpcodeR::FleS] {
        let i = r(op, 3, 0, 1, 2);
        assert_eq!(request(&h, i), Ok(None));
        run(&mut h, i, 1).unwrap();
        assert_eq!(h.x.read_u32(3), 0);
    }
    let lt = r(Rv32fOpcodeR::FltS, 4, 1, 2, 2);
    assert_eq!(request(&h, lt), Ok(Some(SoftFloatOp::Lt(0x3F80_0000, 0x3F80_0000))));
    run(&mut h, lt, 1).unwrap();
    assert_eq!(h.x.read_u32(4), 1);
}

#[test]
fn min_max_nan_and_zero_rules() {
    let mut h = hart();
    h.f.write_bits(1, 0x7FC0_0000);
    h.f.write_bits(2, 0x3F80_0000);
    h.f.write_bits(3, 0x8000_0000);
    h.f.write_bits(4, 0x0000_0000);
    run(&mut h, r(Rv32fOpcodeR::FminS, 5, 0, 1, 2), 0).unwrap();
    assert_eq!(h.f.read_bits(5), 0x3F80_0000);
    run(&mut h, r(Rv32fOpcodeR::FmaxS, 5, 1, 1, 1), 0).unwrap();
    assert_eq!(h.f.read_bits(5), 0x7FC0_0000);
    run(&mut h, r(Rv32fOpcodeR::FminS, 5, 0, 4, 3), 0).unwrap();
    assert_eq!(h.f.read_bits(5), 0x8000_0000);
    run(&mut h, r(Rv32fOpcodeR::FmaxS, 5, 1, 3, 4), 0).unwrap();
    assert_eq!(h.f.read_bits(5), 0x0000_0000);
    run(&mut h, r(Rv32fOpcodeR::FminS, 5, 0, 2, 4), 0).unwrap();
    assert_eq!(h.f.read_bits(5), 0x0000_0000);
    run(&mut h, r(Rv32fOpcodeR::FmaxS, 5, 1, 2, 4), 0).unwrap();
    assert_eq!(h.f.read_bits(5), 0x3F80_0000);
}

#[test]
fn conversions_to_integer() {
    let mut h = hart();
    h.f.write_bits(1, 0x7FC0_0000);
    let wu = r(Rv32fOpcodeR::FcvtWuS, 2, 1, 1, 0);
    assert_eq!(request(&h, wu), Ok(None));
    run(&mut h, wu, 0).unwrap();
    assert_eq!(h.x.read_unsigned(2), u64::MAX);
    h.f.write_bits(1, 0xC000_0000);
    let w = r(Rv32fOpcodeR::FcvtWs, 3, 1, 1, 0);
    assert_eq!(request(&h, w), Ok(Some(SoftFloatOp::ToI32(0xC000_0000, RoundingMode::TowardZero))));
    run(&mut h, w, (-2i32) as u32).unwrap();
    assert_eq!(h.x.read_signed(3), -2);
}

#[test]
fn conversions_from_integer() {
    let mut h = hart();
    h.x.write_u32(1, (-3i32) as u32);
    let sw = r(Rv32fOpcodeR::FcvtSw, 2, 0, 1, 0);
    assert_eq!(request(&h, sw), Ok(Some(SoftFloatOp::FromI32(-3, RoundingMode::TiesToEven))));
    let swu = r(Rv32fOpcodeR::FcvtSWu, 2, 0, 1, 0);
    assert_eq!(
        request(&h, swu),
        Ok(Some(SoftFloatOp::FromU32(0xFFFF_FFFD, RoundingMode::TiesToEven)))
    );
    run(&mut h, sw, 0xC040_0000).unwrap();
    assert_eq!(h.f.read_bits(2), 0xC040_0000);
}

#[test]
fn flw_and_fsw_move_raw_words() {
    let mut h = hart();
    h.x.write_u32(1, 0x40);
    h.f.write_bits(2, 0xDEAD_BEEF);
    let fsw = Instruction::TypeS { opcode: Rv32fOpcodeS::Fsw, funct3: 2, rs1: 1, rs2: 2, imm: 4 };
    run(&mut h, fsw, 0).unwrap();
    assert_eq!(h.bus.load32(0x44).unwrap(), 0xDEAD_BEEF);
    let flw = Instruction::TypeI { opcode: Rv32fOpcodeI::Flw, rd: 3, funct3: 2, rs1: 1, imm: 4 };
    run(&mut h, flw, 0).unwrap();
    assert_eq!(h.f.read_bits(3), 0xDEAD_BEEF);
    let far = Instruction::TypeI { opcode: Rv32fOpcodeI::Flw, rd: 3, funct3: 2, rs1: 0, imm: 0xFE };
    assert_eq!(run(&mut h, far, 0), Err(Cause::LoadAccessFault));
}
