use riscv_exec::isa::{Instruction, PrivilegeMode, Rv64iOpcodeI, Rv64iOpcodeR, Rv64iOpcodeS, Rv64mOpcodeR};
use riscv_exec::rv64m::Rv64mExecutor;
use riscv_exec::state::{
    ControlAndStatusRegister, FloatingPointRegister, IntegerRegister, ProgramCounter, SystemBus,
};

fn op(opcode: Rv64mOpcodeR, a: u64, b: u64) -> u64 {
    let mut pc = ProgramCounter::new(0);
    let mut x = IntegerRegister::new();
    let mut f = FloatingPointRegister::new();
    let mut csr = ControlAndStatusRegister::new();
    let mut bus = SystemBus::new(0);
    x.write_unsigned(1, a);
    x.write_unsigned(2, b);
    let i = Instruction::TypeR { opcode, rd: 3, funct3: 0, rs1: 1, rs2: 2, funct7: 1 };
    Rv64mExecutor::execute(i, &PrivilegeMode::Machine, &mut pc, &mut x, &mut f, &mut csr, &mut bus)
        .unwrap();
    x.read_unsigned(3)
}

#[test]
fn mulw_truncates_and_sign_extends() {
    assert_eq!(op(Rv64mOpcodeR::Mulw, 0x1_0000_0003, 0x4000_0000), 0xFFFF_FFFF_C000_0000);
    assert_eq!(op(Rv64mOpcodeR::Mulw, 6, 7), 42);
}

#[test]
fn divw_rounds_toward_zero() {
    assert_eq!(op(Rv64mOpcodeR::Divw, (-7i64) as u64, 2) as i64, -3);
    assert_eq!(op(Rv64mOpcodeR::Divw, 7, (-2i64) as u64) as i64, -3);
    assert_eq!(op(Rv64mOpcodeR::Remw, (-7i64) as u64, 2) as i64, -1);
    assert_eq!(op(Rv64mOpcodeR::Remw, 7, (-2i64) as u64) as i64, 1);
}

#[test]
fn division_by_zero_results() {
    assert_eq!(op(Rv64mOpcodeR::Divw, 5, 0), u64::MAX);
    assert_eq!(op(Rv64mOpcodeR::Divuw, 5, 0x1_0000_0000), u64::MAX);
    assert_eq!(op(Rv64mOpcodeR::Remw, 0x1_8000_0005, 0), 0xFFFF_FFFF_8000_0005);
    assert_eq!(op(Rv64mOpcodeR::Remuw, 9, 0), 9);
}

#[test]
fn signed_overflow_results() {
    let min = i32::MIN as i64 as u64;
    let minus_one = u64::MAX;
    assert_eq!(op(Rv64mOpcodeR::Divw, min, minus_one), min);
    assert_eq!(op(Rv64mOpcodeR::Remw, min, minus_one), 0);
}

#[test]
fn unsigned_word_division() {
    assert_eq!(op(Rv64mOpcodeR::Divuw, 0xFFFF_FFFF, 1), u64::MAX);
    assert_eq!(op(Rv64mOpcodeR::Divuw, 0xFFFF_FFFE, 2), 0x7FFF_FFFF);
    assert_eq!(op(Rv64mOpcodeR::Remuw, 0xFFFF_FFFF, 0x10), 0xF);
}

#[test]
fn rv64i_opcode_names() {
    assert_eq!(Rv64iOpcodeR::Sraw.name(), "Rv64i::Sraw");
    assert_eq!(Rv64iOpcodeI::Ld.name(), "Rv64i::Ld");
    assert_eq!(Rv64iOpcodeS::Sd.name(), "Rv64i::Sd");
}
