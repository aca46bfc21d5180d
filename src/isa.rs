use vstd::prelude::*;

verus! {

/// Exceptions an executor reports back to the fetch loop.
#[derive(Debug, Clone, Copy, PartialEq, Eq, Structural)]
pub enum Cause {
    IllegalInstruction,
    LoadAccessFault,
    StoreAccessFault,
}

/// Privilege level the hart runs at when an instruction executes.
#[derive(Debug, Clone, Copy, PartialEq, Eq, Structural)]
pub enum PrivilegeMode {
    User,
    Supervisor,
    Machine,
}

/// A decoded instruction of one of the six RISC-V encoding shapes. Register
/// indices are plain numbers, immediates are already sign-extended (U-type
/// immediates already shifted into the upper 20 bits). An extension without
/// instructions of some shape uses `()` as that shape's opcode type.
#[derive(Debug, Clone, Copy)]
pub enum Instruction<R, I, S, B, U, J> {
    TypeR { opcode: R, rd: usize, funct3: usize, rs1: usize, rs2: usize, funct7: usize },
    TypeI { opcode: I, rd: usize, funct3: usize, rs1: usize, imm: i32 },
    TypeS { opcode: S, funct3: usize, rs1: usize, rs2: usize, imm: i32 },
    TypeB { opcode: B, funct3: usize, rs1: usize, rs2: usize, imm: i32 },
    TypeU { opcode: U, rd: usize, imm: i32 },
    TypeJ { opcode: J, rd: usize, imm: i32 },
}

impl<R, I, S, B, U, J> Instruction<R, I, S, B, U, J> {
    /// Every register index names one of the 32 architectural registers.
    pub open spec fn wf(self) -> bool {
        match self {
            Instruction::TypeR { rd, rs1, rs2, .. } => rd < 32 && rs1 < 32 && rs2 < 32,
            Instruction::TypeI { rd, rs1, .. } => rd < 32 && rs1 < 32,
            Instruction::TypeS { rs1, rs2, .. } => rs1 < 32 && rs2 < 32,
            Instruction::TypeB { rs1, rs2, .. } => rs1 < 32 && rs2 < 32,
            Instruction::TypeU { rd, .. } => rd < 32,
            Instruction::TypeJ { rd, .. } => rd < 32,
        }
    }
}

#[derive(Debug, Clone, Copy, PartialEq, Eq, Structural)]
pub enum Rv32iOpcodeR {
    Sll,
    Srl,
    Sra,
    Add,
    Sub,
    Xor,
    Or,
    And,
    Slt,
    Sltu,
}

#[derive(Debug, Clone, Copy, PartialEq, Eq, Structural)]
pub enum Rv32iOpcodeI {
    Slli,
    Srli,
    Srai,
    Addi,
    Xori,
    Ori,
    Andi,
    Slti,
    Sltiu,
    Jalr,
    Fence,
    FenceI,
    Ecall,
    Ebreak,
    Csrrw,
    Csrrs,
    Csrrc,
    Csrrwi,
    Csrrsi,
    Csrrci,
    Lb,
    Lh,
    Lbu,
    Lhu,
    Lw,
}

#[derive(Debug, Clone, Copy, PartialEq, Eq, Structural)]
pub enum Rv32iOpcodeS {
    Sb,
    Sh,
    Sw,
}

#[derive(Debug, Clone, Copy, PartialEq, Eq, Structural)]
pub enum Rv32iOpcodeB {
    Beq,
    Bne,
    Blt,
    Bge,
    Bltu,
    Bgeu,
}

#[derive(Debug, Clone, Copy, PartialEq, Eq, Structural)]
pub enum Rv32iOpcodeU {
    Lui,
    Auipc,
}

#[derive(Debug, Clone, Copy, PartialEq, Eq, Structural)]
pub enum Rv32iOpcodeJ {
    Jal,
}

#[derive(Debug, Clone, Copy, PartialEq, Eq, Structural)]
pub enum Rv64mOpcodeR {
    Mulw,
    Divw,
    Divuw,
    Remw,
    Remuw,
}

#[derive(Debug, Clone, Copy, PartialEq, Eq, Structural)]
pub enum Rv32fOpcodeR {
    FmaddS,
    FmsubS,
    FnmsubS,
    FnmaddS,
    FaddS,
    FsubS,
    FmulS,
    FdivS,
    FsqrtS,
    FsgnjS,
    FsgnjnS,
    FsgnjxS,
    FminS,
    FmaxS,
    FcvtWs,
    FcvtWuS,
    FmvXw,
    FeqS,
    FltS,
    FleS,
    FclassS,
    FcvtSw,
    FcvtSWu,
    FmvWx,
}

#[derive(Debug, Clone, Copy, PartialEq, Eq, Structural)]
pub enum Rv32fOpcodeI {
    Flw,
}

#[derive(Debug, Clone, Copy, PartialEq, Eq, Structural)]
pub enum Rv32fOpcodeS {
    Fsw,
}

#[derive(Debug, Clone, Copy, PartialEq, Eq, Structural)]
pub enum Rv64iOpcodeR {
    Sllw,
    Srlw,
    Sraw,
    Addw,
    Subw,
}

impl Rv64iOpcodeR {
    pub open spec fn spec_name(self) -> Seq<char> {
        match self {
            Rv64iOpcodeR::Sllw => "Rv64i::Sllw"@,
            Rv64iOpcodeR::Srlw => "Rv64i::Srlw"@,
            Rv64iOpcodeR::Sraw => "Rv64i::Sraw"@,
            Rv64iOpcodeR::Addw => "Rv64i::Addw"@,
            Rv64iOpcodeR::Subw => "Rv64i::Subw"@,
        }
    }

    /// The opcode's printed name.
    pub fn name(&self) -> (r: &'static str)
        ensures
            r@ == self.spec_name(),
    {
        match self {
            Rv64iOpcodeR::Sllw => "Rv64i::Sllw",
            Rv64iOpcodeR::Srlw => "Rv64i::Srlw",
            Rv64iOpcodeR::Sraw => "Rv64i::Sraw",
            Rv64iOpcodeR::Addw => "Rv64i::Addw",
            Rv64iOpcodeR::Subw => "Rv64i::Subw",
        }
    }
}

#[derive(Debug, Clone, Copy, PartialEq, Eq, Structural)]
pub enum Rv64iOpcodeI {
    Slliw,
    Srliw,
    Sraiw,
    Addiw,
    Lwu,
    Ld,
}

impl Rv64iOpcodeI {
    pub open spec fn spec_name(self) -> Seq<char> {
        match self {
            Rv64iOpcodeI::Slliw => "Rv64i::Slliw"@,
            Rv64iOpcodeI::Srliw => "Rv64i::Srliw"@,
            Rv64iOpcodeI::Sraiw => "Rv64i::Sraiw"@,
            Rv64iOpcodeI::Addiw => "Rv64i::Addiw"@,
            Rv64iOpcodeI::Lwu => "Rv64i::Lwu"@,
            Rv64iOpcodeI::Ld => "Rv64i::Ld"@,
        }
    }

    /// The opcode's printed name.
    pub fn name(&self) -> (r: &'static str)
        ensures
            r@ == self.spec_name(),
    {
        match self {
            Rv64iOpcodeI::Slliw => "Rv64i::Slliw",
            Rv64iOpcodeI::Srliw => "Rv64i::Srliw",
            Rv64iOpcodeI::Sraiw => "Rv64i::Sraiw",
            Rv64iOpcodeI::Addiw => "Rv64i::Addiw",
            Rv64iOpcodeI::Lwu => "Rv64i::Lwu",
            Rv64iOpcodeI::Ld => "Rv64i::Ld",
        }
    }
}

#[derive(Debug, Clone, Copy, PartialEq, Eq, Structural)]
pub enum Rv64iOpcodeS {
    Sd,
}

impl Rv64iOpcodeS {
    pub open spec fn spec_name(self) -> Seq<char> {
        "Rv64i::Sd"@
    }

    /// The opcode's printed name.
    pub fn name(&self) -> (r: &'static str)
        ensures
            r@ == self.spec_name(),
    {
        "Rv64i::Sd"
    }
}

} // verus!
