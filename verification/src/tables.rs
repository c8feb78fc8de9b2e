//! The fixed symbol tables of the instruction set: mnemonic descriptors,
//! register names, and the format each opcode belongs to.

use vstd::prelude::*;

use crate::errors::AssemblerError;
use crate::text::str_eq;

verus! {

pub const OPCODE_ARITHMETIC: u32 = 0x33;

pub const OPCODE_ARITHMETIC_IMM: u32 = 0x13;

pub const OPCODE_LOAD: u32 = 0x03;

pub const OPCODE_STORE: u32 = 0x23;

pub const OPCODE_BRANCH: u32 = 0x63;

pub const OPCODE_JAL: u32 = 0x6F;

pub const OPCODE_JALR: u32 = 0x67;

pub const OPCODE_LUI: u32 = 0x37;

pub const OPCODE_AUIPC: u32 = 0x17;

/// The six instruction formats, each with its own operand fields and its
/// own immediate bit layout.  The format is a function of the opcode alone.
#[derive(Clone, Copy, Debug, PartialEq, Eq, Structural)]
pub enum InstructionFormat {
    Itype,
    Rtype,
    Jtype,
    Utype,
    Stype,
    Btype,
}

/// The format of each known opcode; `None` for anything outside the table.
pub open spec fn spec_format_of(opcode: u32) -> Option<InstructionFormat> {
    if opcode == OPCODE_ARITHMETIC_IMM || opcode == OPCODE_JALR || opcode == OPCODE_LOAD {
        Some(InstructionFormat::Itype)
    } else if opcode == OPCODE_ARITHMETIC {
        Some(InstructionFormat::Rtype)
    } else if opcode == OPCODE_JAL {
        Some(InstructionFormat::Jtype)
    } else if opcode == OPCODE_LUI || opcode == OPCODE_AUIPC {
        Some(InstructionFormat::Utype)
    } else if opcode == OPCODE_BRANCH {
        Some(InstructionFormat::Btype)
    } else if opcode == OPCODE_STORE {
        Some(InstructionFormat::Stype)
    } else {
        None
    }
}

/// Classify an opcode by its instruction format.
pub fn format_of(opcode: u32) -> (r: Option<InstructionFormat>)
    ensures
        r == spec_format_of(opcode),
{
    if opcode == OPCODE_ARITHMETIC_IMM || opcode == OPCODE_JALR || opcode == OPCODE_LOAD {
        Some(InstructionFormat::Itype)
    } else if opcode == OPCODE_ARITHMETIC {
        Some(InstructionFormat::Rtype)
    } else if opcode == OPCODE_JAL {
        Some(InstructionFormat::Jtype)
    } else if opcode == OPCODE_LUI || opcode == OPCODE_AUIPC {
        Some(InstructionFormat::Utype)
    } else if opcode == OPCODE_BRANCH {
        Some(InstructionFormat::Btype)
    } else if opcode == OPCODE_STORE {
        Some(InstructionFormat::Stype)
    } else {
        None
    }
}

/// The numeric fields of one base mnemonic: its opcode and, where the
/// format carries them, func3 and func7.
#[derive(Clone, Copy, Debug, PartialEq, Eq, Structural)]
pub struct MnemonicInfo {
    pub opcode: u32,
    pub func3: u32,
    pub func7: u32,
}

/// The descriptor of each base mnemonic; `None` for an unknown name.
pub open spec fn spec_lookup_mnemonic(m: Seq<char>) -> Option<MnemonicInfo> {
    if m == "add"@ {
        Some(MnemonicInfo { opcode: OPCODE_ARITHMETIC, func3: 0, func7: 0x00 })
    } else if m == "sub"@ {
        Some(MnemonicInfo { opcode: OPCODE_ARITHMETIC, func3: 0, func7: 0x20 })
    } else if m == "sll"@ {
        Some(MnemonicInfo { opcode: OPCODE_ARITHMETIC, func3: 1, func7: 0x00 })
    } else if m == "slt"@ {
        Some(MnemonicInfo { opcode: OPCODE_ARITHMETIC, func3: 2, func7: 0x00 })
    } else if m == "sltu"@ {
        Some(MnemonicInfo { opcode: OPCODE_ARITHMETIC, func3: 3, func7: 0x00 })
    } else if m == "xor"@ {
        Some(MnemonicInfo { opcode: OPCODE_ARITHMETIC, func3: 4, func7: 0x00 })
    } else if m == "srl"@ {
        Some(MnemonicInfo { opcode: OPCODE_ARITHMETIC, func3: 5, func7: 0x00 })
    } else if m == "sra"@ {
        Some(MnemonicInfo { opcode: OPCODE_ARITHMETIC, func3: 5, func7: 0x20 })
    } else if m == "or"@ {
        Some(MnemonicInfo { opcode: OPCODE_ARITHMETIC, func3: 6, func7: 0x00 })
    } else if m == "and"@ {
        Some(MnemonicInfo { opcode: OPCODE_ARITHMETIC, func3: 7, func7: 0x00 })
    } else if m == "addi"@ {
        Some(MnemonicInfo { opcode: OPCODE_ARITHMETIC_IMM, func3: 0, func7: 0x00 })
    } else if m == "slti"@ {
        Some(MnemonicInfo { opcode: OPCODE_ARITHMETIC_IMM, func3: 2, func7: 0x00 })
    } else if m == "sltiu"@ {
        Some(MnemonicInfo { opcode: OPCODE_ARITHMETIC_IMM, func3: 3, func7: 0x00 })
    } else if m == "xori"@ {
        Some(MnemonicInfo { opcode: OPCODE_ARITHMETIC_IMM, func3: 4, func7: 0x00 })
    } else if m == "ori"@ {
        Some(MnemonicInfo { opcode: OPCODE_ARITHMETIC_IMM, func3: 6, func7: 0x00 })
    } else if m == "andi"@ {
        Some(MnemonicInfo { opcode: OPCODE_ARITHMETIC_IMM, func3: 7, func7: 0x00 })
    } else if m == "slli"@ {
        Some(MnemonicInfo { opcode: OPCODE_ARITHMETIC_IMM, func3: 1, func7: 0x00 })
    } else if m == "srli"@ {
        Some(MnemonicInfo { opcode: OPCODE_ARITHMETIC_IMM, func3: 5, func7: 0x00 })
    } else if m == "srai"@ {
        Some(MnemonicInfo { opcode: OPCODE_ARITHMETIC_IMM, func3: 5, func7: 0x00 })
    } else if m == "lb"@ {
        Some(MnemonicInfo { opcode: OPCODE_LOAD, func3: 0, func7: 0x00 })
    } else if m == "lh"@ {
        Some(MnemonicInfo { opcode: OPCODE_LOAD, func3: 1, func7: 0x00 })
    } else if m == "lw"@ {
        Some(MnemonicInfo { opcode: OPCODE_LOAD, func3: 2, func7: 0x00 })
    } else if m == "lbu"@ {
        Some(MnemonicInfo { opcode: OPCODE_LOAD, func3: 4, func7: 0x00 })
    } else if m == "lhu"@ {
        Some(MnemonicInfo { opcode: OPCODE_LOAD, func3: 5, func7: 0x00 })
    } else if m == "sb"@ {
        Some(MnemonicInfo { opcode: OPCODE_STORE, func3: 0, func7: 0x00 })
    } else if m == "sh"@ {
        Some(MnemonicInfo { opcode: OPCODE_STORE, func3: 1, func7: 0x00 })
    } else if m == "sw"@ {
        Some(MnemonicInfo { opcode: OPCODE_STORE, func3: 2, func7: 0x00 })
    } else if m == "beq"@ {
        Some(MnemonicInfo { opcode: OPCODE_BRANCH, func3: 0, func7: 0x00 })
    } else if m == "bne"@ {
        Some(MnemonicInfo { opcode: OPCODE_BRANCH, func3: 1, func7: 0x00 })
    } else if m == "blt"@ {
        Some(MnemonicInfo { opcode: OPCODE_BRANCH, func3: 4, func7: 0x00 })
    } else if m == "bge"@ {
        Some(MnemonicInfo { opcode: OPCODE_BRANCH, func3: 5, func7: 0x00 })
    } else if m == "bltu"@ {
        Some(MnemonicInfo { opcode: OPCODE_BRANCH, func3: 6, func7: 0x00 })
    } else if m == "bgeu"@ {
        Some(MnemonicInfo { opcode: OPCODE_BRANCH, func3: 7, func7: 0x00 })
    } else if m == "jal"@ {
        Some(MnemonicInfo { opcode: OPCODE_JAL, func3: 0, func7: 0x00 })
    } else if m == "jalr"@ {
        Some(MnemonicInfo { opcode: OPCODE_JALR, func3: 0, func7: 0x00 })
    } else if m == "lui"@ {
        Some(MnemonicInfo { opcode: OPCODE_LUI, func3: 0, func7: 0x00 })
    } else if m == "auipc"@ {
        Some(MnemonicInfo { opcode: OPCODE_AUIPC, func3: 0, func7: 0x00 })
    } else {
        None
    }
}

/// Look a base mnemonic up in the descriptor table.
pub fn lookup_mnemonic(m: &str) -> (r: Result<MnemonicInfo, AssemblerError>)
    ensures
        r == match spec_lookup_mnemonic(m@) {
            Some(d) => Ok::<MnemonicInfo, AssemblerError>(d),
            None => Err::<MnemonicInfo, AssemblerError>(AssemblerError::UnknownMnemonicError),
        },
{
    if str_eq(m, "add") {
        Ok(MnemonicInfo { opcode: OPCODE_ARITHMETIC, func3: 0, func7: 0x00 })
    } else if str_eq(m, "sub") {
        Ok(MnemonicInfo { opcode: OPCODE_ARITHMETIC, func3: 0, func7: 0x20 })
    } else if str_eq(m, "sll") {
        Ok(MnemonicInfo { opcode: OPCODE_ARITHMETIC, func3: 1, func7: 0x00 })
    } else if str_eq(m, "slt") {
        Ok(MnemonicInfo { opcode: OPCODE_ARITHMETIC, func3: 2, func7: 0x00 })
    } else if str_eq(m, "sltu") {
        Ok(MnemonicInfo { opcode: OPCODE_ARITHMETIC, func3: 3, func7: 0x00 })
    } else if str_eq(m, "xor") {
        Ok(MnemonicInfo { opcode: OPCODE_ARITHMETIC, func3: 4, func7: 0x00 })
    } else if str_eq(m, "srl") {
        Ok(MnemonicInfo { opcode: OPCODE_ARITHMETIC, func3: 5, func7: 0x00 })
    } else if str_eq(m, "sra") {
        Ok(MnemonicInfo { opcode: OPCODE_ARITHMETIC, func3: 5, func7: 0x20 })
    } else if str_eq(m, "or") {
        Ok(MnemonicInfo { opcode: OPCODE_ARITHMETIC, func3: 6, func7: 0x00 })
    } else if str_eq(m, "and") {
        Ok(MnemonicInfo { opcode: OPCODE_ARITHMETIC, func3: 7, func7: 0x00 })
    } else if str_eq(m, "addi") {
        Ok(MnemonicInfo { opcode: OPCODE_ARITHMETIC_IMM, func3: 0, func7: 0x00 })
    } else if str_eq(m, "slti") {
        Ok(MnemonicInfo { opcode: OPCODE_ARITHMETIC_IMM, func3: 2, func7: 0x00 })
    } else if str_eq(m, "sltiu") {
        Ok(MnemonicInfo { opcode: OPCODE_ARITHMETIC_IMM, func3: 3, func7: 0x00 })
    } else if str_eq(m, "xori") {
        Ok(MnemonicInfo { opcode: OPCODE_ARITHMETIC_IMM, func3: 4, func7: 0x00 })
    } else if str_eq(m, "ori") {
        Ok(MnemonicInfo { opcode: OPCODE_ARITHMETIC_IMM, func3: 6, func7: 0x00 })
    } else if str_eq(m, "andi") {
        Ok(MnemonicInfo { opcode: OPCODE_ARITHMETIC_IMM, func3: 7, func7: 0x00 })
    } else if str_eq(m, "slli") {
        Ok(MnemonicInfo { opcode: OPCODE_ARITHMETIC_IMM, func3: 1, func7: 0x00 })
    } else if str_eq(m, "srli") {
        Ok(MnemonicInfo { opcode: OPCODE_ARITHMETIC_IMM, func3: 5, func7: 0x00 })
    } else if str_eq(m, "srai") {
        Ok(MnemonicInfo { opcode: OPCODE_ARITHMETIC_IMM, func3: 5, func7: 0x00 })
    } else if str_eq(m, "lb") {
        Ok(MnemonicInfo { opcode: OPCODE_LOAD, func3: 0, func7: 0x00 })
    } else if str_eq(m, "lh") {
        Ok(MnemonicInfo { opcode: OPCODE_LOAD, func3: 1, func7: 0x00 })
    } else if str_eq(m, "lw") {
        Ok(MnemonicInfo { opcode: OPCODE_LOAD, func3: 2, func7: 0x00 })
    } else if str_eq(m, "lbu") {
        Ok(MnemonicInfo { opcode: OPCODE_LOAD, func3: 4, func7: 0x00 })
    } else if str_eq(m, "lhu") {
        Ok(MnemonicInfo { opcode: OPCODE_LOAD, func3: 5, func7: 0x00 })
    } else if str_eq(m, "sb") {
        Ok(MnemonicInfo { opcode: OPCODE_STORE, func3: 0, func7: 0x00 })
    } else if str_eq(m, "sh") {
        Ok(MnemonicInfo { opcode: OPCODE_STORE, func3: 1, func7: 0x00 })
    } else if str_eq(m, "sw") {
        Ok(MnemonicInfo { opcode: OPCODE_STORE, func3: 2, func7: 0x00 })
    } else if str_eq(m, "beq") {
        Ok(MnemonicInfo { opcode: OPCODE_BRANCH, func3: 0, func7: 0x00 })
    } else if str_eq(m, "bne") {
        Ok(MnemonicInfo { opcode: OPCODE_BRANCH, func3: 1, func7: 0x00 })
    } else if str_eq(m, "blt") {
        Ok(MnemonicInfo { opcode: OPCODE_BRANCH, func3: 4, func7: 0x00 })
    } else if str_eq(m, "bge") {
        Ok(MnemonicInfo { opcode: OPCODE_BRANCH, func3: 5, func7: 0x00 })
    } else if str_eq(m, "bltu") {
        Ok(MnemonicInfo { opcode: OPCODE_BRANCH, func3: 6, func7: 0x00 })
    } else if str_eq(m, "bgeu") {
        Ok(MnemonicInfo { opcode: OPCODE_BRANCH, func3: 7, func7: 0x00 })
    } else if str_eq(m, "jal") {
        Ok(MnemonicInfo { opcode: OPCODE_JAL, func3: 0, func7: 0x00 })
    } else if str_eq(m, "jalr") {
        Ok(MnemonicInfo { opcode: OPCODE_JALR, func3: 0, func7: 0x00 })
    } else if str_eq(m, "lui") {
        Ok(MnemonicInfo { opcode: OPCODE_LUI, func3: 0, func7: 0x00 })
    } else if str_eq(m, "auipc") {
        Ok(MnemonicInfo { opcode: OPCODE_AUIPC, func3: 0, func7: 0x00 })
    } else {
        Err(AssemblerError::UnknownMnemonicError)
    }
}

/// Every descriptor in the table is well formed: the opcode is 7 bits and
/// has a format, func3 is 3 bits and func7 is 7 bits.
pub proof fn lemma_mnemonic_info_bounds(m: Seq<char>)
    ensures
        match spec_lookup_mnemonic(m) {
            Some(d) => d.opcode < 0x80 && d.func3 < 8 && d.func7 < 0x80
                && spec_format_of(d.opcode) is Some,
            None => true,
        },
{
}

/// The index of each register name, numeric or ABI alias; `None` for an
/// unknown name.
pub open spec fn spec_register_of(name: Seq<char>) -> Option<u32> {
    if name == "x0"@ {
        Some(0)
    } else if name == "x1"@ {
        Some(1)
    } else if name == "x2"@ {
        Some(2)
    } else if name == "x3"@ {
        Some(3)
    } else if name == "x4"@ {
        Some(4)
    } else if name == "x5"@ {
        Some(5)
    } else if name == "x6"@ {
        Some(6)
    } else if name == "x7"@ {
        Some(7)
    } else if name == "x8"@ {
        Some(8)
    } else if name == "x9"@ {
        Some(9)
    } else if name == "x10"@ {
        Some(10)
    } else if name == "x11"@ {
        Some(11)
    } else if name == "x12"@ {
        Some(12)
    } else if name == "x13"@ {
        Some(13)
    } else if name == "x14"@ {
        Some(14)
    } else if name == "x15"@ {
        Some(15)
    } else if name == "x16"@ {
        Some(16)
    } else if name == "x17"@ {
        Some(17)
    } else if name == "x18"@ {
        Some(18)
    } else if name == "x19"@ {
        Some(19)
    } else if name == "x20"@ {
        Some(20)
    } else if name == "x21"@ {
        Some(21)
    } else if name == "x22"@ {
        Some(22)
    } else if name == "x23"@ {
        Some(23)
    } else if name == "x24"@ {
        Some(24)
    } else if name == "x25"@ {
        Some(25)
    } else if name == "x26"@ {
        Some(26)
    } else if name == "x27"@ {
        Some(27)
    } else if name == "x28"@ {
        Some(28)
    } else if name == "x29"@ {
        Some(29)
    } else if name == "x30"@ {
        Some(30)
    } else if name == "x31"@ {
        Some(31)
    } else if name == "zero"@ {
        Some(0)
    } else if name == "ra"@ {
        Some(1)
    } else if name == "sp"@ {
        Some(2)
    } else if name == "gp"@ {
        Some(3)
    } else if name == "tp"@ {
        Some(4)
    } else if name == "t0"@ {
        Some(5)
    } else if name == "t1"@ {
        Some(6)
    } else if name == "t2"@ {
        Some(7)
    } else if name == "s0"@ {
        Some(8)
    } else if name == "fp"@ {
        Some(8)
    } else if name == "s1"@ {
        Some(9)
    } else if name == "a0"@ {
        Some(10)
    } else if name == "a1"@ {
        Some(11)
    } else if name == "a2"@ {
        Some(12)
    } else if name == "a3"@ {
        Some(13)
    } else if name == "a4"@ {
        Some(14)
    } else if name == "a5"@ {
        Some(15)
    } else if name == "a6"@ {
        Some(16)
    } else if name == "a7"@ {
        Some(17)
    } else if name == "s2"@ {
        Some(18)
    } else if name == "s3"@ {
        Some(19)
    } else if name == "s4"@ {
        Some(20)
    } else if name == "s5"@ {
        Some(21)
    } else if name == "s6"@ {
        Some(22)
    } else if name == "s7"@ {
        Some(23)
    } else if name == "s8"@ {
        Some(24)
    } else if name == "s9"@ {
        Some(25)
    } else if name == "s10"@ {
        Some(26)
    } else if name == "s11"@ {
        Some(27)
    } else if name == "t3"@ {
        Some(28)
    } else if name == "t4"@ {
        Some(29)
    } else if name == "t5"@ {
        Some(30)
    } else if name == "t6"@ {
        Some(31)
    } else {
        None
    }
}

/// Resolve a register name, numeric (`x0`..`x31`) or ABI alias, to its
/// 5-bit index.  An unknown name is an error, never a silent default.
pub fn match_register(name: &str) -> (r: Result<u32, AssemblerError>)
    ensures
        r == match spec_register_of(name@) {
            Some(i) => Ok::<u32, AssemblerError>(i),
            None => Err::<u32, AssemblerError>(AssemblerError::UnknownRegisterError),
        },
        r is Ok ==> r.unwrap() < 32,
{
    if str_eq(name, "x0") {
        Ok(0)
    } else if str_eq(name, "x1") {
        Ok(1)
    } else if str_eq(name, "x2") {
        Ok(2)
    } else if str_eq(name, "x3") {
        Ok(3)
    } else if str_eq(name, "x4") {
        Ok(4)
    } else if str_eq(name, "x5") {
        Ok(5)
    } else if str_eq(name, "x6") {
        Ok(6)
    } else if str_eq(name, "x7") {
        Ok(7)
    } else if str_eq(name, "x8") {
        Ok(8)
    } else if str_eq(name, "x9") {
        Ok(9)
    } else if str_eq(name, "x10") {
        Ok(10)
    } else if str_eq(name, "x11") {
        Ok(11)
    } else if str_eq(name, "x12") {
        Ok(12)
    } else if str_eq(name, "x13") {
        Ok(13)
    } else if str_eq(name, "x14") {
        Ok(14)
    } else if str_eq(name, "x15") {
        Ok(15)
    } else if str_eq(name, "x16") {
        Ok(16)
    } else if str_eq(name, "x17") {
        Ok(17)
    } else if str_eq(name, "x18") {
        Ok(18)
    } else if str_eq(name, "x19") {
        Ok(19)
    } else if str_eq(name, "x20") {
        Ok(20)
    } else if str_eq(name, "x21") {
        Ok(21)
    } else if str_eq(name, "x22") {
        Ok(22)
    } else if str_eq(name, "x23") {
        Ok(23)
    } else if str_eq(name, "x24") {
        Ok(24)
    } else if str_eq(name, "x25") {
        Ok(25)
    } else if str_eq(name, "x26") {
        Ok(26)
    } else if str_eq(name, "x27") {
        Ok(27)
    } else if str_eq(name, "x28") {
        Ok(28)
    } else if str_eq(name, "x29") {
        Ok(29)
    } else if str_eq(name, "x30") {
        Ok(30)
    } else if str_eq(name, "x31") {
        Ok(31)
    } else if str_eq(name, "zero") {
        Ok(0)
    } else if str_eq(name, "ra") {
        Ok(1)
    } else if str_eq(name, "sp") {
        Ok(2)
    } else if str_eq(name, "gp") {
        Ok(3)
    } else if str_eq(name, "tp") {
        Ok(4)
    } else if str_eq(name, "t0") {
        Ok(5)
    } else if str_eq(name, "t1") {
        Ok(6)
    } else if str_eq(name, "t2") {
        Ok(7)
    } else if str_eq(name, "s0") {
        Ok(8)
    } else if str_eq(name, "fp") {
        Ok(8)
    } else if str_eq(name, "s1") {
        Ok(9)
    } else if str_eq(name, "a0") {
        Ok(10)
    } else if str_eq(name, "a1") {
        Ok(11)
    } else if str_eq(name, "a2") {
        Ok(12)
    } else if str_eq(name, "a3") {
        Ok(13)
    } else if str_eq(name, "a4") {
        Ok(14)
    } else if str_eq(name, "a5") {
        Ok(15)
    } else if str_eq(name, "a6") {
        Ok(16)
    } else if str_eq(name, "a7") {
        Ok(17)
    } else if str_eq(name, "s2") {
        Ok(18)
    } else if str_eq(name, "s3") {
        Ok(19)
    } else if str_eq(name, "s4") {
        Ok(20)
    } else if str_eq(name, "s5") {
        Ok(21)
    } else if str_eq(name, "s6") {
        Ok(22)
    } else if str_eq(name, "s7") {
        Ok(23)
    } else if str_eq(name, "s8") {
        Ok(24)
    } else if str_eq(name, "s9") {
        Ok(25)
    } else if str_eq(name, "s10") {
        Ok(26)
    } else if str_eq(name, "s11") {
        Ok(27)
    } else if str_eq(name, "t3") {
        Ok(28)
    } else if str_eq(name, "t4") {
        Ok(29)
    } else if str_eq(name, "t5") {
        Ok(30)
    } else if str_eq(name, "t6") {
        Ok(31)
    } else {
        Err(AssemblerError::UnknownRegisterError)
    }
}

/// Every index in the register table is five bits wide.
pub proof fn lemma_register_bounds(name: Seq<char>)
    ensures
        match spec_register_of(name) {
            Some(i) => i < 32,
            None => true,
        },
{
}

} // verus!
