//! The instruction table: the static association between opcode byte values,
//! mnemonic names, and instruction lengths, shared by the assembler and the
//! execution engine.

use vstd::prelude::*;

verus! {

/// Opcode byte for the register-immediate `mov`.
pub const OP_MOV_RI: u8 = 0x01;
/// Opcode byte for the register-register `add`.
pub const OP_ADD_RR: u8 = 0x02;
/// Opcode byte for the register-register `sub`.
pub const OP_SUB_RR: u8 = 0x03;
/// Opcode byte for the unconditional jump.
pub const OP_JMP: u8 = 0x04;
/// Opcode byte for the jump taken when the zero flag is set.
pub const OP_JZ: u8 = 0x05;
/// Opcode byte for the jump taken when the zero flag is clear.
pub const OP_JNZ: u8 = 0x06;
/// Opcode byte for the register-immediate `cmp`.
pub const OP_CMP_RI: u8 = 0x07;
/// Opcode byte for the register-register `mov`.
pub const OP_MOV_RR: u8 = 0x08;
/// Opcode byte for the register-register `cmp`.
pub const OP_CMP_RR: u8 = 0x09;
/// Opcode byte for the register-immediate `add`.
pub const OP_ADD_RI: u8 = 0x0A;
/// Opcode byte for the register-immediate `sub`.
pub const OP_SUB_RI: u8 = 0x0B;
/// Opcode byte for `mul`.
pub const OP_MUL: u8 = 0x0C;
/// Opcode byte for `div`.
pub const OP_DIV: u8 = 0x0D;
/// Opcode byte for `call`.
pub const OP_CALL: u8 = 0x0E;
/// Opcode byte for `ret`.
pub const OP_RET: u8 = 0x0F;
/// Opcode byte for `hlt`.
pub const OP_HLT: u8 = 0xFF;

/// One entry of the instruction table. Register-register and
/// register-immediate forms of `mov`, `add`, `sub` and `cmp` are separate
/// variants with separate opcodes: neither the assembler nor the decoder
/// branches on an addressing-mode bit.
#[allow(non_camel_case_types)]
#[derive(Clone, Copy, PartialEq, Eq, Structural, Debug)]
pub enum Instruction {
    MOV_RI,
    MOV_RR,
    ADD_RR,
    ADD_RI,
    SUB_RR,
    SUB_RI,
    JMP,
    JZ,
    JNZ,
    CMP_RI,
    CMP_RR,
    MUL,
    DIV,
    CALL,
    RET,
    HLT,
}

impl Instruction {
    /// The opcode byte of this table entry.
    pub open spec fn opcode_spec(self) -> u8 {
        match self {
            Instruction::MOV_RI => OP_MOV_RI,
            Instruction::MOV_RR => OP_MOV_RR,
            Instruction::ADD_RR => OP_ADD_RR,
            Instruction::ADD_RI => OP_ADD_RI,
            Instruction::SUB_RR => OP_SUB_RR,
            Instruction::SUB_RI => OP_SUB_RI,
            Instruction::JMP => OP_JMP,
            Instruction::JZ => OP_JZ,
            Instruction::JNZ => OP_JNZ,
            Instruction::CMP_RI => OP_CMP_RI,
            Instruction::CMP_RR => OP_CMP_RR,
            Instruction::MUL => OP_MUL,
            Instruction::DIV => OP_DIV,
            Instruction::CALL => OP_CALL,
            Instruction::RET => OP_RET,
            Instruction::HLT => OP_HLT,
        }
    }

    /// The opcode byte of this table entry.
    pub fn opcode(self) -> (b: u8)
        ensures
            b == self.opcode_spec(),
    {
        match self {
            Instruction::MOV_RI => OP_MOV_RI,
            Instruction::MOV_RR => OP_MOV_RR,
            Instruction::ADD_RR => OP_ADD_RR,
            Instruction::ADD_RI => OP_ADD_RI,
            Instruction::SUB_RR => OP_SUB_RR,
            Instruction::SUB_RI => OP_SUB_RI,
            Instruction::JMP => OP_JMP,
            Instruction::JZ => OP_JZ,
            Instruction::JNZ => OP_JNZ,
            Instruction::CMP_RI => OP_CMP_RI,
            Instruction::CMP_RR => OP_CMP_RR,
            Instruction::MUL => OP_MUL,
            Instruction::DIV => OP_DIV,
            Instruction::CALL => OP_CALL,
            Instruction::RET => OP_RET,
            Instruction::HLT => OP_HLT,
        }
    }

    /// The diagnostic name for an opcode byte; `"???"` when the byte matches
    /// no table entry.
    pub open spec fn spec_opcode_name(op: u8) -> Seq<char> {
        if op == OP_MOV_RI || op == OP_MOV_RR {
            "MOV"@
        } else if op == OP_ADD_RR || op == OP_ADD_RI {
            "ADD"@
        } else if op == OP_SUB_RR || op == OP_SUB_RI {
            "SUB"@
        } else if op == OP_JMP {
            "JMP"@
        } else if op == OP_JZ {
            "JZ"@
        } else if op == OP_JNZ {
            "JNZ"@
        } else if op == OP_CMP_RI || op == OP_CMP_RR {
            "CMP"@
        } else if op == OP_MUL {
            "MUL"@
        } else if op == OP_DIV {
            "DIV"@
        } else if op == OP_CALL {
            "CALL"@
        } else if op == OP_RET {
            "RET"@
        } else if op == OP_HLT {
            "HLT"@
        } else {
            "???"@
        }
    }

    /// The diagnostic name for an opcode byte.
    pub fn opcode_name(op: u8) -> (name: &'static str)
        ensures
            name@ == Instruction::spec_opcode_name(op),
    {
        if op == OP_MOV_RI || op == OP_MOV_RR {
            "MOV"
        } else if op == OP_ADD_RR || op == OP_ADD_RI {
            "ADD"
        } else if op == OP_SUB_RR || op == OP_SUB_RI {
            "SUB"
        } else if op == OP_JMP {
            "JMP"
        } else if op == OP_JZ {
            "JZ"
        } else if op == OP_JNZ {
            "JNZ"
        } else if op == OP_CMP_RI || op == OP_CMP_RR {
            "CMP"
        } else if op == OP_MUL {
            "MUL"
        } else if op == OP_DIV {
            "DIV"
        } else if op == OP_CALL {
            "CALL"
        } else if op == OP_RET {
            "RET"
        } else if op == OP_HLT {
            "HLT"
        } else {
            "???"
        }
    }
}

} // verus!
