use crate::context::Context;
use crate::error::Error;
use crate::gas_schedule::{G_BASE, G_HIGH, G_LOW, G_MID, G_VERY_LOW, G_ZERO};
use crate::interpreter::{Memory, Stack, StackError, MAXIMUM_STACK_SIZE};
use crate::primitives::{be_value, word_modulus, Word};
use vstd::prelude::*;

verus! {

/// One instruction of the machine. Push instructions carry their immediate bytes.
#[derive(Clone, Copy, Debug, PartialEq, Eq)]
pub enum Operation {
    Stop,
    Add,
    Mul,
    Sub,
    Div,
    Sdiv,
    Mod,
    SMod,
    Addmod,
    Mulmod,
    Exp,
    SignExtend,
    Lt,
    Gt,
    Slt,
    Sgt,
    Eq,
    IsZero,
    And,
    Or,
    Xor,
    Not,
    Byte,
    Shl,
    Shr,
    Sar,
    Keccack256,
    Address,
    Balance,
    Origin,
    Caller,
    CallValue,
    CallDataLoad,
    CallDataSize,
    CallDataCopy,
    CodeSize,
    CodeCopy,
    GasPrice,
    ExtCodeSize,
    ExtCodeCopy,
    ReturnDataSize,
    ReturnDataCopy,
    ExtCodeHash,
    Blockhash,
    Coinbase,
    Timestamp,
    Number,
    PrevRandao,
    GasLimit,
    ChainId,
    SelfBalance,
    BaseFee,
    Pop,
    Mload,
    Mstore,
    MStore8,
    Sload,
    SStore,
    Jump,
    JumpI,
    Pc,
    MSize,
    Gas,
    JumpDest,
    Push0,
    Push1(u8),
    Push2([u8; 2]),
    Push3([u8; 3]),
    Push4([u8; 4]),
    Push5([u8; 5]),
    Push6([u8; 6]),
    Push7([u8; 7]),
    Push8([u8; 8]),
    Push9([u8; 9]),
    Push10([u8; 10]),
    Push11([u8; 11]),
    Push12([u8; 12]),
    Push13([u8; 13]),
    Push14([u8; 14]),
    Push15([u8; 15]),
    Push16([u8; 16]),
    Push17([u8; 17]),
    Push18([u8; 18]),
    Push19([u8; 19]),
    Push20([u8; 20]),
    Push21([u8; 21]),
    Push22([u8; 22]),
    Push23([u8; 23]),
    Push24([u8; 24]),
    Push25([u8; 25]),
    Push26([u8; 26]),
    Push27([u8; 27]),
    Push28([u8; 28]),
    Push29([u8; 29]),
    Push30([u8; 30]),
    Push31([u8; 31]),
    Push32([u8; 32]),
    Dup1,
    Dup2,
    Dup3,
    Dup4,
    Dup5,
    Dup6,
    Dup7,
    Dup8,
    Dup9,
    Dup10,
    Dup11,
    Dup12,
    Dup13,
    Dup14,
    Dup15,
    Dup16,
    Swap1,
    Swap2,
    Swap3,
    Swap4,
    Swap5,
    Swap6,
    Swap7,
    Swap8,
    Swap9,
    Swap10,
    Swap11,
    Swap12,
    Swap13,
    Swap14,
    Swap15,
    Swap16,
    Log0,
    Log1,
    Log2,
    Log3,
    Log4,
    Create,
    Call,
    CallCode,
    Return,
    DelegateCall,
    Create2,
    StaticCall,
    Revert,
    Invalid,
    SelfDestruct,
}

impl Operation {
    /// The byte that encodes this instruction.
    pub open spec fn opcode(self) -> u8 {
        match self {
            Operation::Stop => 0x00,
            Operation::Add => 0x01,
            Operation::Mul => 0x02,
            Operation::Sub => 0x03,
            Operation::Div => 0x04,
            Operation::Sdiv => 0x05,
            Operation::Mod => 0x06,
            Operation::SMod => 0x07,
            Operation::Addmod => 0x08,
            Operation::Mulmod => 0x09,
            Operation::Exp => 0x0a,
            Operation::SignExtend => 0x0b,
            Operation::Lt => 0x10,
            Operation::Gt => 0x11,
            Operation::Slt => 0x12,
            Operation::Sgt => 0x13,
            Operation::Eq => 0x14,
            Operation::IsZero => 0x15,
            Operation::And => 0x16,
            Operation::Or => 0x17,
            Operation::Xor => 0x18,
            Operation::Not => 0x19,
            Operation::Byte => 0x1a,
            Operation::Shl => 0x1b,
            Operation::Shr => 0x1c,
            Operation::Sar => 0x1d,
            Operation::Keccack256 => 0x20,
            Operation::Address => 0x30,
            Operation::Balance => 0x31,
            Operation::Origin => 0x32,
            Operation::Caller => 0x33,
            Operation::CallValue => 0x34,
            Operation::CallDataLoad => 0x35,
            Operation::CallDataSize => 0x36,
            Operation::CallDataCopy => 0x37,
            Operation::CodeSize => 0x38,
            Operation::CodeCopy => 0x39,
            Operation::GasPrice => 0x3a,
            Operation::ExtCodeSize => 0x3b,
            Operation::ExtCodeCopy => 0x3c,
            Operation::ReturnDataSize => 0x3d,
            Operation::ReturnDataCopy => 0x3e,
            Operation::ExtCodeHash => 0x3f,
            Operation::Blockhash => 0x40,
            Operation::Coinbase => 0x41,
            Operation::Timestamp => 0x42,
            Operation::Number => 0x43,
            Operation::PrevRandao => 0x44,
            Operation::GasLimit => 0x45,
            Operation::ChainId => 0x46,
            Operation::SelfBalance => 0x47,
            Operation::BaseFee => 0x48,
            Operation::Pop => 0x50,
            Operation::Mload => 0x51,
            Operation::Mstore => 0x52,
            Operation::MStore8 => 0x53,
            Operation::Sload => 0x54,
            Operation::SStore => 0x55,
            Operation::Jump => 0x56,
            Operation::JumpI => 0x57,
            Operation::Pc => 0x58,
            Operation::MSize => 0x59,
            Operation::Gas => 0x5a,
            Operation::JumpDest => 0x5b,
            Operation::Push0 => 0x5f,
            Operation::Push1(_) => 0x60,
            Operation::Push2(_) => 0x61,
            Operation::Push3(_) => 0x62,
            Operation::Push4(_) => 0x63,
            Operation::Push5(_) => 0x64,
            Operation::Push6(_) => 0x65,
            Operation::Push7(_) => 0x66,
            Operation::Push8(_) => 0x67,
            Operation::Push9(_) => 0x68,
            Operation::Push10(_) => 0x69,
            Operation::Push11(_) => 0x6a,
            Operation::Push12(_) => 0x6b,
            Operation::Push13(_) => 0x6c,
            Operation::Push14(_) => 0x6d,
            Operation::Push15(_) => 0x6e,
            Operation::Push16(_) => 0x6f,
            Operation::Push17(_) => 0x70,
            Operation::Push18(_) => 0x71,
            Operation::Push19(_) => 0x72,
            Operation::Push20(_) => 0x73,
            Operation::Push21(_) => 0x74,
            Operation::Push22(_) => 0x75,
            Operation::Push23(_) => 0x76,
            Operation::Push24(_) => 0x77,
            Operation::Push25(_) => 0x78,
            Operation::Push26(_) => 0x79,
            Operation::Push27(_) => 0x7a,
            Operation::Push28(_) => 0x7b,
            Operation::Push29(_) => 0x7c,
            Operation::Push30(_) => 0x7d,
            Operation::Push31(_) => 0x7e,
            Operation::Push32(_) => 0x7f,
            Operation::Dup1 => 0x80,
            Operation::Dup2 => 0x81,
            Operation::Dup3 => 0x82,
            Operation::Dup4 => 0x83,
            Operation::Dup5 => 0x84,
            Operation::Dup6 => 0x85,
            Operation::Dup7 => 0x86,
            Operation::Dup8 => 0x87,
            Operation::Dup9 => 0x88,
            Operation::Dup10 => 0x89,
            Operation::Dup11 => 0x8a,
            Operation::Dup12 => 0x8b,
            Operation::Dup13 => 0x8c,
            Operation::Dup14 => 0x8d,
            Operation::Dup15 => 0x8e,
            Operation::Dup16 => 0x8f,
            Operation::Swap1 => 0x90,
            Operation::Swap2 => 0x91,
            Operation::Swap3 => 0x92,
            Operation::Swap4 => 0x93,
            Operation::Swap5 => 0x94,
            Operation::Swap6 => 0x95,
            Operation::Swap7 => 0x96,
            Operation::Swap8 => 0x97,
            Operation::Swap9 => 0x98,
            Operation::Swap10 => 0x99,
            Operation::Swap11 => 0x9a,
            Operation::Swap12 => 0x9b,
            Operation::Swap13 => 0x9c,
            Operation::Swap14 => 0x9d,
            Operation::Swap15 => 0x9e,
            Operation::Swap16 => 0x9f,
            Operation::Log0 => 0xa0,
            Operation::Log1 => 0xa1,
            Operation::Log2 => 0xa2,
            Operation::Log3 => 0xa3,
            Operation::Log4 => 0xa4,
            Operation::Create => 0xf0,
            Operation::Call => 0xf1,
            Operation::CallCode => 0xf2,
            Operation::Return => 0xf3,
            Operation::DelegateCall => 0xf4,
            Operation::Create2 => 0xf5,
            Operation::StaticCall => 0xfa,
            Operation::Revert => 0xfd,
            Operation::Invalid => 0xfe,
            Operation::SelfDestruct => 0xff,
        }
    }

    /// The immediate bytes of a push instruction; `None` for every other instruction.
    pub open spec fn push_immediate(self) -> Option<Seq<u8>> {
        match self {
            Operation::Push0 => Some(Seq::<u8>::empty()),
            Operation::Push1(b) => Some(seq![b]),
            Operation::Push2(a) => Some(a@),
            Operation::Push3(a) => Some(a@),
            Operation::Push4(a) => Some(a@),
            Operation::Push5(a) => Some(a@),
            Operation::Push6(a) => Some(a@),
            Operation::Push7(a) => Some(a@),
            Operation::Push8(a) => Some(a@),
            Operation::Push9(a) => Some(a@),
            Operation::Push10(a) => Some(a@),
            Operation::Push11(a) => Some(a@),
            Operation::Push12(a) => Some(a@),
            Operation::Push13(a) => Some(a@),
            Operation::Push14(a) => Some(a@),
            Operation::Push15(a) => Some(a@),
            Operation::Push16(a) => Some(a@),
            Operation::Push17(a) => Some(a@),
            Operation::Push18(a) => Some(a@),
            Operation::Push19(a) => Some(a@),
            Operation::Push20(a) => Some(a@),
            Operation::Push21(a) => Some(a@),
            Operation::Push22(a) => Some(a@),
            Operation::Push23(a) => Some(a@),
            Operation::Push24(a) => Some(a@),
            Operation::Push25(a) => Some(a@),
            Operation::Push26(a) => Some(a@),
            Operation::Push27(a) => Some(a@),
            Operation::Push28(a) => Some(a@),
            Operation::Push29(a) => Some(a@),
            Operation::Push30(a) => Some(a@),
            Operation::Push31(a) => Some(a@),
            Operation::Push32(a) => Some(a@),
            _ => None,
        }
    }

    /// The price of this instruction in gas units; `None` where it is not priced yet.
    pub open spec fn gas_cost(self) -> Option<nat> {
        match self {
            Operation::Stop | Operation::Return | Operation::Revert => Some(G_ZERO as nat),
            Operation::Address | Operation::Origin | Operation::Caller | Operation::CallValue | Operation::CallDataSize | Operation::CodeSize | Operation::GasPrice | Operation::Coinbase | Operation::Timestamp | Operation::Number | Operation::PrevRandao | Operation::GasLimit | Operation::ChainId | Operation::ReturnDataSize | Operation::Pop | Operation::Pc | Operation::MSize | Operation::Gas | Operation::BaseFee | Operation::Push0 => Some(G_BASE as nat),
            Operation::Add | Operation::Sub | Operation::Not | Operation::Lt | Operation::Gt | Operation::Slt | Operation::Sgt | Operation::Eq | Operation::IsZero | Operation::And | Operation::Or | Operation::Xor | Operation::Byte | Operation::Shl | Operation::Shr | Operation::Sar | Operation::CallDataLoad | Operation::Mload | Operation::Mstore | Operation::MStore8 | Operation::Push1(_) | Operation::Push2(_) | Operation::Push3(_) | Operation::Push4(_) | Operation::Push5(_) | Operation::Push6(_) | Operation::Push7(_) | Operation::Push8(_) | Operation::Push9(_) | Operation::Push10(_) | Operation::Push11(_) | Operation::Push12(_) | Operation::Push13(_) | Operation::Push14(_) | Operation::Push15(_) | Operation::Push16(_) | Operation::Push17(_) | Operation::Push18(_) | Operation::Push19(_) | Operation::Push20(_) | Operation::Push21(_) | Operation::Push22(_) | Operation::Push23(_) | Operation::Push24(_) | Operation::Push25(_) | Operation::Push26(_) | Operation::Push27(_) | Operation::Push28(_) | Operation::Push29(_) | Operation::Push30(_) | Operation::Push31(_) | Operation::Push32(_) | Operation::Dup1 | Operation::Dup2 | Operation::Dup3 | Operation::Dup4 | Operation::Dup5 | Operation::Dup6 | Operation::Dup7 | Operation::Dup8 | Operation::Dup9 | Operation::Dup10 | Operation::Dup11 | Operation::Dup12 | Operation::Dup13 | Operation::Dup14 | Operation::Dup15 | Operation::Dup16 | Operation::Swap1 | Operation::Swap2 | Operation::Swap3 | Operation::Swap4 | Operation::Swap5 | Operation::Swap6 | Operation::Swap7 | Operation::Swap8 | Operation::Swap9 | Operation::Swap10 | Operation::Swap11 | Operation::Swap12 | Operation::Swap13 | Operation::Swap14 | Operation::Swap15 | Operation::Swap16 => Some(G_VERY_LOW as nat),
            Operation::Mul | Operation::Div | Operation::Sdiv | Operation::Mod | Operation::SMod | Operation::SignExtend | Operation::SelfBalance => Some(G_LOW as nat),
            Operation::Addmod | Operation::Mulmod | Operation::Jump => Some(G_MID as nat),
            Operation::JumpI => Some(G_HIGH as nat),
            _ => None,
        }
    }
}

/// The instruction that a byte which is not a push opcode decodes to.
pub open spec fn fixed_operation(byte: u8) -> Option<Operation> {
    match byte {
        0x00 => Some(Operation::Stop),
        0x01 => Some(Operation::Add),
        0x02 => Some(Operation::Mul),
        0x03 => Some(Operation::Sub),
        0x04 => Some(Operation::Div),
        0x05 => Some(Operation::Sdiv),
        0x06 => Some(Operation::Mod),
        0x07 => Some(Operation::SMod),
        0x08 => Some(Operation::Addmod),
        0x09 => Some(Operation::Mulmod),
        0x0a => Some(Operation::Exp),
        0x0b => Some(Operation::SignExtend),
        0x10 => Some(Operation::Lt),
        0x11 => Some(Operation::Gt),
        0x12 => Some(Operation::Slt),
        0x13 => Some(Operation::Sgt),
        0x14 => Some(Operation::Eq),
        0x15 => Some(Operation::IsZero),
        0x16 => Some(Operation::And),
        0x17 => Some(Operation::Or),
        0x18 => Some(Operation::Xor),
        0x19 => Some(Operation::Not),
        0x1a => Some(Operation::Byte),
        0x1b => Some(Operation::Shl),
        0x1c => Some(Operation::Shr),
        0x1d => Some(Operation::Sar),
        0x20 => Some(Operation::Keccack256),
        0x30 => Some(Operation::Address),
        0x31 => Some(Operation::Balance),
        0x32 => Some(Operation::Origin),
        0x33 => Some(Operation::Caller),
        0x34 => Some(Operation::CallValue),
        0x35 => Some(Operation::CallDataLoad),
        0x36 => Some(Operation::CallDataSize),
        0x37 => Some(Operation::CallDataCopy),
        0x38 => Some(Operation::CodeSize),
        0x39 => Some(Operation::CodeCopy),
        0x3a => Some(Operation::GasPrice),
        0x3b => Some(Operation::ExtCodeSize),
        0x3c => Some(Operation::ExtCodeCopy),
        0x3d => Some(Operation::ReturnDataSize),
        0x3e => Some(Operation::ReturnDataCopy),
        0x3f => Some(Operation::ExtCodeHash),
        0x40 => Some(Operation::Blockhash),
        0x41 => Some(Operation::Coinbase),
        0x42 => Some(Operation::Timestamp),
        0x43 => Some(Operation::Number),
        0x44 => Some(Operation::PrevRandao),
        0x45 => Some(Operation::GasLimit),
        0x46 => Some(Operation::ChainId),
        0x47 => Some(Operation::SelfBalance),
        0x48 => Some(Operation::BaseFee),
        0x50 => Some(Operation::Pop),
        0x51 => Some(Operation::Mload),
        0x52 => Some(Operation::Mstore),
        0x53 => Some(Operation::MStore8),
        0x54 => Some(Operation::Sload),
        0x55 => Some(Operation::SStore),
        0x56 => Some(Operation::Jump),
        0x57 => Some(Operation::JumpI),
        0x58 => Some(Operation::Pc),
        0x59 => Some(Operation::MSize),
        0x5a => Some(Operation::Gas),
        0x5b => Some(Operation::JumpDest),
        0x80 => Some(Operation::Dup1),
        0x81 => Some(Operation::Dup2),
        0x82 => Some(Operation::Dup3),
        0x83 => Some(Operation::Dup4),
        0x84 => Some(Operation::Dup5),
        0x85 => Some(Operation::Dup6),
        0x86 => Some(Operation::Dup7),
        0x87 => Some(Operation::Dup8),
        0x88 => Some(Operation::Dup9),
        0x89 => Some(Operation::Dup10),
        0x8a => Some(Operation::Dup11),
        0x8b => Some(Operation::Dup12),
        0x8c => Some(Operation::Dup13),
        0x8d => Some(Operation::Dup14),
        0x8e => Some(Operation::Dup15),
        0x8f => Some(Operation::Dup16),
        0x90 => Some(Operation::Swap1),
        0x91 => Some(Operation::Swap2),
        0x92 => Some(Operation::Swap3),
        0x93 => Some(Operation::Swap4),
        0x94 => Some(Operation::Swap5),
        0x95 => Some(Operation::Swap6),
        0x96 => Some(Operation::Swap7),
        0x97 => Some(Operation::Swap8),
        0x98 => Some(Operation::Swap9),
        0x99 => Some(Operation::Swap10),
        0x9a => Some(Operation::Swap11),
        0x9b => Some(Operation::Swap12),
        0x9c => Some(Operation::Swap13),
        0x9d => Some(Operation::Swap14),
        0x9e => Some(Operation::Swap15),
        0x9f => Some(Operation::Swap16),
        0xa0 => Some(Operation::Log0),
        0xa1 => Some(Operation::Log1),
        0xa2 => Some(Operation::Log2),
        0xa3 => Some(Operation::Log3),
        0xa4 => Some(Operation::Log4),
        0xf0 => Some(Operation::Create),
        0xf1 => Some(Operation::Call),
        0xf2 => Some(Operation::CallCode),
        0xf3 => Some(Operation::Return),
        0xf4 => Some(Operation::DelegateCall),
        0xf5 => Some(Operation::Create2),
        0xfa => Some(Operation::StaticCall),
        0xfd => Some(Operation::Revert),
        0xfe => Some(Operation::Invalid),
        0xff => Some(Operation::SelfDestruct),
        _ => None,
    }
}

/// Decodes a byte that is not a push opcode.
pub(crate) fn decode_fixed(byte: u8) -> (r: Option<Operation>)
    ensures
        r == fixed_operation(byte),
{
    match byte {
        0x00 => Some(Operation::Stop),
        0x01 => Some(Operation::Add),
        0x02 => Some(Operation::Mul),
        0x03 => Some(Operation::Sub),
        0x04 => Some(Operation::Div),
        0x05 => Some(Operation::Sdiv),
        0x06 => Some(Operation::Mod),
        0x07 => Some(Operation::SMod),
        0x08 => Some(Operation::Addmod),
        0x09 => Some(Operation::Mulmod),
        0x0a => Some(Operation::Exp),
        0x0b => Some(Operation::SignExtend),
        0x10 => Some(Operation::Lt),
        0x11 => Some(Operation::Gt),
        0x12 => Some(Operation::Slt),
        0x13 => Some(Operation::Sgt),
        0x14 => Some(Operation::Eq),
        0x15 => Some(Operation::IsZero),
        0x16 => Some(Operation::And),
        0x17 => Some(Operation::Or),
        0x18 => Some(Operation::Xor),
        0x19 => Some(Operation::Not),
        0x1a => Some(Operation::Byte),
        0x1b => Some(Operation::Shl),
        0x1c => Some(Operation::Shr),
        0x1d => Some(Operation::Sar),
        0x20 => Some(Operation::Keccack256),
        0x30 => Some(Operation::Address),
        0x31 => Some(Operation::Balance),
        0x32 => Some(Operation::Origin),
        0x33 => Some(Operation::Caller),
        0x34 => Some(Operation::CallValue),
        0x35 => Some(Operation::CallDataLoad),
        0x36 => Some(Operation::CallDataSize),
        0x37 => Some(Operation::CallDataCopy),
        0x38 => Some(Operation::CodeSize),
        0x39 => Some(Operation::CodeCopy),
        0x3a => Some(Operation::GasPrice),
        0x3b => Some(Operation::ExtCodeSize),
        0x3c => Some(Operation::ExtCodeCopy),
        0x3d => Some(Operation::ReturnDataSize),
        0x3e => Some(Operation::ReturnDataCopy),
        0x3f => Some(Operation::ExtCodeHash),
        0x40 => Some(Operation::Blockhash),
        0x41 => Some(Operation::Coinbase),
        0x42 => Some(Operation::Timestamp),
        0x43 => Some(Operation::Number),
        0x44 => Some(Operation::PrevRandao),
        0x45 => Some(Operation::GasLimit),
        0x46 => Some(Operation::ChainId),
        0x47 => Some(Operation::SelfBalance),
        0x48 => Some(Operation::BaseFee),
        0x50 => Some(Operation::Pop),
        0x51 => Some(Operation::Mload),
        0x52 => Some(Operation::Mstore),
        0x53 => Some(Operation::MStore8),
        0x54 => Some(Operation::Sload),
        0x55 => Some(Operation::SStore),
        0x56 => Some(Operation::Jump),
        0x57 => Some(Operation::JumpI),
        0x58 => Some(Operation::Pc),
        0x59 => Some(Operation::MSize),
        0x5a => Some(Operation::Gas),
        0x5b => Some(Operation::JumpDest),
        0x80 => Some(Operation::Dup1),
        0x81 => Some(Operation::Dup2),
        0x82 => Some(Operation::Dup3),
        0x83 => Some(Operation::Dup4),
        0x84 => Some(Operation::Dup5),
        0x85 => Some(Operation::Dup6),
        0x86 => Some(Operation::Dup7),
        0x87 => Some(Operation::Dup8),
        0x88 => Some(Operation::Dup9),
        0x89 => Some(Operation::Dup10),
        0x8a => Some(Operation::Dup11),
        0x8b => Some(Operation::Dup12),
        0x8c => Some(Operation::Dup13),
        0x8d => Some(Operation::Dup14),
        0x8e => Some(Operation::Dup15),
        0x8f => Some(Operation::Dup16),
        0x90 => Some(Operation::Swap1),
        0x91 => Some(Operation::Swap2),
        0x92 => Some(Operation::Swap3),
        0x93 => Some(Operation::Swap4),
        0x94 => Some(Operation::Swap5),
        0x95 => Some(Operation::Swap6),
        0x96 => Some(Operation::Swap7),
        0x97 => Some(Operation::Swap8),
        0x98 => Some(Operation::Swap9),
        0x99 => Some(Operation::Swap10),
        0x9a => Some(Operation::Swap11),
        0x9b => Some(Operation::Swap12),
        0x9c => Some(Operation::Swap13),
        0x9d => Some(Operation::Swap14),
        0x9e => Some(Operation::Swap15),
        0x9f => Some(Operation::Swap16),
        0xa0 => Some(Operation::Log0),
        0xa1 => Some(Operation::Log1),
        0xa2 => Some(Operation::Log2),
        0xa3 => Some(Operation::Log3),
        0xa4 => Some(Operation::Log4),
        0xf0 => Some(Operation::Create),
        0xf1 => Some(Operation::Call),
        0xf2 => Some(Operation::CallCode),
        0xf3 => Some(Operation::Return),
        0xf4 => Some(Operation::DelegateCall),
        0xf5 => Some(Operation::Create2),
        0xfa => Some(Operation::StaticCall),
        0xfd => Some(Operation::Revert),
        0xfe => Some(Operation::Invalid),
        0xff => Some(Operation::SelfDestruct),
        _ => None,
    }
}

/// The decoding table and the encoding table agree: a byte that decodes without an
/// immediate decodes to the instruction that it encodes.
pub proof fn lemma_fixed_operation_opcode(byte: u8)
    ensures
        fixed_operation(byte) matches Some(op) ==> op.opcode() == byte && op.push_immediate() is None
            && !(0x5f <= byte <= 0x7f),
{
}

/// Every instruction without an immediate decodes back from its opcode, so no two of
/// them share a byte.
pub proof fn lemma_opcode_round_trip(op: Operation)
    requires
        op.push_immediate() is None,
    ensures
        fixed_operation(op.opcode()) == Some(op),
{
}

/// What executing `op` does to a stack that holds the values `stack`, bottom first.
pub open spec fn effect(op: Operation, stack: Seq<nat>) -> Result<Seq<nat>, Error> {
    match op.push_immediate() {
        Some(imm) => if stack.len() >= MAXIMUM_STACK_SIZE {
            Err(Error::Stack(StackError::Overflow))
        } else {
            Ok(stack.push(be_value(imm)))
        },
        None => if op is Add {
            if stack.len() < 2 {
                Err(Error::Stack(StackError::Underflow))
            } else {
                Ok(stack.drop_last().drop_last().push((stack.last() + stack[stack.len() - 2]) % word_modulus()))
            }
        } else {
            Err(Error::Unimplemented(op))
        },
    }
}

/// `Add` on a stack `[a, b]` leaves the single word `(a + b) mod 2^256` and costs the
/// very-low tier.
pub proof fn lemma_add_wraps(a: nat, b: nat)
    ensures
        effect(Operation::Add, seq![a, b]) == Ok::<Seq<nat>, Error>(seq![(a + b) % word_modulus()]),
        Operation::Add.gas_cost() == Some(G_VERY_LOW as nat),
{
    let s = seq![a, b];
    assert(s.last() == b && s[s.len() - 2] == a);
    assert(s.drop_last().drop_last() =~= Seq::<nat>::empty());
    assert(s.drop_last().drop_last().push((s.last() + s[s.len() - 2]) % word_modulus()) =~= seq![
        (a + b) % word_modulus(),
    ]);
}

/// `Add` on a stack of fewer than two words fails with an underflow.
pub proof fn lemma_add_underflow(stack: Seq<nat>)
    requires
        stack.len() < 2,
    ensures
        effect(Operation::Add, stack) == Err::<Seq<nat>, Error>(Error::Stack(StackError::Underflow)),
{
}

/// The gas consumed and the program-counter advance of one executed instruction.
#[derive(Debug)]
pub struct OperationResult {
    pub gas_used: Word,
    pub program_counter_increment: usize,
}

impl OperationResult {
    /// The result that `op` carries when it executes.
    pub open spec fn of(self, op: Operation) -> bool {
        &&& op.gas_cost() matches Some(c)
        &&& self.gas_used@ == c
        &&& self.program_counter_increment == op.pc_increment()
    }

    pub fn for_operation(op: &Operation) -> (r: OperationResult)
        requires
            op.gas_cost() is Some,
        ensures
            r.of(*op),
    {
        OperationResult {
            gas_used: op.gas_used().unwrap(),
            program_counter_increment: op.program_counter_increment(),
        }
    }
}

fn program_counter_increment_for_push(n: usize) -> (r: usize)
    requires
        n <= 32,
    ensures
        r == n + 1,
{
    n + 1
}

impl Operation {
    /// Bytes by which the program counter advances past this instruction.
    pub open spec fn pc_increment(self) -> nat {
        match self.push_immediate() {
            Some(imm) => 1 + imm.len(),
            None => 1,
        }
    }

    pub fn get_push_size(&self) -> (r: Option<usize>)
        ensures
            r == match self.push_immediate() {
                Some(imm) => Some(imm.len() as usize),
                None => None,
            },
    {
        match self {
            Operation::Push0 => Some(0),
            Operation::Push1(_) => Some(1),
            Operation::Push2(_) => Some(2),
            Operation::Push3(_) => Some(3),
            Operation::Push4(_) => Some(4),
            Operation::Push5(_) => Some(5),
            Operation::Push6(_) => Some(6),
            Operation::Push7(_) => Some(7),
            Operation::Push8(_) => Some(8),
            Operation::Push9(_) => Some(9),
            Operation::Push10(_) => Some(10),
            Operation::Push11(_) => Some(11),
            Operation::Push12(_) => Some(12),
            Operation::Push13(_) => Some(13),
            Operation::Push14(_) => Some(14),
            Operation::Push15(_) => Some(15),
            Operation::Push16(_) => Some(16),
            Operation::Push17(_) => Some(17),
            Operation::Push18(_) => Some(18),
            Operation::Push19(_) => Some(19),
            Operation::Push20(_) => Some(20),
            Operation::Push21(_) => Some(21),
            Operation::Push22(_) => Some(22),
            Operation::Push23(_) => Some(23),
            Operation::Push24(_) => Some(24),
            Operation::Push25(_) => Some(25),
            Operation::Push26(_) => Some(26),
            Operation::Push27(_) => Some(27),
            Operation::Push28(_) => Some(28),
            Operation::Push29(_) => Some(29),
            Operation::Push30(_) => Some(30),
            Operation::Push31(_) => Some(31),
            Operation::Push32(_) => Some(32),
            _ => None,
        }
    }

    pub fn is_dup(&self) -> (r: bool)
        ensures
            r == (0x80 <= self.opcode() <= 0x8f),
    {
        match self {
            Operation::Dup1 | Operation::Dup2 | Operation::Dup3 | Operation::Dup4 | Operation::Dup5 | Operation::Dup6 | Operation::Dup7 | Operation::Dup8 | Operation::Dup9 | Operation::Dup10 | Operation::Dup11 | Operation::Dup12 | Operation::Dup13 | Operation::Dup14 | Operation::Dup15 | Operation::Dup16 => true,
            _ => false,
        }
    }

    pub fn is_swap(&self) -> (r: bool)
        ensures
            r == (0x90 <= self.opcode() <= 0x9f),
    {
        match self {
            Operation::Swap1 | Operation::Swap2 | Operation::Swap3 | Operation::Swap4 | Operation::Swap5 | Operation::Swap6 | Operation::Swap7 | Operation::Swap8 | Operation::Swap9 | Operation::Swap10 | Operation::Swap11 | Operation::Swap12 | Operation::Swap13 | Operation::Swap14 | Operation::Swap15 | Operation::Swap16 => true,
            _ => false,
        }
    }

    pub fn gas_schedule_cost(&self) -> (r: Option<usize>)
        ensures
            r == match self.gas_cost() {
                Some(c) => Some(c as usize),
                None => None,
            },
    {
        match self {
            Operation::Stop | Operation::Return | Operation::Revert => Some(G_ZERO),
            Operation::Address | Operation::Origin | Operation::Caller | Operation::CallValue | Operation::CallDataSize | Operation::CodeSize | Operation::GasPrice | Operation::Coinbase | Operation::Timestamp | Operation::Number | Operation::PrevRandao | Operation::GasLimit | Operation::ChainId | Operation::ReturnDataSize | Operation::Pop | Operation::Pc | Operation::MSize | Operation::Gas | Operation::BaseFee | Operation::Push0 => Some(G_BASE),
            Operation::Add | Operation::Sub | Operation::Not | Operation::Lt | Operation::Gt | Operation::Slt | Operation::Sgt | Operation::Eq | Operation::IsZero | Operation::And | Operation::Or | Operation::Xor | Operation::Byte | Operation::Shl | Operation::Shr | Operation::Sar | Operation::CallDataLoad | Operation::Mload | Operation::Mstore | Operation::MStore8 | Operation::Push1(_) | Operation::Push2(_) | Operation::Push3(_) | Operation::Push4(_) | Operation::Push5(_) | Operation::Push6(_) | Operation::Push7(_) | Operation::Push8(_) | Operation::Push9(_) | Operation::Push10(_) | Operation::Push11(_) | Operation::Push12(_) | Operation::Push13(_) | Operation::Push14(_) | Operation::Push15(_) | Operation::Push16(_) | Operation::Push17(_) | Operation::Push18(_) | Operation::Push19(_) | Operation::Push20(_) | Operation::Push21(_) | Operation::Push22(_) | Operation::Push23(_) | Operation::Push24(_) | Operation::Push25(_) | Operation::Push26(_) | Operation::Push27(_) | Operation::Push28(_) | Operation::Push29(_) | Operation::Push30(_) | Operation::Push31(_) | Operation::Push32(_) | Operation::Dup1 | Operation::Dup2 | Operation::Dup3 | Operation::Dup4 | Operation::Dup5 | Operation::Dup6 | Operation::Dup7 | Operation::Dup8 | Operation::Dup9 | Operation::Dup10 | Operation::Dup11 | Operation::Dup12 | Operation::Dup13 | Operation::Dup14 | Operation::Dup15 | Operation::Dup16 | Operation::Swap1 | Operation::Swap2 | Operation::Swap3 | Operation::Swap4 | Operation::Swap5 | Operation::Swap6 | Operation::Swap7 | Operation::Swap8 | Operation::Swap9 | Operation::Swap10 | Operation::Swap11 | Operation::Swap12 | Operation::Swap13 | Operation::Swap14 | Operation::Swap15 | Operation::Swap16 => Some(G_VERY_LOW),
            Operation::Mul | Operation::Div | Operation::Sdiv | Operation::Mod | Operation::SMod | Operation::SignExtend | Operation::SelfBalance => Some(G_LOW),
            Operation::Addmod | Operation::Mulmod | Operation::Jump => Some(G_MID),
            Operation::JumpI => Some(G_HIGH),
            _ => None,
        }
    }

    pub fn is_push(&self) -> (r: bool)
        ensures
            r == self.push_immediate() is Some,
    {
        self.get_push_size().is_some()
    }

    pub fn gas_used(&self) -> (r: Option<Word>)
        ensures
            match self.gas_cost() {
                Some(c) => r matches Some(w) && w@ == c,
                None => r is None,
            },
    {
        match self.gas_schedule_cost() {
            Some(c) => Some(Word::from_u64(c as u64)),
            None => None,
        }
    }

    pub fn program_counter_increment(&self) -> (r: usize)
        ensures
            r == self.pc_increment(),
    {
        match self.get_push_size() {
            Some(push_size) => program_counter_increment_for_push(push_size),
            None => 1,
        }
    }

    /// Executes this instruction against the stack.
    pub fn apply(&self, stack: &mut Stack, memory: &mut Memory, context: &Context) -> (r: Result<
        OperationResult,
        Error,
    >)
        requires
            old(stack)@.len() <= MAXIMUM_STACK_SIZE,
        ensures
            match effect(*self, old(stack)@) {
                Ok(s) => r matches Ok(res) && final(stack)@ == s && res.of(*self),
                Err(e) => r == Err::<OperationResult, Error>(e) && final(stack)@ == old(stack)@,
            },
            *final(memory) == *old(memory),
    {
        match self {
            Operation::Add => self.do_add(stack),
            Operation::Push0 => {
                let imm: [u8; 0] = [];
                assert(imm@ =~= Seq::<u8>::empty());
                self.do_push(imm.as_slice(), stack)
            },
            Operation::Push1(b) => {
                let imm: [u8; 1] = [*b];
                assert(imm@ =~= seq![*b]);
                self.do_push(imm.as_slice(), stack)
            },
            Operation::Push2(a) => self.do_push(a.as_slice(), stack),
            Operation::Push3(a) => self.do_push(a.as_slice(), stack),
            Operation::Push4(a) => self.do_push(a.as_slice(), stack),
            Operation::Push5(a) => self.do_push(a.as_slice(), stack),
            Operation::Push6(a) => self.do_push(a.as_slice(), stack),
            Operation::Push7(a) => self.do_push(a.as_slice(), stack),
            Operation::Push8(a) => self.do_push(a.as_slice(), stack),
            Operation::Push9(a) => self.do_push(a.as_slice(), stack),
            Operation::Push10(a) => self.do_push(a.as_slice(), stack),
            Operation::Push11(a) => self.do_push(a.as_slice(), stack),
            Operation::Push12(a) => self.do_push(a.as_slice(), stack),
            Operation::Push13(a) => self.do_push(a.as_slice(), stack),
            Operation::Push14(a) => self.do_push(a.as_slice(), stack),
            Operation::Push15(a) => self.do_push(a.as_slice(), stack),
            Operation::Push16(a) => self.do_push(a.as_slice(), stack),
            Operation::Push17(a) => self.do_push(a.as_slice(), stack),
            Operation::Push18(a) => self.do_push(a.as_slice(), stack),
            Operation::Push19(a) => self.do_push(a.as_slice(), stack),
            Operation::Push20(a) => self.do_push(a.as_slice(), stack),
            Operation::Push21(a) => self.do_push(a.as_slice(), stack),
            Operation::Push22(a) => self.do_push(a.as_slice(), stack),
            Operation::Push23(a) => self.do_push(a.as_slice(), stack),
            Operation::Push24(a) => self.do_push(a.as_slice(), stack),
            Operation::Push25(a) => self.do_push(a.as_slice(), stack),
            Operation::Push26(a) => self.do_push(a.as_slice(), stack),
            Operation::Push27(a) => self.do_push(a.as_slice(), stack),
            Operation::Push28(a) => self.do_push(a.as_slice(), stack),
            Operation::Push29(a) => self.do_push(a.as_slice(), stack),
            Operation::Push30(a) => self.do_push(a.as_slice(), stack),
            Operation::Push31(a) => self.do_push(a.as_slice(), stack),
            Operation::Push32(a) => self.do_push(a.as_slice(), stack),
            _ => Err(Error::Unimplemented(*self)),
        }
    }

    /// Pops two words and pushes their sum modulo `2^256`.
    pub fn do_add(&self, stack: &mut Stack) -> (r: Result<OperationResult, Error>)
        requires
            self.gas_cost() is Some,
            old(stack)@.len() <= MAXIMUM_STACK_SIZE,
        ensures
            old(stack)@.len() >= 2 ==> (r matches Ok(res) && res.of(*self) && final(stack)@
                == old(stack)@.drop_last().drop_last().push(
                (old(stack)@.last() + old(stack)@[old(stack)@.len() - 2]) % word_modulus(),
            )),
            old(stack)@.len() < 2 ==> r == Err::<OperationResult, Error>(
                Error::Stack(StackError::Underflow),
            ) && final(stack)@ == old(stack)@,
    {
        if stack.len() < 2 {
            return Err(Error::Stack(StackError::Underflow));
        }
        let a = match stack.pop() {
            Ok(w) => w,
            Err(e) => return Err(Error::Stack(e)),
        };
        let b = match stack.pop() {
            Ok(w) => w,
            Err(e) => return Err(Error::Stack(e)),
        };
        match stack.push(a.wrapping_add(&b)) {
            Ok(()) => Ok(OperationResult::for_operation(self)),
            Err(e) => Err(Error::Stack(e)),
        }
    }

    /// Pushes the big-endian value of `immediate`, zero-extended to a word.
    pub fn do_push(&self, immediate: &[u8], stack: &mut Stack) -> (r: Result<OperationResult, Error>)
        requires
            self.gas_cost() is Some,
            immediate@.len() <= 32,
        ensures
            old(stack)@.len() < MAXIMUM_STACK_SIZE ==> (r matches Ok(res) && res.of(*self)
                && final(stack)@ == old(stack)@.push(be_value(immediate@))),
            old(stack)@.len() >= MAXIMUM_STACK_SIZE ==> r == Err::<OperationResult, Error>(
                Error::Stack(StackError::Overflow),
            ) && final(stack)@ == old(stack)@,
    {
        match stack.push(Word::from_be_slice(immediate)) {
            Ok(()) => Ok(OperationResult::for_operation(self)),
            Err(e) => Err(Error::Stack(e)),
        }
    }
}

} // verus!
