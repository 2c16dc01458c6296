//! Instruction decoding for the Sharp LR35902.
//!
//! `spec_decode` is the canonical decode table: it maps an opcode byte (and,
//! for the CB prefix, the following byte) to a fully resolved instruction,
//! or `None` for the eleven undefined opcodes. The executable decoder is
//! proved to return exactly what the table says.

use vstd::prelude::*;

use crate::regs::{ByteRegister, WordRegister};

verus! {

#[derive(Clone, Copy, Debug, PartialEq, Eq, Structural)]
pub enum Condition {
    NotZero,
    Zero,
    NoCarry,
    Carry,
}

/// How an instruction operand is obtained.
#[derive(Clone, Copy, Debug, PartialEq, Eq, Structural)]
pub enum AddressingMode {
    /// A fixed address encoded in the opcode (RST vectors).
    Target(u16),
    ByteRegister(ByteRegister),
    WordRegister(WordRegister),
    /// Memory at the address held in a 16-bit register.
    RegisterPointer(WordRegister),
    /// Memory at 0xFF00 + the value of an 8-bit register (always C).
    RegisterPointerHigh(ByteRegister),
    ImmediateByte,
    ImmediateWord,
    /// Memory at the address given by the immediate word.
    ImmediatePointer,
    /// Memory at 0xFF00 + the immediate byte.
    ImmediatePointerHigh,
    /// A bit index 0..7, used only by the CB-prefixed bit instructions.
    BitPosition(u8),
}

#[derive(Clone, Copy, Debug, PartialEq, Eq, Structural)]
pub enum InstructionType {
    Nop,
    LoadByte,
    LoadWord,
    LoadHigh,
    IncByte,
    DecByte,
    IncWord,
    DecWord,
    AddByte,
    AddWord,
    /// ADD SP, e8: signed offset added to SP, flags from the low byte.
    AddSpAdjusted,
    /// LD HL, SP+e8: same flag rules as ADD SP, e8, result into HL.
    LoadHlAdjusted,
    AddWithCarry,
    Sub,
    SubWithCarry,
    And,
    Xor,
    Or,
    Cp,
    RollLeft,
    RollRight,
    RollLeftThroughCarry,
    RollRightThroughCarry,
    ShiftLeftArithmetically,
    ShiftRightArithmetically,
    Swap,
    ShiftRightLogically,
    DecimalAdjustAccumulator,
    ComplementAccumulator,
    SetCarryFlag,
    ComplementCarryFlag,
    Jump,
    JumpRelative,
    Push,
    Pop,
    Return,
    ReturnInterrupt,
    Call,
    Restart,
    Stop,
    Halt,
    DisableInterrupts,
    EnableInterrupts,
    TestBit,
    ResetBit,
    SetBit,
}

#[derive(Clone, Copy, Debug, PartialEq, Eq, Structural)]
pub struct Instruction {
    pub instruction_type: InstructionType,
    pub opcode: u8,
    pub address: u16,
    pub condition: Option<Condition>,
    pub target: Option<AddressingMode>,
    pub source: Option<AddressingMode>,
}

/// A fatal decode failure: the byte at `address` is not an opcode.
#[derive(Clone, Copy, Debug, PartialEq, Eq, Structural)]
pub struct DecodeError {
    pub address: u16,
    pub opcode: u8,
}

impl Condition {
    pub open spec fn spec_condition(bits: u8) -> Condition {
        if bits & 3 == 0 {
            Condition::NotZero
        } else if bits & 3 == 1 {
            Condition::Zero
        } else if bits & 3 == 2 {
            Condition::NoCarry
        } else {
            Condition::Carry
        }
    }

    pub fn get_condition(bits: u8) -> (result: Option<Condition>)
        ensures
            result == Some(Condition::spec_condition(bits)),
    {
        match bits & 3 {
            0 => Some(Condition::NotZero),
            1 => Some(Condition::Zero),
            2 => Some(Condition::NoCarry),
            _ => Some(Condition::Carry),
        }
    }
}

impl AddressingMode {
    /// Operand field r8: 0..7 name B, C, D, E, H, L, (HL), A.
    pub open spec fn spec_byte_register(bits: u8) -> ByteRegister {
        if bits & 7 == 0 {
            ByteRegister::B
        } else if bits & 7 == 1 {
            ByteRegister::C
        } else if bits & 7 == 2 {
            ByteRegister::D
        } else if bits & 7 == 3 {
            ByteRegister::E
        } else if bits & 7 == 4 {
            ByteRegister::H
        } else if bits & 7 == 5 {
            ByteRegister::L
        } else {
            ByteRegister::A
        }
    }

    pub open spec fn spec_r8_mode(bits: u8) -> AddressingMode {
        if bits & 7 == 6 {
            AddressingMode::RegisterPointer(WordRegister::HL)
        } else {
            AddressingMode::ByteRegister(AddressingMode::spec_byte_register(bits))
        }
    }

    /// Operand field r16: BC, DE, HL, SP.
    pub open spec fn spec_word_register(bits: u8) -> WordRegister {
        if bits & 3 == 0 {
            WordRegister::BC
        } else if bits & 3 == 1 {
            WordRegister::DE
        } else if bits & 3 == 2 {
            WordRegister::HL
        } else {
            WordRegister::SP
        }
    }

    /// Operand field r16mem: BC, DE, HL with post-increment, HL with
    /// post-decrement.
    pub open spec fn spec_mem_word_register(bits: u8) -> WordRegister {
        if bits & 3 == 0 {
            WordRegister::BC
        } else if bits & 3 == 1 {
            WordRegister::DE
        } else if bits & 3 == 2 {
            WordRegister::HLi
        } else {
            WordRegister::HLd
        }
    }

    /// Operand field r16stk: BC, DE, HL, AF.
    pub open spec fn spec_stack_word_register(bits: u8) -> WordRegister {
        if bits & 3 == 0 {
            WordRegister::BC
        } else if bits & 3 == 1 {
            WordRegister::DE
        } else if bits & 3 == 2 {
            WordRegister::HL
        } else {
            WordRegister::AF
        }
    }

    pub fn get_byte_register(opcode: u8) -> (result: ByteRegister)
        requires
            opcode & 7 != 6,
        ensures
            result == AddressingMode::spec_byte_register(opcode),
    {
        match opcode & 7 {
            0 => ByteRegister::B,
            1 => ByteRegister::C,
            2 => ByteRegister::D,
            3 => ByteRegister::E,
            4 => ByteRegister::H,
            5 => ByteRegister::L,
            _ => ByteRegister::A,
        }
    }

    pub fn get_r8_adressing_mode(opcode: u8) -> (result: AddressingMode)
        ensures
            result == AddressingMode::spec_r8_mode(opcode),
    {
        if opcode & 7 == 6 {
            AddressingMode::RegisterPointer(WordRegister::HL)
        } else {
            AddressingMode::ByteRegister(AddressingMode::get_byte_register(opcode))
        }
    }

    pub fn get_word_register(opcode: u8) -> (result: WordRegister)
        ensures
            result == AddressingMode::spec_word_register(opcode),
    {
        match opcode & 3 {
            0 => WordRegister::BC,
            1 => WordRegister::DE,
            2 => WordRegister::HL,
            _ => WordRegister::SP,
        }
    }

    pub fn get_mem_word_register(opcode: u8) -> (result: WordRegister)
        ensures
            result == AddressingMode::spec_mem_word_register(opcode),
    {
        match opcode & 3 {
            0 => WordRegister::BC,
            1 => WordRegister::DE,
            2 => WordRegister::HLi,
            _ => WordRegister::HLd,
        }
    }

    pub fn get_stack_word_register(opcode: u8) -> (result: WordRegister)
        ensures
            result == AddressingMode::spec_stack_word_register(opcode),
    {
        match opcode & 3 {
            0 => WordRegister::BC,
            1 => WordRegister::DE,
            2 => WordRegister::HL,
            _ => WordRegister::AF,
        }
    }

    pub fn get_r16_addressing_mode(opcode: u8) -> (result: AddressingMode)
        ensures
            result == AddressingMode::WordRegister(AddressingMode::spec_word_register(opcode)),
    {
        AddressingMode::WordRegister(AddressingMode::get_word_register(opcode))
    }

    pub fn get_b3_adressing_mode(opcode: u8) -> (result: AddressingMode)
        ensures
            result == AddressingMode::BitPosition((opcode >> 3) & 7),
    {
        AddressingMode::BitPosition((opcode >> 3) & 7)
    }

    /// The mask with only bit `b` set, for a `BitPosition(b)` operand.
    pub open spec fn spec_bit_mask(bit: u8) -> u8 {
        if bit == 0 {
            0x01u8
        } else if bit == 1 {
            0x02u8
        } else if bit == 2 {
            0x04u8
        } else if bit == 3 {
            0x08u8
        } else if bit == 4 {
            0x10u8
        } else if bit == 5 {
            0x20u8
        } else if bit == 6 {
            0x40u8
        } else {
            0x80u8
        }
    }

    pub fn get_bitmask_for_bitposition(addressing_mode: &AddressingMode) -> (result: u8)
        requires
            addressing_mode matches AddressingMode::BitPosition(b) && b < 8,
        ensures
            addressing_mode matches AddressingMode::BitPosition(b) && result
                == AddressingMode::spec_bit_mask(*b),
    {
        match addressing_mode {
            AddressingMode::BitPosition(0) => 0x01,
            AddressingMode::BitPosition(1) => 0x02,
            AddressingMode::BitPosition(2) => 0x04,
            AddressingMode::BitPosition(3) => 0x08,
            AddressingMode::BitPosition(4) => 0x10,
            AddressingMode::BitPosition(5) => 0x20,
            AddressingMode::BitPosition(6) => 0x40,
            _ => 0x80,
        }
    }

    /// How many bytes of the instruction encoding an operand accounts for,
    /// including the opcode byte itself.
    pub open spec fn spec_size(self) -> u8 {
        match self {
            AddressingMode::ImmediateByte => 2u8,
            AddressingMode::ImmediateWord => 3u8,
            AddressingMode::ImmediatePointer => 3u8,
            AddressingMode::ImmediatePointerHigh => 2u8,
            _ => 1u8,
        }
    }

    /// How many bytes the executor reads from memory after the opcode to
    /// resolve this operand.
    pub open spec fn spec_operand_bytes(self) -> u8 {
        match self {
            AddressingMode::ImmediateByte => 1u8,
            AddressingMode::ImmediateWord => 2u8,
            AddressingMode::ImmediatePointer => 2u8,
            AddressingMode::ImmediatePointerHigh => 1u8,
            _ => 0u8,
        }
    }

    pub fn size(&self) -> (result: u8)
        ensures
            result == self.spec_size(),
    {
        match self {
            AddressingMode::ImmediateByte => 2,
            AddressingMode::ImmediateWord => 3,
            AddressingMode::ImmediatePointer => 3,
            AddressingMode::ImmediatePointerHigh => 2,
            _ => 1,
        }
    }
}

/// Every operand accounts for one byte more than the executor reads after
/// the opcode: the immediate forms carry one or two extra bytes, all other
/// forms are encoded entirely in the opcode.
pub proof fn lemma_mode_size_counts_operand_bytes(mode: AddressingMode)
    ensures
        mode.spec_size() == 1 + mode.spec_operand_bytes(),
{
}

impl Instruction {
    /// The decoded form of the CB-prefixed page: the upper two bits of the
    /// second byte select the group, bits 5..3 the shift kind or bit index,
    /// bits 2..0 the operand.
    pub open spec fn spec_decode_cb(address: u16, next: u8) -> Instruction {
        let operand = AddressingMode::spec_r8_mode(next);
        let bit_index = (next >> 3) & 7;
        if next & 0xc0 == 0x00 {
            let kind = if bit_index == 0 {
                InstructionType::RollLeft
            } else if bit_index == 1 {
                InstructionType::RollRight
            } else if bit_index == 2 {
                InstructionType::RollLeftThroughCarry
            } else if bit_index == 3 {
                InstructionType::RollRightThroughCarry
            } else if bit_index == 4 {
                InstructionType::ShiftLeftArithmetically
            } else if bit_index == 5 {
                InstructionType::ShiftRightArithmetically
            } else if bit_index == 6 {
                InstructionType::Swap
            } else {
                InstructionType::ShiftRightLogically
            };
            Instruction {
                instruction_type: kind,
                opcode: 0xcb,
                address,
                condition: None,
                target: Some(operand),
                source: None,
            }
        } else {
            let kind = if next & 0xc0 == 0x40 {
                InstructionType::TestBit
            } else if next & 0xc0 == 0x80 {
                InstructionType::ResetBit
            } else {
                InstructionType::SetBit
            };
            Instruction {
                instruction_type: kind,
                opcode: 0xcb,
                address,
                condition: None,
                target: Some(operand),
                source: Some(AddressingMode::BitPosition(bit_index)),
            }
        }
    }

    /// The canonical decode table. `None` exactly for the undefined opcodes
    /// D3, DB, DD, E3, E4, EB, EC, ED, F4, FC and FD.
    pub open spec fn spec_decode(address: u16, opcode: u8, next: u8) -> Option<Instruction> {
        let none_none: (Option<AddressingMode>, Option<AddressingMode>) = (None, None);
        if opcode == 0xcb {
            Some(Instruction::spec_decode_cb(address, next))
        } else if opcode == 0x00 {
            Some(Instruction::plain(InstructionType::Nop, opcode, address))
        } else if opcode == 0x08 {
            Some(Instruction::with_ops(InstructionType::LoadWord, opcode, address,
                Some(AddressingMode::ImmediatePointer),
                Some(AddressingMode::WordRegister(WordRegister::SP))))
        } else if opcode == 0x10 {
            Some(Instruction::plain(InstructionType::Stop, opcode, address))
        } else if opcode == 0x18 {
            Some(Instruction::with_ops(InstructionType::JumpRelative, opcode, address,
                Some(AddressingMode::ImmediateByte), None))
        } else if opcode & 0xe7 == 0x20 {
            Some(Instruction {
                instruction_type: InstructionType::JumpRelative,
                opcode,
                address,
                condition: Some(Condition::spec_condition(opcode >> 3)),
                target: Some(AddressingMode::ImmediateByte),
                source: None,
            })
        } else if opcode == 0x07 {
            Some(Instruction::acc_op(InstructionType::RollLeft, opcode, address))
        } else if opcode == 0x0f {
            Some(Instruction::acc_op(InstructionType::RollRight, opcode, address))
        } else if opcode == 0x17 {
            Some(Instruction::acc_op(InstructionType::RollLeftThroughCarry, opcode, address))
        } else if opcode == 0x1f {
            Some(Instruction::acc_op(InstructionType::RollRightThroughCarry, opcode, address))
        } else if opcode == 0x27 {
            Some(Instruction::plain(InstructionType::DecimalAdjustAccumulator, opcode, address))
        } else if opcode == 0x2f {
            Some(Instruction::plain(InstructionType::ComplementAccumulator, opcode, address))
        } else if opcode == 0x37 {
            Some(Instruction::plain(InstructionType::SetCarryFlag, opcode, address))
        } else if opcode == 0x3f {
            Some(Instruction::plain(InstructionType::ComplementCarryFlag, opcode, address))
        } else if opcode & 0xcf == 0x01 {
            Some(Instruction::with_ops(InstructionType::LoadWord, opcode, address,
                Some(AddressingMode::WordRegister(AddressingMode::spec_word_register(opcode >> 4))),
                Some(AddressingMode::ImmediateWord)))
        } else if opcode & 0xcf == 0x02 {
            Some(Instruction::with_ops(InstructionType::LoadByte, opcode, address,
                Some(AddressingMode::RegisterPointer(
                    AddressingMode::spec_mem_word_register(opcode >> 4))),
                Some(AddressingMode::ByteRegister(ByteRegister::A))))
        } else if opcode & 0xcf == 0x0a {
            Some(Instruction::with_ops(InstructionType::LoadByte, opcode, address,
                Some(AddressingMode::ByteRegister(ByteRegister::A)),
                Some(AddressingMode::RegisterPointer(
                    AddressingMode::spec_mem_word_register(opcode >> 4)))))
        } else if opcode & 0xcf == 0x03 {
            Some(Instruction::with_ops(InstructionType::IncWord, opcode, address,
                Some(AddressingMode::WordRegister(AddressingMode::spec_word_register(opcode >> 4))),
                None))
        } else if opcode & 0xcf == 0x0b {
            Some(Instruction::with_ops(InstructionType::DecWord, opcode, address,
                Some(AddressingMode::WordRegister(AddressingMode::spec_word_register(opcode >> 4))),
                None))
        } else if opcode & 0xcf == 0x09 {
            Some(Instruction::with_ops(InstructionType::AddWord, opcode, address,
                Some(AddressingMode::WordRegister(WordRegister::HL)),
                Some(AddressingMode::WordRegister(AddressingMode::spec_word_register(opcode >> 4)))))
        } else if opcode & 0xc7 == 0x04 {
            Some(Instruction::with_ops(InstructionType::IncByte, opcode, address,
                Some(AddressingMode::spec_r8_mode(opcode >> 3)), None))
        } else if opcode & 0xc7 == 0x05 {
            Some(Instruction::with_ops(InstructionType::DecByte, opcode, address,
                Some(AddressingMode::spec_r8_mode(opcode >> 3)), None))
        } else if opcode & 0xc7 == 0x06 {
            Some(Instruction::with_ops(InstructionType::LoadByte, opcode, address,
                Some(AddressingMode::spec_r8_mode(opcode >> 3)),
                Some(AddressingMode::ImmediateByte)))
        } else if opcode == 0x76 {
            Some(Instruction::plain(InstructionType::Halt, opcode, address))
        } else if opcode & 0xc0 == 0x40 {
            Some(Instruction::with_ops(InstructionType::LoadByte, opcode, address,
                Some(AddressingMode::spec_r8_mode(opcode >> 3)),
                Some(AddressingMode::spec_r8_mode(opcode))))
        } else if opcode & 0xc0 == 0x80 {
            Some(Instruction::with_ops(Instruction::spec_alu_type((opcode >> 3) & 7), opcode,
                address, Some(AddressingMode::ByteRegister(ByteRegister::A)),
                Some(AddressingMode::spec_r8_mode(opcode))))
        } else if opcode & 0xc7 == 0xc6 {
            Some(Instruction::with_ops(Instruction::spec_alu_type((opcode >> 3) & 7), opcode,
                address, Some(AddressingMode::ByteRegister(ByteRegister::A)),
                Some(AddressingMode::ImmediateByte)))
        } else if opcode & 0xe7 == 0xc0 {
            Some(Instruction {
                instruction_type: InstructionType::Return,
                opcode,
                address,
                condition: Some(Condition::spec_condition(opcode >> 3)),
                target: None,
                source: None,
            })
        } else if opcode == 0xc9 {
            Some(Instruction::plain(InstructionType::Return, opcode, address))
        } else if opcode == 0xd9 {
            Some(Instruction::plain(InstructionType::ReturnInterrupt, opcode, address))
        } else if opcode & 0xe7 == 0xc2 {
            Some(Instruction {
                instruction_type: InstructionType::Jump,
                opcode,
                address,
                condition: Some(Condition::spec_condition(opcode >> 3)),
                target: Some(AddressingMode::ImmediateWord),
                source: None,
            })
        } else if opcode == 0xc3 {
            Some(Instruction::with_ops(InstructionType::Jump, opcode, address,
                Some(AddressingMode::ImmediateWord), None))
        } else if opcode == 0xe9 {
            Some(Instruction::with_ops(InstructionType::Jump, opcode, address,
                Some(AddressingMode::WordRegister(WordRegister::HL)), None))
        } else if opcode & 0xe7 == 0xc4 {
            Some(Instruction {
                instruction_type: InstructionType::Call,
                opcode,
                address,
                condition: Some(Condition::spec_condition(opcode >> 3)),
                target: Some(AddressingMode::ImmediateWord),
                source: None,
            })
        } else if opcode == 0xcd {
            Some(Instruction::with_ops(InstructionType::Call, opcode, address,
                Some(AddressingMode::ImmediateWord), None))
        } else if opcode & 0xc7 == 0xc7 {
            Some(Instruction::with_ops(InstructionType::Restart, opcode, address,
                Some(AddressingMode::Target((opcode & 0x38) as u16)), None))
        } else if opcode & 0xcf == 0xc1 {
            Some(Instruction::with_ops(InstructionType::Pop, opcode, address,
                Some(AddressingMode::WordRegister(
                    AddressingMode::spec_stack_word_register(opcode >> 4))), None))
        } else if opcode & 0xcf == 0xc5 {
            Some(Instruction::with_ops(InstructionType::Push, opcode, address,
                Some(AddressingMode::WordRegister(
                    AddressingMode::spec_stack_word_register(opcode >> 4))), None))
        } else if opcode == 0xe2 {
            Some(Instruction::with_ops(InstructionType::LoadHigh, opcode, address,
                Some(AddressingMode::RegisterPointerHigh(ByteRegister::C)),
                Some(AddressingMode::ByteRegister(ByteRegister::A))))
        } else if opcode == 0xe0 {
            Some(Instruction::with_ops(InstructionType::LoadHigh, opcode, address,
                Some(AddressingMode::ImmediatePointerHigh),
                Some(AddressingMode::ByteRegister(ByteRegister::A))))
        } else if opcode == 0xea {
            Some(Instruction::with_ops(InstructionType::LoadByte, opcode, address,
                Some(AddressingMode::ImmediatePointer),
                Some(AddressingMode::ByteRegister(ByteRegister::A))))
        } else if opcode == 0xf2 {
            Some(Instruction::with_ops(InstructionType::LoadHigh, opcode, address,
                Some(AddressingMode::ByteRegister(ByteRegister::A)),
                Some(AddressingMode::RegisterPointerHigh(ByteRegister::C))))
        } else if opcode == 0xf0 {
            Some(Instruction::with_ops(InstructionType::LoadHigh, opcode, address,
                Some(AddressingMode::ByteRegister(ByteRegister::A)),
                Some(AddressingMode::ImmediatePointerHigh)))
        } else if opcode == 0xfa {
            Some(Instruction::with_ops(InstructionType::LoadByte, opcode, address,
                Some(AddressingMode::ByteRegister(ByteRegister::A)),
                Some(AddressingMode::ImmediatePointer)))
        } else if opcode == 0xe8 {
            Some(Instruction::with_ops(InstructionType::AddSpAdjusted, opcode, address,
                Some(AddressingMode::WordRegister(WordRegister::SP)),
                Some(AddressingMode::ImmediateByte)))
        } else if opcode == 0xf8 {
            Some(Instruction::with_ops(InstructionType::LoadHlAdjusted, opcode, address,
                Some(AddressingMode::WordRegister(WordRegister::HL)),
                Some(AddressingMode::ImmediateByte)))
        } else if opcode == 0xf9 {
            Some(Instruction::with_ops(InstructionType::LoadWord, opcode, address,
                Some(AddressingMode::WordRegister(WordRegister::SP)),
                Some(AddressingMode::WordRegister(WordRegister::HL))))
        } else if opcode == 0xf3 {
            Some(Instruction::plain(InstructionType::DisableInterrupts, opcode, address))
        } else if opcode == 0xfb {
            Some(Instruction::plain(InstructionType::EnableInterrupts, opcode, address))
        } else {
            None
        }
    }

    /// The eight ALU operations of block 2, selected by bits 5..3.
    pub open spec fn spec_alu_type(bits: u8) -> InstructionType {
        if bits == 0 {
            InstructionType::AddByte
        } else if bits == 1 {
            InstructionType::AddWithCarry
        } else if bits == 2 {
            InstructionType::Sub
        } else if bits == 3 {
            InstructionType::SubWithCarry
        } else if bits == 4 {
            InstructionType::And
        } else if bits == 5 {
            InstructionType::Xor
        } else if bits == 6 {
            InstructionType::Or
        } else {
            InstructionType::Cp
        }
    }

    pub open spec fn plain(instruction_type: InstructionType, opcode: u8, address: u16)
        -> Instruction {
        Instruction { instruction_type, opcode, address, condition: None, target: None,
            source: None }
    }

    /// The non-prefixed accumulator rotates RLCA, RRCA, RLA, RRA.
    pub open spec fn acc_op(instruction_type: InstructionType, opcode: u8, address: u16)
        -> Instruction {
        Instruction {
            instruction_type,
            opcode,
            address,
            condition: None,
            target: Some(AddressingMode::ByteRegister(ByteRegister::A)),
            source: None,
        }
    }

    pub open spec fn with_ops(
        instruction_type: InstructionType,
        opcode: u8,
        address: u16,
        target: Option<AddressingMode>,
        source: Option<AddressingMode>,
    ) -> Instruction {
        Instruction { instruction_type, opcode, address, condition: None, target, source }
    }
}

impl Instruction {
    /// Decode the instruction at `address`, given the opcode byte found
    /// there and the byte that follows it (consulted only after a CB
    /// prefix). Fails exactly on the undefined opcodes, reporting the
    /// offending address and byte.
    pub fn decode(address: u16, opcode: u8, next: u8) -> (result: Result<Instruction, DecodeError>)
        ensures
            match result {
                Ok(instruction) => Instruction::spec_decode(address, opcode, next) == Some(
                    instruction,
                ),
                Err(e) => Instruction::spec_decode(address, opcode, next) is None && e == (
                DecodeError { address, opcode }),
            },
    {
        if opcode == 0xcb {
            Ok(Instruction::decode_cb(address, next))
        } else if opcode == 0x00 {
            Ok(Instruction::build(InstructionType::Nop, opcode, address, None, None, None))
        } else if opcode == 0x08 {
            Ok(Instruction::build(InstructionType::LoadWord, opcode, address, None,
                Some(AddressingMode::ImmediatePointer),
                Some(AddressingMode::WordRegister(WordRegister::SP))))
        } else if opcode == 0x10 {
            Ok(Instruction::build(InstructionType::Stop, opcode, address, None, None, None))
        } else if opcode == 0x18 {
            Ok(Instruction::build(InstructionType::JumpRelative, opcode, address, None,
                Some(AddressingMode::ImmediateByte), None))
        } else if opcode & 0xe7 == 0x20 {
            Ok(Instruction::build(InstructionType::JumpRelative, opcode, address,
                Condition::get_condition(opcode >> 3), Some(AddressingMode::ImmediateByte), None))
        } else if opcode == 0x07 {
            Ok(Instruction::build(InstructionType::RollLeft, opcode, address, None,
                Some(AddressingMode::ByteRegister(ByteRegister::A)), None))
        } else if opcode == 0x0f {
            Ok(Instruction::build(InstructionType::RollRight, opcode, address, None,
                Some(AddressingMode::ByteRegister(ByteRegister::A)), None))
        } else if opcode == 0x17 {
            Ok(Instruction::build(InstructionType::RollLeftThroughCarry, opcode, address, None,
                Some(AddressingMode::ByteRegister(ByteRegister::A)), None))
        } else if opcode == 0x1f {
            Ok(Instruction::build(InstructionType::RollRightThroughCarry, opcode, address, None,
                Some(AddressingMode::ByteRegister(ByteRegister::A)), None))
        } else if opcode == 0x27 {
            Ok(Instruction::build(InstructionType::DecimalAdjustAccumulator, opcode, address,
                None, None, None))
        } else if opcode == 0x2f {
            Ok(Instruction::build(InstructionType::ComplementAccumulator, opcode, address, None,
                None, None))
        } else if opcode == 0x37 {
            Ok(Instruction::build(InstructionType::SetCarryFlag, opcode, address, None, None,
                None))
        } else if opcode == 0x3f {
            Ok(Instruction::build(InstructionType::ComplementCarryFlag, opcode, address, None,
                None, None))
        } else if opcode & 0xcf == 0x01 {
            Ok(Instruction::build(InstructionType::LoadWord, opcode, address, None,
                Some(AddressingMode::get_r16_addressing_mode(opcode >> 4)),
                Some(AddressingMode::ImmediateWord)))
        } else if opcode & 0xcf == 0x02 {
            Ok(Instruction::build(InstructionType::LoadByte, opcode, address, None,
                Some(AddressingMode::RegisterPointer(
                    AddressingMode::get_mem_word_register(opcode >> 4))),
                Some(AddressingMode::ByteRegister(ByteRegister::A))))
        } else if opcode & 0xcf == 0x0a {
            Ok(Instruction::build(InstructionType::LoadByte, opcode, address, None,
                Some(AddressingMode::ByteRegister(ByteRegister::A)),
                Some(AddressingMode::RegisterPointer(
                    AddressingMode::get_mem_word_register(opcode >> 4)))))
        } else if opcode & 0xcf == 0x03 {
            Ok(Instruction::build(InstructionType::IncWord, opcode, address, None,
                Some(AddressingMode::get_r16_addressing_mode(opcode >> 4)), None))
        } else if opcode & 0xcf == 0x0b {
            Ok(Instruction::build(InstructionType::DecWord, opcode, address, None,
                Some(AddressingMode::get_r16_addressing_mode(opcode >> 4)), None))
        } else if opcode & 0xcf == 0x09 {
            Ok(Instruction::build(InstructionType::AddWord, opcode, address, None,
                Some(AddressingMode::WordRegister(WordRegister::HL)),
                Some(AddressingMode::get_r16_addressing_mode(opcode >> 4))))
        } else if opcode & 0xc7 == 0x04 {
            Ok(Instruction::build(InstructionType::IncByte, opcode, address, None,
                Some(AddressingMode::get_r8_adressing_mode(opcode >> 3)), None))
        } else if opcode & 0xc7 == 0x05 {
            Ok(Instruction::build(InstructionType::DecByte, opcode, address, None,
                Some(AddressingMode::get_r8_adressing_mode(opcode >> 3)), None))
        } else if opcode & 0xc7 == 0x06 {
            Ok(Instruction::build(InstructionType::LoadByte, opcode, address, None,
                Some(AddressingMode::get_r8_adressing_mode(opcode >> 3)),
                Some(AddressingMode::ImmediateByte)))
        } else if opcode == 0x76 {
            Ok(Instruction::build(InstructionType::Halt, opcode, address, None, None, None))
        } else if opcode & 0xc0 == 0x40 {
            Ok(Instruction::build(InstructionType::LoadByte, opcode, address, None,
                Some(AddressingMode::get_r8_adressing_mode(opcode >> 3)),
                Some(AddressingMode::get_r8_adressing_mode(opcode))))
        } else if opcode & 0xc0 == 0x80 {
            Ok(Instruction::build(Instruction::alu_type((opcode >> 3) & 7), opcode, address,
                None, Some(AddressingMode::ByteRegister(ByteRegister::A)),
                Some(AddressingMode::get_r8_adressing_mode(opcode))))
        } else if opcode & 0xc7 == 0xc6 {
            Ok(Instruction::build(Instruction::alu_type((opcode >> 3) & 7), opcode, address,
                None, Some(AddressingMode::ByteRegister(ByteRegister::A)),
                Some(AddressingMode::ImmediateByte)))
        } else if opcode & 0xe7 == 0xc0 {
            Ok(Instruction::build(InstructionType::Return, opcode, address,
                Condition::get_condition(opcode >> 3), None, None))
        } else if opcode == 0xc9 {
            Ok(Instruction::build(InstructionType::Return, opcode, address, None, None, None))
        } else if opcode == 0xd9 {
            Ok(Instruction::build(InstructionType::ReturnInterrupt, opcode, address, None, None,
                None))
        } else if opcode & 0xe7 == 0xc2 {
            Ok(Instruction::build(InstructionType::Jump, opcode, address,
                Condition::get_condition(opcode >> 3), Some(AddressingMode::ImmediateWord), None))
        } else if opcode == 0xc3 {
            Ok(Instruction::build(InstructionType::Jump, opcode, address, None,
                Some(AddressingMode::ImmediateWord), None))
        } else if opcode == 0xe9 {
            Ok(Instruction::build(InstructionType::Jump, opcode, address, None,
                Some(AddressingMode::WordRegister(WordRegister::HL)), None))
        } else if opcode & 0xe7 == 0xc4 {
            Ok(Instruction::build(InstructionType::Call, opcode, address,
                Condition::get_condition(opcode >> 3), Some(AddressingMode::ImmediateWord), None))
        } else if opcode == 0xcd {
            Ok(Instruction::build(InstructionType::Call, opcode, address, None,
                Some(AddressingMode::ImmediateWord), None))
        } else if opcode & 0xc7 == 0xc7 {
            Ok(Instruction::build(InstructionType::Restart, opcode, address, None,
                Some(AddressingMode::Target((opcode & 0x38) as u16)), None))
        } else if opcode & 0xcf == 0xc1 {
            Ok(Instruction::build(InstructionType::Pop, opcode, address, None,
                Some(AddressingMode::WordRegister(
                    AddressingMode::get_stack_word_register(opcode >> 4))), None))
        } else if opcode & 0xcf == 0xc5 {
            Ok(Instruction::build(InstructionType::Push, opcode, address, None,
                Some(AddressingMode::WordRegister(
                    AddressingMode::get_stack_word_register(opcode >> 4))), None))
        } else if opcode == 0xe2 {
            Ok(Instruction::build(InstructionType::LoadHigh, opcode, address, None,
                Some(AddressingMode::RegisterPointerHigh(ByteRegister::C)),
                Some(AddressingMode::ByteRegister(ByteRegister::A))))
        } else if opcode == 0xe0 {
            Ok(Instruction::build(InstructionType::LoadHigh, opcode, address, None,
                Some(AddressingMode::ImmediatePointerHigh),
                Some(AddressingMode::ByteRegister(ByteRegister::A))))
        } else if opcode == 0xea {
            Ok(Instruction::build(InstructionType::LoadByte, opcode, address, None,
                Some(AddressingMode::ImmediatePointer),
                Some(AddressingMode::ByteRegister(ByteRegister::A))))
        } else if opcode == 0xf2 {
            Ok(Instruction::build(InstructionType::LoadHigh, opcode, address, None,
                Some(AddressingMode::ByteRegister(ByteRegister::A)),
                Some(AddressingMode::RegisterPointerHigh(ByteRegister::C))))
        } else if opcode == 0xf0 {
            Ok(Instruction::build(InstructionType::LoadHigh, opcode, address, None,
                Some(AddressingMode::ByteRegister(ByteRegister::A)),
                Some(AddressingMode::ImmediatePointerHigh)))
        } else if opcode == 0xfa {
            Ok(Instruction::build(InstructionType::LoadByte, opcode, address, None,
                Some(AddressingMode::ByteRegister(ByteRegister::A)),
                Some(AddressingMode::ImmediatePointer)))
        } else if opcode == 0xe8 {
            Ok(Instruction::build(InstructionType::AddSpAdjusted, opcode, address, None,
                Some(AddressingMode::WordRegister(WordRegister::SP)),
                Some(AddressingMode::ImmediateByte)))
        } else if opcode == 0xf8 {
            Ok(Instruction::build(InstructionType::LoadHlAdjusted, opcode, address, None,
                Some(AddressingMode::WordRegister(WordRegister::HL)),
                Some(AddressingMode::ImmediateByte)))
        } else if opcode == 0xf9 {
            Ok(Instruction::build(InstructionType::LoadWord, opcode, address, None,
                Some(AddressingMode::WordRegister(WordRegister::SP)),
                Some(AddressingMode::WordRegister(WordRegister::HL))))
        } else if opcode == 0xf3 {
            Ok(Instruction::build(InstructionType::DisableInterrupts, opcode, address, None,
                None, None))
        } else if opcode == 0xfb {
            Ok(Instruction::build(InstructionType::EnableInterrupts, opcode, address, None, None,
                None))
        } else {
            Err(DecodeError { address, opcode })
        }
    }

    fn decode_cb(address: u16, next: u8) -> (result: Instruction)
        ensures
            result == Instruction::spec_decode_cb(address, next),
    {
        let operand = AddressingMode::get_r8_adressing_mode(next);
        let bit_index = (next >> 3) & 7;
        if next & 0xc0 == 0x00 {
            let kind = match bit_index {
                0 => InstructionType::RollLeft,
                1 => InstructionType::RollRight,
                2 => InstructionType::RollLeftThroughCarry,
                3 => InstructionType::RollRightThroughCarry,
                4 => InstructionType::ShiftLeftArithmetically,
                5 => InstructionType::ShiftRightArithmetically,
                6 => InstructionType::Swap,
                _ => InstructionType::ShiftRightLogically,
            };
            Instruction::build(kind, 0xcb, address, None, Some(operand), None)
        } else {
            let kind = if next & 0xc0 == 0x40 {
                InstructionType::TestBit
            } else if next & 0xc0 == 0x80 {
                InstructionType::ResetBit
            } else {
                InstructionType::SetBit
            };
            Instruction::build(kind, 0xcb, address, None, Some(operand),
                Some(AddressingMode::BitPosition(bit_index)))
        }
    }

    #[inline]
    fn build(
        instruction_type: InstructionType,
        opcode: u8,
        address: u16,
        condition: Option<Condition>,
        target: Option<AddressingMode>,
        source: Option<AddressingMode>,
    ) -> (result: Instruction)
        ensures
            result == (Instruction { instruction_type, opcode, address, condition, target, source }),
    {
        Instruction { instruction_type, opcode, address, condition, target, source }
    }

    fn alu_type(bits: u8) -> (result: InstructionType)
        ensures
            result == Instruction::spec_alu_type(bits),
    {
        match bits {
            0 => InstructionType::AddByte,
            1 => InstructionType::AddWithCarry,
            2 => InstructionType::Sub,
            3 => InstructionType::SubWithCarry,
            4 => InstructionType::And,
            5 => InstructionType::Xor,
            6 => InstructionType::Or,
            _ => InstructionType::Cp,
        }
    }

    /// Decode from a flat byte image, as the disassembly view does.
    pub fn create(address: u16, data: &Vec<u8>) -> (result: Result<Instruction, DecodeError>)
        requires
            address as int + 1 < data@.len(),
        ensures
            match result {
                Ok(instruction) => Instruction::spec_decode(address, data@[address as int],
                    data@[address as int + 1]) == Some(instruction),
                Err(e) => Instruction::spec_decode(address, data@[address as int],
                    data@[address as int + 1]) is None && e == (DecodeError {
                    address,
                    opcode: data@[address as int],
                }),
            },
    {
        let opcode = data[address as usize];
        let next = data[address as usize + 1];
        Instruction::decode(address, opcode, next)
    }

    /// The encoded size in bytes: CB-prefixed instructions are always two
    /// bytes; otherwise the larger of the two operand sizes.
    pub open spec fn spec_instruction_size(self) -> u8 {
        if self.opcode == 0xcb {
            2u8
        } else {
            let target_size = match self.target {
                Some(target) => target.spec_size(),
                None => 1u8,
            };
            let source_size = match self.source {
                Some(source) => source.spec_size(),
                None => 1u8,
            };
            if target_size >= source_size {
                target_size
            } else {
                source_size
            }
        }
    }

    pub fn size(&self) -> (result: u8)
        ensures
            result == self.spec_instruction_size(),
            1 <= result <= 3,
    {
        if self.opcode == 0xcb {
            return 2;
        }
        let target_size = match &self.target {
            Some(target) => target.size(),
            None => 1,
        };
        let source_size = match &self.source {
            Some(source) => source.size(),
            None => 1,
        };
        if target_size >= source_size {
            target_size
        } else {
            source_size
        }
    }
}

impl AddressingMode {
    /// Operand forms an 8-bit read can resolve.
    pub open spec fn is_byte_readable(self) -> bool {
        match self {
            AddressingMode::ImmediateByte => true,
            AddressingMode::ByteRegister(_) => true,
            AddressingMode::RegisterPointer(_) => true,
            AddressingMode::ImmediatePointer => true,
            AddressingMode::ImmediatePointerHigh => true,
            AddressingMode::RegisterPointerHigh(_) => true,
            _ => false,
        }
    }

    /// Operand forms an 8-bit write can resolve.
    pub open spec fn is_byte_writable(self) -> bool {
        match self {
            AddressingMode::ByteRegister(_) => true,
            AddressingMode::RegisterPointer(_) => true,
            AddressingMode::ImmediatePointer => true,
            AddressingMode::ImmediatePointerHigh => true,
            AddressingMode::RegisterPointerHigh(_) => true,
            _ => false,
        }
    }
}

impl Instruction {
    /// The operand shapes the executor relies on, guaranteed by the
    /// decoder for every instruction it produces.
    pub open spec fn wf(self) -> bool {
        match self.instruction_type {
            InstructionType::Nop => true,
            InstructionType::Stop => true,
            InstructionType::Halt => true,
            InstructionType::DisableInterrupts => true,
            InstructionType::EnableInterrupts => true,
            InstructionType::DecimalAdjustAccumulator => true,
            InstructionType::ComplementAccumulator => true,
            InstructionType::SetCarryFlag => true,
            InstructionType::ComplementCarryFlag => true,
            InstructionType::Return => true,
            InstructionType::ReturnInterrupt => true,
            InstructionType::LoadByte => {
                &&& self.target matches Some(t) && t.is_byte_writable()
                &&& self.source matches Some(s) && s.is_byte_readable()
            },
            InstructionType::LoadHigh => {
                &&& self.target matches Some(t) && t.is_byte_writable()
                &&& self.source matches Some(s) && s.is_byte_readable()
            },
            InstructionType::LoadWord => {
                &&& (self.target matches Some(AddressingMode::WordRegister(_)) || self.target
                    matches Some(AddressingMode::ImmediatePointer))
                &&& (self.source matches Some(AddressingMode::WordRegister(_)) || self.source
                    matches Some(AddressingMode::ImmediateWord))
            },
            InstructionType::IncByte | InstructionType::DecByte => {
                self.target matches Some(t) && (t matches AddressingMode::ByteRegister(_) || t
                    matches AddressingMode::RegisterPointer(_))
            },
            InstructionType::IncWord | InstructionType::DecWord => self.target matches Some(
                AddressingMode::WordRegister(_),
            ),
            InstructionType::AddByte | InstructionType::AddWithCarry | InstructionType::Sub
                | InstructionType::SubWithCarry | InstructionType::And | InstructionType::Xor
                | InstructionType::Or | InstructionType::Cp => {
                &&& self.target == Some(AddressingMode::ByteRegister(ByteRegister::A))
                &&& self.source matches Some(s) && s.is_byte_readable()
            },
            InstructionType::AddWord => {
                &&& self.target == Some(AddressingMode::WordRegister(WordRegister::HL))
                &&& self.source matches Some(AddressingMode::WordRegister(_))
            },
            InstructionType::AddSpAdjusted => {
                &&& self.target == Some(AddressingMode::WordRegister(WordRegister::SP))
                &&& self.source == Some(AddressingMode::ImmediateByte)
            },
            InstructionType::LoadHlAdjusted => {
                &&& self.target == Some(AddressingMode::WordRegister(WordRegister::HL))
                &&& self.source == Some(AddressingMode::ImmediateByte)
            },
            InstructionType::Jump => self.target == Some(AddressingMode::ImmediateWord)
                || self.target == Some(AddressingMode::WordRegister(WordRegister::HL)),
            InstructionType::JumpRelative => self.target == Some(AddressingMode::ImmediateByte),
            InstructionType::Push | InstructionType::Pop => self.target matches Some(
                AddressingMode::WordRegister(r),
            ) && (r == WordRegister::BC || r == WordRegister::DE || r == WordRegister::HL || r
                == WordRegister::AF),
            InstructionType::Call => self.target == Some(AddressingMode::ImmediateWord),
            InstructionType::Restart => self.target matches Some(AddressingMode::Target(_)),
            InstructionType::RollLeft | InstructionType::RollRight
                | InstructionType::RollLeftThroughCarry | InstructionType::RollRightThroughCarry
                | InstructionType::ShiftLeftArithmetically
                | InstructionType::ShiftRightArithmetically | InstructionType::Swap
                | InstructionType::ShiftRightLogically => {
                self.target matches Some(t) && (t matches AddressingMode::ByteRegister(_) || t
                    matches AddressingMode::RegisterPointer(_))
            },
            InstructionType::TestBit | InstructionType::ResetBit | InstructionType::SetBit => {
                &&& self.target matches Some(t) && (t matches AddressingMode::ByteRegister(_) || t
                    matches AddressingMode::RegisterPointer(_))
                &&& self.source matches Some(AddressingMode::BitPosition(b)) && b < 8
            },
        }
    }
}

/// Every instruction the decode table produces is well-formed for the
/// executor, and is stamped with the address it was decoded at.
pub proof fn lemma_decode_wf(address: u16, opcode: u8, next: u8)
    ensures
        Instruction::spec_decode(address, opcode, next) matches Some(i) ==> i.wf() && i.address
            == address && i.opcode == opcode,
{
    if opcode == 0xcb {
        let i = Instruction::spec_decode_cb(address, next);
        assert(((next >> 3) & 7) < 8) by (bit_vector);
        assert(i.wf());
    }
}

} // verus!
