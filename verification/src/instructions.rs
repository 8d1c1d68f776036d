//! Decoding the instructions of a code array.
//!
//! Instructions differ in width, so the place of each follows from the
//! width of all before it. An instruction whose width is not known here
//! ends the decoding: to guess it would misplace every later one.

use crate::cursor::{get_u1, get_u2, spec_get_u1, spec_get_u2};
use crate::error::DecodeError;
use crate::opcodes::{Opcode, get_opcode, lemma_opcode_chosen, spec_get_opcode};
use vstd::prelude::*;

verus! {

/// What follows an opcode in the code array.
#[derive(Clone, Copy, Debug, PartialEq, Eq, Structural)]
pub enum OperandShape {
    /// Nothing.
    NoOperand,
    /// A pool index of one byte.
    NarrowIndex,
    /// A pool index of two bytes.
    WideIndex,
}

/// The operand of a decoded instruction. An index is the number found in
/// the code array; what it refers to is not looked up here.
#[derive(Clone, Copy, Debug, PartialEq, Eq, Structural)]
pub enum Operand {
    NoOperand,
    NarrowIndex(u8),
    WideIndex(u16),
}

/// One decoded instruction, with the offset at which it starts.
#[derive(Clone, Copy, Debug, PartialEq, Eq, Structural)]
pub struct Instruction {
    pub offset: usize,
    pub opcode: Opcode,
    pub operand: Operand,
}

impl Operand {
    /// The number of bytes that the operand takes in the code array.
    pub open spec fn width(self) -> nat {
        match self {
            Operand::NoOperand => 0,
            Operand::NarrowIndex(_) => 1,
            Operand::WideIndex(_) => 2,
        }
    }
}

impl Instruction {
    /// The number of bytes that the instruction takes in the code array.
    pub open spec fn width(self) -> nat {
        1 + self.operand.width()
    }
}

/// What follows `opcode` in the code array, for the opcodes that can be
/// decoded.
pub open spec fn spec_operand_shape(opcode: Opcode) -> Option<OperandShape> {
    match opcode {
        Opcode::Nop => Some(OperandShape::NoOperand),
        Opcode::Aload0 => Some(OperandShape::NoOperand),
        Opcode::Return => Some(OperandShape::NoOperand),
        Opcode::Ldc => Some(OperandShape::NarrowIndex),
        Opcode::Getstatic => Some(OperandShape::WideIndex),
        Opcode::Invokevirtual => Some(OperandShape::WideIndex),
        Opcode::Invokespecial => Some(OperandShape::WideIndex),
        _ => None,
    }
}

/// The operand of the given shape that starts at `idx`.
pub open spec fn spec_decode_operand(idx: usize, shape: OperandShape, code: Seq<u8>) -> Result<
    (usize, Operand),
    DecodeError,
> {
    match shape {
        OperandShape::NoOperand => Ok((idx, Operand::NoOperand)),
        OperandShape::NarrowIndex => match spec_get_u1(idx, code) {
            Err(e) => Err(e),
            Ok((end, index)) => Ok((end, Operand::NarrowIndex(index))),
        },
        OperandShape::WideIndex => match spec_get_u2(idx, code) {
            Err(e) => Err(e),
            Ok((end, index)) => Ok((end, Operand::WideIndex(index))),
        },
    }
}

/// The instruction that starts at `offset`, and the offset after it.
pub open spec fn spec_decode_instruction(offset: usize, code: Seq<u8>) -> Result<
    (usize, Instruction),
    DecodeError,
> {
    match spec_get_u1(offset, code) {
        Err(e) => Err(e),
        Ok((at, byte)) => match spec_get_opcode(byte) {
            None => Err(DecodeError::UnimplementedOpcode { byte, offset }),
            Some(opcode) => match spec_operand_shape(opcode) {
                None => Err(DecodeError::UnimplementedOpcode { byte, offset }),
                Some(shape) => match spec_decode_operand(at, shape, code) {
                    Err(e) => Err(e),
                    Ok((end, operand)) => Ok((end, Instruction { offset, opcode, operand })),
                },
            },
        },
    }
}

/// The instructions from `offset` to the end of the code array.
pub open spec fn spec_decode_instructions_from(offset: usize, code: Seq<u8>) -> Result<
    Seq<Instruction>,
    DecodeError,
>
    decreases code.len() - offset,
    via spec_decode_instructions_from_decreases
{
    if offset >= code.len() {
        Ok(Seq::empty())
    } else {
        match spec_decode_instruction(offset, code) {
            Err(e) => Err(e),
            Ok((next, head)) => match spec_decode_instructions_from(next, code) {
                Err(e) => Err(e),
                Ok(tail) => Ok(seq![head] + tail),
            },
        }
    }
}

#[via_fn]
proof fn spec_decode_instructions_from_decreases(offset: usize, code: Seq<u8>) {
    if offset < code.len() && spec_decode_instruction(offset, code) is Ok {
        assert(spec_decode_instruction(offset, code)->Ok_0.0 > offset);
    }
}

/// The instructions of a code array.
pub open spec fn spec_decode_instructions(code: Seq<u8>) -> Result<Seq<Instruction>, DecodeError> {
    spec_decode_instructions_from(0, code)
}

/// Instructions decoded so far, followed by those still to be decoded.
pub open spec fn instructions_after(
    done: Seq<Instruction>,
    rest: Result<Seq<Instruction>, DecodeError>,
) -> Result<Seq<Instruction>, DecodeError> {
    match rest {
        Err(e) => Err(e),
        Ok(tail) => Ok(done + tail),
    }
}

/// The widths of `instructions`, added up.
pub open spec fn total_width(instructions: Seq<Instruction>) -> nat
    decreases instructions.len(),
{
    if instructions.len() == 0 {
        0
    } else {
        instructions[0].width() + total_width(instructions.drop_first())
    }
}

/// A decoded instruction starts where it was decoded, and ends as many
/// bytes later as it is wide, inside the code array.
pub proof fn lemma_instruction_width(offset: usize, code: Seq<u8>)
    requires
        spec_decode_instruction(offset, code) is Ok,
    ensures
        ({
            let (end, instruction) = spec_decode_instruction(offset, code)->Ok_0;
            &&& instruction.offset == offset
            &&& end == offset + instruction.width()
            &&& end <= code.len()
            &&& instruction.opcode.byte() == code[offset as int]
        }),
{
    lemma_opcode_chosen(code[offset as int]);
}

/// Decoding a code array covers it: the first instruction starts at
/// `offset`, each one starts where the one before it ends, and the last one
/// ends with the array. So the widths add up to the bytes decoded.
pub proof fn lemma_instructions_cover(offset: usize, code: Seq<u8>)
    requires
        offset <= code.len(),
        spec_decode_instructions_from(offset, code) is Ok,
    ensures
        ({
            let instructions = spec_decode_instructions_from(offset, code)->Ok_0;
            &&& offset + total_width(instructions) == code.len()
            &&& forall|i: int|
                0 <= i < instructions.len() ==> (#[trigger] instructions[i]).offset == offset
                    + total_width(instructions.take(i))
            &&& forall|i: int|
                0 <= i < instructions.len() ==> spec_decode_instruction(
                    (#[trigger] instructions[i]).offset,
                    code,
                ) is Ok && spec_decode_instruction(instructions[i].offset, code)->Ok_0.1
                    == instructions[i]
        }),
    decreases code.len() - offset,
{
    let instructions = spec_decode_instructions_from(offset, code)->Ok_0;
    if offset < code.len() {
        lemma_instruction_width(offset, code);
        let (next, head) = spec_decode_instruction(offset, code)->Ok_0;
        lemma_instructions_cover(next, code);
        let tail = spec_decode_instructions_from(next, code)->Ok_0;
        assert(instructions =~= seq![head] + tail);
        assert(instructions.drop_first() =~= tail);
        assert forall|i: int| 0 <= i < instructions.len() implies (#[trigger] instructions[i]).offset
            == offset + total_width(instructions.take(i)) by {
            if i == 0 {
                assert(instructions.take(0) =~= Seq::empty());
            } else {
                assert(instructions[i] == tail[i - 1]);
                assert(instructions.take(i).drop_first() =~= tail.take(i - 1));
            }
        }
        assert forall|i: int| 0 <= i < instructions.len() implies spec_decode_instruction(
            (#[trigger] instructions[i]).offset,
            code,
        ) is Ok && spec_decode_instruction(instructions[i].offset, code)->Ok_0.1
            == instructions[i] by {
            if i > 0 {
                assert(instructions[i] == tail[i - 1]);
            }
        }
    }
}

/// What follows `opcode` in the code array, for the opcodes that can be
/// decoded.
pub fn operand_shape(opcode: &Opcode) -> (shape: Option<OperandShape>)
    ensures
        shape == spec_operand_shape(*opcode),
{
    match opcode {
        Opcode::Nop => Some(OperandShape::NoOperand),
        Opcode::Aload0 => Some(OperandShape::NoOperand),
        Opcode::Return => Some(OperandShape::NoOperand),
        Opcode::Ldc => Some(OperandShape::NarrowIndex),
        Opcode::Getstatic => Some(OperandShape::WideIndex),
        Opcode::Invokevirtual => Some(OperandShape::WideIndex),
        Opcode::Invokespecial => Some(OperandShape::WideIndex),
        _ => None,
    }
}

/// Decodes the operand of the given shape that starts at `idx`.
pub fn decode_operand(idx: usize, shape: OperandShape, code: &Vec<u8>) -> (r: Result<
    (usize, Operand),
    DecodeError,
>)
    ensures
        r == spec_decode_operand(idx, shape, code@),
{
    match shape {
        OperandShape::NoOperand => Ok((idx, Operand::NoOperand)),
        OperandShape::NarrowIndex => {
            let (end, index) = get_u1(idx, code)?;
            Ok((end, Operand::NarrowIndex(index)))
        },
        OperandShape::WideIndex => {
            let (end, index) = get_u2(idx, code)?;
            Ok((end, Operand::WideIndex(index)))
        },
    }
}

/// Decodes the instruction that starts at `offset`. Decoding can start
/// again at any offset at which an instruction starts.
pub fn decode_instruction(offset: usize, code: &Vec<u8>) -> (r: Result<
    (usize, Instruction),
    DecodeError,
>)
    ensures
        r == spec_decode_instruction(offset, code@),
        r is Ok ==> r->Ok_0.1.offset == offset && r->Ok_0.0 == offset + r->Ok_0.1.width()
            && r->Ok_0.0 <= code.len(),
{
    let (at, byte) = get_u1(offset, code)?;
    let opcode = match get_opcode(byte) {
        None => { return Err(DecodeError::UnimplementedOpcode { byte, offset }); },
        Some(opcode) => opcode,
    };
    let shape = match operand_shape(&opcode) {
        None => { return Err(DecodeError::UnimplementedOpcode { byte, offset }); },
        Some(shape) => shape,
    };
    let (end, operand) = decode_operand(at, shape, code)?;
    proof {
        lemma_instruction_width(offset, code@);
    }
    Ok((end, Instruction { offset, opcode, operand }))
}

/// Decodes every instruction of a code array, from its first byte to its
/// last.
pub fn decode_instructions(code: &Vec<u8>) -> (r: Result<Vec<Instruction>, DecodeError>)
    ensures
        match r {
            Err(e) => spec_decode_instructions(code@) == Err::<Seq<Instruction>, DecodeError>(e),
            Ok(instructions) => spec_decode_instructions(code@) == Ok::<
                Seq<Instruction>,
                DecodeError,
            >(instructions@),
        },
        r is Ok ==> total_width(r->Ok_0@) == code.len(),
        r is Ok ==> forall|i: int|
            0 <= i < r->Ok_0.len() ==> (#[trigger] r->Ok_0[i]).offset == total_width(
                r->Ok_0@.take(i),
            ),
{
    let mut instructions: Vec<Instruction> = Vec::new();
    let mut offset: usize = 0;
    assert(Seq::<Instruction>::empty() + spec_decode_instructions(code@)->Ok_0
        =~= spec_decode_instructions(code@)->Ok_0);
    while offset < code.len()
        invariant
            offset <= code.len(),
            spec_decode_instructions(code@) == instructions_after(
                instructions@,
                spec_decode_instructions_from(offset, code@),
            ),
        decreases code.len() - offset,
    {
        let ghost done = instructions@;
        let (next, instruction) = decode_instruction(offset, code)?;
        proof {
            let tail = spec_decode_instructions_from(next, code@);
            if tail is Ok {
                assert(done + (seq![instruction] + tail->Ok_0) =~= done.push(instruction)
                    + tail->Ok_0);
            }
        }
        instructions.push(instruction);
        offset = next;
    }
    proof {
        assert(instructions@ + Seq::<Instruction>::empty() =~= instructions@);
        lemma_instructions_cover(0, code@);
    }
    Ok(instructions)
}

} // verus!
