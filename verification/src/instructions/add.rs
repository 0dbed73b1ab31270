//! The add instruction: adds a byte, or the value of a register, to a
//! register.

use super::ERR_MIS_VALUE;
use super::{err_arg_missing, first_register, register_first_arg};
use super::{Argument, Fault, Instruction, InstructionError};
use crate::cpu::{
    lemma_flag_after_assignment, lemma_flag_assignment_keeps_other_bits,
    lemma_flag_assignment_keeps_other_flag,
};
use crate::cpu::{Cpu, CpuState, Flag, Register};
use vstd::prelude::*;

verus! {

/// Adds to a register. The first operand names the register that is added
/// to; the second is an immediate byte or the register whose value is added.
/// The register receives the low eight bits of the sum, the carry flag says
/// whether the sum went beyond them, and the zero flag says whether they are
/// all zero.
pub struct Add {}

/// The state after `total`, the sum of two bytes, has been stored to
/// `register`: the register holds the low eight bits of the sum, and both
/// flags are written anew from it.
pub open spec fn sum_stored(state: CpuState, register: Register, total: int) -> CpuState {
    state.write(register, (total % 0x100) as u8).with_flag(Flag::Carry, total > 0xFF).with_flag(
        Flag::Zero,
        total % 0x100 == 0,
    )
}

impl Instruction for Add {
    open spec fn outcome(state: CpuState, arguments: Seq<Argument>) -> Result<CpuState, Fault> {
        match first_register(arguments) {
            Err(fault) => Err(fault),
            Ok(register) => if arguments.len() < 2 {
                Err(Fault::MissingArgument(2, ERR_MIS_VALUE@))
            } else {
                match arguments[1] {
                    Argument::Byte(value) => Ok(
                        sum_stored(state, register, state.read(register) + value),
                    ),
                    Argument::Register(source) => Ok(
                        sum_stored(
                            state.latch(source),
                            register,
                            state.read(register) + state.read(source),
                        ),
                    ),
                }
            },
        }
    }

    fn execute(cpu: &mut Cpu, arguments: Vec<Argument>) -> (result: Result<(), InstructionError>) {
        let register = register_first_arg(&arguments)?;

        match arguments.get(1) {
            None => Err(err_arg_missing(2, ERR_MIS_VALUE)),
            Some(value) => match value {
                Argument::Byte(src) => add_directly(cpu, register, *src),
                Argument::Register(src) => add_registers(cpu, register, *src),
            },
        }
    }
}

fn add_directly(cpu: &mut Cpu, register: Register, value: u8) -> (result: Result<
    (),
    InstructionError,
>)
    ensures
        result is Ok,
        final(cpu)@ == sum_stored(old(cpu)@, register, old(cpu)@.read(register) + value),
{
    let register_value: u16 = cpu.register(register) as u16;
    let sum: u16 = register_value + (value as u16);
    let sum_as_byte: u8 = (sum & 0xFF) as u8;
    proof {
        lemma_low_byte(sum);
    }

    assing_to_cpu(cpu, register, sum_as_byte, sum)
}

fn add_registers(cpu: &mut Cpu, dest: Register, source: Register) -> (result: Result<
    (),
    InstructionError,
>)
    ensures
        result is Ok,
        final(cpu)@ == sum_stored(
            old(cpu)@.latch(source),
            dest,
            old(cpu)@.read(dest) + old(cpu)@.read(source),
        ),
{
    let dest_value: u16 = cpu.register(dest) as u16;
    let source_value: u16 = cpu.register(source) as u16;
    let sum: u16 = source_value + dest_value;
    let sum_as_byte: u8 = (sum & 0xFF) as u8;
    proof {
        lemma_low_byte(sum);
    }

    assing_to_cpu(cpu, dest, sum_as_byte, sum)
}

fn assing_to_cpu(cpu: &mut Cpu, register: Register, sum_as_byte: u8, sum: u16) -> (result: Result<
    (),
    InstructionError,
>)
    ensures
        result is Ok,
        final(cpu)@ == old(cpu)@.write(register, sum_as_byte).with_flag(
            Flag::Carry,
            sum > 0xFF,
        ).with_flag(Flag::Zero, sum_as_byte == 0),
{
    cpu.assign_register(register, sum_as_byte);

    cpu.assign_flag(Flag::Carry, sum > 0xFF);
    cpu.assign_flag(Flag::Zero, sum_as_byte == 0);

    Ok(())
}

proof fn lemma_low_byte(sum: u16)
    by (bit_vector)
    ensures
        sum & 0xFF == sum % 0x100,
        ((sum & 0xFF) as u8) as u16 == sum % 0x100,
{
}

/// What storing a sum leaves behind: the register reads as the low eight
/// bits of the sum, the carry flag says whether the sum went beyond them, and
/// the zero flag says whether they are all zero. The flags that were there
/// before have no part in it.
pub proof fn lemma_sum_stored(state: CpuState, register: Register, total: int)
    ensures
        sum_stored(state, register, total).read(register) == total % 0x100,
        sum_stored(state, register, total).flag(Flag::Carry) == (total > 0xFF),
        sum_stored(state, register, total).flag(Flag::Zero) == (total % 0x100 == 0),
{
    let stored = state.write(register, (total % 0x100) as u8);
    let carried = stored.with_flag(Flag::Carry, total > 0xFF);
    lemma_flag_after_assignment(carried, Flag::Zero, total % 0x100 == 0);
    lemma_flag_assignment_keeps_other_flag(carried, Flag::Zero, total % 0x100 == 0, Flag::Carry);
    lemma_flag_after_assignment(stored, Flag::Carry, total > 0xFF);
}

/// Storing a sum changes nothing but the register it is stored to and the
/// two flags: the other register and the remaining bits of the flags byte
/// stay as they were.
pub proof fn lemma_sum_stored_keeps_the_rest(
    state: CpuState,
    register: Register,
    total: int,
    other: Register,
    bit: u8,
)
    requires
        other != register,
        2 <= bit < 8,
    ensures
        sum_stored(state, register, total).content(other) == state.content(other),
        sum_stored(state, register, total).read(other) == state.read(other),
        sum_stored(state, register, total).flags & (1u8 << bit) == state.flags & (1u8 << bit),
{
    let stored = state.write(register, (total % 0x100) as u8);
    let carried = stored.with_flag(Flag::Carry, total > 0xFF);
    lemma_flag_assignment_keeps_other_bits(stored, Flag::Carry, total > 0xFF, bit);
    lemma_flag_assignment_keeps_other_bits(carried, Flag::Zero, total % 0x100 == 0, bit);
}

/// Adding an immediate byte: the register reads as the sum modulo 256, and
/// the flags tell of that sum alone.
pub proof fn lemma_add_immediate(state: CpuState, register: Register, value: u8)
    ensures
        ({
            let total = state.read(register) + value;
            &&& Add::outcome(state, seq![Argument::Register(register), Argument::Byte(value)])
                == Ok::<CpuState, Fault>(sum_stored(state, register, total))
            &&& sum_stored(state, register, total).read(register) == total % 0x100
            &&& sum_stored(state, register, total).flag(Flag::Carry) == (total > 0xFF)
            &&& sum_stored(state, register, total).flag(Flag::Zero) == (total % 0x100 == 0)
        }),
{
    lemma_sum_stored(state, register, state.read(register) + value);
}

/// Adding one register to another: the first reads as the sum modulo 256,
/// the second, where it is another register, reads as before, and the flags
/// tell of that sum alone.
pub proof fn lemma_add_registers(state: CpuState, dest: Register, source: Register)
    ensures
        ({
            let total = state.read(dest) + state.read(source);
            let next = sum_stored(state.latch(source), dest, total);
            &&& Add::outcome(state, seq![Argument::Register(dest), Argument::Register(source)])
                == Ok::<CpuState, Fault>(next)
            &&& next.read(dest) == total % 0x100
            &&& source != dest ==> next.read(source) == state.read(source)
            &&& next.flag(Flag::Carry) == (total > 0xFF)
            &&& next.flag(Flag::Zero) == (total % 0x100 == 0)
        }),
{
    lemma_sum_stored(state.latch(source), dest, state.read(dest) + state.read(source));
}

/// An addition overwrites both flags: whatever the flags byte held before,
/// the same operands on the same registers are accepted or rejected alike,
/// and leave the same registers and the same two flags.
pub proof fn lemma_add_overwrites_flags(state: CpuState, flags: u8, arguments: Seq<Argument>)
    ensures
        match (Add::outcome(state, arguments), Add::outcome(state.with_flags(flags), arguments)) {
            (Ok(next), Ok(other)) => {
                &&& next.registers == other.registers
                &&& next.flag(Flag::Carry) == other.flag(Flag::Carry)
                &&& next.flag(Flag::Zero) == other.flag(Flag::Zero)
            },
            (Err(fault), Err(other)) => fault == other,
            _ => false,
        },
{
    let other = state.with_flags(flags);
    if let Ok(register) = first_register(arguments) {
        if arguments.len() >= 2 {
            match arguments[1] {
                Argument::Byte(value) => {
                    let total = state.read(register) + value;
                    lemma_sum_stored(state, register, total);
                    lemma_sum_stored(other, register, total);
                },
                Argument::Register(source) => {
                    let total = state.read(register) + state.read(source);
                    lemma_sum_stored(state.latch(source), register, total);
                    lemma_sum_stored(other.latch(source), register, total);
                },
            }
        }
    }
}

} // verus!
