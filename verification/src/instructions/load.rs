//! The load instruction: gives a register an immediate value.

use super::{err_arg_mismatched, err_arg_missing, first_register, register_first_arg};
use super::{Argument, Fault, Instruction, InstructionError};
use super::{ERR_MIS_VALUE, ERR_NOT_VALUE};
use crate::cpu::{Cpu, CpuState, Register};
use vstd::prelude::*;

verus! {

/// Loads an immediate byte into a register. The first operand names the
/// register, the second is the byte. No flag changes.
pub struct Load {}

impl Instruction for Load {
    open spec fn outcome(state: CpuState, arguments: Seq<Argument>) -> Result<CpuState, Fault> {
        match first_register(arguments) {
            Err(fault) => Err(fault),
            Ok(register) => if arguments.len() < 2 {
                Err(Fault::MissingArgument(2, ERR_MIS_VALUE@))
            } else {
                match arguments[1] {
                    Argument::Byte(value) => Ok(state.write(register, value)),
                    Argument::Register(_) => Err(Fault::MismatchedArgument(2, ERR_NOT_VALUE@)),
                }
            },
        }
    }

    fn execute(cpu: &mut Cpu, arguments: Vec<Argument>) -> (result: Result<(), InstructionError>) {
        let register = register_first_arg(&arguments)?;

        match arguments.get(1) {
            None => Err(err_arg_missing(2, ERR_MIS_VALUE)),
            Some(value) => match value {
                Argument::Byte(value) => load_immediate(cpu, register, *value),
                _ => Err(err_arg_mismatched(2, ERR_NOT_VALUE)),
            },
        }
    }
}

fn load_immediate(cpu: &mut Cpu, register: Register, value: u8) -> (result: Result<
    (),
    InstructionError,
>)
    ensures
        result is Ok,
        final(cpu)@ == old(cpu)@.write(register, value),
{
    cpu.assign_register(register, value);
    Ok(())
}

/// Loading a byte: the register reads as the byte, the other register and
/// the flags stay as they were.
pub proof fn lemma_load_immediate(state: CpuState, register: Register, value: u8, other: Register)
    ensures
        ({
            let next = state.write(register, value);
            &&& Load::outcome(state, seq![Argument::Register(register), Argument::Byte(value)])
                == Ok::<CpuState, Fault>(next)
            &&& next.read(register) == value
            &&& other != register ==> next.content(other) == state.content(other)
            &&& next.flags == state.flags
        }),
{
}

} // verus!
