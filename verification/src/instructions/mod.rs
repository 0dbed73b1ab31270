//! The instruction set: what an instruction is, the operands it takes, and
//! the errors with which it rejects them.

pub mod add;
pub mod load;

use crate::cpu::{Cpu, CpuState, Register};
use vstd::prelude::*;

verus! {

/// The description of the error for a missing first operand.
pub const ERR_MIS_REGISTER: &'static str = "Missing register";

/// The description of the error for a first operand that is no register.
pub const ERR_NOT_REGISTER: &'static str = "Argument is not a register";

/// The description of the error for a missing second operand.
pub const ERR_MIS_VALUE: &'static str = "Missing value";

/// The description of the error for a second operand that is no byte.
pub const ERR_NOT_VALUE: &'static str = "Argument is not a byte";

/// Why an instruction rejected its operands. Each variant carries the
/// position of the offending operand, counted from one, and a description.
#[derive(Clone, PartialEq, Eq, Debug)]
pub enum InstructionError {
    /// The operand list has no entry at the position.
    MissingArgument(u8, String),
    /// The entry at the position is not of the kind the instruction takes there.
    MismatchedArgument(u8, String),
}

/// The mathematical model of an [`InstructionError`], with the description
/// as a sequence of characters.
pub enum Fault {
    MissingArgument(u8, Seq<char>),
    MismatchedArgument(u8, Seq<char>),
}

impl View for InstructionError {
    type V = Fault;

    open spec fn view(&self) -> Fault {
        match self {
            InstructionError::MissingArgument(position, message) => Fault::MissingArgument(
                *position,
                message@,
            ),
            InstructionError::MismatchedArgument(position, message) => Fault::MismatchedArgument(
                *position,
                message@,
            ),
        }
    }
}

/// An operand of an instruction: a register, or an immediate byte.
pub enum Argument {
    Register(Register),
    Byte(u8),
}

/// An operation on the processor.
pub trait Instruction {
    /// What the instruction makes of `state` when given `arguments`: the
    /// state that follows, or the fault with which it rejects the operands.
    spec fn outcome(state: CpuState, arguments: Seq<Argument>) -> Result<CpuState, Fault>;

    /// Executes the instruction on `cpu`. Operands are checked before
    /// anything is written: where they are rejected, `cpu` is left as it was.
    fn execute(cpu: &mut Cpu, arguments: Vec<Argument>) -> (result: Result<(), InstructionError>)
        ensures
            match Self::outcome(old(cpu)@, arguments@) {
                Ok(next) => result is Ok && final(cpu)@ == next,
                Err(fault) => result is Err && result->Err_0@ == fault && final(cpu)@ == old(cpu)@,
            },
    ;
}

/// The register that an operand list names first, or the fault of a list
/// that names none there.
pub open spec fn first_register(arguments: Seq<Argument>) -> Result<Register, Fault> {
    if arguments.len() == 0 {
        Err(Fault::MissingArgument(1, ERR_MIS_REGISTER@))
    } else {
        match arguments[0] {
            Argument::Register(register) => Ok(register),
            Argument::Byte(_) => Err(Fault::MismatchedArgument(1, ERR_NOT_REGISTER@)),
        }
    }
}

fn err_arg_missing(position: u8, message: &str) -> (error: InstructionError)
    ensures
        error@ == Fault::MissingArgument(position, message@),
{
    InstructionError::MissingArgument(position, message.to_string())
}

fn err_arg_mismatched(position: u8, message: &str) -> (error: InstructionError)
    ensures
        error@ == Fault::MismatchedArgument(position, message@),
{
    InstructionError::MismatchedArgument(position, message.to_string())
}

fn register_first_arg(arguments: &[Argument]) -> (result: Result<Register, InstructionError>)
    ensures
        match first_register(arguments@) {
            Ok(register) => result == Ok::<Register, InstructionError>(register),
            Err(fault) => result is Err && result->Err_0@ == fault,
        },
{
    match arguments.first() {
        None => Err(err_arg_missing(1, ERR_MIS_REGISTER)),
        Some(first_arg) => match first_arg {
            Argument::Register(register) => Ok(*register),
            _ => Err(err_arg_mismatched(1, ERR_NOT_REGISTER)),
        },
    }
}

} // verus!
