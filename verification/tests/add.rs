use virtual_cpu::cpu::{Cpu, Flag, Register};
use virtual_cpu::instructions::add::Add;
use virtual_cpu::instructions::{Argument, Instruction, InstructionError};
use virtual_cpu::instructions::{ERR_MIS_REGISTER, ERR_MIS_VALUE, ERR_NOT_REGISTER};

#[test]
fn add_requires_register_to_be_provided_as_first_argument() {
    let mut cpu = Cpu::new();
    let result = Add::execute(&mut cpu, vec![]);

    let message = ERR_MIS_REGISTER.to_string();
    let expected = InstructionError::MissingArgument(1, message);

    assert!(result.is_err_and(|x| x == expected));
}

#[test]
fn add_requires_register_of_register_type_to_be_provided_as_first_argument() {
    let mut cpu = Cpu::new();
    let result = Add::execute(&mut cpu, vec![Argument::Byte(123)]);

    let message = ERR_NOT_REGISTER.to_string();
    let expected = InstructionError::MismatchedArgument(1, message);

    assert!(result.is_err_and(|x| x == expected));
}

#[test]
fn add_requires_a_second_parameter_to_be_provided() {
    let mut cpu = Cpu::new();
    let result = Add::execute(&mut cpu, vec![Argument::Register(Register::A)]);

    let message = ERR_MIS_VALUE.to_string();
    let expected = InstructionError::MissingArgument(2, message);

    assert!(result.is_err_and(|x| x == expected));
}

#[test]
fn adds_value_to_the_specified_cpu_register_a() {
    let mut cpu = Cpu::new();
    let result = Add::execute(
        &mut cpu,
        vec![Argument::Register(Register::A), Argument::Byte(0xDE)],
    );

    assert!(result.is_ok());
    assert_eq!(0xDE, cpu.register(Register::A));
    assert_eq!(false, cpu.flag(Flag::Carry));
    assert_eq!(false, cpu.flag(Flag::Zero));
}

#[test]
fn carry_and_zero_flags_are_reset_before_sum() {
    let mut cpu = Cpu::new();
    cpu.assign_flag(Flag::Carry, true);
    cpu.assign_flag(Flag::Zero, true);

    let result = Add::execute(
        &mut cpu,
        vec![Argument::Register(Register::A), Argument::Byte(0xDE)],
    );

    assert!(result.is_ok());
    assert_eq!(0xDE, cpu.register(Register::A));
    assert_eq!(false, cpu.flag(Flag::Carry));
    assert_eq!(false, cpu.flag(Flag::Zero));
}

#[test]
fn when_addition_returns_zero_then_zero_flag_is_set() {
    let mut cpu = Cpu::new();
    let result = Add::execute(
        &mut cpu,
        vec![Argument::Register(Register::A), Argument::Byte(0x0)],
    );

    assert!(result.is_ok());
    assert_eq!(0x0, cpu.register(Register::A));
    assert_eq!(false, cpu.flag(Flag::Carry));
    assert_eq!(true, cpu.flag(Flag::Zero));
}

#[test]
fn when_addition_returns_value_larger_than_0xff_then_carry_flag_is_set() {
    let mut cpu = Cpu::new();
    cpu.assign_register(Register::A, 100);

    let result = Add::execute(
        &mut cpu,
        vec![Argument::Register(Register::A), Argument::Byte(157)],
    );

    assert!(result.is_ok());
    assert_eq!(1, cpu.register(Register::A));
    assert_eq!(true, cpu.flag(Flag::Carry));
    assert_eq!(false, cpu.flag(Flag::Zero));
}

#[test]
fn when_addition_returns_value_larger_than_0xff_and_lsb_is_zero_then_both_flags_are_set() {
    let mut cpu = Cpu::new();
    cpu.assign_register(Register::B, 100);

    let result = Add::execute(
        &mut cpu,
        vec![Argument::Register(Register::B), Argument::Byte(156)],
    );

    assert!(result.is_ok());
    assert_eq!(0, cpu.register(Register::B));
    assert_eq!(true, cpu.flag(Flag::Carry));
    assert_eq!(true, cpu.flag(Flag::Zero));
}

#[test]
fn adds_source_register_to_the_destination_register() {
    let mut cpu = Cpu::new();
    cpu.assign_register(Register::A, 4);
    cpu.assign_register(Register::B, 38);
    let result = Add::execute(
        &mut cpu,
        vec![
            Argument::Register(Register::A),
            Argument::Register(Register::B),
        ],
    );

    assert!(result.is_ok());
    assert_eq!(42, cpu.register(Register::A));
    assert_eq!(38, cpu.register(Register::B));
    assert_eq!(false, cpu.flag(Flag::Carry));
    assert_eq!(false, cpu.flag(Flag::Zero));
}

#[test]
fn carry_and_zero_flags_are_reset_before_sum_of_registers() {
    let mut cpu = Cpu::new();
    cpu.assign_flag(Flag::Carry, true);
    cpu.assign_flag(Flag::Zero, true);
    cpu.assign_register(Register::B, 0xDE);

    let result = Add::execute(
        &mut cpu,
        vec![
            Argument::Register(Register::A),
            Argument::Register(Register::B),
        ],
    );

    assert!(result.is_ok());
    assert_eq!(0xDE, cpu.register(Register::A));
    assert_eq!(false, cpu.flag(Flag::Carry));
    assert_eq!(false, cpu.flag(Flag::Zero));
}

#[test]
fn when_sum_is_zero_then_zero_flag_is_set_also_when_adding_registers() {
    let mut cpu = Cpu::new();
    let result = Add::execute(
        &mut cpu,
        vec![
            Argument::Register(Register::A),
            Argument::Register(Register::B),
        ],
    );

    assert!(result.is_ok());
    assert_eq!(0x0, cpu.register(Register::A));
    assert_eq!(false, cpu.flag(Flag::Carry));
    assert_eq!(true, cpu.flag(Flag::Zero));
}

#[test]
fn when_sum_is_larger_than_0xff_then_carry_flag_is_set_also_when_adding_registers() {
    let mut cpu = Cpu::new();
    cpu.assign_register(Register::A, 100);
    cpu.assign_register(Register::B, 157);

    let result = Add::execute(
        &mut cpu,
        vec![
            Argument::Register(Register::A),
            Argument::Register(Register::B),
        ],
    );

    assert!(result.is_ok());
    assert_eq!(1, cpu.register(Register::A));
    assert_eq!(true, cpu.flag(Flag::Carry));
    assert_eq!(false, cpu.flag(Flag::Zero));
}

#[test]
fn when_sum_is_larger_than_0xff_and_lsb_is_zero_then_both_flags_are_set_also_when_adding_registers()
{
    let mut cpu = Cpu::new();
    cpu.assign_register(Register::A, 156);
    cpu.assign_register(Register::B, 100);

    let result = Add::execute(
        &mut cpu,
        vec![
            Argument::Register(Register::B),
            Argument::Register(Register::A),
        ],
    );

    assert!(result.is_ok());
    assert_eq!(0, cpu.register(Register::B));
    assert_eq!(true, cpu.flag(Flag::Carry));
    assert_eq!(true, cpu.flag(Flag::Zero));
}

#[test]
fn rejected_add_leaves_the_cpu_as_it_was() {
    let rejected: Vec<Vec<Argument>> = vec![
        vec![],
        vec![Argument::Byte(123)],
        vec![Argument::Byte(123), Argument::Byte(7)],
        vec![Argument::Register(Register::B)],
    ];
    for arguments in rejected {
        let mut cpu = Cpu::new();
        cpu.assign_register(Register::A, 0x1F);
        cpu.unassign_register(Register::B);
        cpu.assign_flags(0xAF);

        assert!(Add::execute(&mut cpu, arguments).is_err());

        assert_eq!(Some(0x1F), cpu.stored(Register::A));
        assert_eq!(None, cpu.stored(Register::B));
        assert_eq!(0xAF, cpu.flags());
    }
}

#[test]
fn add_error_messages_are_spelled_out() {
    let mut cpu = Cpu::new();

    assert_eq!(
        Err(InstructionError::MissingArgument(1, "Missing register".to_string())),
        Add::execute(&mut cpu, vec![])
    );
    assert_eq!(
        Err(InstructionError::MismatchedArgument(1, "Argument is not a register".to_string())),
        Add::execute(&mut cpu, vec![Argument::Byte(123)])
    );
    assert_eq!(
        Err(InstructionError::MissingArgument(2, "Missing value".to_string())),
        Add::execute(&mut cpu, vec![Argument::Register(Register::A)])
    );
}

#[test]
fn add_immediate_matches_the_sum_for_every_pair_of_bytes() {
    for before in 0..=255u8 {
        for value in 0..=255u8 {
            let mut cpu = Cpu::new();
            cpu.assign_register(Register::A, before);
            cpu.assign_register(Register::B, 0x5A);
            cpu.assign_flags(0b10101011);

            let result = Add::execute(
                &mut cpu,
                vec![Argument::Register(Register::A), Argument::Byte(value)],
            );

            let total = before as u16 + value as u16;
            assert_eq!(Ok(()), result);
            assert_eq!((total % 256) as u8, cpu.register(Register::A));
            assert_eq!(0x5A, cpu.register(Register::B));
            assert_eq!(total > 0xFF, cpu.flag(Flag::Carry));
            assert_eq!(total % 256 == 0, cpu.flag(Flag::Zero));
            assert_eq!(0b10101000, cpu.flags() & 0b11111100);
        }
    }
}

#[test]
fn add_registers_matches_the_sum_for_every_pair_of_bytes() {
    for dest in 0..=255u8 {
        for source in 0..=255u8 {
            let mut cpu = Cpu::new();
            cpu.assign_register(Register::B, dest);
            cpu.assign_register(Register::A, source);
            cpu.assign_flags(0b01010111);

            let result = Add::execute(
                &mut cpu,
                vec![Argument::Register(Register::B), Argument::Register(Register::A)],
            );

            let total = dest as u16 + source as u16;
            assert_eq!(Ok(()), result);
            assert_eq!((total % 256) as u8, cpu.register(Register::B));
            assert_eq!(source, cpu.register(Register::A));
            assert_eq!(total > 0xFF, cpu.flag(Flag::Carry));
            assert_eq!(total % 256 == 0, cpu.flag(Flag::Zero));
            assert_eq!(0b01010100, cpu.flags() & 0b11111100);
        }
    }
}

#[test]
fn adding_a_register_to_itself_doubles_it() {
    let mut cpu = Cpu::new();
    cpu.assign_register(Register::A, 0x81);

    let result = Add::execute(
        &mut cpu,
        vec![Argument::Register(Register::A), Argument::Register(Register::A)],
    );

    assert_eq!(Ok(()), result);
    assert_eq!(0x02, cpu.register(Register::A));
    assert_eq!(true, cpu.flag(Flag::Carry));
    assert_eq!(false, cpu.flag(Flag::Zero));

    cpu.assign_register(Register::B, 0x80);
    let result = Add::execute(
        &mut cpu,
        vec![Argument::Register(Register::B), Argument::Register(Register::B)],
    );

    assert_eq!(Ok(()), result);
    assert_eq!(0, cpu.register(Register::B));
    assert_eq!(0x02, cpu.register(Register::A));
    assert_eq!(true, cpu.flag(Flag::Carry));
    assert_eq!(true, cpu.flag(Flag::Zero));
}

#[test]
fn add_reads_unassigned_registers_as_zero_and_assigns_them() {
    let mut cpu = Cpu::new();
    cpu.unassign_register(Register::A);
    cpu.unassign_register(Register::B);

    let result = Add::execute(
        &mut cpu,
        vec![Argument::Register(Register::A), Argument::Register(Register::B)],
    );

    assert_eq!(Ok(()), result);
    assert_eq!(Some(0), cpu.stored(Register::A));
    assert_eq!(Some(0), cpu.stored(Register::B));
    assert_eq!(false, cpu.flag(Flag::Carry));
    assert_eq!(true, cpu.flag(Flag::Zero));

    cpu.unassign_register(Register::B);
    let result = Add::execute(
        &mut cpu,
        vec![Argument::Register(Register::A), Argument::Byte(5)],
    );

    assert_eq!(Ok(()), result);
    assert_eq!(Some(5), cpu.stored(Register::A));
    assert_eq!(None, cpu.stored(Register::B));
}

#[test]
fn add_overwrites_flags_whatever_they_were() {
    for flags in 0..=255u8 {
        let mut cpu = Cpu::new();
        cpu.assign_flags(flags);

        let result = Add::execute(
            &mut cpu,
            vec![Argument::Register(Register::A), Argument::Byte(0xDE)],
        );

        assert_eq!(Ok(()), result);
        assert_eq!(0xDE, cpu.register(Register::A));
        assert_eq!(false, cpu.flag(Flag::Carry));
        assert_eq!(false, cpu.flag(Flag::Zero));
        assert_eq!(flags & 0b11111100, cpu.flags());
    }
}
