//! The processor state: a register file and a flags register.

use vstd::prelude::*;

verus! {

/// A condition flag, which names one bit of the flags register.
#[derive(Copy, Clone)]
pub enum Flag {
    Carry,
    Zero,
}

/// A general-purpose 8-bit register.
#[derive(Copy, Clone, PartialEq, Eq, Hash)]
pub enum Register {
    A,
    B,
}

impl Flag {
    /// The position of this flag's bit in the flags register, counted from
    /// the least significant bit.
    pub open spec fn bit(self) -> u8 {
        match self {
            Flag::Carry => 0,
            Flag::Zero => 1,
        }
    }

    /// The flags byte that has this flag's bit set and no other.
    pub open spec fn mask(self) -> u8 {
        1u8 << self.bit()
    }

    fn position(self) -> (position: u8)
        ensures
            position == self.bit(),
    {
        match self {
            Flag::Carry => 0,
            Flag::Zero => 1,
        }
    }
}

impl Register {
    /// The slot of the register file that holds this register.
    pub open spec fn slot(self) -> int {
        match self {
            Register::A => 0,
            Register::B => 1,
        }
    }

    fn index(self) -> (index: usize)
        ensures
            index == self.slot(),
    {
        match self {
            Register::A => 0,
            Register::B => 1,
        }
    }
}

/// The mathematical model of the processor: which registers hold a value,
/// what they hold, and the flags byte.
#[verifier::ext_equal]
pub struct CpuState {
    pub registers: Map<Register, u8>,
    pub flags: u8,
}

impl CpuState {
    /// The state in which every register holds zero and no flag is set.
    pub open spec fn zeroed() -> CpuState {
        CpuState { registers: Map::new(|register: Register| true, |register: Register| 0u8), flags: 0 }
    }

    /// Whether `register` holds a value.
    pub open spec fn defines(self, register: Register) -> bool {
        self.registers.contains_key(register)
    }

    /// Whether every register holds a value, as is the case from the moment
    /// the processor is made or reset.
    pub open spec fn complete(self) -> bool {
        forall|register: Register| self.defines(register)
    }

    /// What `register` holds, if anything.
    pub open spec fn content(self, register: Register) -> Option<u8> {
        if self.defines(register) {
            Some(self.registers[register])
        } else {
            None
        }
    }

    /// What a read of `register` yields: its value, or zero where it holds none.
    pub open spec fn read(self, register: Register) -> u8 {
        if self.defines(register) {
            self.registers[register]
        } else {
            0
        }
    }

    /// The state after `register` is given `value`.
    pub open spec fn write(self, register: Register, value: u8) -> CpuState {
        CpuState { registers: self.registers.insert(register, value), ..self }
    }

    /// The state after a read of `register`: a register that held no value
    /// now holds the zero that the read yielded.
    pub open spec fn latch(self, register: Register) -> CpuState {
        self.write(register, self.read(register))
    }

    /// The state after `register` loses its value.
    pub open spec fn forget(self, register: Register) -> CpuState {
        CpuState { registers: self.registers.remove(register), ..self }
    }

    /// Whether the bit of `position` is set in the flags byte.
    pub open spec fn flag(self, position: Flag) -> bool {
        self.flags & position.mask() != 0
    }

    /// The state after the bit of `position` is set or cleared.
    pub open spec fn with_flag(self, position: Flag, is_set: bool) -> CpuState {
        CpuState {
            flags: if is_set {
                self.flags | position.mask()
            } else {
                self.flags & !position.mask()
            },
            ..self
        }
    }

    /// The state with `flags` as its flags byte.
    pub open spec fn with_flags(self, flags: u8) -> CpuState {
        CpuState { flags, ..self }
    }
}

/// The processor: two registers and a flags register.
pub struct Cpu {
    registers: [Option<u8>; 2],
    flags: u8,
}

impl View for Cpu {
    type V = CpuState;

    closed spec fn view(&self) -> CpuState {
        CpuState {
            registers: Map::new(
                |register: Register| self.registers[register.slot()] is Some,
                |register: Register| self.registers[register.slot()]->0,
            ),
            flags: self.flags,
        }
    }
}

impl Cpu {
    /// A processor in which every register holds zero and no flag is set.
    pub fn new() -> (cpu: Cpu)
        ensures
            cpu@ == CpuState::zeroed(),
    {
        let mut cpu = Self { registers: [None, None], flags: 0 };
        cpu.reset();

        cpu
    }

    /// Brings the processor back to the state in which it was made.
    pub fn reset(&mut self)
        ensures
            final(self)@ == CpuState::zeroed(),
    {
        self.registers[Register::A.index()] = Some(0);
        self.registers[Register::B.index()] = Some(0);
        self.flags = 0;
        assert(self@ =~= CpuState::zeroed());
    }

    /// Reads `register`. A register that holds no value reads as zero, and
    /// holds that zero from then on.
    pub fn register(&mut self, register: Register) -> (value: u8)
        ensures
            value == old(self)@.read(register),
            final(self)@ == old(self)@.latch(register),
    {
        let index: usize = register.index();
        if let Some(content) = self.registers[index] {
            assert(self@ =~= old(self)@.latch(register));
            content
        } else {
            self.registers[index] = Some(0);
            assert(self@ =~= old(self)@.latch(register));
            0
        }
    }

    /// Gives `register` the value `value`.
    pub fn assign_register(&mut self, register: Register, value: u8)
        ensures
            final(self)@ == old(self)@.write(register, value),
    {
        self.registers[register.index()] = Some(value);
        assert(self@ =~= old(self)@.write(register, value));
    }

    /// What `register` holds, if anything. Unlike [`Cpu::register`], this
    /// leaves a register that holds no value as it is.
    pub fn stored(&self, register: Register) -> (content: Option<u8>)
        ensures
            content == self@.content(register),
    {
        self.registers[register.index()]
    }

    /// Takes the value of `register` away, so that it holds none until it
    /// is next read or assigned.
    pub fn unassign_register(&mut self, register: Register)
        ensures
            final(self)@ == old(self)@.forget(register),
    {
        self.registers[register.index()] = None;
        assert(self@ =~= old(self)@.forget(register));
    }

    /// Overwrites the whole flags byte, the bits that name no flag included.
    pub fn assign_flags(&mut self, flags: u8)
        ensures
            final(self)@ == old(self)@.with_flags(flags),
    {
        self.flags = flags;
    }

    /// The flags byte as it stands.
    pub fn flags(&mut self) -> (flags: u8)
        ensures
            flags == old(self)@.flags,
            final(self)@ == old(self)@,
    {
        self.flags
    }

    /// Whether the bit of `position` is set in the flags register.
    pub fn flag(&mut self, position: Flag) -> (is_set: bool)
        ensures
            is_set == old(self)@.flag(position),
            final(self)@ == old(self)@,
    {
        let position: u8 = position.position();
        let bit: u8 = self.flags >> position & 1;
        proof {
            lemma_shifted_bit_is_masked_bit(self.flags, position);
        }

        bit > 0
    }

    /// Sets or clears the bit of `position` in the flags register, and leaves
    /// every other bit as it was.
    pub fn assign_flag(&mut self, position: Flag, is_set: bool)
        ensures
            final(self)@ == old(self)@.with_flag(position, is_set),
    {
        let position: u8 = position.position();

        // 0. get the correct mask
        let mask: u8 = (1 << position) ^ 0b11111111;
        // 1. reset the flag
        self.flags &= mask;
        // 2. set the flag to the desired value
        self.flags |= (is_set as u8) << position;
        proof {
            lemma_clear_then_or_is_assignment(old(self).flags, position, is_set as u8);
        }
    }
}

proof fn lemma_shifted_bit_is_masked_bit(flags: u8, position: u8)
    by (bit_vector)
    requires
        position < 8,
    ensures
        (flags >> position & 1) > 0 <==> flags & (1u8 << position) != 0,
{
}

proof fn lemma_clear_then_or_is_assignment(flags: u8, position: u8, bit: u8)
    by (bit_vector)
    requires
        position < 8,
        bit == 0 || bit == 1,
    ensures
        bit == 1 ==> (flags & ((1u8 << position) ^ 0b11111111)) | (bit << position) == flags | (1u8
            << position),
        bit == 0 ==> (flags & ((1u8 << position) ^ 0b11111111)) | (bit << position) == flags & !(1u8
            << position),
{
}

/// A processor that was just made or reset holds zero in every register,
/// and has neither flag set.
pub proof fn lemma_zeroed_reads_zero(register: Register)
    ensures
        CpuState::zeroed().complete(),
        CpuState::zeroed().read(register) == 0,
        CpuState::zeroed().flags == 0,
        !CpuState::zeroed().flag(Flag::Carry),
        !CpuState::zeroed().flag(Flag::Zero),
{
    assert(0u8 & (1u8 << 0u8) == 0) by (bit_vector);
    assert(0u8 & (1u8 << 1u8) == 0) by (bit_vector);
}

/// A register reads as what was last assigned to it.
pub proof fn lemma_read_after_write(state: CpuState, register: Register, value: u8)
    ensures
        state.write(register, value).defines(register),
        state.write(register, value).read(register) == value,
{
}

/// Assigning to a register changes neither the other register nor the flags.
pub proof fn lemma_write_keeps_the_rest(
    state: CpuState,
    register: Register,
    value: u8,
    other: Register,
)
    requires
        other != register,
    ensures
        state.write(register, value).content(other) == state.content(other),
        state.write(register, value).read(other) == state.read(other),
        state.write(register, value).flags == state.flags,
{
}

/// A read changes the value that no register reads as, nor the flags; the
/// register that was read holds a value afterwards, and where it held one
/// before, the state is as it was.
pub proof fn lemma_latch_keeps_reads(state: CpuState, register: Register, other: Register)
    ensures
        state.latch(register).defines(register),
        state.latch(register).read(other) == state.read(other),
        state.latch(register).flags == state.flags,
        other != register ==> state.latch(register).content(other) == state.content(other),
        state.defines(register) ==> state.latch(register) == state,
{
    if state.defines(register) {
        assert(state.latch(register) =~= state);
    }
}

/// Once every register holds a value, reads and assignments of registers
/// and flags keep it so.
pub proof fn lemma_complete_is_kept(
    state: CpuState,
    register: Register,
    value: u8,
    position: Flag,
    is_set: bool,
)
    requires
        state.complete(),
    ensures
        state.write(register, value).complete(),
        state.latch(register).complete(),
        state.with_flag(position, is_set).complete(),
{
    assert forall|other: Register| state.write(register, value).defines(other) by {
        assert(state.defines(other));
    }
    assert(state.latch(register) == state) by {
        lemma_latch_keeps_reads(state, register, register);
    }
    assert forall|other: Register| state.with_flag(position, is_set).defines(other) by {
        assert(state.defines(other));
    }
}

/// A flag reads as what was last assigned to it.
pub proof fn lemma_flag_after_assignment(state: CpuState, position: Flag, is_set: bool)
    ensures
        state.with_flag(position, is_set).flag(position) == is_set,
{
    let flags = state.flags;
    let bit = position.bit();
    assert((flags | (1u8 << bit)) & (1u8 << bit) != 0) by (bit_vector)
        requires
            bit < 8,
    ;
    assert((flags & !(1u8 << bit)) & (1u8 << bit) == 0) by (bit_vector)
        requires
            bit < 8,
    ;
}

/// Assigning a flag twice with the same value gives what assigning it once
/// gives.
pub proof fn lemma_flag_assignment_is_idempotent(state: CpuState, position: Flag, is_set: bool)
    ensures
        state.with_flag(position, is_set).with_flag(position, is_set) == state.with_flag(
            position,
            is_set,
        ),
{
    let flags = state.flags;
    let bit = position.bit();
    assert((flags | (1u8 << bit)) | (1u8 << bit) == flags | (1u8 << bit)) by (bit_vector);
    assert((flags & !(1u8 << bit)) & !(1u8 << bit) == flags & !(1u8 << bit)) by (bit_vector);
}

/// Assigning a flag changes no bit of the flags byte but that flag's own,
/// and no register.
pub proof fn lemma_flag_assignment_keeps_other_bits(
    state: CpuState,
    position: Flag,
    is_set: bool,
    other: u8,
)
    requires
        other < 8,
        other != position.bit(),
    ensures
        state.with_flag(position, is_set).flags & (1u8 << other) == state.flags & (1u8 << other),
        state.with_flag(position, is_set).registers == state.registers,
{
    let flags = state.flags;
    let bit = position.bit();
    assert((flags | (1u8 << bit)) & (1u8 << other) == flags & (1u8 << other)) by (bit_vector)
        requires
            bit < 8,
            other < 8,
            other != bit,
    ;
    assert((flags & !(1u8 << bit)) & (1u8 << other) == flags & (1u8 << other)) by (bit_vector)
        requires
            bit < 8,
            other < 8,
            other != bit,
    ;
}

/// Assigning a flag leaves the other flag as it was.
pub proof fn lemma_flag_assignment_keeps_other_flag(
    state: CpuState,
    position: Flag,
    is_set: bool,
    other: Flag,
)
    requires
        other != position,
    ensures
        state.with_flag(position, is_set).flag(other) == state.flag(other),
{
    lemma_flag_assignment_keeps_other_bits(state, position, is_set, other.bit());
}

} // verus!
