//! What the processor does, stated on plain values: the registers and the
//! bus before an instruction, and the registers and the bus after it.

use crate::memory::Bus;
use crate::opmap::{instruction_of, AddressingMode, Instruction, Operation};
use crate::status::{flag_on, with_flag, with_negative_zero, ProcessorStatusFlags};
use vstd::prelude::*;

verus! {

/// Where the stack page starts.
pub const STACK_OFFSET: u16 = 0x0100;

/// The stack pointer at power-on.
pub const STACK_RESET: u8 = 0xff;

/// Where the address to start from is kept.
pub const RESET_VECTOR: u16 = 0xfffc;

/// Where the address of the interrupt routine is kept.
pub const INTERRUPT_VECTOR: u16 = 0xfffe;

/// Where the diagnostic cartridge is entered.
pub const DIAGNOSTIC_ENTRY: u16 = 0xc000;

/// The status with which the diagnostic cartridge is entered: Interrupt and
/// the unused bit.
pub const DIAGNOSTIC_STATUS: u8 = 0x24;

/// `n` as a 16-bit address: addresses wrap around.
pub open spec fn wrap16(n: int) -> u16 {
    (n % 0x10000) as u16
}

/// `n` as a byte: bytes wrap around.
pub open spec fn wrap8(n: int) -> u8 {
    (n % 0x100) as u8
}

/// The address with the low byte `low` and the high byte `high`.
pub open spec fn word(low: u8, high: u8) -> u16 {
    (low + 256 * high) as u16
}

/// The low byte of an address.
pub open spec fn low_byte(address: u16) -> u8 {
    (address % 256) as u8
}

/// The high byte of an address.
pub open spec fn high_byte(address: u16) -> u8 {
    (address / 256) as u8
}

/// The offset of a branch, read as a signed byte.
pub open spec fn signed(offset: u8) -> int {
    if offset >= 0x80 {
        offset - 0x100
    } else {
        offset as int
    }
}

/// 1 when the carry flag is set in `p`, 0 when it is not.
pub open spec fn carry_of(p: u8) -> int {
    if flag_on(p, ProcessorStatusFlags::CARRY) {
        1
    } else {
        0
    }
}

/// The sum of an addition with carry, as a byte.
pub open spec fn adc_result(a: u8, m: u8, carry: int) -> u8 {
    wrap8(a + m + carry)
}

/// Whether an addition with carry leaves the carry flag set: the sum does
/// not fit in a byte.
pub open spec fn adc_carry(a: u8, m: u8, carry: int) -> bool {
    a + m + carry >= 256
}

/// Whether an addition with carry leaves the overflow flag set: both
/// operands differ in sign from the sum.
pub open spec fn adc_overflow(a: u8, m: u8, carry: int) -> bool {
    (a ^ adc_result(a, m, carry)) & (m ^ adc_result(a, m, carry)) & 0x80 != 0
}

/// The registers and the bus.
pub struct CpuState {
    pub bus: Bus,
    pub pc: u16,
    pub sp: u8,
    pub a: u8,
    pub x: u8,
    pub y: u8,
    pub p: u8,
}

impl CpuState {
    /// The byte at `address`, and the state after it was read.
    pub open spec fn read(self, address: u16) -> (u8, CpuState) {
        (self.bus.read(address), CpuState { bus: self.bus.after_read(address), ..self })
    }

    /// The state after `data` was written at `address`.
    pub open spec fn write(self, address: u16, data: u8) -> CpuState {
        CpuState { bus: self.bus.write(address, data), ..self }
    }

    /// The state with the program counter moved on by `n`.
    pub open spec fn skip(self, n: int) -> CpuState {
        CpuState { pc: wrap16(self.pc + n), ..self }
    }

    /// The state with Negative and Zero set from `value`.
    pub open spec fn flagged(self, value: u8) -> CpuState {
        CpuState { p: with_negative_zero(self.p, value), ..self }
    }

    /// Immediate: the operand is the byte at the program counter.
    pub open spec fn immediate(self) -> (u16, CpuState) {
        (self.pc, self.skip(1))
    }

    /// Zero page: the byte at the program counter is the address.
    pub open spec fn zero_page(self) -> (u16, CpuState) {
        let (base, s) = self.read(self.pc);
        (base as u16, s.skip(1))
    }

    /// Zero page indexed by X: the sum wraps within the zero page.
    pub open spec fn zero_page_x(self) -> (u16, CpuState) {
        let (base, s) = self.read(self.pc);
        (wrap8(base + self.x) as u16, s.skip(1))
    }

    /// Zero page indexed by Y: the sum wraps within the zero page.
    pub open spec fn zero_page_y(self) -> (u16, CpuState) {
        let (base, s) = self.read(self.pc);
        (wrap8(base + self.y) as u16, s.skip(1))
    }

    /// The address kept in the two bytes at `pointer` and the address after it.
    pub open spec fn read_word(self, pointer: u16) -> (u16, CpuState) {
        let (low, s) = self.read(pointer);
        let (high, s) = s.read(wrap16(pointer + 1));
        (word(low, high), s)
    }

    /// Indexed indirect: the byte at the program counter plus X, wrapped
    /// within the zero page, points at the address.
    pub open spec fn zero_page_x_indirect(self) -> (u16, CpuState) {
        let (base, s) = self.read(self.pc);
        let (address, s) = s.read_word(wrap8(base + self.x) as u16);
        (address, s.skip(1))
    }

    /// Indirect indexed: the byte at the program counter points at an
    /// address, to which Y is added.
    pub open spec fn zero_page_y_indirect(self) -> (u16, CpuState) {
        let (base, s) = self.read(self.pc);
        let (address, s) = s.read_word(base as u16);
        (wrap16(address + self.y), s.skip(1))
    }

    /// Absolute: the two bytes at the program counter are the address.
    pub open spec fn absolute(self) -> (u16, CpuState) {
        let (address, s) = self.read_word(self.pc);
        (address, s.skip(2))
    }

    /// Absolute indexed by X: the sum wraps round the address space.
    pub open spec fn absolute_x(self) -> (u16, CpuState) {
        let (address, s) = self.absolute();
        (wrap16(address + self.x), s)
    }

    /// Absolute indexed by Y: the sum wraps round the address space.
    pub open spec fn absolute_y(self) -> (u16, CpuState) {
        let (address, s) = self.absolute();
        (wrap16(address + self.y), s)
    }

    /// Absolute indirect: the two bytes at the program counter point at the address.
    pub open spec fn absolute_indirect(self) -> (u16, CpuState) {
        let (pointer, s) = self.absolute();
        s.read_word(pointer)
    }

    /// Relative: the byte at the program counter is a signed distance from
    /// the address after it.
    pub open spec fn relative(self) -> (u16, CpuState) {
        let (offset, s) = self.read(self.pc);
        (wrap16(self.pc + 1 + signed(offset)), s.skip(1))
    }

    /// The address that an instruction with the mode `mode` works on, and
    /// the state after the operand bytes were read. An instruction without
    /// an operand works on no address; 0 stands for it.
    #[verifier::opaque]
    pub open spec fn operand(self, mode: AddressingMode) -> (u16, CpuState) {
        match mode {
            AddressingMode::Implied => (0, self),
            AddressingMode::Immediate => self.immediate(),
            AddressingMode::ZeroPage => self.zero_page(),
            AddressingMode::ZeroPageX => self.zero_page_x(),
            AddressingMode::ZeroPageY => self.zero_page_y(),
            AddressingMode::ZeroPageXIndirect => self.zero_page_x_indirect(),
            AddressingMode::ZeroPageYIndirect => self.zero_page_y_indirect(),
            AddressingMode::Absolute => self.absolute(),
            AddressingMode::AbsoluteX => self.absolute_x(),
            AddressingMode::AbsoluteY => self.absolute_y(),
            AddressingMode::AbsoluteIndirect => self.absolute_indirect(),
            AddressingMode::Relative => self.relative(),
        }
    }

    /// The byte that an instruction with the mode `mode` works on, and the
    /// state after it was fetched.
    pub open spec fn fetch(self, mode: AddressingMode) -> (u8, CpuState) {
        let (address, s) = self.operand(mode);
        s.read(address)
    }

    /// The address of the top of the stack.
    pub open spec fn stack(self) -> u16 {
        (STACK_OFFSET + self.sp) as u16
    }

    /// A push stores at the stack pointer, then moves the pointer down.
    pub open spec fn push(self, data: u8) -> CpuState {
        CpuState { sp: wrap8(self.sp - 1), ..self.write(self.stack(), data) }
    }

    /// A pop moves the stack pointer up, then reads there.
    pub open spec fn pop(self) -> (u8, CpuState) {
        (CpuState { sp: wrap8(self.sp + 1), ..self }).read((STACK_OFFSET + wrap8(self.sp + 1)) as u16)
    }

    /// The operand is joined into the accumulator, bit by bit.
    #[verifier::opaque]
    pub open spec fn or(self, mode: AddressingMode) -> CpuState {
        let (m, s) = self.fetch(mode);
        (CpuState { a: s.a | m, ..s }).flagged(s.a | m)
    }

    /// The accumulator keeps the bits that the operand has too.
    #[verifier::opaque]
    pub open spec fn and(self, mode: AddressingMode) -> CpuState {
        let (m, s) = self.fetch(mode);
        (CpuState { a: s.a & m, ..s }).flagged(s.a & m)
    }

    /// The bits that the operand has are flipped in the accumulator.
    #[verifier::opaque]
    pub open spec fn exclusive_or(self, mode: AddressingMode) -> CpuState {
        let (m, s) = self.fetch(mode);
        (CpuState { a: s.a ^ m, ..s }).flagged(s.a ^ m)
    }

    /// The state after `m` and the carry were added to the accumulator.
    pub open spec fn add(self, m: u8) -> CpuState {
        let carry = carry_of(self.p);
        let p = with_flag(
            with_flag(self.p, ProcessorStatusFlags::CARRY, adc_carry(self.a, m, carry)),
            ProcessorStatusFlags::OVERFLOW,
            adc_overflow(self.a, m, carry),
        );
        (CpuState { a: adc_result(self.a, m, carry), p, ..self }).flagged(adc_result(self.a, m, carry))
    }

    /// The operand and the carry are added to the accumulator.
    #[verifier::opaque]
    pub open spec fn add_with_carry(self, mode: AddressingMode) -> CpuState {
        let (m, s) = self.fetch(mode);
        s.add(m)
    }

    /// Subtraction is addition of the complement.
    #[verifier::opaque]
    pub open spec fn subtract_with_carry(self, mode: AddressingMode) -> CpuState {
        let (m, s) = self.fetch(mode);
        s.add((255 - m) as u8)
    }

    /// The status after `register` was held against `m`: Carry when the
    /// register is not below `m`, Zero when they are equal, Negative from
    /// bit 7 of the difference.
    pub open spec fn compared(self, register: u8, m: u8) -> CpuState {
        CpuState {
            p: with_flag(
                with_flag(
                    with_flag(self.p, ProcessorStatusFlags::CARRY, register >= m),
                    ProcessorStatusFlags::ZERO,
                    register == m,
                ),
                ProcessorStatusFlags::NEGATIVE,
                wrap8(register - m) >= 0x80,
            ),
            ..self
        }
    }

    /// The accumulator is held against the operand.
    #[verifier::opaque]
    pub open spec fn compare_a(self, mode: AddressingMode) -> CpuState {
        let (m, s) = self.fetch(mode);
        s.compared(s.a, m)
    }

    /// X is held against the operand.
    #[verifier::opaque]
    pub open spec fn compare_x(self, mode: AddressingMode) -> CpuState {
        let (m, s) = self.fetch(mode);
        s.compared(s.x, m)
    }

    /// Y is held against the operand.
    #[verifier::opaque]
    pub open spec fn compare_y(self, mode: AddressingMode) -> CpuState {
        let (m, s) = self.fetch(mode);
        s.compared(s.y, m)
    }

    /// Zero tells whether the accumulator and the byte share no bit,
    /// Negative and Overflow are bits 7 and 6 of the byte.
    #[verifier::opaque]
    pub open spec fn bit_test(self, mode: AddressingMode) -> CpuState {
        let (m, s) = self.fetch(mode);
        CpuState {
            p: with_flag(
                with_flag(
                    with_flag(s.p, ProcessorStatusFlags::NEGATIVE, m & 0x80 != 0),
                    ProcessorStatusFlags::OVERFLOW,
                    m & 0x40 != 0,
                ),
                ProcessorStatusFlags::ZERO,
                s.a & m == 0,
            ),
            ..s
        }
    }

    /// The operand goes to the accumulator.
    #[verifier::opaque]
    pub open spec fn load_a(self, mode: AddressingMode) -> CpuState {
        let (m, s) = self.fetch(mode);
        (CpuState { a: m, ..s }).flagged(m)
    }

    /// The operand goes to X.
    #[verifier::opaque]
    pub open spec fn load_x(self, mode: AddressingMode) -> CpuState {
        let (m, s) = self.fetch(mode);
        (CpuState { x: m, ..s }).flagged(m)
    }

    /// The operand goes to Y.
    #[verifier::opaque]
    pub open spec fn load_y(self, mode: AddressingMode) -> CpuState {
        let (m, s) = self.fetch(mode);
        (CpuState { y: m, ..s }).flagged(m)
    }

    /// The accumulator is written at the operand's address.
    #[verifier::opaque]
    pub open spec fn store_a(self, mode: AddressingMode) -> CpuState {
        let (address, s) = self.operand(mode);
        s.write(address, s.a)
    }

    /// X is written at the operand's address.
    #[verifier::opaque]
    pub open spec fn store_x(self, mode: AddressingMode) -> CpuState {
        let (address, s) = self.operand(mode);
        s.write(address, s.x)
    }

    /// Y is written at the operand's address.
    #[verifier::opaque]
    pub open spec fn store_y(self, mode: AddressingMode) -> CpuState {
        let (address, s) = self.operand(mode);
        s.write(address, s.y)
    }

    /// The accumulator is copied to X.
    #[verifier::opaque]
    pub open spec fn transfer_a_x(self) -> CpuState {
        (CpuState { x: self.a, ..self }).flagged(self.a)
    }

    /// X is copied to the accumulator.
    #[verifier::opaque]
    pub open spec fn transfer_x_a(self) -> CpuState {
        (CpuState { a: self.x, ..self }).flagged(self.x)
    }

    /// The accumulator is copied to Y.
    #[verifier::opaque]
    pub open spec fn transfer_a_y(self) -> CpuState {
        (CpuState { y: self.a, ..self }).flagged(self.a)
    }

    /// Y is copied to the accumulator.
    #[verifier::opaque]
    pub open spec fn transfer_y_a(self) -> CpuState {
        (CpuState { a: self.y, ..self }).flagged(self.y)
    }

    /// The stack pointer is copied to X.
    #[verifier::opaque]
    pub open spec fn transfer_sp_x(self) -> CpuState {
        (CpuState { x: self.sp, ..self }).flagged(self.sp)
    }

    /// The one transfer that leaves the flags alone.
    #[verifier::opaque]
    pub open spec fn transfer_x_sp(self) -> CpuState {
        CpuState { sp: self.x, ..self }
    }

    /// A branch that is taken when the flags of `mask` are set, if
    /// `when_set`, or clear, if not. Taken, it goes to the relative address;
    /// not taken, it goes on after the offset byte, which is not read.
    #[verifier::opaque]
    pub open spec fn branch(self, mask: u8, when_set: bool) -> CpuState {
        if flag_on(self.p, mask) == when_set {
            let (target, s) = self.relative();
            CpuState { pc: target, ..s }
        } else {
            self.skip(1)
        }
    }

    /// The flags of `mask` are set.
    #[verifier::opaque]
    pub open spec fn set_flag(self, mask: u8) -> CpuState {
        CpuState { p: with_flag(self.p, mask, true), ..self }
    }

    /// The flags of `mask` are cleared.
    #[verifier::opaque]
    pub open spec fn clear_flag(self, mask: u8) -> CpuState {
        CpuState { p: with_flag(self.p, mask, false), ..self }
    }

    /// The accumulator is pushed.
    #[verifier::opaque]
    pub open spec fn push_a(self) -> CpuState {
        self.push(self.a)
    }

    /// The status is pushed as it is.
    #[verifier::opaque]
    pub open spec fn push_status(self) -> CpuState {
        self.push(self.p)
    }

    /// The accumulator is popped.
    #[verifier::opaque]
    pub open spec fn pull_a(self) -> CpuState {
        let (top, s) = self.pop();
        (CpuState { a: top, ..s }).flagged(top)
    }

    /// Every bit of the status is taken from the stack.
    #[verifier::opaque]
    pub open spec fn pull_status(self) -> CpuState {
        let (top, s) = self.pop();
        CpuState { p: top, ..s }
    }

    /// The byte at the operand, changed by `change`, is written back, and
    /// Negative and Zero are set from it.
    pub open spec fn modify(self, mode: AddressingMode, change: int) -> CpuState {
        let (address, s) = self.operand(mode);
        let (m, s) = s.read(address);
        s.write(address, wrap8(m + change)).flagged(wrap8(m + change))
    }

    /// The byte at the operand's address grows by 1.
    #[verifier::opaque]
    pub open spec fn increment(self, mode: AddressingMode) -> CpuState {
        self.modify(mode, 1)
    }

    /// The byte at the operand's address shrinks by 1.
    #[verifier::opaque]
    pub open spec fn decrement(self, mode: AddressingMode) -> CpuState {
        self.modify(mode, -1)
    }

    /// X grows by 1.
    #[verifier::opaque]
    pub open spec fn inc_x(self) -> CpuState {
        (CpuState { x: wrap8(self.x + 1), ..self }).flagged(wrap8(self.x + 1))
    }

    /// Y grows by 1.
    #[verifier::opaque]
    pub open spec fn inc_y(self) -> CpuState {
        (CpuState { y: wrap8(self.y + 1), ..self }).flagged(wrap8(self.y + 1))
    }

    /// X shrinks by 1.
    #[verifier::opaque]
    pub open spec fn dec_x(self) -> CpuState {
        (CpuState { x: wrap8(self.x - 1), ..self }).flagged(wrap8(self.x - 1))
    }

    /// Y shrinks by 1.
    #[verifier::opaque]
    pub open spec fn dec_y(self) -> CpuState {
        (CpuState { y: wrap8(self.y - 1), ..self }).flagged(wrap8(self.y - 1))
    }

    /// The status after a shift or a rotation gave `result` and moved a set
    /// bit into the carry exactly if `carry`.
    pub open spec fn shifted(self, result: u8, carry: bool) -> CpuState {
        (CpuState { p: with_flag(self.p, ProcessorStatusFlags::CARRY, carry), ..self }).flagged(
            result,
        )
    }

    /// What a shift or a rotation makes of the byte `value`, and whether it
    /// moves a set bit into the carry.
    pub open spec fn shift_of(self, operation: Operation, value: u8) -> (u8, bool) {
        match operation {
            Operation::ShiftLeft | Operation::ShiftLeftA => (wrap8(2 * value), value >= 0x80),
            Operation::ShiftRight | Operation::ShiftRightA => ((value / 2) as u8, value % 2 == 1),
            Operation::RotateLeft | Operation::RotateLeftA => (
                wrap8(2 * value + carry_of(self.p)),
                value >= 0x80,
            ),
            Operation::RotateRight | Operation::RotateRightA => (
                (value / 2 + 128 * carry_of(self.p)) as u8,
                value % 2 == 1,
            ),
            _ => (value, flag_on(self.p, ProcessorStatusFlags::CARRY)),
        }
    }

    /// A shift or a rotation of the accumulator.
    #[verifier::opaque]
    pub open spec fn shift_a(self, operation: Operation) -> CpuState {
        let (result, carry) = self.shift_of(operation, self.a);
        (CpuState { a: result, ..self }).shifted(result, carry)
    }

    /// A shift or a rotation of a byte in memory.
    #[verifier::opaque]
    pub open spec fn shift_memory(self, operation: Operation, mode: AddressingMode) -> CpuState {
        let (address, s) = self.operand(mode);
        let (m, s) = s.read(address);
        let (result, carry) = s.shift_of(operation, m);
        s.write(address, result).shifted(result, carry)
    }

    /// A break does nothing unless Interrupt is set. Set, the program
    /// counter, high byte first, and the status are pushed, Interrupt is
    /// cleared, and the program goes on at the address kept at the
    /// interrupt vector.
    #[verifier::opaque]
    pub open spec fn break_instr(self) -> CpuState {
        if flag_on(self.p, ProcessorStatusFlags::INTERRUPT) {
            let s = self.push(high_byte(self.pc)).push(low_byte(self.pc)).push(self.p);
            let s = CpuState { p: with_flag(s.p, ProcessorStatusFlags::INTERRUPT, false), ..s };
            let (target, s) = s.read_word(INTERRUPT_VECTOR);
            CpuState { pc: target, ..s }
        } else {
            self
        }
    }

    /// The status, then the program counter, low byte first, are popped.
    #[verifier::opaque]
    pub open spec fn return_from_interrupt(self) -> CpuState {
        let (p, s) = self.pop();
        let s = CpuState { p, ..s };
        let (low, s) = s.pop();
        let (high, s) = s.pop();
        CpuState { pc: word(low, high), ..s }
    }

    /// The program goes on at the operand.
    #[verifier::opaque]
    pub open spec fn jump_absolute(self) -> CpuState {
        let (target, s) = self.absolute();
        CpuState { pc: target, ..s }
    }

    /// The program goes on at the address that the operand points at.
    #[verifier::opaque]
    pub open spec fn jump_absolute_indirect(self) -> CpuState {
        let (target, s) = self.absolute_indirect();
        CpuState { pc: target, ..s }
    }

    /// The address of the last byte of the instruction is pushed, high byte
    /// first, and the program goes on at the operand.
    #[verifier::opaque]
    pub open spec fn jump_subroutine(self) -> CpuState {
        let back = wrap16(self.pc + 1);
        let s = self.push(high_byte(back)).push(low_byte(back));
        let (target, s) = s.absolute();
        CpuState { pc: target, ..s }
    }

    /// An address is popped, low byte first, and the program goes on one
    /// byte after it.
    #[verifier::opaque]
    pub open spec fn return_from_subroutine(self) -> CpuState {
        let (low, s) = self.pop();
        let (high, s) = s.pop();
        CpuState { pc: wrap16(word(low, high) + 1), ..s }
    }

    /// The state after `instruction`, whose opcode has been read already.
    #[verifier::opaque]
    pub open spec fn execute(self, instruction: Instruction) -> CpuState {
        let mode = instruction.mode;
        match instruction.operation {
            Operation::Invalid => self,
            Operation::NoOperation => self,
            Operation::Or => self.or(mode),
            Operation::And => self.and(mode),
            Operation::ExclusiveOr => self.exclusive_or(mode),
            Operation::AddWithCarry => self.add_with_carry(mode),
            Operation::SubtractWithCarry => self.subtract_with_carry(mode),
            Operation::CompareA => self.compare_a(mode),
            Operation::CompareX => self.compare_x(mode),
            Operation::CompareY => self.compare_y(mode),
            Operation::BitTest => self.bit_test(mode),
            Operation::LoadA => self.load_a(mode),
            Operation::LoadX => self.load_x(mode),
            Operation::LoadY => self.load_y(mode),
            Operation::StoreA => self.store_a(mode),
            Operation::StoreX => self.store_x(mode),
            Operation::StoreY => self.store_y(mode),
            Operation::TransferAX => self.transfer_a_x(),
            Operation::TransferXA => self.transfer_x_a(),
            Operation::TransferAY => self.transfer_a_y(),
            Operation::TransferYA => self.transfer_y_a(),
            Operation::TransferSPX => self.transfer_sp_x(),
            Operation::TransferXSP => self.transfer_x_sp(),
            Operation::BranchOnCarrySet => self.branch(ProcessorStatusFlags::CARRY, true),
            Operation::BranchOnCarryReset => self.branch(ProcessorStatusFlags::CARRY, false),
            Operation::BranchOnZeroSet => self.branch(ProcessorStatusFlags::ZERO, true),
            Operation::BranchOnZeroReset => self.branch(ProcessorStatusFlags::ZERO, false),
            Operation::BranchOnNegativeSet => self.branch(ProcessorStatusFlags::NEGATIVE, true),
            Operation::BranchOnNegativeReset => self.branch(ProcessorStatusFlags::NEGATIVE, false),
            Operation::BranchOnOverflowSet => self.branch(ProcessorStatusFlags::OVERFLOW, true),
            Operation::BranchOnOverflowReset => self.branch(ProcessorStatusFlags::OVERFLOW, false),
            Operation::SetCarry => self.set_flag(ProcessorStatusFlags::CARRY),
            Operation::SetDecimal => self.set_flag(ProcessorStatusFlags::DECIMAL),
            Operation::SetInterrupt => self.set_flag(ProcessorStatusFlags::INTERRUPT),
            Operation::ClearCarry => self.clear_flag(ProcessorStatusFlags::CARRY),
            Operation::ClearDecimal => self.clear_flag(ProcessorStatusFlags::DECIMAL),
            Operation::ClearInterrupt => self.clear_flag(ProcessorStatusFlags::INTERRUPT),
            Operation::ClearOverflow => self.clear_flag(ProcessorStatusFlags::OVERFLOW),
            Operation::PushA => self.push_a(),
            Operation::PushStatus => self.push_status(),
            Operation::PullA => self.pull_a(),
            Operation::PullStatus => self.pull_status(),
            Operation::Increment => self.increment(mode),
            Operation::Decrement => self.decrement(mode),
            Operation::IncrementX => self.inc_x(),
            Operation::IncrementY => self.inc_y(),
            Operation::DecrementX => self.dec_x(),
            Operation::DecrementY => self.dec_y(),
            Operation::Break => self.break_instr(),
            Operation::ReturnFromInterrupt => self.return_from_interrupt(),
            Operation::Jump => if mode == AddressingMode::AbsoluteIndirect {
                self.jump_absolute_indirect()
            } else {
                self.jump_absolute()
            },
            Operation::JumpSubroutine => self.jump_subroutine(),
            Operation::ReturnFromSubroutine => self.return_from_subroutine(),
            Operation::ShiftLeftA | Operation::ShiftRightA | Operation::RotateLeftA
            | Operation::RotateRightA => self.shift_a(instruction.operation),
            Operation::ShiftLeft | Operation::ShiftRight | Operation::RotateLeft
            | Operation::RotateRight => self.shift_memory(instruction.operation, mode),
        }
    }

    /// The state after one instruction: the opcode at the program counter
    /// is read, the program counter moves past it, and the instruction
    /// that the opcode stands for is carried out.
    pub open spec fn step(self) -> CpuState {
        let (opcode, s) = self.read(self.pc);
        s.skip(1).execute(instruction_of(opcode))
    }

    /// The state after `steps` instructions.
    pub open spec fn run(self, steps: nat) -> CpuState
        decreases steps,
    {
        if steps == 0 {
            self
        } else {
            self.run((steps - 1) as nat).step()
        }
    }
}

/// What the four flags of an addition become, and that it leaves the four
/// other flags alone.
pub proof fn lemma_sum_flags(p: u8, carry: bool, overflow: bool, value: u8)
    by (bit_vector)
    ensures
        flag_on(
            with_negative_zero(with_flag(with_flag(p, 0x01, carry), 0x40, overflow), value),
            0x01,
        ) == carry,
        flag_on(
            with_negative_zero(with_flag(with_flag(p, 0x01, carry), 0x40, overflow), value),
            0x40,
        ) == overflow,
        flag_on(
            with_negative_zero(with_flag(with_flag(p, 0x01, carry), 0x40, overflow), value),
            0x02,
        ) == (value == 0),
        flag_on(
            with_negative_zero(with_flag(with_flag(p, 0x01, carry), 0x40, overflow), value),
            0x80,
        ) == (value >= 0x80),
        with_negative_zero(with_flag(with_flag(p, 0x01, carry), 0x40, overflow), value) & 0x3c == p
            & 0x3c,
{
}

/// A transfer between registers, but for the one to the stack pointer,
/// copies the byte and sets Negative to its bit 7 and Zero to whether it is
/// 0. The transfer to the stack pointer copies the byte and leaves the
/// status as it was.
pub proof fn lemma_transfer_flags(s: CpuState)
    ensures
        s.transfer_a_x().x == s.a && s.transfer_a_x().p == with_negative_zero(s.p, s.a),
        s.transfer_x_a().a == s.x && s.transfer_x_a().p == with_negative_zero(s.p, s.x),
        s.transfer_a_y().y == s.a && s.transfer_a_y().p == with_negative_zero(s.p, s.a),
        s.transfer_y_a().a == s.y && s.transfer_y_a().p == with_negative_zero(s.p, s.y),
        s.transfer_sp_x().x == s.sp && s.transfer_sp_x().p == with_negative_zero(s.p, s.sp),
        s.transfer_x_sp().sp == s.x && s.transfer_x_sp().p == s.p,
        forall|v: u8| #[trigger]
            flag_on(with_negative_zero(s.p, v), ProcessorStatusFlags::NEGATIVE) == ((v >> 7) & 1
                == 1),
        forall|v: u8| #[trigger]
            flag_on(with_negative_zero(s.p, v), ProcessorStatusFlags::ZERO) == (v == 0),
{
    reveal(CpuState::transfer_a_x);
    reveal(CpuState::transfer_x_a);
    reveal(CpuState::transfer_a_y);
    reveal(CpuState::transfer_y_a);
    reveal(CpuState::transfer_sp_x);
    reveal(CpuState::transfer_x_sp);
    assert forall|v: u8| #[trigger]
        flag_on(with_negative_zero(s.p, v), ProcessorStatusFlags::NEGATIVE) == ((v >> 7) & 1
            == 1) by {
        crate::status::lemma_negative_zero(s.p, v);
    }
    assert forall|v: u8| #[trigger]
        flag_on(with_negative_zero(s.p, v), ProcessorStatusFlags::ZERO) == (v == 0) by {
        crate::status::lemma_negative_zero(s.p, v);
    }
}

/// An addition with carry of the byte `m`: the accumulator becomes the sum
/// of accumulator, `m` and carry modulo 256, Carry tells whether the sum
/// reached 256, Overflow whether accumulator and `m` both differ in sign
/// from the result, and Negative and Zero follow the result.
pub proof fn lemma_add_with_carry(s: CpuState, m: u8)
    ensures
        s.add(m).a == (s.a + m + carry_of(s.p)) % 256,
        flag_on(s.add(m).p, ProcessorStatusFlags::CARRY) == (s.a + m + carry_of(s.p) >= 256),
        flag_on(s.add(m).p, ProcessorStatusFlags::OVERFLOW) == ((s.a ^ s.add(m).a) & (m ^ s.add(
            m,
        ).a) & 0x80 != 0),
        flag_on(s.add(m).p, ProcessorStatusFlags::ZERO) == (s.add(m).a == 0),
        flag_on(s.add(m).p, ProcessorStatusFlags::NEGATIVE) == (s.add(m).a >= 0x80),
        s.add(m).p & 0x3c == s.p & 0x3c,
        s.add(m).bus == s.bus && s.add(m).pc == s.pc && s.add(m).sp == s.sp && s.add(m).x == s.x
            && s.add(m).y == s.y,
{
    let carry = carry_of(s.p);
    lemma_sum_flags(
        s.p,
        adc_carry(s.a, m, carry),
        adc_overflow(s.a, m, carry),
        adc_result(s.a, m, carry),
    );
}

/// A subtraction with carry of the operand `m` is the addition with carry
/// of `255 - m`, whatever the mode by which the operand is found. Read as a
/// subtraction: the accumulator becomes accumulator minus `m` minus the
/// borrow, modulo 256, where the borrow is 1 when Carry is clear, and Carry
/// is set afterwards exactly when nothing had to be borrowed.
pub proof fn lemma_subtract_is_add(s: CpuState, mode: AddressingMode)
    ensures
        s.subtract_with_carry(mode) == s.fetch(mode).1.add((255 - s.fetch(mode).0) as u8),
        s.add_with_carry(mode) == s.fetch(mode).1.add(s.fetch(mode).0),
        s.subtract_with_carry(mode).a == (s.fetch(mode).1.a - s.fetch(mode).0 - (1 - carry_of(
            s.fetch(mode).1.p,
        ))) % 256,
        flag_on(s.subtract_with_carry(mode).p, ProcessorStatusFlags::CARRY) == (s.fetch(mode).1.a
            - s.fetch(mode).0 - (1 - carry_of(s.fetch(mode).1.p)) >= 0),
{
    reveal(CpuState::subtract_with_carry);
    reveal(CpuState::add_with_carry);
    let (m, t) = s.fetch(mode);
    lemma_add_with_carry(t, (255 - m) as u8);
}

/// Running `first` instructions and then `then` more is running
/// `first + then` instructions.
pub proof fn lemma_run_split(s: CpuState, first: nat, then: nat)
    ensures
        s.run(first + then) == s.run(first).run(then),
    decreases then,
{
    if then > 0 {
        lemma_run_split(s, first, (then - 1) as nat);
        assert(first + then - 1 == first + (then - 1) as nat);
    }
}

/// A pop right after a push returns the pushed byte and the stack pointer
/// from before the push, where the stack lies in built-in RAM as it does on
/// every bus.
pub proof fn lemma_push_pop(s: CpuState, data: u8)
    requires
        s.bus.wf(),
    ensures
        s.push(data).pop().0 == data,
        s.push(data).pop().1.sp == s.sp,
{
    crate::memory::lemma_round_trip(s.bus, s.stack(), data);
}

} // verus!
