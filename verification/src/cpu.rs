//! The processor: its registers, the addressing modes, the stack, every
//! instruction, and the loop that runs a program.

use crate::memory::{image_defect, Bus, Memory, NesError, PROGRAM_ROM};
use crate::opmap::{decode, AddressingMode, Instruction, Operation};
use crate::state::{
    word, CpuState, DIAGNOSTIC_ENTRY, DIAGNOSTIC_STATUS, INTERRUPT_VECTOR, RESET_VECTOR,
    STACK_OFFSET, STACK_RESET,
};
use crate::status::ProcessorStatusFlags;
use vstd::prelude::*;

verus! {

/// A shift to the left doubles a byte and drops what does not fit.
pub proof fn lemma_shift_left(value: u8)
    by (bit_vector)
    ensures
        value << 1 == (2 * value) % 256,
{
}

/// A shift to the right halves a byte.
pub proof fn lemma_shift_right(value: u8)
    by (bit_vector)
    ensures
        value >> 1 == value / 2,
{
}

/// A rotation to the left doubles a byte, drops what does not fit and adds the carry.
pub proof fn lemma_rotate_left(value: u8, carry: u8)
    by (bit_vector)
    requires
        carry <= 1,
    ensures
        (value << 1) | carry == (2 * value + carry) % 256,
{
}

/// A rotation to the right halves a byte and puts the carry on top.
pub proof fn lemma_rotate_right(value: u8, carry: u8)
    by (bit_vector)
    requires
        carry <= 1,
    ensures
        (value >> 1) | (carry << 7) == value / 2 + 128 * carry,
{
}

/// Bit 0 of a byte tells whether it is odd, bit 7 whether it is 128 or more.
pub proof fn lemma_end_bits(value: u8)
    by (bit_vector)
    ensures
        (value & 1 == 1) == (value % 2 == 1),
        (value >> 7 == 1) == (value >= 0x80),
{
}

/// How shifts and rotations of a byte read as arithmetic; `carry` is 0 or 1.
pub proof fn lemma_shifts(value: u8, carry: u8)
    requires
        carry <= 1,
    ensures
        value << 1 == (2 * value) % 256,
        value >> 1 == value / 2,
        (value << 1) | carry == (2 * value + carry) % 256,
        (value >> 1) | (carry << 7) == value / 2 + 128 * carry,
        (value & 1 == 1) == (value % 2 == 1),
        (value >> 7 == 1) == (value >= 0x80),
{
    lemma_shift_left(value);
    lemma_shift_right(value);
    lemma_rotate_left(value, carry);
    lemma_rotate_right(value, carry);
    lemma_end_bits(value);
}

/// The complement of a byte is its distance from 255.
pub proof fn lemma_complement(value: u8)
    by (bit_vector)
    ensures
        !value == 255 - value,
{
}

/// Whether `operation` is a load, a store or a transfer.
spec fn is_moves(operation: Operation) -> bool {
    operation is LoadA
        || operation is LoadX
        || operation is LoadY
        || operation is StoreA
        || operation is StoreX
        || operation is StoreY
        || operation is TransferAX
        || operation is TransferXA
        || operation is TransferAY
        || operation is TransferYA
        || operation is TransferSPX
        || operation is TransferXSP
}

/// Whether `operation` is a logical operation, an addition, a subtraction, a
/// comparison or a bit test.
spec fn is_arithmetic(operation: Operation) -> bool {
    operation is Or
        || operation is And
        || operation is ExclusiveOr
        || operation is AddWithCarry
        || operation is SubtractWithCarry
        || operation is CompareA
        || operation is CompareX
        || operation is CompareY
        || operation is BitTest
}

/// Whether `operation` is an increment, a decrement, a shift or a rotation.
spec fn is_counts(operation: Operation) -> bool {
    operation is Increment
        || operation is Decrement
        || operation is IncrementX
        || operation is IncrementY
        || operation is DecrementX
        || operation is DecrementY
        || operation is ShiftLeftA
        || operation is ShiftRightA
        || operation is RotateLeftA
        || operation is RotateRightA
        || operation is ShiftLeft
        || operation is ShiftRight
        || operation is RotateLeft
        || operation is RotateRight
}

/// Whether `operation` is a branch or a flag instruction.
spec fn is_branches(operation: Operation) -> bool {
    operation is BranchOnCarrySet
        || operation is BranchOnCarryReset
        || operation is BranchOnZeroSet
        || operation is BranchOnZeroReset
        || operation is BranchOnNegativeSet
        || operation is BranchOnNegativeReset
        || operation is BranchOnOverflowSet
        || operation is BranchOnOverflowReset
        || operation is SetCarry
        || operation is SetDecimal
        || operation is SetInterrupt
        || operation is ClearCarry
        || operation is ClearDecimal
        || operation is ClearInterrupt
        || operation is ClearOverflow
}

/// Whether `operation` is a jump, a return, a break, a stack instruction or no operation.
spec fn is_control(operation: Operation) -> bool {
    operation is Invalid
        || operation is NoOperation
        || operation is PushA
        || operation is PushStatus
        || operation is PullA
        || operation is PullStatus
        || operation is Break
        || operation is ReturnFromInterrupt
        || operation is Jump
        || operation is JumpSubroutine
        || operation is ReturnFromSubroutine
}

/// The processor with the bus it drives.
pub struct CPU {
    pub memory: Memory,
    pub program_counter: u16,
    pub stack_pointer: u8,
    pub accumulator: u8,
    pub idx_register_x: u8,
    pub idx_register_y: u8,
    pub processor_status: ProcessorStatusFlags,
}

impl View for CPU {
    type V = CpuState;

    open spec fn view(&self) -> CpuState {
        CpuState {
            bus: self.memory@,
            pc: self.program_counter,
            sp: self.stack_pointer,
            a: self.accumulator,
            x: self.idx_register_x,
            y: self.idx_register_y,
            p: self.processor_status.0,
        }
    }
}

impl CPU {
    /// The processor is well formed when its bus is.
    pub open spec fn wf(&self) -> bool {
        self.memory.wf()
    }

    /// The state of a processor that was just given `bus`: registers at 0,
    /// the stack pointer at `sp`, and `pc` and `p` as given.
    pub open spec fn started(bus: Bus, pc: u16, sp: u8, p: u8) -> CpuState {
        CpuState { bus, pc, sp, a: 0, x: 0, y: 0, p }
    }

    /// A processor that runs `program` from the start of program ROM.
    pub fn with_program(program: Vec<u8>) -> (cpu: Self)
        ensures
            cpu.wf(),
            cpu@ == CPU::started(Bus::of_program(program@), PROGRAM_ROM, STACK_RESET, 0),
    {
        CPU {
            memory: Memory::from_program(program),
            program_counter: PROGRAM_ROM,
            stack_pointer: STACK_RESET,
            accumulator: 0,
            idx_register_x: 0,
            idx_register_y: 0,
            processor_status: ProcessorStatusFlags::from_bits_truncate(0),
        }
    }

    /// A processor with the cartridge `image` in it, about to start at the
    /// address that the cartridge keeps at the reset vector.
    pub fn from_file(image: &[u8]) -> (cpu: Result<Self, NesError>)
        ensures
            match cpu {
                Ok(c) => image_defect(image@) is None && c.wf() && c@ == CPU::started(
                    Bus::of_image(image@),
                    word(
                        Bus::of_image(image@).read(RESET_VECTOR),
                        Bus::of_image(image@).read(0xfffd),
                    ),
                    STACK_RESET,
                    0,
                ),
                Err(NesError::FileFormat(message)) => image_defect(image@) == Some(
                    message,
                ),
                Err(_) => false,
            },
    {
        let mut memory = match Memory::from_file(image) {
            Ok(memory) => memory,
            Err(error) => {
                return Err(error);
            },
        };
        reveal(Bus::after_read);
        let low = memory.read(RESET_VECTOR);
        let high = memory.read(0xfffd);
        Ok(
            CPU {
                program_counter: (high as u16) * 256 + low as u16,
                memory,
                stack_pointer: STACK_RESET,
                accumulator: 0,
                idx_register_x: 0,
                idx_register_y: 0,
                processor_status: ProcessorStatusFlags::from_bits_truncate(0),
            },
        )
    }

    /// A processor with the diagnostic cartridge `image` in it, about to
    /// start at the cartridge's fixed entry with its fixed status.
    pub fn from_file_nestest(image: &[u8]) -> (cpu: Result<Self, NesError>)
        ensures
            match cpu {
                Ok(c) => image_defect(image@) is None && c.wf() && c@ == CPU::started(
                    Bus::of_image(image@),
                    DIAGNOSTIC_ENTRY,
                    (STACK_RESET - 2) as u8,
                    DIAGNOSTIC_STATUS,
                ),
                Err(NesError::FileFormat(message)) => image_defect(image@) == Some(
                    message,
                ),
                Err(_) => false,
            },
    {
        let memory = match Memory::from_file(image) {
            Ok(memory) => memory,
            Err(error) => {
                return Err(error);
            },
        };
        Ok(
            CPU {
                memory,
                program_counter: DIAGNOSTIC_ENTRY,
                stack_pointer: STACK_RESET - 2,
                accumulator: 0,
                idx_register_x: 0,
                idx_register_y: 0,
                processor_status: ProcessorStatusFlags::from_bits_truncate(DIAGNOSTIC_STATUS),
            },
        )
    }

    /// Runs `steps` instructions. Without a count the processor runs for
    /// as long as a count can say: `usize::MAX` instructions.
    pub fn execute(&mut self, steps: Option<usize>)
        requires
            old(self).wf(),
        ensures
            final(self).wf(),
            final(self)@ == old(self)@.run(
                match steps {
                    Some(n) => n as nat,
                    None => usize::MAX as nat,
                },
            ),
    {
        let count: usize = match steps {
            Some(n) => n,
            None => usize::MAX,
        };
        let mut done: usize = 0;
        while done < count
            invariant
                done <= count,
                self.wf(),
                self@ == old(self)@.run(done as nat),
            decreases count - done,
        {
            self.advance();
            done = done + 1;
        }
    }

    /// Runs one instruction.
    pub fn advance(&mut self)
        requires
            old(self).wf(),
        ensures
            final(self).wf(),
            final(self)@ == old(self)@.step(),
    {
        let opcode = self.read(self.program_counter);
        self.program_counter = self.program_counter.wrapping_add(1);
        self.dispatch(decode(opcode));
    }

    /// Carries out `instruction`, whose opcode has been read already.
    pub fn dispatch(&mut self, instruction: Instruction)
        requires
            old(self).wf(),
        ensures
            final(self).wf(),
            final(self)@ == old(self)@.execute(instruction),
    {
        match instruction.operation {
            Operation::LoadA
            | Operation::LoadX
            | Operation::LoadY
            | Operation::StoreA
            | Operation::StoreX
            | Operation::StoreY
            | Operation::TransferAX
            | Operation::TransferXA
            | Operation::TransferAY
            | Operation::TransferYA
            | Operation::TransferSPX
            | Operation::TransferXSP => self.dispatch_moves(instruction),
            Operation::Or
            | Operation::And
            | Operation::ExclusiveOr
            | Operation::AddWithCarry
            | Operation::SubtractWithCarry
            | Operation::CompareA
            | Operation::CompareX
            | Operation::CompareY
            | Operation::BitTest => self.dispatch_arithmetic(instruction),
            Operation::Increment
            | Operation::Decrement
            | Operation::IncrementX
            | Operation::IncrementY
            | Operation::DecrementX
            | Operation::DecrementY
            | Operation::ShiftLeftA
            | Operation::ShiftRightA
            | Operation::RotateLeftA
            | Operation::RotateRightA
            | Operation::ShiftLeft
            | Operation::ShiftRight
            | Operation::RotateLeft
            | Operation::RotateRight => self.dispatch_counts(instruction),
            Operation::BranchOnCarrySet
            | Operation::BranchOnCarryReset
            | Operation::BranchOnZeroSet
            | Operation::BranchOnZeroReset
            | Operation::BranchOnNegativeSet
            | Operation::BranchOnNegativeReset
            | Operation::BranchOnOverflowSet
            | Operation::BranchOnOverflowReset
            | Operation::SetCarry
            | Operation::SetDecimal
            | Operation::SetInterrupt
            | Operation::ClearCarry
            | Operation::ClearDecimal
            | Operation::ClearInterrupt
            | Operation::ClearOverflow => self.dispatch_branches(instruction),
            Operation::Invalid
            | Operation::NoOperation
            | Operation::PushA
            | Operation::PushStatus
            | Operation::PullA
            | Operation::PullStatus
            | Operation::Break
            | Operation::ReturnFromInterrupt
            | Operation::Jump
            | Operation::JumpSubroutine
            | Operation::ReturnFromSubroutine => self.dispatch_control(instruction),
        }
    }

    /// Carries out `instruction`, a load, a store or a transfer.
    fn dispatch_moves(&mut self, instruction: Instruction)
        requires
            old(self).wf(),
            is_moves(instruction.operation),
        ensures
            final(self).wf(),
            final(self)@ == old(self)@.execute(instruction),
    {
        reveal(CpuState::execute);
        let mode = instruction.mode;
        match instruction.operation {
            Operation::LoadA => self.load_a(mode),
            Operation::LoadX => self.load_x(mode),
            Operation::LoadY => self.load_y(mode),
            Operation::StoreA => self.store_a(mode),
            Operation::StoreX => self.store_x(mode),
            Operation::StoreY => self.store_y(mode),
            Operation::TransferAX => self.transfer_a_x(),
            Operation::TransferXA => self.transfer_x_a(),
            Operation::TransferAY => self.transfer_a_y(),
            Operation::TransferYA => self.transfer_y_a(),
            Operation::TransferSPX => self.transfer_sp_x(),
            Operation::TransferXSP => self.transfer_x_sp(),
            _ => {},
        }
    }

    /// Carries out `instruction`, a logical operation, an addition, a subtraction, a comparison or a bit test.
    fn dispatch_arithmetic(&mut self, instruction: Instruction)
        requires
            old(self).wf(),
            is_arithmetic(instruction.operation),
        ensures
            final(self).wf(),
            final(self)@ == old(self)@.execute(instruction),
    {
        reveal(CpuState::execute);
        let mode = instruction.mode;
        match instruction.operation {
            Operation::Or => self.or(mode),
            Operation::And => self.and(mode),
            Operation::ExclusiveOr => self.exclusive_or(mode),
            Operation::AddWithCarry => self.add_with_carry(mode),
            Operation::SubtractWithCarry => self.subtract_with_carry(mode),
            Operation::CompareA => self.compare_a(mode),
            Operation::CompareX => self.compare_x(mode),
            Operation::CompareY => self.compare_y(mode),
            Operation::BitTest => self.bit_test(mode),
            _ => {},
        }
    }

    /// Carries out `instruction`, an increment, a decrement, a shift or a rotation.
    fn dispatch_counts(&mut self, instruction: Instruction)
        requires
            old(self).wf(),
            is_counts(instruction.operation),
        ensures
            final(self).wf(),
            final(self)@ == old(self)@.execute(instruction),
    {
        reveal(CpuState::execute);
        let mode = instruction.mode;
        match instruction.operation {
            Operation::Increment => self.increment(mode),
            Operation::Decrement => self.decrement(mode),
            Operation::IncrementX => self.inc_x(),
            Operation::IncrementY => self.inc_y(),
            Operation::DecrementX => self.dec_x(),
            Operation::DecrementY => self.dec_y(),
            Operation::ShiftLeftA => self.asl_a(),
            Operation::ShiftRightA => self.lsr_a(),
            Operation::RotateLeftA => self.rol_a(),
            Operation::RotateRightA => self.ror_a(),
            Operation::ShiftLeft => self.asl(mode),
            Operation::ShiftRight => self.lsr(mode),
            Operation::RotateLeft => self.rol(mode),
            Operation::RotateRight => self.ror(mode),
            _ => {},
        }
    }

    /// Carries out `instruction`, a branch or a flag instruction.
    fn dispatch_branches(&mut self, instruction: Instruction)
        requires
            old(self).wf(),
            is_branches(instruction.operation),
        ensures
            final(self).wf(),
            final(self)@ == old(self)@.execute(instruction),
    {
        reveal(CpuState::execute);
        let mode = instruction.mode;
        match instruction.operation {
            Operation::BranchOnCarrySet => self.branch(ProcessorStatusFlags::CARRY, true),
            Operation::BranchOnCarryReset => self.branch(ProcessorStatusFlags::CARRY, false),
            Operation::BranchOnZeroSet => self.branch(ProcessorStatusFlags::ZERO, true),
            Operation::BranchOnZeroReset => self.branch(ProcessorStatusFlags::ZERO, false),
            Operation::BranchOnNegativeSet => self.branch(ProcessorStatusFlags::NEGATIVE, true),
            Operation::BranchOnNegativeReset => self.branch(ProcessorStatusFlags::NEGATIVE, false),
            Operation::BranchOnOverflowSet => self.branch(ProcessorStatusFlags::OVERFLOW, true),
            Operation::BranchOnOverflowReset => self.branch(ProcessorStatusFlags::OVERFLOW, false),
            Operation::SetCarry => self.set_flag(ProcessorStatusFlags::CARRY),
            Operation::SetDecimal => self.set_flag(ProcessorStatusFlags::DECIMAL),
            Operation::SetInterrupt => self.set_flag(ProcessorStatusFlags::INTERRUPT),
            Operation::ClearCarry => self.clear_flag(ProcessorStatusFlags::CARRY),
            Operation::ClearDecimal => self.clear_flag(ProcessorStatusFlags::DECIMAL),
            Operation::ClearInterrupt => self.clear_flag(ProcessorStatusFlags::INTERRUPT),
            Operation::ClearOverflow => self.clear_flag(ProcessorStatusFlags::OVERFLOW),
            _ => {},
        }
    }

    /// Carries out `instruction`, a jump, a return, a break, a stack instruction or no operation.
    fn dispatch_control(&mut self, instruction: Instruction)
        requires
            old(self).wf(),
            is_control(instruction.operation),
        ensures
            final(self).wf(),
            final(self)@ == old(self)@.execute(instruction),
    {
        reveal(CpuState::execute);
        let mode = instruction.mode;
        match instruction.operation {
            Operation::Invalid => self.noop(),
            Operation::NoOperation => self.noop(),
            Operation::PushA => self.push_a(),
            Operation::PushStatus => self.push_status(),
            Operation::PullA => self.pull_a(),
            Operation::PullStatus => self.pull_status(),
            Operation::Break => self.break_instr(),
            Operation::ReturnFromInterrupt => self.return_from_interrupt(),
            Operation::Jump => if mode == AddressingMode::AbsoluteIndirect {
                self.jump_absolute_indirect()
            } else {
                self.jump_absolute()
            },
            Operation::JumpSubroutine => self.jump_subroutine(),
            Operation::ReturnFromSubroutine => self.return_from_subroutine(),
            _ => {},
        }
    }

    /// Reads the byte at `address` from the bus.
    pub fn read(&mut self, address: u16) -> (byte: u8)
        requires
            old(self).wf(),
        ensures
            final(self).wf(),
            (byte, final(self)@) == old(self)@.read(address),
    {
        self.memory.read(address)
    }

    /// Writes `data` at `address` on the bus.
    pub fn write(&mut self, address: u16, data: u8)
        requires
            old(self).wf(),
        ensures
            final(self).wf(),
            final(self)@ == old(self)@.write(address, data),
    {
        self.memory.write(address, data)
    }

    /// Reads the address kept at `pointer` and the address after it.
    pub fn read_word(&mut self, pointer: u16) -> (address: u16)
        requires
            old(self).wf(),
        ensures
            final(self).wf(),
            (address, final(self)@) == old(self)@.read_word(pointer),
    {
        let low = self.read(pointer);
        let high = self.read(pointer.wrapping_add(1));
        (high as u16) * 256 + low as u16
    }

    /// Immediate mode: the operand is the byte at the program counter.
    pub fn get_immediate(&mut self) -> (address: u16)
        requires
            old(self).wf(),
        ensures
            final(self).wf(),
            (address, final(self)@) == old(self)@.immediate(),
    {
        let pc = self.program_counter;
        self.program_counter = self.program_counter.wrapping_add(1);
        pc
    }

    /// Zero page mode: the byte at the program counter is the address.
    pub fn get_zero_page(&mut self) -> (address: u16)
        requires
            old(self).wf(),
        ensures
            final(self).wf(),
            (address, final(self)@) == old(self)@.zero_page(),
    {
        let pc = self.program_counter;
        self.program_counter = self.program_counter.wrapping_add(1);
        self.read(pc) as u16
    }

    /// Zero page mode indexed by X; the sum wraps within the zero page.
    pub fn get_zero_page_x(&mut self) -> (address: u16)
        requires
            old(self).wf(),
        ensures
            final(self).wf(),
            (address, final(self)@) == old(self)@.zero_page_x(),
    {
        let pc = self.program_counter;
        self.program_counter = self.program_counter.wrapping_add(1);
        self.read(pc).wrapping_add(self.idx_register_x) as u16
    }

    /// Zero page mode indexed by Y; the sum wraps within the zero page.
    pub fn get_zero_page_y(&mut self) -> (address: u16)
        requires
            old(self).wf(),
        ensures
            final(self).wf(),
            (address, final(self)@) == old(self)@.zero_page_y(),
    {
        let pc = self.program_counter;
        self.program_counter = self.program_counter.wrapping_add(1);
        self.read(pc).wrapping_add(self.idx_register_y) as u16
    }

    /// Indexed indirect mode: the byte at the program counter plus X points at the address.
    pub fn get_zero_page_x_indirect(&mut self) -> (address: u16)
        requires
            old(self).wf(),
        ensures
            final(self).wf(),
            (address, final(self)@) == old(self)@.zero_page_x_indirect(),
    {
        let pc = self.program_counter;
        self.program_counter = self.program_counter.wrapping_add(1);
        let indirect_address = self.read(pc).wrapping_add(self.idx_register_x);
        self.read_word(indirect_address as u16)
    }

    /// Indirect indexed mode: the byte at the program counter points at an address, to
    /// which Y is added.
    pub fn get_zero_page_y_indirect(&mut self) -> (address: u16)
        requires
            old(self).wf(),
        ensures
            final(self).wf(),
            (address, final(self)@) == old(self)@.zero_page_y_indirect(),
    {
        let pc = self.program_counter;
        self.program_counter = self.program_counter.wrapping_add(1);
        let indirect_address = self.read(pc);
        self.read_word(indirect_address as u16).wrapping_add(self.idx_register_y as u16)
    }

    /// Reads the address in the two bytes at the program counter.
    pub fn get_absolute(&mut self) -> (address: u16)
        requires
            old(self).wf(),
        ensures
            final(self).wf(),
            (address, final(self)@) == old(self)@.absolute(),
    {
        let address = self.read_word(self.program_counter);
        self.program_counter = self.program_counter.wrapping_add(2);
        address
    }

    /// Absolute mode indexed by X.
    pub fn get_absolute_x(&mut self) -> (address: u16)
        requires
            old(self).wf(),
        ensures
            final(self).wf(),
            (address, final(self)@) == old(self)@.absolute_x(),
    {
        let base_addr = self.get_absolute();
        base_addr.wrapping_add(self.idx_register_x as u16)
    }

    /// Absolute mode indexed by Y.
    pub fn get_absolute_y(&mut self) -> (address: u16)
        requires
            old(self).wf(),
        ensures
            final(self).wf(),
            (address, final(self)@) == old(self)@.absolute_y(),
    {
        let base_addr = self.get_absolute();
        base_addr.wrapping_add(self.idx_register_y as u16)
    }

    /// Reads the address that the two bytes at the program counter point at.
    pub fn get_absolute_indirect(&mut self) -> (address: u16)
        requires
            old(self).wf(),
        ensures
            final(self).wf(),
            (address, final(self)@) == old(self)@.absolute_indirect(),
    {
        let addr_ptr = self.get_absolute();
        self.read_word(addr_ptr)
    }

    /// Relative mode: the byte at the program counter is a signed distance from the
    /// address after it.
    pub fn get_relative(&mut self) -> (address: u16)
        requires
            old(self).wf(),
        ensures
            final(self).wf(),
            (address, final(self)@) == old(self)@.relative(),
    {
        let offset = self.read(self.program_counter);
        self.program_counter = self.program_counter.wrapping_add(1);
        if offset >= 0x80 {
            self.program_counter.wrapping_sub(0x100 - offset as u16)
        } else {
            self.program_counter.wrapping_add(offset as u16)
        }
    }

    /// The address that an instruction with the mode `mode` works on.
    pub fn operand_address(&mut self, mode: AddressingMode) -> (address: u16)
        requires
            old(self).wf(),
        ensures
            final(self).wf(),
            (address, final(self)@) == old(self)@.operand(mode),
    {
        reveal(CpuState::operand);
        match mode {
            AddressingMode::Implied => 0,
            AddressingMode::Immediate => self.get_immediate(),
            AddressingMode::ZeroPage => self.get_zero_page(),
            AddressingMode::ZeroPageX => self.get_zero_page_x(),
            AddressingMode::ZeroPageY => self.get_zero_page_y(),
            AddressingMode::ZeroPageXIndirect => self.get_zero_page_x_indirect(),
            AddressingMode::ZeroPageYIndirect => self.get_zero_page_y_indirect(),
            AddressingMode::Absolute => self.get_absolute(),
            AddressingMode::AbsoluteX => self.get_absolute_x(),
            AddressingMode::AbsoluteY => self.get_absolute_y(),
            AddressingMode::AbsoluteIndirect => self.get_absolute_indirect(),
            AddressingMode::Relative => self.get_relative(),
        }
    }

    /// The byte that an instruction with the mode `mode` works on.
    pub fn fetch(&mut self, mode: AddressingMode) -> (byte: u8)
        requires
            old(self).wf(),
        ensures
            final(self).wf(),
            (byte, final(self)@) == old(self)@.fetch(mode),
    {
        let address = self.operand_address(mode);
        self.read(address)
    }

    /// The address of the top of the stack.
    pub fn get_stack(&self) -> (address: u16)
        ensures
            address == self@.stack(),
    {
        self.stack_pointer as u16 + STACK_OFFSET
    }

    /// Stores `data` at the top of the stack and moves the stack pointer down.
    pub fn push_stack(&mut self, data: u8)
        requires
            old(self).wf(),
        ensures
            final(self).wf(),
            final(self)@ == old(self)@.push(data),
    {
        let top = self.get_stack();
        self.write(top, data);
        self.stack_pointer = self.stack_pointer.wrapping_sub(1);
    }

    /// Moves the stack pointer up and reads the byte there.
    pub fn pop_stack(&mut self) -> (data: u8)
        requires
            old(self).wf(),
        ensures
            final(self).wf(),
            (data, final(self)@) == old(self)@.pop(),
    {
        self.stack_pointer = self.stack_pointer.wrapping_add(1);
        let top = self.get_stack();
        self.read(top)
    }

    /// Sets Zero when `test` is 0 and Negative when bit 7 of `test` is set,
    /// and clears each otherwise.
    pub fn update_negative_zero_flags(&mut self, test: u8)
        ensures
            final(self)@ == old(self)@.flagged(test),
            final(self).memory == old(self).memory,
    {
        self.processor_status.set(ProcessorStatusFlags::ZERO, test == 0);
        self.processor_status.set(ProcessorStatusFlags::NEGATIVE, test >= 0x80);
    }

    /// Does nothing.
    pub fn noop(&mut self)
        ensures
            *final(self) == *old(self),
    {
    }

    /// Joins the operand into the accumulator, bit by bit.
    pub fn or(&mut self, mode: AddressingMode)
        requires
            old(self).wf(),
        ensures
            final(self).wf(),
            final(self)@ == old(self)@.or(mode),
    {
        reveal(CpuState::or);
        let data = self.fetch(mode);
        self.accumulator = self.accumulator | data;
        self.update_negative_zero_flags(self.accumulator);
    }

    /// Keeps of the accumulator the bits that the operand has too.
    pub fn and(&mut self, mode: AddressingMode)
        requires
            old(self).wf(),
        ensures
            final(self).wf(),
            final(self)@ == old(self)@.and(mode),
    {
        reveal(CpuState::and);
        let data = self.fetch(mode);
        self.accumulator = self.accumulator & data;
        self.update_negative_zero_flags(self.accumulator);
    }

    /// Flips in the accumulator the bits that the operand has.
    pub fn exclusive_or(&mut self, mode: AddressingMode)
        requires
            old(self).wf(),
        ensures
            final(self).wf(),
            final(self)@ == old(self)@.exclusive_or(mode),
    {
        reveal(CpuState::exclusive_or);
        let data = self.fetch(mode);
        self.accumulator = self.accumulator ^ data;
        self.update_negative_zero_flags(self.accumulator);
    }

    /// Adds `data` and the carry to the accumulator.
    pub fn add(&mut self, data: u8)
        ensures
            final(self)@ == old(self)@.add(data),
            final(self).memory == old(self).memory,
    {
        let carry: u8 = if self.processor_status.contains(ProcessorStatusFlags::CARRY) {
            1
        } else {
            0
        };
        let wide: u16 = self.accumulator as u16 + data as u16 + carry as u16;
        let sum: u8 = (wide % 256) as u8;
        self.processor_status.set(ProcessorStatusFlags::CARRY, wide > 0xff);
        self.processor_status.set(
            ProcessorStatusFlags::OVERFLOW,
            (self.accumulator ^ sum) & (data ^ sum) & 0x80 != 0,
        );
        self.accumulator = sum;
        self.update_negative_zero_flags(self.accumulator);
    }

    /// Adds the operand and the carry to the accumulator.
    pub fn add_with_carry(&mut self, mode: AddressingMode)
        requires
            old(self).wf(),
        ensures
            final(self).wf(),
            final(self)@ == old(self)@.add_with_carry(mode),
    {
        reveal(CpuState::add_with_carry);
        let data = self.fetch(mode);
        self.add(data);
    }

    /// Subtracts the operand and the borrow from the accumulator, by adding the
    /// operand's complement and the carry.
    pub fn subtract_with_carry(&mut self, mode: AddressingMode)
        requires
            old(self).wf(),
        ensures
            final(self).wf(),
            final(self)@ == old(self)@.subtract_with_carry(mode),
    {
        reveal(CpuState::subtract_with_carry);
        let data = self.fetch(mode);
        proof {
            lemma_complement(data);
        }
        self.add(!data);
    }

    /// Sets the flags as the difference of `register` and `data` asks; the
    /// difference itself is dropped.
    pub fn compare(&mut self, register: u8, data: u8)
        ensures
            final(self)@ == old(self)@.compared(register, data),
            final(self).memory == old(self).memory,
    {
        let result = register.wrapping_sub(data);
        self.processor_status.set(ProcessorStatusFlags::CARRY, register >= data);
        self.processor_status.set(ProcessorStatusFlags::ZERO, register == data);
        self.processor_status.set(ProcessorStatusFlags::NEGATIVE, result >= 0x80);
    }

    /// Compares the accumulator with the operand.
    pub fn compare_a(&mut self, mode: AddressingMode)
        requires
            old(self).wf(),
        ensures
            final(self).wf(),
            final(self)@ == old(self)@.compare_a(mode),
    {
        reveal(CpuState::compare_a);
        let data = self.fetch(mode);
        self.compare(self.accumulator, data);
    }

    /// Compares X with the operand.
    pub fn compare_x(&mut self, mode: AddressingMode)
        requires
            old(self).wf(),
        ensures
            final(self).wf(),
            final(self)@ == old(self)@.compare_x(mode),
    {
        reveal(CpuState::compare_x);
        let data = self.fetch(mode);
        self.compare(self.idx_register_x, data);
    }

    /// Compares Y with the operand.
    pub fn compare_y(&mut self, mode: AddressingMode)
        requires
            old(self).wf(),
        ensures
            final(self).wf(),
            final(self)@ == old(self)@.compare_y(mode),
    {
        reveal(CpuState::compare_y);
        let data = self.fetch(mode);
        self.compare(self.idx_register_y, data);
    }

    /// Tests the operand against the accumulator; no register changes.
    pub fn bit_test(&mut self, mode: AddressingMode)
        requires
            old(self).wf(),
        ensures
            final(self).wf(),
            final(self)@ == old(self)@.bit_test(mode),
    {
        reveal(CpuState::bit_test);
        let data = self.fetch(mode);
        self.processor_status.set(ProcessorStatusFlags::NEGATIVE, data & 0x80 != 0);
        self.processor_status.set(ProcessorStatusFlags::OVERFLOW, data & 0x40 != 0);
        self.processor_status.set(ProcessorStatusFlags::ZERO, self.accumulator & data == 0);
    }

    /// Loads the accumulator with the operand.
    pub fn load_a(&mut self, mode: AddressingMode)
        requires
            old(self).wf(),
        ensures
            final(self).wf(),
            final(self)@ == old(self)@.load_a(mode),
    {
        reveal(CpuState::load_a);
        self.accumulator = self.fetch(mode);
        self.update_negative_zero_flags(self.accumulator);
    }

    /// Loads X with the operand.
    pub fn load_x(&mut self, mode: AddressingMode)
        requires
            old(self).wf(),
        ensures
            final(self).wf(),
            final(self)@ == old(self)@.load_x(mode),
    {
        reveal(CpuState::load_x);
        self.idx_register_x = self.fetch(mode);
        self.update_negative_zero_flags(self.idx_register_x);
    }

    /// Loads Y with the operand.
    pub fn load_y(&mut self, mode: AddressingMode)
        requires
            old(self).wf(),
        ensures
            final(self).wf(),
            final(self)@ == old(self)@.load_y(mode),
    {
        reveal(CpuState::load_y);
        self.idx_register_y = self.fetch(mode);
        self.update_negative_zero_flags(self.idx_register_y);
    }

    /// Loads the accumulator with the byte after the opcode.
    pub fn load_m_a_immediate(&mut self)
        requires
            old(self).wf(),
        ensures
            final(self).wf(),
            final(self)@ == old(self)@.load_a(AddressingMode::Immediate),
    {
        reveal(CpuState::load_a);
        self.load_a(AddressingMode::Immediate);
    }

    /// Stores the accumulator at the operand's address.
    pub fn store_a(&mut self, mode: AddressingMode)
        requires
            old(self).wf(),
        ensures
            final(self).wf(),
            final(self)@ == old(self)@.store_a(mode),
    {
        reveal(CpuState::store_a);
        let address = self.operand_address(mode);
        self.write(address, self.accumulator);
    }

    /// Stores X at the operand's address.
    pub fn store_x(&mut self, mode: AddressingMode)
        requires
            old(self).wf(),
        ensures
            final(self).wf(),
            final(self)@ == old(self)@.store_x(mode),
    {
        reveal(CpuState::store_x);
        let address = self.operand_address(mode);
        self.write(address, self.idx_register_x);
    }

    /// Stores Y at the operand's address.
    pub fn store_y(&mut self, mode: AddressingMode)
        requires
            old(self).wf(),
        ensures
            final(self).wf(),
            final(self)@ == old(self)@.store_y(mode),
    {
        reveal(CpuState::store_y);
        let address = self.operand_address(mode);
        self.write(address, self.idx_register_y);
    }

    /// Copies the accumulator to X.
    pub fn transfer_a_x(&mut self)
        ensures
            final(self)@ == old(self)@.transfer_a_x(),
            final(self).memory == old(self).memory,
    {
        reveal(CpuState::transfer_a_x);
        self.idx_register_x = self.accumulator;
        self.update_negative_zero_flags(self.idx_register_x);
    }

    /// Copies X to the accumulator.
    pub fn transfer_x_a(&mut self)
        ensures
            final(self)@ == old(self)@.transfer_x_a(),
            final(self).memory == old(self).memory,
    {
        reveal(CpuState::transfer_x_a);
        self.accumulator = self.idx_register_x;
        self.update_negative_zero_flags(self.accumulator);
    }

    /// Copies the accumulator to Y.
    pub fn transfer_a_y(&mut self)
        ensures
            final(self)@ == old(self)@.transfer_a_y(),
            final(self).memory == old(self).memory,
    {
        reveal(CpuState::transfer_a_y);
        self.idx_register_y = self.accumulator;
        self.update_negative_zero_flags(self.idx_register_y);
    }

    /// Copies Y to the accumulator.
    pub fn transfer_y_a(&mut self)
        ensures
            final(self)@ == old(self)@.transfer_y_a(),
            final(self).memory == old(self).memory,
    {
        reveal(CpuState::transfer_y_a);
        self.accumulator = self.idx_register_y;
        self.update_negative_zero_flags(self.accumulator);
    }

    /// Copies the stack pointer to X.
    pub fn transfer_sp_x(&mut self)
        ensures
            final(self)@ == old(self)@.transfer_sp_x(),
            final(self).memory == old(self).memory,
    {
        reveal(CpuState::transfer_sp_x);
        self.idx_register_x = self.stack_pointer;
        self.update_negative_zero_flags(self.idx_register_x);
    }

    /// Copies X to the stack pointer; the flags stay.
    pub fn transfer_x_sp(&mut self)
        ensures
            final(self)@ == old(self)@.transfer_x_sp(),
            final(self).memory == old(self).memory,
    {
        reveal(CpuState::transfer_x_sp);
        self.stack_pointer = self.idx_register_x;
    }

    /// Branches when the flags of `mask` are set, if `when_set`, or clear, if not.
    pub fn branch(&mut self, mask: u8, when_set: bool)
        requires
            old(self).wf(),
        ensures
            final(self).wf(),
            final(self)@ == old(self)@.branch(mask, when_set),
    {
        reveal(CpuState::branch);
        if self.processor_status.contains(mask) == when_set {
            self.program_counter = self.get_relative();
        } else {
            self.program_counter = self.program_counter.wrapping_add(1);
        }
    }

    /// Sets the flags of `mask`.
    pub fn set_flag(&mut self, mask: u8)
        ensures
            final(self)@ == old(self)@.set_flag(mask),
            final(self).memory == old(self).memory,
    {
        reveal(CpuState::set_flag);
        self.processor_status.insert(mask);
    }

    /// Clears the flags of `mask`.
    pub fn clear_flag(&mut self, mask: u8)
        ensures
            final(self)@ == old(self)@.clear_flag(mask),
            final(self).memory == old(self).memory,
    {
        reveal(CpuState::clear_flag);
        self.processor_status.remove(mask);
    }

    /// Pushes the accumulator.
    pub fn push_a(&mut self)
        requires
            old(self).wf(),
        ensures
            final(self).wf(),
            final(self)@ == old(self)@.push_a(),
    {
        reveal(CpuState::push_a);
        self.push_stack(self.accumulator);
    }

    /// Pushes the status.
    pub fn push_status(&mut self)
        requires
            old(self).wf(),
        ensures
            final(self).wf(),
            final(self)@ == old(self)@.push_status(),
    {
        reveal(CpuState::push_status);
        self.push_stack(self.processor_status.bits());
    }

    /// Pops the accumulator.
    pub fn pull_a(&mut self)
        requires
            old(self).wf(),
        ensures
            final(self).wf(),
            final(self)@ == old(self)@.pull_a(),
    {
        reveal(CpuState::pull_a);
        self.accumulator = self.pop_stack();
        self.update_negative_zero_flags(self.accumulator);
    }

    /// Pops the status, every bit of it.
    pub fn pull_status(&mut self)
        requires
            old(self).wf(),
        ensures
            final(self).wf(),
            final(self)@ == old(self)@.pull_status(),
    {
        reveal(CpuState::pull_status);
        let top = self.pop_stack();
        self.processor_status = ProcessorStatusFlags::from_bits_retain(top);
    }

    /// Adds 1 to the byte at the operand's address.
    pub fn increment(&mut self, mode: AddressingMode)
        requires
            old(self).wf(),
        ensures
            final(self).wf(),
            final(self)@ == old(self)@.increment(mode),
    {
        reveal(CpuState::increment);
        let address = self.operand_address(mode);
        let value = self.read(address).wrapping_add(1);
        self.write(address, value);
        self.update_negative_zero_flags(value);
    }

    /// Takes 1 from the byte at the operand's address.
    pub fn decrement(&mut self, mode: AddressingMode)
        requires
            old(self).wf(),
        ensures
            final(self).wf(),
            final(self)@ == old(self)@.decrement(mode),
    {
        reveal(CpuState::decrement);
        let address = self.operand_address(mode);
        let value = self.read(address).wrapping_sub(1);
        self.write(address, value);
        self.update_negative_zero_flags(value);
    }

    /// Adds 1 to X.
    pub fn inc_x(&mut self)
        ensures
            final(self)@ == old(self)@.inc_x(),
            final(self).memory == old(self).memory,
    {
        reveal(CpuState::inc_x);
        self.idx_register_x = self.idx_register_x.wrapping_add(1);
        self.update_negative_zero_flags(self.idx_register_x);
    }

    /// Adds 1 to Y.
    pub fn inc_y(&mut self)
        ensures
            final(self)@ == old(self)@.inc_y(),
            final(self).memory == old(self).memory,
    {
        reveal(CpuState::inc_y);
        self.idx_register_y = self.idx_register_y.wrapping_add(1);
        self.update_negative_zero_flags(self.idx_register_y);
    }

    /// Takes 1 from X.
    pub fn dec_x(&mut self)
        ensures
            final(self)@ == old(self)@.dec_x(),
            final(self).memory == old(self).memory,
    {
        reveal(CpuState::dec_x);
        self.idx_register_x = self.idx_register_x.wrapping_sub(1);
        self.update_negative_zero_flags(self.idx_register_x);
    }

    /// Takes 1 from Y.
    pub fn dec_y(&mut self)
        ensures
            final(self)@ == old(self)@.dec_y(),
            final(self).memory == old(self).memory,
    {
        reveal(CpuState::dec_y);
        self.idx_register_y = self.idx_register_y.wrapping_sub(1);
        self.update_negative_zero_flags(self.idx_register_y);
    }

    /// Enters the interrupt routine, if Interrupt is set. The hardware does
    /// so whether it is set or not.
    pub fn break_instr(&mut self)
        requires
            old(self).wf(),
        ensures
            final(self).wf(),
            final(self)@ == old(self)@.break_instr(),
    {
        reveal(CpuState::break_instr);
        if self.processor_status.contains(ProcessorStatusFlags::INTERRUPT) {
            let pc = self.program_counter;
            self.push_stack((pc / 256) as u8);
            self.push_stack((pc % 256) as u8);
            self.push_stack(self.processor_status.bits());
            self.processor_status.remove(ProcessorStatusFlags::INTERRUPT);
            self.program_counter = self.read_word(INTERRUPT_VECTOR);
        }
    }

    /// Leaves an interrupt routine: pops the status and the program counter.
    pub fn return_from_interrupt(&mut self)
        requires
            old(self).wf(),
        ensures
            final(self).wf(),
            final(self)@ == old(self)@.return_from_interrupt(),
    {
        reveal(CpuState::return_from_interrupt);
        let status_retain = self.pop_stack();
        self.processor_status = ProcessorStatusFlags::from_bits_retain(status_retain);
        let lower_pc = self.pop_stack();
        let upper_pc = self.pop_stack();
        self.program_counter = (upper_pc as u16) * 256 + lower_pc as u16;
    }

    /// Goes on at the address in the two bytes after the opcode.
    pub fn jump_absolute(&mut self)
        requires
            old(self).wf(),
        ensures
            final(self).wf(),
            final(self)@ == old(self)@.jump_absolute(),
    {
        reveal(CpuState::jump_absolute);
        self.program_counter = self.get_absolute();
    }

    /// Goes on at the address that the two bytes after the opcode point at.
    pub fn jump_absolute_indirect(&mut self)
        requires
            old(self).wf(),
        ensures
            final(self).wf(),
            final(self)@ == old(self)@.jump_absolute_indirect(),
    {
        reveal(CpuState::jump_absolute_indirect);
        self.program_counter = self.get_absolute_indirect();
    }

    /// Enters a subroutine: pushes the address to come back to and jumps.
    pub fn jump_subroutine(&mut self)
        requires
            old(self).wf(),
        ensures
            final(self).wf(),
            final(self)@ == old(self)@.jump_subroutine(),
    {
        reveal(CpuState::jump_subroutine);
        let pc = self.program_counter.wrapping_add(1);
        self.push_stack((pc / 256) as u8);
        self.push_stack((pc % 256) as u8);
        self.program_counter = self.get_absolute();
    }

    /// Leaves a subroutine: pops the address to come back to and goes on after it.
    pub fn return_from_subroutine(&mut self)
        requires
            old(self).wf(),
        ensures
            final(self).wf(),
            final(self)@ == old(self)@.return_from_subroutine(),
    {
        reveal(CpuState::return_from_subroutine);
        let lower_pc = self.pop_stack();
        let upper_pc = self.pop_stack();
        self.program_counter = ((upper_pc as u16) * 256 + lower_pc as u16).wrapping_add(1);
    }

    /// Shifts left: bit 7 goes to the carry, bit 0 becomes 0. Works on the accumulator.
    pub fn asl_a(&mut self)
        ensures
            final(self)@ == old(self)@.shift_a(Operation::ShiftLeftA),
            final(self).memory == old(self).memory,
    {
        reveal(CpuState::shift_a);
        let data = self.accumulator;
        let carry: u8 = if self.processor_status.contains(ProcessorStatusFlags::CARRY) {
            1
        } else {
            0
        };
        proof {
            lemma_shifts(data, carry);
        }
        self.processor_status.set(ProcessorStatusFlags::CARRY, data >> 7 == 1);
        self.accumulator = data << 1;
        self.update_negative_zero_flags(self.accumulator);
    }

    /// Shifts left: bit 7 goes to the carry, bit 0 becomes 0. Works on a byte in memory.
    pub fn asl(&mut self, mode: AddressingMode)
        requires
            old(self).wf(),
        ensures
            final(self).wf(),
            final(self)@ == old(self)@.shift_memory(Operation::ShiftLeft, mode),
    {
        reveal(CpuState::shift_memory);
        let address = self.operand_address(mode);
        let data = self.read(address);
        let carry: u8 = if self.processor_status.contains(ProcessorStatusFlags::CARRY) {
            1
        } else {
            0
        };
        proof {
            lemma_shifts(data, carry);
        }
        self.processor_status.set(ProcessorStatusFlags::CARRY, data >> 7 == 1);
        let result = data << 1;
        self.write(address, result);
        self.update_negative_zero_flags(result);
    }

    /// Shifts right: bit 0 goes to the carry, bit 7 becomes 0. Works on the accumulator.
    pub fn lsr_a(&mut self)
        ensures
            final(self)@ == old(self)@.shift_a(Operation::ShiftRightA),
            final(self).memory == old(self).memory,
    {
        reveal(CpuState::shift_a);
        let data = self.accumulator;
        let carry: u8 = if self.processor_status.contains(ProcessorStatusFlags::CARRY) {
            1
        } else {
            0
        };
        proof {
            lemma_shifts(data, carry);
        }
        self.processor_status.set(ProcessorStatusFlags::CARRY, data & 1 == 1);
        self.accumulator = data >> 1;
        self.update_negative_zero_flags(self.accumulator);
    }

    /// Shifts right: bit 0 goes to the carry, bit 7 becomes 0. Works on a byte in memory.
    pub fn lsr(&mut self, mode: AddressingMode)
        requires
            old(self).wf(),
        ensures
            final(self).wf(),
            final(self)@ == old(self)@.shift_memory(Operation::ShiftRight, mode),
    {
        reveal(CpuState::shift_memory);
        let address = self.operand_address(mode);
        let data = self.read(address);
        let carry: u8 = if self.processor_status.contains(ProcessorStatusFlags::CARRY) {
            1
        } else {
            0
        };
        proof {
            lemma_shifts(data, carry);
        }
        self.processor_status.set(ProcessorStatusFlags::CARRY, data & 1 == 1);
        let result = data >> 1;
        self.write(address, result);
        self.update_negative_zero_flags(result);
    }

    /// Rotates left: bit 7 goes to the carry, the old carry to bit 0. Works on the accumulator.
    pub fn rol_a(&mut self)
        ensures
            final(self)@ == old(self)@.shift_a(Operation::RotateLeftA),
            final(self).memory == old(self).memory,
    {
        reveal(CpuState::shift_a);
        let data = self.accumulator;
        let carry: u8 = if self.processor_status.contains(ProcessorStatusFlags::CARRY) {
            1
        } else {
            0
        };
        proof {
            lemma_shifts(data, carry);
        }
        self.processor_status.set(ProcessorStatusFlags::CARRY, data >> 7 == 1);
        self.accumulator = (data << 1) | carry;
        self.update_negative_zero_flags(self.accumulator);
    }

    /// Rotates left: bit 7 goes to the carry, the old carry to bit 0. Works on a byte in memory.
    pub fn rol(&mut self, mode: AddressingMode)
        requires
            old(self).wf(),
        ensures
            final(self).wf(),
            final(self)@ == old(self)@.shift_memory(Operation::RotateLeft, mode),
    {
        reveal(CpuState::shift_memory);
        let address = self.operand_address(mode);
        let data = self.read(address);
        let carry: u8 = if self.processor_status.contains(ProcessorStatusFlags::CARRY) {
            1
        } else {
            0
        };
        proof {
            lemma_shifts(data, carry);
        }
        self.processor_status.set(ProcessorStatusFlags::CARRY, data >> 7 == 1);
        let result = (data << 1) | carry;
        self.write(address, result);
        self.update_negative_zero_flags(result);
    }

    /// Rotates right: bit 0 goes to the carry, the old carry to bit 7. Works on the accumulator.
    pub fn ror_a(&mut self)
        ensures
            final(self)@ == old(self)@.shift_a(Operation::RotateRightA),
            final(self).memory == old(self).memory,
    {
        reveal(CpuState::shift_a);
        let data = self.accumulator;
        let carry: u8 = if self.processor_status.contains(ProcessorStatusFlags::CARRY) {
            1
        } else {
            0
        };
        proof {
            lemma_shifts(data, carry);
        }
        self.processor_status.set(ProcessorStatusFlags::CARRY, data & 1 == 1);
        self.accumulator = (data >> 1) | (carry << 7);
        self.update_negative_zero_flags(self.accumulator);
    }

    /// Rotates right: bit 0 goes to the carry, the old carry to bit 7. Works on a byte in memory.
    pub fn ror(&mut self, mode: AddressingMode)
        requires
            old(self).wf(),
        ensures
            final(self).wf(),
            final(self)@ == old(self)@.shift_memory(Operation::RotateRight, mode),
    {
        reveal(CpuState::shift_memory);
        let address = self.operand_address(mode);
        let data = self.read(address);
        let carry: u8 = if self.processor_status.contains(ProcessorStatusFlags::CARRY) {
            1
        } else {
            0
        };
        proof {
            lemma_shifts(data, carry);
        }
        self.processor_status.set(ProcessorStatusFlags::CARRY, data & 1 == 1);
        let result = (data >> 1) | (carry << 7);
        self.write(address, result);
        self.update_negative_zero_flags(result);
    }
}

} // verus!
