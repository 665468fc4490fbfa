use rust_nes_esp::cpu::CPU;
use rust_nes_esp::opmap::AddressingMode;
use rust_nes_esp::status::ProcessorStatusFlags;

fn run(program: &[u8], steps: usize) -> CPU {
    let mut cpu = CPU::with_program(program.to_vec());
    cpu.execute(Some(steps));
    cpu
}

#[test]
fn transfers_set_negative_and_zero_from_the_byte_moved() {
    for v in [0x00u8, 0x01, 0x7f, 0x80, 0xff] {
        // lda #$55 sets neither flag; ldx #v; txa would use the accumulator if the
        // flags were taken from it
        let mut cpu = CPU::with_program(vec![0xaa]);
        cpu.accumulator = v;
        cpu.idx_register_x = 0x55;
        cpu.advance();
        assert_eq!(cpu.idx_register_x, v);
        assert_eq!(cpu.processor_status.contains(ProcessorStatusFlags::NEGATIVE), v >> 7 == 1);
        assert_eq!(cpu.processor_status.contains(ProcessorStatusFlags::ZERO), v == 0);

        let mut cpu = CPU::with_program(vec![0xba]);
        cpu.accumulator = 0x55;
        cpu.stack_pointer = v;
        cpu.advance();
        assert_eq!(cpu.idx_register_x, v);
        assert_eq!(cpu.processor_status.contains(ProcessorStatusFlags::NEGATIVE), v >> 7 == 1);
        assert_eq!(cpu.processor_status.contains(ProcessorStatusFlags::ZERO), v == 0);

        let mut cpu = CPU::with_program(vec![0x9a]);
        cpu.idx_register_x = v;
        cpu.processor_status = ProcessorStatusFlags(0x41);
        cpu.advance();
        assert_eq!(cpu.stack_pointer, v);
        assert_eq!(cpu.processor_status.bits(), 0x41);
    }
}

#[test]
fn loads_of_x_and_y_set_flags_from_the_loaded_byte() {
    let cpu = run(&[0xa9, 0x01, 0xa2, 0x00], 2);
    assert_eq!(cpu.processor_status.bits(), ProcessorStatusFlags::ZERO);
    let cpu = run(&[0xa9, 0x00, 0xa0, 0x80], 2);
    assert_eq!(cpu.processor_status.bits(), ProcessorStatusFlags::NEGATIVE);
    let cpu = run(&[0xa9, 0x80, 0xe8], 2);
    assert_eq!(cpu.idx_register_x, 1);
    assert_eq!(cpu.processor_status.bits(), 0);
    let cpu = run(&[0xa9, 0x01, 0x88], 2);
    assert_eq!(cpu.idx_register_y, 0xff);
    assert_eq!(cpu.processor_status.bits(), ProcessorStatusFlags::NEGATIVE);
}

#[test]
fn addition_follows_the_formula_for_every_operand() {
    for a in [0u8, 1, 0x3f, 0x40, 0x7f, 0x80, 0xc0, 0xff] {
        for m in 0..=255u8 {
            for c in [0u16, 1] {
                let mut cpu = CPU::with_program(vec![0x69, m]);
                cpu.accumulator = a;
                cpu.processor_status.set(ProcessorStatusFlags::CARRY, c == 1);
                cpu.advance();
                let sum = a as u16 + m as u16 + c;
                let result = (sum % 256) as u8;
                assert_eq!(cpu.accumulator, result);
                assert_eq!(cpu.processor_status.contains(ProcessorStatusFlags::CARRY), sum >= 256);
                assert_eq!(
                    cpu.processor_status.contains(ProcessorStatusFlags::OVERFLOW),
                    (a ^ result) & (m ^ result) & 0x80 != 0
                );
                assert_eq!(cpu.processor_status.contains(ProcessorStatusFlags::ZERO), result == 0);
                assert_eq!(
                    cpu.processor_status.contains(ProcessorStatusFlags::NEGATIVE),
                    result >= 0x80
                );
            }
        }
    }
}

#[test]
fn subtraction_is_addition_of_the_complement() {
    for a in [0u8, 1, 0x10, 0x7f, 0x80, 0xff] {
        for m in 0..=255u8 {
            for carry in [false, true] {
                let mut sbc = CPU::with_program(vec![0xe9, m]);
                sbc.accumulator = a;
                sbc.processor_status.set(ProcessorStatusFlags::CARRY, carry);
                sbc.advance();
                let mut adc = CPU::with_program(vec![0x69, 255 - m]);
                adc.accumulator = a;
                adc.processor_status.set(ProcessorStatusFlags::CARRY, carry);
                adc.advance();
                assert_eq!(sbc.accumulator, adc.accumulator);
                assert_eq!(sbc.processor_status, adc.processor_status);
                let borrow = if carry { 0 } else { 1 };
                let difference = a as i16 - m as i16 - borrow;
                assert_eq!(sbc.accumulator, difference.rem_euclid(256) as u8);
                assert_eq!(
                    sbc.processor_status.contains(ProcessorStatusFlags::CARRY),
                    difference >= 0
                );
            }
        }
    }
}

#[test]
fn scenario_adc_with_carry_out() {
    let cpu = run(&[0xa9, 0xf0, 0x69, 0x20], 2);
    assert_eq!(cpu.accumulator, 0x10);
    assert!(cpu.processor_status.contains(ProcessorStatusFlags::CARRY));
    assert!(!cpu.processor_status.contains(ProcessorStatusFlags::OVERFLOW));
    let cpu = run(&[0xa9, 0x10, 0x69, 0x20], 2);
    assert_eq!(cpu.accumulator, 0x30);
    assert_eq!(cpu.processor_status.bits(), 0);
    let cpu = run(&[0xa9, 0x40, 0x69, 0x40], 2);
    assert_eq!(cpu.accumulator, 0x80);
    assert_eq!(
        cpu.processor_status.bits(),
        ProcessorStatusFlags::OVERFLOW | ProcessorStatusFlags::NEGATIVE
    );
    let cpu = run(&[0x38, 0xa9, 0x20, 0xe9, 0x10], 3);
    assert_eq!(cpu.accumulator, 0x10);
    assert_eq!(cpu.processor_status.bits(), ProcessorStatusFlags::CARRY);
}

#[test]
fn branches_go_both_ways_and_skip_when_not_taken() {
    // bcs +4 is not taken with carry clear
    let cpu = run(&[0xb0, 0x04], 1);
    assert_eq!(cpu.program_counter, 0x8002);
    // sec, bcs +4
    let cpu = run(&[0x38, 0xb0, 0x04], 2);
    assert_eq!(cpu.program_counter, 0x8007);
    // beq back by 2 with zero set lands on itself
    let cpu = run(&[0xa9, 0x00, 0xf0, 0xfe], 2);
    assert_eq!(cpu.program_counter, 0x8002);
    // bne, bmi, bpl, bvc, bvs
    assert_eq!(run(&[0xd0, 0x10], 1).program_counter, 0x8012);
    assert_eq!(run(&[0x30, 0x10], 1).program_counter, 0x8002);
    assert_eq!(run(&[0x10, 0x10], 1).program_counter, 0x8012);
    assert_eq!(run(&[0x50, 0x7f], 1).program_counter, 0x8081);
    assert_eq!(run(&[0x70, 0x7f], 1).program_counter, 0x8002);
    assert_eq!(run(&[0x90, 0x80], 1).program_counter, 0x7f82);
}

#[test]
fn jumps_and_subroutines() {
    // jmp $8005
    let cpu = run(&[0x4c, 0x05, 0x80], 1);
    assert_eq!(cpu.program_counter, 0x8005);
    // lda #$34, sta $10, lda #$12, sta $11, jmp ($0010)
    let cpu = run(&[0xa9, 0x34, 0x85, 0x10, 0xa9, 0x12, 0x85, 0x11, 0x6c, 0x10, 0x00], 5);
    assert_eq!(cpu.program_counter, 0x1234);
    // jsr $8004, brk, rts ... the subroutine loads and returns
    let mut cpu = CPU::with_program(vec![0x20, 0x05, 0x80, 0xa2, 0x07, 0xa9, 0x33, 0x60]);
    cpu.advance();
    assert_eq!(cpu.program_counter, 0x8005);
    assert_eq!(cpu.stack_pointer, 0xfd);
    assert_eq!(cpu.memory.read(0x01ff), 0x80);
    assert_eq!(cpu.memory.read(0x01fe), 0x02);
    cpu.execute(Some(2));
    assert_eq!(cpu.accumulator, 0x33);
    assert_eq!(cpu.program_counter, 0x8003);
    assert_eq!(cpu.stack_pointer, 0xff);
    cpu.advance();
    assert_eq!(cpu.idx_register_x, 0x07);
}

#[test]
fn break_waits_for_the_interrupt_flag() {
    let mut program = vec![0u8; 0x8000];
    program[0] = 0x00;
    program[1] = 0x78;
    program[2] = 0x38;
    program[3] = 0x00;
    program[0x7ffe] = 0x10;
    program[0x7fff] = 0x90;
    program[0x1010] = 0x40;
    let mut cpu = CPU::with_program(program);
    cpu.advance();
    assert_eq!(cpu.program_counter, 0x8001);
    assert_eq!(cpu.stack_pointer, 0xff);
    cpu.execute(Some(3));
    assert_eq!(cpu.program_counter, 0x9010);
    assert_eq!(cpu.stack_pointer, 0xfc);
    assert_eq!(cpu.memory.read(0x01ff), 0x80);
    assert_eq!(cpu.memory.read(0x01fe), 0x04);
    assert_eq!(cpu.memory.read(0x01fd), 0x05);
    assert_eq!(cpu.processor_status.bits(), 0x01);
    // return from interrupt restores the status and the program counter
    cpu.advance();
    assert_eq!(cpu.program_counter, 0x8004);
    assert_eq!(cpu.processor_status.bits(), 0x05);
    assert_eq!(cpu.stack_pointer, 0xff);
}

#[test]
fn stack_pointer_wraps_within_its_page() {
    let mut cpu = CPU::with_program(vec![0x48, 0x48, 0x68]);
    cpu.stack_pointer = 0x00;
    cpu.accumulator = 0x9c;
    cpu.advance();
    assert_eq!(cpu.stack_pointer, 0xff);
    assert_eq!(cpu.memory.read(0x0100), 0x9c);
    assert_eq!(cpu.get_stack(), 0x01ff);
    cpu.accumulator = 0x11;
    cpu.advance();
    assert_eq!(cpu.memory.read(0x01ff), 0x11);
    cpu.accumulator = 0;
    cpu.advance();
    assert_eq!(cpu.accumulator, 0x11);
    cpu.stack_pointer = 0xff;
    assert_eq!(cpu.pop_stack(), 0x9c);
    assert_eq!(cpu.stack_pointer, 0x00);
    cpu.push_stack(0x42);
    assert_eq!(cpu.memory.read(0x0100), 0x42);
}

#[test]
fn addressing_modes_give_addresses() {
    let mut cpu = CPU::with_program(vec![0xfe, 0x05, 0xff, 0x80, 0x34, 0x12, 0x00, 0x02]);
    cpu.idx_register_x = 0x02;
    cpu.idx_register_y = 0x03;
    assert_eq!(cpu.get_immediate(), 0x8000);
    assert_eq!(cpu.program_counter, 0x8001);
    assert_eq!(cpu.get_zero_page(), 0x0005);
    assert_eq!(cpu.get_zero_page_x(), 0x0001);
    cpu.program_counter = 0x8002;
    assert_eq!(cpu.get_zero_page_y(), 0x0002);
    assert_eq!(cpu.get_relative(), 0x8004 - 0x80);
    assert_eq!(cpu.get_absolute(), 0x1234);
    assert_eq!(cpu.program_counter, 0x8006);
    cpu.program_counter = 0x8004;
    assert_eq!(cpu.get_absolute_x(), 0x1236);
    cpu.program_counter = 0x8004;
    assert_eq!(cpu.get_absolute_y(), 0x1237);
    cpu.memory.write(0x0200, 0x78);
    cpu.memory.write(0x0201, 0x56);
    assert_eq!(cpu.get_absolute_indirect(), 0x5678);
    cpu.memory.write(0x0007, 0xfe);
    cpu.memory.write(0x0008, 0xff);
    cpu.program_counter = 0x8001;
    assert_eq!(cpu.get_zero_page_x_indirect(), 0xfffe);
    cpu.memory.write(0x0005, 0xfe);
    cpu.memory.write(0x0006, 0xff);
    cpu.program_counter = 0x8001;
    assert_eq!(cpu.get_zero_page_y_indirect(), 0x0001);
    cpu.program_counter = 0x8004;
    assert_eq!(cpu.operand_address(AddressingMode::Absolute), 0x1234);
    assert_eq!(cpu.operand_address(AddressingMode::Implied), 0);
    cpu.program_counter = 0xffff;
    assert_eq!(cpu.get_immediate(), 0xffff);
    assert_eq!(cpu.program_counter, 0x0000);
}

#[test]
fn rotations_through_carry_set_flags_from_the_result() {
    // rol a with bit 6 set: result negative
    let cpu = run(&[0xa9, 0x40, 0x2a], 2);
    assert_eq!(cpu.accumulator, 0x80);
    assert_eq!(cpu.processor_status.bits(), ProcessorStatusFlags::NEGATIVE);
    // rol a of 0x80: result zero, carry set
    let cpu = run(&[0xa9, 0x80, 0x2a], 2);
    assert_eq!(cpu.accumulator, 0x00);
    assert_eq!(cpu.processor_status.bits(), ProcessorStatusFlags::ZERO | ProcessorStatusFlags::CARRY);
    // ror of memory: flags from the byte written, not from the accumulator
    let cpu = run(&[0xa9, 0x01, 0x85, 0x20, 0xa9, 0x80, 0x66, 0x20], 4);
    assert_eq!(cpu.accumulator, 0x80);
    let mut cpu = cpu;
    assert_eq!(cpu.memory.read(0x20), 0x00);
    assert_eq!(cpu.processor_status.bits(), ProcessorStatusFlags::ZERO | ProcessorStatusFlags::CARRY);
    // inc of memory wraps and sets zero
    let mut cpu = run(&[0xa9, 0xff, 0x85, 0x20, 0xee, 0x20, 0x00], 3);
    assert_eq!(cpu.memory.read(0x20), 0x00);
    assert_eq!(cpu.processor_status.bits(), ProcessorStatusFlags::ZERO);
    // clv
    let mut cpu = CPU::with_program(vec![0xb8]);
    cpu.processor_status = ProcessorStatusFlags(0xff);
    cpu.advance();
    assert_eq!(cpu.processor_status.bits(), 0xbf);
}

#[test]
fn named_instructions_can_be_called_directly() {
    let mut cpu = CPU::with_program(vec![0x7f, 0x05, 0x80]);
    cpu.load_m_a_immediate();
    assert_eq!(cpu.accumulator, 0x7f);
    cpu.jump_absolute();
    assert_eq!(cpu.program_counter, 0x8005);
    cpu.noop();
    cpu.push_a();
    cpu.push_status();
    cpu.accumulator = 0;
    cpu.pull_status();
    cpu.pull_a();
    assert_eq!(cpu.accumulator, 0x7f);
    cpu.asl_a();
    assert_eq!(cpu.accumulator, 0xfe);
    cpu.lsr_a();
    assert_eq!(cpu.accumulator, 0x7f);
    cpu.processor_status.insert(ProcessorStatusFlags::CARRY);
    cpu.ror_a();
    assert_eq!(cpu.accumulator, 0xbf);
    assert!(cpu.processor_status.contains(ProcessorStatusFlags::CARRY));
    cpu.rol_a();
    assert_eq!(cpu.accumulator, 0x7f);
    cpu.update_negative_zero_flags(0);
    assert!(cpu.processor_status.contains(ProcessorStatusFlags::ZERO));
    assert_eq!(cpu.accumulator, 0x7f);
    cpu.idx_register_x = 0x33;
    cpu.transfer_x_sp();
    assert_eq!(cpu.stack_pointer, 0x33);
    cpu.program_counter = 0x8000;
    cpu.jump_subroutine();
    cpu.return_from_subroutine();
    assert_eq!(cpu.program_counter, 0x8002);
    cpu.processor_status = ProcessorStatusFlags(0);
    cpu.break_instr();
    assert_eq!(cpu.program_counter, 0x8002);
    cpu.push_stack(0x80);
    cpu.push_stack(0x10);
    cpu.push_stack(0xc3);
    cpu.return_from_interrupt();
    assert_eq!(cpu.program_counter, 0x8010);
    assert_eq!(cpu.processor_status.bits(), 0xc3);
    cpu.program_counter = 0x8001;
    cpu.memory.write(0x8005, 0);
    cpu.jump_absolute_indirect();
    assert_eq!(cpu.program_counter, 0x0000);
}

#[test]
fn running_without_a_count_of_zero_steps_changes_nothing() {
    let mut cpu = CPU::with_program(vec![0xa9, 0x01]);
    cpu.execute(Some(0));
    assert_eq!(cpu.program_counter, 0x8000);
    assert_eq!(cpu.accumulator, 0);
}
