use rust_nes_esp::cpu::CPU;
use rust_nes_esp::status::ProcessorStatusFlags;

#[test]
fn test_cmp_a() {
    let mut cpu = CPU::with_program(vec![
        0xa9, 0x01, // A = 00000001
        0xC9, 0x50, // compare a with 0x50
    ]);
    cpu.execute(Some(2));
    assert_eq!(cpu.processor_status.contains(ProcessorStatusFlags::ZERO), false);
    assert_eq!(cpu.processor_status.contains(ProcessorStatusFlags::NEGATIVE), true);
    assert_eq!(cpu.processor_status.contains(ProcessorStatusFlags::CARRY), false);
}

#[test]
fn test_cmp_a_carry() {
    let mut cpu = CPU::with_program(vec![
        0xa9, 0x51, // A = 01010001
        0xC9, 0x50, // compare a with 0x50
    ]);
    cpu.execute(Some(2));
    assert_eq!(cpu.processor_status.contains(ProcessorStatusFlags::ZERO), false);
    assert_eq!(cpu.processor_status.contains(ProcessorStatusFlags::NEGATIVE), false);
    assert_eq!(cpu.processor_status.contains(ProcessorStatusFlags::CARRY), true);
}

#[test]
fn compare_equal_sets_zero_and_carry() {
    let mut cpu = CPU::with_program(vec![0xa2, 0x50, 0xe0, 0x50, 0xa0, 0x10, 0xc0, 0x20]);
    cpu.execute(Some(2));
    assert_eq!(cpu.processor_status.bits(), 0x03);
    assert_eq!(cpu.idx_register_x, 0x50);
    cpu.execute(Some(2));
    // 0x10 - 0x20 = 0xf0: negative, borrow
    assert_eq!(cpu.processor_status.bits(), 0x80);
}
