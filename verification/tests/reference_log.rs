use rust_nes_esp::reference_log::{
    key, parse_log_line, parse_opcode, process_log_line, process_log_line_plain, split_line, Field,
};

fn text(bytes: Option<Vec<u8>>) -> Option<String> {
    bytes.map(|b| String::from_utf8(b).unwrap())
}

const FIRST: &str =
    "C000  4C F5 C5  JMP $C5F5                       A:00 X:00 Y:00 P:24 SP:FD PPU:  0, 21 CYC:7";

#[test]
fn lines_are_cut_at_spaces_and_colons() {
    assert_eq!(split_line(b"a:b c"), vec![b"a".to_vec(), b"b".to_vec(), b"c".to_vec()]);
    assert_eq!(split_line(b""), vec![Vec::<u8>::new()]);
    assert_eq!(split_line(b"a::"), vec![b"a".to_vec(), vec![], vec![]]);
    assert_eq!(split_line(b" x"), vec![vec![], b"x".to_vec()]);
    let parts = split_line(FIRST.as_bytes());
    let expected: Vec<&str> = FIRST.split([' ', ':']).collect();
    assert_eq!(parts.len(), expected.len());
    for (part, want) in parts.iter().zip(expected) {
        assert_eq!(part, want.as_bytes());
    }
}

#[test]
fn register_names_are_keys() {
    assert_eq!(key(b"A"), Some(Field::A));
    assert_eq!(key(b"X"), Some(Field::X));
    assert_eq!(key(b"Y"), Some(Field::Y));
    assert_eq!(key(b"P"), Some(Field::P));
    assert_eq!(key(b"SP"), Some(Field::SP));
    assert_eq!(key(b"CYC"), Some(Field::CYC));
    assert_eq!(key(b"a"), None);
    assert_eq!(key(b"PPU"), None);
    assert_eq!(key(b"PS"), None);
    assert_eq!(key(b""), None);
    assert_eq!(key(b"CYCS"), None);
}

#[test]
fn opcodes_are_read_in_hexadecimal() {
    assert_eq!(parse_opcode(b"4C"), Some(0x4c));
    assert_eq!(parse_opcode(b"4c"), Some(0x4c));
    assert_eq!(parse_opcode(b"+7"), Some(7));
    assert_eq!(parse_opcode(b"0FF"), Some(255));
    assert_eq!(parse_opcode(b"00000a"), Some(10));
    assert_eq!(parse_opcode(b""), None);
    assert_eq!(parse_opcode(b"+"), None);
    assert_eq!(parse_opcode(b"100"), None);
    assert_eq!(parse_opcode(b"FFFFFFFFFFFFFFFFFFFFFFFF"), None);
    assert_eq!(parse_opcode(b"G"), None);
    assert_eq!(parse_opcode(b"1G"), None);
    assert_eq!(parse_opcode(b"-1"), None);
    assert_eq!(parse_opcode(b"1+"), None);
    for value in 0..=255u8 {
        assert_eq!(parse_opcode(format!("{:02X}", value).as_bytes()), Some(value));
        assert_eq!(
            parse_opcode(format!("{:x}", value).as_bytes()),
            u8::from_str_radix(&format!("{:x}", value), 16).ok()
        );
    }
}

#[test]
fn a_line_is_written_again_with_the_name_of_its_operation() {
    let expected = format!(
        "{} OP:({}){:30} A:{} X:{} Y:{} P:{} SP:{} CYC:{}",
        "C000", "4C", "JMP", "00", "00", "00", "24", "FD", "7"
    );
    assert_eq!(text(process_log_line(FIRST.as_bytes())), Some(expected));
    assert_eq!(
        text(process_log_line(FIRST.as_bytes())).unwrap(),
        "C000 OP:(4C)JMP                            A:00 X:00 Y:00 P:24 SP:FD CYC:7"
    );
}

#[test]
fn a_line_is_written_again_in_the_short_form() {
    assert_eq!(
        text(process_log_line_plain(FIRST.as_bytes())).unwrap(),
        "C000 4C A:00 X:00 Y:00 P:24 SP:FD"
    );
}

#[test]
fn the_last_naming_of_a_register_counts() {
    let line = "C72E  4A        LSR A                           A:01 X:02 Y:03 P:65 SP:FB CYC:109";
    assert_eq!(
        text(process_log_line(line.as_bytes())).unwrap(),
        "C72E OP:(4A)LSR                            A:01 X:02 Y:03 P:65 SP:FB CYC:109"
    );
    let fields = parse_log_line(line.as_bytes(), true).unwrap();
    assert_eq!(fields.address, b"C72E");
    assert_eq!(fields.opcode, b"4A");
    assert_eq!(fields.a, b"01");
    assert_eq!(fields.cyc, b"109");
    let fields = parse_log_line(line.as_bytes(), false).unwrap();
    assert_eq!(fields.cyc, b"");
    assert_eq!(fields.sp, b"FB");
}

#[test]
fn missing_registers_are_left_empty() {
    assert_eq!(
        text(process_log_line(b"8000  EA  NOP")).unwrap(),
        format!("8000 OP:(EA){:30} A: X: Y: P: SP: CYC:", "NOP")
    );
    assert_eq!(text(process_log_line_plain(b"8000  EA")).unwrap(), "8000 EA A: X: Y: P: SP:");
    assert_eq!(
        text(process_log_line(b"8000  02  X:1")).unwrap(),
        format!("8000 OP:(02){:30} A: X:1 Y: P: SP: CYC:", "! INVALID !")
    );
}

#[test]
fn lines_that_cannot_be_cut_are_refused() {
    assert_eq!(process_log_line(b""), None);
    assert_eq!(process_log_line(b"C000 4C"), None);
    assert_eq!(process_log_line_plain(b"C000 4C"), None);
    // a register name at the end has no value
    assert_eq!(process_log_line(b"C000  4C A"), None);
    assert_eq!(process_log_line_plain(b"C000  4C SP"), None);
    assert_eq!(process_log_line(b"C000  4C CYC"), None);
    // the short form does not look for the cycle count
    assert_eq!(text(process_log_line_plain(b"C000  4C CYC")).unwrap(), "C000 4C A: X: Y: P: SP:");
    // the third part is no opcode
    assert_eq!(process_log_line(b"C000 4C G5"), None);
    assert_eq!(process_log_line(b"C000  ZZ A:00"), None);
    assert_eq!(text(process_log_line_plain(b"C000  ZZ A:00")).unwrap(), "C000 ZZ A:00 X: Y: P: SP:");
    assert!(parse_log_line(b"a b", true).is_none());
    assert!(parse_log_line(b"a b c", true).is_some());
}
