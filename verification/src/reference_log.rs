//! Reference traces: lines of another emulator's log, cut into fields and
//! written again in the form of this emulator's own trace.

use crate::opmap::{mnemonic_of, instruction_of, op_name};
use crate::trace::MNEMONIC_WIDTH;
use vstd::prelude::*;
use vstd::string::*;

verus! {

/// A space or a colon: what parts the fields of a line.
pub open spec fn is_separator(byte: u8) -> bool {
    byte == 0x20 || byte == 0x3a
}

/// The parts of a line between its separators. Two separators in a row
/// have an empty part between them, and a line without a separator is one part.
pub open spec fn split(line: Seq<u8>) -> Seq<Seq<u8>>
    decreases line.len(),
{
    if line.len() == 0 {
        seq![Seq::empty()]
    } else if is_separator(line.last()) {
        split(line.drop_last()).push(Seq::empty())
    } else {
        split(line.drop_last()).drop_last().push(split(line.drop_last()).last().push(line.last()))
    }
}

/// The registers that a line names.
#[derive(Clone, Copy, Debug, PartialEq, Eq, Structural)]
pub enum Field {
    A,
    X,
    Y,
    P,
    SP,
    CYC,
}

/// The register that a part names, if it is the name of one: `A`, `X`,
/// `Y`, `P`, `SP` or `CYC`, in capitals.
pub open spec fn key_of(part: Seq<u8>) -> Option<Field> {
    if part == seq![0x41u8] {
        Some(Field::A)
    } else if part == seq![0x58u8] {
        Some(Field::X)
    } else if part == seq![0x59u8] {
        Some(Field::Y)
    } else if part == seq![0x50u8] {
        Some(Field::P)
    } else if part == seq![0x53u8, 0x50u8] {
        Some(Field::SP)
    } else if part == seq![0x43u8, 0x59u8, 0x43u8] {
        Some(Field::CYC)
    } else {
        None
    }
}

/// The value of a register: the part after the last of the first `upto`
/// parts that names it, or nothing where none does.
pub open spec fn value_of(parts: Seq<Seq<u8>>, field: Field, upto: int) -> Seq<u8>
    decreases upto,
{
    if upto <= 0 {
        Seq::empty()
    } else if key_of(parts[upto - 1]) == Some(field) {
        parts[upto]
    } else {
        value_of(parts, field, upto - 1)
    }
}

/// The value of a hexadecimal digit, in either case.
pub open spec fn digit_value(byte: u8) -> Option<int> {
    if 0x30 <= byte <= 0x39 {
        Some(byte - 0x30)
    } else if 0x41 <= byte <= 0x46 {
        Some(byte - 0x41 + 10)
    } else if 0x61 <= byte <= 0x66 {
        Some(byte - 0x61 + 10)
    } else {
        None
    }
}

/// The number that hexadecimal digits write, if all of them are digits.
pub open spec fn hex_number(digits: Seq<u8>) -> Option<int>
    decreases digits.len(),
{
    if digits.len() == 0 {
        Some(0)
    } else {
        match (hex_number(digits.drop_last()), digit_value(digits.last())) {
            (Some(n), Some(d)) => Some(16 * n + d),
            _ => None,
        }
    }
}

/// The opcode that a text writes: a plus sign or none, then one
/// hexadecimal digit or more, with a value below 256.
pub open spec fn opcode_of(text: Seq<u8>) -> Option<u8> {
    let digits = if text.len() > 0 && text[0] == 0x2b {
        text.subrange(1, text.len() as int)
    } else {
        text
    };
    if digits.len() == 0 {
        None
    } else {
        match hex_number(digits) {
            Some(n) => if n < 256 {
                Some(n as u8)
            } else {
                None
            },
            None => None,
        }
    }
}

/// `text`, filled up with spaces at its end to `width` bytes.
pub open spec fn padded_bytes(text: Seq<u8>, width: nat) -> Seq<u8> {
    if text.len() >= width {
        text
    } else {
        text + Seq::new((width - text.len()) as nat, |i: int| 0x20u8)
    }
}

/// The fields of a line of a reference trace.
pub struct LogFields {
    /// The first part of the line: the address of the instruction.
    pub address: Vec<u8>,
    /// The third part of the line: the opcode.
    pub opcode: Vec<u8>,
    pub a: Vec<u8>,
    pub x: Vec<u8>,
    pub y: Vec<u8>,
    pub p: Vec<u8>,
    pub sp: Vec<u8>,
    /// The cycle count; empty where the line is read without it.
    pub cyc: Vec<u8>,
}

/// Whether a part names a register of which the value is asked for.
/// `CYC` is looked for only where `with_cycles` says so.
pub open spec fn is_key(part: Seq<u8>, with_cycles: bool) -> bool {
    key_of(part) is Some && (with_cycles || key_of(part) != Some(Field::CYC))
}

/// Whether a line can be cut into fields: it has three parts at least, and
/// it does not end with the name of a register.
pub open spec fn has_fields(line: Seq<u8>, with_cycles: bool) -> bool {
    split(line).len() >= 3 && !is_key(split(line).last(), with_cycles)
}

/// The fields of a line of a reference trace, as plain values.
pub struct LineFields {
    pub address: Seq<u8>,
    pub opcode: Seq<u8>,
    pub a: Seq<u8>,
    pub x: Seq<u8>,
    pub y: Seq<u8>,
    pub p: Seq<u8>,
    pub sp: Seq<u8>,
    pub cyc: Seq<u8>,
}

impl View for LogFields {
    type V = LineFields;

    open spec fn view(&self) -> LineFields {
        LineFields {
            address: self.address@,
            opcode: self.opcode@,
            a: self.a@,
            x: self.x@,
            y: self.y@,
            p: self.p@,
            sp: self.sp@,
            cyc: self.cyc@,
        }
    }
}

/// The fields of a line: its first part is the address, its third part the
/// opcode, and each register has the value that follows the last naming of it.
pub open spec fn fields_of(line: Seq<u8>, with_cycles: bool) -> LineFields {
    let parts = split(line);
    let all = parts.len() as int;
    LineFields {
        address: parts[0],
        opcode: parts[2],
        a: value_of(parts, Field::A, all),
        x: value_of(parts, Field::X, all),
        y: value_of(parts, Field::Y, all),
        p: value_of(parts, Field::P, all),
        sp: value_of(parts, Field::SP, all),
        cyc: if with_cycles {
            value_of(parts, Field::CYC, all)
        } else {
            Seq::empty()
        },
    }
}

impl LineFields {
    /// The line in its short form: address, opcode and registers.
    pub open spec fn plain_line(self) -> Seq<u8> {
        self.address + " ".spec_bytes() + self.opcode + " A:".spec_bytes() + self.a
            + " X:".spec_bytes() + self.x + " Y:".spec_bytes() + self.y + " P:".spec_bytes()
            + self.p + " SP:".spec_bytes() + self.sp
    }

    /// The first half of the line in its long form: the address, and the
    /// opcode with the name of its operation filled up with spaces.
    pub open spec fn named_head(self, opcode: u8) -> Seq<u8> {
        self.address + " OP:(".spec_bytes() + self.opcode + ")".spec_bytes() + padded_bytes(
            mnemonic_of(instruction_of(opcode).operation).spec_bytes(),
            MNEMONIC_WIDTH as nat,
        )
    }

    /// The second half of the line in its long form: the registers and the
    /// cycle count.
    pub open spec fn named_tail(self) -> Seq<u8> {
        " A:".spec_bytes() + self.a + " X:".spec_bytes() + self.x + " Y:".spec_bytes() + self.y
            + " P:".spec_bytes() + self.p + " SP:".spec_bytes() + self.sp + " CYC:".spec_bytes()
            + self.cyc
    }

    /// The line in its long form.
    pub open spec fn named_line(self, opcode: u8) -> Seq<u8> {
        self.named_head(opcode) + self.named_tail()
    }
}

/// The parts as sequences of bytes.
pub open spec fn rows(parts: Seq<Vec<u8>>) -> Seq<Seq<u8>> {
    Seq::new(parts.len(), |i: int| parts[i]@)
}

/// Cuts a line at its spaces and colons.
pub fn split_line(line: &[u8]) -> (parts: Vec<Vec<u8>>)
    ensures
        rows(parts@) == split(line@),
{
    let mut done: Vec<Vec<u8>> = Vec::new();
    let mut current: Vec<u8> = Vec::new();
    let mut i: usize = 0;
    proof {
        assert(line@.take(0) =~= Seq::<u8>::empty());
        assert(rows(done@).push(current@) =~= split(line@.take(0)));
    }
    while i < line.len()
        invariant
            i <= line@.len(),
            rows(done@).push(current@) == split(line@.take(i as int)),
        decreases line@.len() - i,
    {
        let byte = line[i];
        proof {
            assert(line@.take(i + 1).drop_last() =~= line@.take(i as int));
            assert(line@.take(i + 1).last() == byte);
        }
        if byte == 0x20 || byte == 0x3a {
            let ghost before = rows(done@);
            done.push(current);
            current = Vec::new();
            proof {
                assert(rows(done@) =~= split(line@.take(i as int)));
            }
        } else {
            let ghost before = current@;
            current.push(byte);
            proof {
                assert(rows(done@).push(before).drop_last() =~= rows(done@));
                assert(rows(done@).push(current@) =~= split(line@.take(i + 1)));
            }
        }
        i = i + 1;
    }
    proof {
        assert(line@.take(i as int) =~= line@);
    }
    done.push(current);
    proof {
        assert(rows(done@) =~= split(line@));
    }
    done
}

/// Tells which register a part names, if any.
pub fn key(part: &[u8]) -> (field: Option<Field>)
    ensures
        field == key_of(part@),
{
    if part.len() == 1 {
        let byte = part[0];
        proof {
            assert(part@ =~= seq![byte]);
            assert(seq![0x41u8][0] == 0x41u8 && seq![0x58u8][0] == 0x58u8 && seq![0x59u8][0]
                == 0x59u8 && seq![0x50u8][0] == 0x50u8);
        }
        if byte == 0x41 {
            Some(Field::A)
        } else if byte == 0x58 {
            Some(Field::X)
        } else if byte == 0x59 {
            Some(Field::Y)
        } else if byte == 0x50 {
            Some(Field::P)
        } else {
            None
        }
    } else if part.len() == 2 {
        proof {
            assert(part@ =~= seq![part@[0], part@[1]]);
            assert(seq![0x53u8, 0x50u8][0] == 0x53u8 && seq![0x53u8, 0x50u8][1] == 0x50u8);
        }
        if part[0] == 0x53 && part[1] == 0x50 {
            Some(Field::SP)
        } else {
            None
        }
    } else if part.len() == 3 {
        proof {
            assert(part@ =~= seq![part@[0], part@[1], part@[2]]);
            assert(seq![0x43u8, 0x59u8, 0x43u8][0] == 0x43u8 && seq![0x43u8, 0x59u8, 0x43u8][1]
                == 0x59u8 && seq![0x43u8, 0x59u8, 0x43u8][2] == 0x43u8);
        }
        if part[0] == 0x43 && part[1] == 0x59 && part[2] == 0x43 {
            Some(Field::CYC)
        } else {
            None
        }
    } else {
        None
    }
}

/// Reads an opcode written in hexadecimal.
pub fn parse_opcode(text: &[u8]) -> (opcode: Option<u8>)
    ensures
        opcode == opcode_of(text@),
{
    let start: usize = if text.len() > 0 && text[0] == 0x2b {
        1
    } else {
        0
    };
    if start >= text.len() {
        return None;
    }
    let ghost digits = text@.subrange(start as int, text@.len() as int);
    let mut value: u16 = 0;
    let mut i: usize = start;
    proof {
        assert(digits.take(0) =~= Seq::<u8>::empty());
        assert(text@.subrange(0, text@.len() as int) =~= text@);
    }
    while i < text.len()
        invariant
            start <= i <= text@.len(),
            digits == text@.subrange(start as int, text@.len() as int),
            digits.len() > 0,
            start == 0 ==> digits == text@,
            start == 0 || (start == 1 && text@[0] == 0x2b),
            start == 0 ==> !(text@.len() > 0 && text@[0] == 0x2b),
            value <= 256,
            hex_number(digits.take(i - start)) is Some,
            value == if hex_number(digits.take(i - start))->0 < 256 {
                hex_number(digits.take(i - start))->0
            } else {
                256
            },
        decreases text@.len() - i,
    {
        let byte = text[i];
        proof {
            assert(digits.take(i + 1 - start).drop_last() =~= digits.take(i - start));
            assert(digits.take(i + 1 - start).last() == byte);
            assert(digits.take(digits.len() as int) =~= digits);
        }
        let digit: u16 = if byte >= 0x30 && byte <= 0x39 {
            (byte - 0x30) as u16
        } else if byte >= 0x41 && byte <= 0x46 {
            (byte - 0x41 + 10) as u16
        } else if byte >= 0x61 && byte <= 0x66 {
            (byte - 0x61 + 10) as u16
        } else {
            proof {
                assert(digits[i - start] == byte);
                lemma_bad_digit(digits, i - start);
            }
            return None;
        };
        value = if 16 * value + digit > 255 {
            256
        } else {
            16 * value + digit
        };
        i = i + 1;
    }
    proof {
        assert(digits.take(digits.len() as int) =~= digits);
    }
    if value < 256 {
        Some(value as u8)
    } else {
        None
    }
}

/// Digits with one among them that is no digit write no number.
pub proof fn lemma_bad_digit(digits: Seq<u8>, at: int)
    requires
        0 <= at < digits.len(),
        digit_value(digits[at]) is None,
    ensures
        hex_number(digits) is None,
    decreases digits.len(),
{
    if at < digits.len() - 1 {
        lemma_bad_digit(digits.drop_last(), at);
    }
}

/// A copy of the bytes of `part`.
pub fn copy_of(part: &Vec<u8>) -> (copy: Vec<u8>)
    ensures
        copy@ == part@,
{
    vstd::slice::slice_to_vec(part.as_slice())
}

/// Cuts a line of a reference trace into its fields, or tells that it
/// cannot be cut. The cycle count is looked for where `with_cycles` says so.
pub fn parse_log_line(line: &[u8], with_cycles: bool) -> (fields: Option<LogFields>)
    ensures
        fields is Some <==> has_fields(line@, with_cycles),
        fields matches Some(f) ==> f@ == fields_of(line@, with_cycles),
{
    let parts = split_line(line);
    let count = parts.len();
    if count < 3 {
        return None;
    }
    let ghost all = rows(parts@);
    let mut fields = LogFields {
        address: copy_of(&parts[0]),
        opcode: copy_of(&parts[2]),
        a: Vec::new(),
        x: Vec::new(),
        y: Vec::new(),
        p: Vec::new(),
        sp: Vec::new(),
        cyc: Vec::new(),
    };
    let mut i: usize = 0;
    while i < count
        invariant
            i <= count,
            count == parts@.len(),
            count >= 3,
            all == rows(parts@),
            all == split(line@),
            i == count ==> !is_key(all.last(), with_cycles),
            fields.address@ == all[0],
            fields.opcode@ == all[2],
            fields.a@ == value_of(all, Field::A, i as int),
            fields.x@ == value_of(all, Field::X, i as int),
            fields.y@ == value_of(all, Field::Y, i as int),
            fields.p@ == value_of(all, Field::P, i as int),
            fields.sp@ == value_of(all, Field::SP, i as int),
            fields.cyc@ == if with_cycles {
                value_of(all, Field::CYC, i as int)
            } else {
                Seq::empty()
            },
        decreases count - i,
    {
        let field = key(parts[i].as_slice());
        proof {
            assert(all[i as int] == parts@[i as int]@);
        }
        match field {
            Some(name) => {
                if with_cycles || name != Field::CYC {
                    if i + 1 >= count {
                        return None;
                    }
                    let value = copy_of(&parts[i + 1]);
                    match name {
                        Field::A => {
                            fields.a = value;
                        },
                        Field::X => {
                            fields.x = value;
                        },
                        Field::Y => {
                            fields.y = value;
                        },
                        Field::P => {
                            fields.p = value;
                        },
                        Field::SP => {
                            fields.sp = value;
                        },
                        Field::CYC => {
                            fields.cyc = value;
                        },
                    }
                }
            },
            None => {},
        }
        i = i + 1;
    }
    Some(fields)
}

/// Appends the bytes of `text`.
pub fn push_text(out: &mut Vec<u8>, text: &str)
    ensures
        final(out)@ == old(out)@ + text.spec_bytes(),
{
    out.extend_from_slice(text.as_bytes());
}

/// Appends the bytes of `text`, filled up with spaces to `width` bytes.
pub fn push_padded_bytes(out: &mut Vec<u8>, text: &str, width: usize)
    ensures
        final(out)@ == old(out)@ + padded_bytes(text.spec_bytes(), width as nat),
{
    let bytes = text.as_bytes();
    out.extend_from_slice(bytes);
    let ghost start = old(out)@ + text.spec_bytes();
    let mut length: usize = bytes.len();
    proof {
        assert(start + Seq::new(0, |i: int| 0x20u8) =~= start);
    }
    while length < width
        invariant
            length >= bytes@.len(),
            length == bytes@.len() || length <= width,
            bytes@ == text.spec_bytes(),
            start == old(out)@ + text.spec_bytes(),
            out@ == start + Seq::new((length - bytes@.len()) as nat, |i: int| 0x20u8),
        decreases width - length,
    {
        out.push(0x20);
        proof {
            assert(out@ =~= start + Seq::new((length + 1 - bytes@.len()) as nat, |i: int| 0x20u8));
        }
        length = length + 1;
    }
    proof {
        let fill = Seq::new((length - bytes@.len()) as nat, |i: int| 0x20u8);
        assert((old(out)@ + text.spec_bytes()) + fill =~= old(out)@ + (text.spec_bytes() + fill));
        assert(text.spec_bytes() + Seq::new(0, |i: int| 0x20u8) =~= text.spec_bytes());
    }
}

/// Writes a line of a reference trace again in the short form, without the
/// name of the operation and without the cycle count, or tells that the
/// line cannot be cut into fields.
pub fn process_log_line_plain(line: &[u8]) -> (out: Option<Vec<u8>>)
    ensures
        out is Some <==> has_fields(line@, false),
        out matches Some(text) ==> text@ == fields_of(line@, false).plain_line(),
{
    let fields = match parse_log_line(line, false) {
        Some(fields) => fields,
        None => {
            return None;
        },
    };
    let mut out: Vec<u8> = Vec::new();
    out.extend_from_slice(fields.address.as_slice());
    push_text(&mut out, " ");
    out.extend_from_slice(fields.opcode.as_slice());
    push_text(&mut out, " A:");
    out.extend_from_slice(fields.a.as_slice());
    push_text(&mut out, " X:");
    out.extend_from_slice(fields.x.as_slice());
    push_text(&mut out, " Y:");
    out.extend_from_slice(fields.y.as_slice());
    push_text(&mut out, " P:");
    out.extend_from_slice(fields.p.as_slice());
    push_text(&mut out, " SP:");
    out.extend_from_slice(fields.sp.as_slice());
    assert(out@ =~= fields@.plain_line());
    Some(out)
}

/// Writes the first half of a line in the long form.
pub fn push_named_head(out: &mut Vec<u8>, fields: &LogFields, opcode: u8)
    ensures
        final(out)@ == old(out)@ + fields@.named_head(opcode),
{
    let ghost start = out@;
    out.extend_from_slice(fields.address.as_slice());
    push_text(out, " OP:(");
    out.extend_from_slice(fields.opcode.as_slice());
    push_text(out, ")");
    push_padded_bytes(out, op_name(opcode), MNEMONIC_WIDTH);
    assert(out@ =~= start + fields@.named_head(opcode));
}

/// Writes the second half of a line in the long form.
pub fn push_named_tail(out: &mut Vec<u8>, fields: &LogFields)
    ensures
        final(out)@ == old(out)@ + fields@.named_tail(),
{
    let ghost start = out@;
    push_text(out, " A:");
    out.extend_from_slice(fields.a.as_slice());
    push_text(out, " X:");
    out.extend_from_slice(fields.x.as_slice());
    push_text(out, " Y:");
    out.extend_from_slice(fields.y.as_slice());
    push_text(out, " P:");
    out.extend_from_slice(fields.p.as_slice());
    push_text(out, " SP:");
    out.extend_from_slice(fields.sp.as_slice());
    push_text(out, " CYC:");
    out.extend_from_slice(fields.cyc.as_slice());
    assert(out@ =~= start + fields@.named_tail());
}

/// Writes a line of a reference trace again in the long form, with the
/// name of the operation and with the cycle count, or tells that the line
/// cannot be cut into fields or that its third part writes no opcode.
pub fn process_log_line(line: &[u8]) -> (out: Option<Vec<u8>>)
    ensures
        out is Some <==> has_fields(line@, true) && opcode_of(split(line@)[2]) is Some,
        out matches Some(text) ==> text@ == fields_of(line@, true).named_line(
            opcode_of(split(line@)[2])->0,
        ),
{
    let fields = match parse_log_line(line, true) {
        Some(fields) => fields,
        None => {
            return None;
        },
    };
    let opcode = match parse_opcode(fields.opcode.as_slice()) {
        Some(opcode) => opcode,
        None => {
            return None;
        },
    };
    let mut out: Vec<u8> = Vec::new();
    push_named_head(&mut out, &fields, opcode);
    push_named_tail(&mut out, &fields);
    assert(out@ =~= fields@.named_line(opcode));
    Some(out)
}

} // verus!
