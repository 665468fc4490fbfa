//! Text for people: hexadecimal numbers, trace lines and listing lines.

use crate::cpu::CPU;
use crate::opmap::{instruction_of, mnemonic_of, op_name, Operation};
use crate::state::CpuState;
use vstd::prelude::*;
use vstd::string::*;

verus! {

/// The width to which a trace line fills up the name of the operation.
pub const MNEMONIC_WIDTH: usize = 30;

/// The digit, in capitals, of a number below 16.
pub open spec fn hex_digit_of(n: int) -> Seq<char> {
    if n == 0 {
        "0"@
    } else if n == 1 {
        "1"@
    } else if n == 2 {
        "2"@
    } else if n == 3 {
        "3"@
    } else if n == 4 {
        "4"@
    } else if n == 5 {
        "5"@
    } else if n == 6 {
        "6"@
    } else if n == 7 {
        "7"@
    } else if n == 8 {
        "8"@
    } else if n == 9 {
        "9"@
    } else if n == 10 {
        "A"@
    } else if n == 11 {
        "B"@
    } else if n == 12 {
        "C"@
    } else if n == 13 {
        "D"@
    } else if n == 14 {
        "E"@
    } else {
        "F"@
    }
}

/// A byte as two hexadecimal digits.
pub open spec fn hex_byte_of(byte: u8) -> Seq<char> {
    hex_digit_of(byte as int / 16) + hex_digit_of(byte as int % 16)
}

/// An address as four hexadecimal digits.
pub open spec fn hex_word_of(address: u16) -> Seq<char> {
    hex_byte_of((address / 256) as u8) + hex_byte_of((address % 256) as u8)
}

/// `n` spaces.
pub open spec fn spaces(n: nat) -> Seq<char> {
    Seq::new(n, |i: int| ' ')
}

/// `text`, filled up with spaces at its end to `width` characters; a text
/// that is longer stays as it is.
pub open spec fn padded(text: Seq<char>, width: nat) -> Seq<char> {
    if text.len() >= width {
        text
    } else {
        text + spaces((width - text.len()) as nat)
    }
}

/// The digit, in capitals, of a number below 16.
pub fn hex_digit(n: u8) -> (digit: &'static str)
    requires
        n < 16,
    ensures
        digit@ == hex_digit_of(n as int),
{
    if n == 0 {
        "0"
    } else if n == 1 {
        "1"
    } else if n == 2 {
        "2"
    } else if n == 3 {
        "3"
    } else if n == 4 {
        "4"
    } else if n == 5 {
        "5"
    } else if n == 6 {
        "6"
    } else if n == 7 {
        "7"
    } else if n == 8 {
        "8"
    } else if n == 9 {
        "9"
    } else if n == 10 {
        "A"
    } else if n == 11 {
        "B"
    } else if n == 12 {
        "C"
    } else if n == 13 {
        "D"
    } else if n == 14 {
        "E"
    } else {
        "F"
    }
}

/// Appends a byte as two hexadecimal digits.
pub fn push_hex_byte(text: &mut String, byte: u8)
    ensures
        final(text)@ == old(text)@ + hex_byte_of(byte),
{
    text.append(hex_digit(byte / 16));
    text.append(hex_digit(byte % 16));
}

/// Appends an address as four hexadecimal digits.
pub fn push_hex_word(text: &mut String, address: u16)
    ensures
        final(text)@ == old(text)@ + hex_word_of(address),
{
    push_hex_byte(text, (address / 256) as u8);
    push_hex_byte(text, (address % 256) as u8);
}

/// Appends `name`, filled up with spaces to `width` characters.
pub fn push_padded(text: &mut String, name: &str, width: usize)
    ensures
        final(text)@ == old(text)@ + padded(name@, width as nat),
{
    text.append(name);
    let mut length: usize = name.unicode_len();
    let ghost start = old(text)@ + name@;
    proof {
        assert(start + spaces(0) =~= start);
    }
    while length < width
        invariant
            length >= name@.len(),
            length == name@.len() || length <= width,
            start == old(text)@ + name@,
            text@ == start + spaces((length - name@.len()) as nat),
        decreases width - length,
    {
        text.append(" ");
        proof {
            reveal_strlit(" ");
            assert(spaces((length - name@.len()) as nat) + " "@ =~= spaces(
                (length + 1 - name@.len()) as nat,
            ));
        }
        length = length + 1;
    }
    proof {
        let fill = spaces((length - name@.len()) as nat);
        assert((old(text)@ + name@) + fill =~= old(text)@ + (name@ + fill));
        assert(name@ + spaces(0) =~= name@);
    }
}

/// The first part of a trace line: the program counter, and the opcode
/// there with the name of its operation.
pub open spec fn trace_head_of(pc: u16, opcode: u8) -> Seq<char> {
    hex_word_of(pc) + " OP:("@ + hex_byte_of(opcode) + ")"@ + padded(
        mnemonic_of(instruction_of(opcode).operation)@,
        MNEMONIC_WIDTH as nat,
    )
}

/// The second part of a trace line: the registers A, X and Y.
pub open spec fn trace_registers_of(a: u8, x: u8, y: u8) -> Seq<char> {
    " A:"@ + hex_byte_of(a) + " X:"@ + hex_byte_of(x) + " Y:"@ + hex_byte_of(y)
}

/// The last part of a trace line: the status and the stack pointer.
pub open spec fn trace_tail_of(p: u8, sp: u8) -> Seq<char> {
    " P:"@ + hex_byte_of(p) + " SP:"@ + hex_byte_of(sp) + "\n"@
}

/// The line that a trace shows for the state `s` before its next
/// instruction: the program counter, the opcode there with the name of its
/// operation, and the registers, all numbers in hexadecimal.
pub open spec fn trace_line_of(s: CpuState) -> Seq<char> {
    trace_head_of(s.pc, s.bus.read(s.pc)) + trace_registers_of(s.a, s.x, s.y) + trace_tail_of(
        s.p,
        s.sp,
    )
}

/// The state after `steps` instructions were traced and run, and the text
/// of the trace. To show an opcode the trace reads it from the bus, as the
/// processor does after it.
pub open spec fn traced_run(s: CpuState, steps: nat) -> (CpuState, Seq<char>)
    decreases steps,
{
    if steps == 0 {
        (s, Seq::empty())
    } else {
        let (before, text) = traced_run(s, (steps - 1) as nat);
        (before.read(before.pc).1.step(), text + trace_line_of(before))
    }
}

/// The line of a listing for the byte `opcode` at `address`.
pub open spec fn listing_line_of(address: u16, opcode: u8) -> Seq<char> {
    "0x"@ + hex_word_of(address) + ":(0x"@ + hex_byte_of(opcode) + ")"@ + mnemonic_of(
        instruction_of(opcode).operation,
    )@ + "\n"@
}

/// The listing of the first `count` bytes of `rom` from `offset` on, each
/// byte read as an opcode, addresses counted from the start of `rom`.
pub open spec fn listing_of(rom: Seq<u8>, offset: int, count: nat) -> Seq<char>
    decreases count,
{
    if count == 0 {
        Seq::empty()
    } else {
        listing_of(rom, offset, (count - 1) as nat) + listing_line_of(
            (offset + count - 1) as u16,
            rom[offset + count - 1],
        )
    }
}

/// How many lines a listing of a ROM of `length` bytes has, from `offset`
/// on, when at most `num` lines are asked for.
pub open spec fn listing_lines(length: nat, offset: nat, num: Option<usize>) -> nat {
    let rest = if offset <= length {
        (length - offset) as nat
    } else {
        0
    };
    match num {
        Some(n) => if n < rest {
            n as nat
        } else {
            rest
        },
        None => rest,
    }
}

/// Writes the line of a listing for `opcode` at `address`.
pub fn push_listing_line(text: &mut String, address: u16, opcode: u8)
    ensures
        final(text)@ == old(text)@ + listing_line_of(address, opcode),
{
    let ghost start = text@;
    text.append("0x");
    push_hex_word(text, address);
    text.append(":(0x");
    push_hex_byte(text, opcode);
    text.append(")");
    text.append(op_name(opcode));
    text.append("\n");
    assert(text@ =~= start + listing_line_of(address, opcode));
}

/// Lists the bytes of `rom` as opcodes, one line each, from `offset` on:
/// all of them, or `num` at most.
pub fn obj_dump(rom: &[u8], offset: usize, num: Option<usize>) -> (text: String)
    requires
        rom@.len() <= 0x10000,
    ensures
        text@ == listing_of(rom@, offset as int, listing_lines(rom@.len(), offset as nat, num)),
{
    let length = rom.len();
    let rest: usize = if offset <= length {
        length - offset
    } else {
        0
    };
    let count: usize = match num {
        Some(n) => if n < rest {
            n
        } else {
            rest
        },
        None => rest,
    };
    let mut text = String::new();
    let mut line: usize = 0;
    while line < count
        invariant
            line <= count,
            count == 0 || offset + count <= length,
            length == rom@.len(),
            length <= 0x10000,
            text@ == listing_of(rom@, offset as int, line as nat),
        decreases count - line,
    {
        push_listing_line(&mut text, (offset + line) as u16, rom[offset + line]);
        line = line + 1;
    }
    text
}

/// Writes the first part of a trace line.
pub fn push_trace_head(sink: &mut String, pc: u16, opcode: u8)
    ensures
        final(sink)@ == old(sink)@ + trace_head_of(pc, opcode),
{
    let ghost start = sink@;
    push_hex_word(sink, pc);
    sink.append(" OP:(");
    push_hex_byte(sink, opcode);
    sink.append(")");
    push_padded(sink, op_name(opcode), MNEMONIC_WIDTH);
    assert(sink@ =~= start + trace_head_of(pc, opcode));
}

/// Writes the second part of a trace line.
pub fn push_trace_registers(sink: &mut String, a: u8, x: u8, y: u8)
    ensures
        final(sink)@ == old(sink)@ + trace_registers_of(a, x, y),
{
    let ghost start = sink@;
    sink.append(" A:");
    push_hex_byte(sink, a);
    sink.append(" X:");
    push_hex_byte(sink, x);
    sink.append(" Y:");
    push_hex_byte(sink, y);
    assert(sink@ =~= start + trace_registers_of(a, x, y));
}

/// Writes the last part of a trace line.
pub fn push_trace_tail(sink: &mut String, p: u8, sp: u8)
    ensures
        final(sink)@ == old(sink)@ + trace_tail_of(p, sp),
{
    let ghost start = sink@;
    sink.append(" P:");
    push_hex_byte(sink, p);
    sink.append(" SP:");
    push_hex_byte(sink, sp);
    sink.append("\n");
    assert(sink@ =~= start + trace_tail_of(p, sp));
}

impl CPU {
    /// Writes the trace line of the processor as it stands.
    pub fn push_trace_line(&mut self, sink: &mut String)
        requires
            old(self).wf(),
        ensures
            final(self).wf(),
            final(self)@ == old(self)@.read(old(self)@.pc).1,
            final(sink)@ == old(sink)@ + trace_line_of(old(self)@),
    {
        let ghost start = sink@;
        let opcode = self.read(self.program_counter);
        push_trace_head(sink, self.program_counter, opcode);
        push_trace_registers(sink, self.accumulator, self.idx_register_x, self.idx_register_y);
        push_trace_tail(sink, self.processor_status.bits(), self.stack_pointer);
        assert(sink@ =~= start + trace_line_of(old(self)@));
    }

    /// Runs `steps` instructions and writes, before each, a trace line to
    /// `sink`. Without a count the processor runs for as long as a count
    /// can say: `usize::MAX` instructions.
    pub fn execute_nestest(&mut self, steps: Option<usize>, sink: &mut String)
        requires
            old(self).wf(),
        ensures
            final(self).wf(),
            (final(self)@, final(sink)@) == ({
                let (state, text) = traced_run(
                    old(self)@,
                    match steps {
                        Some(n) => n as nat,
                        None => usize::MAX as nat,
                    },
                );
                (state, old(sink)@ + text)
            }),
    {
        let count: usize = match steps {
            Some(n) => n,
            None => usize::MAX,
        };
        let mut done: usize = 0;
        proof {
            assert(sink@ + Seq::<char>::empty() =~= sink@);
        }
        while done < count
            invariant
                done <= count,
                self.wf(),
                self@ == traced_run(old(self)@, done as nat).0,
                sink@ == old(sink)@ + traced_run(old(self)@, done as nat).1,
            decreases count - done,
        {
            let ghost before = self@;
            let ghost text = traced_run(old(self)@, done as nat).1;
            self.push_trace_line(sink);
            self.advance();
            proof {
                assert((old(sink)@ + text) + trace_line_of(before) =~= old(sink)@ + (text
                    + trace_line_of(before)));
            }
            done = done + 1;
        }
    }
}

} // verus!
