//! The debug report: the registers, counters, timers and call stack of a
//! machine as text.

use vstd::prelude::*;
use vstd::string::StringExecFns;
use crate::state::{Machine, NUM_REGS, STACK_LEN};

verus! {

/// The lower-case hexadecimal digit for `d`, as text.
pub open spec fn hex_digit(d: int) -> Seq<char> {
    if d == 0 {
        "0"@
    } else if d == 1 {
        "1"@
    } else if d == 2 {
        "2"@
    } else if d == 3 {
        "3"@
    } else if d == 4 {
        "4"@
    } else if d == 5 {
        "5"@
    } else if d == 6 {
        "6"@
    } else if d == 7 {
        "7"@
    } else if d == 8 {
        "8"@
    } else if d == 9 {
        "9"@
    } else if d == 10 {
        "a"@
    } else if d == 11 {
        "b"@
    } else if d == 12 {
        "c"@
    } else if d == 13 {
        "d"@
    } else if d == 14 {
        "e"@
    } else {
        "f"@
    }
}

/// The name of register `r` in the report: one hexadecimal digit, the
/// letters in upper case.
pub open spec fn reg_label(r: int) -> Seq<char> {
    if r < 10 {
        hex_digit(r)
    } else if r == 10 {
        "A"@
    } else if r == 11 {
        "B"@
    } else if r == 12 {
        "C"@
    } else if r == 13 {
        "D"@
    } else if r == 14 {
        "E"@
    } else {
        "F"@
    }
}

/// The hexadecimal digits of `n`, most significant first, without leading
/// zeros; one digit for zero.
pub open spec fn hex_digits(n: nat) -> Seq<char>
    decreases n,
{
    if n < 16 {
        hex_digit(n as int)
    } else {
        hex_digits(n / 16) + hex_digit((n % 16) as int)
    }
}

/// `n` in hexadecimal behind the prefix `0x`.
pub open spec fn hex(n: nat) -> Seq<char> {
    "0x"@ + hex_digits(n)
}

/// The entries of the register line for the first `count` registers: for
/// each a space, its label, a colon and its value.
pub open spec fn regs_text(v: Seq<u8>, count: nat) -> Seq<char>
    decreases count,
{
    if count == 0 {
        Seq::empty()
    } else {
        regs_text(v, (count - 1) as nat) + " "@ + reg_label(count - 1) + ":"@ + hex(
            v[count - 1] as nat,
        )
    }
}

/// The lowest `count` call stack slots, oldest first, one per line.
pub open spec fn stack_text(stack: Seq<u16>, count: nat) -> Seq<char>
    decreases count,
{
    if count == 0 {
        Seq::empty()
    } else {
        stack_text(stack, (count - 1) as nat) + hex(stack[count - 1] as nat) + "\n"@
    }
}

/// The report made of these parts of a machine state, `last_op` being the
/// instruction word executed last: a heading, the word, all sixteen
/// registers, the program counter, stack pointer and timers, and, if the
/// call stack is not empty, the return addresses on it. Every line ends
/// with a line feed.
pub open spec fn report_of(
    last_op: u16,
    v: Seq<u8>,
    pc: u16,
    sp: u8,
    delay_timer: u8,
    sound_timer: u8,
    stack: Seq<u16>,
) -> Seq<char> {
    "=======DBG PROCESSOR STATE==========\n"@ + "LAST OP: "@ + hex(last_op as nat) + "\n"@
        + "REGS:"@ + regs_text(v, NUM_REGS as nat) + "\n"@ + "PC: "@ + hex(pc as nat)
        + "  SP: "@ + hex(sp as nat) + "  DLY: "@ + hex(delay_timer as nat) + "  SND: "@ + hex(
        sound_timer as nat,
    ) + "\n"@ + if sp > 0 {
        "STACK:\n"@ + stack_text(stack, sp as nat)
    } else {
        Seq::empty()
    }
}

/// The report on machine `m` after it executed the instruction word
/// `last_op`.
pub open spec fn report_text(m: Machine, last_op: u16) -> Seq<char> {
    report_of(last_op, m.v, m.pc, m.sp, m.delay_timer, m.sound_timer, m.stack)
}

/// The text of one lower-case hexadecimal digit.
fn hex_digit_str(d: u16) -> (text: &'static str)
    requires
        d < 16,
    ensures
        text@ == hex_digit(d as int),
{
    match d {
        0 => "0",
        1 => "1",
        2 => "2",
        3 => "3",
        4 => "4",
        5 => "5",
        6 => "6",
        7 => "7",
        8 => "8",
        9 => "9",
        10 => "a",
        11 => "b",
        12 => "c",
        13 => "d",
        14 => "e",
        _ => "f",
    }
}

/// The label of register `r`.
fn reg_label_str(r: usize) -> (text: &'static str)
    requires
        r < NUM_REGS,
    ensures
        text@ == reg_label(r as int),
{
    match r {
        10 => "A",
        11 => "B",
        12 => "C",
        13 => "D",
        14 => "E",
        15 => "F",
        _ => hex_digit_str(r as u16),
    }
}

/// Appends the hexadecimal digits of `n` to `out`.
fn push_hex_digits(out: &mut String, n: u16)
    ensures
        final(out)@ == old(out)@ + hex_digits(n as nat),
    decreases n,
{
    if n >= 16 {
        push_hex_digits(out, n / 16);
    }
    out.append(hex_digit_str(n % 16));
    proof {
        if n >= 16 {
            assert(out@ =~= old(out)@ + (hex_digits((n / 16) as nat) + hex_digit(
                (n % 16) as int,
            )));
        }
    }
}

/// Appends `n` in hexadecimal, behind `0x`, to `out`.
fn push_hex(out: &mut String, n: u16)
    ensures
        final(out)@ == old(out)@ + hex(n as nat),
{
    out.append("0x");
    push_hex_digits(out, n);
    assert(out@ =~= old(out)@ + hex(n as nat));
}

/// Renders the debug report from the parts of the machine state it shows.
pub(crate) fn render(
    last_op: u16,
    v: &[u8; NUM_REGS],
    pc: u16,
    sp: u8,
    delay_timer: u8,
    sound_timer: u8,
    stack: &[u16; STACK_LEN],
) -> (report: String)
    requires
        sp <= STACK_LEN,
    ensures
        report@ == report_of(last_op, v@, pc, sp, delay_timer, sound_timer, stack@),
{
    let mut out = String::new();
    out.append("=======DBG PROCESSOR STATE==========\n");
    out.append("LAST OP: ");
    push_hex(&mut out, last_op);
    out.append("\n");
    out.append("REGS:");
    let ghost head = out@;
    let mut r: usize = 0;
    while r < NUM_REGS
        invariant
            r <= NUM_REGS,
            out@ == head + regs_text(v@, r as nat),
        decreases NUM_REGS - r,
    {
        out.append(" ");
        out.append(reg_label_str(r));
        out.append(":");
        push_hex(&mut out, v[r] as u16);
        r += 1;
        assert(out@ =~= head + regs_text(v@, r as nat));
    }
    out.append("\n");
    out.append("PC: ");
    push_hex(&mut out, pc);
    out.append("  SP: ");
    push_hex(&mut out, sp as u16);
    out.append("  DLY: ");
    push_hex(&mut out, delay_timer as u16);
    out.append("  SND: ");
    push_hex(&mut out, sound_timer as u16);
    out.append("\n");
    let ghost body = out@;
    if sp > 0 {
        out.append("STACK:\n");
        let ghost top = out@;
        let mut k: usize = 0;
        while k < sp as usize
            invariant
                k <= sp,
                sp <= STACK_LEN,
                out@ == top + stack_text(stack@, k as nat),
            decreases sp - k,
        {
            push_hex(&mut out, stack[k]);
            out.append("\n");
            k += 1;
            assert(out@ =~= top + stack_text(stack@, k as nat));
        }
        assert(out@ =~= body + ("STACK:\n"@ + stack_text(stack@, sp as nat)));
    } else {
        assert(out@ =~= body + Seq::<char>::empty());
    }
    out
}

} // verus!
