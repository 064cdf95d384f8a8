//! What holds of every machine: laws of the instruction table and of the
//! cycle, proved from the definitions in [`crate::state`].

use vstd::prelude::*;
use crate::instruction::{addr12, nibble0, nibble1, nibble2, nibble3, opcode_of, Opcode};
use crate::state::{
    count_down, Machine, MEM_LENGTH, NUM_REGS, PC_START, PC_STEP, SCREEN_SIZE, STACK_LEN,
};

verus! {

/// Every instruction word selects an operation whose register operands are
/// below 16 and whose address operand is below 4096.
pub proof fn law_every_word_decodes(word: u16)
    ensures
        opcode_of(word).wf(),
{
    assert(nibble1(word) < 16 && nibble2(word) < 16 && addr12(word) < 0x1000) by (bit_vector)
        requires
            nibble1(word) == (word & 0x0F00) >> 8,
            nibble2(word) == (word & 0x00F0) >> 4,
            addr12(word) == word & 0x0FFF,
    ;
}

/// The words in no row of the instruction table, and only they, select no
/// operation: those of the families `D`, `E` and `F`; those of family 8
/// whose last nibble is 8 to `D` or `F`; those of family 9 whose last nibble
/// is not 0; and those of family 0 other than `0000`, `00E0` and `00EE`.
pub proof fn law_unlisted_words_unknown(word: u16)
    ensures
        opcode_of(word) is Unknown <==> {
            ||| word >= 0xD000
            ||| nibble0(word) == 0x8 && (0x8 <= nibble3(word) <= 0xD || nibble3(word) == 0xF)
            ||| nibble0(word) == 0x9 && nibble3(word) != 0x0
            ||| nibble0(word) == 0x0 && word != 0x0000 && word != 0x00E0 && word != 0x00EE
        },
{
    let n0 = nibble0(word);
    let n1 = nibble1(word);
    let n2 = nibble2(word);
    let n3 = nibble3(word);
    assert({
        &&& n0 < 16
        &&& n3 < 16
        &&& (word >= 0xD000 <==> n0 >= 0xD)
        &&& (n0 == 0 && n1 == 0 && n2 == 0 && n3 == 0 <==> word == 0x0000)
        &&& (n0 == 0 && n1 == 0 && n2 == 0xE && n3 == 0 <==> word == 0x00E0)
        &&& (n0 == 0 && n1 == 0 && n2 == 0xE && n3 == 0xE <==> word == 0x00EE)
    }) by (bit_vector)
        requires
            n0 == (word & 0xF000) >> 12,
            n1 == (word & 0x0F00) >> 8,
            n2 == (word & 0x00F0) >> 4,
            n3 == word & 0x000F,
    ;
}

/// A cycle keeps the machine well formed: the sizes stay, at most twelve
/// stack slots are in use, and every slot holds a fetch address.
pub proof fn law_step_keeps_wf(m: Machine, random: u8)
    requires
        m.wf(),
        m.pending_fault() is None,
    ensures
        m.step(random).wf(),
{
    law_every_word_decodes(m.next_word());
}

/// A cycle moves each timer one step toward zero, and never below it,
/// whatever the instruction.
pub proof fn law_timers_count_down(m: Machine, random: u8)
    requires
        m.wf(),
    ensures
        m.step(random).delay_timer == count_down(m.delay_timer),
        m.step(random).sound_timer == count_down(m.sound_timer),
        m.step(random).delay_timer <= m.delay_timer,
        m.step(random).sound_timer <= m.sound_timer,
{
}

/// Only the random-mask instruction reads the random byte.
pub proof fn law_random_byte_unread(m: Machine, first: u8, second: u8)
    requires
        !(m.next_opcode() is Random),
    ensures
        m.step(first) == m.step(second),
{
}

/// After a cycle whose instruction is no jump, call, return or skip, the
/// program counter is exactly one instruction behind the address that the
/// instruction was fetched from; that address is the old program counter
/// wherever a whole word can be read there.
pub proof fn law_straight_line_advances(m: Machine, random: u8)
    requires
        m.wf(),
        !m.next_opcode().is_control_flow(),
    ensures
        m.step(random).pc == m.fetch_pc() + PC_STEP,
        m.pc + 1 < MEM_LENGTH ==> m.step(random).pc == m.pc + 2,
{
}

/// After a cycle whose instruction is a skip, the program counter is two
/// instructions behind the fetch address exactly when the skip's condition
/// holds, else one.
pub proof fn law_skip_advances(m: Machine, random: u8)
    requires
        m.wf(),
        m.next_opcode().is_skip(),
    ensures
        m.skips(m.next_opcode()) ==> m.step(random).pc == m.fetch_pc() + 2 * PC_STEP,
        !m.skips(m.next_opcode()) ==> m.step(random).pc == m.fetch_pc() + PC_STEP,
        m.pc + 1 < MEM_LENGTH ==> (m.step(random).pc == m.pc + 4 <==> m.skips(m.next_opcode())),
        m.pc + 1 < MEM_LENGTH ==> (m.step(random).pc == m.pc + 2 <==> !m.skips(m.next_opcode())),
{
}

/// A call whose target holds a return: the return can be carried out, and
/// after it the program counter is one instruction behind the call site and
/// the stack pointer is what it was before the call.
pub proof fn law_call_then_return(m: Machine, first: u8, second: u8)
    requires
        m.wf(),
        m.next_opcode() is Call,
        m.pending_fault() is None,
        m.step(first).next_opcode() is Ret,
    ensures
        m.step(first).pending_fault() is None,
        m.step(first).step(second).pc == m.fetch_pc() + PC_STEP,
        m.step(first).step(second).sp == m.sp,
{
    law_every_word_decodes(m.next_word());
}

/// The clear-screen instruction leaves every framebuffer cell zero, and a
/// second one directly behind it changes nothing in the framebuffer.
pub proof fn law_clear_screen(m: Machine, first: u8, second: u8)
    requires
        m.wf(),
        m.next_opcode() is Cls,
    ensures
        m.step(first).screen.len() == SCREEN_SIZE,
        forall|p: int| 0 <= p < SCREEN_SIZE ==> m.step(first).screen[p] == 0,
        m.step(first).next_opcode() is Cls ==> m.step(first).step(second).screen == m.step(
            first,
        ).screen,
{
}

/// Loading an image that fits leaves the program counter at the program
/// start address, the image in memory from there on, and every other byte
/// of memory as it was.
pub proof fn law_load(m: Machine, image: Seq<u8>)
    requires
        m.wf(),
        Machine::fits(image.len()),
    ensures
        m.load(image).wf(),
        m.load(image).pc == PC_START,
        forall|k: int| 0 <= k < image.len() ==> m.load(image).mem[PC_START + k] == image[k],
        forall|a: int|
            0 <= a < MEM_LENGTH && !(PC_START <= a < PC_START + image.len()) ==> m.load(
                image,
            ).mem[a] == m.mem[a],
{
}

/// Loading into a new machine leaves memory zero outside the image.
pub proof fn law_load_into_new(image: Seq<u8>)
    requires
        Machine::fits(image.len()),
    ensures
        forall|a: int|
            0 <= a < MEM_LENGTH && !(PC_START <= a < PC_START + image.len())
                ==> Machine::initial().load(image).mem[a] == 0,
{
}

/// The random-mask instruction leaves `random & mask` in its register, so
/// with an all-zero mask it leaves zero whatever byte was drawn.
pub proof fn law_random_mask(m: Machine, random: u8)
    requires
        m.wf(),
    ensures
        m.next_opcode() matches Opcode::Random { x, mask } ==> {
            &&& m.step(random).v[x as int] == random & mask
            &&& mask == 0 ==> m.step(random).v[x as int] == 0
        },
{
    law_every_word_decodes(m.next_word());
    if let Opcode::Random { x, mask } = m.next_opcode() {
        assert(mask == 0 ==> random & mask == 0) by (bit_vector);
    }
}

/// A word outside the instruction table can always be cycled over: nothing
/// stands in the way, the halt flag keeps its value, and the program
/// counter is one instruction behind the fetch address. Only the timers
/// and the program counter change.
pub proof fn law_unknown_word(m: Machine, random: u8)
    requires
        m.wf(),
        m.next_opcode() is Unknown,
    ensures
        m.pending_fault() is None,
        m.step(random).halted == m.halted,
        m.step(random).pc == m.fetch_pc() + PC_STEP,
        m.step(random) == m.tick().fetched().advance(1),
{
}

/// Executing a skip changes the program counter and nothing else: it moves
/// two instructions on if the skip's condition holds, else one. A register
/// compared with itself is always equal and never different.
pub proof fn law_skip_changes_only_pc(m: Machine, op: Opcode, random: u8)
    requires
        op.is_skip(),
        m.pc + 2 * PC_STEP <= u16::MAX,
    ensures
        m.apply(op, random) == (Machine { pc: m.apply(op, random).pc, ..m }),
        m.skips(op) ==> m.apply(op, random).pc == m.pc + 2 * PC_STEP,
        !m.skips(op) ==> m.apply(op, random).pc == m.pc + PC_STEP,
        op matches Opcode::SkipRegEq { x, y } ==> x == y ==> m.apply(op, random).pc == m.pc + 2
            * PC_STEP,
        op matches Opcode::SkipRegNe { x, y } ==> x == y ==> m.apply(op, random).pc == m.pc
            + PC_STEP,
{
}

/// Executing a return continues one instruction behind the address in the
/// topmost slot in use and frees that slot. Behind a call it therefore
/// continues one instruction behind the call site, with the stack pointer
/// that the call found, whatever the call's target.
pub proof fn law_return_undoes_call(m: Machine, addr: u16, first: u8, second: u8)
    requires
        m.wf(),
    ensures
        m.sp > 0 ==> m.apply(Opcode::Ret, first).pc == m.stack[m.sp - 1] + PC_STEP && m.apply(
            Opcode::Ret,
            first,
        ).sp == m.sp - 1,
        m.sp < STACK_LEN ==> {
            let called = m.apply(Opcode::Call { addr }, first);
            &&& called.pc == addr
            &&& called.sp == m.sp + 1
            &&& called.fault(Opcode::Ret) is None
            &&& called.apply(Opcode::Ret, second).sp == m.sp
            &&& m.pc + PC_STEP <= u16::MAX ==> called.apply(Opcode::Ret, second).pc == m.pc
                + PC_STEP
        },
{
}

/// Executing the clear-screen operation leaves every framebuffer cell zero
/// and, but for the step to the next instruction, everything else as it
/// was. Executing it once more changes only the program counter.
pub proof fn law_clear_changes_only_screen(m: Machine, first: u8, second: u8)
    requires
        m.pc + 2 * PC_STEP <= u16::MAX,
    ensures
        m.apply(Opcode::Cls, first).screen.len() == SCREEN_SIZE,
        forall|p: int| 0 <= p < SCREEN_SIZE ==> m.apply(Opcode::Cls, first).screen[p] == 0,
        m.apply(Opcode::Cls, first) == (Machine {
            screen: m.apply(Opcode::Cls, first).screen,
            pc: (m.pc + PC_STEP) as u16,
            ..m
        }),
        m.apply(Opcode::Cls, first).apply(Opcode::Cls, second) == (Machine {
            pc: (m.pc + 2 * PC_STEP) as u16,
            ..m.apply(Opcode::Cls, first)
        }),
{
}

/// Executing the random-mask operation leaves `random & mask` in its
/// register, which so has no bit outside the mask; the other registers and,
/// but for the step to the next instruction, everything else stay.
pub proof fn law_random_changes_only_register(m: Machine, x: u8, mask: u8, random: u8)
    requires
        m.wf(),
        x < NUM_REGS,
        m.pc + PC_STEP <= u16::MAX,
    ensures
        ({
            let after = m.apply(Opcode::Random { x, mask }, random);
            &&& after.v.len() == NUM_REGS
            &&& after.v[x as int] == random & mask
            &&& after.v[x as int] & !mask == 0
            &&& forall|r: int| 0 <= r < NUM_REGS && r != x ==> after.v[r] == m.v[r]
            &&& after == (Machine { v: after.v, pc: (m.pc + PC_STEP) as u16, ..m })
        }),
{
    assert((random & mask) & !mask == 0) by (bit_vector);
}

/// A word that selects no operation can be executed in every state and
/// changes nothing but the program counter, which moves one instruction on.
pub proof fn law_unknown_changes_only_pc(m: Machine, random: u8)
    requires
        m.pc + PC_STEP <= u16::MAX,
    ensures
        m.fault(Opcode::Unknown) is None,
        m.apply(Opcode::Unknown, random) == (Machine { pc: (m.pc + PC_STEP) as u16, ..m }),
        m.apply(Opcode::Unknown, random).pc == m.pc + PC_STEP,
        m.apply(Opcode::Unknown, random).halted == m.halted,
{
}

/// Only the stop instruction raises the halt flag, and nothing lowers it.
pub proof fn law_halt_flag(m: Machine, random: u8)
    requires
        m.wf(),
    ensures
        m.step(random).halted <==> m.halted || m.next_opcode() is Halt,
{
}

} // verus!
