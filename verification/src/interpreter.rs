//! The interpreter: the machine state held in fixed-size arrays, and the
//! fetch, decode and execute stages of one cycle.

use vstd::prelude::*;
use crate::instruction::{decode, Opcode};
use crate::laws::law_random_mask;
use crate::random::random_byte;
use crate::report::{render, report_text};
use crate::state::{
    add_carry, add_low, high_bit, sub_low, sub_no_borrow, Fault, LoadError, Machine,
    FLAG_REG, MEM_LENGTH, NUM_REGS, PC_START, PC_STEP, SCREEN_SIZE, STACK_LEN,
};

verus! {

/// The machine state. It is changed by loading a program, by cycles and by
/// executing single operations; besides these only the two timers and the
/// framebuffer cells can be set, through [`Em::set_delay_timer`],
/// [`Em::set_sound_timer`] and [`Em::set_pixel`].
pub struct Em {
    mem: [u8; MEM_LENGTH],
    v: [u8; NUM_REGS],
    i: u16,
    pc: u16,
    sp: u8,
    stack: [u16; STACK_LEN],
    delay_timer: u8,
    sound_timer: u8,
    screen_buf: [u8; SCREEN_SIZE],
    end_em: bool,
}

impl View for Em {
    type V = Machine;

    closed spec fn view(&self) -> Machine {
        Machine {
            mem: self.mem@,
            v: self.v@,
            i: self.i,
            pc: self.pc,
            sp: self.sp,
            stack: self.stack@,
            delay_timer: self.delay_timer,
            sound_timer: self.sound_timer,
            screen: self.screen_buf@,
            halted: self.end_em,
        }
    }
}

/// Creates a machine with everything zeroed and the program counter at the
/// program start address.
pub fn new_em() -> (em: Em)
    ensures
        em@ == Machine::initial(),
        em@.wf(),
{
    let em = Em {
        mem: [0x00;MEM_LENGTH],
        v: [0x00;NUM_REGS],
        i: 0,
        pc: PC_START,
        sp: 0,
        stack: [0x00;STACK_LEN],
        delay_timer: 0,
        sound_timer: 0,
        screen_buf: [0x00;SCREEN_SIZE],
        end_em: false,
    };
    assert(em@.mem =~= Machine::initial().mem);
    assert(em@.v =~= Machine::initial().v);
    assert(em@.stack =~= Machine::initial().stack);
    assert(em@.screen =~= Machine::initial().screen);
    em
}

impl Em {
    #[verifier::type_invariant]
    spec fn valid(&self) -> bool {
        self@.wf()
    }

    /// The program counter.
    pub fn pc(&self) -> (pc: u16)
        ensures
            pc == self@.pc,
    {
        self.pc
    }

    /// The number of return addresses on the call stack.
    pub fn sp(&self) -> (sp: u8)
        ensures
            sp == self@.sp,
            sp <= STACK_LEN,
    {
        proof {
            use_type_invariant(self);
        }
        self.sp
    }

    /// The index register `I`.
    pub fn index_register(&self) -> (i: u16)
        ensures
            i == self@.i,
    {
        self.i
    }

    /// The value of register `V[x]`.
    pub fn register(&self, x: u8) -> (value: u8)
        requires
            x < NUM_REGS,
        ensures
            value == self@.v[x as int],
    {
        self.v[x as usize]
    }

    /// The delay timer.
    pub fn delay_timer(&self) -> (timer: u8)
        ensures
            timer == self@.delay_timer,
    {
        self.delay_timer
    }

    /// The sound timer; sound is due while it is not zero.
    pub fn sound_timer(&self) -> (timer: u8)
        ensures
            timer == self@.sound_timer,
    {
        self.sound_timer
    }

    /// The framebuffer, row by row, one byte per pixel: zero is off,
    /// anything else on.
    pub fn framebuffer(&self) -> (pixels: &[u8; SCREEN_SIZE])
        ensures
            pixels@ == self@.screen,
    {
        &self.screen_buf
    }

    /// The memory.
    pub fn memory(&self) -> (bytes: &[u8; MEM_LENGTH])
        ensures
            bytes@ == self@.mem,
    {
        &self.mem
    }

    /// Sets the delay timer.
    pub fn set_delay_timer(&mut self, value: u8)
        ensures
            final(self)@ == (Machine { delay_timer: value, ..old(self)@ }),
    {
        proof {
            use_type_invariant(&*self);
        }
        self.delay_timer = value;
    }

    /// Sets the sound timer.
    pub fn set_sound_timer(&mut self, value: u8)
        ensures
            final(self)@ == (Machine { sound_timer: value, ..old(self)@ }),
    {
        proof {
            use_type_invariant(&*self);
        }
        self.sound_timer = value;
    }

    /// Sets the framebuffer cell `at` to `value`.
    pub fn set_pixel(&mut self, at: usize, value: u8)
        requires
            at < SCREEN_SIZE,
        ensures
            final(self)@ == (Machine {
                screen: old(self)@.screen.update(at as int, value),
                ..old(self)@
            }),
    {
        proof {
            use_type_invariant(&*self);
        }
        self.screen_buf[at] = value;
    }

    /// Copies a program image into memory at the program start address and
    /// puts the program counter there. The rest of the state, memory outside
    /// the image included, stays as it is. An image that does not fit is
    /// refused, and nothing changes.
    pub fn load_cart(&mut self, image: &[u8]) -> (loaded: Result<(), LoadError>)
        ensures
            Machine::fits(image@.len()) ==> loaded is Ok && final(self)@ == old(self)@.load(
                image@,
            ),
            !Machine::fits(image@.len()) ==> loaded == Err::<(), LoadError>(
                LoadError::ImageTooLarge,
            ) && final(self)@ == old(self)@,
            final(self)@.wf(),
    {
        proof {
            use_type_invariant(&*self);
        }
        let n = image.len();
        if n > MEM_LENGTH - PC_START as usize {
            return Err(LoadError::ImageTooLarge);
        }
        let ghost before = self@;
        let mut k: usize = 0;
        while k < n
            invariant
                k <= n,
                n == image@.len(),
                n <= MEM_LENGTH - PC_START,
                before.wf(),
                self@ == (Machine { mem: self@.mem, ..before }),
                self@.mem.len() == MEM_LENGTH,
                forall|a: int|
                    0 <= a < MEM_LENGTH ==> self@.mem[a] == if PC_START <= a < PC_START + k {
                        image@[a - PC_START]
                    } else {
                        before.mem[a]
                    },
            decreases n - k,
        {
            self.mem[PC_START as usize + k] = image[k];
            k += 1;
        }
        self.pc = PC_START;
        assert(self@.mem =~= before.load(image@).mem);
        Ok(())
    }

    /// Moves both timers one step toward zero.
    fn update_timers(&mut self)
        ensures
            final(self)@ == old(self)@.tick(),
    {
        proof {
            use_type_invariant(&*self);
        }
        if self.delay_timer > 0 {
            self.delay_timer -= 1;
        }
        if self.sound_timer > 0 {
            self.sound_timer -= 1;
        }
    }

    /// Reads the instruction word at the program counter, after moving the
    /// program counter back to the program start address if it has run past
    /// the last address at which a whole word can be read.
    fn fetch(&mut self) -> (word: u16)
        ensures
            final(self)@ == old(self)@.fetched(),
            word == old(self)@.next_word(),
            final(self)@.pc + 1 < MEM_LENGTH,
    {
        proof {
            use_type_invariant(&*self);
        }
        if self.pc as usize + 1 >= MEM_LENGTH {
            self.pc = PC_START;
        }
        let hi = self.mem[self.pc as usize];
        let lo = self.mem[self.pc as usize + 1];
        (hi as u16) << 8 | (lo as u16)
    }

    /// `00E0`: switches every pixel off.
    fn op_cls(&mut self)
        requires
            old(self)@.pc + 1 < MEM_LENGTH,
        ensures
            final(self)@ == (Machine {
                screen: Seq::new(SCREEN_SIZE as nat, |p: int| 0u8),
                ..old(self)@
            }).advance(1),
    {
        proof {
            use_type_invariant(&*self);
        }
        let ghost before = self@;
        let mut i: usize = 0;
        while i < SCREEN_SIZE
            invariant
                i <= SCREEN_SIZE,
                self@.wf(),
                self@ == (Machine { screen: self@.screen, ..before }),
                forall|p: int| 0 <= p < i ==> self@.screen[p] == 0,
            decreases SCREEN_SIZE - i,
        {
            self.screen_buf[i] = 0x00;
            i += 1;
        }
        self.pc = self.pc + PC_STEP;
        assert(self@.screen =~= Seq::new(SCREEN_SIZE as nat, |p: int| 0u8));
    }

    /// `0000`: sets the halt flag.
    fn op_halt(&mut self)
        requires
            old(self)@.pc + 1 < MEM_LENGTH,
        ensures
            final(self)@ == (Machine { halted: true, ..old(self)@ }).advance(1),
    {
        proof {
            use_type_invariant(&*self);
        }
        self.end_em = true;
        self.pc = self.pc + PC_STEP;
    }

    /// `00EE`: pops the call site from the stack and continues behind it.
    fn op_ret(&mut self)
        requires
            old(self)@.sp > 0,
        ensures
            final(self)@ == (Machine {
                sp: (old(self)@.sp - 1) as u8,
                pc: (old(self)@.stack[old(self)@.sp - 1] + PC_STEP) as u16,
                ..old(self)@
            }),
    {
        proof {
            use_type_invariant(&*self);
        }
        self.sp = self.sp - 1;
        self.pc = self.stack[self.sp as usize] + PC_STEP;
    }

    /// `1NNN`: continues at `addr`.
    fn op_jmp(&mut self, addr: u16)
        requires
            PC_START < addr <= 0xFFF,
        ensures
            final(self)@ == (Machine { pc: addr, ..old(self)@ }),
    {
        proof {
            use_type_invariant(&*self);
        }
        self.pc = addr;
    }

    /// `2NNN`: pushes the call site on the stack and continues at `addr`.
    fn op_callsub(&mut self, addr: u16)
        requires
            PC_START < addr <= 0xFFF,
            old(self)@.sp < STACK_LEN,
            old(self)@.pc + 1 < MEM_LENGTH,
        ensures
            final(self)@ == (Machine {
                stack: old(self)@.stack.update(old(self)@.sp as int, old(self)@.pc),
                sp: (old(self)@.sp + 1) as u8,
                pc: addr,
                ..old(self)@
            }),
    {
        proof {
            use_type_invariant(&*self);
        }
        self.stack[self.sp as usize] = self.pc;
        self.sp = self.sp + 1;
        self.pc = addr;
    }

    /// `3XNN`: skips the next instruction if `V[reg] == val`.
    fn op_skipif(&mut self, reg: u8, val: u8)
        requires
            reg < NUM_REGS,
            old(self)@.pc + 1 < MEM_LENGTH,
        ensures
            final(self)@ == old(self)@.advance(
                if old(self)@.v[reg as int] == val {
                    2
                } else {
                    1
                },
            ),
    {
        proof {
            use_type_invariant(&*self);
        }
        let r = reg as usize;
        self.pc = self.pc + PC_STEP;
        if self.v[r] == val {
            self.pc = self.pc + PC_STEP;
        }
    }

    /// `4XNN`: skips the next instruction if `V[reg] != val`.
    fn op_skipnif(&mut self, reg: u8, val: u8)
        requires
            reg < NUM_REGS,
            old(self)@.pc + 1 < MEM_LENGTH,
        ensures
            final(self)@ == old(self)@.advance(
                if old(self)@.v[reg as int] != val {
                    2
                } else {
                    1
                },
            ),
    {
        proof {
            use_type_invariant(&*self);
        }
        let r = reg as usize;
        self.pc = self.pc + PC_STEP;
        if self.v[r] != val {
            self.pc = self.pc + PC_STEP;
        }
    }

    /// `5XY_`: skips the next instruction if `V[regx] == V[regy]`.
    fn op_skipifreg(&mut self, regx: u8, regy: u8)
        requires
            regx < NUM_REGS,
            regy < NUM_REGS,
            old(self)@.pc + 1 < MEM_LENGTH,
        ensures
            final(self)@ == old(self)@.advance(
                if old(self)@.v[regx as int] == old(self)@.v[regy as int] {
                    2
                } else {
                    1
                },
            ),
    {
        proof {
            use_type_invariant(&*self);
        }
        let x = regx as usize;
        let y = regy as usize;
        self.pc = self.pc + PC_STEP;
        if self.v[x] == self.v[y] {
            self.pc = self.pc + PC_STEP;
        }
    }

    /// `9XY0`: skips the next instruction if `V[regx] != V[regy]`.
    fn op_skipifnreg(&mut self, regx: u8, regy: u8)
        requires
            regx < NUM_REGS,
            regy < NUM_REGS,
            old(self)@.pc + 1 < MEM_LENGTH,
        ensures
            final(self)@ == old(self)@.advance(
                if old(self)@.v[regx as int] != old(self)@.v[regy as int] {
                    2
                } else {
                    1
                },
            ),
    {
        proof {
            use_type_invariant(&*self);
        }
        let x = regx as usize;
        let y = regy as usize;
        self.pc = self.pc + PC_STEP;
        if self.v[x] != self.v[y] {
            self.pc = self.pc + PC_STEP;
        }
    }

    /// `6XNN`: `V[reg] = val`.
    fn op_streg(&mut self, reg: u8, val: u8)
        requires
            reg < NUM_REGS,
            old(self)@.pc + 1 < MEM_LENGTH,
        ensures
            final(self)@ == old(self)@.with_reg(reg as int, val).advance(1),
    {
        proof {
            use_type_invariant(&*self);
        }
        let r = reg as usize;
        self.v[r] = val;
        self.pc = self.pc + PC_STEP;
    }

    /// `7XNN`: `V[reg] += val`, wrapping at 256; the flag register stays.
    fn op_addreg(&mut self, reg: u8, val: u8)
        requires
            reg < NUM_REGS,
            old(self)@.pc + 1 < MEM_LENGTH,
        ensures
            final(self)@ == old(self)@.with_reg(
                reg as int,
                add_low(old(self)@.v[reg as int], val),
            ).advance(1),
    {
        proof {
            use_type_invariant(&*self);
        }
        let r = reg as usize;
        let sum: u16 = self.v[r] as u16 + val as u16;
        self.v[r] = (sum % 0x100) as u8;
        self.pc = self.pc + PC_STEP;
    }

    /// `8XY0`: `V[regx] = V[regy]`.
    fn op_movxy(&mut self, regx: u8, regy: u8)
        requires
            regx < NUM_REGS,
            regy < NUM_REGS,
            old(self)@.pc + 1 < MEM_LENGTH,
        ensures
            final(self)@ == old(self)@.with_reg(regx as int, old(self)@.v[regy as int]).advance(1),
    {
        proof {
            use_type_invariant(&*self);
        }
        let x = regx as usize;
        let y = regy as usize;
        self.pc = self.pc + PC_STEP;
        self.v[x] = self.v[y];
    }

    /// `8XY1`: `V[regx] |= V[regy]`.
    fn op_xory(&mut self, regx: u8, regy: u8)
        requires
            regx < NUM_REGS,
            regy < NUM_REGS,
            old(self)@.pc + 1 < MEM_LENGTH,
        ensures
            final(self)@ == old(self)@.with_reg(
                regx as int,
                old(self)@.v[regx as int] | old(self)@.v[regy as int],
            ).advance(1),
    {
        proof {
            use_type_invariant(&*self);
        }
        let x = regx as usize;
        let y = regy as usize;
        self.pc = self.pc + PC_STEP;
        self.v[x] = self.v[x] | self.v[y];
    }

    /// `8XY2`: `V[regx] &= V[regy]`.
    fn op_xandy(&mut self, regx: u8, regy: u8)
        requires
            regx < NUM_REGS,
            regy < NUM_REGS,
            old(self)@.pc + 1 < MEM_LENGTH,
        ensures
            final(self)@ == old(self)@.with_reg(
                regx as int,
                old(self)@.v[regx as int] & old(self)@.v[regy as int],
            ).advance(1),
    {
        proof {
            use_type_invariant(&*self);
        }
        let x = regx as usize;
        let y = regy as usize;
        self.pc = self.pc + PC_STEP;
        self.v[x] = self.v[x] & self.v[y];
    }

    /// `8XY3`: `V[regx] ^= V[regy]`.
    fn op_xxory(&mut self, regx: u8, regy: u8)
        requires
            regx < NUM_REGS,
            regy < NUM_REGS,
            old(self)@.pc + 1 < MEM_LENGTH,
        ensures
            final(self)@ == old(self)@.with_reg(
                regx as int,
                old(self)@.v[regx as int] ^ old(self)@.v[regy as int],
            ).advance(1),
    {
        proof {
            use_type_invariant(&*self);
        }
        let x = regx as usize;
        let y = regy as usize;
        self.pc = self.pc + PC_STEP;
        self.v[x] = self.v[x] ^ self.v[y];
    }

    /// `8XY4`: `V[regx] += V[regy]`; the flag register then receives the
    /// carry. The sum is formed in 16 bits: its low byte is the result, its
    /// ninth bit the carry.
    fn op_addxy(&mut self, regx: u8, regy: u8)
        requires
            regx < NUM_REGS,
            regy < NUM_REGS,
            old(self)@.pc + 1 < MEM_LENGTH,
        ensures
            final(self)@ == old(self)@.with_reg(
                regx as int,
                add_low(old(self)@.v[regx as int], old(self)@.v[regy as int]),
            ).with_reg(
                FLAG_REG as int,
                add_carry(old(self)@.v[regx as int], old(self)@.v[regy as int]),
            ).advance(1),
    {
        proof {
            use_type_invariant(&*self);
        }
        let x = regx as usize;
        let y = regy as usize;
        self.pc = self.pc + PC_STEP;
        let val: u16 = self.v[x] as u16 + self.v[y] as u16;
        self.v[x] = (val % 0x100) as u8;
        if val > 0xFF {
            self.v[FLAG_REG] = 0x01;
        } else {
            self.v[FLAG_REG] = 0x00;
        }
    }

    /// `8XY5`: `V[regx] -= V[regy]`; the flag register then receives 1 if
    /// nothing was borrowed. The difference is formed in 16 bits above a
    /// borrowable ninth bit, which is still set if nothing was borrowed.
    fn op_subxy(&mut self, regx: u8, regy: u8)
        requires
            regx < NUM_REGS,
            regy < NUM_REGS,
            old(self)@.pc + 1 < MEM_LENGTH,
        ensures
            final(self)@ == old(self)@.with_reg(
                regx as int,
                sub_low(old(self)@.v[regx as int], old(self)@.v[regy as int]),
            ).with_reg(
                FLAG_REG as int,
                sub_no_borrow(old(self)@.v[regx as int], old(self)@.v[regy as int]),
            ).advance(1),
    {
        proof {
            use_type_invariant(&*self);
        }
        let x = regx as usize;
        let y = regy as usize;
        self.pc = self.pc + PC_STEP;
        let val: u16 = 0x100 + self.v[x] as u16 - self.v[y] as u16;
        self.v[x] = (val % 0x100) as u8;
        if val > 0xFF {
            self.v[FLAG_REG] = 0x01;
        } else {
            self.v[FLAG_REG] = 0x00;
        }
    }

    /// `8XY6`: the flag register receives the low bit of `V[regy]`, then
    /// `V[regx] = V[regy] >> 1`.
    fn op_shrxy(&mut self, regx: u8, regy: u8)
        requires
            regx < NUM_REGS,
            regy < NUM_REGS,
            old(self)@.pc + 1 < MEM_LENGTH,
        ensures
            final(self)@ == ({
                let flagged = old(self)@.with_reg(
                    FLAG_REG as int,
                    old(self)@.v[regy as int] & 1,
                );
                flagged.with_reg(regx as int, flagged.v[regy as int] >> 1).advance(1)
            }),
    {
        proof {
            use_type_invariant(&*self);
        }
        let x = regx as usize;
        let y = regy as usize;
        self.pc = self.pc + PC_STEP;
        self.v[FLAG_REG] = self.v[y] & 0x01;
        self.v[x] = self.v[y] >> 1;
    }

    /// `8XY7`: `V[regx] = V[regy] - V[regx]`; the flag register then
    /// receives 1 if nothing was borrowed.
    fn op_subyx(&mut self, regx: u8, regy: u8)
        requires
            regx < NUM_REGS,
            regy < NUM_REGS,
            old(self)@.pc + 1 < MEM_LENGTH,
        ensures
            final(self)@ == old(self)@.with_reg(
                regx as int,
                sub_low(old(self)@.v[regy as int], old(self)@.v[regx as int]),
            ).with_reg(
                FLAG_REG as int,
                sub_no_borrow(old(self)@.v[regy as int], old(self)@.v[regx as int]),
            ).advance(1),
    {
        proof {
            use_type_invariant(&*self);
        }
        let x = regx as usize;
        let y = regy as usize;
        self.pc = self.pc + PC_STEP;
        let val: u16 = 0x100 + self.v[y] as u16 - self.v[x] as u16;
        self.v[x] = (val % 0x100) as u8;
        if val > 0xFF {
            self.v[FLAG_REG] = 0x01;
        } else {
            self.v[FLAG_REG] = 0x00;
        }
    }

    /// `8XYE`: the flag register receives the high bit of `V[regy]`, then
    /// `V[regx] = V[regy] << 1`.
    fn op_shlxy(&mut self, regx: u8, regy: u8)
        requires
            regx < NUM_REGS,
            regy < NUM_REGS,
            old(self)@.pc + 1 < MEM_LENGTH,
        ensures
            final(self)@ == ({
                let flagged = old(self)@.with_reg(
                    FLAG_REG as int,
                    high_bit(old(self)@.v[regy as int]),
                );
                flagged.with_reg(regx as int, flagged.v[regy as int] << 1).advance(1)
            }),
    {
        proof {
            use_type_invariant(&*self);
        }
        let x = regx as usize;
        let y = regy as usize;
        self.pc = self.pc + PC_STEP;
        if self.v[y] & 0x80 != 0 {
            self.v[FLAG_REG] = 0x01;
        } else {
            self.v[FLAG_REG] = 0x00;
        }
        self.v[x] = self.v[y] << 1;
    }

    /// `ANNN`: `I = addr`.
    fn op_addrtoi(&mut self, addr: u16)
        requires
            addr < MEM_LENGTH,
            old(self)@.pc + 1 < MEM_LENGTH,
        ensures
            final(self)@ == (Machine { i: addr, ..old(self)@ }).advance(1),
    {
        proof {
            use_type_invariant(&*self);
        }
        self.i = addr;
        self.pc = self.pc + PC_STEP;
    }

    /// `BNNN`: continues at `addr + V[0]`.
    fn op_jmppls(&mut self, addr: u16)
        requires
            addr < MEM_LENGTH,
        ensures
            final(self)@ == (Machine { pc: (addr + old(self)@.v[0]) as u16, ..old(self)@ }),
    {
        proof {
            use_type_invariant(&*self);
        }
        self.pc = addr + (self.v[0] as u16);
    }

    /// `CXNN`: `V[reg] = byte & mask`, `byte` being the random byte drawn
    /// for this instruction.
    fn op_rnd(&mut self, reg: u8, mask: u8, byte: u8)
        requires
            reg < NUM_REGS,
            old(self)@.pc + 1 < MEM_LENGTH,
        ensures
            final(self)@ == old(self)@.with_reg(reg as int, byte & mask).advance(1),
    {
        proof {
            use_type_invariant(&*self);
        }
        self.v[reg as usize] = byte & mask;
        self.pc = self.pc + PC_STEP;
    }

    /// A word outside the instruction table: nothing but the step to the
    /// next instruction.
    fn op_unknown(&mut self)
        requires
            old(self)@.pc + 1 < MEM_LENGTH,
        ensures
            final(self)@ == old(self)@.advance(1),
    {
        proof {
            use_type_invariant(&*self);
        }
        self.pc = self.pc + PC_STEP;
    }

    /// Executes the operation `op` on the state as it is, without a tick of
    /// the timers and without a fetch. `byte` is what a random-mask
    /// operation masks; no other operation reads it. The program counter
    /// must be an address at which a whole instruction word can be read,
    /// as it is behind a fetch.
    pub fn execute(&mut self, op: Opcode, byte: u8)
        requires
            op.wf(),
            old(self)@.fault(op) is None,
            old(self)@.pc + 1 < MEM_LENGTH,
        ensures
            final(self)@ == old(self)@.apply(op, byte),
            final(self)@.wf(),
    {
        proof {
            use_type_invariant(&*self);
        }
        match op {
            Opcode::Halt => self.op_halt(),
            Opcode::Cls => self.op_cls(),
            Opcode::Ret => self.op_ret(),
            Opcode::Jump { addr } => self.op_jmp(addr),
            Opcode::Call { addr } => self.op_callsub(addr),
            Opcode::SkipEq { x, nn } => self.op_skipif(x, nn),
            Opcode::SkipNe { x, nn } => self.op_skipnif(x, nn),
            Opcode::SkipRegEq { x, y } => self.op_skipifreg(x, y),
            Opcode::Load { x, nn } => self.op_streg(x, nn),
            Opcode::AddImm { x, nn } => self.op_addreg(x, nn),
            Opcode::Move { x, y } => self.op_movxy(x, y),
            Opcode::Or { x, y } => self.op_xory(x, y),
            Opcode::And { x, y } => self.op_xandy(x, y),
            Opcode::Xor { x, y } => self.op_xxory(x, y),
            Opcode::Add { x, y } => self.op_addxy(x, y),
            Opcode::Sub { x, y } => self.op_subxy(x, y),
            Opcode::ShiftRight { x, y } => self.op_shrxy(x, y),
            Opcode::SubFrom { x, y } => self.op_subyx(x, y),
            Opcode::ShiftLeft { x, y } => self.op_shlxy(x, y),
            Opcode::SkipRegNe { x, y } => self.op_skipifnreg(x, y),
            Opcode::LoadIndex { addr } => self.op_addrtoi(addr),
            Opcode::JumpOffset { addr } => self.op_jmppls(addr),
            Opcode::Random { x, mask } => self.op_rnd(x, mask, byte),
            Opcode::Unknown => self.op_unknown(),
        }
        proof {
            use_type_invariant(&*self);
        }
    }

    /// Why the next cycle cannot be carried out, if it cannot: the
    /// instruction it would fetch is a return on an empty stack, a call on a
    /// full one, or a jump or call to an address not above the program
    /// start. The state is left as it is.
    pub fn pending_fault(&self) -> (fault: Option<Fault>)
        ensures
            fault == self@.pending_fault(),
            self@.wf(),
    {
        proof {
            use_type_invariant(self);
        }
        let at: usize = if self.pc as usize + 1 >= MEM_LENGTH {
            PC_START as usize
        } else {
            self.pc as usize
        };
        let word: u16 = (self.mem[at] as u16) << 8 | (self.mem[at + 1] as u16);
        let op = decode(word).opcode();
        match op {
            Opcode::Ret => if self.sp == 0 {
                Some(Fault::StackUnderflow)
            } else {
                None
            },
            Opcode::Jump { addr } => if addr <= PC_START {
                Some(Fault::BadJumpTarget)
            } else {
                None
            },
            Opcode::Call { addr } => if addr <= PC_START {
                Some(Fault::BadJumpTarget)
            } else if self.sp as usize >= STACK_LEN {
                Some(Fault::StackOverflow)
            } else {
                None
            },
            _ => None,
        }
    }

    /// One cycle with a given random byte: the timers tick, the instruction
    /// at the program counter is fetched, decoded and executed. Returns the
    /// instruction word that was executed. `random` is what a random-mask
    /// instruction masks; no other instruction reads it.
    pub fn cycle_with(&mut self, random: u8) -> (word: u16)
        requires
            old(self)@.pending_fault() is None,
        ensures
            final(self)@ == old(self)@.step(random),
            word == old(self)@.next_word(),
            final(self)@.wf(),
            !old(self)@.next_opcode().is_control_flow() ==> final(self)@.pc == old(self)@.fetch_pc()
                + PC_STEP,
            old(self)@.next_opcode().is_skip() && old(self)@.skips(old(self)@.next_opcode())
                ==> final(self)@.pc == old(self)@.fetch_pc() + 2 * PC_STEP,
            old(self)@.next_opcode().is_skip() && !old(self)@.skips(old(self)@.next_opcode())
                ==> final(self)@.pc == old(self)@.fetch_pc() + PC_STEP,
            old(self)@.next_opcode() is Cls ==> forall|p: int|
                0 <= p < SCREEN_SIZE ==> final(self)@.screen[p] == 0,
            final(self)@.halted <==> old(self)@.halted || old(self)@.next_opcode() is Halt,
    {
        self.update_timers();
        let raw_op = self.fetch();
        let em_op = decode(raw_op);
        self.execute(em_op.opcode(), random);
        proof {
            use_type_invariant(&*self);
        }
        raw_op
    }

    /// One cycle: the timers tick, the instruction at the program counter is
    /// fetched, decoded and executed. Returns the instruction word that was
    /// executed. A random-mask instruction draws its byte from the
    /// thread-local random generator, so the new state is that of
    /// [`Em::cycle_with`] for some byte; for every other instruction it is
    /// the same whatever the byte.
    pub fn cycle(&mut self) -> (word: u16)
        requires
            old(self)@.pending_fault() is None,
        ensures
            exists|random: u8| final(self)@ == #[trigger] old(self)@.step(random),
            !(old(self)@.next_opcode() is Random) ==> final(self)@ == old(self)@.step(0),
            old(self)@.next_opcode() matches Opcode::Random { x, mask } ==> mask == 0
                ==> final(self)@.v[x as int] == 0,
            word == old(self)@.next_word(),
            final(self)@.wf(),
            !old(self)@.next_opcode().is_control_flow() ==> final(self)@.pc == old(self)@.fetch_pc()
                + PC_STEP,
            old(self)@.next_opcode().is_skip() && old(self)@.skips(old(self)@.next_opcode())
                ==> final(self)@.pc == old(self)@.fetch_pc() + 2 * PC_STEP,
            old(self)@.next_opcode().is_skip() && !old(self)@.skips(old(self)@.next_opcode())
                ==> final(self)@.pc == old(self)@.fetch_pc() + PC_STEP,
            old(self)@.next_opcode() is Cls ==> forall|p: int|
                0 <= p < SCREEN_SIZE ==> final(self)@.screen[p] == 0,
            final(self)@.halted <==> old(self)@.halted || old(self)@.next_opcode() is Halt,
    {
        proof {
            use_type_invariant(&*self);
        }
        self.update_timers();
        let raw_op = self.fetch();
        let em_op = decode(raw_op);
        let op = em_op.opcode();
        let random: u8 = match op {
            Opcode::Random { .. } => random_byte(),
            _ => 0,
        };
        self.execute(op, random);
        proof {
            use_type_invariant(&*self);
            assert(self@ == old(self)@.step(random));
            law_random_mask(old(self)@, random);
        }
        raw_op
    }

    /// Whether the stop instruction has been executed. The state is left as
    /// it is.
    pub fn finished(&mut self) -> (halted: bool)
        ensures
            halted == old(self)@.halted,
            final(self)@ == old(self)@,
    {
        self.end_em
    }

    /// Renders the registers, program counter, stack pointer, timers and
    /// call stack as text, together with `last_op`, the instruction word
    /// executed last. The state is left as it is.
    pub fn print_debug_info(&mut self, last_op: u16) -> (report: String)
        ensures
            report@ == report_text(old(self)@, last_op),
            final(self)@ == old(self)@,
    {
        proof {
            use_type_invariant(&*self);
        }
        render(
            last_op,
            &self.v,
            self.pc,
            self.sp,
            self.delay_timer,
            self.sound_timer,
            &self.stack,
        )
    }
}

} // verus!
