//! The mathematical machine: the state of the interpreter as plain values,
//! and what one cycle does to it.

use vstd::prelude::*;
use crate::instruction::{opcode_of, Opcode};

verus! {

/// Number of bytes of memory.
pub const MEM_LENGTH: usize = 0x1000;

/// Number of general-purpose registers.
pub const NUM_REGS: usize = 0x10;

/// Depth of the call stack.
pub const STACK_LEN: usize = 12;

/// Number of framebuffer cells: 64 columns by 32 rows, one byte per pixel.
pub const SCREEN_SIZE: usize = 2048;

/// Bytes taken by one instruction.
pub const PC_STEP: u16 = 2;

/// Address at which a program image starts, and where execution begins.
pub const PC_START: u16 = 0x200;

/// Index of the register that receives carry, borrow and shifted-out bits.
pub const FLAG_REG: usize = 0xF;

/// A condition under which the next cycle cannot be carried out.
#[derive(Clone, Copy, Debug, PartialEq, Eq, Structural)]
pub enum Fault {
    /// A call with all twelve stack slots in use.
    StackOverflow,
    /// A return with an empty call stack.
    StackUnderflow,
    /// A jump or call whose target is not above the program start address.
    BadJumpTarget,
}

/// Why a program image was not loaded.
#[derive(Clone, Copy, Debug, PartialEq, Eq, Structural)]
pub enum LoadError {
    /// The image is longer than the memory from the program start address
    /// to the end.
    ImageTooLarge,
}

/// The state of the machine as mathematical values.
pub struct Machine {
    /// Memory, 4096 bytes.
    pub mem: Seq<u8>,
    /// The sixteen registers `V0` to `VF`.
    pub v: Seq<u8>,
    /// The index register `I`.
    pub i: u16,
    /// The program counter.
    pub pc: u16,
    /// Number of return addresses on the call stack.
    pub sp: u8,
    /// The twelve call stack slots; slots `0..sp` are in use.
    pub stack: Seq<u16>,
    /// The delay timer.
    pub delay_timer: u8,
    /// The sound timer.
    pub sound_timer: u8,
    /// The framebuffer, 2048 cells, zero for a pixel that is off.
    pub screen: Seq<u8>,
    /// Whether the stop instruction has been executed.
    pub halted: bool,
}

/// The big-endian 16-bit word made of the two bytes at `addr` and `addr + 1`.
pub open spec fn word_at(mem: Seq<u8>, addr: int) -> u16 {
    (mem[addr] as u16) << 8 | (mem[addr + 1] as u16)
}

/// One step of a timer toward zero.
pub open spec fn count_down(timer: u8) -> u8 {
    if timer > 0 {
        (timer - 1) as u8
    } else {
        0
    }
}

/// The low eight bits of the sum of two registers.
pub open spec fn add_low(a: u8, b: u8) -> u8 {
    ((a + b) % 256) as u8
}

/// The carry out of the sum of two registers: 1 if it exceeds 255.
pub open spec fn add_carry(a: u8, b: u8) -> u8 {
    if a + b > 255 {
        1
    } else {
        0
    }
}

/// The low eight bits of `a - b`.
pub open spec fn sub_low(a: u8, b: u8) -> u8 {
    ((a - b) % 256) as u8
}

/// The inverted borrow of `a - b`: 1 if `a >= b`.
pub open spec fn sub_no_borrow(a: u8, b: u8) -> u8 {
    if a >= b {
        1
    } else {
        0
    }
}

/// 1 if the top bit of `a` is set, else 0.
pub open spec fn high_bit(a: u8) -> u8 {
    if a & 0x80 != 0 {
        1
    } else {
        0
    }
}

impl Machine {
    /// The collections have their fixed sizes, at most twelve stack slots
    /// are in use, and every slot holds an address from which an instruction
    /// can be fetched.
    pub open spec fn wf(self) -> bool {
        &&& self.mem.len() == MEM_LENGTH
        &&& self.v.len() == NUM_REGS
        &&& self.stack.len() == STACK_LEN
        &&& self.screen.len() == SCREEN_SIZE
        &&& self.sp <= STACK_LEN
        &&& forall|k: int| 0 <= k < STACK_LEN ==> #[trigger] self.stack[k] + 1 < MEM_LENGTH
    }

    /// The machine as it is created: everything zero, the program counter at
    /// the program start address.
    pub open spec fn initial() -> Machine {
        Machine {
            mem: Seq::new(MEM_LENGTH as nat, |a: int| 0u8),
            v: Seq::new(NUM_REGS as nat, |r: int| 0u8),
            i: 0,
            pc: PC_START,
            sp: 0,
            stack: Seq::new(STACK_LEN as nat, |k: int| 0u16),
            delay_timer: 0,
            sound_timer: 0,
            screen: Seq::new(SCREEN_SIZE as nat, |p: int| 0u8),
            halted: false,
        }
    }

    /// Whether an image of this length fits between the program start
    /// address and the end of memory.
    pub open spec fn fits(len: nat) -> bool {
        len <= MEM_LENGTH - PC_START
    }

    /// The machine after `image` was copied to the program start address:
    /// the rest of memory as before, the program counter at the start.
    pub open spec fn load(self, image: Seq<u8>) -> Machine {
        Machine {
            mem: Seq::new(
                MEM_LENGTH as nat,
                |a: int|
                    if PC_START <= a < PC_START + image.len() {
                        image[a - PC_START]
                    } else {
                        self.mem[a]
                    },
            ),
            pc: PC_START,
            ..self
        }
    }

    /// Both timers moved one step toward zero.
    pub open spec fn tick(self) -> Machine {
        Machine {
            delay_timer: count_down(self.delay_timer),
            sound_timer: count_down(self.sound_timer),
            ..self
        }
    }

    /// The address the next instruction is fetched from: the program counter
    /// if both of its bytes lie in memory, else the program start address.
    pub open spec fn fetch_pc(self) -> u16 {
        if self.pc + 1 < MEM_LENGTH {
            self.pc
        } else {
            PC_START
        }
    }

    /// The machine with the program counter at the fetch address.
    pub open spec fn fetched(self) -> Machine {
        Machine { pc: self.fetch_pc(), ..self }
    }

    /// The instruction word that the next cycle fetches.
    pub open spec fn next_word(self) -> u16 {
        word_at(self.mem, self.fetch_pc() as int)
    }

    /// The operation that the next cycle executes.
    pub open spec fn next_opcode(self) -> Opcode {
        opcode_of(self.next_word())
    }

    /// The program counter moved forward by `steps` instructions.
    pub open spec fn advance(self, steps: int) -> Machine {
        Machine { pc: (self.pc + steps * PC_STEP) as u16, ..self }
    }

    /// The machine with register `x` set to `value`.
    pub open spec fn with_reg(self, x: int, value: u8) -> Machine {
        Machine { v: self.v.update(x, value), ..self }
    }

    /// Whether the condition of the skip operation `op` holds, so that the
    /// instruction behind it is passed over.
    pub open spec fn skips(self, op: Opcode) -> bool {
        match op {
            Opcode::SkipEq { x, nn } => self.v[x as int] == nn,
            Opcode::SkipNe { x, nn } => self.v[x as int] != nn,
            Opcode::SkipRegEq { x, y } => self.v[x as int] == self.v[y as int],
            Opcode::SkipRegNe { x, y } => self.v[x as int] != self.v[y as int],
            _ => false,
        }
    }

    /// Why `op` cannot be executed in this state, if it cannot.
    pub open spec fn fault(self, op: Opcode) -> Option<Fault> {
        match op {
            Opcode::Ret => if self.sp == 0 {
                Some(Fault::StackUnderflow)
            } else {
                None
            },
            Opcode::Jump { addr } => if addr <= PC_START {
                Some(Fault::BadJumpTarget)
            } else {
                None
            },
            Opcode::Call { addr } => if addr <= PC_START {
                Some(Fault::BadJumpTarget)
            } else if self.sp >= STACK_LEN {
                Some(Fault::StackOverflow)
            } else {
                None
            },
            _ => None,
        }
    }

    /// The state after `op` was executed, `random` being the byte that the
    /// random-mask operation draws. Meant for states whose program counter
    /// is a fetch address and in which `op` does not fault.
    pub open spec fn apply(self, op: Opcode, random: u8) -> Machine {
        match op {
            Opcode::Halt => Machine { halted: true, ..self }.advance(1),
            Opcode::Cls => Machine {
                screen: Seq::new(SCREEN_SIZE as nat, |p: int| 0u8),
                ..self
            }.advance(1),
            Opcode::Ret => Machine {
                sp: (self.sp - 1) as u8,
                pc: (self.stack[self.sp - 1] + PC_STEP) as u16,
                ..self
            },
            Opcode::Jump { addr } => Machine { pc: addr, ..self },
            Opcode::Call { addr } => Machine {
                stack: self.stack.update(self.sp as int, self.pc),
                sp: (self.sp + 1) as u8,
                pc: addr,
                ..self
            },
            Opcode::SkipEq { x, nn } => self.advance(
                if self.v[x as int] == nn {
                    2
                } else {
                    1
                },
            ),
            Opcode::SkipNe { x, nn } => self.advance(
                if self.v[x as int] != nn {
                    2
                } else {
                    1
                },
            ),
            Opcode::SkipRegEq { x, y } => self.advance(
                if self.v[x as int] == self.v[y as int] {
                    2
                } else {
                    1
                },
            ),
            Opcode::SkipRegNe { x, y } => self.advance(
                if self.v[x as int] != self.v[y as int] {
                    2
                } else {
                    1
                },
            ),
            Opcode::Load { x, nn } => self.with_reg(x as int, nn).advance(1),
            Opcode::AddImm { x, nn } => self.with_reg(
                x as int,
                add_low(self.v[x as int], nn),
            ).advance(1),
            Opcode::Move { x, y } => self.with_reg(x as int, self.v[y as int]).advance(1),
            Opcode::Or { x, y } => self.with_reg(
                x as int,
                self.v[x as int] | self.v[y as int],
            ).advance(1),
            Opcode::And { x, y } => self.with_reg(
                x as int,
                self.v[x as int] & self.v[y as int],
            ).advance(1),
            Opcode::Xor { x, y } => self.with_reg(
                x as int,
                self.v[x as int] ^ self.v[y as int],
            ).advance(1),
            Opcode::Add { x, y } => self.with_reg(
                x as int,
                add_low(self.v[x as int], self.v[y as int]),
            ).with_reg(FLAG_REG as int, add_carry(self.v[x as int], self.v[y as int])).advance(1),
            Opcode::Sub { x, y } => self.with_reg(
                x as int,
                sub_low(self.v[x as int], self.v[y as int]),
            ).with_reg(
                FLAG_REG as int,
                sub_no_borrow(self.v[x as int], self.v[y as int]),
            ).advance(1),
            Opcode::SubFrom { x, y } => self.with_reg(
                x as int,
                sub_low(self.v[y as int], self.v[x as int]),
            ).with_reg(
                FLAG_REG as int,
                sub_no_borrow(self.v[y as int], self.v[x as int]),
            ).advance(1),
            Opcode::ShiftRight { x, y } => {
                let flagged = self.with_reg(FLAG_REG as int, self.v[y as int] & 1);
                flagged.with_reg(x as int, flagged.v[y as int] >> 1).advance(1)
            },
            Opcode::ShiftLeft { x, y } => {
                let flagged = self.with_reg(FLAG_REG as int, high_bit(self.v[y as int]));
                flagged.with_reg(x as int, flagged.v[y as int] << 1).advance(1)
            },
            Opcode::LoadIndex { addr } => Machine { i: addr, ..self }.advance(1),
            Opcode::JumpOffset { addr } => Machine { pc: (addr + self.v[0]) as u16, ..self },
            Opcode::Random { x, mask } => self.with_reg(x as int, random & mask).advance(1),
            Opcode::Unknown => self.advance(1),
        }
    }

    /// Why the next cycle cannot be carried out, if it cannot.
    pub open spec fn pending_fault(self) -> Option<Fault> {
        self.fault(self.next_opcode())
    }

    /// The state after one cycle: the timers tick, the instruction at the
    /// fetch address is read, and its operation is executed. `random` is the
    /// byte that a random-mask operation draws.
    pub open spec fn step(self, random: u8) -> Machine {
        self.tick().fetched().apply(self.next_opcode(), random)
    }
}

} // verus!
