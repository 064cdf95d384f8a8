//! Instruction words: their nibble fields and the operation they select.

use vstd::prelude::*;

verus! {

/// The most significant nibble of an instruction word.
pub open spec fn nibble0(word: u16) -> u16 {
    (word & 0xF000) >> 12
}

/// The second nibble of an instruction word; the register index `X`.
pub open spec fn nibble1(word: u16) -> u16 {
    (word & 0x0F00) >> 8
}

/// The third nibble of an instruction word; the register index `Y`.
pub open spec fn nibble2(word: u16) -> u16 {
    (word & 0x00F0) >> 4
}

/// The least significant nibble of an instruction word; the small count `N`.
pub open spec fn nibble3(word: u16) -> u16 {
    word & 0x000F
}

/// The 12-bit address `NNN` carried by an instruction word.
pub open spec fn addr12(word: u16) -> u16 {
    word & 0x0FFF
}

/// The 8-bit immediate `NN` carried by an instruction word.
pub open spec fn imm8(word: u16) -> u8 {
    (word & 0x00FF) as u8
}

/// The decoded fields of one instruction word.
pub struct EmOp {
    /// The four nibbles of the word, most significant first.
    pub nibbles: [u16; 4],
    /// The 12-bit address operand.
    pub args_nnn: u16,
    /// The 8-bit immediate operand.
    pub args_nn: u8,
    /// The first register index.
    pub args_x: u8,
    /// The second register index.
    pub args_y: u8,
    /// The 4-bit count operand.
    pub args_n: u8,
}

impl EmOp {
    /// Every field holds the part of `word` that it is named after.
    pub open spec fn decodes(&self, word: u16) -> bool {
        &&& self.nibbles[0] == nibble0(word)
        &&& self.nibbles[1] == nibble1(word)
        &&& self.nibbles[2] == nibble2(word)
        &&& self.nibbles[3] == nibble3(word)
        &&& self.args_nnn == addr12(word)
        &&& self.args_nn == imm8(word)
        &&& self.args_x == nibble1(word)
        &&& self.args_y == nibble2(word)
        &&& self.args_n == nibble3(word)
    }

    /// Nibbles and register indices are below 16, the address below 4096.
    pub open spec fn wf(&self) -> bool {
        &&& forall|k: int| 0 <= k < 4 ==> self.nibbles[k] < 16
        &&& self.args_nnn < 0x1000
        &&& self.args_x < 16
        &&& self.args_y < 16
        &&& self.args_n < 16
    }
}

/// Splits an instruction word into its fields. Every word decodes.
pub fn decode(op: u16) -> (fields: EmOp)
    ensures
        fields.decodes(op),
        fields.wf(),
{
    let n0: u16 = (op & 0xF000) >> 12;
    let n1: u16 = (op & 0x0F00) >> 8;
    let n2: u16 = (op & 0x00F0) >> 4;
    let n3: u16 = op & 0x000F;
    let nnn: u16 = op & 0x0FFF;
    let low: u16 = op & 0x00FF;
    assert(n0 < 16 && n1 < 16 && n2 < 16 && n3 < 16 && nnn < 0x1000 && low < 256) by (bit_vector)
        requires
            n0 == (op & 0xF000) >> 12,
            n1 == (op & 0x0F00) >> 8,
            n2 == (op & 0x00F0) >> 4,
            n3 == op & 0x000F,
            nnn == op & 0x0FFF,
            low == op & 0x00FF,
    ;
    EmOp {
        nibbles: [n0, n1, n2, n3],
        args_nnn: nnn,
        args_nn: low as u8,
        args_x: n1 as u8,
        args_y: n2 as u8,
        args_n: n3 as u8,
    }
}

/// The operation that an instruction word selects, with its operands.
#[derive(Clone, Copy, Debug, PartialEq, Eq, Structural)]
pub enum Opcode {
    /// `0000`: stop the interpreter.
    Halt,
    /// `00E0`: clear the framebuffer.
    Cls,
    /// `00EE`: return from a subroutine.
    Ret,
    /// `1NNN`: jump to `addr`.
    Jump { addr: u16 },
    /// `2NNN`: call the subroutine at `addr`.
    Call { addr: u16 },
    /// `3XNN`: skip the next instruction if `V[x] == nn`.
    SkipEq { x: u8, nn: u8 },
    /// `4XNN`: skip the next instruction if `V[x] != nn`.
    SkipNe { x: u8, nn: u8 },
    /// `5XY_`: skip the next instruction if `V[x] == V[y]`.
    SkipRegEq { x: u8, y: u8 },
    /// `6XNN`: `V[x] = nn`.
    Load { x: u8, nn: u8 },
    /// `7XNN`: `V[x] += nn`, without touching the flag register.
    AddImm { x: u8, nn: u8 },
    /// `8XY0`: `V[x] = V[y]`.
    Move { x: u8, y: u8 },
    /// `8XY1`: `V[x] |= V[y]`.
    Or { x: u8, y: u8 },
    /// `8XY2`: `V[x] &= V[y]`.
    And { x: u8, y: u8 },
    /// `8XY3`: `V[x] ^= V[y]`.
    Xor { x: u8, y: u8 },
    /// `8XY4`: `V[x] += V[y]`, flag = carry.
    Add { x: u8, y: u8 },
    /// `8XY5`: `V[x] -= V[y]`, flag = no borrow.
    Sub { x: u8, y: u8 },
    /// `8XY6`: flag = low bit of `V[y]`, `V[x] = V[y] >> 1`.
    ShiftRight { x: u8, y: u8 },
    /// `8XY7`: `V[x] = V[y] - V[x]`, flag = no borrow.
    SubFrom { x: u8, y: u8 },
    /// `8XYE`: flag = high bit of `V[y]`, `V[x] = V[y] << 1`.
    ShiftLeft { x: u8, y: u8 },
    /// `9XY0`: skip the next instruction if `V[x] != V[y]`.
    SkipRegNe { x: u8, y: u8 },
    /// `ANNN`: `I = addr`.
    LoadIndex { addr: u16 },
    /// `BNNN`: jump to `addr + V[0]`.
    JumpOffset { addr: u16 },
    /// `CXNN`: `V[x] = random byte & mask`.
    Random { x: u8, mask: u8 },
    /// Any other word: no operation.
    Unknown,
}

impl Opcode {
    /// Register operands are below 16 and address operands below 4096.
    pub open spec fn wf(self) -> bool {
        match self {
            Opcode::Halt | Opcode::Cls | Opcode::Ret | Opcode::Unknown => true,
            Opcode::Jump { addr } | Opcode::Call { addr } | Opcode::LoadIndex { addr }
            | Opcode::JumpOffset { addr } => addr < 0x1000,
            Opcode::SkipEq { x, .. } | Opcode::SkipNe { x, .. } | Opcode::Load { x, .. }
            | Opcode::AddImm { x, .. } | Opcode::Random { x, .. } => x < 16,
            Opcode::SkipRegEq { x, y } | Opcode::Move { x, y } | Opcode::Or { x, y }
            | Opcode::And { x, y } | Opcode::Xor { x, y } | Opcode::Add { x, y }
            | Opcode::Sub { x, y } | Opcode::ShiftRight { x, y } | Opcode::SubFrom { x, y }
            | Opcode::ShiftLeft { x, y } | Opcode::SkipRegNe { x, y } => x < 16 && y < 16,
        }
    }

    /// Whether the operation sets the program counter itself instead of
    /// stepping to the next instruction: jumps, call, return and the skips.
    pub open spec fn is_control_flow(self) -> bool {
        self is Jump || self is JumpOffset || self is Call || self is Ret || self.is_skip()
    }

    /// Whether the operation is one of the four conditional skips.
    pub open spec fn is_skip(self) -> bool {
        self is SkipEq || self is SkipNe || self is SkipRegEq || self is SkipRegNe
    }
}

/// The operation selected by four nibbles and the operands cut from the same
/// word. An exact match on all four nibbles comes first, then the first
/// nibble picks the family; the last nibble selects within family 8 and
/// must be zero in family 9. Every word left over selects no operation.
pub open spec fn select(n0: u16, n1: u16, n2: u16, n3: u16, nnn: u16, nn: u8, x: u8, y: u8)
    -> Opcode {
    if n0 == 0x0 {
        if n1 == 0x0 && n2 == 0x0 && n3 == 0x0 {
            Opcode::Halt
        } else if n1 == 0x0 && n2 == 0xE && n3 == 0x0 {
            Opcode::Cls
        } else if n1 == 0x0 && n2 == 0xE && n3 == 0xE {
            Opcode::Ret
        } else {
            Opcode::Unknown
        }
    } else if n0 == 0x1 {
        Opcode::Jump { addr: nnn }
    } else if n0 == 0x2 {
        Opcode::Call { addr: nnn }
    } else if n0 == 0x3 {
        Opcode::SkipEq { x, nn }
    } else if n0 == 0x4 {
        Opcode::SkipNe { x, nn }
    } else if n0 == 0x5 {
        Opcode::SkipRegEq { x, y }
    } else if n0 == 0x6 {
        Opcode::Load { x, nn }
    } else if n0 == 0x7 {
        Opcode::AddImm { x, nn }
    } else if n0 == 0x8 {
        if n3 == 0x0 {
            Opcode::Move { x, y }
        } else if n3 == 0x1 {
            Opcode::Or { x, y }
        } else if n3 == 0x2 {
            Opcode::And { x, y }
        } else if n3 == 0x3 {
            Opcode::Xor { x, y }
        } else if n3 == 0x4 {
            Opcode::Add { x, y }
        } else if n3 == 0x5 {
            Opcode::Sub { x, y }
        } else if n3 == 0x6 {
            Opcode::ShiftRight { x, y }
        } else if n3 == 0x7 {
            Opcode::SubFrom { x, y }
        } else if n3 == 0xE {
            Opcode::ShiftLeft { x, y }
        } else {
            Opcode::Unknown
        }
    } else if n0 == 0x9 {
        if n3 == 0x0 {
            Opcode::SkipRegNe { x, y }
        } else {
            Opcode::Unknown
        }
    } else if n0 == 0xA {
        Opcode::LoadIndex { addr: nnn }
    } else if n0 == 0xB {
        Opcode::JumpOffset { addr: nnn }
    } else if n0 == 0xC {
        Opcode::Random { x, mask: nn }
    } else {
        Opcode::Unknown
    }
}

/// The operation that an instruction word selects.
pub open spec fn opcode_of(word: u16) -> Opcode {
    select(
        nibble0(word),
        nibble1(word),
        nibble2(word),
        nibble3(word),
        addr12(word),
        imm8(word),
        nibble1(word) as u8,
        nibble2(word) as u8,
    )
}

impl EmOp {
    /// The operation selected by these fields.
    pub open spec fn spec_opcode(&self) -> Opcode {
        select(
            self.nibbles[0],
            self.nibbles[1],
            self.nibbles[2],
            self.nibbles[3],
            self.args_nnn,
            self.args_nn,
            self.args_x,
            self.args_y,
        )
    }

    /// Dispatches on the nibble pattern: which operation this instruction is.
    pub fn opcode(&self) -> (op: Opcode)
        ensures
            op == self.spec_opcode(),
            self.wf() ==> op.wf(),
            forall|word: u16| self.decodes(word) ==> op == opcode_of(word),
    {
        let nnn = self.args_nnn;
        let nn = self.args_nn;
        let x = self.args_x;
        let y = self.args_y;
        match (self.nibbles[0], self.nibbles[1], self.nibbles[2], self.nibbles[3]) {
            (0x0, 0x0, 0x0, 0x0) => Opcode::Halt,
            (0x0, 0x0, 0xE, 0x0) => Opcode::Cls,
            (0x0, 0x0, 0xE, 0xE) => Opcode::Ret,
            (0x1, _, _, _) => Opcode::Jump { addr: nnn },
            (0x2, _, _, _) => Opcode::Call { addr: nnn },
            (0x3, _, _, _) => Opcode::SkipEq { x, nn },
            (0x4, _, _, _) => Opcode::SkipNe { x, nn },
            (0x5, _, _, _) => Opcode::SkipRegEq { x, y },
            (0x6, _, _, _) => Opcode::Load { x, nn },
            (0x7, _, _, _) => Opcode::AddImm { x, nn },
            (0x8, _, _, 0x0) => Opcode::Move { x, y },
            (0x8, _, _, 0x1) => Opcode::Or { x, y },
            (0x8, _, _, 0x2) => Opcode::And { x, y },
            (0x8, _, _, 0x3) => Opcode::Xor { x, y },
            (0x8, _, _, 0x4) => Opcode::Add { x, y },
            (0x8, _, _, 0x5) => Opcode::Sub { x, y },
            (0x8, _, _, 0x6) => Opcode::ShiftRight { x, y },
            (0x8, _, _, 0x7) => Opcode::SubFrom { x, y },
            (0x8, _, _, 0xE) => Opcode::ShiftLeft { x, y },
            (0x9, _, _, 0x0) => Opcode::SkipRegNe { x, y },
            (0xA, _, _, _) => Opcode::LoadIndex { addr: nnn },
            (0xB, _, _, _) => Opcode::JumpOffset { addr: nnn },
            (0xC, _, _, _) => Opcode::Random { x, mask: nn },
            _ => Opcode::Unknown,
        }
    }
}

} // verus!
