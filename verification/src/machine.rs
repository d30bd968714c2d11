//! The engine as a mathematical object: its state, and what one cycle does
//! to it. The executable engine is specified against this model.

use crate::instruction::Instruction;
use crate::keys::KeysView;
use crate::screen::{blank, drawn, erases, SIZE};
use vstd::prelude::*;

verus! {

/// The size of the memory in bytes.
pub const RAM_SIZE: usize = 0x1000;

/// The address at which a program is loaded and starts.
pub const ROM_LOC: usize = 0x200;

/// The number of general-purpose registers.
pub const REGISTERS: usize = 16;

/// The register that doubles as the carry, borrow and collision flag.
pub const FLAG: usize = 0xF;

/// The number of bytes of one font sprite.
pub const FONT_HEIGHT: usize = 5;

/// The number of bytes of the font: sixteen sprites.
pub const FONT_SIZE: usize = 80;

/// The sprites of the sixteen hexadecimal digits, five bytes each, in the
/// order of the digits. They lie at the start of the memory.
pub const FONT_SPRITES: [u8; FONT_SIZE] = [
    0xF0, 0x90, 0x90, 0x90, 0xF0,
    0x20, 0x60, 0x20, 0x20, 0x70,
    0xF0, 0x10, 0xF0, 0x80, 0xF0,
    0xF0, 0x10, 0xF0, 0x10, 0xF0,
    0x90, 0x90, 0xF0, 0x10, 0x10,
    0xF0, 0x80, 0xF0, 0x10, 0xF0,
    0xF0, 0x80, 0xF0, 0x90, 0xF0,
    0xF0, 0x10, 0x20, 0x40, 0x40,
    0xF0, 0x90, 0xF0, 0x90, 0xF0,
    0xF0, 0x90, 0xF0, 0x10, 0xF0,
    0xF0, 0x90, 0xF0, 0x90, 0x90,
    0xE0, 0x90, 0xE0, 0x90, 0xE0,
    0xF0, 0x80, 0x80, 0x80, 0xF0,
    0xE0, 0x90, 0x90, 0x90, 0xE0,
    0xF0, 0x80, 0xF0, 0x80, 0xF0,
    0xF0, 0x80, 0xF0, 0x80, 0x80,
];

/// The state of the engine.
#[verifier::ext_equal]
pub struct Machine {
    /// The memory, `RAM_SIZE` bytes.
    pub ram: Seq<u8>,
    /// The registers V0 to VF.
    pub v: Seq<u8>,
    /// The index register.
    pub i: usize,
    /// The program counter.
    pub pc: usize,
    /// The delay timer.
    pub dt: u8,
    /// The sound timer.
    pub st: u8,
    /// The return addresses, the most recent call last.
    pub stack: Seq<usize>,
    /// The pad as the last cycle saw it.
    pub keys: KeysView,
    /// The cells of the screen, row by row.
    pub screen: Seq<bool>,
}

/// The flag value of a condition: one if it holds, zero if not.
pub open spec fn flag(condition: bool) -> u8 {
    if condition {
        1
    } else {
        0
    }
}

/// The state in which a program starts: the font at the start of the memory,
/// the program from `ROM_LOC` on, the program counter at `ROM_LOC`, and
/// everything else zero or empty.
pub open spec fn initial(rom: Seq<u8>) -> Machine {
    Machine {
        ram: Seq::new(
            RAM_SIZE as nat,
            |a: int|
                if 0 <= a < FONT_SIZE {
                    FONT_SPRITES@[a]
                } else if ROM_LOC <= a < ROM_LOC + rom.len() {
                    rom[a - ROM_LOC]
                } else {
                    0u8
                },
        ),
        v: Seq::new(REGISTERS as nat, |k: int| 0u8),
        i: 0,
        pc: ROM_LOC,
        dt: 0,
        st: 0,
        stack: Seq::empty(),
        keys: KeysView { held: Set::empty(), last_pressed: None },
        screen: blank(),
    }
}

/// Whether the engine knows the instruction.
pub open spec fn recognised(op: Instruction) -> bool {
    match op.spec_nibbles() {
        (0x0, 0x0, 0x0, 0x0) => true,
        (0x0, 0x0, 0xE, 0x0) => true,
        (0x0, 0x0, 0xE, 0xE) => true,
        (0x1, _, _, _) => true,
        (0x2, _, _, _) => true,
        (0x3, _, _, _) => true,
        (0x4, _, _, _) => true,
        (0x5, _, _, 0x0) => true,
        (0x6, _, _, _) => true,
        (0x7, _, _, _) => true,
        (0x8, _, _, 0x0) => true,
        (0x8, _, _, 0x1) => true,
        (0x8, _, _, 0x2) => true,
        (0x8, _, _, 0x3) => true,
        (0x8, _, _, 0x4) => true,
        (0x8, _, _, 0x5) => true,
        (0x8, _, _, 0x6) => true,
        (0x8, _, _, 0x7) => true,
        (0x8, _, _, 0xE) => true,
        (0x9, _, _, 0x0) => true,
        (0xA, _, _, _) => true,
        (0xB, _, _, _) => true,
        (0xC, _, _, _) => true,
        (0xD, _, _, _) => true,
        (0xE, _, 0x9, 0xE) => true,
        (0xE, _, 0xA, 0x1) => true,
        (0xF, _, 0x0, 0x7) => true,
        (0xF, _, 0x0, 0xA) => true,
        (0xF, _, 0x1, 0x5) => true,
        (0xF, _, 0x1, 0x8) => true,
        (0xF, _, 0x1, 0xE) => true,
        (0xF, _, 0x2, 0x9) => true,
        (0xF, _, 0x3, 0x3) => true,
        (0xF, _, 0x5, 0x5) => true,
        (0xF, _, 0x6, 0x5) => true,
        _ => false,
    }
}

/// Whether the instruction redraws the screen: it clears it or draws a
/// sprite.
pub open spec fn redraws(op: Instruction) -> bool {
    match op.spec_nibbles() {
        (0x0, 0x0, 0xE, 0x0) => true,
        (0xD, _, _, _) => true,
        _ => false,
    }
}

/// Whether the instruction takes a random byte.
pub open spec fn takes_random(op: Instruction) -> bool {
    op.spec_nibbles().0 == 0xC
}

impl Machine {
    /// The sizes that every state of the engine has.
    pub open spec fn wf(self) -> bool {
        &&& self.ram.len() == RAM_SIZE
        &&& self.v.len() == REGISTERS
        &&& self.screen.len() == SIZE
    }

    /// The state with register `x` set to `value`.
    pub open spec fn with_v(self, x: int, value: u8) -> Machine {
        Machine { v: self.v.update(x, value), ..self }
    }

    /// The state with the next instruction skipped if `condition` holds.
    pub open spec fn skip_if(self, condition: bool) -> Machine {
        if condition {
            Machine { pc: (self.pc + 2) as usize, ..self }
        } else {
            self
        }
    }

    /// Whether the key that register `x` names is held. A value that names
    /// no key is never held.
    pub open spec fn key_held(self, x: int) -> bool {
        self.keys.held.contains(self.v[x])
    }

    /// 00E0: every cell of the screen is unset.
    pub open spec fn clear_screen(self) -> Machine {
        Machine { screen: blank(), ..self }
    }

    /// 00EE: the program counter is the most recent return address, which
    /// leaves the stack.
    pub open spec fn subroutine_return(self) -> Machine {
        Machine { pc: self.stack.last(), stack: self.stack.drop_last(), ..self }
    }

    /// 1nnn: the program counter is `nnn`.
    pub open spec fn jump_addr(self, nnn: usize) -> Machine {
        Machine { pc: nnn, ..self }
    }

    /// 2nnn: the program counter goes onto the stack and becomes `nnn`.
    pub open spec fn call_subroutine(self, nnn: usize) -> Machine {
        Machine { pc: nnn, stack: self.stack.push(self.pc), ..self }
    }

    /// 3xnn: skips if Vx is `nn`.
    pub open spec fn skip_eq_byte(self, x: int, nn: u8) -> Machine {
        self.skip_if(self.v[x] == nn)
    }

    /// 4xnn: skips if Vx is not `nn`.
    pub open spec fn skip_not_byte(self, x: int, nn: u8) -> Machine {
        self.skip_if(self.v[x] != nn)
    }

    /// 5xy0: skips if Vx is Vy.
    pub open spec fn skip_eq_reg(self, x: int, y: int) -> Machine {
        self.skip_if(self.v[x] == self.v[y])
    }

    /// 6xnn: Vx is `nn`.
    pub open spec fn set_reg_byte(self, x: int, nn: u8) -> Machine {
        self.with_v(x, nn)
    }

    /// 7xnn: Vx is Vx plus `nn`, modulo 256. The flag is not touched.
    pub open spec fn add_byte(self, x: int, nn: u8) -> Machine {
        self.with_v(x, ((self.v[x] + nn) % 256) as u8)
    }

    /// 8xy0: Vx is Vy.
    pub open spec fn set_reg_reg(self, x: int, y: int) -> Machine {
        self.with_v(x, self.v[y])
    }

    /// 8xy1: Vx is Vx OR Vy, then the flag is zero.
    pub open spec fn or_reg(self, x: int, y: int) -> Machine {
        self.with_v(x, self.v[x] | self.v[y]).with_v(FLAG as int, 0)
    }

    /// 8xy2: Vx is Vx AND Vy, then the flag is zero.
    pub open spec fn and_reg(self, x: int, y: int) -> Machine {
        self.with_v(x, self.v[x] & self.v[y]).with_v(FLAG as int, 0)
    }

    /// 8xy3: Vx is Vx XOR Vy, then the flag is zero.
    pub open spec fn xor_reg(self, x: int, y: int) -> Machine {
        self.with_v(x, self.v[x] ^ self.v[y]).with_v(FLAG as int, 0)
    }

    /// 8xy4: Vx is Vx plus Vy, modulo 256, then the flag tells whether the
    /// sum went beyond a byte.
    pub open spec fn add_reg(self, x: int, y: int) -> Machine {
        let sum = self.v[x] + self.v[y];
        self.with_v(x, (sum % 256) as u8).with_v(FLAG as int, flag(sum > 255))
    }

    /// 8xy5: Vx is Vx minus Vy, modulo 256, then the flag tells whether
    /// nothing was borrowed.
    pub open spec fn sub_reg(self, x: int, y: int) -> Machine {
        let difference = self.v[x] - self.v[y];
        self.with_v(x, (difference % 256) as u8).with_v(FLAG as int, flag(difference >= 0))
    }

    /// 8xy6: Vx is Vy shifted right by one, then the flag is the lowest bit
    /// that Vx had before.
    pub open spec fn shr_reg(self, x: int, y: int) -> Machine {
        self.with_v(x, self.v[y] / 2).with_v(FLAG as int, self.v[x] % 2)
    }

    /// 8xy7: Vx is Vy minus Vx, modulo 256, then the flag tells whether
    /// nothing was borrowed.
    pub open spec fn rev_sub_reg(self, x: int, y: int) -> Machine {
        let difference = self.v[y] - self.v[x];
        self.with_v(x, (difference % 256) as u8).with_v(FLAG as int, flag(difference >= 0))
    }

    /// 8xyE: Vx is Vy shifted left by one, modulo 256, then the flag is the
    /// highest bit that Vx had before.
    pub open spec fn shl_reg(self, x: int, y: int) -> Machine {
        self.with_v(x, ((self.v[y] * 2) % 256) as u8).with_v(FLAG as int, self.v[x] / 128)
    }

    /// 9xy0: skips if Vx is not Vy.
    pub open spec fn skip_not_reg(self, x: int, y: int) -> Machine {
        self.skip_if(self.v[x] != self.v[y])
    }

    /// Annn: the index register is `nnn`.
    pub open spec fn set_index_addr(self, nnn: usize) -> Machine {
        Machine { i: nnn, ..self }
    }

    /// Bnnn: the program counter is `nnn` plus V0.
    pub open spec fn jump_add_addr(self, nnn: usize) -> Machine {
        Machine { pc: (nnn + self.v[0]) as usize, ..self }
    }

    /// Cxnn: Vx is the random byte AND `nn`.
    pub open spec fn rand_and_byte(self, x: int, nn: u8, random: u8) -> Machine {
        self.with_v(x, random & nn)
    }

    /// The `n` bytes of memory from the index register on.
    pub open spec fn sprite(self, n: int) -> Seq<u8> {
        self.ram.subrange(self.i as int, self.i + n)
    }

    /// Dxyn: the sprite of `n` bytes at the index register is drawn at
    /// (Vx, Vy), then the flag tells whether a set cell was unset.
    pub open spec fn draw_sprite(self, x: int, y: int, n: int) -> Machine {
        let sprite = self.sprite(n);
        let left = self.v[x] as int;
        let top = self.v[y] as int;
        Machine {
            screen: drawn(self.screen, sprite, left, top),
            v: self.v.update(FLAG as int, flag(erases(self.screen, sprite, left, top))),
            ..self
        }
    }

    /// Ex9E: skips if the key that Vx names is held.
    pub open spec fn skip_eq_key(self, x: int) -> Machine {
        self.skip_if(self.key_held(x))
    }

    /// ExA1: skips if the key that Vx names is not held.
    pub open spec fn skip_not_key(self, x: int) -> Machine {
        self.skip_if(!self.key_held(x))
    }

    /// Fx07: Vx is the delay timer.
    pub open spec fn set_reg_delay(self, x: int) -> Machine {
        self.with_v(x, self.dt)
    }

    /// Fx0A: if a key was pressed, Vx is that key; if none was, the program
    /// counter goes back by two, onto this instruction.
    pub open spec fn set_reg_key(self, x: int) -> Machine {
        match self.keys.last_pressed {
            Some(key) => self.with_v(x, key),
            None => Machine { pc: (self.pc - 2) as usize, ..self },
        }
    }

    /// Fx15: the delay timer is Vx.
    pub open spec fn set_delay_reg(self, x: int) -> Machine {
        Machine { dt: self.v[x], ..self }
    }

    /// Fx18: the sound timer is Vx.
    pub open spec fn set_sound_reg(self, x: int) -> Machine {
        Machine { st: self.v[x], ..self }
    }

    /// Fx1E: the index register is itself plus Vx, wrapping at the width of
    /// the register.
    pub open spec fn add_index_reg(self, x: int) -> Machine {
        Machine { i: self.i.wrapping_add(self.v[x] as usize), ..self }
    }

    /// Fx29: the index register is five times Vx, where the font sprite of
    /// the digit Vx starts.
    pub open spec fn set_index_char(self, x: int) -> Machine {
        Machine { i: (FONT_HEIGHT * self.v[x]) as usize, ..self }
    }

    /// Fx33: the hundreds, tens and ones of Vx go to the three bytes of
    /// memory from the index register on.
    pub open spec fn set_index_bcd(self, x: int) -> Machine {
        let value = self.v[x];
        let at = self.i as int;
        Machine {
            ram: self.ram.update(at, value / 100 % 10).update(at + 1, value / 10 % 10).update(
                at + 2,
                value % 10,
            ),
            ..self
        }
    }

    /// Fx55: V0 to Vx go to the memory from the index register on, which
    /// then moves past them.
    pub open spec fn set_index_reg(self, x: int) -> Machine {
        Machine {
            ram: Seq::new(
                self.ram.len(),
                |a: int|
                    if self.i <= a <= self.i + x {
                        self.v[a - self.i]
                    } else {
                        self.ram[a]
                    },
            ),
            i: (self.i + x + 1) as usize,
            ..self
        }
    }

    /// Fx65: V0 to Vx come from the memory from the index register on, which
    /// then moves past them.
    pub open spec fn set_reg_index(self, x: int) -> Machine {
        Machine {
            v: Seq::new(
                self.v.len(),
                |k: int|
                    if 0 <= k <= x {
                        self.ram[self.i + k]
                    } else {
                        self.v[k]
                    },
            ),
            i: (self.i + x + 1) as usize,
            ..self
        }
    }

    /// What an instruction that the engine knows does to the state, once the
    /// program counter has moved past it.
    pub open spec fn execute(self, op: Instruction, random: u8) -> Machine {
        let x = op.spec_x() as int;
        let y = op.spec_y() as int;
        let n = op.spec_n() as int;
        let nn = op.spec_nn();
        let nnn = op.spec_nnn();
        match op.spec_nibbles() {
            (0x0, 0x0, 0x0, 0x0) => self,
            (0x0, 0x0, 0xE, 0x0) => self.clear_screen(),
            (0x0, 0x0, 0xE, 0xE) => self.subroutine_return(),
            (0x1, _, _, _) => self.jump_addr(nnn),
            (0x2, _, _, _) => self.call_subroutine(nnn),
            (0x3, _, _, _) => self.skip_eq_byte(x, nn),
            (0x4, _, _, _) => self.skip_not_byte(x, nn),
            (0x5, _, _, 0x0) => self.skip_eq_reg(x, y),
            (0x6, _, _, _) => self.set_reg_byte(x, nn),
            (0x7, _, _, _) => self.add_byte(x, nn),
            (0x8, _, _, 0x0) => self.set_reg_reg(x, y),
            (0x8, _, _, 0x1) => self.or_reg(x, y),
            (0x8, _, _, 0x2) => self.and_reg(x, y),
            (0x8, _, _, 0x3) => self.xor_reg(x, y),
            (0x8, _, _, 0x4) => self.add_reg(x, y),
            (0x8, _, _, 0x5) => self.sub_reg(x, y),
            (0x8, _, _, 0x6) => self.shr_reg(x, y),
            (0x8, _, _, 0x7) => self.rev_sub_reg(x, y),
            (0x8, _, _, 0xE) => self.shl_reg(x, y),
            (0x9, _, _, 0x0) => self.skip_not_reg(x, y),
            (0xA, _, _, _) => self.set_index_addr(nnn),
            (0xB, _, _, _) => self.jump_add_addr(nnn),
            (0xC, _, _, _) => self.rand_and_byte(x, nn, random),
            (0xD, _, _, _) => self.draw_sprite(x, y, n),
            (0xE, _, 0x9, 0xE) => self.skip_eq_key(x),
            (0xE, _, 0xA, 0x1) => self.skip_not_key(x),
            (0xF, _, 0x0, 0x7) => self.set_reg_delay(x),
            (0xF, _, 0x0, 0xA) => self.set_reg_key(x),
            (0xF, _, 0x1, 0x5) => self.set_delay_reg(x),
            (0xF, _, 0x1, 0x8) => self.set_sound_reg(x),
            (0xF, _, 0x1, 0xE) => self.add_index_reg(x),
            (0xF, _, 0x2, 0x9) => self.set_index_char(x),
            (0xF, _, 0x3, 0x3) => self.set_index_bcd(x),
            (0xF, _, 0x5, 0x5) => self.set_index_reg(x),
            (0xF, _, 0x6, 0x5) => self.set_reg_index(x),
            _ => self,
        }
    }

    /// Whether the instruction cannot be carried out in this state: a return
    /// with no call to return from, or memory named beyond its end.
    pub open spec fn op_faults(self, op: Instruction) -> bool {
        match op.spec_nibbles() {
            (0x0, 0x0, 0xE, 0xE) => self.stack.len() == 0,
            (0xD, _, _, _) => self.i + op.spec_n() > RAM_SIZE,
            (0xF, _, 0x3, 0x3) => self.i + 3 > RAM_SIZE,
            (0xF, _, 0x5, 0x5) => self.i + op.spec_x() + 1 > RAM_SIZE,
            (0xF, _, 0x6, 0x5) => self.i + op.spec_x() + 1 > RAM_SIZE,
            _ => false,
        }
    }

    /// The state with both timers one step nearer to zero if the timers are
    /// due, and unchanged if not.
    pub open spec fn tick(self, due: bool) -> Machine {
        if due {
            Machine {
                dt: if self.dt != 0 {
                    (self.dt - 1) as u8
                } else {
                    0
                },
                st: if self.st != 0 {
                    (self.st - 1) as u8
                } else {
                    0
                },
                ..self
            }
        } else {
            self
        }
    }

    /// The instruction at the program counter, its first byte the upper
    /// half, or nothing if either of its bytes lies beyond the memory.
    pub open spec fn fetch(self) -> Option<Instruction> {
        if self.pc + 1 < RAM_SIZE {
            Some(Instruction::new((self.ram[self.pc as int] * 256 + self.ram[self.pc + 1]) as u16))
        } else {
            None
        }
    }

    /// Whether the next cycle cannot be carried out: the instruction at the
    /// program counter faults.
    pub open spec fn faults(self) -> bool {
        self.fetch() matches Some(op) && self.op_faults(op)
    }

    /// The state in which a fetched instruction is executed: the pad is the
    /// one handed in, and the program counter has moved past the
    /// instruction.
    pub open spec fn ready(self, keys: KeysView) -> Machine {
        Machine { keys, pc: (self.pc + 2) as usize, ..self }
    }

    /// The state after one cycle: the timers tick if due, then the
    /// instruction at the program counter is fetched and executed. With
    /// nothing to fetch only the timers have changed; with an instruction
    /// that the engine does not know, the pad and the program counter too.
    pub open spec fn step(self, keys: KeysView, due: bool, random: u8) -> Machine {
        let ticked = self.tick(due);
        match ticked.fetch() {
            None => ticked,
            Some(op) => if recognised(op) {
                ticked.ready(keys).execute(op, random)
            } else {
                ticked.ready(keys)
            },
        }
    }
}

} // verus!
