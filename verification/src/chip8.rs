//! The engine: memory, registers, stack and timers, and the
//! fetch-decode-execute cycle over them.

use crate::host::random_u8;
use crate::instruction::Instruction;
use crate::keys::{Keys, KeysView};
use crate::machine::{
    initial, recognised, redraws, takes_random, Machine, FLAG, FONT_HEIGHT, FONT_SIZE,
    FONT_SPRITES, RAM_SIZE, REGISTERS, ROM_LOC,
};
use crate::screen::Screen;
use vstd::prelude::*;

verus! {

/// The number of nanoseconds between two steps of the timers: a sixtieth of
/// a second.
pub const TIMER_PERIOD: u128 = 16_666_666;

/// The bound below which the random byte of the engine is drawn.
pub const RANDOM_BOUND: u8 = 255;

/// The ways in which making or running an engine fails.
#[derive(Clone, Copy, Debug, PartialEq, Eq, Hash, PartialOrd, Ord)]
pub enum Chip8Error {
    /// The program does not fit into the memory; the number of bytes that do
    /// not fit.
    RomTooBig(usize),
    /// The program counter has left the memory.
    NoMoreInstructions,
    /// The engine does not know the instruction; the instruction, and the
    /// program counter past it.
    UnknownInstruction(Instruction, usize),
}

/// What a cycle hands back, the screen taken by its cells.
pub open spec fn shown(result: Result<(Option<Screen>, bool), Chip8Error>) -> Result<
    (Option<Seq<bool>>, bool),
    Chip8Error,
> {
    match result {
        Ok((Some(screen), beep)) => Ok((Some(screen@), beep)),
        Ok((None, beep)) => Ok((None, beep)),
        Err(error) => Err(error),
    }
}

/// What a cycle from the state `before` hands back: the screen if it was
/// redrawn, and whether the sound timer is running, or the error on which
/// the cycle ended.
pub open spec fn outcome(before: Machine, keys: KeysView, due: bool, random: u8) -> Result<
    (Option<Seq<bool>>, bool),
    Chip8Error,
> {
    let after = before.step(keys, due, random);
    match before.fetch() {
        None => Err(Chip8Error::NoMoreInstructions),
        Some(op) => if !recognised(op) {
            Err(Chip8Error::UnknownInstruction(op, after.pc))
        } else if redraws(op) {
            Ok((Some(after.screen), after.st > 0))
        } else {
            Ok((None, after.st > 0))
        },
    }
}

/// Whether a cycle from the state `before`, with the timers due or not and
/// with the random byte `random`, ends in the state `after` and hands back
/// `result`.
pub open spec fn cycle(
    before: Machine,
    keys: KeysView,
    due: bool,
    random: u8,
    after: Machine,
    result: Result<(Option<Seq<bool>>, bool), Chip8Error>,
) -> bool {
    after == before.step(keys, due, random) && result == outcome(before, keys, due, random)
}

/// The sum of two bytes modulo 256, and whether it went beyond a byte.
fn overflowing_add(a: u8, b: u8) -> (r: (u8, bool))
    ensures
        r.0 == (a + b) % 256,
        r.1 == (a + b > 255),
{
    match a.checked_add(b) {
        Some(sum) => (sum, false),
        None => (a.wrapping_add(b), true),
    }
}

/// The difference of two bytes modulo 256, and whether it was borrowed from.
fn overflowing_sub(a: u8, b: u8) -> (r: (u8, bool))
    ensures
        r.0 == (a - b) % 256,
        r.1 == (a < b),
{
    match a.checked_sub(b) {
        Some(difference) => (difference, false),
        None => (a.wrapping_sub(b), true),
    }
}

/// The engine. Its view is the [`Machine`] that it stands for; the reading
/// of the clock and the random number generator that it also holds are no
/// part of that.
#[derive(Clone, Debug, PartialEq, Eq)]
pub struct Chip8 {
    ram: [u8; RAM_SIZE],
    v: [u8; REGISTERS],
    i: usize,
    pc: usize,
    dt: u8,
    st: u8,
    stack: Vec<usize>,
    instruction: Instruction,
    keys: Keys,
    screen: Screen,
    last_decrement: std::time::Instant,
    rng: fastrand::Rng,
}

impl View for Chip8 {
    type V = Machine;

    closed spec fn view(&self) -> Machine {
        Machine {
            ram: self.ram@,
            v: self.v@,
            i: self.i,
            pc: self.pc,
            dt: self.dt,
            st: self.st,
            stack: self.stack@,
            keys: self.keys@,
            screen: self.screen@,
        }
    }
}

impl Chip8 {
    /// The register selector `x` of the current instruction.
    spec fn x(&self) -> int {
        self.instruction.spec_x() as int
    }

    /// The register selector `y` of the current instruction.
    spec fn y(&self) -> int {
        self.instruction.spec_y() as int
    }

    /// The state of an engine has the sizes of the model.
    pub proof fn lemma_wf(self)
        ensures
            self@.wf(),
    {
        self.screen.lemma_size();
    }

    /// Makes an engine with `rom` loaded, ready to run it. A program of more
    /// than `RAM_SIZE - ROM_LOC` bytes does not fit.
    pub fn new(rom: &[u8]) -> (r: Result<Self, Chip8Error>)
        ensures
            rom@.len() <= RAM_SIZE - ROM_LOC ==> (r matches Ok(chip8) && chip8@ == initial(rom@)),
            rom@.len() > RAM_SIZE - ROM_LOC ==> r == Err::<Self, Chip8Error>(
                Chip8Error::RomTooBig((rom@.len() - (RAM_SIZE - ROM_LOC)) as usize),
            ),
    {
        if rom.len() > RAM_SIZE - ROM_LOC {
            let exceed = rom.len() - (RAM_SIZE - ROM_LOC);
            return Err(Chip8Error::RomTooBig(exceed));
        }
        let mut ram = [0u8;RAM_SIZE];
        let mut a: usize = 0;
        while a < FONT_SIZE
            invariant
                a <= FONT_SIZE,
                forall|b: int| 0 <= b < a ==> ram@[b] == FONT_SPRITES@[b],
                forall|b: int| a <= b < RAM_SIZE ==> ram@[b] == 0,
            decreases FONT_SIZE - a,
        {
            ram[a] = FONT_SPRITES[a];
            a += 1;
        }
        let mut a: usize = 0;
        while a < rom.len()
            invariant
                a <= rom@.len() <= RAM_SIZE - ROM_LOC,
                forall|b: int| 0 <= b < FONT_SIZE ==> ram@[b] == FONT_SPRITES@[b],
                forall|b: int| ROM_LOC <= b < ROM_LOC + a ==> ram@[b] == rom@[b - ROM_LOC],
                forall|b: int|
                    FONT_SIZE <= b < ROM_LOC || ROM_LOC + a <= b < RAM_SIZE ==> ram@[b] == 0,
            decreases rom.len() - a,
        {
            ram[ROM_LOC + a] = rom[a];
            a += 1;
        }
        let chip8 = Self {
            ram,
            v: [0u8;REGISTERS],
            i: 0,
            pc: ROM_LOC,
            dt: 0,
            st: 0,
            stack: Vec::new(),
            instruction: Instruction::new(0),
            keys: Keys::new(),
            screen: Screen::new(),
            last_decrement: std::time::Instant::now(),
            rng: fastrand::Rng::new(),
        };
        Ok(chip8)
    }

    /// Performs one iteration of the fetch-decode-execute cycle and returns
    /// the screen, if it was redrawn, and whether the frontend should beep.
    /// The timers tick if a sixtieth of a second has gone by since they last
    /// did, and an instruction that asks for a random byte gets one below
    /// `RANDOM_BOUND`: the cycle is the one that [`Chip8::step`] performs for
    /// some reading of the clock and some such byte. An error is returned if
    /// there is no instruction left or the engine does not know it.
    pub fn instruction_cycle(&mut self, keys: Keys) -> (r: Result<
        (Option<Screen>, bool),
        Chip8Error,
    >)
        requires
            !old(self)@.faults(),
        ensures
            exists|due: bool, random: u8|
                random < RANDOM_BOUND && #[trigger] cycle(
                    old(self)@,
                    keys@,
                    due,
                    random,
                    final(self)@,
                    shown(r),
                ),
            r is Ok <==> (old(self)@.fetch() matches Some(op) && recognised(op)),
            old(self)@.fetch() is None ==> r == Err::<(Option<Screen>, bool), Chip8Error>(
                Chip8Error::NoMoreInstructions,
            ),
            final(self)@.wf(),
    {
        let due = self.timers_due(self.last_decrement.elapsed().as_nanos());
        let random = if self.next_takes_random() {
            random_u8(&mut self.rng, 0, RANDOM_BOUND)
        } else {
            0
        };
        let result = self.step(keys, due, random);
        assert(cycle(old(self)@, keys@, due, random, self@, shown(result)));
        result
    }

    /// Tells whether the next cycle cannot be carried out: the instruction
    /// at the program counter returns with no call to return from, or names
    /// memory beyond its end. A cycle must not be asked for then.
    pub fn next_faults(&self) -> (r: bool)
        ensures
            r == self@.faults(),
    {
        match self.fetch_instruction() {
            None => false,
            Some(op) => match op.nibbles() {
                (0x0, 0x0, 0xE, 0xE) => self.stack.len() == 0,
                (0xD, _, _, _) => self.i > RAM_SIZE || op.n() > RAM_SIZE - self.i,
                (0xF, _, 0x3, 0x3) => self.i > RAM_SIZE - 3,
                (0xF, _, 0x5, 0x5) => self.i >= RAM_SIZE || op.x() >= RAM_SIZE - self.i,
                (0xF, _, 0x6, 0x5) => self.i >= RAM_SIZE || op.x() >= RAM_SIZE - self.i,
                _ => false,
            },
        }
    }

    /// Tells whether a tick is due `elapsed` nanoseconds after the last; if so, notes the time.
    fn timers_due(&mut self, elapsed: u128) -> (due: bool)
        ensures
            due == (elapsed >= TIMER_PERIOD),
            final(self)@ == old(self)@,
            !due ==> final(self).last_decrement == old(self).last_decrement,
    {
        let due = elapsed >= TIMER_PERIOD;
        if due {
            self.last_decrement = std::time::Instant::now();
        }
        due
    }

    /// Tells whether the instruction at the program counter asks for a
    /// random byte.
    fn next_takes_random(&self) -> (r: bool)
        ensures
            r == (self@.fetch() matches Some(op) && takes_random(op)),
    {
        match self.fetch_instruction() {
            Some(op) => op.nibbles().0 == 0xC,
            None => false,
        }
    }

    /// Performs one cycle with the time and the random byte handed in: the
    /// timers tick if `timers_due`, and the instruction at the program
    /// counter is fetched and executed, taking `random` where it asks for a
    /// random byte. Returns the screen if it was redrawn, and whether the
    /// sound timer is running.
    pub fn step(&mut self, keys: Keys, timers_due: bool, random: u8) -> (r: Result<
        (Option<Screen>, bool),
        Chip8Error,
    >)
        requires
            !old(self)@.faults(),
        ensures
            final(self)@ == old(self)@.step(keys@, timers_due, random),
            shown(r) == outcome(old(self)@, keys@, timers_due, random),
            final(self)@.wf(),
    {
        self.decrement_timers(timers_due);
        let instruction = match self.fetch_instruction() {
            Some(instruction) => instruction,
            None => {
                proof {
                    self.lemma_wf();
                }
                return Err(Chip8Error::NoMoreInstructions);
            },
        };
        self.keys = keys;
        self.instruction = instruction;
        self.pc += 2;
        let redrawn = self.decode_execute(random);
        proof {
            self.lemma_wf();
        }
        match redrawn {
            Ok(true) => Ok((Some(self.screen.clone()), self.st > 0)),
            Ok(false) => Ok((None, self.st > 0)),
            Err(error) => Err(error),
        }
    }

    /// Returns the program counter.
    pub fn pc(&self) -> (r: usize)
        ensures
            r == self@.pc,
    {
        self.pc
    }

    /// Returns the index register.
    pub fn index(&self) -> (r: usize)
        ensures
            r == self@.i,
    {
        self.i
    }

    /// Returns register `x`.
    pub fn register(&self, x: usize) -> (r: u8)
        requires
            x < REGISTERS,
        ensures
            r == self@.v[x as int],
    {
        self.v[x]
    }

    /// Returns the delay timer.
    pub fn delay_timer(&self) -> (r: u8)
        ensures
            r == self@.dt,
    {
        self.dt
    }

    /// Returns the sound timer.
    pub fn sound_timer(&self) -> (r: u8)
        ensures
            r == self@.st,
    {
        self.st
    }

    /// Returns the number of return addresses on the stack.
    pub fn stack_depth(&self) -> (r: usize)
        ensures
            r == self@.stack.len(),
    {
        self.stack.len()
    }

    /// Returns the byte of memory at `address`.
    pub fn memory(&self, address: usize) -> (r: u8)
        requires
            address < RAM_SIZE,
        ensures
            r == self@.ram[address as int],
    {
        self.ram[address]
    }

    /// Returns the screen.
    pub fn screen(&self) -> (r: &Screen)
        ensures
            r@ == self@.screen,
    {
        &self.screen
    }

    /// Moves both timers one step nearer to zero if they are due.
    fn decrement_timers(&mut self, due: bool)
        ensures
            final(self)@ == old(self)@.tick(due),
    {
        if due {
            if self.dt != 0 {
                self.dt -= 1;
            }
            if self.st != 0 {
                self.st -= 1;
            }
        }
    }

    /// Fetches the instruction at the program counter, if there still is
    /// one.
    fn fetch_instruction(&self) -> (r: Option<Instruction>)
        ensures
            r == self@.fetch(),
    {
        if self.pc >= RAM_SIZE - 1 {
            return None;
        }
        let first = self.ram[self.pc];
        let second = self.ram[self.pc + 1];
        assert(((first as u16) << 8) | (second as u16) == first * 256 + second) by (bit_vector);
        Some(Instruction::new(((first as u16) << 8) | (second as u16)))
    }

    /// Decodes the current instruction and executes it. Returns whether the
    /// screen was redrawn, or an error if the engine does not know the
    /// instruction.
    fn decode_execute(&mut self, random: u8) -> (r: Result<bool, Chip8Error>)
        requires
            2 <= old(self).pc <= RAM_SIZE,
            !old(self)@.op_faults(old(self).instruction),
        ensures
            recognised(old(self).instruction) ==> r == Ok::<bool, Chip8Error>(
                redraws(old(self).instruction),
            ) && final(self)@ == old(self)@.execute(old(self).instruction, random),
            !recognised(old(self).instruction) ==> r == Err::<bool, Chip8Error>(
                Chip8Error::UnknownInstruction(old(self).instruction, old(self).pc),
            ) && final(self)@ == old(self)@,
    {
        match self.instruction.nibbles() {
            (0, 0, 0, 0) => (),
            (0x0, 0x0, 0xE, 0x0) => {
                self.clear_screen();
                return Ok(true);
            },
            (0x0, 0x0, 0xE, 0xE) => self.subroutine_return(),
            (0x1, _, _, _) => self.jump_addr(),
            (0x2, _, _, _) => self.call_subroutine(),
            (0x3, _, _, _) => self.skip_eq_byte(),
            (0x4, _, _, _) => self.skip_not_byte(),
            (0x5, _, _, 0x0) => self.skip_eq_reg(),
            (0x6, _, _, _) => self.set_reg_byte(),
            (0x7, _, _, _) => self.add_byte(),
            (0x8, _, _, 0x0) => self.set_reg_reg(),
            (0x8, _, _, 0x1) => self.or_reg(),
            (0x8, _, _, 0x2) => self.and_reg(),
            (0x8, _, _, 0x3) => self.xor_reg(),
            (0x8, _, _, 0x4) => self.add_reg(),
            (0x8, _, _, 0x5) => self.sub_reg(),
            (0x8, _, _, 0x6) => self.shr_reg(),
            (0x8, _, _, 0x7) => self.rev_sub_reg(),
            (0x8, _, _, 0xE) => self.shl_reg(),
            (0x9, _, _, 0x0) => self.skip_not_reg(),
            (0xA, _, _, _) => self.set_index_addr(),
            (0xB, _, _, _) => self.jump_add_addr(),
            (0xC, _, _, _) => self.rand_and_byte(random),
            (0xD, _, _, _) => {
                self.draw_sprite();
                return Ok(true);
            },
            (0xE, _, 0x9, 0xE) => self.skip_eq_key(),
            (0xE, _, 0xA, 0x1) => self.skip_not_key(),
            (0xF, _, 0x0, 0x7) => self.set_reg_delay(),
            (0xF, _, 0x0, 0xA) => self.set_reg_key(),
            (0xF, _, 0x1, 0x5) => self.set_delay_reg(),
            (0xF, _, 0x1, 0x8) => self.set_sound_reg(),
            (0xF, _, 0x1, 0xE) => self.add_index_reg(),
            (0xF, _, 0x2, 0x9) => self.set_index_char(),
            (0xF, _, 0x3, 0x3) => self.set_index_bcd(),
            (0xF, _, 0x5, 0x5) => self.set_index_reg(),
            (0xF, _, 0x6, 0x5) => self.set_reg_index(),
            _ => {
                return Err(Chip8Error::UnknownInstruction(self.instruction, self.pc));
            },
        }
        Ok(false)
    }

    /// Clears the screen.
    fn clear_screen(&mut self)
        ensures
            final(self)@ == old(self)@.clear_screen(),
    {
        self.screen.clear();
    }

    /// Returns from the current subroutine.
    fn subroutine_return(&mut self)
        requires
            old(self)@.stack.len() > 0,
        ensures
            final(self)@ == old(self)@.subroutine_return(),
    {
        self.pc = self.stack.pop().expect("Stack should've had something to pop.");
    }

    /// Jumps to the address.
    fn jump_addr(&mut self)
        ensures
            final(self)@ == old(self)@.jump_addr(old(self).instruction.spec_nnn()),
    {
        self.pc = self.instruction.nnn();
    }

    /// Calls the subroutine at the address.
    fn call_subroutine(&mut self)
        ensures
            final(self)@ == old(self)@.call_subroutine(old(self).instruction.spec_nnn()),
    {
        self.stack.push(self.pc);
        self.pc = self.instruction.nnn();
    }

    /// Skips the next instruction if the register is equal to the byte.
    fn skip_eq_byte(&mut self)
        requires
            old(self).pc <= RAM_SIZE,
        ensures
            final(self)@ == old(self)@.skip_eq_byte(old(self).x(), old(self).instruction.spec_nn()),
    {
        if self.v[self.instruction.x()] == self.instruction.nn() {
            self.pc += 2;
        }
    }

    /// Skips the next instruction if the register is not equal to the byte.
    fn skip_not_byte(&mut self)
        requires
            old(self).pc <= RAM_SIZE,
        ensures
            final(self)@ == old(self)@.skip_not_byte(old(self).x(), old(self).instruction.spec_nn()),
    {
        if self.v[self.instruction.x()] != self.instruction.nn() {
            self.pc += 2;
        }
    }

    /// Skips the next instruction if the two registers are equal.
    fn skip_eq_reg(&mut self)
        requires
            old(self).pc <= RAM_SIZE,
        ensures
            final(self)@ == old(self)@.skip_eq_reg(old(self).x(), old(self).y()),
    {
        if self.v[self.instruction.x()] == self.v[self.instruction.y()] {
            self.pc += 2;
        }
    }

    /// Sets the register to the byte.
    fn set_reg_byte(&mut self)
        ensures
            final(self)@ == old(self)@.set_reg_byte(old(self).x(), old(self).instruction.spec_nn()),
    {
        let x = self.instruction.x();
        self.v[x] = self.instruction.nn();
    }

    /// Adds the byte to the register.
    fn add_byte(&mut self)
        ensures
            final(self)@ == old(self)@.add_byte(old(self).x(), old(self).instruction.spec_nn()),
    {
        let x = self.instruction.x();
        self.v[x] = self.v[x].wrapping_add(self.instruction.nn());
    }

    /// Sets the register to the other register.
    fn set_reg_reg(&mut self)
        ensures
            final(self)@ == old(self)@.set_reg_reg(old(self).x(), old(self).y()),
    {
        let x = self.instruction.x();
        self.v[x] = self.v[self.instruction.y()];
    }

    /// ORs the other register into the register.
    fn or_reg(&mut self)
        ensures
            final(self)@ == old(self)@.or_reg(old(self).x(), old(self).y()),
    {
        let x = self.instruction.x();
        self.v[x] = self.v[x] | self.v[self.instruction.y()];
        self.v[FLAG] = 0;
    }

    /// ANDs the other register into the register.
    fn and_reg(&mut self)
        ensures
            final(self)@ == old(self)@.and_reg(old(self).x(), old(self).y()),
    {
        let x = self.instruction.x();
        self.v[x] = self.v[x] & self.v[self.instruction.y()];
        self.v[FLAG] = 0;
    }

    /// XORs the other register into the register.
    fn xor_reg(&mut self)
        ensures
            final(self)@ == old(self)@.xor_reg(old(self).x(), old(self).y()),
    {
        let x = self.instruction.x();
        self.v[x] = self.v[x] ^ self.v[self.instruction.y()];
        self.v[FLAG] = 0;
    }

    /// Adds the other register to the register and sets the flag on a carry.
    fn add_reg(&mut self)
        ensures
            final(self)@ == old(self)@.add_reg(old(self).x(), old(self).y()),
    {
        let x = self.instruction.x();
        let result = overflowing_add(self.v[x], self.v[self.instruction.y()]);
        self.v[x] = result.0;
        self.v[FLAG] = if result.1 {
            1
        } else {
            0
        };
    }

    /// Subtracts the other register from the register and sets the flag
    /// unless it borrowed.
    fn sub_reg(&mut self)
        ensures
            final(self)@ == old(self)@.sub_reg(old(self).x(), old(self).y()),
    {
        let x = self.instruction.x();
        let result = overflowing_sub(self.v[x], self.v[self.instruction.y()]);
        self.v[x] = result.0;
        self.v[FLAG] = if result.1 {
            0
        } else {
            1
        };
    }

    /// Sets the register to the other register shifted right by one, and the
    /// flag to the lowest bit that the register had.
    fn shr_reg(&mut self)
        ensures
            final(self)@ == old(self)@.shr_reg(old(self).x(), old(self).y()),
    {
        let x = self.instruction.x();
        let vx = self.v[x];
        let vy = self.v[self.instruction.y()];
        let lsb = vx & 1;
        assert(vx & 1 == vx % 2 && vy >> 1 == vy / 2) by (bit_vector);
        self.v[x] = vy >> 1;
        self.v[FLAG] = lsb;
    }

    /// Sets the register to the other register minus it, and sets the flag
    /// unless it borrowed.
    fn rev_sub_reg(&mut self)
        ensures
            final(self)@ == old(self)@.rev_sub_reg(old(self).x(), old(self).y()),
    {
        let x = self.instruction.x();
        let result = overflowing_sub(self.v[self.instruction.y()], self.v[x]);
        self.v[x] = result.0;
        self.v[FLAG] = if result.1 {
            0
        } else {
            1
        };
    }

    /// Sets the register to the other register shifted left by one, and the
    /// flag to the highest bit that the register had.
    fn shl_reg(&mut self)
        ensures
            final(self)@ == old(self)@.shl_reg(old(self).x(), old(self).y()),
    {
        let x = self.instruction.x();
        let vx = self.v[x];
        let vy = self.v[self.instruction.y()];
        let msb = (vx >> 7) & 1;
        assert((vx >> 7) & 1 == vx / 128 && vy << 1 == (vy * 2) % 256) by (bit_vector);
        self.v[x] = vy << 1;
        self.v[FLAG] = msb;
    }

    /// Skips the next instruction if the two registers differ.
    fn skip_not_reg(&mut self)
        requires
            old(self).pc <= RAM_SIZE,
        ensures
            final(self)@ == old(self)@.skip_not_reg(old(self).x(), old(self).y()),
    {
        if self.v[self.instruction.x()] != self.v[self.instruction.y()] {
            self.pc += 2;
        }
    }

    /// Sets the index register to the address.
    fn set_index_addr(&mut self)
        ensures
            final(self)@ == old(self)@.set_index_addr(old(self).instruction.spec_nnn()),
    {
        self.i = self.instruction.nnn();
    }

    /// Jumps to the address plus the first register.
    fn jump_add_addr(&mut self)
        ensures
            final(self)@ == old(self)@.jump_add_addr(old(self).instruction.spec_nnn()),
    {
        self.pc = self.instruction.nnn() + self.v[0x0] as usize;
    }

    /// Sets the register to the random byte ANDed with the byte.
    fn rand_and_byte(&mut self, random: u8)
        ensures
            final(self)@ == old(self)@.rand_and_byte(
                old(self).x(),
                old(self).instruction.spec_nn(),
                random,
            ),
    {
        let x = self.instruction.x();
        self.v[x] = random & self.instruction.nn();
    }

    /// Draws the sprite at the index register onto the screen at the place
    /// that the two registers give, and sets the flag if a set cell was
    /// unset. The last nibble is the height of the sprite.
    fn draw_sprite(&mut self)
        requires
            old(self).i + old(self).instruction.spec_n() <= RAM_SIZE,
        ensures
            final(self)@ == old(self)@.draw_sprite(
                old(self).x(),
                old(self).y(),
                old(self).instruction.spec_n() as int,
            ),
    {
        let sprite = &self.ram[self.i..self.i + self.instruction.n()];
        let x = self.v[self.instruction.x()] as usize;
        let y = self.v[self.instruction.y()] as usize;
        let erased = self.screen.draw_sprite(sprite, x, y);
        self.v[FLAG] = if erased {
            1
        } else {
            0
        };
    }

    /// Skips the next instruction if the key that the register names is
    /// held.
    fn skip_eq_key(&mut self)
        requires
            old(self).pc <= RAM_SIZE,
        ensures
            final(self)@ == old(self)@.skip_eq_key(old(self).x()),
    {
        if self.keys.key_pressed(self.v[self.instruction.x()]) {
            self.pc += 2;
        }
    }

    /// Skips the next instruction if the key that the register names is not
    /// held.
    fn skip_not_key(&mut self)
        requires
            old(self).pc <= RAM_SIZE,
        ensures
            final(self)@ == old(self)@.skip_not_key(old(self).x()),
    {
        if !self.keys.key_pressed(self.v[self.instruction.x()]) {
            self.pc += 2;
        }
    }

    /// Sets the register to the delay timer.
    fn set_reg_delay(&mut self)
        ensures
            final(self)@ == old(self)@.set_reg_delay(old(self).x()),
    {
        let x = self.instruction.x();
        self.v[x] = self.dt;
    }

    /// Sets the register to the key that was pressed, or goes back onto this
    /// instruction to wait for one.
    fn set_reg_key(&mut self)
        requires
            old(self).pc >= 2,
        ensures
            final(self)@ == old(self)@.set_reg_key(old(self).x()),
    {
        if let Some(key) = self.keys.last_pressed() {
            let x = self.instruction.x();
            self.v[x] = key;
        } else {
            self.pc -= 2;
        }
    }

    /// Sets the delay timer to the register.
    fn set_delay_reg(&mut self)
        ensures
            final(self)@ == old(self)@.set_delay_reg(old(self).x()),
    {
        self.dt = self.v[self.instruction.x()];
    }

    /// Sets the sound timer to the register.
    fn set_sound_reg(&mut self)
        ensures
            final(self)@ == old(self)@.set_sound_reg(old(self).x()),
    {
        self.st = self.v[self.instruction.x()];
    }

    /// Adds the register to the index register.
    fn add_index_reg(&mut self)
        ensures
            final(self)@ == old(self)@.add_index_reg(old(self).x()),
    {
        self.i = self.i.wrapping_add(self.v[self.instruction.x()] as usize);
    }

    /// Sets the index register to the font sprite of the digit in the
    /// register.
    fn set_index_char(&mut self)
        ensures
            final(self)@ == old(self)@.set_index_char(old(self).x()),
    {
        self.i = FONT_HEIGHT * self.v[self.instruction.x()] as usize;
    }

    /// Stores the hundreds, tens and ones of the register at the index
    /// register.
    fn set_index_bcd(&mut self)
        requires
            old(self).i + 3 <= RAM_SIZE,
        ensures
            final(self)@ == old(self)@.set_index_bcd(old(self).x()),
    {
        let vx = self.v[self.instruction.x()];
        self.ram[self.i] = vx / 100 % 10;
        self.ram[self.i + 1] = vx / 10 % 10;
        self.ram[self.i + 2] = vx % 10;
    }

    /// Stores the registers up to the register at the index register, which
    /// moves past them.
    fn set_index_reg(&mut self)
        requires
            old(self).i + old(self).instruction.spec_x() + 1 <= RAM_SIZE,
        ensures
            final(self)@ == old(self)@.set_index_reg(old(self).x()),
    {
        let x = self.instruction.x();
        let mut k: usize = 0;
        while k <= x
            invariant
                x < REGISTERS,
                k <= x + 1,
                self.i + x + 1 <= RAM_SIZE,
                self.i == old(self).i,
                self.v == old(self).v,
                self@ == (Machine { ram: self.ram@, ..old(self)@ }),
                forall|a: int|
                    0 <= a < RAM_SIZE ==> self.ram@[a] == if self.i <= a < self.i + k {
                        self.v@[a - self.i]
                    } else {
                        old(self).ram@[a]
                    },
            decreases x + 1 - k,
        {
            self.ram[self.i + k] = self.v[k];
            k += 1;
        }
        self.i += x + 1;
    }

    /// Loads the registers up to the register from the index register, which
    /// moves past them.
    fn set_reg_index(&mut self)
        requires
            old(self).i + old(self).instruction.spec_x() + 1 <= RAM_SIZE,
        ensures
            final(self)@ == old(self)@.set_reg_index(old(self).x()),
    {
        let x = self.instruction.x();
        let mut k: usize = 0;
        while k <= x
            invariant
                x < REGISTERS,
                k <= x + 1,
                self.i + x + 1 <= RAM_SIZE,
                self.i == old(self).i,
                self.ram == old(self).ram,
                self@ == (Machine { v: self.v@, ..old(self)@ }),
                forall|j: int|
                    0 <= j < REGISTERS ==> self.v@[j] == if j < k {
                        self.ram@[self.i + j]
                    } else {
                        old(self).v@[j]
                    },
            decreases x + 1 - k,
        {
            self.v[k] = self.ram[self.i + k];
            k += 1;
        }
        self.i += x + 1;
    }
}

} // verus!
