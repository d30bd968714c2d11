//! What holds of the engine over all states, proved from the model.

use crate::chip8::{outcome, Chip8Error};
use crate::instruction::Instruction;
use crate::keys::KeysView;
use crate::machine::{
    initial, recognised, takes_random, Machine, FLAG, FONT_SIZE, FONT_SPRITES, RAM_SIZE, REGISTERS,
    ROM_LOC,
};
use crate::screen::{blank, SIZE};
use vstd::prelude::*;

verus! {

/// A fresh engine has the sizes of the model, its program counter at
/// `ROM_LOC`, every register, the index register and both timers at zero,
/// and an empty stack. Its memory holds the font at the start, the program
/// from `ROM_LOC` on, and zero elsewhere; its screen is blank.
pub proof fn lemma_initial_state(rom: Seq<u8>)
    requires
        rom.len() <= RAM_SIZE - ROM_LOC,
    ensures
        initial(rom).wf(),
        initial(rom).pc == ROM_LOC,
        forall|x: int| 0 <= x < REGISTERS ==> initial(rom).v[x] == 0,
        initial(rom).i == 0,
        initial(rom).stack.len() == 0,
        initial(rom).dt == 0,
        initial(rom).st == 0,
        initial(rom).screen == blank(),
        initial(rom).keys.held.is_empty(),
        initial(rom).keys.last_pressed is None,
        forall|a: int| 0 <= a < FONT_SIZE ==> initial(rom).ram[a] == FONT_SPRITES@[a],
        forall|a: int| 0 <= a < rom.len() ==> initial(rom).ram[ROM_LOC + a] == rom[a],
        forall|a: int|
            FONT_SIZE <= a < ROM_LOC || ROM_LOC + rom.len() <= a < RAM_SIZE ==> initial(
                rom,
            ).ram[a] == 0,
{
}

/// A cycle succeeds exactly when there is an instruction at the program
/// counter and the engine knows it. With none it ends in
/// `NoMoreInstructions`, with one that it does not know in
/// `UnknownInstruction`, which names it and the program counter past it.
pub proof fn lemma_outcome(before: Machine, keys: KeysView, due: bool, random: u8)
    ensures
        outcome(before, keys, due, random) is Ok <==> (before.fetch() matches Some(op)
            && recognised(op)),
        before.fetch() is None <==> outcome(before, keys, due, random) == Err::<
            (Option<Seq<bool>>, bool),
            Chip8Error,
        >(Chip8Error::NoMoreInstructions),
        before.fetch() matches Some(op) ==> (!recognised(op) <==> outcome(
            before,
            keys,
            due,
            random,
        ) == Err::<(Option<Seq<bool>>, bool), Chip8Error>(
            Chip8Error::UnknownInstruction(op, (before.pc + 2) as usize),
        )),
        outcome(before, keys, due, random) matches Ok((_, beep)) ==> beep == (before.step(
            keys,
            due,
            random,
        ).st > 0),
{
}

/// A cycle keeps the sizes of the state: the memory, the registers and the
/// screen are as large after it as before.
pub proof fn lemma_step_wf(before: Machine, keys: KeysView, due: bool, random: u8)
    requires
        before.wf(),
        !before.faults(),
    ensures
        before.step(keys, due, random).wf(),
{
    if before.fetch() is Some {
        (before.fetch()->0).lemma_fields();
    }
}

/// The random byte matters to no instruction but the one that asks for it.
pub proof fn lemma_random_unused(before: Machine, keys: KeysView, due: bool, one: u8, other: u8)
    requires
        !(before.fetch() matches Some(op) && takes_random(op)),
    ensures
        before.step(keys, due, one) == before.step(keys, due, other),
        outcome(before, keys, due, one) == outcome(before, keys, due, other),
{
}

/// The timers never go below zero, and move by one at most: a timer that is
/// due goes down by one unless it is zero, and one that is not due stays.
pub proof fn lemma_tick(before: Machine, due: bool)
    ensures
        before.tick(due).dt == if due && before.dt > 0 {
            before.dt - 1
        } else {
            before.dt as int
        },
        before.tick(due).st == if due && before.st > 0 {
            before.st - 1
        } else {
            before.st as int
        },
        before.tick(due) == (Machine { dt: before.tick(due).dt, st: before.tick(due).st, ..before }),
{
}

/// Clearing the screen unsets every cell, and the cycle that does so hands
/// the blank screen back.
pub proof fn lemma_clear_screen(before: Machine, keys: KeysView, due: bool, random: u8)
    requires
        before.fetch() matches Some(op) && op@ == 0x00E0,
    ensures
        forall|p: int| 0 <= p < SIZE ==> !before.step(keys, due, random).screen[p],
        before.step(keys, due, random).screen.len() == SIZE,
        outcome(before, keys, due, random) matches Ok((Some(screen), _)) && screen == blank(),
{
    let op = before.fetch()->0;
    let raw = op@;
    assert((raw & 0xF000) >> 12 == 0 && (raw & 0x0F00) >> 8 == 0 && (raw & 0x00F0) >> 4 == 0xE && (
    raw & 0x000F) == 0) by (bit_vector)
        requires
            raw == 0x00E0,
    ;
}

/// Adding a byte to a register wraps at 256 and leaves every other register
/// as it was, the flag among them.
pub proof fn lemma_add_byte(before: Machine, x: int, nn: u8)
    requires
        before.wf(),
        0 <= x < REGISTERS,
    ensures
        before.add_byte(x, nn).v[x] == (before.v[x] + nn) % 256,
        forall|other: int|
            0 <= other < REGISTERS && other != x ==> before.add_byte(x, nn).v[other]
                == before.v[other],
        x != FLAG ==> before.add_byte(x, nn).v[FLAG as int] == before.v[FLAG as int],
{
}

/// Adding and subtracting registers set the flag after the result: one on a
/// carry, and one where nothing was borrowed. Into any register but the flag
/// itself goes the result modulo 256.
pub proof fn lemma_carry_and_borrow(before: Machine, x: int, y: int)
    requires
        before.wf(),
        0 <= x < REGISTERS,
        0 <= y < REGISTERS,
    ensures
        before.add_reg(x, y).v[FLAG as int] == if before.v[x] + before.v[y] > 255 {
            1int
        } else {
            0int
        },
        before.sub_reg(x, y).v[FLAG as int] == if before.v[x] >= before.v[y] {
            1int
        } else {
            0int
        },
        before.rev_sub_reg(x, y).v[FLAG as int] == if before.v[y] >= before.v[x] {
            1int
        } else {
            0int
        },
        x != FLAG ==> before.add_reg(x, y).v[x] == (before.v[x] + before.v[y]) % 256,
        x != FLAG ==> before.sub_reg(x, y).v[x] == (before.v[x] - before.v[y]) % 256,
        x != FLAG ==> before.rev_sub_reg(x, y).v[x] == (before.v[y] - before.v[x]) % 256,
{
}

/// Waiting for a key with none pressed leaves the program counter where it
/// was before the cycle, so the next cycle fetches the same instruction.
/// Nothing but the timers and the pad has changed.
pub proof fn lemma_wait_for_key(before: Machine, keys: KeysView, due: bool, random: u8)
    requires
        before.fetch() matches Some(op) && op.spec_nibbles().0 == 0xF && op.spec_nibbles().2 == 0x0
            && op.spec_nibbles().3 == 0xA,
        keys.last_pressed is None,
    ensures
        before.step(keys, due, random).pc == before.pc,
        before.step(keys, due, random).fetch() == before.fetch(),
        before.step(keys, due, random) == (Machine { keys, ..before.tick(due) }),
{
}

/// Waiting for a key with one pressed puts the key into the register and
/// moves on to the next instruction.
pub proof fn lemma_key_arrives(before: Machine, keys: KeysView, due: bool, random: u8, key: u8)
    requires
        before.fetch() matches Some(op) && op.spec_nibbles().0 == 0xF && op.spec_nibbles().2 == 0x0
            && op.spec_nibbles().3 == 0xA,
        keys.last_pressed == Some(key),
    ensures
        before.step(keys, due, random).pc == before.pc + 2,
        before.step(keys, due, random).v == before.v.update(
            (before.fetch()->0).spec_x() as int,
            key,
        ),
{
}

/// Storing V0 to Vx and loading them again from the same place brings back
/// what they held, whatever the registers held in between.
pub proof fn lemma_store_load(before: Machine, x: int, between: Seq<u8>)
    requires
        before.wf(),
        0 <= x < REGISTERS,
        before.i + x + 1 <= RAM_SIZE,
        between.len() == REGISTERS,
    ensures
        ({
            let stored = before.set_index_reg(x);
            let rewound = Machine { i: before.i, v: between, ..stored };
            let loaded = rewound.set_reg_index(x);
            &&& stored.i == before.i + x + 1
            &&& loaded.i == before.i + x + 1
            &&& forall|k: int| 0 <= k <= x ==> loaded.v[k] == before.v[k]
            &&& forall|k: int| x < k < REGISTERS ==> loaded.v[k] == between[k]
            &&& loaded.ram == stored.ram
        }),
{
}

/// An instruction is fetched with its first byte as the upper half.
pub proof fn lemma_fetch(before: Machine)
    requires
        before.pc + 1 < RAM_SIZE,
    ensures
        before.fetch() matches Some(op) && op@ == before.ram[before.pc as int] * 256
            + before.ram[before.pc + 1],
{
    Instruction::lemma_opcode(
        (before.ram[before.pc as int] * 256 + before.ram[before.pc + 1]) as u16,
    );
}

} // verus!
