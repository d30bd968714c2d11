//! What a frontend decides without a window: which key a character stands
//! for, what a key event does to the pad, and which bytes show a screen.

use crate::args::Layout;
use crate::keys::{Keys, KEY_COUNT};
use crate::screen::{Screen, SIZE, WIDTH};
use vstd::prelude::*;
use vstd::string::StrSliceExecFns;

verus! {

/// The number of bytes of one cell in a frame: red, green, blue and alpha.
pub const CELL_BYTES: usize = 4;

/// The number of bytes of a frame.
pub const FRAME_SIZE: usize = SIZE * CELL_BYTES;

/// The alpha byte of every cell: opaque.
pub const OPAQUE: u8 = 255;

/// The key that a character stands for on a QWERTY keyboard.
pub open spec fn qwerty_key(character: char) -> Option<u8> {
    match character {
        '1' => Some(0x1u8),
        '2' => Some(0x2u8),
        '3' => Some(0x3u8),
        '4' => Some(0xCu8),
        'q' => Some(0x4u8),
        'w' => Some(0x5u8),
        'e' => Some(0x6u8),
        'r' => Some(0xDu8),
        'a' => Some(0x7u8),
        's' => Some(0x8u8),
        'd' => Some(0x9u8),
        'f' => Some(0xEu8),
        'z' => Some(0xAu8),
        'x' => Some(0x0u8),
        'c' => Some(0xBu8),
        'v' => Some(0xFu8),
        _ => None,
    }
}

/// The key that a character stands for on a Colemak keyboard.
pub open spec fn colemak_key(character: char) -> Option<u8> {
    match character {
        '1' => Some(0x1u8),
        '2' => Some(0x2u8),
        '3' => Some(0x3u8),
        '4' => Some(0xCu8),
        'q' => Some(0x4u8),
        'w' => Some(0x5u8),
        'f' => Some(0x6u8),
        'p' => Some(0xDu8),
        'a' => Some(0x7u8),
        'r' => Some(0x8u8),
        's' => Some(0x9u8),
        't' => Some(0xEu8),
        'z' => Some(0xAu8),
        'x' => Some(0x0u8),
        'c' => Some(0xBu8),
        'v' => Some(0xFu8),
        _ => None,
    }
}

/// The key that a text stands for under a layout: the key of its one
/// character. A text of no character, or of several, stands for none.
pub open spec fn key_of(layout: Layout, text: Seq<char>) -> Option<u8> {
    if text.len() == 1 {
        match layout {
            Layout::Qwerty => qwerty_key(text[0]),
            Layout::Colemak => colemak_key(text[0]),
        }
    } else {
        None
    }
}

/// The bytes that show a screen: four for each cell, in the order of the
/// cells. A set cell has the colour `fg`, an unset one `bg`, and each is
/// opaque.
pub open spec fn frame(screen: Seq<bool>, fg: Seq<u8>, bg: Seq<u8>) -> Seq<u8> {
    Seq::new(
        FRAME_SIZE as nat,
        |b: int|
            if b % (CELL_BYTES as int) == 3 {
                OPAQUE
            } else if screen[b / (CELL_BYTES as int)] {
                fg[b % (CELL_BYTES as int)]
            } else {
                bg[b % (CELL_BYTES as int)]
            },
    )
}

/// Converts the text of a key event to a key, on a QWERTY keyboard.
pub fn qwerty_character_to_key(character: &str) -> (r: Option<u8>)
    ensures
        r == key_of(Layout::Qwerty, character@),
        r matches Some(key) ==> key < KEY_COUNT,
{
    if character.unicode_len() != 1 {
        return None;
    }
    Some(
        match character.get_char(0) {
            '1' => 0x1,
            '2' => 0x2,
            '3' => 0x3,
            '4' => 0xC,
            'q' => 0x4,
            'w' => 0x5,
            'e' => 0x6,
            'r' => 0xD,
            'a' => 0x7,
            's' => 0x8,
            'd' => 0x9,
            'f' => 0xE,
            'z' => 0xA,
            'x' => 0x0,
            'c' => 0xB,
            'v' => 0xF,
            _ => {
                return None;
            },
        },
    )
}

/// Converts the text of a key event to a key, on a Colemak keyboard.
pub fn colemak_character_to_key(character: &str) -> (r: Option<u8>)
    ensures
        r == key_of(Layout::Colemak, character@),
        r matches Some(key) ==> key < KEY_COUNT,
{
    if character.unicode_len() != 1 {
        return None;
    }
    Some(
        match character.get_char(0) {
            '1' => 0x1,
            '2' => 0x2,
            '3' => 0x3,
            '4' => 0xC,
            'q' => 0x4,
            'w' => 0x5,
            'f' => 0x6,
            'p' => 0xD,
            'a' => 0x7,
            'r' => 0x8,
            's' => 0x9,
            't' => 0xE,
            'z' => 0xA,
            'x' => 0x0,
            'c' => 0xB,
            'v' => 0xF,
            _ => {
                return None;
            },
        },
    )
}

/// Handles a key event: the key that `character` stands for under the
/// layout is pressed or released. A text that stands for no key changes
/// nothing.
pub fn key_handler(keys: &mut Keys, layout: Layout, character: &str, pressed: bool)
    ensures
        match key_of(layout, character@) {
            Some(key) => if pressed {
                &&& final(keys)@.held == old(keys)@.held.insert(key)
                &&& final(keys)@.last_pressed == Some(key)
            } else {
                &&& final(keys)@.held == old(keys)@.held.remove(key)
                &&& final(keys)@.last_pressed == old(keys)@.last_pressed
            },
            None => *final(keys) == *old(keys),
        },
{
    let key = match layout {
        Layout::Qwerty => qwerty_character_to_key(character),
        Layout::Colemak => colemak_character_to_key(character),
    };
    let key = match key {
        Some(key) => key,
        None => {
            return ;
        },
    };
    if pressed {
        keys.press_key(key);
    } else {
        keys.release_key(key);
    }
}

/// Draws the screen into a frame of four bytes a cell.
pub fn draw_screen(screen: &Screen, fg: [u8; 3], bg: [u8; 3]) -> (r: Vec<u8>)
    ensures
        r@ == frame(screen@, fg@, bg@),
{
    let mut pixels: Vec<u8> = Vec::with_capacity(FRAME_SIZE);
    let mut i: usize = 0;
    while i < SIZE
        invariant
            i <= SIZE,
            pixels@.len() == i * CELL_BYTES,
            forall|b: int| 0 <= b < pixels@.len() ==> pixels@[b] == frame(screen@, fg@, bg@)[b],
        decreases SIZE - i,
    {
        let x = i % WIDTH;
        let y = i / WIDTH;
        let colour = if screen.pixel(x, y) {
            &fg
        } else {
            &bg
        };
        pixels.push(colour[0]);
        pixels.push(colour[1]);
        pixels.push(colour[2]);
        pixels.push(OPAQUE);
        i += 1;
    }
    pixels
}

} // verus!
