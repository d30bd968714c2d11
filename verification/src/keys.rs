//! The sixteen-key pad: which keys are held, and which was pressed last.

use vstd::prelude::*;

verus! {

/// The number of keys on the pad; a key is a value below it.
pub const KEY_COUNT: u8 = 16;

/// A snapshot of the pad: the keys currently held down, and the key pressed
/// most recently since the slot was last reset.
#[derive(Clone, Copy, Debug, PartialEq, Eq, Hash, PartialOrd, Ord)]
pub struct Keys {
    raw: u16,
    last_pressed: Option<u8>,
}

/// What a [`Keys`] value stands for.
pub struct KeysView {
    /// The keys that are held down, each below [`KEY_COUNT`].
    pub held: Set<u8>,
    /// The most recent press since the last reset.
    pub last_pressed: Option<u8>,
}

impl View for Keys {
    type V = KeysView;

    closed spec fn view(&self) -> KeysView {
        KeysView {
            held: Set::new(|key: u8| key < KEY_COUNT && self.raw & (1u16 << key) != 0),
            last_pressed: self.last_pressed,
        }
    }
}

impl Keys {
    /// Returns a pad with no key held and no press recorded.
    pub fn new() -> (r: Self)
        ensures
            r@.held == Set::<u8>::empty(),
            r@.last_pressed.is_none(),
    {
        let keys = Self { raw: 0, last_pressed: None };
        proof {
            assert forall|key: u8| !keys@.held.contains(key) by {
                assert(0u16 & (1u16 << key) == 0) by (bit_vector);
            }
        }
        keys
    }

    /// Holds `key` down and records it as the last key pressed.
    pub fn press_key(&mut self, key: u8)
        requires
            key < KEY_COUNT,
        ensures
            final(self)@.held == old(self)@.held.insert(key),
            final(self)@.last_pressed == Some(key),
    {
        let ghost before = self.raw;
        self.raw = self.raw | (1u16 << key);
        self.last_pressed = Some(key);
        proof {
            assert forall|other: u8|
                self@.held.contains(other) <==> old(self)@.held.insert(key).contains(other) by {
                if other < 16 {
                    assert(((before | (1u16 << key)) & (1u16 << other) != 0) <==> (other == key || (
                    before & (1u16 << other) != 0))) by (bit_vector)
                        requires
                            other < 16,
                            key < 16,
                    ;
                }
            }
        }
    }

    /// Lets `key` go. The record of the last key pressed stays as it is.
    pub fn release_key(&mut self, key: u8)
        requires
            key < KEY_COUNT,
        ensures
            final(self)@.held == old(self)@.held.remove(key),
            final(self)@.last_pressed == old(self)@.last_pressed,
    {
        let ghost before = self.raw;
        self.raw = self.raw & !(1u16 << key);
        proof {
            assert forall|other: u8|
                self@.held.contains(other) <==> old(self)@.held.remove(key).contains(other) by {
                if other < 16 {
                    assert(((before & !(1u16 << key)) & (1u16 << other) != 0) <==> (other != key && (
                    before & (1u16 << other) != 0))) by (bit_vector)
                        requires
                            other < 16,
                            key < 16,
                    ;
                }
            }
        }
    }

    /// Forgets the last key pressed. The keys that are held stay held.
    pub fn reset_last_pressed(&mut self)
        ensures
            final(self)@.held == old(self)@.held,
            final(self)@.last_pressed.is_none(),
    {
        self.last_pressed = None;
    }

    /// Tells whether `key` is held down. No key at or above [`KEY_COUNT`]
    /// exists, so none is ever held.
    pub fn key_pressed(&self, key: u8) -> (r: bool)
        ensures
            r == self@.held.contains(key),
    {
        key < KEY_COUNT && (self.raw & (1u16 << key)) != 0
    }

    /// Returns the key pressed most recently since the last reset.
    pub fn last_pressed(&self) -> (r: Option<u8>)
        ensures
            r == self@.last_pressed,
    {
        self.last_pressed
    }
}

impl Default for Keys {
    /// The pad with no key held, as [`Keys::new`] returns it.
    fn default() -> (r: Self)
        ensures
            r@.held == Set::<u8>::empty(),
            r@.last_pressed.is_none(),
    {
        Keys::new()
    }
}

} // verus!
