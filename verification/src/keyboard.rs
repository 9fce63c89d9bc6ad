//! The hexadecimal keypad: which keys are held, which was pressed last, and
//! how host key symbols map onto the sixteen keys.

use vstd::prelude::*;

verus! {

/// What `get_pressed` answers for a host key that is no key of the keypad.
pub const NO_KEY: u8 = 0x10;

/// What `get_pressed` answers for the host key that asks to leave the run.
pub const QUIT_KEY: u8 = 0xFF;

/// The keypad layout over the host's key numbers, which are those of SDL:
/// the character that the key writes, in lower case. The rows `1234`, `QWER`, `ASDF`,
/// `ZXCV` of the host keyboard stand for the rows `123C`, `456D`, `789E`,
/// `A0BF` of the keypad; Escape asks to quit; every other key is no key.
pub open spec fn host_key(code: int) -> u8 {
    if code == 49 {
        0x1
    } else if code == 50 {
        0x2
    } else if code == 51 {
        0x3
    } else if code == 52 {
        0xC
    } else if code == 113 {
        0x4
    } else if code == 119 {
        0x5
    } else if code == 101 {
        0x6
    } else if code == 114 {
        0xD
    } else if code == 97 {
        0x7
    } else if code == 115 {
        0x8
    } else if code == 100 {
        0x9
    } else if code == 102 {
        0xE
    } else if code == 122 {
        0xA
    } else if code == 120 {
        0x0
    } else if code == 99 {
        0xB
    } else if code == 118 {
        0xF
    } else if code == 27 {
        QUIT_KEY
    } else {
        NO_KEY
    }
}

/// The keys that are left of `keys` once every occurrence of `key` is gone.
pub open spec fn without_key(keys: Seq<u8>, key: u8) -> Seq<u8> {
    keys.filter(other_than(key))
}

/// The test that every key but `key` passes.
pub open spec fn other_than(key: u8) -> spec_fn(u8) -> bool {
    |k: u8| k != key
}

/// The state of the keypad.
/// A key that came up is held no more, and every other key is held as before.
pub proof fn released_key_is_not_held(keys: Seq<u8>, key: u8, other: u8)
    ensures
        !without_key(keys, key).contains(key),
        other != key ==> (without_key(keys, key).contains(other) <==> keys.contains(other)),
{
    let kept = without_key(keys, key);
    if kept.contains(key) {
        let at = choose|at: int| 0 <= at < kept.len() && kept[at] == key;
        keys.lemma_filter_pred(other_than(key), at);
    }
    if kept.contains(other) {
        keys.lemma_filter_contains_rev(other_than(key), other);
    }
    if keys.contains(other) && other != key {
        let at = choose|at: int| 0 <= at < keys.len() && keys[at] == other;
        keys.lemma_filter_contains(other_than(key), at);
    }
}

pub struct Keyboard {
    /// The keypad keys that are held, in the order in which they went down.
    pub keys_pressed: Vec<u8>,
    /// The key that went down last, until a key is released.
    pub last_key_pressed: Option<u8>,
    /// Whether the host asked to leave the run.
    pub quit_requested: bool,
}

impl Keyboard {
    /// Whether `after` is this keyboard once `key` has gone down.
    pub open spec fn pressed(self, key: u8, after: Keyboard) -> bool {
        if key <= 0xF {
            &&& after.keys_pressed@ == self.keys_pressed@.push(key)
            &&& after.last_key_pressed == Some(key)
            &&& after.quit_requested == self.quit_requested
        } else if key == QUIT_KEY {
            &&& after.keys_pressed@ == self.keys_pressed@
            &&& after.last_key_pressed == self.last_key_pressed
            &&& after.quit_requested
        } else {
            &&& after.keys_pressed@ == self.keys_pressed@
            &&& after.last_key_pressed == self.last_key_pressed
            &&& after.quit_requested == self.quit_requested
        }
    }

    /// Whether `after` is this keyboard once `key` has come up.
    pub open spec fn released(self, key: u8, after: Keyboard) -> bool {
        if key <= 0xF {
            &&& after.keys_pressed@ == without_key(self.keys_pressed@, key)
            &&& after.last_key_pressed == None::<u8>
            &&& after.quit_requested == self.quit_requested
        } else {
            &&& after.keys_pressed@ == self.keys_pressed@
            &&& after.last_key_pressed == self.last_key_pressed
            &&& after.quit_requested == self.quit_requested
        }
    }

    /// A keyboard on which nothing is held.
    pub fn new() -> (keyboard: Keyboard)
        ensures
            keyboard.keys_pressed@ == Seq::<u8>::empty(),
            keyboard.last_key_pressed == None::<u8>,
            !keyboard.quit_requested,
    {
        Keyboard { keys_pressed: Vec::new(), last_key_pressed: None, quit_requested: false }
    }

    /// Whether the key `keycode` of the keypad is held.
    pub fn is_key_pressed(&self, keycode: u8) -> (held: bool)
        ensures
            held == self.keys_pressed@.contains(keycode),
    {
        let mut index: usize = 0;
        while index < self.keys_pressed.len()
            invariant
                index <= self.keys_pressed.len(),
                forall|j: int| 0 <= j < index ==> self.keys_pressed@[j] != keycode,
            decreases self.keys_pressed.len() - index,
        {
            if self.keys_pressed[index] == keycode {
                return true;
            }
            index += 1;
        }
        false
    }

    /// The host key with the number `keycode` goes down. A key of the keypad
    /// is then held and counts as pressed last; the quit key asks to leave
    /// the run; any other key changes nothing.
    pub fn on_key_down(&mut self, keycode: i32)
        ensures
            old(self).pressed(host_key(keycode as int), *final(self)),
    {
        let key = self.get_pressed(keycode);
        if key <= 0xF {
            self.keys_pressed.push(key);
            self.last_key_pressed = Some(key);
        } else if key == QUIT_KEY {
            self.quit_requested = true;
        }
    }

    /// The host key with the number `keycode` comes up. A key of the keypad
    /// is then held no more, however often it went down, and no key counts as
    /// pressed last; any other key changes nothing.
    pub fn on_key_up(&mut self, keycode: i32)
        ensures
            old(self).released(host_key(keycode as int), *final(self)),
    {
        let key = self.get_pressed(keycode);
        if key <= 0xF {
            let mut kept: Vec<u8> = Vec::new();
            let mut index: usize = 0;
            while index < self.keys_pressed.len()
                invariant
                    index <= self.keys_pressed.len(),
                    kept@ == without_key(self.keys_pressed@.take(index as int), key),
                decreases self.keys_pressed.len() - index,
            {
                let held = self.keys_pressed[index];
                proof {
                    let before = self.keys_pressed@.take(index as int);
                    assert(self.keys_pressed@.take(index + 1) == before.push(held));
                    before.lemma_filter_push(held, other_than(key));
                }
                if held != key {
                    kept.push(held);
                }
                index += 1;
            }
            proof {
                assert(self.keys_pressed@.take(index as int) == self.keys_pressed@);
            }
            self.keys_pressed = kept;
            self.last_key_pressed = None;
        }
    }

    /// What the host key with the number `keycode` stands for: a key of the
    /// keypad, `QUIT_KEY` or `NO_KEY`.
    pub fn get_pressed(&self, keycode: i32) -> (key: u8)
        ensures
            key == host_key(keycode as int),
    {
        match keycode {
            49 => 0x1,
            50 => 0x2,
            51 => 0x3,
            52 => 0xC,
            113 => 0x4,
            119 => 0x5,
            101 => 0x6,
            114 => 0xD,
            97 => 0x7,
            115 => 0x8,
            100 => 0x9,
            102 => 0xE,
            122 => 0xA,
            120 => 0x0,
            99 => 0xB,
            118 => 0xF,
            27 => QUIT_KEY,
            _ => NO_KEY,
        }
    }
}

} // verus!
