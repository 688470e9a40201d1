//! Keys and modifiers, and the names under which a stored shortcut refers to
//! them.
//!
//! Names are matched in lowercase; the caller lowercases what the user wrote
//! before looking it up here.

use vstd::prelude::*;
use crate::text::same_text;

verus! {

/// One of the four modifier keys a shortcut can require.
#[derive(Clone, Copy, Debug, PartialEq, Eq, Structural)]
pub enum Modifier {
    Alt,
    Control,
    Shift,
    Super,
}

/// The keys a shortcut can end in: the space bar, the letters, the digits of
/// the main row and the first twelve function keys.
#[derive(Clone, Copy, Debug, PartialEq, Eq, Structural)]
pub enum KeyCode {
    Space,
    KeyA,
    KeyB,
    KeyC,
    KeyD,
    KeyE,
    KeyF,
    KeyG,
    KeyH,
    KeyI,
    KeyJ,
    KeyK,
    KeyL,
    KeyM,
    KeyN,
    KeyO,
    KeyP,
    KeyQ,
    KeyR,
    KeyS,
    KeyT,
    KeyU,
    KeyV,
    KeyW,
    KeyX,
    KeyY,
    KeyZ,
    Digit1,
    Digit2,
    Digit3,
    Digit4,
    Digit5,
    Digit6,
    Digit7,
    Digit8,
    Digit9,
    Digit0,
    F1,
    F2,
    F3,
    F4,
    F5,
    F6,
    F7,
    F8,
    F9,
    F10,
    F11,
    F12,
}

/// A set of modifiers, one flag for each.
#[derive(Clone, Copy, Debug, PartialEq, Eq, Structural)]
pub struct Modifiers {
    pub alt: bool,
    pub control: bool,
    pub shift: bool,
    pub super_key: bool,
}

/// A key combination that the platform can bind: some modifiers and one key.
#[derive(Clone, Copy, Debug, PartialEq, Eq, Structural)]
pub struct Shortcut {
    pub mods: Modifiers,
    pub key: KeyCode,
}

/// The modifier that a lowercase name stands for.
pub open spec fn modifier_named(name: Seq<char>) -> Option<Modifier> {
    if name == "alt"@ || name == "option"@ {
        Some(Modifier::Alt)
    } else if name == "ctrl"@ || name == "control"@ {
        Some(Modifier::Control)
    } else if name == "shift"@ {
        Some(Modifier::Shift)
    } else if name == "super"@ || name == "cmd"@ || name == "command"@ || name == "meta"@ {
        Some(Modifier::Super)
    } else {
        None
    }
}

/// The key that a lowercase name stands for.
pub open spec fn key_named(name: Seq<char>) -> Option<KeyCode> {
    if name == "space"@ {
        Some(KeyCode::Space)
    } else if letter_named(name) is Some {
        letter_named(name)
    } else if digit_named(name) is Some {
        digit_named(name)
    } else {
        function_key_named(name)
    }
}

/// The letter key that a lowercase name stands for.
pub open spec fn letter_named(name: Seq<char>) -> Option<KeyCode> {
    if name == "a"@ {
        Some(KeyCode::KeyA)
    } else if name == "b"@ {
        Some(KeyCode::KeyB)
    } else if name == "c"@ {
        Some(KeyCode::KeyC)
    } else if name == "d"@ {
        Some(KeyCode::KeyD)
    } else if name == "e"@ {
        Some(KeyCode::KeyE)
    } else if name == "f"@ {
        Some(KeyCode::KeyF)
    } else if name == "g"@ {
        Some(KeyCode::KeyG)
    } else if name == "h"@ {
        Some(KeyCode::KeyH)
    } else if name == "i"@ {
        Some(KeyCode::KeyI)
    } else if name == "j"@ {
        Some(KeyCode::KeyJ)
    } else if name == "k"@ {
        Some(KeyCode::KeyK)
    } else if name == "l"@ {
        Some(KeyCode::KeyL)
    } else if name == "m"@ {
        Some(KeyCode::KeyM)
    } else if name == "n"@ {
        Some(KeyCode::KeyN)
    } else if name == "o"@ {
        Some(KeyCode::KeyO)
    } else if name == "p"@ {
        Some(KeyCode::KeyP)
    } else if name == "q"@ {
        Some(KeyCode::KeyQ)
    } else if name == "r"@ {
        Some(KeyCode::KeyR)
    } else if name == "s"@ {
        Some(KeyCode::KeyS)
    } else if name == "t"@ {
        Some(KeyCode::KeyT)
    } else if name == "u"@ {
        Some(KeyCode::KeyU)
    } else if name == "v"@ {
        Some(KeyCode::KeyV)
    } else if name == "w"@ {
        Some(KeyCode::KeyW)
    } else if name == "x"@ {
        Some(KeyCode::KeyX)
    } else if name == "y"@ {
        Some(KeyCode::KeyY)
    } else if name == "z"@ {
        Some(KeyCode::KeyZ)
    } else {
        None
    }
}

/// The digit key that a name stands for.
pub open spec fn digit_named(name: Seq<char>) -> Option<KeyCode> {
    if name == "1"@ {
        Some(KeyCode::Digit1)
    } else if name == "2"@ {
        Some(KeyCode::Digit2)
    } else if name == "3"@ {
        Some(KeyCode::Digit3)
    } else if name == "4"@ {
        Some(KeyCode::Digit4)
    } else if name == "5"@ {
        Some(KeyCode::Digit5)
    } else if name == "6"@ {
        Some(KeyCode::Digit6)
    } else if name == "7"@ {
        Some(KeyCode::Digit7)
    } else if name == "8"@ {
        Some(KeyCode::Digit8)
    } else if name == "9"@ {
        Some(KeyCode::Digit9)
    } else if name == "0"@ {
        Some(KeyCode::Digit0)
    } else {
        None
    }
}

/// The function key that a lowercase name stands for.
pub open spec fn function_key_named(name: Seq<char>) -> Option<KeyCode> {
    if name == "f1"@ {
        Some(KeyCode::F1)
    } else if name == "f2"@ {
        Some(KeyCode::F2)
    } else if name == "f3"@ {
        Some(KeyCode::F3)
    } else if name == "f4"@ {
        Some(KeyCode::F4)
    } else if name == "f5"@ {
        Some(KeyCode::F5)
    } else if name == "f6"@ {
        Some(KeyCode::F6)
    } else if name == "f7"@ {
        Some(KeyCode::F7)
    } else if name == "f8"@ {
        Some(KeyCode::F8)
    } else if name == "f9"@ {
        Some(KeyCode::F9)
    } else if name == "f10"@ {
        Some(KeyCode::F10)
    } else if name == "f11"@ {
        Some(KeyCode::F11)
    } else if name == "f12"@ {
        Some(KeyCode::F12)
    } else {
        None
    }
}

impl Modifiers {
    /// Whether the set holds the given modifier.
    pub open spec fn has(self, modifier: Modifier) -> bool {
        match modifier {
            Modifier::Alt => self.alt,
            Modifier::Control => self.control,
            Modifier::Shift => self.shift,
            Modifier::Super => self.super_key,
        }
    }

    /// The set with no modifier in it.
    pub fn empty() -> (mods: Self)
        ensures
            forall|m: Modifier| !mods.has(m),
    {
        Modifiers { alt: false, control: false, shift: false, super_key: false }
    }

    /// Whether the set holds no modifier.
    pub fn is_empty(&self) -> (empty: bool)
        ensures
            empty == (forall|m: Modifier| !self.has(m)),
    {
        let empty = !self.alt && !self.control && !self.shift && !self.super_key;
        proof {
            if !empty {
                assert(self.has(Modifier::Alt) || self.has(Modifier::Control) || self.has(
                    Modifier::Shift,
                ) || self.has(Modifier::Super));
            }
        }
        empty
    }

    /// Whether the set holds the given modifier.
    pub fn contains(&self, modifier: Modifier) -> (held: bool)
        ensures
            held == self.has(modifier),
    {
        match modifier {
            Modifier::Alt => self.alt,
            Modifier::Control => self.control,
            Modifier::Shift => self.shift,
            Modifier::Super => self.super_key,
        }
    }

    /// Adds a modifier to the set. Adding one that is there changes nothing.
    pub fn insert(&mut self, modifier: Modifier)
        ensures
            forall|m: Modifier| final(self).has(m) == (m == modifier || old(self).has(m)),
    {
        match modifier {
            Modifier::Alt => {
                self.alt = true;
            },
            Modifier::Control => {
                self.control = true;
            },
            Modifier::Shift => {
                self.shift = true;
            },
            Modifier::Super => {
                self.super_key = true;
            },
        }
    }
}

/// Looks up the modifier that a lowercase name stands for.
pub fn modifier_for(name: &str) -> (modifier: Option<Modifier>)
    ensures
        modifier == modifier_named(name@),
{
    if same_text(name, "alt") || same_text(name, "option") {
        Some(Modifier::Alt)
    } else if same_text(name, "ctrl") || same_text(name, "control") {
        Some(Modifier::Control)
    } else if same_text(name, "shift") {
        Some(Modifier::Shift)
    } else if same_text(name, "super") || same_text(name, "cmd") || same_text(name, "command")
        || same_text(name, "meta") {
        Some(Modifier::Super)
    } else {
        None
    }
}

/// Looks up the key that a lowercase name stands for.
pub fn key_for(name: &str) -> (key: Option<KeyCode>)
    ensures
        key == key_named(name@),
{
    if same_text(name, "space") {
        return Some(KeyCode::Space);
    }
    let letter = letter_for(name);
    if letter.is_some() {
        return letter;
    }
    let digit = digit_for(name);
    if digit.is_some() {
        return digit;
    }
    function_key_for(name)
}

fn letter_for(name: &str) -> (key: Option<KeyCode>)
    ensures
        key == letter_named(name@),
{
    if same_text(name, "a") {
        Some(KeyCode::KeyA)
    } else if same_text(name, "b") {
        Some(KeyCode::KeyB)
    } else if same_text(name, "c") {
        Some(KeyCode::KeyC)
    } else if same_text(name, "d") {
        Some(KeyCode::KeyD)
    } else if same_text(name, "e") {
        Some(KeyCode::KeyE)
    } else if same_text(name, "f") {
        Some(KeyCode::KeyF)
    } else if same_text(name, "g") {
        Some(KeyCode::KeyG)
    } else if same_text(name, "h") {
        Some(KeyCode::KeyH)
    } else if same_text(name, "i") {
        Some(KeyCode::KeyI)
    } else if same_text(name, "j") {
        Some(KeyCode::KeyJ)
    } else if same_text(name, "k") {
        Some(KeyCode::KeyK)
    } else if same_text(name, "l") {
        Some(KeyCode::KeyL)
    } else if same_text(name, "m") {
        Some(KeyCode::KeyM)
    } else if same_text(name, "n") {
        Some(KeyCode::KeyN)
    } else if same_text(name, "o") {
        Some(KeyCode::KeyO)
    } else if same_text(name, "p") {
        Some(KeyCode::KeyP)
    } else if same_text(name, "q") {
        Some(KeyCode::KeyQ)
    } else if same_text(name, "r") {
        Some(KeyCode::KeyR)
    } else if same_text(name, "s") {
        Some(KeyCode::KeyS)
    } else if same_text(name, "t") {
        Some(KeyCode::KeyT)
    } else if same_text(name, "u") {
        Some(KeyCode::KeyU)
    } else if same_text(name, "v") {
        Some(KeyCode::KeyV)
    } else if same_text(name, "w") {
        Some(KeyCode::KeyW)
    } else if same_text(name, "x") {
        Some(KeyCode::KeyX)
    } else if same_text(name, "y") {
        Some(KeyCode::KeyY)
    } else if same_text(name, "z") {
        Some(KeyCode::KeyZ)
    } else {
        None
    }
}

fn digit_for(name: &str) -> (key: Option<KeyCode>)
    ensures
        key == digit_named(name@),
{
    if same_text(name, "1") {
        Some(KeyCode::Digit1)
    } else if same_text(name, "2") {
        Some(KeyCode::Digit2)
    } else if same_text(name, "3") {
        Some(KeyCode::Digit3)
    } else if same_text(name, "4") {
        Some(KeyCode::Digit4)
    } else if same_text(name, "5") {
        Some(KeyCode::Digit5)
    } else if same_text(name, "6") {
        Some(KeyCode::Digit6)
    } else if same_text(name, "7") {
        Some(KeyCode::Digit7)
    } else if same_text(name, "8") {
        Some(KeyCode::Digit8)
    } else if same_text(name, "9") {
        Some(KeyCode::Digit9)
    } else if same_text(name, "0") {
        Some(KeyCode::Digit0)
    } else {
        None
    }
}

fn function_key_for(name: &str) -> (key: Option<KeyCode>)
    ensures
        key == function_key_named(name@),
{
    if same_text(name, "f1") {
        Some(KeyCode::F1)
    } else if same_text(name, "f2") {
        Some(KeyCode::F2)
    } else if same_text(name, "f3") {
        Some(KeyCode::F3)
    } else if same_text(name, "f4") {
        Some(KeyCode::F4)
    } else if same_text(name, "f5") {
        Some(KeyCode::F5)
    } else if same_text(name, "f6") {
        Some(KeyCode::F6)
    } else if same_text(name, "f7") {
        Some(KeyCode::F7)
    } else if same_text(name, "f8") {
        Some(KeyCode::F8)
    } else if same_text(name, "f9") {
        Some(KeyCode::F9)
    } else if same_text(name, "f10") {
        Some(KeyCode::F10)
    } else if same_text(name, "f11") {
        Some(KeyCode::F11)
    } else if same_text(name, "f12") {
        Some(KeyCode::F12)
    } else {
        None
    }
}

} // verus!
