//! The input snapshot: which of the five logical keys are held, plus a
//! version counter that increases on every press/release edge the hardware
//! reports. Decoding a raw scan code into the next snapshot is pure logic;
//! reading the hardware port is the caller's concern.

use vstd::prelude::*;

verus! {

/// The five logical keys the engine reacts to.
#[derive(Debug, Clone, Copy, PartialEq, Eq)]
pub enum Key {
    UpArrow,
    DownArrow,
    LeftArrow,
    RightArrow,
    Space,
}

/// An immutable snapshot of the keyboard: one held-flag per logical key and a
/// version that increments on every decoded hardware event.
#[derive(Debug, Clone, Copy, PartialEq, Eq)]
pub struct KeyboardState {
    pub up: bool,
    pub down: bool,
    pub left: bool,
    pub right: bool,
    pub space: bool,
    pub version: u64,
}

pub open spec fn key_held(k: KeyboardState, key: Key) -> bool {
    match key {
        Key::UpArrow => k.up,
        Key::DownArrow => k.down,
        Key::LeftArrow => k.left,
        Key::RightArrow => k.right,
        Key::Space => k.space,
    }
}

/// The snapshot after decoding one raw scan code: all held-flags are reset,
/// then the key named by a recognized press code is set; any other code
/// (including the release codes) leaves every key up. The version always
/// increments, saturating at the counter's limit.
pub open spec fn scan_code_spec(k: KeyboardState, code: u8) -> KeyboardState {
    let base = KeyboardState {
        up: false,
        down: false,
        left: false,
        right: false,
        space: false,
        version: if k.version < u64::MAX {
            (k.version + 1) as u64
        } else {
            u64::MAX
        },
    };
    if code == 72 {
        KeyboardState { up: true, ..base }
    } else if code == 80 {
        KeyboardState { down: true, ..base }
    } else if code == 77 {
        KeyboardState { right: true, ..base }
    } else if code == 75 {
        KeyboardState { left: true, ..base }
    } else if code == 57 {
        KeyboardState { space: true, ..base }
    } else {
        base
    }
}

impl KeyboardState {
    /// The snapshot before any input: nothing held, version 0.
    pub fn blank() -> (k: KeyboardState)
        ensures
            k == (KeyboardState {
                up: false,
                down: false,
                left: false,
                right: false,
                space: false,
                version: 0u64,
            }),
    {
        KeyboardState { up: false, down: false, left: false, right: false, space: false, version: 0 }
    }

    /// Whether the given logical key is held in this snapshot.
    pub fn is_key_down(&self, key: Key) -> (r: bool)
        ensures
            r == key_held(*self, key),
    {
        match key {
            Key::UpArrow => self.up,
            Key::DownArrow => self.down,
            Key::LeftArrow => self.left,
            Key::RightArrow => self.right,
            Key::Space => self.space,
        }
    }

    /// The snapshot's version: increases on every decoded hardware event.
    pub fn input_version(&self) -> (v: u64)
        ensures
            v == self.version,
    {
        self.version
    }

    /// Fold one raw keyboard scan code into the snapshot; see
    /// `scan_code_spec` for the decoding table.
    pub fn apply_scan_code(&mut self, code: u8)
        ensures
            *final(self) == scan_code_spec(*old(self), code),
    {
        self.up = false;
        self.down = false;
        self.left = false;
        self.right = false;
        self.space = false;
        if code == 72 {
            self.up = true;
        } else if code == 80 {
            self.down = true;
        } else if code == 77 {
            self.right = true;
        } else if code == 75 {
            self.left = true;
        } else if code == 57 {
            self.space = true;
        }
        if self.version < u64::MAX {
            self.version = self.version + 1;
        }
    }
}

} // verus!
