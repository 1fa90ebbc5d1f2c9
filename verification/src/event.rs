use vstd::prelude::*;

verus! {

/// One physical or synthetic key edge at a matrix position.
#[derive(Clone, Copy, Debug, PartialEq, Eq, Structural)]
pub struct KeyEvent {
    pub row: u8,
    pub col: u8,
    /// True for a press, false for a release.
    pub pressed: bool,
}

/// The press state of a key, as handed to the keymap by the matrix scanner.
#[derive(Clone, Copy, Debug, PartialEq, Eq, Structural)]
pub struct KeyState {
    /// True while the key is held down.
    pub pressed: bool,
}

} // verus!
