use vstd::prelude::*;

verus! {

/// A key action stored in the keymap grid.
///
/// `Transparent` defers resolution to the next lower active layer and `No`
/// does nothing; `Single` carries a concrete key code to be executed.
#[derive(Clone, Copy, Debug, PartialEq, Eq, Structural)]
pub enum KeyAction {
    /// Do nothing.
    No,
    /// Defer to a lower layer.
    Transparent,
    /// A concrete action, identified by its key code.
    Single(u16),
}

impl KeyAction {
    /// True for the actions that a release scan skips over: they resolve
    /// nothing at this layer and pass the position on to the layer below.
    pub open spec fn defers(self) -> bool {
        self == KeyAction::Transparent || self == KeyAction::No
    }

    /// Executable mirror of [`Self::defers`].
    pub fn is_deferring(&self) -> (r: bool)
        ensures
            r == self.defers(),
    {
        match self {
            KeyAction::Transparent => true,
            KeyAction::No => true,
            KeyAction::Single(_) => false,
        }
    }
}

} // verus!
