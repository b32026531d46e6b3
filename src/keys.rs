use vstd::prelude::*;

verus! {

/// One key event, as delivered by the terminal.
#[derive(Clone, Copy, Debug, PartialEq, Eq, Structural)]
pub enum Key {
    /// A plain character key.
    Char(char),
    /// A character key pressed together with control.
    Ctrl(char),
    Up,
    Down,
    Left,
    Right,
    /// Any key the editor does not recognise.
    Other,
}

} // verus!
