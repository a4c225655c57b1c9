use vstd::prelude::*;

verus! {

/// The two things an isolated tap of a tracked key can ask for.
#[derive(Clone, Copy, Debug, PartialEq, Eq, Structural, Hash)]
pub enum KeyAction {
    /// Switch the input method off.
    ImeOff,
    /// Switch the input method on.
    ImeOn,
}

} // verus!
