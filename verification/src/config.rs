//! The configuration values the engine consumes.
//!
//! The host's configuration layer resolves files and command-line flags; the
//! engine only sees the plain values below.

use vstd::prelude::*;

verus! {

/// A screen edge the launcher window can be anchored to. The engine passes
/// it through to the window layer untouched.
#[derive(Clone, Copy, PartialEq, Eq, Structural, Debug)]
pub enum Edge {
    Left,
    Right,
    Top,
    Bottom,
}

/// The shell layer the launcher window is placed on.
#[derive(Clone, Copy, PartialEq, Eq, Structural, Debug)]
pub enum Layer {
    Background,
    Bottom,
    Top,
    Overlay,
}

impl Default for Layer {
    fn default() -> (r: Self)
        ensures
            r == Layer::Top,
    {
        Layer::Top
    }
}

/// What the host must keep doing after its main loop has ended. Set when a
/// selection asked for a clipboard copy, whose payload must stay available
/// to clipboard consumers after the session closes.
#[derive(Debug, PartialEq, Eq)]
pub enum PostRunAction {
    Copy(Vec<u8>),
    Nothing,
}

impl PostRunAction {
    /// Whether a post-run task is pending at all.
    pub fn is_copy(&self) -> (r: bool)
        ensures
            r == self is Copy,
    {
        match self {
            PostRunAction::Copy(_) => true,
            PostRunAction::Nothing => false,
        }
    }
}

} // verus!
