//! The terminal emulators that the library tells apart.

use vstd::prelude::*;

verus! {

/// A terminal emulator, as far as one can be recognised.
///
/// `VSCode` is the terminal built into the editor and `Unknown` stands for
/// everything that was not recognised. Neither can open a window of its
/// own, so a launch from either goes through another emulator.
#[derive(Clone, Copy, Debug, PartialEq, Eq, Structural)]
pub enum TerminalKind {
    Ghostty,
    VSCode,
    Alacritty,
    Kitty,
    WezTerm,
    GnomeTerminal,
    Konsole,
    Xterm,
    Unknown,
}

impl TerminalKind {
    /// Whether a launch from this kind has to look for another emulator.
    pub open spec fn needs_fallback(self) -> bool {
        self == TerminalKind::VSCode || self == TerminalKind::Unknown
    }

    /// Whether a launch from this kind has to look for another emulator.
    #[verifier::when_used_as_spec(needs_fallback)]
    pub fn uses_fallback(self) -> (fallback: bool)
        ensures
            fallback == self.needs_fallback(),
    {
        match self {
            TerminalKind::VSCode | TerminalKind::Unknown => true,
            _ => false,
        }
    }
}

} // verus!
