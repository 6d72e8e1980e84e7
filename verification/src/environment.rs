//! A snapshot of environment variables.
//!
//! The library never reads the process environment itself. Its caller copies
//! the variables of interest into an [`Environment`], and everything else is
//! a function of that value. To contracts an environment is a map from the
//! names that are set to their values.

use vstd::prelude::*;
use crate::text::str_eq;

verus! {

/// Names the terminal program directly.
pub const TERM_PROGRAM: &'static str = "TERM_PROGRAM";

/// Set by the editor's Git integration inside its terminal.
pub const VSCODE_GIT_IPC_HANDLE: &'static str = "VSCODE_GIT_IPC_HANDLE";

/// Points Ghostty at its resources.
pub const GHOSTTY_RESOURCES_DIR: &'static str = "GHOSTTY_RESOURCES_DIR";

/// The path of the WezTerm program.
pub const WEZTERM_EXECUTABLE: &'static str = "WEZTERM_EXECUTABLE";

/// The number Kitty gives its window.
pub const KITTY_WINDOW_ID: &'static str = "KITTY_WINDOW_ID";

/// The socket on which Alacritty takes messages.
pub const ALACRITTY_SOCKET: &'static str = "ALACRITTY_SOCKET";

/// The terminal type.
pub const TERM: &'static str = "TERM";

/// The version of Konsole.
pub const KONSOLE_VERSION: &'static str = "KONSOLE_VERSION";

/// The screen that GNOME Terminal gives a tab.
pub const GNOME_TERMINAL_SCREEN: &'static str = "GNOME_TERMINAL_SCREEN";

/// What a list of bindings says a name is bound to: a later binding of a
/// name replaces an earlier one.
spec fn bindings(entries: Seq<(String, String)>) -> Map<Seq<char>, Seq<char>>
    decreases entries.len(),
{
    if entries.len() == 0 {
        Map::empty()
    } else {
        bindings(entries.drop_last()).insert(entries.last().0@, entries.last().1@)
    }
}

/// The variables that are set, each with its value.
#[derive(Debug)]
pub struct Environment {
    entries: Vec<(String, String)>,
}

impl View for Environment {
    type V = Map<Seq<char>, Seq<char>>;

    closed spec fn view(&self) -> Map<Seq<char>, Seq<char>> {
        bindings(self.entries@)
    }
}

impl Environment {
    /// The environment in which no variable is set.
    pub fn new() -> (env: Environment)
        ensures
            env@ == Map::<Seq<char>, Seq<char>>::empty(),
    {
        Environment { entries: Vec::new() }
    }

    /// Sets `name` to `value`, in place of any value it had.
    pub fn set(&mut self, name: &str, value: &str)
        ensures
            final(self)@ == old(self)@.insert(name@, value@),
    {
        let ghost before = self.entries@;
        self.entries.push((name.to_owned(), value.to_owned()));
        proof {
            assert(self.entries@.drop_last() =~= before);
        }
    }

    /// The value of `name`, if it is set.
    pub fn get(&self, name: &str) -> (value: Option<&str>)
        ensures
            value is Some <==> self@.contains_key(name@),
            value matches Some(v) ==> v@ == self@[name@],
    {
        let mut i = self.entries.len();
        proof {
            assert(self.entries@.take(i as int) =~= self.entries@);
        }
        while i > 0
            invariant
                i <= self.entries.len(),
                self@.contains_key(name@) <==> bindings(self.entries@.take(i as int)).contains_key(
                    name@,
                ),
                self@.contains_key(name@) ==> self@[name@] == bindings(
                    self.entries@.take(i as int),
                )[name@],
            decreases i,
        {
            i = i - 1;
            proof {
                let upto = self.entries@.take(i + 1);
                assert(upto.drop_last() =~= self.entries@.take(i as int));
                assert(upto.last() == self.entries@[i as int]);
            }
            if str_eq(self.entries[i].0.as_str(), name) {
                return Some(self.entries[i].1.as_str());
            }
        }
        proof {
            assert(self.entries@.take(0) =~= Seq::empty());
        }
        None
    }

    /// Whether `name` is set, to whatever value.
    pub fn is_set(&self, name: &str) -> (set: bool)
        ensures
            set == self@.contains_key(name@),
    {
        self.get(name).is_some()
    }

    /// Whether `name` is set to exactly `value`.
    pub fn has_value(&self, name: &str, value: &str) -> (held: bool)
        ensures
            held == (self@.contains_key(name@) && self@[name@] == value@),
    {
        match self.get(name) {
            Some(v) => str_eq(v, value),
            None => false,
        }
    }
}

} // verus!
