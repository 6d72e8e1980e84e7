//! Looking for terminal emulators on the search path.
//!
//! What is installed is a fact of the machine and of the moment, so nothing
//! here can say which emulator will be found. The choice among what was
//! found, and the command built from it, are settled in
//! [`crate::command`]; this module only asks the questions, in the order of
//! preference and no further than the first emulator found.

use vstd::prelude::*;
use crate::command::{built_command, fallback_choice, launch_rule, rule_of};
use crate::terminal::TerminalKind;

verus! {

/// Which of the emulators to fall back on were found when looked for.
#[derive(Clone, Copy, Debug, PartialEq, Eq, Structural)]
pub struct FallbackProbes {
    pub gnome_terminal: bool,
    pub konsole: bool,
    pub xterm: bool,
}

/// The probes that found nothing, or were never made.
pub open spec fn nothing_found() -> FallbackProbes {
    FallbackProbes { gnome_terminal: false, konsole: false, xterm: false }
}

/// Whether `kind` is one of the emulators to fall back on.
pub open spec fn is_fallback_candidate(kind: TerminalKind) -> bool {
    ||| kind == TerminalKind::GnomeTerminal
    ||| kind == TerminalKind::Konsole
    ||| kind == TerminalKind::Xterm
}

/// Whether `program` is what the table of emulators runs for `kind`.
pub open spec fn is_program_of(program: Seq<char>, kind: TerminalKind) -> bool {
    rule_of(kind) matches Some(rule) && rule.program == program
}

/// Whether `program` is the program of an emulator to fall back on.
pub open spec fn is_fallback_program(program: Seq<char>) -> bool {
    ||| is_program_of(program, TerminalKind::GnomeTerminal)
    ||| is_program_of(program, TerminalKind::Konsole)
    ||| is_program_of(program, TerminalKind::Xterm)
}

/// Asks `which::which` whether `program` can be found.
///
/// Trusted, not proved. The call returns for every name, and that is all
/// that is relied on: the answer depends on the search path, the working
/// directory and the files present at the moment of the call, so nothing is
/// said of it, and two calls with one name may differ. The precondition is
/// no demand of `which`: it holds the library to asking about the
/// emulators it falls back on and about nothing else.
#[verifier::external_body]
fn on_search_path(program: &str) -> (found: bool)
    requires
        is_fallback_program(program@),
{
    which::which(program).is_ok()
}

/// The probes with every flag after the first set one cleared.
pub open spec fn first_found_only(probes: FallbackProbes) -> FallbackProbes {
    FallbackProbes {
        gnome_terminal: probes.gnome_terminal,
        konsole: !probes.gnome_terminal && probes.konsole,
        xterm: !probes.gnome_terminal && !probes.konsole && probes.xterm,
    }
}

/// Whether the program of `kind` is found on the search path.
fn is_installed(kind: TerminalKind) -> (found: bool)
    requires
        is_fallback_candidate(kind),
{
    match launch_rule(kind) {
        Some(rule) => on_search_path(rule.program),
        None => false,
    }
}

/// Looks for the emulators to fall back on, in their order of preference,
/// and stops at the first one found. An emulator that was not looked for
/// is recorded as not found, so at most one flag is set.
pub fn probe_fallback_terminals() -> (probes: FallbackProbes)
    ensures
        probes == first_found_only(probes),
{
    let gnome_terminal = is_installed(TerminalKind::GnomeTerminal);
    let konsole = !gnome_terminal && is_installed(TerminalKind::Konsole);
    let xterm = !gnome_terminal && !konsole && is_installed(TerminalKind::Xterm);
    FallbackProbes { gnome_terminal, konsole, xterm }
}

/// Stopping at the first emulator found loses nothing: the flags after it
/// play no part in the choice, nor in the command built from it.
pub proof fn lemma_later_probes_do_not_matter(
    kind: TerminalKind,
    executable: Seq<char>,
    args: Seq<Seq<char>>,
    probes: FallbackProbes,
)
    ensures
        fallback_choice(first_found_only(probes)) == fallback_choice(probes),
        built_command(kind, executable, args, first_found_only(probes)) == built_command(
            kind,
            executable,
            args,
            probes,
        ),
{
}

} // verus!
