//! Recognising the terminal emulator from the environment it sets up.
//!
//! Several emulators set the same general variables, and a terminal started
//! inside another inherits the outer one's markers. Detection therefore goes
//! through a fixed list of rules and stops at the first that applies.

use vstd::prelude::*;
use crate::environment::{
    Environment, ALACRITTY_SOCKET, GHOSTTY_RESOURCES_DIR, GNOME_TERMINAL_SCREEN, KITTY_WINDOW_ID,
    KONSOLE_VERSION, TERM, TERM_PROGRAM, VSCODE_GIT_IPC_HANDLE, WEZTERM_EXECUTABLE,
};
use crate::terminal::TerminalKind;
use crate::text::{eq_ignoring_ascii_case, str_eq_ignore_ascii_case};

verus! {

/// Whether `TERM_PROGRAM` is set to `program`, without regard to case.
pub open spec fn names_program(env: Map<Seq<char>, Seq<char>>, program: Seq<char>) -> bool {
    env.contains_key(TERM_PROGRAM@) && eq_ignoring_ascii_case(env[TERM_PROGRAM@], program)
}

/// Whether `name` is set to exactly `value`.
pub open spec fn holds_value(
    env: Map<Seq<char>, Seq<char>>,
    name: Seq<char>,
    value: Seq<char>,
) -> bool {
    env.contains_key(name) && env[name] == value
}

/// The rules of detection, from the one tried first to the one tried last.
#[derive(Clone, Copy, Debug, PartialEq, Eq, Structural)]
pub enum DetectionRule {
    /// `TERM_PROGRAM` names Ghostty, the editor or WezTerm.
    ProgramName,
    /// The editor's Git integration left its handle, or `TERM_PROGRAM` is
    /// the editor's name as the editor writes it.
    EditorMarker,
    /// Ghostty's resource directory is set.
    GhosttyResources,
    /// WezTerm's program path is set.
    WezTermExecutable,
    /// Kitty's window number is set.
    KittyWindow,
    /// Alacritty's socket is set, or `TERM` is `alacritty`.
    AlacrittyMarker,
    /// Konsole's version is set.
    KonsoleVersion,
    /// GNOME Terminal's screen is set.
    GnomeScreen,
}

impl DetectionRule {
    /// The place of the rule in the order of trial, counted from zero.
    pub open spec fn rank(self) -> nat {
        match self {
            DetectionRule::ProgramName => 0,
            DetectionRule::EditorMarker => 1,
            DetectionRule::GhosttyResources => 2,
            DetectionRule::WezTermExecutable => 3,
            DetectionRule::KittyWindow => 4,
            DetectionRule::AlacrittyMarker => 5,
            DetectionRule::KonsoleVersion => 6,
            DetectionRule::GnomeScreen => 7,
        }
    }

    /// Whether the rule applies in `env`, taken by itself.
    pub open spec fn applies(self, env: Map<Seq<char>, Seq<char>>) -> bool {
        match self {
            DetectionRule::ProgramName => {
                ||| names_program(env, "ghostty"@)
                ||| names_program(env, "vscode"@)
                ||| names_program(env, "wezterm"@)
            },
            DetectionRule::EditorMarker => {
                ||| env.contains_key(VSCODE_GIT_IPC_HANDLE@)
                ||| holds_value(env, TERM_PROGRAM@, "vscode"@)
            },
            DetectionRule::GhosttyResources => env.contains_key(GHOSTTY_RESOURCES_DIR@),
            DetectionRule::WezTermExecutable => env.contains_key(WEZTERM_EXECUTABLE@),
            DetectionRule::KittyWindow => env.contains_key(KITTY_WINDOW_ID@),
            DetectionRule::AlacrittyMarker => {
                ||| env.contains_key(ALACRITTY_SOCKET@)
                ||| holds_value(env, TERM@, "alacritty"@)
            },
            DetectionRule::KonsoleVersion => env.contains_key(KONSOLE_VERSION@),
            DetectionRule::GnomeScreen => env.contains_key(GNOME_TERMINAL_SCREEN@),
        }
    }

    /// The kind that the rule gives where it applies.
    pub open spec fn verdict(self, env: Map<Seq<char>, Seq<char>>) -> TerminalKind {
        match self {
            DetectionRule::ProgramName => {
                if names_program(env, "ghostty"@) {
                    TerminalKind::Ghostty
                } else if names_program(env, "vscode"@) {
                    TerminalKind::VSCode
                } else {
                    TerminalKind::WezTerm
                }
            },
            DetectionRule::EditorMarker => TerminalKind::VSCode,
            DetectionRule::GhosttyResources => TerminalKind::Ghostty,
            DetectionRule::WezTermExecutable => TerminalKind::WezTerm,
            DetectionRule::KittyWindow => TerminalKind::Kitty,
            DetectionRule::AlacrittyMarker => TerminalKind::Alacritty,
            DetectionRule::KonsoleVersion => TerminalKind::Konsole,
            DetectionRule::GnomeScreen => TerminalKind::GnomeTerminal,
        }
    }
}

/// The kind of terminal that `env` belongs to: the verdict of the first
/// rule that applies, and `Unknown` where none does.
pub open spec fn detected_kind(env: Map<Seq<char>, Seq<char>>) -> TerminalKind {
    if DetectionRule::ProgramName.applies(env) {
        DetectionRule::ProgramName.verdict(env)
    } else if DetectionRule::EditorMarker.applies(env) {
        DetectionRule::EditorMarker.verdict(env)
    } else if DetectionRule::GhosttyResources.applies(env) {
        DetectionRule::GhosttyResources.verdict(env)
    } else if DetectionRule::WezTermExecutable.applies(env) {
        DetectionRule::WezTermExecutable.verdict(env)
    } else if DetectionRule::KittyWindow.applies(env) {
        DetectionRule::KittyWindow.verdict(env)
    } else if DetectionRule::AlacrittyMarker.applies(env) {
        DetectionRule::AlacrittyMarker.verdict(env)
    } else if DetectionRule::KonsoleVersion.applies(env) {
        DetectionRule::KonsoleVersion.verdict(env)
    } else if DetectionRule::GnomeScreen.applies(env) {
        DetectionRule::GnomeScreen.verdict(env)
    } else {
        TerminalKind::Unknown
    }
}

/// The names of the variables that detection looks at.
pub open spec fn consulted_names() -> Seq<Seq<char>> {
    seq![
        TERM_PROGRAM@,
        VSCODE_GIT_IPC_HANDLE@,
        GHOSTTY_RESOURCES_DIR@,
        WEZTERM_EXECUTABLE@,
        KITTY_WINDOW_ID@,
        ALACRITTY_SOCKET@,
        TERM@,
        KONSOLE_VERSION@,
        GNOME_TERMINAL_SCREEN@,
    ]
}

/// The names of the variables that detection looks at, for a caller that
/// fills an [`Environment`] from the process it runs in.
pub fn consulted_variables() -> (names: Vec<&'static str>)
    ensures
        names.deep_view() == consulted_names(),
{
    let mut names: Vec<&'static str> = Vec::new();
    names.push(TERM_PROGRAM);
    names.push(VSCODE_GIT_IPC_HANDLE);
    names.push(GHOSTTY_RESOURCES_DIR);
    names.push(WEZTERM_EXECUTABLE);
    names.push(KITTY_WINDOW_ID);
    names.push(ALACRITTY_SOCKET);
    names.push(TERM);
    names.push(KONSOLE_VERSION);
    names.push(GNOME_TERMINAL_SCREEN);
    proof {
        assert(names.deep_view() =~= consulted_names());
    }
    names
}

/// Tells from `env` which terminal emulator the process runs under.
pub fn detect_terminal_type(env: &Environment) -> (kind: TerminalKind)
    ensures
        kind == detected_kind(env@),
{
    if let Some(program) = env.get(TERM_PROGRAM) {
        if str_eq_ignore_ascii_case(program, "ghostty") {
            return TerminalKind::Ghostty;
        }
        if str_eq_ignore_ascii_case(program, "vscode") {
            return TerminalKind::VSCode;
        }
        if str_eq_ignore_ascii_case(program, "wezterm") {
            return TerminalKind::WezTerm;
        }
    }
    if env.is_set(VSCODE_GIT_IPC_HANDLE) || env.has_value(TERM_PROGRAM, "vscode") {
        return TerminalKind::VSCode;
    }
    if env.is_set(GHOSTTY_RESOURCES_DIR) {
        return TerminalKind::Ghostty;
    }
    if env.is_set(WEZTERM_EXECUTABLE) {
        return TerminalKind::WezTerm;
    }
    if env.is_set(KITTY_WINDOW_ID) {
        return TerminalKind::Kitty;
    }
    if env.is_set(ALACRITTY_SOCKET) || env.has_value(TERM, "alacritty") {
        return TerminalKind::Alacritty;
    }
    if env.is_set(KONSOLE_VERSION) {
        return TerminalKind::Konsole;
    }
    if env.is_set(GNOME_TERMINAL_SCREEN) {
        return TerminalKind::GnomeTerminal;
    }
    TerminalKind::Unknown
}

/// Whether `rule` applies in `env` and no rule tried before it does.
pub open spec fn is_first_applicable(rule: DetectionRule, env: Map<Seq<char>, Seq<char>>) -> bool {
    &&& rule.applies(env)
    &&& forall|earlier: DetectionRule| earlier.rank() < rule.rank() ==> !earlier.applies(env)
}

/// A rule that applies decides, unless a rule tried before it applies too:
/// of several markers in one environment only the first in the order of
/// trial counts.
pub proof fn lemma_first_applicable_rule_decides(
    env: Map<Seq<char>, Seq<char>>,
    rule: DetectionRule,
)
    requires
        is_first_applicable(rule, env),
    ensures
        detected_kind(env) == rule.verdict(env),
{
}

/// Detection always ends in the verdict of the first rule that applies, or
/// in `Unknown` where no rule applies.
pub proof fn lemma_detection_is_first_rule_or_unknown(env: Map<Seq<char>, Seq<char>>)
    ensures
        (exists|rule: DetectionRule| #[trigger]
            is_first_applicable(rule, env) && detected_kind(env) == rule.verdict(env)) || (
        detected_kind(env) == TerminalKind::Unknown && forall|rule: DetectionRule|
            !rule.applies(env)),
{
    let first = if DetectionRule::ProgramName.applies(env) {
        DetectionRule::ProgramName
    } else if DetectionRule::EditorMarker.applies(env) {
        DetectionRule::EditorMarker
    } else if DetectionRule::GhosttyResources.applies(env) {
        DetectionRule::GhosttyResources
    } else if DetectionRule::WezTermExecutable.applies(env) {
        DetectionRule::WezTermExecutable
    } else if DetectionRule::KittyWindow.applies(env) {
        DetectionRule::KittyWindow
    } else if DetectionRule::AlacrittyMarker.applies(env) {
        DetectionRule::AlacrittyMarker
    } else if DetectionRule::KonsoleVersion.applies(env) {
        DetectionRule::KonsoleVersion
    } else {
        DetectionRule::GnomeScreen
    };
    if first.applies(env) {
        assert(is_first_applicable(first, env) && detected_kind(env) == first.verdict(env));
    } else {
        assert forall|rule: DetectionRule| !rule.applies(env) by {}
    }
}

/// No rule gives `Xterm`: that emulator is only ever fallen back on.
pub proof fn lemma_detection_never_gives_xterm(env: Map<Seq<char>, Seq<char>>)
    ensures
        detected_kind(env) != TerminalKind::Xterm,
{
}

/// A program name that is recognised decides by itself, whatever other
/// markers the environment holds.
pub proof fn lemma_program_name_outranks_markers(env: Map<Seq<char>, Seq<char>>)
    ensures
        names_program(env, "ghostty"@) ==> detected_kind(env) == TerminalKind::Ghostty,
        !names_program(env, "ghostty"@) && names_program(env, "vscode"@) ==> detected_kind(env)
            == TerminalKind::VSCode,
        !names_program(env, "ghostty"@) && !names_program(env, "vscode"@) && names_program(
            env,
            "wezterm"@,
        ) ==> detected_kind(env) == TerminalKind::WezTerm,
{
}

/// `TERM_PROGRAM` set to the editor's name as the editor writes it is
/// already settled by the program name: the editor's marker rule decides
/// alone only through the handle of the Git integration.
pub proof fn lemma_editor_name_is_settled_by_program_name(env: Map<Seq<char>, Seq<char>>)
    requires
        holds_value(env, TERM_PROGRAM@, "vscode"@),
    ensures
        DetectionRule::ProgramName.applies(env),
        detected_kind(env) == TerminalKind::VSCode,
{
    reveal_strlit("vscode");
    reveal_strlit("ghostty");
    assert(names_program(env, "vscode"@));
    assert(!names_program(env, "ghostty"@));
}

/// In an environment that sets none of the consulted variables the
/// terminal is `Unknown`, whatever else is set.
pub proof fn lemma_unmarked_environment_is_unknown(env: Map<Seq<char>, Seq<char>>)
    requires
        forall|i: int| 0 <= i < consulted_names().len() ==> !env.contains_key(consulted_names()[i]),
    ensures
        detected_kind(env) == TerminalKind::Unknown,
{
    assert(!env.contains_key(consulted_names()[0]));
    assert(!env.contains_key(consulted_names()[1]));
    assert(!env.contains_key(consulted_names()[2]));
    assert(!env.contains_key(consulted_names()[3]));
    assert(!env.contains_key(consulted_names()[4]));
    assert(!env.contains_key(consulted_names()[5]));
    assert(!env.contains_key(consulted_names()[6]));
    assert(!env.contains_key(consulted_names()[7]));
    assert(!env.contains_key(consulted_names()[8]));
}

/// Whether `a` and `b` agree on `name`: it is set in both to one value, or
/// in neither.
pub open spec fn agree_on(
    a: Map<Seq<char>, Seq<char>>,
    b: Map<Seq<char>, Seq<char>>,
    name: Seq<char>,
) -> bool {
    &&& a.contains_key(name) == b.contains_key(name)
    &&& a.contains_key(name) ==> a[name] == b[name]
}

/// Detection depends on the consulted variables alone: two environments
/// that agree on them are told to be the same kind.
pub proof fn lemma_detection_reads_consulted_names_only(
    a: Map<Seq<char>, Seq<char>>,
    b: Map<Seq<char>, Seq<char>>,
)
    requires
        forall|i: int| 0 <= i < consulted_names().len() ==> agree_on(a, b, consulted_names()[i]),
    ensures
        detected_kind(a) == detected_kind(b),
{
    assert(agree_on(a, b, consulted_names()[0]));
    assert(agree_on(a, b, consulted_names()[1]));
    assert(agree_on(a, b, consulted_names()[2]));
    assert(agree_on(a, b, consulted_names()[3]));
    assert(agree_on(a, b, consulted_names()[4]));
    assert(agree_on(a, b, consulted_names()[5]));
    assert(agree_on(a, b, consulted_names()[6]));
    assert(agree_on(a, b, consulted_names()[7]));
    assert(agree_on(a, b, consulted_names()[8]));
}

} // verus!
