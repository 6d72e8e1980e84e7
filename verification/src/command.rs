//! Building the command line that opens a new terminal window.
//!
//! Each emulator has its own way of being told what to run. The table of
//! these ways is [`rule_of`]; a command is the emulator's program, the
//! arguments the emulator wants first, the executable to run and, after it,
//! the arguments forwarded to that executable, untouched.

use vstd::prelude::*;
use crate::probe::{
    first_found_only, is_fallback_candidate, nothing_found, probe_fallback_terminals,
    FallbackProbes,
};
use crate::terminal::TerminalKind;

verus! {

/// What becomes of one standard stream of the process to launch.
#[derive(Clone, Copy, Debug, PartialEq, Eq, Structural)]
pub enum StreamPolicy {
    /// The stream of the launching process is passed on.
    Inherit,
    /// The stream is connected to nothing.
    Discard,
}

/// Why no command could be built. Both variants mean that no terminal
/// emulator was found to open the window; they differ in where the search
/// started, and so in their message.
#[derive(Clone, Copy, Debug, PartialEq, Eq, Structural)]
pub enum LaunchError {
    /// Inside the editor's terminal, no emulator was found outside it.
    NoTerminalForVSCode,
    /// The terminal was not recognised and no common emulator was found.
    NoTerminalFound,
}

impl LaunchError {
    /// The message of the error, as text.
    pub open spec fn message_text(self) -> Seq<char> {
        match self {
            LaunchError::NoTerminalForVSCode => {
                "No suitable terminal emulator found for VS Code environment"@
            },
            LaunchError::NoTerminalFound => "No suitable terminal emulator found"@,
        }
    }

    /// A message for the person who asked for the launch.
    pub fn message(&self) -> (text: &'static str)
        ensures
            text@ == self.message_text(),
    {
        match self {
            LaunchError::NoTerminalForVSCode => {
                "No suitable terminal emulator found for VS Code environment"
            },
            LaunchError::NoTerminalFound => "No suitable terminal emulator found",
        }
    }
}

/// How one emulator is started: its program and what it wants before the
/// executable it is to run.
#[derive(Debug, PartialEq, Eq)]
pub struct LaunchRule {
    pub program: &'static str,
    pub prefix: Vec<&'static str>,
}

/// A [`LaunchRule`] as contracts see it.
pub struct LaunchRuleView {
    pub program: Seq<char>,
    pub prefix: Seq<Seq<char>>,
}

impl View for LaunchRule {
    type V = LaunchRuleView;

    open spec fn view(&self) -> LaunchRuleView {
        LaunchRuleView { program: self.program@, prefix: self.prefix.deep_view() }
    }
}

/// A process to start: a program, its arguments in order, the directory to
/// start it in (if not that of the launching process), and what becomes of
/// its three standard streams.
#[derive(Debug, PartialEq, Eq)]
pub struct LaunchCommand {
    pub program: String,
    pub args: Vec<String>,
    pub cwd: Option<String>,
    pub stdin: StreamPolicy,
    pub stdout: StreamPolicy,
    pub stderr: StreamPolicy,
}

/// A directory that may be missing, as contracts see it.
pub open spec fn directory_view(dir: Option<String>) -> Option<Seq<char>> {
    match dir {
        Some(path) => Some(path@),
        None => None,
    }
}

/// A [`LaunchCommand`] as contracts see it.
pub struct LaunchCommandView {
    pub program: Seq<char>,
    pub args: Seq<Seq<char>>,
    pub cwd: Option<Seq<char>>,
    pub stdin: StreamPolicy,
    pub stdout: StreamPolicy,
    pub stderr: StreamPolicy,
}

impl View for LaunchCommand {
    type V = LaunchCommandView;

    open spec fn view(&self) -> LaunchCommandView {
        LaunchCommandView {
            program: self.program@,
            args: self.args.deep_view(),
            cwd: directory_view(self.cwd),
            stdin: self.stdin,
            stdout: self.stdout,
            stderr: self.stderr,
        }
    }
}

/// The table of emulators: how each kind that can open a window is started.
/// The editor's terminal and an unrecognised one have no entry.
pub open spec fn rule_of(kind: TerminalKind) -> Option<LaunchRuleView> {
    match kind {
        TerminalKind::Ghostty => Some(LaunchRuleView { program: "ghostty"@, prefix: seq![] }),
        TerminalKind::Alacritty => Some(
            LaunchRuleView { program: "alacritty"@, prefix: seq!["-e"@] },
        ),
        TerminalKind::Kitty => Some(LaunchRuleView { program: "kitty"@, prefix: seq![] }),
        TerminalKind::WezTerm => Some(
            LaunchRuleView { program: "wezterm"@, prefix: seq!["start"@, "--"@] },
        ),
        TerminalKind::GnomeTerminal => Some(
            LaunchRuleView { program: "gnome-terminal"@, prefix: seq!["--"@] },
        ),
        TerminalKind::Konsole => Some(LaunchRuleView { program: "konsole"@, prefix: seq!["-e"@] }),
        TerminalKind::Xterm => Some(LaunchRuleView { program: "xterm"@, prefix: seq!["-e"@] }),
        TerminalKind::VSCode | TerminalKind::Unknown => None,
    }
}

/// The emulator to fall back on: GNOME Terminal before Konsole before
/// xterm, and none where none was found.
pub open spec fn fallback_choice(probes: FallbackProbes) -> Option<TerminalKind> {
    if probes.gnome_terminal {
        Some(TerminalKind::GnomeTerminal)
    } else if probes.konsole {
        Some(TerminalKind::Konsole)
    } else if probes.xterm {
        Some(TerminalKind::Xterm)
    } else {
        None
    }
}

/// The rule by which a launch from `kind` goes: the kind's own, and for a
/// kind without one that of the emulator fallen back on.
pub open spec fn resolved_rule(kind: TerminalKind, probes: FallbackProbes) -> Option<
    LaunchRuleView,
> {
    match rule_of(kind) {
        Some(rule) => Some(rule),
        None => match fallback_choice(probes) {
            Some(host) => rule_of(host),
            None => None,
        },
    }
}

/// The command that `rule` makes of an executable and the arguments
/// forwarded to it. The directory and the streams are left as they are.
pub open spec fn command_of(
    rule: LaunchRuleView,
    executable: Seq<char>,
    args: Seq<Seq<char>>,
) -> LaunchCommandView {
    plain_command(rule.program, rule.prefix + seq![executable] + args)
}

/// The command that runs `program` with `args` and leaves the directory
/// and the streams as they are.
pub open spec fn plain_command(program: Seq<char>, args: Seq<Seq<char>>) -> LaunchCommandView {
    LaunchCommandView {
        program,
        args,
        cwd: None,
        stdin: StreamPolicy::Inherit,
        stdout: StreamPolicy::Inherit,
        stderr: StreamPolicy::Inherit,
    }
}

/// The error of a launch from `kind` that found no emulator.
pub open spec fn not_found(kind: TerminalKind) -> LaunchError {
    if kind == TerminalKind::VSCode {
        LaunchError::NoTerminalForVSCode
    } else {
        LaunchError::NoTerminalFound
    }
}

/// What building a command comes to, given what the probes found.
pub open spec fn built_command(
    kind: TerminalKind,
    executable: Seq<char>,
    args: Seq<Seq<char>>,
    probes: FallbackProbes,
) -> Result<LaunchCommandView, LaunchError> {
    match resolved_rule(kind, probes) {
        Some(rule) => Ok(command_of(rule, executable, args)),
        None => Err(not_found(kind)),
    }
}

/// A rule that may be missing, as contracts see it.
pub open spec fn rule_view(rule: Option<LaunchRule>) -> Option<LaunchRuleView> {
    match rule {
        Some(r) => Some(r@),
        None => None,
    }
}

/// The outcome of building a command, as contracts see it.
pub open spec fn outcome_view(outcome: Result<LaunchCommand, LaunchError>) -> Result<
    LaunchCommandView,
    LaunchError,
> {
    match outcome {
        Ok(command) => Ok(command@),
        Err(error) => Err(error),
    }
}

/// Looks `kind` up in the table of emulators.
pub fn launch_rule(kind: TerminalKind) -> (rule: Option<LaunchRule>)
    ensures
        rule_view(rule) == rule_of(kind),
{
    let rule = match kind {
        TerminalKind::Ghostty => LaunchRule { program: "ghostty", prefix: Vec::new() },
        TerminalKind::Alacritty => LaunchRule { program: "alacritty", prefix: vec!["-e"] },
        TerminalKind::Kitty => LaunchRule { program: "kitty", prefix: Vec::new() },
        TerminalKind::WezTerm => LaunchRule { program: "wezterm", prefix: vec!["start", "--"] },
        TerminalKind::GnomeTerminal => LaunchRule { program: "gnome-terminal", prefix: vec!["--"] },
        TerminalKind::Konsole => LaunchRule { program: "konsole", prefix: vec!["-e"] },
        TerminalKind::Xterm => LaunchRule { program: "xterm", prefix: vec!["-e"] },
        TerminalKind::VSCode | TerminalKind::Unknown => {
            return None;
        },
    };
    proof {
        assert(rule@.prefix =~= rule_of(kind).unwrap().prefix);
    }
    Some(rule)
}

/// Picks the emulator to fall back on from what the probes found.
pub fn select_fallback(probes: FallbackProbes) -> (host: Option<TerminalKind>)
    ensures
        host == fallback_choice(probes),
{
    if probes.gnome_terminal {
        Some(TerminalKind::GnomeTerminal)
    } else if probes.konsole {
        Some(TerminalKind::Konsole)
    } else if probes.xterm {
        Some(TerminalKind::Xterm)
    } else {
        None
    }
}

/// Puts a command together: the rule's program, then its prefix, the
/// executable and the forwarded arguments in their order.
pub fn assemble_command(rule: &LaunchRule, executable: &str, args: &[String]) -> (command:
    LaunchCommand)
    ensures
        command@ == command_of(rule@, executable@, args.deep_view()),
{
    let mut argv: Vec<String> = Vec::new();
    let mut i: usize = 0;
    while i < rule.prefix.len()
        invariant
            i <= rule.prefix.len(),
            argv.deep_view() == rule.prefix.deep_view().take(i as int),
        decreases rule.prefix.len() - i,
    {
        let ghost before = argv.deep_view();
        argv.push(rule.prefix[i].to_owned());
        proof {
            assert(argv.deep_view() =~= before.push(rule.prefix.deep_view()[i as int]));
            assert(rule.prefix.deep_view().take(i + 1) =~= before.push(
                rule.prefix.deep_view()[i as int],
            ));
        }
        i = i + 1;
    }
    proof {
        assert(rule.prefix.deep_view().take(i as int) =~= rule.prefix.deep_view());
    }
    argv.push(executable.to_owned());
    let ghost head = rule.prefix.deep_view() + seq![executable@];
    proof {
        assert(argv.deep_view() =~= head);
    }
    let mut j: usize = 0;
    while j < args.len()
        invariant
            j <= args.len(),
            argv.deep_view() == head + args.deep_view().take(j as int),
        decreases args.len() - j,
    {
        let ghost before = argv.deep_view();
        argv.push(args[j].clone());
        proof {
            assert(argv.deep_view() =~= before.push(args.deep_view()[j as int]));
            assert(head + args.deep_view().take(j + 1) =~= before.push(
                args.deep_view()[j as int],
            ));
        }
        j = j + 1;
    }
    proof {
        assert(args.deep_view().take(j as int) =~= args.deep_view());
    }
    LaunchCommand {
        program: rule.program.to_owned(),
        args: argv,
        cwd: None,
        stdin: StreamPolicy::Inherit,
        stdout: StreamPolicy::Inherit,
        stderr: StreamPolicy::Inherit,
    }
}

/// Builds the command that opens a new window from a terminal of `kind`,
/// running `executable` with `args`, given what the probes found.
///
/// A kind that can open windows is started by its own rule and the probes
/// play no part. From the editor's terminal or an unrecognised one the
/// window is opened by the emulator fallen back on, and where none was
/// found the call fails.
pub fn build_terminal_command_with_probes(
    kind: &TerminalKind,
    executable: &str,
    args: &[String],
    probes: FallbackProbes,
) -> (outcome: Result<LaunchCommand, LaunchError>)
    ensures
        outcome_view(outcome) == built_command(*kind, executable@, args.deep_view(), probes),
{
    let rule = match launch_rule(*kind) {
        Some(own) => Some(own),
        None => match select_fallback(probes) {
            Some(host) => launch_rule(host),
            None => None,
        },
    };
    match rule {
        Some(rule) => Ok(assemble_command(&rule, executable, args)),
        None => {
            let error = match kind {
                TerminalKind::VSCode => LaunchError::NoTerminalForVSCode,
                _ => LaunchError::NoTerminalFound,
            };
            Err(error)
        },
    }
}

/// Builds the command that opens a new window from a terminal of `kind`,
/// running `executable` with `args`.
///
/// For a kind that can open windows the command is fixed by the table of
/// emulators and the search path is not looked at. For the editor's
/// terminal and an unrecognised one the outcome is that of
/// [`build_terminal_command_with_probes`] for what was found on the search path,
/// which no contract can foretell.
pub fn build_terminal_command(kind: &TerminalKind, executable: &str, args: &[String]) -> (outcome:
    Result<LaunchCommand, LaunchError>)
    ensures
        exists|probes: FallbackProbes|
            probes == first_found_only(probes) && outcome_view(outcome)
                == #[trigger] built_command(*kind, executable@, args.deep_view(), probes),
        !kind.needs_fallback() ==> outcome_view(outcome) == built_command(
            *kind,
            executable@,
            args.deep_view(),
            nothing_found(),
        ),
{
    let probes = if kind.uses_fallback() {
        probe_fallback_terminals()
    } else {
        FallbackProbes { gnome_terminal: false, konsole: false, xterm: false }
    };
    build_terminal_command_with_probes(kind, executable, args, probes)
}

/// The kinds without an entry in the table are exactly those that fall
/// back: the editor's terminal and an unrecognised one.
pub proof fn lemma_fallback_kinds_have_no_rule(kind: TerminalKind)
    ensures
        kind.needs_fallback() <==> rule_of(kind) is None,
{
}

/// An emulator fallen back on is one of the three candidates, and each of
/// them has an entry in the table.
pub proof fn lemma_fallback_host_has_a_rule(probes: FallbackProbes, host: TerminalKind)
    requires
        fallback_choice(probes) == Some(host),
    ensures
        is_fallback_candidate(host),
        rule_of(host) is Some,
{
}

/// In every command the rule's prefix comes first, the executable directly
/// after it, and directly after the executable the forwarded arguments, all
/// of them and in their order.
pub proof fn lemma_command_layout(
    rule: LaunchRuleView,
    executable: Seq<char>,
    args: Seq<Seq<char>>,
)
    ensures
        command_of(rule, executable, args).program == rule.program,
        command_of(rule, executable, args).args.len() == rule.prefix.len() + 1 + args.len(),
        command_of(rule, executable, args).args.take(rule.prefix.len() as int) == rule.prefix,
        command_of(rule, executable, args).args[rule.prefix.len() as int] == executable,
        command_of(rule, executable, args).args.skip(rule.prefix.len() as int + 1) == args,
{
    let built = command_of(rule, executable, args).args;
    assert(built.take(rule.prefix.len() as int) =~= rule.prefix);
    assert(built.skip(rule.prefix.len() as int + 1) =~= args);
}

/// A kind that can open windows is started by its own program with its own
/// prefix, whatever the probes found.
pub proof fn lemma_direct_kinds_follow_table(
    executable: Seq<char>,
    args: Seq<Seq<char>>,
    probes: FallbackProbes,
)
    ensures
        built_command(TerminalKind::Ghostty, executable, args, probes) == Ok::<
            LaunchCommandView,
            LaunchError,
        >(plain_command("ghostty"@, seq![executable] + args)),
        built_command(TerminalKind::Alacritty, executable, args, probes) == Ok::<
            LaunchCommandView,
            LaunchError,
        >(plain_command("alacritty"@, seq!["-e"@, executable] + args)),
        built_command(TerminalKind::Kitty, executable, args, probes) == Ok::<
            LaunchCommandView,
            LaunchError,
        >(plain_command("kitty"@, seq![executable] + args)),
        built_command(TerminalKind::WezTerm, executable, args, probes) == Ok::<
            LaunchCommandView,
            LaunchError,
        >(plain_command("wezterm"@, seq!["start"@, "--"@, executable] + args)),
        built_command(TerminalKind::GnomeTerminal, executable, args, probes) == Ok::<
            LaunchCommandView,
            LaunchError,
        >(plain_command("gnome-terminal"@, seq!["--"@, executable] + args)),
        built_command(TerminalKind::Konsole, executable, args, probes) == Ok::<
            LaunchCommandView,
            LaunchError,
        >(plain_command("konsole"@, seq!["-e"@, executable] + args)),
        built_command(TerminalKind::Xterm, executable, args, probes) == Ok::<
            LaunchCommandView,
            LaunchError,
        >(plain_command("xterm"@, seq!["-e"@, executable] + args)),
{
    let none: Seq<Seq<char>> = seq![];
    assert(none + seq![executable] + args =~= seq![executable] + args);
    assert(seq!["-e"@] + seq![executable] + args =~= seq!["-e"@, executable] + args);
    assert(seq!["--"@] + seq![executable] + args =~= seq!["--"@, executable] + args);
    assert(seq!["start"@, "--"@] + seq![executable] + args =~= seq!["start"@, "--"@, executable]
        + args);
}

/// From the editor's terminal and from an unrecognised one, building fails
/// exactly where none of the three emulators was found; no other launch
/// fails.
pub proof fn lemma_failure_means_nothing_found(
    kind: TerminalKind,
    executable: Seq<char>,
    args: Seq<Seq<char>>,
    probes: FallbackProbes,
)
    ensures
        built_command(kind, executable, args, probes) is Err <==> kind.needs_fallback()
            && !probes.gnome_terminal && !probes.konsole && !probes.xterm,
        built_command(kind, executable, args, probes) is Err ==> built_command(
            kind,
            executable,
            args,
            probes,
        ) == Err::<LaunchCommandView, LaunchError>(not_found(kind)),
{
}

/// Where exactly one of the three emulators was found, a launch that falls
/// back runs that one, whichever it is.
pub proof fn lemma_single_fallback_is_chosen(
    kind: TerminalKind,
    executable: Seq<char>,
    args: Seq<Seq<char>>,
    probes: FallbackProbes,
)
    requires
        kind.needs_fallback(),
    ensures
        probes.gnome_terminal && !probes.konsole && !probes.xterm ==> built_command(
            kind,
            executable,
            args,
            probes,
        ) == Ok::<LaunchCommandView, LaunchError>(
            plain_command("gnome-terminal"@, seq!["--"@, executable] + args),
        ),
        !probes.gnome_terminal && probes.konsole && !probes.xterm ==> built_command(
            kind,
            executable,
            args,
            probes,
        ) == Ok::<LaunchCommandView, LaunchError>(
            plain_command("konsole"@, seq!["-e"@, executable] + args),
        ),
        !probes.gnome_terminal && !probes.konsole && probes.xterm ==> built_command(
            kind,
            executable,
            args,
            probes,
        ) == Ok::<LaunchCommandView, LaunchError>(
            plain_command("xterm"@, seq!["-e"@, executable] + args),
        ),
{
    lemma_direct_kinds_follow_table(executable, args, probes);
}

/// Where more than one emulator was found, a launch that falls back runs
/// GNOME Terminal rather than Konsole or xterm, and Konsole rather than
/// xterm.
pub proof fn lemma_fallback_preference(
    kind: TerminalKind,
    executable: Seq<char>,
    args: Seq<Seq<char>>,
    probes: FallbackProbes,
)
    requires
        kind.needs_fallback(),
    ensures
        probes.gnome_terminal ==> fallback_choice(probes) == Some(TerminalKind::GnomeTerminal)
            && built_command(kind, executable, args, probes) == Ok::<
            LaunchCommandView,
            LaunchError,
        >(plain_command("gnome-terminal"@, seq!["--"@, executable] + args)),
        !probes.gnome_terminal && probes.konsole ==> fallback_choice(probes) == Some(
            TerminalKind::Konsole,
        ) && built_command(kind, executable, args, probes) == Ok::<LaunchCommandView, LaunchError>(
            plain_command("konsole"@, seq!["-e"@, executable] + args),
        ),
{
    lemma_direct_kinds_follow_table(executable, args, probes);
}

/// A launch that falls back on an emulator builds the very command that a
/// launch from inside that emulator builds.
pub proof fn lemma_fallback_builds_hosts_command(
    kind: TerminalKind,
    host: TerminalKind,
    executable: Seq<char>,
    args: Seq<Seq<char>>,
    probes: FallbackProbes,
    any: FallbackProbes,
)
    requires
        kind.needs_fallback(),
        fallback_choice(probes) == Some(host),
    ensures
        built_command(kind, executable, args, probes) == built_command(host, executable, args, any),
        built_command(kind, executable, args, probes) is Ok,
{
}

} // verus!
