use spawn_terminal::command::{
    assemble_command, build_terminal_command, build_terminal_command_with_probes, launch_rule,
    select_fallback, LaunchCommand, LaunchError, LaunchRule, StreamPolicy,
};
use spawn_terminal::probe::{probe_fallback_terminals, FallbackProbes};
use spawn_terminal::terminal::TerminalKind;

const EXE: &str = "/usr/local/bin/codex";

fn texts(items: &[&str]) -> Vec<String> {
    items.iter().map(|s| s.to_string()).collect()
}

fn probes(gnome_terminal: bool, konsole: bool, xterm: bool) -> FallbackProbes {
    FallbackProbes { gnome_terminal, konsole, xterm }
}

fn plain(program: &str, args: &[&str]) -> LaunchCommand {
    LaunchCommand {
        program: program.to_string(),
        args: texts(args),
        cwd: None,
        stdin: StreamPolicy::Inherit,
        stdout: StreamPolicy::Inherit,
        stderr: StreamPolicy::Inherit,
    }
}

#[test]
fn only_editor_and_unknown_use_the_fallback() {
    assert!(TerminalKind::VSCode.uses_fallback());
    assert!(TerminalKind::Unknown.uses_fallback());
    assert!(!TerminalKind::Ghostty.uses_fallback());
    assert!(!TerminalKind::Alacritty.uses_fallback());
    assert!(!TerminalKind::Kitty.uses_fallback());
    assert!(!TerminalKind::WezTerm.uses_fallback());
    assert!(!TerminalKind::GnomeTerminal.uses_fallback());
    assert!(!TerminalKind::Konsole.uses_fallback());
    assert!(!TerminalKind::Xterm.uses_fallback());
}

#[test]
fn table_gives_program_and_prefix_of_each_emulator() {
    let rule = |program: &'static str, prefix: Vec<&'static str>| {
        Some(LaunchRule { program, prefix })
    };
    assert_eq!(launch_rule(TerminalKind::Ghostty), rule("ghostty", vec![]));
    assert_eq!(launch_rule(TerminalKind::Alacritty), rule("alacritty", vec!["-e"]));
    assert_eq!(launch_rule(TerminalKind::Kitty), rule("kitty", vec![]));
    assert_eq!(launch_rule(TerminalKind::WezTerm), rule("wezterm", vec!["start", "--"]));
    assert_eq!(launch_rule(TerminalKind::GnomeTerminal), rule("gnome-terminal", vec!["--"]));
    assert_eq!(launch_rule(TerminalKind::Konsole), rule("konsole", vec!["-e"]));
    assert_eq!(launch_rule(TerminalKind::Xterm), rule("xterm", vec!["-e"]));
}

#[test]
fn table_has_no_entry_for_editor_and_unknown() {
    assert_eq!(launch_rule(TerminalKind::VSCode), None);
    assert_eq!(launch_rule(TerminalKind::Unknown), None);
}

#[test]
fn assemble_puts_prefix_executable_and_arguments_in_order() {
    let rule = LaunchRule { program: "wezterm", prefix: vec!["start", "--"] };
    let command = assemble_command(&rule, EXE, &texts(&["chat", "--resume", "chat"]));
    assert_eq!(command, plain("wezterm", &["start", "--", EXE, "chat", "--resume", "chat"]));
}

#[test]
fn assemble_without_prefix_or_arguments_gives_the_executable_alone() {
    let rule = LaunchRule { program: "kitty", prefix: vec![] };
    let command = assemble_command(&rule, EXE, &[]);
    assert_eq!(command, plain("kitty", &[EXE]));
}

#[test]
fn assemble_keeps_arguments_verbatim() {
    let rule = LaunchRule { program: "xterm", prefix: vec!["-e"] };
    let args = texts(&["", " ", "-e", "--", "a b", "ü", "$HOME", "'q'"]);
    let command = assemble_command(&rule, "/opt/my tools/codex", &args);
    assert_eq!(command.program, "xterm");
    assert_eq!(command.args.len(), 10);
    assert_eq!(command.args[0], "-e");
    assert_eq!(command.args[1], "/opt/my tools/codex");
    assert_eq!(&command.args[2..], &args[..]);
}

#[test]
fn direct_kinds_follow_the_table() {
    let args = texts(&["chat", "--resume"]);
    let none = probes(false, false, false);
    let build = |kind: TerminalKind| build_terminal_command_with_probes(&kind, EXE, &args, none);
    assert_eq!(build(TerminalKind::Ghostty), Ok(plain("ghostty", &[EXE, "chat", "--resume"])));
    assert_eq!(
        build(TerminalKind::Alacritty),
        Ok(plain("alacritty", &["-e", EXE, "chat", "--resume"]))
    );
    assert_eq!(build(TerminalKind::Kitty), Ok(plain("kitty", &[EXE, "chat", "--resume"])));
    assert_eq!(
        build(TerminalKind::WezTerm),
        Ok(plain("wezterm", &["start", "--", EXE, "chat", "--resume"]))
    );
    assert_eq!(
        build(TerminalKind::GnomeTerminal),
        Ok(plain("gnome-terminal", &["--", EXE, "chat", "--resume"]))
    );
    assert_eq!(
        build(TerminalKind::Konsole),
        Ok(plain("konsole", &["-e", EXE, "chat", "--resume"]))
    );
    assert_eq!(build(TerminalKind::Xterm), Ok(plain("xterm", &["-e", EXE, "chat", "--resume"])));
}

#[test]
fn direct_kinds_do_not_depend_on_the_probes() {
    let args = texts(&["run"]);
    let kinds = [
        TerminalKind::Ghostty,
        TerminalKind::Alacritty,
        TerminalKind::Kitty,
        TerminalKind::WezTerm,
        TerminalKind::GnomeTerminal,
        TerminalKind::Konsole,
        TerminalKind::Xterm,
    ];
    for kind in kinds {
        let expected =
            build_terminal_command_with_probes(&kind, EXE, &args, probes(false, false, false));
        assert!(expected.is_ok());
        for found in all_probes() {
            assert_eq!(build_terminal_command_with_probes(&kind, EXE, &args, found), expected);
        }
        assert_eq!(build_terminal_command(&kind, EXE, &args), expected);
    }
}

fn all_probes() -> Vec<FallbackProbes> {
    let mut all = Vec::new();
    for gnome_terminal in [false, true] {
        for konsole in [false, true] {
            for xterm in [false, true] {
                all.push(probes(gnome_terminal, konsole, xterm));
            }
        }
    }
    all
}

#[test]
fn select_fallback_prefers_gnome_terminal_then_konsole_then_xterm() {
    assert_eq!(select_fallback(probes(false, false, false)), None);
    assert_eq!(select_fallback(probes(false, false, true)), Some(TerminalKind::Xterm));
    assert_eq!(select_fallback(probes(false, true, false)), Some(TerminalKind::Konsole));
    assert_eq!(select_fallback(probes(false, true, true)), Some(TerminalKind::Konsole));
    assert_eq!(select_fallback(probes(true, false, false)), Some(TerminalKind::GnomeTerminal));
    assert_eq!(select_fallback(probes(true, false, true)), Some(TerminalKind::GnomeTerminal));
    assert_eq!(select_fallback(probes(true, true, false)), Some(TerminalKind::GnomeTerminal));
    assert_eq!(select_fallback(probes(true, true, true)), Some(TerminalKind::GnomeTerminal));
}

#[test]
fn fallback_fails_when_nothing_is_found() {
    let args = texts(&["run"]);
    let none = probes(false, false, false);
    assert_eq!(
        build_terminal_command_with_probes(&TerminalKind::VSCode, EXE, &args, none),
        Err(LaunchError::NoTerminalForVSCode)
    );
    assert_eq!(
        build_terminal_command_with_probes(&TerminalKind::Unknown, EXE, &args, none),
        Err(LaunchError::NoTerminalFound)
    );
}

#[test]
fn fallback_takes_the_only_emulator_found() {
    let args = texts(&["run"]);
    for kind in [TerminalKind::VSCode, TerminalKind::Unknown] {
        assert_eq!(
            build_terminal_command_with_probes(&kind, EXE, &args, probes(true, false, false)),
            Ok(plain("gnome-terminal", &["--", EXE, "run"]))
        );
        assert_eq!(
            build_terminal_command_with_probes(&kind, EXE, &args, probes(false, true, false)),
            Ok(plain("konsole", &["-e", EXE, "run"]))
        );
        assert_eq!(
            build_terminal_command_with_probes(&kind, EXE, &args, probes(false, false, true)),
            Ok(plain("xterm", &["-e", EXE, "run"]))
        );
    }
}

#[test]
fn fallback_prefers_gnome_terminal_over_konsole_over_xterm() {
    let args = texts(&[]);
    for kind in [TerminalKind::VSCode, TerminalKind::Unknown] {
        assert_eq!(
            build_terminal_command_with_probes(&kind, EXE, &args, probes(true, true, false)),
            Ok(plain("gnome-terminal", &["--", EXE]))
        );
        assert_eq!(
            build_terminal_command_with_probes(&kind, EXE, &args, probes(true, false, true)),
            Ok(plain("gnome-terminal", &["--", EXE]))
        );
        assert_eq!(
            build_terminal_command_with_probes(&kind, EXE, &args, probes(false, true, true)),
            Ok(plain("konsole", &["-e", EXE]))
        );
        assert_eq!(
            build_terminal_command_with_probes(&kind, EXE, &args, probes(true, true, true)),
            Ok(plain("gnome-terminal", &["--", EXE]))
        );
    }
}

#[test]
fn fallback_builds_the_command_of_the_emulator_chosen() {
    let args = texts(&["a", "b"]);
    for found in all_probes() {
        if let Some(host) = select_fallback(found) {
            let direct = build_terminal_command_with_probes(&host, EXE, &args, found);
            for kind in [TerminalKind::VSCode, TerminalKind::Unknown] {
                assert_eq!(build_terminal_command_with_probes(&kind, EXE, &args, found), direct);
            }
        }
    }
}

#[test]
fn messages_tell_the_two_failures_apart() {
    assert_eq!(
        LaunchError::NoTerminalForVSCode.message(),
        "No suitable terminal emulator found for VS Code environment"
    );
    assert_eq!(LaunchError::NoTerminalFound.message(), "No suitable terminal emulator found");
}

#[test]
fn probing_stops_at_the_first_emulator_found() {
    let found = probe_fallback_terminals();
    let set = [found.gnome_terminal, found.konsole, found.xterm].iter().filter(|f| **f).count();
    assert!(set <= 1);
}

#[test]
fn building_on_this_machine_agrees_with_what_probing_finds() {
    let args = texts(&["chat"]);
    for kind in [TerminalKind::VSCode, TerminalKind::Unknown] {
        let found = probe_fallback_terminals();
        assert_eq!(
            build_terminal_command(&kind, EXE, &args),
            build_terminal_command_with_probes(&kind, EXE, &args, found)
        );
    }
}

#[test]
fn building_on_this_machine_fails_or_uses_a_fallback_emulator() {
    let args = texts(&["chat"]);
    match build_terminal_command(&TerminalKind::VSCode, EXE, &args) {
        Err(error) => assert_eq!(error, LaunchError::NoTerminalForVSCode),
        Ok(command) => {
            assert!(["gnome-terminal", "konsole", "xterm"].contains(&command.program.as_str()));
            assert_eq!(command.args[command.args.len() - 2], EXE);
            assert_eq!(command.args[command.args.len() - 1], "chat");
        }
    }
    match build_terminal_command(&TerminalKind::Unknown, EXE, &args) {
        Err(error) => assert_eq!(error, LaunchError::NoTerminalFound),
        Ok(command) => {
            assert!(["gnome-terminal", "konsole", "xterm"].contains(&command.program.as_str()));
        }
    }
}
