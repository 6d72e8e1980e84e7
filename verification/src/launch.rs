//! Planning a launch from start to end.
//!
//! A launch is planned in three steps: tell the terminal emulator from the
//! environment, build the command that opens a new window with it, and
//! detach that command from the launching process. Starting the planned
//! process is left to the caller.

use vstd::prelude::*;
use crate::command::{
    build_terminal_command, build_terminal_command_with_probes, built_command, directory_view,
    outcome_view, LaunchCommand, LaunchCommandView, LaunchError, StreamPolicy,
};
use crate::detect::{detect_terminal_type, detected_kind};
use crate::environment::Environment;
use crate::probe::{first_found_only, nothing_found, FallbackProbes};

verus! {

/// What is to be launched: an executable, by its absolute path, the
/// arguments to hand to it, and the directory to start it in, if that is
/// to differ from the directory of the launching process.
#[derive(Debug, PartialEq, Eq)]
pub struct LaunchRequest {
    pub executable: String,
    pub args: Vec<String>,
    pub cwd: Option<String>,
}

/// A [`LaunchRequest`] as contracts see it.
pub struct LaunchRequestView {
    pub executable: Seq<char>,
    pub args: Seq<Seq<char>>,
    pub cwd: Option<Seq<char>>,
}

impl View for LaunchRequest {
    type V = LaunchRequestView;

    open spec fn view(&self) -> LaunchRequestView {
        LaunchRequestView {
            executable: self.executable@,
            args: self.args.deep_view(),
            cwd: directory_view(self.cwd),
        }
    }
}

/// The command cut loose from the launching process: started in `cwd`
/// where one is given, and with its three streams connected to nothing.
pub open spec fn detached(command: LaunchCommandView, cwd: Option<Seq<char>>) -> LaunchCommandView {
    LaunchCommandView {
        program: command.program,
        args: command.args,
        cwd: match cwd {
            Some(dir) => Some(dir),
            None => command.cwd,
        },
        stdin: StreamPolicy::Discard,
        stdout: StreamPolicy::Discard,
        stderr: StreamPolicy::Discard,
    }
}

/// What planning a launch comes to, given what the probes found.
pub open spec fn planned_launch(
    env: Map<Seq<char>, Seq<char>>,
    request: LaunchRequestView,
    probes: FallbackProbes,
) -> Result<LaunchCommandView, LaunchError> {
    match built_command(detected_kind(env), request.executable, request.args, probes) {
        Ok(command) => Ok(detached(command, request.cwd)),
        Err(error) => Err(error),
    }
}

/// Cuts `command` loose from the launching process.
pub fn detach(command: LaunchCommand, cwd: &Option<String>) -> (ready: LaunchCommand)
    ensures
        ready@ == detached(command@, directory_view(*cwd)),
{
    let mut ready = command;
    if let Some(dir) = cwd {
        ready.cwd = Some(dir.clone());
    }
    ready.stdin = StreamPolicy::Discard;
    ready.stdout = StreamPolicy::Discard;
    ready.stderr = StreamPolicy::Discard;
    ready
}

/// Plans the launch of `request` from a process whose environment is
/// `env`, given what the probes found.
pub fn plan_launch_with_probes(
    env: &Environment,
    request: &LaunchRequest,
    probes: FallbackProbes,
) -> (outcome: Result<LaunchCommand, LaunchError>)
    ensures
        outcome_view(outcome) == planned_launch(env@, request@, probes),
{
    let kind = detect_terminal_type(env);
    match build_terminal_command_with_probes(
        &kind,
        request.executable.as_str(),
        request.args.as_slice(),
        probes,
    ) {
        Ok(command) => Ok(detach(command, &request.cwd)),
        Err(error) => Err(error),
    }
}

/// Plans the launch of `request` from a process whose environment is
/// `env`, looking on the search path where the terminal cannot open the
/// window itself.
///
/// Where the terminal is recognised as one that opens windows, the plan is
/// fixed by `env` and `request`. Otherwise it is that of
/// [`plan_launch_with_probes`] for what was found on the search path.
pub fn plan_launch(env: &Environment, request: &LaunchRequest) -> (outcome: Result<
    LaunchCommand,
    LaunchError,
>)
    ensures
        exists|probes: FallbackProbes|
            probes == first_found_only(probes) && outcome_view(outcome)
                == #[trigger] planned_launch(env@, request@, probes),
        !detected_kind(env@).needs_fallback() ==> outcome_view(outcome) == planned_launch(
            env@,
            request@,
            nothing_found(),
        ),
{
    let kind = detect_terminal_type(env);
    let built = build_terminal_command(
        &kind,
        request.executable.as_str(),
        request.args.as_slice(),
    );
    let ghost found = choose|probes: FallbackProbes|
        probes == first_found_only(probes) && outcome_view(built) == #[trigger] built_command(
            kind,
            request.executable@,
            request.args.deep_view(),
            probes,
        );
    let outcome = match built {
        Ok(command) => Ok(detach(command, &request.cwd)),
        Err(error) => Err(error),
    };
    proof {
        assert(outcome_view(outcome) == planned_launch(env@, request@, found));
    }
    outcome
}

/// Whether all three streams of `command` are discarded.
pub open spec fn is_detached(command: LaunchCommandView) -> bool {
    &&& command.stdin == StreamPolicy::Discard
    &&& command.stdout == StreamPolicy::Discard
    &&& command.stderr == StreamPolicy::Discard
}

/// Whether the arguments of `command` end with the executable of `request`
/// followed by the arguments of `request`, all of them and in their order.
pub open spec fn forwards(command: LaunchCommandView, request: LaunchRequestView) -> bool {
    let own = command.args.len() - request.args.len() - 1;
    &&& own >= 0
    &&& command.args[own] == request.executable
    &&& command.args.skip(own + 1) == request.args
}

/// Every planned launch is detached and hands the request on untouched:
/// the three streams are discarded, the directory is the requested one,
/// and the arguments end with the executable followed by the requested
/// arguments in their order.
pub proof fn lemma_plan_is_detached_and_forwards(
    env: Map<Seq<char>, Seq<char>>,
    request: LaunchRequestView,
    probes: FallbackProbes,
    command: LaunchCommandView,
)
    requires
        planned_launch(env, request, probes) == Ok::<LaunchCommandView, LaunchError>(command),
    ensures
        is_detached(command),
        command.cwd == request.cwd,
        forwards(command, request),
{
    let own = command.args.len() - request.args.len() - 1;
    assert(command.args.skip(own + 1) =~= request.args);
}

/// Planning fails exactly where building the command fails, and with the
/// same error.
pub proof fn lemma_plan_fails_as_building_does(
    env: Map<Seq<char>, Seq<char>>,
    request: LaunchRequestView,
    probes: FallbackProbes,
)
    ensures
        planned_launch(env, request, probes) is Err <==> detected_kind(env).needs_fallback()
            && !probes.gnome_terminal && !probes.konsole && !probes.xterm,
        planned_launch(env, request, probes) matches Err(error) ==> built_command(
            detected_kind(env),
            request.executable,
            request.args,
            probes,
        ) == Err::<LaunchCommandView, LaunchError>(error),
{
}

} // verus!
