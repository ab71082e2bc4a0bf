//! The child that a task becomes, and what its end means for the caller.

use crate::shell::{
    config_texts, parse_shell_config, spec_command_flag, spec_fallback_program, spec_resolve,
    spec_uses_default, texts, value_text, Platform,
};
use vstd::prelude::*;

verus! {

/// A child process to start: the program and every argument handed to it.
#[derive(Clone, Debug, PartialEq, Eq)]
pub struct Invocation {
    pub program: String,
    pub args: Vec<String>,
}

impl Invocation {
    /// The program followed by its arguments, as texts.
    pub open spec fn command_line(&self) -> Seq<Seq<char>> {
        seq![self.program@] + texts(self.args@)
    }
}

/// The command line of a task: the configuration in force, then the command
/// as one last argument, untouched.
pub open spec fn spec_command_line(
    command: Seq<char>,
    shell: Option<Seq<Seq<char>>>,
    platform: Platform,
    env_value: Option<Seq<char>>,
) -> Seq<Seq<char>> {
    spec_resolve(shell, platform, env_value).push(command)
}

/// How a child that was started and waited for came to its end.
#[derive(Clone, Copy, Debug, PartialEq, Eq, Structural)]
pub enum ChildExit {
    /// It exited by itself with this code.
    Code(i32),
    /// It was ended from outside and left no code.
    Signal,
}

/// A task succeeds where its child exited with code zero, and only there.
pub open spec fn spec_succeeded(exit: ChildExit) -> bool {
    exit == ChildExit::Code(0)
}

/// The operating system could not start the child or wait for it.
#[derive(Clone, Debug, PartialEq, Eq)]
pub struct SpawnError {
    pub reason: String,
}

/// What precedes the system's own words in a `SpawnError`.
pub open spec fn spec_failure_prefix() -> Seq<char> {
    "Failed to execute command: "@
}

/// Builds the child for `command`: the shell in force, its leading arguments
/// in order, and the command as the last argument.
pub fn plan_task(
    command: String,
    shell: Option<Vec<String>>,
    platform: Platform,
    env_value: Option<String>,
) -> (child: Invocation)
    ensures
        child.command_line() == spec_command_line(
            command@,
            config_texts(shell),
            platform,
            value_text(env_value),
        ),
{
    let ghost resolved = spec_resolve(config_texts(shell), platform, value_text(env_value));
    let (program, mut args) = parse_shell_config(shell, platform, env_value);
    let ghost leading = texts(args@);
    args.push(command);
    assert(texts(args@) =~= leading.push(command@));
    let child = Invocation { program, args };
    assert(child.command_line() =~= resolved.push(command@));
    child
}

/// Whether a child that ended this way counts as a success.
pub fn exit_succeeded(exit: ChildExit) -> (success: bool)
    ensures
        success == spec_succeeded(exit),
{
    match exit {
        ChildExit::Code(code) => code == 0,
        ChildExit::Signal => false,
    }
}

/// The error for a child that could not be started or waited for, from the
/// operating system's description of what went wrong.
pub fn spawn_error(description: &str) -> (error: SpawnError)
    ensures
        error.reason@ == spec_failure_prefix() + description@,
{
    SpawnError { reason: String::from_str("Failed to execute command: ").concat(description) }
}

/// The task's result, from what starting and waiting for the child gave:
/// how it ended, or the operating system's description of the failure.
pub fn task_result(waited: Result<ChildExit, String>) -> (result: Result<bool, SpawnError>)
    ensures
        match waited {
            Ok(exit) => result == Ok::<bool, SpawnError>(spec_succeeded(exit)),
            Err(description) => result is Err && result->Err_0.reason@ == spec_failure_prefix()
                + description@,
        },
{
    match waited {
        Ok(exit) => Ok(exit_succeeded(exit)),
        Err(description) => Err(spawn_error(description.as_str())),
    }
}

/// With a configuration that is not empty, the child's program is its first
/// element, the elements after it follow in order, and the command comes
/// last: nothing is put in between, and neither the platform nor the
/// environment has a say.
pub proof fn lemma_explicit_shell_is_kept(
    command: Seq<char>,
    config: Seq<Seq<char>>,
    platform: Platform,
    env_value: Option<Seq<char>>,
)
    requires
        config.len() > 0,
    ensures
        spec_command_line(command, Some(config), platform, env_value) == config.push(command),
        spec_command_line(command, Some(config), platform, env_value).len() == config.len() + 1,
        spec_command_line(command, Some(config), platform, env_value)[0] == config[0],
        forall|i: int|
            0 <= i < config.len() ==> spec_command_line(
                command,
                Some(config),
                platform,
                env_value,
            )[i] == config[i],
        spec_command_line(command, Some(config), platform, env_value)[config.len() as int]
            == command,
{
}

/// Without a configuration, or with an empty one, the child is the program
/// that the platform's shell variable names, or the platform's fallback where
/// the variable is unset, then the platform's flag, then the command.
pub proof fn lemma_default_shell_is_used(
    command: Seq<char>,
    shell: Option<Seq<Seq<char>>>,
    platform: Platform,
    env_value: Option<Seq<char>>,
)
    requires
        spec_uses_default(shell),
    ensures
        env_value is Some ==> spec_command_line(command, shell, platform, env_value) == seq![
            env_value->Some_0,
            spec_command_flag(platform),
            command,
        ],
        env_value is None ==> spec_command_line(command, shell, platform, env_value) == seq![
            spec_fallback_program(platform),
            spec_command_flag(platform),
            command,
        ],
{
    let line = spec_command_line(command, shell, platform, env_value);
    if env_value is Some {
        assert(line =~= seq![env_value->Some_0, spec_command_flag(platform), command]);
    } else {
        assert(line =~= seq![
            spec_fallback_program(platform),
            spec_command_flag(platform),
            command,
        ]);
    }
}

/// A child that exits with code zero is a success; one that exits with any
/// other code, or leaves no code, is not.
pub proof fn lemma_exit_code_decides(code: i32)
    ensures
        spec_succeeded(ChildExit::Code(code)) == (code == 0),
        !spec_succeeded(ChildExit::Signal),
{
}

} // verus!
