//! Which executable runs a command, and with which leading arguments.

use vstd::prelude::*;

verus! {

/// The family of the target that the process runs on.
#[derive(Clone, Copy, Debug, PartialEq, Eq, Structural)]
pub enum Platform {
    Posix,
    Windows,
}

/// Name of the environment variable that holds the user's shell.
pub open spec fn spec_shell_variable(platform: Platform) -> Seq<char> {
    match platform {
        Platform::Posix => "SHELL"@,
        Platform::Windows => "COMSPEC"@,
    }
}

/// The executable used where the environment names none.
pub open spec fn spec_fallback_program(platform: Platform) -> Seq<char> {
    match platform {
        Platform::Posix => "/bin/sh"@,
        Platform::Windows => "cmd.exe"@,
    }
}

/// The argument that makes the default shell run the string after it.
pub open spec fn spec_command_flag(platform: Platform) -> Seq<char> {
    match platform {
        Platform::Posix => "-c"@,
        Platform::Windows => "/c"@,
    }
}

pub fn shell_variable(platform: Platform) -> (name: &'static str)
    ensures
        name@ == spec_shell_variable(platform),
{
    match platform {
        Platform::Posix => "SHELL",
        Platform::Windows => "COMSPEC",
    }
}

pub fn fallback_program(platform: Platform) -> (program: &'static str)
    ensures
        program@ == spec_fallback_program(platform),
{
    match platform {
        Platform::Posix => "/bin/sh",
        Platform::Windows => "cmd.exe",
    }
}

pub fn command_flag(platform: Platform) -> (flag: &'static str)
    ensures
        flag@ == spec_command_flag(platform),
{
    match platform {
        Platform::Posix => "-c",
        Platform::Windows => "/c",
    }
}

/// The text of each string of a list, in order.
pub open spec fn texts(items: Seq<String>) -> Seq<Seq<char>> {
    Seq::new(items.len(), |i: int| items[i]@)
}

/// A caller's shell configuration as texts, where one was given.
pub open spec fn config_texts(shell: Option<Vec<String>>) -> Option<Seq<Seq<char>>> {
    match shell {
        Some(config) => Some(texts(config@)),
        None => None,
    }
}

/// Whether the platform default stands in for the caller's configuration:
/// none was given, or an empty one.
pub open spec fn spec_uses_default(shell: Option<Seq<Seq<char>>>) -> bool {
    match shell {
        Some(config) => config.len() == 0,
        None => true,
    }
}

/// The platform default: the program that the environment names, else the
/// fallback, followed by the one flag that makes it run a command string.
pub open spec fn spec_default_shell(platform: Platform, env_value: Option<Seq<char>>) -> Seq<
    Seq<char>,
> {
    let program = match env_value {
        Some(value) => value,
        None => spec_fallback_program(platform),
    };
    seq![program, spec_command_flag(platform)]
}

/// The configuration in force: the caller's where it is not empty, else the
/// platform default.
pub open spec fn spec_resolve(
    shell: Option<Seq<Seq<char>>>,
    platform: Platform,
    env_value: Option<Seq<char>>,
) -> Seq<Seq<char>> {
    if spec_uses_default(shell) {
        spec_default_shell(platform, env_value)
    } else {
        shell->Some_0
    }
}

/// The text of an optional string.
pub open spec fn value_text(value: Option<String>) -> Option<Seq<char>> {
    match value {
        Some(text) => Some(text@),
        None => None,
    }
}

/// Tells whether the environment has to be consulted for this configuration.
pub fn uses_default_shell(shell: &Option<Vec<String>>) -> (fallback: bool)
    ensures
        fallback == spec_uses_default(config_texts(*shell)),
{
    match shell {
        Some(config) => config.len() == 0,
        None => true,
    }
}

/// The default shell of `platform`, given what its shell variable holds
/// (`None` where it is unset).
pub fn default_shell(platform: Platform, env_value: Option<String>) -> (config: Vec<String>)
    ensures
        texts(config@) == spec_default_shell(platform, value_text(env_value)),
{
    let program = match env_value {
        Some(value) => value,
        None => String::from_str(fallback_program(platform)),
    };
    let mut config: Vec<String> = Vec::new();
    config.push(program);
    config.push(String::from_str(command_flag(platform)));
    assert(texts(config@) =~= spec_default_shell(platform, value_text(env_value)));
    config
}

/// Copies of the strings of `items` from position `from` on.
fn tail_from(items: &Vec<String>, from: usize) -> (tail: Vec<String>)
    requires
        from <= items.len(),
    ensures
        tail@ == items@.skip(from as int),
{
    let mut tail: Vec<String> = Vec::new();
    let mut i: usize = from;
    while i < items.len()
        invariant
            from <= i <= items.len(),
            tail@ == items@.subrange(from as int, i as int),
        decreases items.len() - i,
    {
        tail.push(items[i].clone());
        i += 1;
        assert(tail@ =~= items@.subrange(from as int, i as int));
    }
    assert(tail@ =~= items@.skip(from as int));
    tail
}

/// Splits the configuration in force into the program and its leading
/// arguments. `env_value` is what the platform's shell variable holds; it is
/// read only where the caller gave no configuration or an empty one.
pub fn parse_shell_config(
    shell: Option<Vec<String>>,
    platform: Platform,
    env_value: Option<String>,
) -> (parsed: (String, Vec<String>))
    ensures
        spec_resolve(config_texts(shell), platform, value_text(env_value)).len() >= 1,
        parsed.0@ == spec_resolve(config_texts(shell), platform, value_text(env_value))[0],
        texts(parsed.1@) == spec_resolve(
            config_texts(shell),
            platform,
            value_text(env_value),
        ).skip(1),
{
    let ghost resolved = spec_resolve(config_texts(shell), platform, value_text(env_value));
    let config = match shell {
        Some(given) => {
            if given.len() == 0 {
                default_shell(platform, env_value)
            } else {
                given
            }
        },
        None => default_shell(platform, env_value),
    };
    assert(texts(config@) == resolved);
    let program = config[0].clone();
    let args = tail_from(&config, 1);
    assert(texts(args@) =~= resolved.skip(1));
    (program, args)
}

} // verus!
