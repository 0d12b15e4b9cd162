//! The launcher's settings, and how the command line and the
//! `[backstitch_launcher]` section of `backstitch.cfg` are combined.

use vstd::prelude::*;

verus! {

/// Whether the .NET build of Godot is wanted.
#[derive(Clone, Copy, Debug, PartialEq, Eq, Structural)]
pub enum UseDotnet {
    True,
    False,
    /// Decide from the project's files.
    Auto,
}

/// The launcher's settings. Each is optional; a missing one takes its
/// default where it is used.
#[derive(Debug)]
pub struct CommandConfig {
    /// Whether to download the .NET build of Godot.
    pub dotnet: Option<UseDotnet>,
    /// A download address for Godot to use in place of the official one, as
    /// the URL parser serialised it.
    pub godot_url: Option<String>,
    /// An existing Godot executable to run in place of a download.
    pub godot_path: Option<String>,
    /// Whether pre-releases of Backstitch may be installed.
    pub allow_prerelease: Option<bool>,
}

/// Why the configuration file could not be used.
#[derive(Debug)]
pub enum ConfigError {
    FileReadError(String),
    FileParseError(String),
}

/// `first` where it is set, else `second`.
pub open spec fn prefer<T>(first: Option<T>, second: Option<T>) -> Option<T> {
    if first is Some {
        first
    } else {
        second
    }
}

/// The settings of `command` with those it leaves unset taken from `file`.
pub open spec fn merged(command: CommandConfig, file: Option<CommandConfig>) -> CommandConfig {
    match file {
        None => command,
        Some(f) => CommandConfig {
            dotnet: prefer(command.dotnet, f.dotnet),
            godot_url: prefer(command.godot_url, f.godot_url),
            godot_path: prefer(command.godot_path, f.godot_path),
            allow_prerelease: prefer(command.allow_prerelease, f.allow_prerelease),
        },
    }
}

fn take_preferred<T>(first: Option<T>, second: Option<T>) -> (r: Option<T>)
    ensures
        r == prefer(first, second),
{
    match first {
        Some(v) => Some(v),
        None => second,
    }
}

/// Combines the settings given on the command line with those of the
/// configuration file, if there is one: a setting given on the command line
/// is kept, and each one it leaves unset is taken from the file.
pub fn setup_config(command_config: CommandConfig, file_config: Option<CommandConfig>) -> (r:
    CommandConfig)
    ensures
        r == merged(command_config, file_config),
{
    match file_config {
        None => command_config,
        Some(file) => CommandConfig {
            dotnet: take_preferred(command_config.dotnet, file.dotnet),
            godot_url: take_preferred(command_config.godot_url, file.godot_url),
            godot_path: take_preferred(command_config.godot_path, file.godot_path),
            allow_prerelease: take_preferred(command_config.allow_prerelease, file.allow_prerelease),
        },
    }
}

/// A setting given on the command line takes precedence over the
/// configuration file.
pub proof fn command_line_takes_precedence(command: CommandConfig, file: Option<CommandConfig>)
    ensures
        command.dotnet is Some ==> merged(command, file).dotnet == command.dotnet,
        command.godot_url is Some ==> merged(command, file).godot_url == command.godot_url,
        command.godot_path is Some ==> merged(command, file).godot_path == command.godot_path,
        command.allow_prerelease is Some ==> merged(command, file).allow_prerelease
            == command.allow_prerelease,
{
}

/// A setting that the command line leaves unset is the one in the
/// configuration file.
pub proof fn file_fills_unset_settings(command: CommandConfig, file: CommandConfig)
    ensures
        command.dotnet is None ==> merged(command, Some(file)).dotnet == file.dotnet,
        command.godot_url is None ==> merged(command, Some(file)).godot_url == file.godot_url,
        command.godot_path is None ==> merged(command, Some(file)).godot_path == file.godot_path,
        command.allow_prerelease is None ==> merged(command, Some(file)).allow_prerelease
            == file.allow_prerelease,
{
}

/// Without a configuration file the settings are those of the command line.
pub proof fn no_file_keeps_command_line(command: CommandConfig)
    ensures
        merged(command, None) == command,
{
}

/// Combining with the same configuration file a second time changes nothing.
pub proof fn merging_twice_changes_nothing(command: CommandConfig, file: CommandConfig)
    ensures
        merged(merged(command, Some(file)), Some(file)) == merged(command, Some(file)),
{
}

} // verus!
