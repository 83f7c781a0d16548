//! The parsed command surface: which profile is selected and which operation
//! runs. Argument parsing itself lives outside the library; these types hold
//! its result as plain values.

use vstd::prelude::*;

verus! {

/// A whole invocation: an optional profile selection and one command.
pub struct Cli {
    /// Selects a profile by name; `None` selects the registry's default.
    pub profile: Option<String>,
    pub command: Commands,
}

/// The top-level commands.
pub enum Commands {
    /// List, add, or remove profiles; no subcommand lists them.
    Profile { subcommand: Option<EditProfile> },
    /// List, add, or remove paths of the selected profile; no subcommand
    /// lists them.
    Path { subcommand: Option<AddRemovePath> },
    /// View, set, or clear the selected profile's prefix; no subcommand
    /// views it.
    Prefix { subcommand: Option<SetClear> },
    /// Render a shell script that runs the given command at every path of
    /// the selected profile.
    MakeCommand { shell_command: Vec<String> },
}

/// Operations on the profile registry.
pub enum EditProfile {
    Add { default: bool, name: String },
    Remove { name: String },
    SetDefault { name: String },
}

/// Operations on a profile's path list.
pub enum AddRemovePath {
    Add { force: bool, add_relative: bool, path: String },
    Remove { path: String },
}

/// Operations on a profile's prefix.
pub enum SetClear {
    SetValue { value: String },
    Clear,
}

} // verus!
