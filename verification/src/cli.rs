//! The command-line vocabulary: the parsed form of each subcommand's
//! arguments, and the process-wide log threshold the global flags set.
//! The embedder parses the raw command line into these values and
//! dispatches on [`Commands`].

use vstd::prelude::*;

use crate::host::LogLevel;

verus! {

/// Arguments of the scaffolder subcommand.
pub struct NewArgs {
    /// The project name; also the default directory name.
    pub name: String,
    /// Where to create the project; defaults to a directory named
    /// after the project under the current directory.
    pub path: Option<String>,
    /// The template to scaffold from.
    pub template: String,
    /// Never prompt; synthesize defaults and fail on conflicts.
    pub non_interactive: bool,
    /// A description, collected interactively when absent.
    pub description: Option<String>,
    /// An author, collected interactively when absent.
    pub author: Option<String>,
}

/// Arguments of the build subcommand.
pub struct BuildArgs {
    /// Build with the release profile.
    pub release: bool,
    /// The project directory; defaults to the discovered project root.
    pub path: Option<String>,
    /// Extra arguments passed through to the compiler invocation.
    pub cargo_args: Vec<String>,
}

/// Arguments of the run subcommand.
pub struct RunArgs {
    /// Build and run with the release profile.
    pub release: bool,
    /// The project directory; defaults to the discovered project root.
    pub path: Option<String>,
    /// An explicit component binary, bypassing the build step.
    pub component: Option<String>,
    /// Verbose logging and reduced optimisation.
    pub debug: bool,
    /// Target frames per second; 0 for unlimited.
    pub fps: u32,
}

/// Arguments of the environment-check subcommand.
pub struct CheckArgs {
    /// The project directory; defaults to the current directory.
    pub path: Option<String>,
}

/// Arguments of the layout-initializer subcommand.
pub struct InitArgs {
    /// The project directory; defaults to the current directory.
    pub path: Option<String>,
    /// Overwrite existing files without prompting.
    pub force: bool,
}

/// Arguments of the watch-loop subcommand.
pub struct DevArgs {
    /// The project directory; defaults to the current directory.
    pub path: Option<String>,
}

/// The subcommands of the front door.
pub enum Commands {
    New(NewArgs),
    Build(BuildArgs),
    Run(RunArgs),
    Check(CheckArgs),
    Init(InitArgs),
    Dev(DevArgs),
}

/// The parsed command line: the global flags and the chosen subcommand.
pub struct Cli {
    /// Raise the log threshold to informational output.
    pub verbose: bool,
    /// Raise the log threshold to debug output.
    pub debug: bool,
    pub command: Commands,
}

/// The process-wide minimum log level the global flags select: warnings
/// by default, informational under verbose, debug under debug — debug
/// winning over verbose.
pub fn log_threshold(verbose: bool, debug: bool) -> (level: LogLevel)
    ensures
        level == (if debug {
            LogLevel::Debug
        } else if verbose {
            LogLevel::Info
        } else {
            LogLevel::Warn
        }),
{
    if debug {
        LogLevel::Debug
    } else if verbose {
        LogLevel::Info
    } else {
        LogLevel::Warn
    }
}

} // verus!
