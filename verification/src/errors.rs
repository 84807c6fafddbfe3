//! The toolkit's error taxonomy.  Every command propagates the first
//! failure it meets to the front door, which prints it and exits
//! non-zero; the messages here are the human-readable sentences shown.

use vstd::prelude::*;

verus! {

/// Failures of the project scaffolder.
#[derive(Clone, Copy, PartialEq, Eq, Structural, Debug)]
pub enum NewError {
    /// The target directory exists and overwriting was not confirmed.
    AlreadyExists,
    /// The project name holds a character outside letters, digits,
    /// hyphen and underscore.
    InvalidInput,
    /// The named template is not on disk.
    TemplateNotFound,
}

impl NewError {
    /// The sentence shown for this failure.
    pub fn message(&self) -> (m: &'static str)
        ensures
            *self == NewError::AlreadyExists ==> m@ == "directory already exists"@,
            *self == NewError::InvalidInput ==> m@
                == "project names may hold only letters, digits, hyphens and underscores"@,
            *self == NewError::TemplateNotFound ==> m@ == "template not found"@,
    {
        match self {
            NewError::AlreadyExists => "directory already exists",
            NewError::InvalidInput => "project names may hold only letters, digits, hyphens and underscores",
            NewError::TemplateNotFound => "template not found",
        }
    }
}

/// Failures of the build driver.
#[derive(Clone, Copy, PartialEq, Eq, Structural, Debug)]
pub enum BuildError {
    /// The compiler toolchain is not on the system path.
    ToolMissing,
    /// The interface-dependency directory is unpopulated and the fetch
    /// tool is unavailable.
    MissingDependency,
    /// The external compiler exited non-zero.
    BuildFailed,
    /// The expected output file is absent after a successful compile.
    ArtifactMissing,
    /// The project manifest could not be parsed.
    ParseError,
}

impl BuildError {
    /// The sentence shown for this failure.
    pub fn message(&self) -> (m: &'static str)
        ensures
            *self == BuildError::ToolMissing ==> m@
                == "cargo not found; install the Rust toolchain"@,
            *self == BuildError::MissingDependency ==> m@
                == "interface dependencies are missing and wit-deps is not installed"@,
            *self == BuildError::BuildFailed ==> m@ == "build failed"@,
            *self == BuildError::ArtifactMissing ==> m@
                == "expected build artifact was not produced"@,
            *self == BuildError::ParseError ==> m@ == "could not parse the package manifest"@,
    {
        match self {
            BuildError::ToolMissing => "cargo not found; install the Rust toolchain",
            BuildError::MissingDependency => "interface dependencies are missing and wit-deps is not installed",
            BuildError::BuildFailed => "build failed",
            BuildError::ArtifactMissing => "expected build artifact was not produced",
            BuildError::ParseError => "could not parse the package manifest",
        }
    }
}

/// Failures of the component runner.
#[derive(Clone, Copy, PartialEq, Eq, Structural, Debug)]
pub enum RunError {
    /// An explicit component path was given but no file is there.
    NotFound,
    /// The build step that precedes the run failed.
    Build(BuildError),
}

/// Failures of the layout initializer.
#[derive(Clone, Copy, PartialEq, Eq, Structural, Debug)]
pub enum InitError {
    /// The target directory has no package manifest; scaffold a new
    /// project instead.
    MissingFile,
}

/// Failures of the project configuration loader.
#[derive(Clone, Copy, PartialEq, Eq, Structural, Debug)]
pub enum ConfigError {
    /// The configuration file is absent.
    MissingFile,
    /// The configuration file is not well-formed or misses a field.
    ParseError,
}

} // verus!
