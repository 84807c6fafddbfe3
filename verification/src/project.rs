//! The project model: discovering the project root among a directory's
//! ancestors, and the per-project configuration file.

use vstd::prelude::*;

use crate::errors::ConfigError;
use crate::tomlio;

verus! {

/// What one ancestor directory holds, as probed by the embedder: the
/// starting directory first, then each parent in turn.
#[derive(Clone, Copy, PartialEq, Eq, Structural, Debug)]
pub struct DirProbe {
    /// The directory holds a package manifest.
    pub has_manifest: bool,
    /// The directory holds an interface-contract directory.
    pub has_wit: bool,
}

/// Whether a probed directory is a project root: both the manifest and
/// the interface directory are present.
pub open spec fn spec_is_root(p: DirProbe) -> bool {
    p.has_manifest && p.has_wit
}

/// Finds the project root: the nearest ancestor — the probes are
/// ordered from the starting directory upward — holding both a package
/// manifest and an interface-contract directory.  `None` when no
/// ancestor qualifies.
pub fn find_project_root(probes: &Vec<DirProbe>) -> (r: Option<usize>)
    ensures
        r matches Some(i) ==> i < probes@.len() && spec_is_root(probes@[i as int]) && forall|
            j: int,
        | 0 <= j < i ==> !spec_is_root(#[trigger] probes@[j]),
        r is None ==> forall|j: int|
            0 <= j < probes@.len() ==> !spec_is_root(#[trigger] probes@[j]),
{
    let mut i: usize = 0;
    while i < probes.len()
        invariant
            i <= probes@.len(),
            forall|j: int| 0 <= j < i ==> !spec_is_root(#[trigger] probes@[j]),
        decreases probes@.len() - i,
    {
        let p = probes[i];
        if p.has_manifest && p.has_wit {
            return Some(i);
        }
        i += 1;
    }
    None
}

/// A project's identity as declared in its configuration file.
#[derive(Clone, Debug)]
pub struct ProjectConfig {
    pub name: String,
    pub version: String,
}

/// A project's build settings.
#[derive(Clone, Debug)]
pub struct BuildConfig {
    pub target: String,
}

/// A project's runtime limits.
#[derive(Clone, Debug)]
pub struct RuntimeConfig {
    pub memory_limit: String,
}

/// The per-project configuration, read-only once loaded.
#[derive(Clone, Debug)]
pub struct LoopConfig {
    pub project: ProjectConfig,
    pub build: BuildConfig,
    pub runtime: RuntimeConfig,
}

impl LoopConfig {
    /// Parses the project configuration from the text of its file.  It
    /// succeeds exactly when the document parses and declares strings
    /// at `project.name`, `project.version`, `build.target` and
    /// `runtime.memory_limit`, and then returns those four values
    /// unmodified.  No defaults are synthesized: a document that is
    /// malformed or misses any declared field is a parse error.  The
    /// embedder reads the file and reports its absence as the
    /// missing-file error.
    pub fn load(contents: &str) -> (r: Result<LoopConfig, ConfigError>)
        ensures
            r matches Ok(cfg) ==> ({
                &&& tomlio::spec_toml_str_field(contents@, "project"@, "name"@) == Some(
                    cfg.project.name@,
                )
                &&& tomlio::spec_toml_str_field(contents@, "project"@, "version"@) == Some(
                    cfg.project.version@,
                )
                &&& tomlio::spec_toml_str_field(contents@, "build"@, "target"@) == Some(
                    cfg.build.target@,
                )
                &&& tomlio::spec_toml_str_field(contents@, "runtime"@, "memory_limit"@) == Some(
                    cfg.runtime.memory_limit@,
                )
            }),
            (r is Ok) == ({
                &&& tomlio::spec_toml_str_field(contents@, "project"@, "name"@) is Some
                &&& tomlio::spec_toml_str_field(contents@, "project"@, "version"@) is Some
                &&& tomlio::spec_toml_str_field(contents@, "build"@, "target"@) is Some
                &&& tomlio::spec_toml_str_field(contents@, "runtime"@, "memory_limit"@) is Some
            }),
            r is Err ==> r->Err_0 == ConfigError::ParseError,
    {
        let name = match tomlio::toml_str_field(contents, "project", "name") {
            Some(s) => s,
            None => {
                return Err(ConfigError::ParseError);
            },
        };
        let version = match tomlio::toml_str_field(contents, "project", "version") {
            Some(s) => s,
            None => {
                return Err(ConfigError::ParseError);
            },
        };
        let target = match tomlio::toml_str_field(contents, "build", "target") {
            Some(s) => s,
            None => {
                return Err(ConfigError::ParseError);
            },
        };
        let memory_limit = match tomlio::toml_str_field(contents, "runtime", "memory_limit") {
            Some(s) => s,
            None => {
                return Err(ConfigError::ParseError);
            },
        };
        Ok(
            LoopConfig {
                project: ProjectConfig { name, version },
                build: BuildConfig { target },
                runtime: RuntimeConfig { memory_limit },
            },
        )
    }
}

} // verus!
