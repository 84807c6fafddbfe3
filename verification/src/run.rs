//! The component runner's decisions: which binary to execute and
//! whether a build must come first.

use vstd::prelude::*;

use crate::builder::spec_artifact_path;
use crate::errors::RunError;

verus! {

/// Where the component binary to run comes from.
pub struct ResolvedComponent {
    /// The path of the binary to hand to the runtime host.
    pub path: String,
    /// Whether the build driver must run first to produce it.
    pub needs_build: bool,
}

/// Resolves what to run.  An explicit component path bypasses the
/// build entirely but must exist; otherwise the project is built with
/// the same profile and the expected artifact path is recomputed
/// exactly as the build driver derives it.
pub fn resolve_component(
    explicit: Option<String>,
    explicit_exists: bool,
    project_root: &str,
    release: bool,
    package_name: &str,
) -> (r: Result<ResolvedComponent, RunError>)
    ensures
        explicit matches Some(p) ==> ({
            &&& !explicit_exists ==> r is Err && r->Err_0 == RunError::NotFound
            &&& explicit_exists ==> r is Ok && r->Ok_0.path == p && r->Ok_0.needs_build == false
        }),
        explicit is None ==> r is Ok && r->Ok_0.path@ == spec_artifact_path(
            project_root@,
            release,
            package_name@,
        ) && r->Ok_0.needs_build == true,
{
    match explicit {
        Some(p) => {
            if !explicit_exists {
                Err(RunError::NotFound)
            } else {
                Ok(ResolvedComponent { path: p, needs_build: false })
            }
        },
        None => {
            let path: String = crate::builder::artifact_path(project_root, release, package_name);
            Ok(ResolvedComponent { path, needs_build: true })
        },
    }
}

} // verus!
