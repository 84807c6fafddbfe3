//! The layout initializer: retrofits the toolkit's expected project
//! layout — interface files and build configuration — onto an existing
//! project, and inspects the manifest for the declarations a component
//! project needs.  The manifest itself is never edited automatically;
//! missing declarations only produce guidance.

use vstd::prelude::*;

use crate::errors::InitError;
use crate::strutil::{contains_str, spec_contains};

verus! {

/// What the initializer asks the embedder to do, and what guidance to
/// print about the manifest.
pub struct InitPlan {
    /// Write (or overwrite) the five interface files.
    pub write_wit: bool,
    /// Write (or overwrite) the build-tool configuration.
    pub write_cargo_config: bool,
    /// The manifest lacks the loadable-library crate-type declaration;
    /// print guidance.
    pub manifest_needs_lib: bool,
    /// The manifest lacks the binding-generator dependency; print
    /// guidance.
    pub manifest_needs_bindgen: bool,
}

/// Decides what initializing a project writes.  A directory without a
/// package manifest cannot be initialized — scaffold a new project
/// instead.  An existing interface directory is only overwritten under
/// force or after confirmation; an existing build configuration only
/// under force.
pub fn plan_init(
    has_manifest: bool,
    wit_exists: bool,
    cargo_config_exists: bool,
    force: bool,
    confirmed_overwrite: bool,
    manifest_text: &str,
) -> (r: Result<InitPlan, InitError>)
    ensures
        !has_manifest ==> r is Err && r->Err_0 == InitError::MissingFile,
        has_manifest ==> r is Ok && {
            let p = r->Ok_0;
            &&& p.write_wit == (!wit_exists || force || confirmed_overwrite)
            &&& p.write_cargo_config == (!cargo_config_exists || force)
            &&& p.manifest_needs_lib == !(spec_contains(manifest_text@, "[lib]"@)
                && spec_contains(manifest_text@, "cdylib"@))
            &&& p.manifest_needs_bindgen == !spec_contains(manifest_text@, "wit-bindgen"@)
        },
{
    if !has_manifest {
        return Err(InitError::MissingFile);
    }
    let has_lib: bool = contains_str(manifest_text, "[lib]");
    let has_cdylib: bool = contains_str(manifest_text, "cdylib");
    let has_bindgen: bool = contains_str(manifest_text, "wit-bindgen");
    Ok(
        InitPlan {
            write_wit: !wit_exists || force || confirmed_overwrite,
            write_cargo_config: !cargo_config_exists || force,
            manifest_needs_lib: !(has_lib && has_cdylib),
            manifest_needs_bindgen: !has_bindgen,
        },
    )
}

} // verus!
