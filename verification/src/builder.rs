//! The build driver's decisions: whether a build may start and what it
//! must fetch first, how the compiler's outcome is judged, the package
//! name read from the manifest, and the exact artifact path a build
//! produces.

use vstd::prelude::*;

use crate::errors::BuildError;
use crate::strutil::push_char;
use crate::tomlio;

verus! {

/// What the build driver does before compiling.
#[derive(Clone, Copy, PartialEq, Eq, Structural, Debug)]
pub struct BuildPlan {
    /// The interface-dependency directory is unpopulated; run the fetch
    /// tool before compiling.
    pub fetch_deps: bool,
}

/// Decides whether a build may start.  Without the compiler tool the
/// build fails outright with an installation hint; with the interface
/// dependencies unpopulated and the fetch tool absent too, it fails
/// rather than attempting the compile.
pub fn plan_build(cargo_present: bool, wit_deps_present: bool, fetch_tool_present: bool) -> (r:
    Result<BuildPlan, BuildError>)
    ensures
        !cargo_present ==> r is Err && r->Err_0 == BuildError::ToolMissing,
        cargo_present && !wit_deps_present && !fetch_tool_present ==> r is Err && r->Err_0
            == BuildError::MissingDependency,
        cargo_present && (wit_deps_present || fetch_tool_present) ==> r is Ok
            && r->Ok_0.fetch_deps == !wit_deps_present,
{
    if !cargo_present {
        return Err(BuildError::ToolMissing);
    }
    if !wit_deps_present && !fetch_tool_present {
        return Err(BuildError::MissingDependency);
    }
    Ok(BuildPlan { fetch_deps: !wit_deps_present })
}

/// Judges the compiler's outcome: a non-zero exit is a failed build
/// whose captured standard error the embedder echoes, and a missing
/// artifact after an apparently successful compile is its own failure.
pub fn interpret_build_output(compile_succeeded: bool, artifact_exists: bool) -> (r: Result<
    (),
    BuildError,
>)
    ensures
        !compile_succeeded ==> r is Err && r->Err_0 == BuildError::BuildFailed,
        compile_succeeded && !artifact_exists ==> r is Err && r->Err_0
            == BuildError::ArtifactMissing,
        compile_succeeded && artifact_exists ==> r is Ok,
{
    if !compile_succeeded {
        return Err(BuildError::BuildFailed);
    }
    if !artifact_exists {
        return Err(BuildError::ArtifactMissing);
    }
    Ok(())
}

/// Reads the declared package name out of manifest text: succeeds
/// exactly when the document parses and holds a string at
/// `package.name`, returning that string unmodified; any failure —
/// unparsable text, no package table, no name, a non-string name — is
/// the parse-error failure.
pub fn get_package_name(manifest_text: &str) -> (r: Result<String, BuildError>)
    ensures
        r matches Ok(s) ==> tomlio::spec_toml_str_field(manifest_text@, "package"@, "name"@)
            == Some(s@),
        (r is Err) == (tomlio::spec_toml_str_field(manifest_text@, "package"@, "name"@) is None),
        r is Err ==> r->Err_0 == BuildError::ParseError,
{
    match tomlio::toml_str_field(manifest_text, "package", "name") {
        Some(s) => Ok(s),
        None => Err(BuildError::ParseError),
    }
}

/// A package name with every hyphen normalized to an underscore, as the
/// compiler names the produced artifact.
pub open spec fn spec_normalize_package(name: Seq<char>) -> Seq<char> {
    name.map(
        |i: int, c: char|
            if c == '-' {
                '_'
            } else {
                c
            },
    )
}

/// Normalizes a package name to the artifact's file stem.
pub fn normalize_package_name(name: &str) -> (r: String)
    ensures
        r@ == spec_normalize_package(name@),
{
    let n: usize = name.unicode_len();
    let mut out: String = String::new();
    let mut i: usize = 0;
    proof {
        assert(out@ =~= spec_normalize_package(name@).subrange(0, 0));
    }
    while i < n
        invariant
            n == name@.len(),
            i <= n,
            out@ == spec_normalize_package(name@).subrange(0, i as int),
        decreases n - i,
    {
        let c: char = name.get_char(i);
        if c == '-' {
            push_char(&mut out, '_');
        } else {
            push_char(&mut out, c);
        }
        proof {
            assert(out@ =~= spec_normalize_package(name@).subrange(0, i as int + 1));
        }
        i += 1;
    }
    proof {
        assert(spec_normalize_package(name@).subrange(0, n as int) =~= spec_normalize_package(
            name@,
        ));
    }
    out
}

/// The path of the artifact a build produces: under the project root,
/// the component target's directory for the chosen profile, and the
/// package name with hyphens normalized to underscores.
pub open spec fn spec_artifact_path(root: Seq<char>, release: bool, pkg: Seq<char>) -> Seq<char> {
    root + "/target/wasm32-wasip2/"@ + (if release {
        "release"@
    } else {
        "debug"@
    }) + "/"@ + spec_normalize_package(pkg) + ".wasm"@
}

/// Derives the expected artifact path from the project root, the
/// profile and the declared package name.
pub fn artifact_path(project_root: &str, release: bool, package_name: &str) -> (r: String)
    ensures
        r@ == spec_artifact_path(project_root@, release, package_name@),
{
    let mut s: String = String::from_str(project_root);
    s.append("/target/wasm32-wasip2/");
    if release {
        s.append("release");
    } else {
        s.append("debug");
    }
    s.append("/");
    let norm: String = normalize_package_name(package_name);
    s.append(norm.as_str());
    s.append(".wasm");
    s
}

} // verus!
