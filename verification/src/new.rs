//! The project scaffolder: validates the project name, decides whether
//! scaffolding may proceed, and produces the exact set of files a new
//! project is made of.  The embedder creates directories and writes the
//! files; every byte it writes is pinned here.

use vstd::prelude::*;

use crate::errors::NewError;
use crate::strutil::spec_valid_name;
use crate::templates;

verus! {

/// One file of a new project: a path relative to the project directory
/// and its full contents.
pub struct ScaffoldFile {
    pub path: String,
    pub contents: String,
}

/// What the scaffolder asks the embedder to do: remove the existing
/// directory first if overwriting was confirmed, then write every file,
/// creating intermediate directories as needed.
pub struct ScaffoldPlan {
    pub remove_existing: bool,
    pub files: Vec<ScaffoldFile>,
}

/// The exact file set of a new project with the given identity:
/// manifest, build configuration, the five interface files, starter
/// source, ignore file, readme and project configuration.
pub open spec fn spec_scaffold_ok(
    files: Seq<ScaffoldFile>,
    name: Seq<char>,
    description: Seq<char>,
    author: Seq<char>,
) -> bool {
    &&& files.len() == 11
    &&& files[0].path@ == "Cargo.toml"@ && files[0].contents@ == templates::spec_cargo_toml(
        name,
        description,
        author,
    )
    &&& files[1].path@ == ".cargo/config.toml"@ && files[1].contents@
        == templates::spec_cargo_config()
    &&& files[2].path@ == "wit/types.wit"@ && files[2].contents@ == templates::spec_types_wit()
    &&& files[3].path@ == "wit/window.wit"@ && files[3].contents@ == templates::spec_window_wit()
    &&& files[4].path@ == "wit/canvas.wit"@ && files[4].contents@ == templates::spec_canvas_wit()
    &&& files[5].path@ == "wit/logging.wit"@ && files[5].contents@
        == templates::spec_logging_wit()
    &&& files[6].path@ == "wit/world.wit"@ && files[6].contents@ == templates::spec_world_wit(
        name,
    )
    &&& files[7].path@ == "src/lib.rs"@ && files[7].contents@ == templates::spec_lib_rs()
    &&& files[8].path@ == ".gitignore"@ && files[8].contents@ == templates::spec_gitignore()
    &&& files[9].path@ == "README.md"@ && files[9].contents@ == templates::spec_readme(name)
    &&& files[10].path@ == "loop.toml"@ && files[10].contents@ == templates::spec_loop_toml(name)
}

/// Renders the full file set of a new project.
pub fn scaffold_files(name: &str, description: &str, author: &str) -> (files: Vec<ScaffoldFile>)
    ensures
        spec_scaffold_ok(files@, name@, description@, author@),
{
    let mut files: Vec<ScaffoldFile> = Vec::new();
    files.push(
        ScaffoldFile {
            path: String::from_str("Cargo.toml"),
            contents: templates::cargo_toml(name, description, author),
        },
    );
    files.push(
        ScaffoldFile {
            path: String::from_str(".cargo/config.toml"),
            contents: String::from_str(templates::cargo_config()),
        },
    );
    files.push(
        ScaffoldFile {
            path: String::from_str("wit/types.wit"),
            contents: String::from_str(templates::types_wit()),
        },
    );
    files.push(
        ScaffoldFile {
            path: String::from_str("wit/window.wit"),
            contents: String::from_str(templates::window_wit()),
        },
    );
    files.push(
        ScaffoldFile {
            path: String::from_str("wit/canvas.wit"),
            contents: String::from_str(templates::canvas_wit()),
        },
    );
    files.push(
        ScaffoldFile {
            path: String::from_str("wit/logging.wit"),
            contents: String::from_str(templates::logging_wit()),
        },
    );
    files.push(
        ScaffoldFile {
            path: String::from_str("wit/world.wit"),
            contents: templates::world_wit(name),
        },
    );
    files.push(
        ScaffoldFile {
            path: String::from_str("src/lib.rs"),
            contents: String::from_str(templates::lib_rs()),
        },
    );
    files.push(
        ScaffoldFile {
            path: String::from_str(".gitignore"),
            contents: String::from_str(templates::gitignore()),
        },
    );
    files.push(
        ScaffoldFile { path: String::from_str("README.md"), contents: templates::readme(name) },
    );
    files.push(
        ScaffoldFile { path: String::from_str("loop.toml"), contents: templates::loop_toml(name) },
    );
    files
}

/// Decides whether scaffolding may proceed and what it writes.  A name
/// with a character outside letters, digits, hyphen and underscore is
/// rejected.  An existing target directory fails outright in
/// non-interactive mode, and interactively only a confirmed overwrite
/// proceeds — by removing the directory first.
pub fn plan_new(
    name: &str,
    description: &str,
    author: &str,
    target_exists: bool,
    non_interactive: bool,
    confirmed_overwrite: bool,
) -> (r: Result<ScaffoldPlan, NewError>)
    ensures
        !spec_valid_name(name@) ==> r is Err && r->Err_0 == NewError::InvalidInput,
        spec_valid_name(name@) && target_exists && non_interactive ==> r is Err && r->Err_0
            == NewError::AlreadyExists,
        spec_valid_name(name@) && target_exists && !non_interactive && !confirmed_overwrite
            ==> r is Err && r->Err_0 == NewError::AlreadyExists,
        spec_valid_name(name@) && (!target_exists || (!non_interactive && confirmed_overwrite))
            ==> r is Ok && r->Ok_0.remove_existing == target_exists && spec_scaffold_ok(
            r->Ok_0.files@,
            name@,
            description@,
            author@,
        ),
{
    if !crate::strutil::is_valid_project_name(name) {
        return Err(NewError::InvalidInput);
    }
    if target_exists && (non_interactive || !confirmed_overwrite) {
        return Err(NewError::AlreadyExists);
    }
    Ok(
        ScaffoldPlan {
            remove_existing: target_exists,
            files: scaffold_files(name, description, author),
        },
    )
}

/// The description synthesized when none is given interactively.
pub fn default_description(name: &str) -> (r: String)
    ensures
        r@ == "A loop-kit application: "@ + name@,
{
    let mut s: String = String::from_str("A loop-kit application: ");
    s.append(name);
    s
}

/// The author synthesized from the operating-system user name, or the
/// literal fallback when no user name is set.
pub fn default_author(user_name: Option<&str>) -> (r: String)
    ensures
        user_name matches Some(u) ==> r@ == u@,
        user_name is None ==> r@ == "author"@,
{
    match user_name {
        Some(u) => String::from_str(u),
        None => String::from_str("author"),
    }
}

/// Law: scaffolding is deterministic — two renderings of the same
/// name, description and author agree file for file, byte for byte, so
/// re-running the scaffolder over a removed directory reproduces it
/// exactly.
pub proof fn lemma_scaffold_deterministic(
    f1: Seq<ScaffoldFile>,
    f2: Seq<ScaffoldFile>,
    n1: Seq<char>,
    n2: Seq<char>,
    d1: Seq<char>,
    d2: Seq<char>,
    a1: Seq<char>,
    a2: Seq<char>,
)
    requires
        spec_scaffold_ok(f1, n1, d1, a1),
        spec_scaffold_ok(f2, n2, d2, a2),
        n1 == n2,
        d1 == d2,
        a1 == a2,
    ensures
        f1.len() == f2.len(),
        forall|i: int|
            0 <= i < f1.len() ==> #[trigger] f1[i].path@ == f2[i].path@ && f1[i].contents@
                == f2[i].contents@,
{
    assert forall|i: int|
        0 <= i < f1.len() implies #[trigger] f1[i].path@ == f2[i].path@ && f1[i].contents@
        == f2[i].contents@ by {
        if i == 0 {
        } else if i == 1 {
        } else if i == 2 {
        } else if i == 3 {
        } else if i == 4 {
        } else if i == 5 {
        } else if i == 6 {
        } else if i == 7 {
        } else if i == 8 {
        } else if i == 9 {
        } else {
            assert(i == 10);
        }
    }
}

} // verus!
