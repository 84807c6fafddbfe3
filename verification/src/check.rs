//! The environment checker: a read-only diagnostic pass over what the
//! embedder probed — tool versions, installed targets, and the layout
//! of the project the command was run in.  Every check reports a line;
//! only hard failures (a missing compiler or build tool, a missing
//! target, a missing interface directory) flip the aggregate to failed,
//! and a failed check never stops the remaining checks from running.

use vstd::prelude::*;

use crate::strutil::{contains_str, spec_contains};

verus! {

/// What the embedder found inside a project directory.
pub struct ProjectProbe {
    /// The project root, for the report.
    pub root: String,
    /// The manifest's text, if the file exists.
    pub manifest_text: Option<String>,
    /// Whether the interface-contract directory exists.
    pub has_wit_dir: bool,
    /// Whether each of the five expected interface files is present,
    /// in the order types, window, canvas, logging, world.
    pub wit_files_present: [bool; 5],
    /// The build-tool configuration's text, if the file exists.
    pub cargo_config_text: Option<String>,
}

/// Everything the environment check inspects, probed by the embedder
/// before the verdict is computed.
pub struct EnvProbe {
    /// The compiler's version line, if the tool is present.
    pub rustc_version: Option<String>,
    /// The build driver's version line, if the tool is present.
    pub cargo_version: Option<String>,
    /// The text listing the toolchain's installed targets, if it could
    /// be queried.
    pub installed_targets: Option<String>,
    /// The project probe, if the command was run inside a project.
    pub project: Option<ProjectProbe>,
}

/// The severity of one report line.
#[derive(Clone, Copy, PartialEq, Eq, Structural, Debug)]
pub enum CheckKind {
    Success,
    Warning,
    Failure,
    Info,
}

/// One line of the report.
pub struct CheckLine {
    pub kind: CheckKind,
    pub text: String,
}

/// The whole report: its lines in order, and the aggregate verdict.
pub struct CheckReport {
    pub lines: Vec<CheckLine>,
    pub all_ok: bool,
}

/// The aggregate outcome.  It fails only on hard problems: a missing
/// compiler or build driver, a readable target list that lacks the
/// component target, or a probed project without its interface
/// directory.  Anything else merely warns.
pub open spec fn spec_all_ok(p: EnvProbe) -> bool {
    &&& p.rustc_version is Some
    &&& p.cargo_version is Some
    &&& (match p.installed_targets {
        Some(t) => spec_contains(t@, "wasm32-wasip2"@),
        None => true,
    })
    &&& (match p.project {
        Some(pr) => pr.has_wit_dir,
        None => true,
    })
}

/// Whether the report holds a line of this kind with this exact text.
pub open spec fn spec_has_line(lines: Seq<CheckLine>, kind: CheckKind, text: Seq<char>) -> bool {
    exists|i: int|
        0 <= i < lines.len() && #[trigger] lines[i].kind == kind && lines[i].text@ == text
}

/// Runs every check over the probe and aggregates the outcome.
#[verifier::rlimit(60)]
pub fn run_checks(probe: &EnvProbe) -> (r: CheckReport)
    ensures
        r.all_ok == spec_all_ok(*probe),
        probe.rustc_version matches Some(v) ==> spec_has_line(
            r.lines@,
            CheckKind::Success,
            "rustc: "@ + v@,
        ),
        probe.rustc_version is None ==> spec_has_line(
            r.lines@,
            CheckKind::Failure,
            "rustc not found"@,
        ),
        probe.cargo_version matches Some(v) ==> spec_has_line(
            r.lines@,
            CheckKind::Success,
            "cargo: "@ + v@,
        ),
        probe.cargo_version is None ==> spec_has_line(
            r.lines@,
            CheckKind::Failure,
            "cargo not found"@,
        ),
        probe.installed_targets matches Some(t) && spec_contains(t@, "wasm32-wasip2"@)
            ==> spec_has_line(r.lines@, CheckKind::Success, "wasm32-wasip2 target installed"@),
        probe.installed_targets matches Some(t) && !spec_contains(t@, "wasm32-wasip2"@)
            ==> spec_has_line(r.lines@, CheckKind::Failure, "wasm32-wasip2 target not installed"@)
            && spec_has_line(r.lines@, CheckKind::Info, "run: rustup target add wasm32-wasip2"@),
        probe.installed_targets is None ==> spec_has_line(
            r.lines@,
            CheckKind::Warning,
            "could not check installed targets"@,
        ),
        probe.project matches Some(pr) && pr.has_wit_dir ==> spec_has_line(
            r.lines@,
            CheckKind::Success,
            "wit directory found"@,
        ),
        probe.project matches Some(pr) && !pr.has_wit_dir ==> spec_has_line(
            r.lines@,
            CheckKind::Failure,
            "wit directory not found"@,
        ),
        probe.project is None ==> spec_has_line(
            r.lines@,
            CheckKind::Info,
            "not in a loop-kit project directory"@,
        ),
{
    let mut lines: Vec<CheckLine> = Vec::new();
    let mut all_ok: bool = true;

    match &probe.rustc_version {
        Some(v) => {
            let mut t: String = String::from_str("rustc: ");
            t.append(v.as_str());
            lines.push(CheckLine { kind: CheckKind::Success, text: t });
        },
        None => {
            lines.push(
                CheckLine { kind: CheckKind::Failure, text: String::from_str("rustc not found") },
            );
            all_ok = false;
        },
    }

    match &probe.cargo_version {
        Some(v) => {
            let mut t: String = String::from_str("cargo: ");
            t.append(v.as_str());
            lines.push(CheckLine { kind: CheckKind::Success, text: t });
        },
        None => {
            lines.push(
                CheckLine { kind: CheckKind::Failure, text: String::from_str("cargo not found") },
            );
            all_ok = false;
        },
    }

    match &probe.installed_targets {
        Some(t) => {
            if contains_str(t.as_str(), "wasm32-wasip2") {
                lines.push(
                    CheckLine {
                        kind: CheckKind::Success,
                        text: String::from_str("wasm32-wasip2 target installed"),
                    },
                );
            } else {
                lines.push(
                    CheckLine {
                        kind: CheckKind::Failure,
                        text: String::from_str("wasm32-wasip2 target not installed"),
                    },
                );
                lines.push(
                    CheckLine {
                        kind: CheckKind::Info,
                        text: String::from_str("run: rustup target add wasm32-wasip2"),
                    },
                );
                all_ok = false;
            }
        },
        None => {
            lines.push(
                CheckLine {
                    kind: CheckKind::Warning,
                    text: String::from_str("could not check installed targets"),
                },
            );
        },
    }

    match &probe.project {
        Some(pr) => {
            let mut t: String = String::from_str("project found at: ");
            t.append(pr.root.as_str());
            lines.push(CheckLine { kind: CheckKind::Success, text: t });

            match &pr.manifest_text {
                Some(m) => {
                    if contains_str(m.as_str(), "cdylib") {
                        lines.push(
                            CheckLine {
                                kind: CheckKind::Success,
                                text: String::from_str("Cargo.toml: crate-type includes cdylib"),
                            },
                        );
                    } else {
                        lines.push(
                            CheckLine {
                                kind: CheckKind::Warning,
                                text: String::from_str(
                                    "Cargo.toml: crate-type should include cdylib",
                                ),
                            },
                        );
                    }
                    if contains_str(m.as_str(), "wit-bindgen") {
                        lines.push(
                            CheckLine {
                                kind: CheckKind::Success,
                                text: String::from_str("Cargo.toml: wit-bindgen dependency found"),
                            },
                        );
                    } else {
                        lines.push(
                            CheckLine {
                                kind: CheckKind::Warning,
                                text: String::from_str(
                                    "Cargo.toml: wit-bindgen dependency not found",
                                ),
                            },
                        );
                    }
                },
                None => {},
            }

            if pr.has_wit_dir {
                lines.push(
                    CheckLine {
                        kind: CheckKind::Success,
                        text: String::from_str("wit directory found"),
                    },
                );
                push_wit_file_line(&mut lines, pr.wit_files_present[0], "wit/types.wit");
                push_wit_file_line(&mut lines, pr.wit_files_present[1], "wit/window.wit");
                push_wit_file_line(&mut lines, pr.wit_files_present[2], "wit/canvas.wit");
                push_wit_file_line(&mut lines, pr.wit_files_present[3], "wit/logging.wit");
                push_wit_file_line(&mut lines, pr.wit_files_present[4], "wit/world.wit");
            } else {
                lines.push(
                    CheckLine {
                        kind: CheckKind::Failure,
                        text: String::from_str("wit directory not found"),
                    },
                );
                all_ok = false;
            }

            match &pr.cargo_config_text {
                Some(c) => {
                    if contains_str(c.as_str(), "wasm32-wasip2") {
                        lines.push(
                            CheckLine {
                                kind: CheckKind::Success,
                                text: String::from_str(".cargo/config.toml: target configured"),
                            },
                        );
                    } else {
                        lines.push(
                            CheckLine {
                                kind: CheckKind::Warning,
                                text: String::from_str(
                                    ".cargo/config.toml: target not configured",
                                ),
                            },
                        );
                    }
                },
                None => {
                    lines.push(
                        CheckLine {
                            kind: CheckKind::Warning,
                            text: String::from_str(".cargo/config.toml not found"),
                        },
                    );
                },
            }
        },
        None => {
            lines.push(
                CheckLine {
                    kind: CheckKind::Info,
                    text: String::from_str("not in a loop-kit project directory"),
                },
            );
        },
    }

    proof {
        let l = lines@;
        match &probe.rustc_version {
            Some(v) => {
                assert(l[0].kind == CheckKind::Success && l[0].text@ == "rustc: "@ + v@);
            },
            None => {
                assert(l[0].kind == CheckKind::Failure && l[0].text@ == "rustc not found"@);
            },
        }
        match &probe.cargo_version {
            Some(v) => {
                assert(l[1].kind == CheckKind::Success && l[1].text@ == "cargo: "@ + v@);
            },
            None => {
                assert(l[1].kind == CheckKind::Failure && l[1].text@ == "cargo not found"@);
            },
        }
        let pb: int = match probe.installed_targets {
            Some(_) => if !spec_contains(probe.installed_targets->0@, "wasm32-wasip2"@) {
                4
            } else {
                3
            },
            None => 3,
        };
        match &probe.installed_targets {
            Some(t) => {
                if spec_contains(t@, "wasm32-wasip2"@) {
                    assert(l[2].kind == CheckKind::Success && l[2].text@
                        == "wasm32-wasip2 target installed"@);
                } else {
                    assert(l[2].kind == CheckKind::Failure && l[2].text@
                        == "wasm32-wasip2 target not installed"@);
                    assert(l[3].kind == CheckKind::Info && l[3].text@
                        == "run: rustup target add wasm32-wasip2"@);
                }
            },
            None => {
                assert(l[2].kind == CheckKind::Warning && l[2].text@
                    == "could not check installed targets"@);
            },
        }
        match &probe.project {
            Some(pr) => {
                let wd: int = if pr.manifest_text is Some {
                    pb + 3
                } else {
                    pb + 1
                };
                if pr.has_wit_dir {
                    assert(l[wd].kind == CheckKind::Success && l[wd].text@
                        == "wit directory found"@);
                } else {
                    assert(l[wd].kind == CheckKind::Failure && l[wd].text@
                        == "wit directory not found"@);
                }
            },
            None => {
                assert(l[pb].kind == CheckKind::Info && l[pb].text@
                    == "not in a loop-kit project directory"@);
            },
        }
    }
    CheckReport { lines, all_ok }
}

/// One report line for one expected interface file.
fn push_wit_file_line(lines: &mut Vec<CheckLine>, present: bool, name: &str)
    ensures
        final(lines)@.len() == old(lines)@.len() + 1,
        forall|i: int| 0 <= i < old(lines)@.len() ==> final(lines)@[i] == old(lines)@[i],
{
    if present {
        let mut t: String = String::from_str(name);
        t.append(" present");
        lines.push(CheckLine { kind: CheckKind::Success, text: t });
    } else {
        let mut t: String = String::from_str(name);
        t.append(" missing");
        lines.push(CheckLine { kind: CheckKind::Warning, text: t });
    }
}

/// Law: a present compiler does not rescue a missing target — with the
/// compiler found and the target list readable but lacking the
/// component target, the aggregate verdict is failed, while both the
/// compiler's success line and the target's failure line stand in the
/// same report.
pub proof fn lemma_check_aggregation(p: EnvProbe, t: Seq<char>)
    requires
        p.rustc_version is Some,
        p.installed_targets matches Some(ts) && ts@ == t,
        !spec_contains(t, "wasm32-wasip2"@),
    ensures
        !spec_all_ok(p),
{
}

} // verus!
