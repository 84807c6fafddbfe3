//! Tests of the toolkit side: scaffolding, building, checking,
//! initializing, running, watching and the run-loop driver.

use loop_kit::builder::{
    artifact_path, get_package_name, interpret_build_output, normalize_package_name, plan_build,
};
use loop_kit::check::{run_checks, CheckKind, EnvProbe, ProjectProbe};
use loop_kit::cli::log_threshold;
use loop_kit::errors::{BuildError, ConfigError, InitError, NewError, RunError};
use loop_kit::host::{HostState, LogLevel, WindowConfig};
use loop_kit::init::plan_init;
use loop_kit::input::{EventResult, NativeEvent, Point};
use loop_kit::new::{default_author, default_description, plan_new, scaffold_files};
use loop_kit::project::{find_project_root, DirProbe, LoopConfig};
use loop_kit::run::resolve_component;
use loop_kit::runtime::{
    frame_delta_us, present_copy, EventDisposition, Phase, RunDriver, RuntimeConfig,
};
use loop_kit::strutil::{contains_str, ends_with_str, format_size, to_pascal_case, u64_to_string};
use loop_kit::templates;
use loop_kit::watcher::{is_relevant_change, DevWatcher};

#[test]
fn scaffolding_twice_is_byte_identical() {
    let a = scaffold_files("demo", "A demo app", "alice");
    let b = scaffold_files("demo", "A demo app", "alice");
    assert_eq!(a.len(), b.len());
    for (fa, fb) in a.iter().zip(b.iter()) {
        assert_eq!(fa.path, fb.path);
        assert_eq!(fa.contents, fb.contents);
    }
}

#[test]
fn scaffold_contains_the_expected_skeleton() {
    let files = scaffold_files("demo", "A demo app", "alice");
    let paths: Vec<&str> = files.iter().map(|f| f.path.as_str()).collect();
    assert!(paths.contains(&"Cargo.toml"));
    assert!(paths.contains(&".cargo/config.toml"));
    assert!(paths.contains(&"wit/types.wit"));
    assert!(paths.contains(&"wit/window.wit"));
    assert!(paths.contains(&"wit/canvas.wit"));
    assert!(paths.contains(&"wit/logging.wit"));
    assert!(paths.contains(&"wit/world.wit"));
    assert!(paths.contains(&"src/lib.rs"));
    assert!(paths.contains(&".gitignore"));
    assert!(paths.contains(&"README.md"));
    assert!(paths.contains(&"loop.toml"));
    let manifest = &files.iter().find(|f| f.path == "Cargo.toml").unwrap().contents;
    assert!(manifest.contains("name = \"demo\""));
    assert!(manifest.contains("description = \"A demo app\""));
    assert!(manifest.contains("authors = [\"alice\"]"));
    assert!(manifest.contains("cdylib"));
    assert!(manifest.contains("wit-bindgen"));
}

#[test]
fn plan_new_rejects_bad_names_and_existing_targets() {
    assert!(matches!(
        plan_new("bad name!", "d", "a", false, true, false),
        Err(NewError::InvalidInput)
    ));
    assert!(matches!(
        plan_new("demo", "d", "a", true, true, false),
        Err(NewError::AlreadyExists)
    ));
    assert!(matches!(
        plan_new("demo", "d", "a", true, false, false),
        Err(NewError::AlreadyExists)
    ));
    let plan = plan_new("demo", "d", "a", true, false, true).unwrap();
    assert!(plan.remove_existing);
    let plan = plan_new("demo-2_x", "d", "a", false, true, false).unwrap();
    assert!(!plan.remove_existing);
    assert_eq!(plan.files.len(), 11);
}

#[test]
fn synthesized_defaults_follow_the_environment() {
    assert_eq!(default_description("demo"), "A loop-kit application: demo");
    assert_eq!(default_author(Some("alice")), "alice");
    assert_eq!(default_author(None), "author");
}

#[test]
fn template_rendering_substitutes_the_name() {
    let manifest = templates::cargo_toml("my-app", "my description", "me");
    assert!(manifest.contains("name = \"my-app\""));
    assert!(manifest.contains("description = \"my description\""));
    assert!(manifest.contains("authors = [\"me\"]"));
    assert!(templates::world_wit("demo").starts_with("package demo:component;"));
    assert!(templates::readme("demo").starts_with("# demo"));
    assert!(templates::loop_toml("demo").contains("name = \"demo\""));
    assert!(templates::cargo_config().contains("wasm32-wasip2"));
    assert!(templates::lib_rs().contains("wit_bindgen::generate!"));
    assert!(templates::gitignore().contains("/target"));
    assert!(templates::types_wit().contains("record color"));
    assert!(templates::window_wit().contains("request-close"));
    assert!(templates::canvas_wit().contains("fill-circle"));
    assert!(templates::logging_wit().contains("enum level"));
}

#[test]
fn get_template_dir_builds_the_path_or_fails() {
    let r = templates::get_template_dir("/opt/kit", "basic", true).unwrap();
    assert_eq!(r, "/opt/kit/templates/basic");
    assert!(matches!(
        templates::get_template_dir("/opt/kit", "missing", false),
        Err(NewError::TemplateNotFound)
    ));
}

#[test]
fn artifact_paths_normalize_hyphens() {
    let p = artifact_path("/work/proj", true, "my-app");
    assert_eq!(p, "/work/proj/target/wasm32-wasip2/release/my_app.wasm");
    assert!(p.ends_with("/release/my_app.wasm"));
    let p = artifact_path("/work/proj", false, "my-app");
    assert_eq!(p, "/work/proj/target/wasm32-wasip2/debug/my_app.wasm");
    assert!(p.ends_with("/debug/my_app.wasm"));
    assert_eq!(normalize_package_name("a-b-c_d"), "a_b_c_d");
}

#[test]
fn package_name_is_read_from_real_manifest_text() {
    let text = "[package]\nname = \"my-app\"\nversion = \"0.1.0\"\n";
    assert_eq!(get_package_name(text).unwrap(), "my-app");
    assert!(matches!(
        get_package_name("not [ valid toml"),
        Err(BuildError::ParseError)
    ));
    assert!(matches!(
        get_package_name("[dependencies]\nfoo = \"1\"\n"),
        Err(BuildError::ParseError)
    ));
    assert!(matches!(
        get_package_name("[package]\nname = 3\n"),
        Err(BuildError::ParseError)
    ));
}

#[test]
fn build_planning_gates_on_tools_and_dependencies() {
    assert!(matches!(plan_build(false, true, true), Err(BuildError::ToolMissing)));
    assert!(matches!(
        plan_build(true, false, false),
        Err(BuildError::MissingDependency)
    ));
    assert!(!plan_build(true, true, false).unwrap().fetch_deps);
    assert!(plan_build(true, false, true).unwrap().fetch_deps);
    assert!(matches!(
        interpret_build_output(false, false),
        Err(BuildError::BuildFailed)
    ));
    assert!(matches!(
        interpret_build_output(true, false),
        Err(BuildError::ArtifactMissing)
    ));
    assert!(interpret_build_output(true, true).is_ok());
}

#[test]
fn size_formatting_uses_binary_thresholds() {
    assert_eq!(format_size(500), "500 bytes");
    assert_eq!(format_size(1024), "1024 bytes");
    assert_eq!(format_size(1536), "1.50 KB");
    assert_eq!(format_size(2048), "2.00 KB");
    assert_eq!(format_size(1048576), "1024.00 KB");
    assert_eq!(format_size(2 * 1048576 + 1048576 / 2), "2.50 MB");
    // fractions round to the nearest hundredth
    assert_eq!(format_size(1535), "1.50 KB");
    assert_eq!(format_size(1529), "1.49 KB");
    assert_eq!(u64_to_string(0), "0");
    assert_eq!(u64_to_string(9070), "9070");
}

#[test]
fn project_root_is_the_nearest_qualifying_ancestor() {
    let probes = vec![
        DirProbe { has_manifest: true, has_wit: false },
        DirProbe { has_manifest: true, has_wit: true },
        DirProbe { has_manifest: true, has_wit: true },
    ];
    assert_eq!(find_project_root(&probes), Some(1));
    let probes = vec![DirProbe { has_manifest: false, has_wit: false }];
    assert_eq!(find_project_root(&probes), None);
}

#[test]
fn loop_config_parses_the_project_file() {
    let text = "[project]\nname = \"demo\"\nversion = \"0.1.0\"\n\n[build]\ntarget = \"wasm32-wasip2\"\n\n[runtime]\nmemory_limit = \"100MB\"\n";
    let cfg = LoopConfig::load(text).unwrap();
    assert_eq!(cfg.project.name, "demo");
    assert_eq!(cfg.project.version, "0.1.0");
    assert_eq!(cfg.build.target, "wasm32-wasip2");
    assert_eq!(cfg.runtime.memory_limit, "100MB");
    // the scaffolded configuration parses too
    let rendered = templates::loop_toml("demo");
    assert!(LoopConfig::load(rendered.as_str()).is_ok());
    // a missing field is a parse error
    assert!(matches!(
        LoopConfig::load("[project]\nname = \"demo\"\n"),
        Err(ConfigError::ParseError)
    ));
    assert!(matches!(
        LoopConfig::load("not toml ["),
        Err(ConfigError::ParseError)
    ));
}

#[test]
fn init_requires_a_manifest_and_respects_force() {
    assert!(matches!(
        plan_init(false, false, false, false, false, ""),
        Err(InitError::MissingFile)
    ));
    let p = plan_init(true, true, true, false, false, "[lib]\ncrate-type = [\"cdylib\"]\nwit-bindgen = \"0.36\"\n").unwrap();
    assert!(!p.write_wit);
    assert!(!p.write_cargo_config);
    assert!(!p.manifest_needs_lib);
    assert!(!p.manifest_needs_bindgen);
    let p = plan_init(true, true, true, true, false, "").unwrap();
    assert!(p.write_wit);
    assert!(p.write_cargo_config);
    assert!(p.manifest_needs_lib);
    assert!(p.manifest_needs_bindgen);
    let p = plan_init(true, true, false, false, true, "").unwrap();
    assert!(p.write_wit);
    assert!(p.write_cargo_config);
}

#[test]
fn check_reports_compiler_success_target_failure_and_overall_failure() {
    let probe = EnvProbe {
        rustc_version: Some("rustc 1.80.0".to_string()),
        cargo_version: Some("cargo 1.80.0".to_string()),
        installed_targets: Some("x86_64-unknown-linux-gnu\nwasm32-unknown-unknown\n".to_string()),
        project: None,
    };
    let report = run_checks(&probe);
    assert!(!report.all_ok);
    let has = |kind: CheckKind, text: &str| {
        report.lines.iter().any(|l| l.kind == kind && l.text == text)
    };
    assert!(has(CheckKind::Success, "rustc: rustc 1.80.0"));
    assert!(has(CheckKind::Failure, "wasm32-wasip2 target not installed"));
    assert!(has(CheckKind::Info, "run: rustup target add wasm32-wasip2"));
}

#[test]
fn check_passes_with_everything_in_place() {
    let probe = EnvProbe {
        rustc_version: Some("rustc 1.80.0".to_string()),
        cargo_version: Some("cargo 1.80.0".to_string()),
        installed_targets: Some("wasm32-wasip2\n".to_string()),
        project: Some(ProjectProbe {
            root: "/work/demo".to_string(),
            manifest_text: Some(templates::cargo_toml("demo", "a demo", "alice")),
            has_wit_dir: true,
            wit_files_present: [true, true, true, true, true],
            cargo_config_text: Some(templates::cargo_config().to_string()),
        }),
    };
    let report = run_checks(&probe);
    assert!(report.all_ok);
    assert!(report
        .lines
        .iter()
        .any(|l| l.kind == CheckKind::Success && l.text == "wit directory found"));
}

#[test]
fn check_warns_but_does_not_fail_without_rustup() {
    let probe = EnvProbe {
        rustc_version: Some("rustc 1.80.0".to_string()),
        cargo_version: Some("cargo 1.80.0".to_string()),
        installed_targets: None,
        project: None,
    };
    let report = run_checks(&probe);
    assert!(report.all_ok);
    assert!(report
        .lines
        .iter()
        .any(|l| l.kind == CheckKind::Warning && l.text == "could not check installed targets"));
}

#[test]
fn resolve_component_prefers_an_existing_explicit_path() {
    let r = resolve_component(Some("/tmp/x.wasm".to_string()), true, "/p", false, "demo").unwrap();
    assert_eq!(r.path, "/tmp/x.wasm");
    assert!(!r.needs_build);
    assert!(matches!(
        resolve_component(Some("/tmp/x.wasm".to_string()), false, "/p", false, "demo"),
        Err(RunError::NotFound)
    ));
    let r = resolve_component(None, false, "/p", true, "my-app").unwrap();
    assert_eq!(r.path, "/p/target/wasm32-wasip2/release/my_app.wasm");
    assert!(r.needs_build);
}

#[test]
fn three_changes_in_one_window_trigger_one_rebuild() {
    let mut w = DevWatcher::new("/p".to_string());
    w.note_change();
    w.note_change();
    w.note_change();
    assert!(w.poll_tick());
    assert!(!w.poll_tick());
}

#[test]
fn only_source_interface_and_manifest_changes_matter() {
    assert!(is_relevant_change(true, "src/lib.rs"));
    assert!(is_relevant_change(true, "wit/world.wit"));
    assert!(is_relevant_change(true, "Cargo.toml"));
    assert!(!is_relevant_change(true, "target/out.wasm"));
    assert!(!is_relevant_change(false, "src/lib.rs"));
}

#[test]
fn at_most_one_guest_process_is_alive_under_watch() {
    let mut w = DevWatcher::new("/p".to_string());
    assert!(!w.begin_cycle());
    w.mark_spawned();
    assert!(w.begin_cycle());
    assert!(!w.begin_cycle());
}

#[test]
fn driver_initializes_once_then_runs_frames_until_exit() {
    let mut d = RunDriver::new(RuntimeConfig::default());
    assert_eq!(d.config.target_fps, 60);
    assert!(!d.config.debug);
    let mut host = HostState::new();

    // events before the window exists are ignored
    assert_eq!(
        d.on_window_event(&mut host, &NativeEvent::CloseRequested),
        EventDisposition::Ignore
    );

    // the first resume signal initializes, exactly once
    assert!(d.on_resumed());
    assert!(!d.on_resumed());
    d.init_result(true);
    assert_eq!(d.phase, Phase::Running);

    // the first update's delta is never negative
    assert_eq!(frame_delta_us(1_000, 2_500), 1_500);
    assert_eq!(frame_delta_us(2_500, 1_000), 0);

    // a redraw request runs a frame, then keeps repainting
    assert_eq!(
        d.on_window_event(&mut host, &NativeEvent::RedrawRequested),
        EventDisposition::RunFrame
    );
    d.after_frame(true, false);
    assert!(d.should_request_redraw());

    // cursor events keep the stored position in step
    d.on_window_event(&mut host, &NativeEvent::CursorMoved(Point { x: 3, y: 4 }));
    assert_eq!(host.cursor_position(), Some(Point { x: 3, y: 4 }));
    d.on_window_event(&mut host, &NativeEvent::CursorLeft);
    assert_eq!(host.cursor_position(), None);

    // a guest Exit answer terminates the run loop
    d.on_event_result(EventResult::Exit);
    assert!(d.is_terminated());
    assert!(!d.should_request_redraw());
}

#[test]
fn a_failed_event_delivery_terminates() {
    let mut d = RunDriver::new(RuntimeConfig::default());
    d.on_resumed();
    d.init_result(true);
    assert_eq!(d.phase, Phase::Running);
    d.on_event_failed();
    assert!(d.is_terminated());
}

#[test]
fn a_failed_frame_or_exit_request_terminates() {
    let mut d = RunDriver::new(RuntimeConfig::default());
    d.on_resumed();
    d.init_result(true);
    d.after_frame(false, false);
    assert!(d.is_terminated());

    let mut d = RunDriver::new(RuntimeConfig::default());
    d.on_resumed();
    d.init_result(true);
    d.after_frame(true, true);
    assert!(d.is_terminated());

    let mut d = RunDriver::new(RuntimeConfig::default());
    d.on_resumed();
    d.init_result(false);
    assert!(d.is_terminated());
}

#[test]
fn host_state_tracks_window_and_exit_requests() {
    let mut h = HostState::new();
    assert!(!h.should_exit());
    h.configure(WindowConfig {
        title: "My App".to_string(),
        width: 640,
        height: 480,
        resizable: true,
        decorated: true,
        transparent: false,
    });
    let cfg = h.window_config().as_ref().unwrap();
    assert_eq!(cfg.title, "My App");
    assert_eq!(cfg.width, 640);
    h.request_close();
    assert!(h.should_exit());
    h.set_canvas_size(8, 6);
    assert_eq!(h.dimensions(), (8, 6));
    assert_eq!(h.canvas_buffer().len(), 48);
}

#[test]
fn guest_log_calls_keep_level_and_message() {
    let mut h = HostState::new();
    let r = h.log(LogLevel::Warn, "careful".to_string());
    assert_eq!(r.level, LogLevel::Warn);
    assert_eq!(r.message, "careful");
    assert_eq!(h.trace("t".to_string()).level, LogLevel::Trace);
    assert_eq!(h.debug("d".to_string()).level, LogLevel::Debug);
    assert_eq!(h.info("i".to_string()).level, LogLevel::Info);
    assert_eq!(h.warn("w".to_string()).level, LogLevel::Warn);
    assert_eq!(h.error("e".to_string()).level, LogLevel::Error);
}

#[test]
fn present_copies_the_smaller_of_the_two_lengths() {
    let canvas = vec![1u32, 2, 3, 4];
    let mut surface = vec![0u32; 6];
    present_copy(&canvas, &mut surface);
    assert_eq!(surface, vec![1, 2, 3, 4, 0, 0]);
    let mut small = vec![9u32; 2];
    present_copy(&canvas, &mut small);
    assert_eq!(small, vec![1, 2]);
}

#[test]
fn log_threshold_follows_the_global_flags() {
    assert_eq!(log_threshold(false, false), LogLevel::Warn);
    assert_eq!(log_threshold(true, false), LogLevel::Info);
    assert_eq!(log_threshold(false, true), LogLevel::Debug);
    assert_eq!(log_threshold(true, true), LogLevel::Debug);
}

#[test]
fn pascal_case_splits_on_separators() {
    assert_eq!(to_pascal_case("my-app"), "MyApp");
    assert_eq!(to_pascal_case("hello_world"), "HelloWorld");
    assert_eq!(to_pascal_case("demo"), "Demo");
    assert_eq!(to_pascal_case("a2b"), "A2b");
    assert_eq!(to_pascal_case(""), "");
}

#[test]
fn text_helpers_match_their_specifications() {
    assert!(contains_str("crate-type = [\"cdylib\"]", "cdylib"));
    assert!(!contains_str("crate-type", "cdylib"));
    assert!(contains_str("anything", ""));
    assert!(ends_with_str("src/lib.rs", ".rs"));
    assert!(!ends_with_str("src/lib.rs", ".wit"));
}

#[test]
fn error_messages_are_short_sentences() {
    assert_eq!(NewError::AlreadyExists.message(), "directory already exists");
    assert_eq!(BuildError::BuildFailed.message(), "build failed");
    assert_eq!(
        BuildError::ToolMissing.message(),
        "cargo not found; install the Rust toolchain"
    );
}
