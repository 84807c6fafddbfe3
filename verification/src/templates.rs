//! The project templates: the exact file contents the scaffolder and the
//! layout initializer stamp into a project, as pure functions of the
//! project name.
//!
//! Rendering is plain string substitution with no escaping, since the
//! output is source and configuration text, not markup.  Equal inputs
//! render byte-identical output.

use vstd::prelude::*;

verus! {

/// The rendered package manifest for a new project.
pub open spec fn spec_cargo_toml(
    name: Seq<char>,
    description: Seq<char>,
    author: Seq<char>,
) -> Seq<char> {
    "[package]\nname = \""@ + name + "\"\nversion = \"0.1.0\"\nedition = \"2021\"\ndescription = \""@
        + description + "\"\nauthors = [\""@ + author
        + "\"]\n\n[dependencies]\nwit-bindgen = \"0.36\"\n\n[lib]\ncrate-type = [\"cdylib\"]\n\n[profile.release]\nopt-level = \"s\"\nlto = true\n"@
}

/// The package manifest for a new project: the given identity and a
/// dynamically-loadable library crate with a pinned binding-generator
/// dependency.
pub fn cargo_toml(name: &str, description: &str, author: &str) -> (r: String)
    ensures
        r@ == spec_cargo_toml(name@, description@, author@),
{
    let mut s: String = String::from_str("[package]\nname = \"");
    s.append(name);
    s.append("\"\nversion = \"0.1.0\"\nedition = \"2021\"\ndescription = \"");
    s.append(description);
    s.append("\"\nauthors = [\"");
    s.append(author);
    s.append("\"]\n\n[dependencies]\nwit-bindgen = \"0.36\"\n\n[lib]\ncrate-type = [\"cdylib\"]\n\n[profile.release]\nopt-level = \"s\"\nlto = true\n");
    s
}

/// The exact text of [`lib_rs`].
pub open spec fn spec_lib_rs() -> Seq<char> {
    "// Generated bindings from the interface contracts under wit/.\nwit_bindgen::generate!({\n    world: \"app\",\n    path: \"wit\",\n});\n\nuse loop::kit::canvas;\nuse loop::kit::logging;\nuse loop::kit::types::{Color, Rect};\nuse loop::kit::window;\n\nstruct App;\n\nimpl Guest for App {\n    fn init() {\n        logging::info(\"starting up\");\n        window::set_title(\"My Loop-Kit App\");\n    }\n\n    fn update(_delta_us: u64) {}\n\n    fn on_event(_event: Event) -> EventResult {\n        EventResult::Ignored\n    }\n\n    fn render() {\n        canvas::begin_frame(Color { r: 0.1, g: 0.1, b: 0.15, a: 1.0 });\n        canvas::fill_rect(\n            Rect { x: 40.0, y: 40.0, width: 200.0, height: 120.0 },\n            Color { r: 0.2, g: 0.6, b: 0.9, a: 1.0 },\n        );\n        canvas::fill_circle(400.0, 300.0, 60.0, Color { r: 0.9, g: 0.4, b: 0.2, a: 0.8 });\n        canvas::draw_line(0.0, 0.0, 800.0, 600.0, Color { r: 1.0, g: 1.0, b: 1.0, a: 0.5 }, 2.0);\n        canvas::end_frame();\n    }\n}\n\nexport!(App);\n"@
}

/// The starter guest source: the lifecycle exports with example drawing
/// calls.
pub fn lib_rs() -> (r: &'static str)
    ensures
        r@ == spec_lib_rs(),
{
    "// Generated bindings from the interface contracts under wit/.\nwit_bindgen::generate!({\n    world: \"app\",\n    path: \"wit\",\n});\n\nuse loop::kit::canvas;\nuse loop::kit::logging;\nuse loop::kit::types::{Color, Rect};\nuse loop::kit::window;\n\nstruct App;\n\nimpl Guest for App {\n    fn init() {\n        logging::info(\"starting up\");\n        window::set_title(\"My Loop-Kit App\");\n    }\n\n    fn update(_delta_us: u64) {}\n\n    fn on_event(_event: Event) -> EventResult {\n        EventResult::Ignored\n    }\n\n    fn render() {\n        canvas::begin_frame(Color { r: 0.1, g: 0.1, b: 0.15, a: 1.0 });\n        canvas::fill_rect(\n            Rect { x: 40.0, y: 40.0, width: 200.0, height: 120.0 },\n            Color { r: 0.2, g: 0.6, b: 0.9, a: 1.0 },\n        );\n        canvas::fill_circle(400.0, 300.0, 60.0, Color { r: 0.9, g: 0.4, b: 0.2, a: 0.8 });\n        canvas::draw_line(0.0, 0.0, 800.0, 600.0, Color { r: 1.0, g: 1.0, b: 1.0, a: 0.5 }, 2.0);\n        canvas::end_frame();\n    }\n}\n\nexport!(App);\n"
}

/// The rendered world contract for a new project.
pub open spec fn spec_world_wit(name: Seq<char>) -> Seq<char> {
    "package "@ + name + ":component;\n\nworld app {\n    import loop:kit/types;\n    import loop:kit/window;\n    import loop:kit/canvas;\n    import loop:kit/logging;\n\n    export init: func();\n    export update: func(delta-us: u64);\n    export on-event: func(event: loop:kit/types.event) -> loop:kit/types.event-result;\n    export render: func();\n}\n"@
}

/// The world contract binding the capability imports and lifecycle
/// exports for a new project, under the project's own package name.
pub fn world_wit(name: &str) -> (r: String)
    ensures
        r@ == spec_world_wit(name@),
{
    let mut s: String = String::from_str("package ");
    s.append(name);
    s.append(":component;\n\nworld app {\n    import loop:kit/types;\n    import loop:kit/window;\n    import loop:kit/canvas;\n    import loop:kit/logging;\n\n    export init: func();\n    export update: func(delta-us: u64);\n    export on-event: func(event: loop:kit/types.event) -> loop:kit/types.event-result;\n    export render: func();\n}\n");
    s
}

/// The exact text of [`cargo_config`].
pub open spec fn spec_cargo_config() -> Seq<char> {
    "[build]\ntarget = \"wasm32-wasip2\"\n\n[target.wasm32-wasip2]\nrunner = \"loop run\"\n"@
}

/// The build-tool configuration pinning the component target and
/// registering the runner as the target's execution driver.
pub fn cargo_config() -> (r: &'static str)
    ensures
        r@ == spec_cargo_config(),
{
    "[build]\ntarget = \"wasm32-wasip2\"\n\n[target.wasm32-wasip2]\nrunner = \"loop run\"\n"
}

/// The rendered readme for a new project.
pub open spec fn spec_readme(name: Seq<char>) -> Seq<char> {
    "# "@ + name + "\n\nA loop-kit component.\n\n## Building\n\n    loop build\n\n## Running\n\n    loop run\n\n## Development\n\n    loop dev\n\nThis watches for changes and rebuilds automatically.\n"@
}

/// The readme with quick-start instructions for a new project.
pub fn readme(name: &str) -> (r: String)
    ensures
        r@ == spec_readme(name@),
{
    let mut s: String = String::from_str("# ");
    s.append(name);
    s.append("\n\nA loop-kit component.\n\n## Building\n\n    loop build\n\n## Running\n\n    loop run\n\n## Development\n\n    loop dev\n\nThis watches for changes and rebuilds automatically.\n");
    s
}

/// The rendered per-project configuration file.
pub open spec fn spec_loop_toml(name: Seq<char>) -> Seq<char> {
    "[project]\nname = \""@ + name + "\"\nversion = \"0.1.0\"\n\n[build]\ntarget = \"wasm32-wasip2\"\n\n[runtime]\nmemory_limit = \"100MB\"\n"@
}

/// The per-project configuration file: project identity, build target
/// and runtime limits.
pub fn loop_toml(name: &str) -> (r: String)
    ensures
        r@ == spec_loop_toml(name@),
{
    let mut s: String = String::from_str("[project]\nname = \"");
    s.append(name);
    s.append("\"\nversion = \"0.1.0\"\n\n[build]\ntarget = \"wasm32-wasip2\"\n\n[runtime]\nmemory_limit = \"100MB\"\n");
    s
}

/// The exact text of [`gitignore`].
pub open spec fn spec_gitignore() -> Seq<char> {
    "/target\n"@
}

/// The ignore file excluding build output.
pub fn gitignore() -> (r: &'static str)
    ensures
        r@ == spec_gitignore(),
{
    "/target\n"
}

/// The exact text of [`types_wit`].
pub open spec fn spec_types_wit() -> Seq<char> {
    "package loop:kit;\n\ninterface types {\n    record color { r: f32, g: f32, b: f32, a: f32 }\n    record rect { x: f32, y: f32, width: f32, height: f32 }\n    record point { x: f64, y: f64 }\n    record size { width: u32, height: u32 }\n    record window-config {\n        title: string,\n        width: u32,\n        height: u32,\n        resizable: bool,\n        decorated: bool,\n        transparent: bool,\n    }\n    enum key-code { a, b, c, d, e, f, g, h, i, j, k, l, m, n, o, p, q, r, s, t, u, v, w, x, y, z, num0, num1, num2, num3, num4, num5, num6, num7, num8, num9, f1, f2, f3, f4, f5, f6, f7, f8, f9, f10, f11, f12, escape, enter, space, tab, backspace, delete, left, right, up, down, home, end, page-up, page-down, shift, ctrl, alt, super, unknown, }\n    enum mouse-button { left, right, middle, back, forward }\n    variant event {\n        close-requested,\n        resized(size),\n        focused(bool),\n        key-pressed(key-code),\n        key-released(key-code),\n        mouse-moved(point),\n        mouse-entered,\n        mouse-left,\n        mouse-pressed(mouse-button),\n        mouse-released(mouse-button),\n        mouse-scroll(tuple<f64, f64>),\n    }\n    enum event-result { handled, ignored, exit }\n}\n"@
}

/// The shared type definitions of the interface contracts.
pub fn types_wit() -> (r: &'static str)
    ensures
        r@ == spec_types_wit(),
{
    "package loop:kit;\n\ninterface types {\n    record color { r: f32, g: f32, b: f32, a: f32 }\n    record rect { x: f32, y: f32, width: f32, height: f32 }\n    record point { x: f64, y: f64 }\n    record size { width: u32, height: u32 }\n    record window-config {\n        title: string,\n        width: u32,\n        height: u32,\n        resizable: bool,\n        decorated: bool,\n        transparent: bool,\n    }\n    enum key-code { a, b, c, d, e, f, g, h, i, j, k, l, m, n, o, p, q, r, s, t, u, v, w, x, y, z, num0, num1, num2, num3, num4, num5, num6, num7, num8, num9, f1, f2, f3, f4, f5, f6, f7, f8, f9, f10, f11, f12, escape, enter, space, tab, backspace, delete, left, right, up, down, home, end, page-up, page-down, shift, ctrl, alt, super, unknown, }\n    enum mouse-button { left, right, middle, back, forward }\n    variant event {\n        close-requested,\n        resized(size),\n        focused(bool),\n        key-pressed(key-code),\n        key-released(key-code),\n        mouse-moved(point),\n        mouse-entered,\n        mouse-left,\n        mouse-pressed(mouse-button),\n        mouse-released(mouse-button),\n        mouse-scroll(tuple<f64, f64>),\n    }\n    enum event-result { handled, ignored, exit }\n}\n"
}

/// The exact text of [`window_wit`].
pub open spec fn spec_window_wit() -> Seq<char> {
    "package loop:kit;\n\ninterface window {\n    use types.{window-config, size, point};\n\n    configure: func(config: window-config);\n    get-size: func() -> size;\n    set-size: func(width: u32, height: u32);\n    get-title: func() -> string;\n    set-title: func(title: string);\n    is-focused: func() -> bool;\n    request-close: func();\n    set-cursor-visible: func(visible: bool);\n    cursor-position: func() -> option<point>;\n    request-redraw: func();\n}\n"@
}

/// The window capability interface.
pub fn window_wit() -> (r: &'static str)
    ensures
        r@ == spec_window_wit(),
{
    "package loop:kit;\n\ninterface window {\n    use types.{window-config, size, point};\n\n    configure: func(config: window-config);\n    get-size: func() -> size;\n    set-size: func(width: u32, height: u32);\n    get-title: func() -> string;\n    set-title: func(title: string);\n    is-focused: func() -> bool;\n    request-close: func();\n    set-cursor-visible: func(visible: bool);\n    cursor-position: func() -> option<point>;\n    request-redraw: func();\n}\n"
}

/// The exact text of [`canvas_wit`].
pub open spec fn spec_canvas_wit() -> Seq<char> {
    "package loop:kit;\n\ninterface canvas {\n    use types.{color, rect};\n\n    begin-frame: func(clear-color: color);\n    fill-rect: func(rect: rect, color: color);\n    stroke-rect: func(rect: rect, color: color, line-width: f32);\n    fill-circle: func(cx: f32, cy: f32, radius: f32, color: color);\n    draw-line: func(x1: f32, y1: f32, x2: f32, y2: f32, color: color, width: f32);\n    set-pixel: func(x: u32, y: u32, color: color);\n    dimensions: func() -> tuple<u32, u32>;\n    end-frame: func();\n}\n"@
}

/// The canvas capability interface.
pub fn canvas_wit() -> (r: &'static str)
    ensures
        r@ == spec_canvas_wit(),
{
    "package loop:kit;\n\ninterface canvas {\n    use types.{color, rect};\n\n    begin-frame: func(clear-color: color);\n    fill-rect: func(rect: rect, color: color);\n    stroke-rect: func(rect: rect, color: color, line-width: f32);\n    fill-circle: func(cx: f32, cy: f32, radius: f32, color: color);\n    draw-line: func(x1: f32, y1: f32, x2: f32, y2: f32, color: color, width: f32);\n    set-pixel: func(x: u32, y: u32, color: color);\n    dimensions: func() -> tuple<u32, u32>;\n    end-frame: func();\n}\n"
}

/// The exact text of [`logging_wit`].
pub open spec fn spec_logging_wit() -> Seq<char> {
    "package loop:kit;\n\ninterface logging {\n    enum level { trace, debug, info, warn, error }\n\n    log: func(level: level, message: string);\n    trace: func(message: string);\n    debug: func(message: string);\n    info: func(message: string);\n    warn: func(message: string);\n    error: func(message: string);\n}\n"@
}

/// The logging capability interface.
pub fn logging_wit() -> (r: &'static str)
    ensures
        r@ == spec_logging_wit(),
{
    "package loop:kit;\n\ninterface logging {\n    enum level { trace, debug, info, warn, error }\n\n    log: func(level: level, message: string);\n    trace: func(message: string);\n    debug: func(message: string);\n    info: func(message: string);\n    warn: func(message: string);\n    error: func(message: string);\n}\n"
}

/// A source of template directories.  Today templates are local; other
/// loaders can fetch them from a repository or a URL and hand back a
/// local path.
pub trait TemplateLoader {
    /// Resolves a template name to a local directory path.
    fn load(&self, name: &str) -> Result<String, crate::errors::NewError>;
}

/// Loads templates from a local base directory.
pub struct LocalTemplateLoader {
    pub base_dir: String,
}

/// Loads templates by cloning a repository.
pub struct GitTemplateLoader {
    pub repo_url: String,
}

/// Loads templates by fetching from a URL.
pub struct UrlTemplateLoader {
    pub base_url: String,
}

/// The path a named template lives at under a base directory, and
/// whether resolving it succeeds: the caller reports whether the
/// directory exists, and a missing template is the scaffolder's
/// template-not-found failure.
pub fn get_template_dir(base_dir: &str, template_name: &str, dir_exists: bool) -> (r: Result<
    String,
    crate::errors::NewError,
>)
    ensures
        dir_exists ==> r is Ok && r->Ok_0@ == base_dir@ + "/templates/"@ + template_name@,
        !dir_exists ==> r == Result::<String, crate::errors::NewError>::Err(
            crate::errors::NewError::TemplateNotFound,
        ),
{
    let mut s: String = String::from_str(base_dir);
    s.append("/templates/");
    s.append(template_name);
    if dir_exists {
        Ok(s)
    } else {
        Err(crate::errors::NewError::TemplateNotFound)
    }
}

} // verus!
