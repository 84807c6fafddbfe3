//! Loop-kit: a toolkit for authoring, building and running sandboxed
//! graphical components, together with the host runtime that executes them.
//!
//! The library holds the toolkit's verified logic: the software rasterizer
//! and its colour model, the input/event translation layer, the host run
//! state, the project scaffolder and templates, the build driver's path and
//! size computations, the environment checker, the watch-loop debouncer and
//! the project configuration model.  The thin shells that talk to the
//! operating system (windowing, processes, the file system) live outside
//! the library and call into it with plain values.

pub mod builder;
pub mod canvas;
pub mod check;
pub mod cli;
pub mod errors;
pub mod color;
pub mod host;
pub mod init;
pub mod input;
pub mod new;
pub mod project;
pub mod run;
pub mod runtime;
pub mod strutil;
pub mod templates;
pub mod tomlio;
pub mod watcher;
