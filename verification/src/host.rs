//! The per-run host state behind the window, canvas and logging
//! capabilities: the last-applied window configuration, the cursor
//! position and visibility, the exit-requested flag, and the canvas
//! buffer.  One value of this type is owned by the runtime host for the
//! lifetime of one run; the capability implementations read and write
//! through it.
//!
//! Everything here is plain state.  The embedder applies the stored
//! window configuration to the real native window and forwards log
//! records to its logging sink.

use vstd::prelude::*;

use crate::canvas::{Canvas, Rect};
use crate::color::Color;
use crate::input::{spec_translate, translate_event, Event, NativeEvent, Point};

verus! {

/// A guest-supplied window configuration.  Absent one, the host falls
/// back to a default 800 x 600 untitled window.
#[derive(Clone, Debug)]
pub struct WindowConfig {
    pub title: String,
    pub width: u32,
    pub height: u32,
    pub resizable: bool,
    pub decorated: bool,
    pub transparent: bool,
}

/// A log level of the guest logging capability.
#[derive(Clone, Copy, PartialEq, Eq, Structural, Debug)]
pub enum LogLevel {
    Trace,
    Debug,
    Info,
    Warn,
    Error,
}

/// One leveled log line from the guest, ready for the embedder's
/// structured logging sink.  Logging never fails and never reaches back
/// into the guest.
#[derive(Clone, Debug)]
pub struct LogRecord {
    pub level: LogLevel,
    pub message: String,
}

/// The host state shared by the window, canvas and logging capabilities
/// during one run.
pub struct HostState {
    pub window_config: Option<WindowConfig>,
    pub cursor_position: Option<Point>,
    pub cursor_visible: bool,
    pub should_exit: bool,
    pub canvas: Canvas,
}

impl HostState {
    /// The canvas buffer is consistent with its dimensions.
    pub open spec fn wf(&self) -> bool {
        self.canvas.wf()
    }

    /// Fresh host state: no configuration yet, cursor visible and
    /// outside the window, no exit requested, an empty canvas.
    pub fn new() -> (s: HostState)
        ensures
            s.wf(),
            s.window_config is None,
            s.cursor_position is None,
            s.cursor_visible == true,
            s.should_exit == false,
            s.canvas@.len() == 0,
            s.canvas.spec_width() == 0,
            s.canvas.spec_height() == 0,
    {
        HostState {
            window_config: None,
            cursor_position: None,
            cursor_visible: true,
            should_exit: false,
            canvas: Canvas::new(),
        }
    }

    /// The configuration the guest last applied, if any.
    pub fn window_config(&self) -> (c: &Option<WindowConfig>)
        ensures
            c == &self.window_config,
    {
        &self.window_config
    }

    /// Whether the guest has asked the run loop to end.
    pub fn should_exit(&self) -> (r: bool)
        ensures
            r == self.should_exit,
    {
        self.should_exit
    }

    /// Stores the cursor position reported by the native window system;
    /// `None` once the cursor has left the window.
    pub fn set_cursor_position(&mut self, pos: Option<Point>)
        ensures
            final(self).cursor_position == pos,
            final(self).window_config == old(self).window_config,
            final(self).cursor_visible == old(self).cursor_visible,
            final(self).should_exit == old(self).should_exit,
            final(self).canvas == old(self).canvas,
    {
        self.cursor_position = pos;
    }

    /// Reallocates the canvas for the window's reported inner size; a
    /// no-op when the size is unchanged.
    pub fn set_canvas_size(&mut self, width: u32, height: u32)
        requires
            old(self).wf(),
            width as int * height as int <= usize::MAX as int,
        ensures
            final(self).wf(),
            final(self).canvas.spec_width() == width,
            final(self).canvas.spec_height() == height,
            old(self).canvas.spec_width() == width && old(self).canvas.spec_height() == height
                ==> final(self).canvas@ == old(self).canvas@,
            final(self).window_config == old(self).window_config,
            final(self).cursor_position == old(self).cursor_position,
            final(self).cursor_visible == old(self).cursor_visible,
            final(self).should_exit == old(self).should_exit,
    {
        self.canvas.resize(width, height);
    }

    /// A borrow of the packed canvas buffer, for presentation.
    pub fn canvas_buffer(&self) -> (b: &Vec<u32>)
        ensures
            b@ == self.canvas@,
    {
        self.canvas.buffer()
    }

    /// Stores the guest's window configuration.  The embedder applies
    /// the stored title, size, resizability and decorations to the real
    /// window after this call.
    pub fn configure(&mut self, config: WindowConfig)
        ensures
            final(self).window_config == Some(config),
            final(self).cursor_position == old(self).cursor_position,
            final(self).cursor_visible == old(self).cursor_visible,
            final(self).should_exit == old(self).should_exit,
            final(self).canvas == old(self).canvas,
    {
        self.window_config = Some(config);
    }

    /// Sets the exit-requested flag; the run loop consults it after the
    /// current frame.
    pub fn request_close(&mut self)
        ensures
            final(self).should_exit == true,
            final(self).window_config == old(self).window_config,
            final(self).cursor_position == old(self).cursor_position,
            final(self).cursor_visible == old(self).cursor_visible,
            final(self).canvas == old(self).canvas,
    {
        self.should_exit = true;
    }

    /// Stores the cursor visibility choice.  The embedder applies it to
    /// the real window.
    pub fn set_cursor_visible(&mut self, visible: bool)
        ensures
            final(self).cursor_visible == visible,
            final(self).window_config == old(self).window_config,
            final(self).cursor_position == old(self).cursor_position,
            final(self).should_exit == old(self).should_exit,
            final(self).canvas == old(self).canvas,
    {
        self.cursor_visible = visible;
    }

    /// The last known cursor position, or `None` while the cursor is
    /// outside the window.
    pub fn cursor_position(&self) -> (p: Option<Point>)
        ensures
            p == self.cursor_position,
    {
        self.cursor_position
    }

    /// Translates one native event into at most one guest event, and
    /// keeps the stored cursor position in step: a cursor move stores
    /// the new position, a cursor leave clears it.
    pub fn handle_native_event(&mut self, ev: &NativeEvent) -> (r: Option<Event>)
        ensures
            r == spec_translate(*ev),
            final(self).cursor_position == (match *ev {
                NativeEvent::CursorMoved(p) => Some(p),
                NativeEvent::CursorLeft => None,
                _ => old(self).cursor_position,
            }),
            final(self).window_config == old(self).window_config,
            final(self).cursor_visible == old(self).cursor_visible,
            final(self).should_exit == old(self).should_exit,
            final(self).canvas == old(self).canvas,
    {
        match ev {
            NativeEvent::CursorMoved(p) => {
                self.cursor_position = Some(*p);
            },
            NativeEvent::CursorLeft => {
                self.cursor_position = None;
            },
            _ => {},
        }
        translate_event(ev)
    }

    /// Clears the whole canvas to the packed colour.
    pub fn begin_frame(&mut self, color: Color)
        requires
            old(self).wf(),
        ensures
            final(self).wf(),
            final(self).canvas@ == Seq::new(
                old(self).canvas@.len(),
                |i: int| crate::color::spec_color_to_u32(color),
            ),
            final(self).canvas.spec_width() == old(self).canvas.spec_width(),
            final(self).canvas.spec_height() == old(self).canvas.spec_height(),
            final(self).window_config == old(self).window_config,
            final(self).cursor_position == old(self).cursor_position,
            final(self).cursor_visible == old(self).cursor_visible,
            final(self).should_exit == old(self).should_exit,
    {
        self.canvas.begin_frame(color);
    }

    /// Blends the colour over the rectangle clamped to the canvas.
    pub fn fill_rect(&mut self, rect: Rect, color: Color)
        requires
            old(self).wf(),
        ensures
            final(self).wf(),
            final(self).canvas@ == crate::canvas::rect_stamp(
                old(self).canvas@,
                old(self).canvas.spec_width() as int,
                old(self).canvas.spec_height() as int,
                rect,
                color,
            ),
            final(self).canvas.spec_width() == old(self).canvas.spec_width(),
            final(self).canvas.spec_height() == old(self).canvas.spec_height(),
            final(self).window_config == old(self).window_config,
            final(self).cursor_position == old(self).cursor_position,
            final(self).cursor_visible == old(self).cursor_visible,
            final(self).should_exit == old(self).should_exit,
    {
        self.canvas.fill_rect(rect, color);
    }

    /// Draws the rectangle's outline as four strips of the given
    /// thickness.
    pub fn stroke_rect(&mut self, rect: Rect, color: Color, line_width: i32)
        requires
            old(self).wf(),
            i32::MIN <= rect.y as int + rect.height as int - line_width as int <= i32::MAX,
            i32::MIN <= rect.x as int + rect.width as int - line_width as int <= i32::MAX,
        ensures
            final(self).wf(),
            final(self).canvas@ == crate::canvas::stroke_stamp(
                old(self).canvas@,
                old(self).canvas.spec_width() as int,
                old(self).canvas.spec_height() as int,
                rect,
                color,
                line_width,
            ),
            final(self).canvas.spec_width() == old(self).canvas.spec_width(),
            final(self).canvas.spec_height() == old(self).canvas.spec_height(),
            final(self).window_config == old(self).window_config,
            final(self).cursor_position == old(self).cursor_position,
            final(self).cursor_visible == old(self).cursor_visible,
            final(self).should_exit == old(self).should_exit,
    {
        self.canvas.stroke_rect(rect, color, line_width);
    }

    /// Blends the colour over the filled circle.
    pub fn fill_circle(&mut self, cx: i32, cy: i32, radius: i32, color: Color)
        requires
            old(self).wf(),
        ensures
            final(self).wf(),
            radius >= 0 ==> final(self).canvas@ == crate::canvas::disc_stamp(
                old(self).canvas@,
                old(self).canvas.spec_width() as int,
                old(self).canvas.spec_height() as int,
                cx as int,
                cy as int,
                4 * (radius as int) * (radius as int),
                color,
            ),
            radius < 0 ==> final(self).canvas@ == old(self).canvas@,
            final(self).canvas.spec_width() == old(self).canvas.spec_width(),
            final(self).canvas.spec_height() == old(self).canvas.spec_height(),
            final(self).window_config == old(self).window_config,
            final(self).cursor_position == old(self).cursor_position,
            final(self).cursor_visible == old(self).cursor_visible,
            final(self).should_exit == old(self).should_exit,
    {
        self.canvas.fill_circle(cx, cy, radius, color);
    }

    /// Steps along the line stamping a disc at every visited point.
    pub fn draw_line(&mut self, x1: i32, y1: i32, x2: i32, y2: i32, color: Color, width: i32)
        requires
            old(self).wf(),
        ensures
            final(self).wf(),
            final(self).canvas@ == crate::canvas::stamps_along(
                old(self).canvas@,
                old(self).canvas.spec_width() as int,
                old(self).canvas.spec_height() as int,
                crate::canvas::line_disc_m(width as int),
                color,
                crate::canvas::spec_line_points(x1 as int, y1 as int, x2 as int, y2 as int),
            ),
            final(self).canvas.spec_width() == old(self).canvas.spec_width(),
            final(self).canvas.spec_height() == old(self).canvas.spec_height(),
            final(self).window_config == old(self).window_config,
            final(self).cursor_position == old(self).cursor_position,
            final(self).cursor_visible == old(self).cursor_visible,
            final(self).should_exit == old(self).should_exit,
    {
        self.canvas.draw_line(x1, y1, x2, y2, color, width);
    }

    /// Writes one pixel directly, bounds-checked, without blending.
    pub fn set_pixel(&mut self, x: u32, y: u32, color: Color)
        requires
            old(self).wf(),
        ensures
            final(self).wf(),
            x < old(self).canvas.spec_width() && y < old(self).canvas.spec_height()
                ==> final(self).canvas@ == old(self).canvas@.update(
                y as int * old(self).canvas.spec_width() as int + x as int,
                crate::color::spec_color_to_u32(color),
            ),
            !(x < old(self).canvas.spec_width() && y < old(self).canvas.spec_height())
                ==> final(self).canvas@ == old(self).canvas@,
            final(self).canvas.spec_width() == old(self).canvas.spec_width(),
            final(self).canvas.spec_height() == old(self).canvas.spec_height(),
            final(self).window_config == old(self).window_config,
            final(self).cursor_position == old(self).cursor_position,
            final(self).cursor_visible == old(self).cursor_visible,
            final(self).should_exit == old(self).should_exit,
    {
        self.canvas.set_pixel(x, y, color);
    }

    /// The current canvas size.
    pub fn dimensions(&self) -> (d: (u32, u32))
        ensures
            d.0 == self.canvas.spec_width(),
            d.1 == self.canvas.spec_height(),
    {
        self.canvas.dimensions()
    }

    /// Marks the end of a frame; presentation belongs to the runtime.
    pub fn end_frame(&mut self)
        ensures
            *final(self) == *old(self),
    {
        self.canvas.end_frame();
    }

    /// Builds the record for one leveled guest log call.  Logging is a
    /// one-way side effect: the record goes to the embedder's sink and
    /// nothing returns to the guest.
    pub fn log(&mut self, level: LogLevel, message: String) -> (r: LogRecord)
        ensures
            r.level == level,
            r.message == message,
            *final(self) == *old(self),
    {
        LogRecord { level, message }
    }

    /// Convenience wrapper: a trace-level log call.
    pub fn trace(&mut self, message: String) -> (r: LogRecord)
        ensures
            r.level == LogLevel::Trace,
            r.message == message,
            *final(self) == *old(self),
    {
        self.log(LogLevel::Trace, message)
    }

    /// Convenience wrapper: a debug-level log call.
    pub fn debug(&mut self, message: String) -> (r: LogRecord)
        ensures
            r.level == LogLevel::Debug,
            r.message == message,
            *final(self) == *old(self),
    {
        self.log(LogLevel::Debug, message)
    }

    /// Convenience wrapper: an info-level log call.
    pub fn info(&mut self, message: String) -> (r: LogRecord)
        ensures
            r.level == LogLevel::Info,
            r.message == message,
            *final(self) == *old(self),
    {
        self.log(LogLevel::Info, message)
    }

    /// Convenience wrapper: a warn-level log call.
    pub fn warn(&mut self, message: String) -> (r: LogRecord)
        ensures
            r.level == LogLevel::Warn,
            r.message == message,
            *final(self) == *old(self),
    {
        self.log(LogLevel::Warn, message)
    }

    /// Convenience wrapper: an error-level log call.
    pub fn error(&mut self, message: String) -> (r: LogRecord)
        ensures
            r.level == LogLevel::Error,
            r.message == message,
            *final(self) == *old(self),
    {
        self.log(LogLevel::Error, message)
    }
}

} // verus!
