//! Builder-style engine configuration.
//!
//! An explicit configuration value with named fields; each setter
//! returns the updated configuration so calls chain. The embedding
//! application consumes the finished configuration to create the
//! window and the GPU context.

use vstd::prelude::*;

use crate::color::Color;

verus! {

/// Configuration collected before the engine's window and GPU context
/// are created.
pub struct EngineBuilder {
    pub window_name: Option<String>,
    pub width: u32,
    pub height: u32,
    pub clear_color: Color,
    pub show_cursor: bool,
    pub is_bordered: bool,
    pub is_resizable: bool,
    pub should_poll_keys: bool,
    pub should_poll_cursor_pos: bool,
    pub should_poll_mouse_buttons: bool,
    pub should_poll_scroll: bool,
}

impl EngineBuilder {
    /// The default configuration: an 800 by 600, bordered, resizable
    /// window with a visible cursor, an opaque black clear color, no
    /// window name chosen, and no input polling.
    pub fn new() -> (r: EngineBuilder)
        ensures
            r.window_name is None,
            r.width == 800,
            r.height == 600,
            r.clear_color == (Color { r: 0, g: 0, b: 0, a: 255 }),
            r.show_cursor,
            r.is_bordered,
            r.is_resizable,
            !r.should_poll_keys,
            !r.should_poll_cursor_pos,
            !r.should_poll_mouse_buttons,
            !r.should_poll_scroll,
    {
        EngineBuilder {
            window_name: None,
            width: 800,
            height: 600,
            clear_color: Color { r: 0, g: 0, b: 0, a: 255 },
            show_cursor: true,
            is_bordered: true,
            is_resizable: true,
            should_poll_keys: false,
            should_poll_cursor_pos: false,
            should_poll_mouse_buttons: false,
            should_poll_scroll: false,
        }
    }

    pub fn hide_cursor(self) -> (r: Self)
        ensures
            r == (EngineBuilder { show_cursor: false, ..self }),
    {
        EngineBuilder { show_cursor: false, ..self }
    }

    pub fn borderless(self) -> (r: Self)
        ensures
            r == (EngineBuilder { is_bordered: false, ..self }),
    {
        EngineBuilder { is_bordered: false, ..self }
    }

    pub fn not_resizable(self) -> (r: Self)
        ensures
            r == (EngineBuilder { is_resizable: false, ..self }),
    {
        EngineBuilder { is_resizable: false, ..self }
    }

    /// Asks for mouse button events; scroll events come with them.
    pub fn poll_mouse_buttons(self) -> (r: Self)
        ensures
            r == (EngineBuilder {
                should_poll_mouse_buttons: true,
                should_poll_scroll: true,
                ..self
            }),
    {
        EngineBuilder { should_poll_mouse_buttons: true, should_poll_scroll: true, ..self }
    }

    pub fn poll_cursor(self) -> (r: Self)
        ensures
            r == (EngineBuilder { should_poll_cursor_pos: true, ..self }),
    {
        EngineBuilder { should_poll_cursor_pos: true, ..self }
    }

    pub fn poll_keyboard(self) -> (r: Self)
        ensures
            r == (EngineBuilder { should_poll_keys: true, ..self }),
    {
        EngineBuilder { should_poll_keys: true, ..self }
    }

    pub fn set_window_size(self, width: u32, height: u32) -> (r: Self)
        ensures
            r == (EngineBuilder { width, height, ..self }),
    {
        EngineBuilder { width, height, ..self }
    }

    pub fn set_clear_color(self, color: Color) -> (r: Self)
        ensures
            r == (EngineBuilder { clear_color: color, ..self }),
    {
        EngineBuilder { clear_color: color, ..self }
    }

    pub fn set_window_name(self, name: String) -> (r: Self)
        ensures
            r == (EngineBuilder { window_name: Some(name), ..self }),
    {
        EngineBuilder { window_name: Some(name), ..self }
    }
}

} // verus!
