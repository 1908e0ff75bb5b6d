//! The application core: the translation state, its two input handlers,
//! and the renderer invocation they all end in.
//!
//! The host layer owns the live GPU handles; this type owns the one piece
//! of mutable state, and every handler returns the full frame sequence to
//! execute, so a redraw follows every event unconditionally — also for
//! unrecognized keys, which leave the state unchanged.

use vstd::prelude::*;

verus! {

use crate::render::{GlCommand, frame_commands, spec_frame_commands};
use crate::translation::{Translation, spec_key_update, spec_pointer_target};

/// The application instance's state: the exclusively owned translation
/// offset, created at (0, 0) and mutated in place by the handlers below.
pub struct App {
    pub translation: Translation,
}

impl App {
    /// A freshly constructed application: translation (0, 0).
    pub fn new() -> (a: App)
        ensures
            a.translation == Translation::spec_initial(),
    {
        App { translation: Translation::initial() }
    }

    /// Handle a pointer press at surface-local pixel (px, py): recenter
    /// the offset absolutely at (-px / 150, py / 150) and return the
    /// frame to render.
    pub fn on_mouse_down(&mut self, px: i32, py: i32) -> (frame: Vec<GlCommand>)
        ensures
            final(self).translation == spec_pointer_target(px, py),
            frame@ == spec_frame_commands(final(self).translation),
    {
        self.translation.set_from_pointer(px, py);
        frame_commands(&self.translation)
    }

    /// Handle a key press: a recognized arrow key moves the offset one
    /// step along its axis, any other identifier leaves it unchanged; the
    /// frame to render is returned either way.
    pub fn on_key_down(&mut self, key: &str) -> (frame: Vec<GlCommand>)
        ensures
            final(self).translation == spec_key_update(old(self).translation, key@),
            frame@ == spec_frame_commands(final(self).translation),
    {
        self.translation.apply_key(key);
        frame_commands(&self.translation)
    }

    /// Render the current state: the fixed eight-command frame sequence.
    pub fn draw(&self) -> (frame: Vec<GlCommand>)
        ensures
            frame@ == spec_frame_commands(self.translation),
    {
        frame_commands(&self.translation)
    }
}

} // verus!
