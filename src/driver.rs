//! The frame driver's state: pending input, the texture cache, the remembered
//! window position and the prebuilt cursors.
use vstd::prelude::*;
use crate::input::{
    handle_event, make_raw_input, rect_after, rect_of_size, translate, ModifierKeys, NativeEvent,
    PendingInput,
};
use crate::keys::{no_modifiers, Modifiers};
use crate::output::{Cursors, WindowPos};
use crate::textures::TextureCache;

verus! {

/// State that lives across frames.
pub struct FrameDriver<C> {
    pub raw_input: PendingInput,
    pub textures: TextureCache,
    /// Where the window stood when it was last hidden.
    pub last_window_pos: WindowPos,
    pub cursors: Cursors<C>,
}

impl<C> FrameDriver<C> {
    /// The driver's invariant: the texture cache is well formed.
    pub open spec fn wf(&self) -> bool {
        self.textures.wf()
    }

    /// A driver for a window of the given size, with an empty texture cache.
    pub fn new(width: u32, height: u32, cursors: Cursors<C>) -> (r: Self)
        ensures
            r.wf(),
            r.raw_input.events@.len() == 0,
            r.raw_input.screen_rect == Some(rect_of_size(width, height)),
            r.raw_input.modifiers == no_modifiers(),
            r.textures@.is_empty(),
            r.last_window_pos == (WindowPos { x: 0, y: 0 }),
            r.cursors == cursors,
    {
        FrameDriver {
            raw_input: make_raw_input(width, height),
            textures: TextureCache::new(),
            last_window_pos: WindowPos { x: 0, y: 0 },
            cursors,
        }
    }

    /// Translates a native event into the pending input.
    pub fn add_event(&mut self, event: &NativeEvent, clipboard: &String, lcontrol: bool)
        ensures
            final(self).raw_input.events_view() == old(self).raw_input.events_view() + translate(
                *event,
                clipboard@,
                lcontrol,
            ),
            final(self).raw_input.screen_rect == rect_after(
                *event,
                old(self).raw_input.screen_rect,
            ),
            final(self).raw_input.modifiers == old(self).raw_input.modifiers,
            final(self).raw_input.time_micros == old(self).raw_input.time_micros,
            final(self).textures == old(self).textures,
            final(self).last_window_pos == old(self).last_window_pos,
            final(self).cursors == old(self).cursors,
    {
        handle_event(&mut self.raw_input, event, clipboard, lcontrol);
    }

    /// Refreshes time and modifiers, then hands out the pending input for a
    /// frame: the events gathered since the last frame, in arrival order, and
    /// the new screen rectangle if any. Gathering starts anew.
    pub fn prepare_raw_input(&mut self, elapsed_micros: i64, keys: ModifierKeys) -> (r:
        PendingInput)
        ensures
            r.events_view() == old(self).raw_input.events_view(),
            r.screen_rect == old(self).raw_input.screen_rect,
            r.time_micros == Some(elapsed_micros),
            r.modifiers == (Modifiers {
                alt: keys.lalt || keys.ralt,
                ctrl: keys.lcontrol || keys.rcontrol,
                shift: keys.lshift || keys.rshift,
                ..old(self).raw_input.modifiers
            }),
            final(self).raw_input.events@.len() == 0,
            final(self).raw_input.screen_rect.is_none(),
            final(self).raw_input.modifiers == r.modifiers,
            final(self).raw_input.time_micros == r.time_micros,
            final(self).textures == old(self).textures,
            final(self).last_window_pos == old(self).last_window_pos,
            final(self).cursors == old(self).cursors,
    {
        self.raw_input.prepare(elapsed_micros, keys);
        self.raw_input.take()
    }
}

} // verus!
