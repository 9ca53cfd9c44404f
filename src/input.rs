//! Translation of native window events into the GUI's input events, and the
//! pending-input record that collects them between frames.
use vstd::prelude::*;
use crate::keys::{
    button_conv, button_map, key_conv, key_map, modifier, modifiers_of, no_modifier,
    no_modifiers, GuiKey, Modifiers, MouseButton, NativeKey, PointerButton,
};

verus! {

/// Zoom factor, in tenths, for a wheel step away from the user.
pub const ZOOM_IN_TENTHS: u32 = 11;

/// Zoom factor, in tenths, for a wheel step towards the user.
pub const ZOOM_OUT_TENTHS: u32 = 9;

/// A native window event, reduced to what the translation reads.
#[derive(Clone, Copy, Debug, PartialEq, Eq, Structural)]
pub enum NativeEvent {
    KeyPressed { code: NativeKey, alt: bool, ctrl: bool, shift: bool, system: bool },
    KeyReleased { code: NativeKey, alt: bool, ctrl: bool, shift: bool, system: bool },
    MouseMoved { x: i32, y: i32 },
    MouseButtonPressed { button: MouseButton, x: i32, y: i32 },
    MouseButtonReleased { button: MouseButton, x: i32, y: i32 },
    TextEntered { unicode: char },
    /// A wheel step; `positive` tells whether its delta was above zero.
    MouseWheelScrolled { positive: bool },
    Resized { width: u32, height: u32 },
    /// Any event that the translation ignores.
    Other,
}

/// An event of the GUI's input model.
#[derive(Debug, PartialEq, Eq)]
pub enum GuiEvent {
    Key { key: GuiKey, modifiers: Modifiers, pressed: bool, repeat: bool },
    Text(String),
    Copy,
    Cut,
    PointerMoved { x: i32, y: i32 },
    PointerButton { x: i32, y: i32, button: PointerButton, pressed: bool, modifiers: Modifiers },
    /// A zoom request by the factor `tenths / 10`.
    Zoom { tenths: u32 },
}

/// A GUI event as a mathematical value.
pub enum GuiEventView {
    Key { key: GuiKey, modifiers: Modifiers, pressed: bool, repeat: bool },
    Text(Seq<char>),
    Copy,
    Cut,
    PointerMoved { x: i32, y: i32 },
    PointerButton { x: i32, y: i32, button: PointerButton, pressed: bool, modifiers: Modifiers },
    Zoom { tenths: u32 },
}

impl View for GuiEvent {
    type V = GuiEventView;

    open spec fn view(&self) -> GuiEventView {
        match self {
            GuiEvent::Key { key, modifiers, pressed, repeat } => GuiEventView::Key {
                key: *key,
                modifiers: *modifiers,
                pressed: *pressed,
                repeat: *repeat,
            },
            GuiEvent::Text(s) => GuiEventView::Text(s@),
            GuiEvent::Copy => GuiEventView::Copy,
            GuiEvent::Cut => GuiEventView::Cut,
            GuiEvent::PointerMoved { x, y } => GuiEventView::PointerMoved { x: *x, y: *y },
            GuiEvent::PointerButton { x, y, button, pressed, modifiers } => {
                GuiEventView::PointerButton {
                    x: *x,
                    y: *y,
                    button: *button,
                    pressed: *pressed,
                    modifiers: *modifiers,
                }
            },
            GuiEvent::Zoom { tenths } => GuiEventView::Zoom { tenths: *tenths },
        }
    }
}

/// The GUI's screen rectangle, in logical pixels.
#[derive(Clone, Copy, Debug, PartialEq, Eq, Structural)]
pub struct ScreenRect {
    pub min_x: u32,
    pub min_y: u32,
    pub max_x: u32,
    pub max_y: u32,
}

/// The rectangle from the origin to `(width, height)`.
pub open spec fn rect_of_size(width: u32, height: u32) -> ScreenRect {
    ScreenRect { min_x: 0, min_y: 0, max_x: width, max_y: height }
}

/// The screen rectangle of a window of the given size.
pub fn raw_input_screen_rect(width: u32, height: u32) -> (r: ScreenRect)
    ensures
        r == rect_of_size(width, height),
{
    ScreenRect { min_x: 0, min_y: 0, max_x: width, max_y: height }
}

/// Input gathered for the next frame.
#[derive(Debug, PartialEq, Eq)]
pub struct PendingInput {
    /// The translated events, in arrival order.
    pub events: Vec<GuiEvent>,
    /// A new screen rectangle, if the window changed size.
    pub screen_rect: Option<ScreenRect>,
    pub modifiers: Modifiers,
    /// Time since the driver started, in microseconds.
    pub time_micros: Option<i64>,
}

impl PendingInput {
    /// The events as mathematical values.
    pub open spec fn events_view(&self) -> Seq<GuiEventView> {
        self.events@.map_values(|e: GuiEvent| e@)
    }
}

/// Whether `c` is a control character (general category Cc).
pub open spec fn is_control_char(c: char) -> bool {
    (c as u32) <= 0x1f || (0x7f <= (c as u32) && (c as u32) <= 0x9f)
}

/// Whether `c` is a control character (general category Cc).
pub fn is_control(c: char) -> (r: bool)
    ensures
        r == is_control_char(c),
{
    let v = c as u32;
    v <= 0x1f || (0x7f <= v && v <= 0x9f)
}

/// The events that a key press adds before its key event: ctrl+V pastes the
/// clipboard, ctrl+C copies and ctrl+X cuts.
pub open spec fn shortcut_events(code: NativeKey, ctrl: bool, clipboard: Seq<char>) -> Seq<
    GuiEventView,
> {
    if !ctrl {
        seq![]
    } else {
        match code {
            NativeKey::V => seq![GuiEventView::Text(clipboard)],
            NativeKey::C => seq![GuiEventView::Copy],
            NativeKey::X => seq![GuiEventView::Cut],
            _ => seq![],
        }
    }
}

/// The key event for a press or release of `code`, if the code has a logical key.
pub open spec fn key_events(code: NativeKey, modifiers: Modifiers, pressed: bool) -> Seq<
    GuiEventView,
> {
    match key_map(code) {
        Some(key) => seq![GuiEventView::Key { key, modifiers, pressed, repeat: false }],
        None => seq![],
    }
}

/// The pointer-button event for a press or release of `button`, if it maps.
pub open spec fn button_events(button: MouseButton, x: i32, y: i32, pressed: bool) -> Seq<
    GuiEventView,
> {
    match button_map(button) {
        Some(b) => seq![
            GuiEventView::PointerButton { x, y, button: b, pressed, modifiers: no_modifiers() },
        ],
        None => seq![],
    }
}

/// The GUI events that one native event turns into, given the clipboard's
/// contents and whether left-ctrl is held.
pub open spec fn translate(event: NativeEvent, clipboard: Seq<char>, lcontrol: bool) -> Seq<
    GuiEventView,
> {
    match event {
        NativeEvent::KeyPressed { code, alt, ctrl, shift, .. } => shortcut_events(
            code,
            ctrl,
            clipboard,
        ) + key_events(code, modifiers_of(alt, ctrl, shift), true),
        NativeEvent::KeyReleased { code, alt, ctrl, shift, .. } => key_events(
            code,
            modifiers_of(alt, ctrl, shift),
            false,
        ),
        NativeEvent::MouseMoved { x, y } => seq![GuiEventView::PointerMoved { x, y }],
        NativeEvent::MouseButtonPressed { button, x, y } => button_events(button, x, y, true),
        NativeEvent::MouseButtonReleased { button, x, y } => button_events(button, x, y, false),
        NativeEvent::TextEntered { unicode } => if is_control_char(unicode) {
            seq![]
        } else {
            seq![GuiEventView::Text(seq![unicode])]
        },
        NativeEvent::MouseWheelScrolled { positive } => if lcontrol {
            seq![GuiEventView::Zoom { tenths: if positive { ZOOM_IN_TENTHS } else { ZOOM_OUT_TENTHS } }]
        } else {
            seq![]
        },
        _ => seq![],
    }
}

/// The screen rectangle after `event`, where `rect` held before.
pub open spec fn rect_after(event: NativeEvent, rect: Option<ScreenRect>) -> Option<ScreenRect> {
    match event {
        NativeEvent::Resized { width, height } => Some(rect_of_size(width, height)),
        _ => rect,
    }
}

/// Whether translating `event` reads the clipboard (a ctrl+V press).
pub fn needs_clipboard(event: &NativeEvent) -> (r: bool)
    ensures
        r == (*event matches NativeEvent::KeyPressed { code, ctrl, .. } && ctrl && code
            == NativeKey::V),
{
    match event {
        NativeEvent::KeyPressed { code: NativeKey::V, ctrl, .. } => *ctrl,
        _ => false,
    }
}

/// Relies on `char::to_string`: a string of exactly that one character.
#[verifier::external_body]
fn char_string(c: char) -> (r: String)
    ensures
        r@ == seq![c],
{
    c.to_string()
}

fn push_event(raw_input: &mut PendingInput, e: GuiEvent)
    ensures
        final(raw_input).events_view() == old(raw_input).events_view().push(e@),
        final(raw_input).screen_rect == old(raw_input).screen_rect,
        final(raw_input).modifiers == old(raw_input).modifiers,
        final(raw_input).time_micros == old(raw_input).time_micros,
{
    raw_input.events.push(e);
    assert(final(raw_input).events_view() =~= old(raw_input).events_view().push(e@));
}

/// Translates a native event and appends the result to `raw_input`.
///
/// `clipboard` is the clipboard's contents (read only on ctrl+V, see
/// [`needs_clipboard`]); `lcontrol` tells whether left-ctrl is held now.
pub fn handle_event(
    raw_input: &mut PendingInput,
    event: &NativeEvent,
    clipboard: &String,
    lcontrol: bool,
)
    ensures
        final(raw_input).events_view() == old(raw_input).events_view() + translate(
            *event,
            clipboard@,
            lcontrol,
        ),
        final(raw_input).screen_rect == rect_after(*event, old(raw_input).screen_rect),
        final(raw_input).modifiers == old(raw_input).modifiers,
        final(raw_input).time_micros == old(raw_input).time_micros,
{
    let ghost before = raw_input.events_view();
    match *event {
        NativeEvent::KeyPressed { code, alt, ctrl, shift, .. } => {
            if ctrl {
                match code {
                    NativeKey::V => push_event(raw_input, GuiEvent::Text(clipboard.clone())),
                    NativeKey::C => push_event(raw_input, GuiEvent::Copy),
                    NativeKey::X => push_event(raw_input, GuiEvent::Cut),
                    _ => {},
                }
            }
            let ghost mid = raw_input.events_view();
            assert(mid =~= before + shortcut_events(code, ctrl, clipboard@));
            if let Some(key) = key_conv(code) {
                push_event(
                    raw_input,
                    GuiEvent::Key {
                        key,
                        modifiers: modifier(alt, ctrl, shift),
                        pressed: true,
                        repeat: false,
                    },
                );
            }
            assert(raw_input.events_view() =~= mid + key_events(
                code,
                modifiers_of(alt, ctrl, shift),
                true,
            ));
        },
        NativeEvent::KeyReleased { code, alt, ctrl, shift, .. } => {
            if let Some(key) = key_conv(code) {
                push_event(
                    raw_input,
                    GuiEvent::Key {
                        key,
                        modifiers: modifier(alt, ctrl, shift),
                        pressed: false,
                        repeat: false,
                    },
                );
            }
        },
        NativeEvent::MouseMoved { x, y } => {
            push_event(raw_input, GuiEvent::PointerMoved { x, y });
        },
        NativeEvent::MouseButtonPressed { button, x, y } => {
            if let Some(button) = button_conv(button) {
                push_event(
                    raw_input,
                    GuiEvent::PointerButton {
                        x,
                        y,
                        button,
                        pressed: true,
                        modifiers: no_modifier(),
                    },
                );
            }
        },
        NativeEvent::MouseButtonReleased { button, x, y } => {
            if let Some(button) = button_conv(button) {
                push_event(
                    raw_input,
                    GuiEvent::PointerButton {
                        x,
                        y,
                        button,
                        pressed: false,
                        modifiers: no_modifier(),
                    },
                );
            }
        },
        NativeEvent::TextEntered { unicode } => {
            if !is_control(unicode) {
                push_event(raw_input, GuiEvent::Text(char_string(unicode)));
            }
        },
        NativeEvent::MouseWheelScrolled { positive } => {
            if lcontrol {
                let tenths = if positive {
                    ZOOM_IN_TENTHS
                } else {
                    ZOOM_OUT_TENTHS
                };
                push_event(raw_input, GuiEvent::Zoom { tenths });
            }
        },
        NativeEvent::Resized { width, height } => {
            raw_input.screen_rect = Some(raw_input_screen_rect(width, height));
        },
        NativeEvent::Other => {},
    }
    assert(raw_input.events_view() =~= before + translate(*event, clipboard@, lcontrol));
}

/// Live states of the six modifier keys, polled from the keyboard.
#[derive(Clone, Copy, Debug, PartialEq, Eq, Structural)]
pub struct ModifierKeys {
    pub lalt: bool,
    pub ralt: bool,
    pub lcontrol: bool,
    pub rcontrol: bool,
    pub lshift: bool,
    pub rshift: bool,
}

/// A fresh pending-input record for a window of the given size.
pub fn make_raw_input(width: u32, height: u32) -> (r: PendingInput)
    ensures
        r.events@.len() == 0,
        r.screen_rect == Some(rect_of_size(width, height)),
        r.modifiers == no_modifiers(),
        r.time_micros.is_none(),
{
    PendingInput {
        events: Vec::new(),
        screen_rect: Some(raw_input_screen_rect(width, height)),
        modifiers: no_modifier(),
        time_micros: None,
    }
}

impl PendingInput {
    /// Hands out the gathered input for a frame and starts gathering anew:
    /// the events and the screen rectangle move out, modifiers and time stay.
    pub fn take(&mut self) -> (r: PendingInput)
        ensures
            r.events@ == old(self).events@,
            r.events_view() == old(self).events_view(),
            r.screen_rect == old(self).screen_rect,
            r.modifiers == old(self).modifiers,
            r.time_micros == old(self).time_micros,
            final(self).events@.len() == 0,
            final(self).screen_rect.is_none(),
            final(self).modifiers == old(self).modifiers,
            final(self).time_micros == old(self).time_micros,
    {
        let mut events: Vec<GuiEvent> = Vec::new();
        std::mem::swap(&mut events, &mut self.events);
        let screen_rect = self.screen_rect;
        self.screen_rect = None;
        PendingInput { events, screen_rect, modifiers: self.modifiers, time_micros: self.time_micros }
    }

    /// Refreshes the time and the alt, ctrl and shift states from live
    /// readings, just before the input is handed to a frame.
    pub fn prepare(&mut self, elapsed_micros: i64, keys: ModifierKeys)
        ensures
            final(self).events == old(self).events,
            final(self).screen_rect == old(self).screen_rect,
            final(self).time_micros == Some(elapsed_micros),
            final(self).modifiers == (Modifiers {
                alt: keys.lalt || keys.ralt,
                ctrl: keys.lcontrol || keys.rcontrol,
                shift: keys.lshift || keys.rshift,
                ..old(self).modifiers
            }),
    {
        self.time_micros = Some(elapsed_micros);
        self.modifiers.alt = keys.lalt || keys.ralt;
        self.modifiers.ctrl = keys.lcontrol || keys.rcontrol;
        self.modifiers.shift = keys.lshift || keys.rshift;
    }
}

/// Every key event that a key press or release yields carries the logical key
/// that the table gives for its code, and a code without an entry yields no key
/// event at all.
pub proof fn lemma_key_events_follow_table(event: NativeEvent, clipboard: Seq<char>, lcontrol: bool)
    requires
        event is KeyPressed || event is KeyReleased,
    ensures
        forall|i: int|
            0 <= i < translate(event, clipboard, lcontrol).len() && (#[trigger] translate(
                event,
                clipboard,
                lcontrol,
            )[i]) is Key ==> ({
                let code = if event is KeyPressed {
                    event->KeyPressed_code
                } else {
                    event->KeyReleased_code
                };
                key_map(code) == Some(translate(event, clipboard, lcontrol)[i]->Key_key)
            }),
        ({
            let code = if event is KeyPressed {
                event->KeyPressed_code
            } else {
                event->KeyReleased_code
            };
            key_map(code) is None ==> forall|i: int|
                0 <= i < translate(event, clipboard, lcontrol).len() ==> !(
                #[trigger] translate(event, clipboard, lcontrol)[i] is Key)
        }),
        ({
            let code = if event is KeyPressed {
                event->KeyPressed_code
            } else {
                event->KeyReleased_code
            };
            let evs = translate(event, clipboard, lcontrol);
            key_map(code) matches Some(k) ==> evs.len() > 0 && evs.last() is Key && evs.last()->Key_key
                == k && evs.last()->Key_pressed == (event is KeyPressed)
        }),
{
}

/// A resize sets the screen rectangle to span exactly the new size, whatever
/// rectangle was pending before.
pub proof fn lemma_resize_sets_rect(rect: Option<ScreenRect>, width: u32, height: u32)
    ensures
        rect_after(NativeEvent::Resized { width, height }, rect) == Some(
            rect_of_size(width, height),
        ),
        rect_of_size(width, height).min_x == 0 && rect_of_size(width, height).min_y == 0,
        rect_of_size(width, height).max_x == width && rect_of_size(width, height).max_y
            == height,
{
}

} // verus!
