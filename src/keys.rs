//! Keyboard and mouse vocabulary: the window system's key codes and buttons,
//! the GUI's logical keys, and the table between them.
use vstd::prelude::*;

verus! {

/// A key code as the window system reports it.
#[derive(Clone, Copy, Debug, PartialEq, Eq, Structural)]
pub enum NativeKey {
    Unknown,
    A,
    B,
    C,
    D,
    E,
    F,
    G,
    H,
    I,
    J,
    K,
    L,
    M,
    N,
    O,
    P,
    Q,
    R,
    S,
    T,
    U,
    V,
    W,
    X,
    Y,
    Z,
    Num0,
    Num1,
    Num2,
    Num3,
    Num4,
    Num5,
    Num6,
    Num7,
    Num8,
    Num9,
    Escape,
    LControl,
    LShift,
    LAlt,
    LSystem,
    RControl,
    RShift,
    RAlt,
    RSystem,
    Menu,
    LBracket,
    RBracket,
    Semicolon,
    Comma,
    Period,
    Quote,
    Slash,
    Backslash,
    Tilde,
    Equal,
    Hyphen,
    Space,
    Enter,
    Backspace,
    Tab,
    PageUp,
    PageDown,
    End,
    Home,
    Insert,
    Delete,
    Add,
    Subtract,
    Multiply,
    Divide,
    Left,
    Right,
    Up,
    Down,
    Numpad0,
    Numpad1,
    Numpad2,
    Numpad3,
    Numpad4,
    Numpad5,
    Numpad6,
    Numpad7,
    Numpad8,
    Numpad9,
    F1,
    F2,
    F3,
    F4,
    F5,
    F6,
    F7,
    F8,
    F9,
    F10,
    F11,
    F12,
    F13,
    F14,
    F15,
    Pause,
}

/// A logical key of the GUI's input model (the subset that has a native counterpart).
#[derive(Clone, Copy, Debug, PartialEq, Eq, Structural)]
pub enum GuiKey {
    ArrowDown,
    ArrowLeft,
    ArrowRight,
    ArrowUp,
    Escape,
    Tab,
    Backspace,
    Enter,
    Space,
    Insert,
    Delete,
    Home,
    End,
    PageUp,
    PageDown,
    OpenBracket,
    CloseBracket,
    Num0,
    Num1,
    Num2,
    Num3,
    Num4,
    Num5,
    Num6,
    Num7,
    Num8,
    Num9,
    A,
    B,
    C,
    D,
    E,
    F,
    G,
    H,
    I,
    J,
    K,
    L,
    M,
    N,
    O,
    P,
    Q,
    R,
    S,
    T,
    U,
    V,
    W,
    X,
    Y,
    Z,
    F1,
    F2,
    F3,
    F4,
    F5,
    F6,
    F7,
    F8,
    F9,
    F10,
    F11,
    F12,
    Equals,
    Minus,
    Slash,
    Backtick,
}

/// A mouse button as the window system reports it.
#[derive(Clone, Copy, Debug, PartialEq, Eq, Structural)]
pub enum MouseButton {
    Left,
    Right,
    Middle,
    XButton1,
    XButton2,
}

/// A pointer button of the GUI's input model.
#[derive(Clone, Copy, Debug, PartialEq, Eq, Structural)]
pub enum PointerButton {
    Primary,
    Secondary,
    Middle,
}

/// The modifier-key state attached to a GUI event.
#[derive(Clone, Copy, Debug, PartialEq, Eq, Structural)]
pub struct Modifiers {
    pub alt: bool,
    pub ctrl: bool,
    pub shift: bool,
    /// The platform's command key; the window system has none of its own,
    /// so it mirrors `ctrl`.
    pub command: bool,
    /// The macOS command key, which is never reported here.
    pub mac_cmd: bool,
}

/// The logical key that a native key code stands for, if any.
pub open spec fn key_map(code: NativeKey) -> Option<GuiKey> {
    match code {
        NativeKey::Down => Some(GuiKey::ArrowDown),
        NativeKey::Left => Some(GuiKey::ArrowLeft),
        NativeKey::Right => Some(GuiKey::ArrowRight),
        NativeKey::Up => Some(GuiKey::ArrowUp),
        NativeKey::Escape => Some(GuiKey::Escape),
        NativeKey::Tab => Some(GuiKey::Tab),
        NativeKey::Backspace => Some(GuiKey::Backspace),
        NativeKey::Enter => Some(GuiKey::Enter),
        NativeKey::Space => Some(GuiKey::Space),
        NativeKey::Insert => Some(GuiKey::Insert),
        NativeKey::Delete => Some(GuiKey::Delete),
        NativeKey::Home => Some(GuiKey::Home),
        NativeKey::End => Some(GuiKey::End),
        NativeKey::PageUp => Some(GuiKey::PageUp),
        NativeKey::PageDown => Some(GuiKey::PageDown),
        NativeKey::LBracket => Some(GuiKey::OpenBracket),
        NativeKey::RBracket => Some(GuiKey::CloseBracket),
        NativeKey::Num0 => Some(GuiKey::Num0),
        NativeKey::Num1 => Some(GuiKey::Num1),
        NativeKey::Num2 => Some(GuiKey::Num2),
        NativeKey::Num3 => Some(GuiKey::Num3),
        NativeKey::Num4 => Some(GuiKey::Num4),
        NativeKey::Num5 => Some(GuiKey::Num5),
        NativeKey::Num6 => Some(GuiKey::Num6),
        NativeKey::Num7 => Some(GuiKey::Num7),
        NativeKey::Num8 => Some(GuiKey::Num8),
        NativeKey::Num9 => Some(GuiKey::Num9),
        NativeKey::A => Some(GuiKey::A),
        NativeKey::B => Some(GuiKey::B),
        NativeKey::C => Some(GuiKey::C),
        NativeKey::D => Some(GuiKey::D),
        NativeKey::E => Some(GuiKey::E),
        NativeKey::F => Some(GuiKey::F),
        NativeKey::G => Some(GuiKey::G),
        NativeKey::H => Some(GuiKey::H),
        NativeKey::I => Some(GuiKey::I),
        NativeKey::J => Some(GuiKey::J),
        NativeKey::K => Some(GuiKey::K),
        NativeKey::L => Some(GuiKey::L),
        NativeKey::M => Some(GuiKey::M),
        NativeKey::N => Some(GuiKey::N),
        NativeKey::O => Some(GuiKey::O),
        NativeKey::P => Some(GuiKey::P),
        NativeKey::Q => Some(GuiKey::Q),
        NativeKey::R => Some(GuiKey::R),
        NativeKey::S => Some(GuiKey::S),
        NativeKey::T => Some(GuiKey::T),
        NativeKey::U => Some(GuiKey::U),
        NativeKey::V => Some(GuiKey::V),
        NativeKey::W => Some(GuiKey::W),
        NativeKey::X => Some(GuiKey::X),
        NativeKey::Y => Some(GuiKey::Y),
        NativeKey::Z => Some(GuiKey::Z),
        NativeKey::F1 => Some(GuiKey::F1),
        NativeKey::F2 => Some(GuiKey::F2),
        NativeKey::F3 => Some(GuiKey::F3),
        NativeKey::F4 => Some(GuiKey::F4),
        NativeKey::F5 => Some(GuiKey::F5),
        NativeKey::F6 => Some(GuiKey::F6),
        NativeKey::F7 => Some(GuiKey::F7),
        NativeKey::F8 => Some(GuiKey::F8),
        NativeKey::F9 => Some(GuiKey::F9),
        NativeKey::F10 => Some(GuiKey::F10),
        NativeKey::F11 => Some(GuiKey::F11),
        NativeKey::F12 => Some(GuiKey::F12),
        NativeKey::Equal => Some(GuiKey::Equals),
        NativeKey::Hyphen => Some(GuiKey::Minus),
        NativeKey::Slash => Some(GuiKey::Slash),
        NativeKey::Tilde => Some(GuiKey::Backtick),
        _ => None,
    }
}

/// Maps a native key code to the GUI's logical key.
pub fn key_conv(code: NativeKey) -> (r: Option<GuiKey>)
    ensures
        r == key_map(code),
{
    let key = match code {
        NativeKey::Down => GuiKey::ArrowDown,
        NativeKey::Left => GuiKey::ArrowLeft,
        NativeKey::Right => GuiKey::ArrowRight,
        NativeKey::Up => GuiKey::ArrowUp,
        NativeKey::Escape => GuiKey::Escape,
        NativeKey::Tab => GuiKey::Tab,
        NativeKey::Backspace => GuiKey::Backspace,
        NativeKey::Enter => GuiKey::Enter,
        NativeKey::Space => GuiKey::Space,
        NativeKey::Insert => GuiKey::Insert,
        NativeKey::Delete => GuiKey::Delete,
        NativeKey::Home => GuiKey::Home,
        NativeKey::End => GuiKey::End,
        NativeKey::PageUp => GuiKey::PageUp,
        NativeKey::PageDown => GuiKey::PageDown,
        NativeKey::LBracket => GuiKey::OpenBracket,
        NativeKey::RBracket => GuiKey::CloseBracket,
        NativeKey::Num0 => GuiKey::Num0,
        NativeKey::Num1 => GuiKey::Num1,
        NativeKey::Num2 => GuiKey::Num2,
        NativeKey::Num3 => GuiKey::Num3,
        NativeKey::Num4 => GuiKey::Num4,
        NativeKey::Num5 => GuiKey::Num5,
        NativeKey::Num6 => GuiKey::Num6,
        NativeKey::Num7 => GuiKey::Num7,
        NativeKey::Num8 => GuiKey::Num8,
        NativeKey::Num9 => GuiKey::Num9,
        NativeKey::A => GuiKey::A,
        NativeKey::B => GuiKey::B,
        NativeKey::C => GuiKey::C,
        NativeKey::D => GuiKey::D,
        NativeKey::E => GuiKey::E,
        NativeKey::F => GuiKey::F,
        NativeKey::G => GuiKey::G,
        NativeKey::H => GuiKey::H,
        NativeKey::I => GuiKey::I,
        NativeKey::J => GuiKey::J,
        NativeKey::K => GuiKey::K,
        NativeKey::L => GuiKey::L,
        NativeKey::M => GuiKey::M,
        NativeKey::N => GuiKey::N,
        NativeKey::O => GuiKey::O,
        NativeKey::P => GuiKey::P,
        NativeKey::Q => GuiKey::Q,
        NativeKey::R => GuiKey::R,
        NativeKey::S => GuiKey::S,
        NativeKey::T => GuiKey::T,
        NativeKey::U => GuiKey::U,
        NativeKey::V => GuiKey::V,
        NativeKey::W => GuiKey::W,
        NativeKey::X => GuiKey::X,
        NativeKey::Y => GuiKey::Y,
        NativeKey::Z => GuiKey::Z,
        NativeKey::F1 => GuiKey::F1,
        NativeKey::F2 => GuiKey::F2,
        NativeKey::F3 => GuiKey::F3,
        NativeKey::F4 => GuiKey::F4,
        NativeKey::F5 => GuiKey::F5,
        NativeKey::F6 => GuiKey::F6,
        NativeKey::F7 => GuiKey::F7,
        NativeKey::F8 => GuiKey::F8,
        NativeKey::F9 => GuiKey::F9,
        NativeKey::F10 => GuiKey::F10,
        NativeKey::F11 => GuiKey::F11,
        NativeKey::F12 => GuiKey::F12,
        NativeKey::Equal => GuiKey::Equals,
        NativeKey::Hyphen => GuiKey::Minus,
        NativeKey::Slash => GuiKey::Slash,
        NativeKey::Tilde => GuiKey::Backtick,
        _ => {
            return None;
        },
    };
    Some(key)
}

/// The pointer button that a native mouse button stands for, if any.
pub open spec fn button_map(button: MouseButton) -> Option<PointerButton> {
    match button {
        MouseButton::Left => Some(PointerButton::Primary),
        MouseButton::Right => Some(PointerButton::Secondary),
        MouseButton::Middle => Some(PointerButton::Middle),
        _ => None,
    }
}

/// Maps a native mouse button to a pointer button; the extra buttons have none.
pub fn button_conv(button: MouseButton) -> (r: Option<PointerButton>)
    ensures
        r == button_map(button),
{
    match button {
        MouseButton::Left => Some(PointerButton::Primary),
        MouseButton::Right => Some(PointerButton::Secondary),
        MouseButton::Middle => Some(PointerButton::Middle),
        _ => None,
    }
}

/// The modifier snapshot for the given alt, ctrl and shift states.
pub open spec fn modifiers_of(alt: bool, ctrl: bool, shift: bool) -> Modifiers {
    Modifiers { alt, ctrl, shift, command: ctrl, mac_cmd: false }
}

/// The empty modifier snapshot.
pub open spec fn no_modifiers() -> Modifiers {
    modifiers_of(false, false, false)
}

/// Builds a modifier snapshot; `command` follows `ctrl`.
pub fn modifier(alt: bool, ctrl: bool, shift: bool) -> (r: Modifiers)
    ensures
        r == modifiers_of(alt, ctrl, shift),
{
    Modifiers { alt, ctrl, shift, command: ctrl, mac_cmd: false }
}

/// A modifier snapshot with every key released.
pub fn no_modifier() -> (r: Modifiers)
    ensures
        r == no_modifiers(),
{
    modifier(false, false, false)
}

} // verus!
