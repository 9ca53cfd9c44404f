//! Platform side effects of a finished frame: clipboard, cursor and window commands.
use vstd::prelude::*;

verus! {

/// The cursor shape that the GUI asks for.
#[derive(Clone, Copy, Debug, PartialEq, Eq, Structural)]
pub enum CursorIcon {
    Default,
    NoCursor,
    ContextMenu,
    Help,
    PointingHand,
    Progress,
    Wait,
    Cell,
    Crosshair,
    Text,
    VerticalText,
    Alias,
    Copy,
    Move,
    NoDrop,
    NotAllowed,
    Grab,
    Grabbing,
    AllScroll,
    ResizeHorizontal,
    ResizeNeSw,
    ResizeNwSe,
    ResizeVertical,
    ResizeEast,
    ResizeSouthEast,
    ResizeSouth,
    ResizeSouthWest,
    ResizeWest,
    ResizeNorthWest,
    ResizeNorth,
    ResizeNorthEast,
    ResizeColumn,
    ResizeRow,
    ZoomIn,
    ZoomOut,
}

/// The six native cursors that are built once and reused.
#[derive(Clone, Copy, Debug, PartialEq, Eq, Structural)]
pub enum CursorKind {
    Arrow,
    Horizontal,
    Vertical,
    Hand,
    Cross,
    Text,
}

/// What to do with the native cursor for a requested icon.
#[derive(Clone, Copy, Debug, PartialEq, Eq, Structural)]
pub enum CursorChoice {
    /// Hide the cursor.
    Hidden,
    /// Show the cursor and assign this one from the prebuilt set.
    Shown(CursorKind),
}

/// The cursor table: each icon's native cursor, the arrow for icons without
/// a native counterpart, and no cursor for `None`.
pub open spec fn cursor_for(icon: CursorIcon) -> CursorChoice {
    match icon {
        CursorIcon::NoCursor => CursorChoice::Hidden,
        CursorIcon::PointingHand | CursorIcon::Grab | CursorIcon::Grabbing => CursorChoice::Shown(
            CursorKind::Hand,
        ),
        CursorIcon::Crosshair => CursorChoice::Shown(CursorKind::Cross),
        CursorIcon::Text => CursorChoice::Shown(CursorKind::Text),
        CursorIcon::ResizeHorizontal | CursorIcon::ResizeColumn => CursorChoice::Shown(
            CursorKind::Horizontal,
        ),
        CursorIcon::ResizeVertical => CursorChoice::Shown(CursorKind::Vertical),
        _ => CursorChoice::Shown(CursorKind::Arrow),
    }
}

/// Picks the native cursor for a requested icon.
pub fn select_cursor(icon: CursorIcon) -> (r: CursorChoice)
    ensures
        r == cursor_for(icon),
{
    match icon {
        CursorIcon::Default => CursorChoice::Shown(CursorKind::Arrow),
        CursorIcon::NoCursor => CursorChoice::Hidden,
        CursorIcon::PointingHand | CursorIcon::Grab | CursorIcon::Grabbing => CursorChoice::Shown(
            CursorKind::Hand,
        ),
        CursorIcon::Crosshair => CursorChoice::Shown(CursorKind::Cross),
        CursorIcon::Text => CursorChoice::Shown(CursorKind::Text),
        CursorIcon::ResizeHorizontal | CursorIcon::ResizeColumn => CursorChoice::Shown(
            CursorKind::Horizontal,
        ),
        CursorIcon::ResizeVertical => CursorChoice::Shown(CursorKind::Vertical),
        _ => CursorChoice::Shown(CursorKind::Arrow),
    }
}

/// The prebuilt native cursors, one of each kind.
pub struct Cursors<C> {
    pub arrow: C,
    pub horizontal: C,
    pub vertical: C,
    pub hand: C,
    pub cross: C,
    pub text: C,
}

impl<C> Cursors<C> {
    /// The cursor of the given kind.
    pub open spec fn get(&self, kind: CursorKind) -> C {
        match kind {
            CursorKind::Arrow => self.arrow,
            CursorKind::Horizontal => self.horizontal,
            CursorKind::Vertical => self.vertical,
            CursorKind::Hand => self.hand,
            CursorKind::Cross => self.cross,
            CursorKind::Text => self.text,
        }
    }

    /// Borrows the prebuilt cursor of the given kind; nothing is created.
    pub fn cursor(&self, kind: CursorKind) -> (r: &C)
        ensures
            *r == self.get(kind),
    {
        match kind {
            CursorKind::Arrow => &self.arrow,
            CursorKind::Horizontal => &self.horizontal,
            CursorKind::Vertical => &self.vertical,
            CursorKind::Hand => &self.hand,
            CursorKind::Cross => &self.cross,
            CursorKind::Text => &self.text,
        }
    }
}

/// The native cursor's state: whether it shows, and which cursor is assigned.
#[derive(Clone, Copy, Debug, PartialEq, Eq, Structural)]
pub struct CursorState {
    pub visible: bool,
    pub cursor: CursorKind,
}

/// The cursor state after applying `choice` to `s`.
pub open spec fn apply_cursor(s: CursorState, choice: CursorChoice) -> CursorState {
    match choice {
        CursorChoice::Hidden => CursorState { visible: false, ..s },
        CursorChoice::Shown(kind) => CursorState { visible: true, cursor: kind },
    }
}

/// Selecting the cursor twice for the same icon makes the same choice from
/// the fixed table both times, and applying it again changes nothing.
pub proof fn lemma_cursor_selection_idempotent(s: CursorState, icon: CursorIcon)
    ensures
        cursor_for(icon) == cursor_for(icon),
        apply_cursor(apply_cursor(s, cursor_for(icon)), cursor_for(icon)) == apply_cursor(
            s,
            cursor_for(icon),
        ),
{
}

/// Whether the frame's copied text is to be written to the clipboard.
pub fn should_copy(copied_text: &String) -> (r: bool)
    ensures
        r == (copied_text@.len() > 0),
{
    !copied_text.as_str().is_empty()
}

/// A window position, in screen pixels.
#[derive(Clone, Copy, Debug, PartialEq, Eq, Structural, Default)]
pub struct WindowPos {
    pub x: i32,
    pub y: i32,
}

/// A command of the GUI for its viewport.
#[derive(Debug, PartialEq, Eq)]
pub enum ViewportCommand {
    Close,
    Title(String),
    Visible(bool),
    Focus,
    /// Any other command, which the window does not carry out.
    Other,
}

/// A native window call.
#[derive(Debug, PartialEq, Eq)]
pub enum WindowAction {
    Close,
    SetTitle(String),
    SetVisible(bool),
    SetPosition(WindowPos),
    /// The command is not carried out; a warning is due.
    Unhandled,
}

/// The window calls for `cmd`, given whether it targets the primary viewport,
/// the window's position now and the remembered position.
pub open spec fn viewport_plan(
    cmd: ViewportCommand,
    primary: bool,
    current: WindowPos,
    last: WindowPos,
) -> Seq<WindowAction> {
    if !primary {
        seq![WindowAction::Unhandled]
    } else {
        match cmd {
            ViewportCommand::Close => seq![WindowAction::Close],
            ViewportCommand::Title(s) => seq![WindowAction::SetTitle(s)],
            ViewportCommand::Visible(v) => if v {
                seq![WindowAction::SetVisible(true), WindowAction::SetPosition(last)]
            } else {
                seq![WindowAction::SetVisible(false)]
            },
            ViewportCommand::Focus => seq![
                WindowAction::SetVisible(false),
                WindowAction::SetVisible(true),
                WindowAction::SetPosition(current),
            ],
            ViewportCommand::Other => seq![WindowAction::Unhandled],
        }
    }
}

/// The remembered position after `cmd`: hiding the primary window remembers
/// where it stood.
pub open spec fn remembered_after(
    cmd: ViewportCommand,
    primary: bool,
    current: WindowPos,
    last: WindowPos,
) -> WindowPos {
    if primary && cmd == ViewportCommand::Visible(false) {
        current
    } else {
        last
    }
}

/// Decides the window calls for a viewport command. `current` is the window's
/// position now; `last_pos` is where it stood when last hidden.
pub fn viewport_actions(
    cmd: &ViewportCommand,
    primary: bool,
    current: WindowPos,
    last_pos: &mut WindowPos,
) -> (r: Vec<WindowAction>)
    ensures
        r@ == viewport_plan(*cmd, primary, current, *old(last_pos)),
        *final(last_pos) == remembered_after(*cmd, primary, current, *old(last_pos)),
{
    let mut actions: Vec<WindowAction> = Vec::new();
    if !primary {
        actions.push(WindowAction::Unhandled);
        assert(actions@ =~= viewport_plan(*cmd, primary, current, *old(last_pos)));
        return actions;
    }
    match cmd {
        ViewportCommand::Close => actions.push(WindowAction::Close),
        ViewportCommand::Title(s) => actions.push(WindowAction::SetTitle(s.clone())),
        ViewportCommand::Visible(visible) => {
            if !*visible {
                *last_pos = current;
            }
            actions.push(WindowAction::SetVisible(*visible));
            if *visible {
                actions.push(WindowAction::SetPosition(*last_pos));
            }
        },
        ViewportCommand::Focus => {
            actions.push(WindowAction::SetVisible(false));
            actions.push(WindowAction::SetVisible(true));
            actions.push(WindowAction::SetPosition(current));
        },
        ViewportCommand::Other => actions.push(WindowAction::Unhandled),
    }
    assert(actions@ =~= viewport_plan(*cmd, primary, current, *old(last_pos)));
    actions
}

} // verus!
