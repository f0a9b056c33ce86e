//! Terminal input events as plain values, and the global quit hotkey.

use vstd::prelude::*;

verus! {

/// Modifier bit of the Shift key.
pub const SHIFT: u8 = 1;

/// Modifier bit of the Control key.
pub const CONTROL: u8 = 2;

/// Modifier bit of the Alt key.
pub const ALT: u8 = 4;

/// The key that was pressed.
#[derive(Clone, Copy, Debug, PartialEq, Eq, Structural)]
pub enum KeyCode {
    Backspace,
    Enter,
    Left,
    Right,
    Up,
    Down,
    Home,
    End,
    PageUp,
    PageDown,
    Tab,
    BackTab,
    Delete,
    Insert,
    F(u8),
    Char(char),
    Null,
    Esc,
    CapsLock,
    ScrollLock,
    NumLock,
    PrintScreen,
    Pause,
    Menu,
    KeypadBegin,
    Media(MediaKey),
    Modifier(ModifierKey),
}

/// A media key.
#[derive(Clone, Copy, Debug, PartialEq, Eq, Structural)]
pub enum MediaKey {
    Play,
    Pause,
    PlayPause,
    Reverse,
    Stop,
    FastForward,
    Rewind,
    TrackNext,
    TrackPrevious,
    Record,
    LowerVolume,
    RaiseVolume,
    MuteVolume,
}

/// A modifier key pressed on its own.
#[derive(Clone, Copy, Debug, PartialEq, Eq, Structural)]
pub enum ModifierKey {
    LeftShift,
    LeftControl,
    LeftAlt,
    LeftSuper,
    LeftHyper,
    LeftMeta,
    RightShift,
    RightControl,
    RightAlt,
    RightSuper,
    RightHyper,
    RightMeta,
    IsoLevel3Shift,
    IsoLevel5Shift,
}

/// Whether a key went down, repeated or came up.
#[derive(Clone, Copy, Debug, PartialEq, Eq, Structural)]
pub enum KeyKind {
    Press,
    Repeat,
    Release,
}

/// A key press with the set of modifiers held, as bits (`SHIFT`, `CONTROL`, `ALT`, ...).
#[derive(Clone, Copy, Debug, PartialEq, Eq, Structural)]
pub struct KeyEvent {
    pub code: KeyCode,
    pub modifiers: u8,
    pub kind: KeyKind,
    pub state: u8,
}

#[derive(Clone, Copy, Debug, PartialEq, Eq, Structural)]
pub enum MouseButton {
    Left,
    Right,
    Middle,
}

#[derive(Clone, Copy, Debug, PartialEq, Eq, Structural)]
pub enum MouseKind {
    Down(MouseButton),
    Up(MouseButton),
    Drag(MouseButton),
    Moved,
    ScrollDown,
    ScrollUp,
}

/// A mouse action at a cell of the screen.
#[derive(Clone, Copy, Debug, PartialEq, Eq, Structural)]
pub struct MouseEvent {
    pub kind: MouseKind,
    pub column: u16,
    pub row: u16,
    pub modifiers: u8,
}

/// One input event from the terminal.
#[derive(Clone, Copy, Debug, PartialEq, Eq, Structural)]
pub enum Event {
    FocusGained,
    FocusLost,
    Key(KeyEvent),
    Mouse(MouseEvent),
    /// New size of the terminal: columns, rows.
    Resize(u16, u16),
}

impl KeyEvent {
    /// A key press with the given modifier bits.
    pub fn new(code: KeyCode, modifiers: u8) -> (r: KeyEvent)
        ensures
            r == (KeyEvent { code, modifiers, kind: KeyKind::Press, state: 0 }),
    {
        KeyEvent { code, modifiers, kind: KeyKind::Press, state: 0 }
    }
}

/// The quit hotkey: the key `c` with Control as the only modifier.
pub open spec fn is_quit_spec(e: Event) -> bool {
    match e {
        Event::Key(k) => k.modifiers == CONTROL && k.code == KeyCode::Char('c'),
        _ => false,
    }
}

/// Tells whether `e` is the quit hotkey, which ends the session before any view sees it.
pub fn is_quit(e: &Event) -> (r: bool)
    ensures
        r == is_quit_spec(*e),
{
    match e {
        Event::Key(k) => k.modifiers == CONTROL && k.code == KeyCode::Char('c'),
        _ => false,
    }
}

} // verus!
