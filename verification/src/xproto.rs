//! The vocabulary the manager shares with the display connection: the
//! numbers of the X protocol it uses, the events it is handed and the
//! requests it hands back.
//!
//! The manager never talks to a display itself. Whoever owns the connection
//! turns each X event into an [`Event`], and performs each [`Request`] the
//! manager answers with, in the order given.

#![allow(non_upper_case_globals)]

use crate::geometry::Quad;
use vstd::prelude::*;

verus! {

/// The identifier of a window on the display.
pub type XWindow = u64;

/// Event mask bit: key presses.
pub const KeyPressMask: i64 = 0x0000_0001;

/// Event mask bit: the pointer entering the window.
pub const EnterWindowMask: i64 = 0x0000_0010;

/// Event mask bit: the pointer leaving the window.
pub const LeaveWindowMask: i64 = 0x0000_0020;

/// Event mask bit: changes to the children of the window.
pub const SubstructureNotifyMask: i64 = 0x0008_0000;

/// Event mask bit: redirection of the requests of other clients to map,
/// configure or circulate the children of the window. One client at a time
/// can select it on a window.
pub const SubstructureRedirectMask: i64 = 0x0010_0000;

/// Event mask bit: changes of the input focus.
pub const FocusChangeMask: i64 = 0x0020_0000;

/// What the manager selects on the root window.
pub const ROOT_EVENT_MASK: i64 = 0x0038_0000;

/// What the manager selects on the root window once its keys are grabbed:
/// the root selection and key presses.
pub const ROOT_KEY_EVENT_MASK: i64 = 0x0038_0001;

/// What the manager selects on each frame.
pub const FRAME_EVENT_MASK: i64 = 0x0038_0030;

/// Modifier bit of the Shift keys in a key or button state.
pub const ShiftMask: u32 = 0x01;

/// Modifier bit of the Lock keys.
pub const LockMask: u32 = 0x02;

/// Modifier bit of the Control keys.
pub const ControlMask: u32 = 0x04;

/// Modifier bit of the first modifier group, by convention Alt.
pub const Mod1Mask: u32 = 0x08;

/// Modifier bit of the fourth modifier group, by convention Super.
pub const Mod4Mask: u32 = 0x40;

/// The first pointer button.
pub const Button1: u32 = 1;

/// Grab mode in which event processing freezes while the grab is active.
pub const GrabModeSync: i32 = 0;

/// Map state of a window that is mapped and whose ancestors all are.
pub const IsViewable: i32 = 2;

/// The key code that stands for any key in a grab, and the answer of the
/// server for a keysym that no key carries.
pub const AnyKey: u8 = 0;

/// Error code: the window named in a request does not exist.
pub const BadWindow: u8 = 3;

/// Error code: the client may not do what it asked for; among others, the
/// answer to selecting substructure redirection where another client holds it.
pub const BadAccess: u8 = 10;

/// What the manager reads of the attributes of a window.
#[derive(Debug, Clone, Copy, PartialEq, Eq, Structural)]
pub struct WindowAttributes {
    pub x: i32,
    pub y: i32,
    pub width: i32,
    pub height: i32,
    /// Whether the window asks to be left out of substructure redirection.
    pub override_redirect: bool,
    pub map_state: i32,
}

/// The geometry and stacking changes of a configure request.
#[derive(Debug, Clone, Copy, PartialEq, Eq, Structural)]
pub struct WindowChanges {
    pub x: i32,
    pub y: i32,
    pub width: i32,
    pub height: i32,
    pub border_width: i32,
    pub sibling: XWindow,
    pub stack_mode: i32,
}

/// What the display connection reports to the manager.
#[derive(Debug, Clone, Copy, PartialEq, Eq, Structural)]
pub enum Event {
    /// A grabbed key was pressed under the modifier state `state`.
    KeyPress { keycode: u32, state: u32 },
    ButtonPress { window: XWindow },
    /// The pointer entered `window`.
    EnterNotify { window: XWindow },
    LeaveNotify { window: XWindow },
    FocusIn { window: XWindow },
    FocusOut { window: XWindow },
    CreateNotify { window: XWindow },
    /// `window` was destroyed.
    DestroyNotify { window: XWindow },
    /// `window` was unmapped; `event` is the window the notification was
    /// selected on.
    UnmapNotify { event: XWindow, window: XWindow },
    MapNotify { window: XWindow },
    /// A client asked to map `window`. `attributes` is the answer of the
    /// server to a query for the attributes of `window`, `None` where the
    /// query failed. `frame` is an identifier the connection holds ready for
    /// a new window; it is used where the window comes to be managed.
    MapRequest { window: XWindow, attributes: Option<WindowAttributes>, frame: XWindow },
    ReparentNotify { window: XWindow },
    ConfigureNotify { window: XWindow },
    /// A client asked to configure `window`.
    ConfigureRequest { window: XWindow, value_mask: u64, changes: WindowChanges },
    /// The answer to [`Request::GetProtocols`]: whether `window` takes part
    /// in the protocol by which a client is asked to delete a window.
    Protocols { window: XWindow, delete_window: bool },
    /// The server reported the error `code` for a request with the major
    /// opcode `request`.
    Error { code: u8, request: u8 },
    /// Any other event, by its type code.
    Other { kind: i32 },
}

/// What the manager asks of the display connection.
#[derive(Debug, Clone, Copy, PartialEq, Eq, Structural)]
pub enum Request {
    /// Route the errors the server reports to the manager, as
    /// [`Event::Error`].
    SetErrorHandler,
    SelectInput { window: XWindow, mask: i64 },
    /// Wait until the server has processed every request so far.
    Sync,
    GrabServer,
    UngrabServer,
    /// Create the window `window` as a child of `parent`.
    CreateSimpleWindow {
        window: XWindow,
        parent: XWindow,
        rect: Quad,
        border_width: u32,
        border: u64,
        background: u64,
    },
    /// Make `window` a child of `parent`, at the given offset in it.
    ReparentWindow { window: XWindow, parent: XWindow, x: i32, y: i32 },
    MapWindow { window: XWindow },
    UnmapWindow { window: XWindow },
    DestroyWindow { window: XWindow },
    ConfigureWindow { window: XWindow, value_mask: u32, changes: WindowChanges },
    MoveResizeWindow { window: XWindow, rect: Quad },
    /// Grab the key `keycode` under `modifiers` on `grab_window`.
    GrabKey {
        keycode: u8,
        modifiers: u32,
        grab_window: XWindow,
        owner_events: bool,
        pointer_mode: i32,
        keyboard_mode: i32,
    },
    /// Grab the pointer button `button` under `modifiers` on `grab_window`.
    GrabButton {
        button: u32,
        modifiers: u32,
        grab_window: XWindow,
        owner_events: bool,
        event_mask: u32,
        pointer_mode: i32,
        keyboard_mode: i32,
        confine_to: XWindow,
        cursor: u64,
    },
    SetWindowBorder { window: XWindow, colour: u64 },
    AddToSaveSet { window: XWindow },
    /// Ask which protocols `window` takes part in; the answer comes back as
    /// [`Event::Protocols`].
    GetProtocols { window: XWindow },
    /// Send `window` the client message that asks it to delete itself.
    SendDeleteWindow { window: XWindow },
    /// Close the connection of the client that owns `window`.
    KillClient { window: XWindow },
}

/// The root selection is made of the three masks the manager needs there.
pub proof fn lemma_root_event_mask()
    ensures
        ROOT_EVENT_MASK == SubstructureRedirectMask | SubstructureNotifyMask | FocusChangeMask,
        ROOT_KEY_EVENT_MASK == ROOT_EVENT_MASK | KeyPressMask,
        FRAME_EVENT_MASK == SubstructureRedirectMask | SubstructureNotifyMask | FocusChangeMask
            | EnterWindowMask | LeaveWindowMask,
{
    assert(0x0038_0000i64 == 0x0010_0000i64 | 0x0008_0000i64 | 0x0020_0000i64) by (bit_vector);
    assert(0x0038_0001i64 == 0x0038_0000i64 | 0x0000_0001i64) by (bit_vector);
    assert(0x0038_0030i64 == 0x0010_0000i64 | 0x0008_0000i64 | 0x0020_0000i64 | 0x0000_0010i64
        | 0x0000_0020i64) by (bit_vector);
}

} // verus!
