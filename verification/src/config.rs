//! The configuration the manager consumes: arrangement and border settings,
//! key bindings and a colour palette, with the tables that turn key and
//! modifier names into X keysyms and modifier masks.

#![allow(non_camel_case_types)]

use crate::keysym;
use crate::xproto;
use vstd::prelude::*;

verus! {

/// A key that a binding can name.
#[derive(Debug, Clone, Copy, Hash)]
pub enum Key {
    Key1,
    Key2,
    Key3,
    Key4,
    Key5,
    Key6,
    Key7,
    Key8,
    Key9,
    Key0,
    A,
    B,
    C,
    D,
    E,
    F,
    G,
    H,
    I,
    J,
    K,
    L,
    M,
    N,
    O,
    P,
    Q,
    R,
    S,
    T,
    U,
    V,
    W,
    X,
    Y,
    Z,
    Escape,
    F1,
    F2,
    F3,
    F4,
    F5,
    F6,
    F7,
    F8,
    F9,
    F10,
    F11,
    F12,
    Scroll,
    Pause,
    Insert,
    Home,
    Delete,
    End,
    PageDown,
    PageUp,
    Left,
    Up,
    Right,
    Down,
    Back,
    Return,
    Space,
    Numlock,
    Numpad0,
    Numpad1,
    Numpad2,
    Numpad3,
    Numpad4,
    Numpad5,
    Numpad6,
    Numpad7,
    Numpad8,
    Numpad9,
    Apostrophe,
    Backslash,
    Colon,
    Comma,
    Grave,
    LAlt,
    LBracket,
    LControl,
    LShift,
    LWin,
    NumpadComma,
    NumpadEnter,
    NumpadEquals,
    Period,
    RAlt,
    RBracket,
    RControl,
    RShift,
    RWin,
    Semicolon,
    Slash,
    Tab,
    /// The absence of a key. It has no keysym and no name.
    NoKey,
}

impl Key {
    /// The keysym of each key; `NoSymbol` for `NoKey`.
    pub open spec fn keysym(self) -> u64 {
        match self {
            Key::Key1 => keysym::XK_1,
            Key::Key2 => keysym::XK_2,
            Key::Key3 => keysym::XK_3,
            Key::Key4 => keysym::XK_4,
            Key::Key5 => keysym::XK_5,
            Key::Key6 => keysym::XK_6,
            Key::Key7 => keysym::XK_7,
            Key::Key8 => keysym::XK_8,
            Key::Key9 => keysym::XK_9,
            Key::Key0 => keysym::XK_0,
            Key::A => keysym::XK_A,
            Key::B => keysym::XK_B,
            Key::C => keysym::XK_C,
            Key::D => keysym::XK_D,
            Key::E => keysym::XK_E,
            Key::F => keysym::XK_F,
            Key::G => keysym::XK_G,
            Key::H => keysym::XK_H,
            Key::I => keysym::XK_I,
            Key::J => keysym::XK_J,
            Key::K => keysym::XK_K,
            Key::L => keysym::XK_L,
            Key::M => keysym::XK_M,
            Key::N => keysym::XK_N,
            Key::O => keysym::XK_O,
            Key::P => keysym::XK_P,
            Key::Q => keysym::XK_Q,
            Key::R => keysym::XK_R,
            Key::S => keysym::XK_S,
            Key::T => keysym::XK_T,
            Key::U => keysym::XK_U,
            Key::V => keysym::XK_V,
            Key::W => keysym::XK_W,
            Key::X => keysym::XK_X,
            Key::Y => keysym::XK_Y,
            Key::Z => keysym::XK_Z,
            Key::Escape => keysym::XK_Escape,
            Key::F1 => keysym::XK_F1,
            Key::F2 => keysym::XK_F2,
            Key::F3 => keysym::XK_F3,
            Key::F4 => keysym::XK_F4,
            Key::F5 => keysym::XK_F5,
            Key::F6 => keysym::XK_F6,
            Key::F7 => keysym::XK_F7,
            Key::F8 => keysym::XK_F8,
            Key::F9 => keysym::XK_F9,
            Key::F10 => keysym::XK_F10,
            Key::F11 => keysym::XK_F11,
            Key::F12 => keysym::XK_F12,
            Key::Scroll => keysym::XK_Scroll_Lock,
            Key::Pause => keysym::XK_Pause,
            Key::Insert => keysym::XK_Insert,
            Key::Home => keysym::XK_Home,
            Key::Delete => keysym::XK_Delete,
            Key::End => keysym::XK_End,
            Key::PageDown => keysym::XK_Page_Down,
            Key::PageUp => keysym::XK_Page_Up,
            Key::Left => keysym::XK_Left,
            Key::Up => keysym::XK_Up,
            Key::Right => keysym::XK_Right,
            Key::Down => keysym::XK_Down,
            Key::Back => keysym::XK_BackSpace,
            Key::Return => keysym::XK_Return,
            Key::Space => keysym::XK_space,
            Key::Numlock => keysym::XK_Num_Lock,
            Key::Numpad0 => keysym::XK_KP_0,
            Key::Numpad1 => keysym::XK_KP_1,
            Key::Numpad2 => keysym::XK_KP_2,
            Key::Numpad3 => keysym::XK_KP_3,
            Key::Numpad4 => keysym::XK_KP_4,
            Key::Numpad5 => keysym::XK_KP_5,
            Key::Numpad6 => keysym::XK_KP_6,
            Key::Numpad7 => keysym::XK_KP_7,
            Key::Numpad8 => keysym::XK_KP_8,
            Key::Numpad9 => keysym::XK_KP_9,
            Key::Apostrophe => keysym::XK_apostrophe,
            Key::Backslash => keysym::XK_backslash,
            Key::Colon => keysym::XK_colon,
            Key::Comma => keysym::XK_comma,
            Key::Grave => keysym::XK_grave,
            Key::LAlt => keysym::XK_Alt_L,
            Key::LBracket => keysym::XK_bracketleft,
            Key::LControl => keysym::XK_Control_L,
            Key::LShift => keysym::XK_Shift_L,
            Key::LWin => keysym::XK_Win_L,
            Key::NumpadComma => keysym::XK_KP_Separator,
            Key::NumpadEnter => keysym::XK_KP_Enter,
            Key::NumpadEquals => keysym::XK_KP_Equal,
            Key::Period => keysym::XK_period,
            Key::RAlt => keysym::XK_Alt_R,
            Key::RBracket => keysym::XK_bracketright,
            Key::RControl => keysym::XK_Control_R,
            Key::RShift => keysym::XK_Shift_R,
            Key::RWin => keysym::XK_Win_R,
            Key::Semicolon => keysym::XK_semicolon,
            Key::Slash => keysym::XK_slash,
            Key::Tab => keysym::XK_Tab,
            Key::NoKey => keysym::NoSymbol,
        }
    }

    /// The name under which X knows the keysym of each key, as a C string:
    /// the name followed by a NUL. Empty for `NoKey`.
    pub open spec fn c_str(self) -> Seq<char> {
        match self {
            Key::Key1 => "1\0"@,
            Key::Key2 => "2\0"@,
            Key::Key3 => "3\0"@,
            Key::Key4 => "4\0"@,
            Key::Key5 => "5\0"@,
            Key::Key6 => "6\0"@,
            Key::Key7 => "7\0"@,
            Key::Key8 => "8\0"@,
            Key::Key9 => "9\0"@,
            Key::Key0 => "0\0"@,
            Key::A => "A\0"@,
            Key::B => "B\0"@,
            Key::C => "C\0"@,
            Key::D => "D\0"@,
            Key::E => "E\0"@,
            Key::F => "F\0"@,
            Key::G => "G\0"@,
            Key::H => "H\0"@,
            Key::I => "I\0"@,
            Key::J => "J\0"@,
            Key::K => "K\0"@,
            Key::L => "L\0"@,
            Key::M => "M\0"@,
            Key::N => "N\0"@,
            Key::O => "O\0"@,
            Key::P => "P\0"@,
            Key::Q => "Q\0"@,
            Key::R => "R\0"@,
            Key::S => "S\0"@,
            Key::T => "T\0"@,
            Key::U => "U\0"@,
            Key::V => "V\0"@,
            Key::W => "W\0"@,
            Key::X => "X\0"@,
            Key::Y => "Y\0"@,
            Key::Z => "Z\0"@,
            Key::Escape => "Escape\0"@,
            Key::F1 => "F1\0"@,
            Key::F2 => "F2\0"@,
            Key::F3 => "F3\0"@,
            Key::F4 => "F4\0"@,
            Key::F5 => "F5\0"@,
            Key::F6 => "F6\0"@,
            Key::F7 => "F7\0"@,
            Key::F8 => "F8\0"@,
            Key::F9 => "F9\0"@,
            Key::F10 => "F10\0"@,
            Key::F11 => "F11\0"@,
            Key::F12 => "F12\0"@,
            Key::Scroll => "Scroll_Lock\0"@,
            Key::Pause => "Pause\0"@,
            Key::Insert => "Insert\0"@,
            Key::Home => "Home\0"@,
            Key::Delete => "Delete\0"@,
            Key::End => "End\0"@,
            Key::PageDown => "Page_Down\0"@,
            Key::PageUp => "Page_Up\0"@,
            Key::Left => "Left\0"@,
            Key::Up => "Up\0"@,
            Key::Right => "Right\0"@,
            Key::Down => "Down\0"@,
            Key::Back => "BackSpace\0"@,
            Key::Return => "Return\0"@,
            Key::Space => "space\0"@,
            Key::Numlock => "Num_Lock\0"@,
            Key::Numpad0 => "KP_0\0"@,
            Key::Numpad1 => "KP_1\0"@,
            Key::Numpad2 => "KP_2\0"@,
            Key::Numpad3 => "KP_3\0"@,
            Key::Numpad4 => "KP_4\0"@,
            Key::Numpad5 => "KP_5\0"@,
            Key::Numpad6 => "KP_6\0"@,
            Key::Numpad7 => "KP_7\0"@,
            Key::Numpad8 => "KP_8\0"@,
            Key::Numpad9 => "KP_9\0"@,
            Key::Apostrophe => "apostrophe\0"@,
            Key::Backslash => "backslash\0"@,
            Key::Colon => "colon\0"@,
            Key::Comma => "comma\0"@,
            Key::Grave => "grave\0"@,
            Key::LAlt => "Alt_L\0"@,
            Key::LBracket => "bracketleft\0"@,
            Key::LControl => "Control_L\0"@,
            Key::LShift => "Shift_L\0"@,
            Key::LWin => "Win_L\0"@,
            Key::NumpadComma => "KP_Separator\0"@,
            Key::NumpadEnter => "KP_Enter\0"@,
            Key::NumpadEquals => "KP_Equal\0"@,
            Key::Period => "period\0"@,
            Key::RAlt => "Alt_R\0"@,
            Key::RBracket => "bracketright\0"@,
            Key::RControl => "Control_R\0"@,
            Key::RShift => "Shift_R\0"@,
            Key::RWin => "Win_R\0"@,
            Key::Semicolon => "semicolon\0"@,
            Key::Slash => "slash\0"@,
            Key::Tab => "Tab\0"@,
            Key::NoKey => Seq::empty(),
        }
    }

    /// The keysym of the key, `NoSymbol` where there is none.
    pub fn keysym_or_none(&self) -> (k: u64)
        ensures
            k == self.keysym(),
    {
        match self {
            Key::Key1 => keysym::XK_1,
            Key::Key2 => keysym::XK_2,
            Key::Key3 => keysym::XK_3,
            Key::Key4 => keysym::XK_4,
            Key::Key5 => keysym::XK_5,
            Key::Key6 => keysym::XK_6,
            Key::Key7 => keysym::XK_7,
            Key::Key8 => keysym::XK_8,
            Key::Key9 => keysym::XK_9,
            Key::Key0 => keysym::XK_0,
            Key::A => keysym::XK_A,
            Key::B => keysym::XK_B,
            Key::C => keysym::XK_C,
            Key::D => keysym::XK_D,
            Key::E => keysym::XK_E,
            Key::F => keysym::XK_F,
            Key::G => keysym::XK_G,
            Key::H => keysym::XK_H,
            Key::I => keysym::XK_I,
            Key::J => keysym::XK_J,
            Key::K => keysym::XK_K,
            Key::L => keysym::XK_L,
            Key::M => keysym::XK_M,
            Key::N => keysym::XK_N,
            Key::O => keysym::XK_O,
            Key::P => keysym::XK_P,
            Key::Q => keysym::XK_Q,
            Key::R => keysym::XK_R,
            Key::S => keysym::XK_S,
            Key::T => keysym::XK_T,
            Key::U => keysym::XK_U,
            Key::V => keysym::XK_V,
            Key::W => keysym::XK_W,
            Key::X => keysym::XK_X,
            Key::Y => keysym::XK_Y,
            Key::Z => keysym::XK_Z,
            Key::Escape => keysym::XK_Escape,
            Key::F1 => keysym::XK_F1,
            Key::F2 => keysym::XK_F2,
            Key::F3 => keysym::XK_F3,
            Key::F4 => keysym::XK_F4,
            Key::F5 => keysym::XK_F5,
            Key::F6 => keysym::XK_F6,
            Key::F7 => keysym::XK_F7,
            Key::F8 => keysym::XK_F8,
            Key::F9 => keysym::XK_F9,
            Key::F10 => keysym::XK_F10,
            Key::F11 => keysym::XK_F11,
            Key::F12 => keysym::XK_F12,
            Key::Scroll => keysym::XK_Scroll_Lock,
            Key::Pause => keysym::XK_Pause,
            Key::Insert => keysym::XK_Insert,
            Key::Home => keysym::XK_Home,
            Key::Delete => keysym::XK_Delete,
            Key::End => keysym::XK_End,
            Key::PageDown => keysym::XK_Page_Down,
            Key::PageUp => keysym::XK_Page_Up,
            Key::Left => keysym::XK_Left,
            Key::Up => keysym::XK_Up,
            Key::Right => keysym::XK_Right,
            Key::Down => keysym::XK_Down,
            Key::Back => keysym::XK_BackSpace,
            Key::Return => keysym::XK_Return,
            Key::Space => keysym::XK_space,
            Key::Numlock => keysym::XK_Num_Lock,
            Key::Numpad0 => keysym::XK_KP_0,
            Key::Numpad1 => keysym::XK_KP_1,
            Key::Numpad2 => keysym::XK_KP_2,
            Key::Numpad3 => keysym::XK_KP_3,
            Key::Numpad4 => keysym::XK_KP_4,
            Key::Numpad5 => keysym::XK_KP_5,
            Key::Numpad6 => keysym::XK_KP_6,
            Key::Numpad7 => keysym::XK_KP_7,
            Key::Numpad8 => keysym::XK_KP_8,
            Key::Numpad9 => keysym::XK_KP_9,
            Key::Apostrophe => keysym::XK_apostrophe,
            Key::Backslash => keysym::XK_backslash,
            Key::Colon => keysym::XK_colon,
            Key::Comma => keysym::XK_comma,
            Key::Grave => keysym::XK_grave,
            Key::LAlt => keysym::XK_Alt_L,
            Key::LBracket => keysym::XK_bracketleft,
            Key::LControl => keysym::XK_Control_L,
            Key::LShift => keysym::XK_Shift_L,
            Key::LWin => keysym::XK_Win_L,
            Key::NumpadComma => keysym::XK_KP_Separator,
            Key::NumpadEnter => keysym::XK_KP_Enter,
            Key::NumpadEquals => keysym::XK_KP_Equal,
            Key::Period => keysym::XK_period,
            Key::RAlt => keysym::XK_Alt_R,
            Key::RBracket => keysym::XK_bracketright,
            Key::RControl => keysym::XK_Control_R,
            Key::RShift => keysym::XK_Shift_R,
            Key::RWin => keysym::XK_Win_R,
            Key::Semicolon => keysym::XK_semicolon,
            Key::Slash => keysym::XK_slash,
            Key::Tab => keysym::XK_Tab,
            Key::NoKey => keysym::NoSymbol,
        }
    }

    /// The keysym of a key that is not `NoKey`.
    pub fn get_keysym(&self) -> (k: u64)
        requires
            !(self is NoKey),
        ensures
            k == self.keysym(),
            k != keysym::NoSymbol,
    {
        self.keysym_or_none()
    }

    /// The C string that names the keysym of a key that is not `NoKey`. The
    /// name depends on the key alone; `key` is not consulted.
    #[allow(unused_variables)]
    pub fn get_key_c_str(&self, key: u64) -> (s: &'static str)
        requires
            !(self is NoKey),
        ensures
            s@ == self.c_str(),
    {
        match self {
            Key::Key1 => "1\0",
            Key::Key2 => "2\0",
            Key::Key3 => "3\0",
            Key::Key4 => "4\0",
            Key::Key5 => "5\0",
            Key::Key6 => "6\0",
            Key::Key7 => "7\0",
            Key::Key8 => "8\0",
            Key::Key9 => "9\0",
            Key::Key0 => "0\0",
            Key::A => "A\0",
            Key::B => "B\0",
            Key::C => "C\0",
            Key::D => "D\0",
            Key::E => "E\0",
            Key::F => "F\0",
            Key::G => "G\0",
            Key::H => "H\0",
            Key::I => "I\0",
            Key::J => "J\0",
            Key::K => "K\0",
            Key::L => "L\0",
            Key::M => "M\0",
            Key::N => "N\0",
            Key::O => "O\0",
            Key::P => "P\0",
            Key::Q => "Q\0",
            Key::R => "R\0",
            Key::S => "S\0",
            Key::T => "T\0",
            Key::U => "U\0",
            Key::V => "V\0",
            Key::W => "W\0",
            Key::X => "X\0",
            Key::Y => "Y\0",
            Key::Z => "Z\0",
            Key::Escape => "Escape\0",
            Key::F1 => "F1\0",
            Key::F2 => "F2\0",
            Key::F3 => "F3\0",
            Key::F4 => "F4\0",
            Key::F5 => "F5\0",
            Key::F6 => "F6\0",
            Key::F7 => "F7\0",
            Key::F8 => "F8\0",
            Key::F9 => "F9\0",
            Key::F10 => "F10\0",
            Key::F11 => "F11\0",
            Key::F12 => "F12\0",
            Key::Scroll => "Scroll_Lock\0",
            Key::Pause => "Pause\0",
            Key::Insert => "Insert\0",
            Key::Home => "Home\0",
            Key::Delete => "Delete\0",
            Key::End => "End\0",
            Key::PageDown => "Page_Down\0",
            Key::PageUp => "Page_Up\0",
            Key::Left => "Left\0",
            Key::Up => "Up\0",
            Key::Right => "Right\0",
            Key::Down => "Down\0",
            Key::Back => "BackSpace\0",
            Key::Return => "Return\0",
            Key::Space => "space\0",
            Key::Numlock => "Num_Lock\0",
            Key::Numpad0 => "KP_0\0",
            Key::Numpad1 => "KP_1\0",
            Key::Numpad2 => "KP_2\0",
            Key::Numpad3 => "KP_3\0",
            Key::Numpad4 => "KP_4\0",
            Key::Numpad5 => "KP_5\0",
            Key::Numpad6 => "KP_6\0",
            Key::Numpad7 => "KP_7\0",
            Key::Numpad8 => "KP_8\0",
            Key::Numpad9 => "KP_9\0",
            Key::Apostrophe => "apostrophe\0",
            Key::Backslash => "backslash\0",
            Key::Colon => "colon\0",
            Key::Comma => "comma\0",
            Key::Grave => "grave\0",
            Key::LAlt => "Alt_L\0",
            Key::LBracket => "bracketleft\0",
            Key::LControl => "Control_L\0",
            Key::LShift => "Shift_L\0",
            Key::LWin => "Win_L\0",
            Key::NumpadComma => "KP_Separator\0",
            Key::NumpadEnter => "KP_Enter\0",
            Key::NumpadEquals => "KP_Equal\0",
            Key::Period => "period\0",
            Key::RAlt => "Alt_R\0",
            Key::RBracket => "bracketright\0",
            Key::RControl => "Control_R\0",
            Key::RShift => "Shift_R\0",
            Key::RWin => "Win_R\0",
            Key::Semicolon => "semicolon\0",
            Key::Slash => "slash\0",
            Key::Tab => "Tab\0",
            Key::NoKey => "",
        }
    }
}

/// Two different keys have different keysyms, and no key but `NoKey` has
/// the keysym `NoSymbol`.
pub proof fn lemma_keysym_injective(a: Key, b: Key)
    requires
        a.keysym() == b.keysym(),
    ensures
        a == b,
        a.keysym() == keysym::NoSymbol <==> a is NoKey,
{
}

impl PartialEq for Key {
    /// Keys are equal when their keysyms are, which is when they are the
    /// same key.
    fn eq(&self, other: &Self) -> (r: bool) {
        self.keysym_or_none() == other.keysym_or_none()
    }
}

impl vstd::std_specs::cmp::PartialEqSpecImpl for Key {
    open spec fn obeys_eq_spec() -> bool {
        true
    }

    open spec fn eq_spec(&self, other: &Self) -> bool {
        self.keysym() == other.keysym()
    }
}

impl Eq for Key {

}

impl Default for Key {
    fn default() -> (k: Key)
        ensures
            k == Key::NoKey,
    {
        Key::NoKey
    }
}

/// A modifier key that a binding can name.
#[derive(Debug, Clone, Copy, Hash)]
pub enum Modifier {
    Super_L,
    Super_R,
    Alt_L,
    Alt_R,
    Shift_L,
    Shift_R,
    Caps_Lock,
    Shift_Lock,
    Control_L,
    Control_R,
}

impl Modifier {
    /// The keysym of each modifier key.
    pub open spec fn keysym(self) -> u64 {
        match self {
            Modifier::Super_L => keysym::XK_Super_L,
            Modifier::Super_R => keysym::XK_Super_R,
            Modifier::Alt_L => keysym::XK_Alt_L,
            Modifier::Alt_R => keysym::XK_Alt_R,
            Modifier::Shift_L => keysym::XK_Shift_L,
            Modifier::Shift_R => keysym::XK_Shift_R,
            Modifier::Caps_Lock => keysym::XK_Caps_Lock,
            Modifier::Shift_Lock => keysym::XK_Shift_Lock,
            Modifier::Control_L => keysym::XK_Control_L,
            Modifier::Control_R => keysym::XK_Control_R,
        }
    }

    /// The name under which X knows the keysym of each modifier key, as a C
    /// string.
    pub open spec fn c_str(self) -> Seq<char> {
        match self {
            Modifier::Super_L => "Super_L\0"@,
            Modifier::Super_R => "Super_R\0"@,
            Modifier::Alt_L => "Alt_L\0"@,
            Modifier::Alt_R => "Alt_R\0"@,
            Modifier::Shift_L => "Shift_L\0"@,
            Modifier::Shift_R => "Shift_R\0"@,
            Modifier::Caps_Lock => "Caps_Lock\0"@,
            Modifier::Shift_Lock => "Shift_Lock\0"@,
            Modifier::Control_L => "Control_L\0"@,
            Modifier::Control_R => "Control_R\0"@,
        }
    }

    /// The bit by which a key or button state reports each modifier: Super
    /// is the fourth modifier group, Alt the first.
    pub open spec fn mask(self) -> u32 {
        match self {
            Modifier::Super_L => xproto::Mod4Mask,
            Modifier::Super_R => xproto::Mod4Mask,
            Modifier::Alt_L => xproto::Mod1Mask,
            Modifier::Alt_R => xproto::Mod1Mask,
            Modifier::Shift_L => xproto::ShiftMask,
            Modifier::Shift_R => xproto::ShiftMask,
            Modifier::Caps_Lock => xproto::LockMask,
            Modifier::Shift_Lock => xproto::LockMask,
            Modifier::Control_L => xproto::ControlMask,
            Modifier::Control_R => xproto::ControlMask,
        }
    }

    /// The keysym of the modifier key.
    pub fn get_keysym(&self) -> (k: u64)
        ensures
            k == self.keysym(),
    {
        match self {
            Modifier::Super_L => keysym::XK_Super_L,
            Modifier::Super_R => keysym::XK_Super_R,
            Modifier::Alt_L => keysym::XK_Alt_L,
            Modifier::Alt_R => keysym::XK_Alt_R,
            Modifier::Shift_L => keysym::XK_Shift_L,
            Modifier::Shift_R => keysym::XK_Shift_R,
            Modifier::Caps_Lock => keysym::XK_Caps_Lock,
            Modifier::Shift_Lock => keysym::XK_Shift_Lock,
            Modifier::Control_L => keysym::XK_Control_L,
            Modifier::Control_R => keysym::XK_Control_R,
        }
    }

    /// The C string that names the keysym of the modifier key.
    pub fn get_key_c_str(&self) -> (s: &'static str)
        ensures
            s@ == self.c_str(),
    {
        match self {
            Modifier::Super_L => "Super_L\0",
            Modifier::Super_R => "Super_R\0",
            Modifier::Alt_L => "Alt_L\0",
            Modifier::Alt_R => "Alt_R\0",
            Modifier::Shift_L => "Shift_L\0",
            Modifier::Shift_R => "Shift_R\0",
            Modifier::Caps_Lock => "Caps_Lock\0",
            Modifier::Shift_Lock => "Shift_Lock\0",
            Modifier::Control_L => "Control_L\0",
            Modifier::Control_R => "Control_R\0",
        }
    }

    /// The modifier bit of the modifier key.
    pub fn get_mask(&self) -> (m: u32)
        ensures
            m == self.mask(),
    {
        match self {
            Modifier::Super_L => xproto::Mod4Mask,
            Modifier::Super_R => xproto::Mod4Mask,
            Modifier::Alt_L => xproto::Mod1Mask,
            Modifier::Alt_R => xproto::Mod1Mask,
            Modifier::Shift_L => xproto::ShiftMask,
            Modifier::Shift_R => xproto::ShiftMask,
            Modifier::Caps_Lock => xproto::LockMask,
            Modifier::Shift_Lock => xproto::LockMask,
            Modifier::Control_L => xproto::ControlMask,
            Modifier::Control_R => xproto::ControlMask,
        }
    }
}

/// The name of the keysym of each key is a C string: it is not empty, it
/// ends with a NUL and holds no other.
pub proof fn lemma_key_c_str(k: Key)
    requires
        !(k is NoKey),
    ensures
        k.c_str().len() >= 2,
        k.c_str().last() == '\0',
        forall|i: int| 0 <= i < k.c_str().len() - 1 ==> k.c_str()[i] != '\0',
{
    reveal_strlit("1\0");
    reveal_strlit("2\0");
    reveal_strlit("3\0");
    reveal_strlit("4\0");
    reveal_strlit("5\0");
    reveal_strlit("6\0");
    reveal_strlit("7\0");
    reveal_strlit("8\0");
    reveal_strlit("9\0");
    reveal_strlit("0\0");
    reveal_strlit("A\0");
    reveal_strlit("B\0");
    reveal_strlit("C\0");
    reveal_strlit("D\0");
    reveal_strlit("E\0");
    reveal_strlit("F\0");
    reveal_strlit("G\0");
    reveal_strlit("H\0");
    reveal_strlit("I\0");
    reveal_strlit("J\0");
    reveal_strlit("K\0");
    reveal_strlit("L\0");
    reveal_strlit("M\0");
    reveal_strlit("N\0");
    reveal_strlit("O\0");
    reveal_strlit("P\0");
    reveal_strlit("Q\0");
    reveal_strlit("R\0");
    reveal_strlit("S\0");
    reveal_strlit("T\0");
    reveal_strlit("U\0");
    reveal_strlit("V\0");
    reveal_strlit("W\0");
    reveal_strlit("X\0");
    reveal_strlit("Y\0");
    reveal_strlit("Z\0");
    reveal_strlit("Escape\0");
    reveal_strlit("F1\0");
    reveal_strlit("F2\0");
    reveal_strlit("F3\0");
    reveal_strlit("F4\0");
    reveal_strlit("F5\0");
    reveal_strlit("F6\0");
    reveal_strlit("F7\0");
    reveal_strlit("F8\0");
    reveal_strlit("F9\0");
    reveal_strlit("F10\0");
    reveal_strlit("F11\0");
    reveal_strlit("F12\0");
    reveal_strlit("Scroll_Lock\0");
    reveal_strlit("Pause\0");
    reveal_strlit("Insert\0");
    reveal_strlit("Home\0");
    reveal_strlit("Delete\0");
    reveal_strlit("End\0");
    reveal_strlit("Page_Down\0");
    reveal_strlit("Page_Up\0");
    reveal_strlit("Left\0");
    reveal_strlit("Up\0");
    reveal_strlit("Right\0");
    reveal_strlit("Down\0");
    reveal_strlit("BackSpace\0");
    reveal_strlit("Return\0");
    reveal_strlit("space\0");
    reveal_strlit("Num_Lock\0");
    reveal_strlit("KP_0\0");
    reveal_strlit("KP_1\0");
    reveal_strlit("KP_2\0");
    reveal_strlit("KP_3\0");
    reveal_strlit("KP_4\0");
    reveal_strlit("KP_5\0");
    reveal_strlit("KP_6\0");
    reveal_strlit("KP_7\0");
    reveal_strlit("KP_8\0");
    reveal_strlit("KP_9\0");
    reveal_strlit("apostrophe\0");
    reveal_strlit("backslash\0");
    reveal_strlit("colon\0");
    reveal_strlit("comma\0");
    reveal_strlit("grave\0");
    reveal_strlit("Alt_L\0");
    reveal_strlit("bracketleft\0");
    reveal_strlit("Control_L\0");
    reveal_strlit("Shift_L\0");
    reveal_strlit("Win_L\0");
    reveal_strlit("KP_Separator\0");
    reveal_strlit("KP_Enter\0");
    reveal_strlit("KP_Equal\0");
    reveal_strlit("period\0");
    reveal_strlit("Alt_R\0");
    reveal_strlit("bracketright\0");
    reveal_strlit("Control_R\0");
    reveal_strlit("Shift_R\0");
    reveal_strlit("Win_R\0");
    reveal_strlit("semicolon\0");
    reveal_strlit("slash\0");
    reveal_strlit("Tab\0");
}

/// The name of the keysym of each modifier key is a C string: it is not
/// empty, it ends with a NUL and holds no other.
pub proof fn lemma_modifier_c_str(m: Modifier)
    ensures
        m.c_str().len() >= 2,
        m.c_str().last() == '\0',
        forall|i: int| 0 <= i < m.c_str().len() - 1 ==> m.c_str()[i] != '\0',
{
    reveal_strlit("Super_L\0");
    reveal_strlit("Super_R\0");
    reveal_strlit("Alt_L\0");
    reveal_strlit("Alt_R\0");
    reveal_strlit("Shift_L\0");
    reveal_strlit("Shift_R\0");
    reveal_strlit("Caps_Lock\0");
    reveal_strlit("Shift_Lock\0");
    reveal_strlit("Control_L\0");
    reveal_strlit("Control_R\0");
}

/// Two different modifier keys have different keysyms.
pub proof fn lemma_modifier_keysym_injective(a: Modifier, b: Modifier)
    requires
        a.keysym() == b.keysym(),
    ensures
        a == b,
{
}

impl PartialEq for Modifier {
    /// Modifier keys are equal when their keysyms are.
    fn eq(&self, other: &Self) -> (r: bool) {
        self.get_keysym() == other.get_keysym()
    }
}

impl vstd::std_specs::cmp::PartialEqSpecImpl for Modifier {
    open spec fn obeys_eq_spec() -> bool {
        true
    }

    open spec fn eq_spec(&self, other: &Self) -> bool {
        self.keysym() == other.keysym()
    }
}

impl Eq for Modifier {

}

impl Default for Modifier {
    fn default() -> (m: Modifier)
        ensures
            m == Modifier::Super_L,
    {
        Modifier::Super_L
    }
}

/// The modifier mask of a list of modifier keys: the union of their bits.
pub open spec fn mask_of(mods: Seq<Modifier>) -> u32
    decreases mods.len(),
{
    if mods.len() == 0 {
        0
    } else {
        mask_of(mods.drop_last()) | mods.last().mask()
    }
}

/// A key together with the modifier keys held while it is pressed.
#[derive(Debug, Hash)]
pub struct KeyBinding {
    pub key: Key,
    pub mods: Vec<Modifier>,
}

impl KeyBinding {
    /// The modifier mask under which the binding fires.
    pub open spec fn mask(self) -> u32 {
        mask_of(self.mods@)
    }

    /// The modifier keys of the binding, in the order they were written.
    pub fn get_mods(&self) -> (m: &[Modifier])
        ensures
            m@ == self.mods@,
    {
        self.mods.as_slice()
    }

    /// The keysym of the binding's key, which must not be `NoKey`.
    pub fn get_keysym(&self) -> (k: u64)
        requires
            !(self.key is NoKey),
        ensures
            k == self.key.keysym(),
            k != keysym::NoSymbol,
    {
        self.key.get_keysym()
    }

    /// The modifier mask under which the binding fires.
    pub fn get_mask(&self) -> (m: u32)
        ensures
            m == self.mask(),
    {
        let mut m: u32 = 0;
        let mut i: usize = 0;
        while i < self.mods.len()
            invariant
                i <= self.mods.len(),
                m == mask_of(self.mods@.take(i as int)),
            decreases self.mods.len() - i,
        {
            proof {
                assert(self.mods@.take(i + 1).drop_last() =~= self.mods@.take(i as int));
            }
            m = m | self.mods[i].get_mask();
            i = i + 1;
        }
        proof {
            assert(self.mods@.take(i as int) =~= self.mods@);
        }
        m
    }
}

/// The mask of a list of modifiers holds no bit but those of Shift, Lock,
/// Control, the first and the fourth modifier group.
pub proof fn lemma_mask_of_subset(mods: Seq<Modifier>)
    ensures
        mask_of(mods) & !0x4fu32 == 0,
        0x4fu32 == xproto::ShiftMask | xproto::LockMask | xproto::ControlMask | xproto::Mod1Mask
            | xproto::Mod4Mask,
    decreases mods.len(),
{
    assert(0u32 & !0x4fu32 == 0 && 0x4fu32 == 0x01u32 | 0x02u32 | 0x04u32 | 0x08u32 | 0x40u32)
        by (bit_vector);
    if mods.len() > 0 {
        let rest = mask_of(mods.drop_last());
        let bit = mods.last().mask();
        lemma_mask_of_subset(mods.drop_last());
        assert(bit == 0x01 || bit == 0x02 || bit == 0x04 || bit == 0x08 || bit == 0x40);
        assert(rest & !0x4fu32 == 0 && (bit == 0x01 || bit == 0x02 || bit == 0x04 || bit == 0x08
            || bit == 0x40) ==> (rest | bit) & !0x4fu32 == 0) by (bit_vector);
    }
}

/// The mask of a list of modifiers holds the bit of each of them.
pub proof fn lemma_mask_of_bits(mods: Seq<Modifier>, i: int)
    requires
        0 <= i < mods.len(),
    ensures
        mask_of(mods) & mods[i].mask() == mods[i].mask(),
    decreases mods.len(),
{
    let rest = mask_of(mods.drop_last());
    let bit = mods.last().mask();
    if i < mods.len() - 1 {
        lemma_mask_of_bits(mods.drop_last(), i);
        let b = mods[i].mask();
        assert(rest & b == b ==> (rest | bit) & b == b) by (bit_vector);
    } else {
        assert((rest | bit) & bit == bit) by (bit_vector);
    }
}

/// Whether two lists of modifier keys hold the same keys in the same order.
pub fn same_modifiers(a: &Vec<Modifier>, b: &Vec<Modifier>) -> (r: bool)
    ensures
        r == (a@ == b@),
{
    if a.len() != b.len() {
        return false;
    }
    let mut i: usize = 0;
    while i < a.len()
        invariant
            i <= a.len(),
            a.len() == b.len(),
            forall|j: int| 0 <= j < i ==> a@[j] == b@[j],
        decreases a.len() - i,
    {
        if a[i].get_keysym() != b[i].get_keysym() {
            return false;
        }
        proof {
            lemma_modifier_keysym_injective(a@[i as int], b@[i as int]);
        }
        i = i + 1;
    }
    proof {
        assert(a@ =~= b@);
    }
    true
}

impl PartialEq for KeyBinding {
    /// Bindings are equal when they have the same key and the same modifier
    /// keys in the same order.
    fn eq(&self, other: &Self) -> (r: bool) {
        self.key.keysym_or_none() == other.key.keysym_or_none() && same_modifiers(
            &self.mods,
            &other.mods,
        )
    }
}

impl vstd::std_specs::cmp::PartialEqSpecImpl for KeyBinding {
    open spec fn obeys_eq_spec() -> bool {
        true
    }

    open spec fn eq_spec(&self, other: &Self) -> bool {
        self.key.keysym() == other.key.keysym() && self.mods@ == other.mods@
    }
}

/// Equal bindings have the same key and fire under the same modifier mask.
pub proof fn lemma_equal_bindings(a: KeyBinding, b: KeyBinding)
    requires
        a.key.keysym() == b.key.keysym(),
        a.mods@ == b.mods@,
    ensures
        a.key == b.key,
        a.mask() == b.mask(),
{
    lemma_keysym_injective(a.key, b.key);
}

impl Eq for KeyBinding {

}

impl Default for KeyBinding {
    fn default() -> (b: KeyBinding)
        ensures
            b.key == Key::NoKey,
            b.mods@ == Seq::<Modifier>::empty(),
    {
        KeyBinding { key: Key::NoKey, mods: Vec::new() }
    }
}

/// What a binding does when it fires.
#[derive(Debug, Clone)]
pub enum Action {
    FullScreen,
    Minimize,
    FloatFocus,
    GroundFocus,
    KillFocus,
    MoveFocusUp,
    MoveFocusDown,
    MoveFocusLeft,
    MoveFocusRight,
    SplitHorizontal,
    SplitVertical,
    Exit,
    /// Move the selected client to the workspace of this number.
    MoveWorkspace(u32),
    /// Hand this command line to the process spawner.
    Execute(String),
    NoAction,
}

/// What an action is, with a command line as a sequence of characters.
pub enum ActionView {
    FullScreen,
    Minimize,
    FloatFocus,
    GroundFocus,
    KillFocus,
    MoveFocusUp,
    MoveFocusDown,
    MoveFocusLeft,
    MoveFocusRight,
    SplitHorizontal,
    SplitVertical,
    Exit,
    MoveWorkspace(u32),
    Execute(Seq<char>),
    NoAction,
}

impl View for Action {
    type V = ActionView;

    open spec fn view(&self) -> ActionView {
        match self {
            Action::FullScreen => ActionView::FullScreen,
            Action::Minimize => ActionView::Minimize,
            Action::FloatFocus => ActionView::FloatFocus,
            Action::GroundFocus => ActionView::GroundFocus,
            Action::KillFocus => ActionView::KillFocus,
            Action::MoveFocusUp => ActionView::MoveFocusUp,
            Action::MoveFocusDown => ActionView::MoveFocusDown,
            Action::MoveFocusLeft => ActionView::MoveFocusLeft,
            Action::MoveFocusRight => ActionView::MoveFocusRight,
            Action::SplitHorizontal => ActionView::SplitHorizontal,
            Action::SplitVertical => ActionView::SplitVertical,
            Action::Exit => ActionView::Exit,
            Action::MoveWorkspace(n) => ActionView::MoveWorkspace(*n),
            Action::Execute(command) => ActionView::Execute(command@),
            Action::NoAction => ActionView::NoAction,
        }
    }
}

/// What the manager reads of a binding: the keysym of its key, `NoSymbol`
/// where it has none, the modifier mask under which it fires, and what it
/// does.
pub struct BindingView {
    pub keysym: u64,
    pub mask: u32,
    pub action: ActionView,
}

/// What the manager reads of each binding of a list, in its order.
pub open spec fn binding_views(bindings: Seq<(KeyBinding, Action)>) -> Seq<BindingView> {
    Seq::new(
        bindings.len(),
        |i: int|
            BindingView {
                keysym: bindings[i].0.key.keysym(),
                mask: bindings[i].0.mask(),
                action: bindings[i].1@,
            },
    )
}

impl Default for Action {
    fn default() -> (a: Action)
        ensures
            a == Action::NoAction,
    {
        Action::NoAction
    }
}

/// Settings on how client windows are laid out: the gaps between windows
/// and around them, in pixels, and whether a lone window goes without gaps.
#[derive(Debug, Clone, Copy, PartialEq, Eq, Structural)]
pub struct Arrangement {
    pub inner_gap: u8,
    pub outer_gap: u8,
    pub smart_gaps: bool,
}

impl Default for Arrangement {
    fn default() -> (a: Arrangement)
        ensures
            a == (Arrangement { inner_gap: 0, outer_gap: 0, smart_gaps: false }),
    {
        Arrangement { inner_gap: 0, outer_gap: 0, smart_gaps: false }
    }
}

/// Settings on window borders: the names of the colours of an unfocused and
/// of the focused window, and the width in pixels.
#[derive(Debug)]
pub struct Border {
    pub colour: String,
    pub size: usize,
    pub focus_colour: String,
}

impl Border {
    /// The border settings in force when none are configured.
    pub open spec fn is_default(self) -> bool {
        &&& self.colour@ == "black"@
        &&& self.size == 1
        &&& self.focus_colour@ == "white"@
    }
}

impl Default for Border {
    fn default() -> (b: Border)
        ensures
            b.is_default(),
    {
        Border { colour: "black".to_owned(), size: 1, focus_colour: "white".to_owned() }
    }
}

/// A named colour of the palette, as a 24-bit RGB value.
#[derive(Debug)]
pub struct Colour {
    pub name: String,
    pub value: u64,
}

impl Colour {
    /// The one colour of the palette in force when none is configured.
    pub open spec fn is_default(self) -> bool {
        &&& self.name@ == "White"@
        &&& self.value == 0xFFFFFF
    }
}

impl Default for Colour {
    fn default() -> (c: Colour)
        ensures
            c.is_default(),
    {
        Colour { name: "White".to_owned(), value: 0xFFFFFF }
    }
}

/// The configuration: read-only to the manager once it has started.
#[derive(Debug)]
pub struct Config {
    pub window: Arrangement,
    pub border: Border,
    /// The bindings in the order they were written.
    pub bindings: Vec<(KeyBinding, Action)>,
    pub colour: Vec<Colour>,
}

impl Config {
    /// The configuration in force when none is given: no gaps, the default
    /// border and palette, and one binding of no key to no action.
    pub open spec fn is_default(self) -> bool {
        &&& self.window == (Arrangement { inner_gap: 0, outer_gap: 0, smart_gaps: false })
        &&& self.border.is_default()
        &&& self.bindings@.len() == 1
        &&& self.bindings@[0].0.key == Key::NoKey
        &&& self.bindings@[0].0.mods@ == Seq::<Modifier>::empty()
        &&& self.bindings@[0].1 == Action::NoAction
        &&& self.colour@.len() == 1
        &&& self.colour@[0].is_default()
    }

    /// The configuration to run with, given what reading the configuration
    /// file yielded: the file's settings where it could be understood, the
    /// defaults where it could not.
    pub fn get_config(parsed: Option<Config>) -> (c: Config)
        ensures
            match parsed {
                Some(p) => c == p,
                None => c.is_default(),
            },
    {
        match parsed {
            Some(p) => p,
            None => Config::default(),
        }
    }
}

impl Default for Config {
    fn default() -> (c: Config)
        ensures
            c.is_default(),
    {
        let mut bindings = Vec::new();
        bindings.push((KeyBinding::default(), Action::default()));
        let mut colour = Vec::new();
        colour.push(Colour::default());
        Config { window: Arrangement::default(), border: Border::default(), bindings, colour }
    }
}

} // verus!
