#![allow(non_upper_case_globals)]

use rdwm::config::{Key, Modifier};
use rdwm::keysym;
use rdwm::xproto;

#[test]
fn keysym_constants_are_those_of_xlib() {
    assert_eq!(keysym::XK_1, u64::from(x11::keysym::XK_1));
    assert_eq!(keysym::XK_2, u64::from(x11::keysym::XK_2));
    assert_eq!(keysym::XK_3, u64::from(x11::keysym::XK_3));
    assert_eq!(keysym::XK_4, u64::from(x11::keysym::XK_4));
    assert_eq!(keysym::XK_5, u64::from(x11::keysym::XK_5));
    assert_eq!(keysym::XK_6, u64::from(x11::keysym::XK_6));
    assert_eq!(keysym::XK_7, u64::from(x11::keysym::XK_7));
    assert_eq!(keysym::XK_8, u64::from(x11::keysym::XK_8));
    assert_eq!(keysym::XK_9, u64::from(x11::keysym::XK_9));
    assert_eq!(keysym::XK_0, u64::from(x11::keysym::XK_0));
    assert_eq!(keysym::XK_A, u64::from(x11::keysym::XK_A));
    assert_eq!(keysym::XK_B, u64::from(x11::keysym::XK_B));
    assert_eq!(keysym::XK_C, u64::from(x11::keysym::XK_C));
    assert_eq!(keysym::XK_D, u64::from(x11::keysym::XK_D));
    assert_eq!(keysym::XK_E, u64::from(x11::keysym::XK_E));
    assert_eq!(keysym::XK_F, u64::from(x11::keysym::XK_F));
    assert_eq!(keysym::XK_G, u64::from(x11::keysym::XK_G));
    assert_eq!(keysym::XK_H, u64::from(x11::keysym::XK_H));
    assert_eq!(keysym::XK_I, u64::from(x11::keysym::XK_I));
    assert_eq!(keysym::XK_J, u64::from(x11::keysym::XK_J));
    assert_eq!(keysym::XK_K, u64::from(x11::keysym::XK_K));
    assert_eq!(keysym::XK_L, u64::from(x11::keysym::XK_L));
    assert_eq!(keysym::XK_M, u64::from(x11::keysym::XK_M));
    assert_eq!(keysym::XK_N, u64::from(x11::keysym::XK_N));
    assert_eq!(keysym::XK_O, u64::from(x11::keysym::XK_O));
    assert_eq!(keysym::XK_P, u64::from(x11::keysym::XK_P));
    assert_eq!(keysym::XK_Q, u64::from(x11::keysym::XK_Q));
    assert_eq!(keysym::XK_R, u64::from(x11::keysym::XK_R));
    assert_eq!(keysym::XK_S, u64::from(x11::keysym::XK_S));
    assert_eq!(keysym::XK_T, u64::from(x11::keysym::XK_T));
    assert_eq!(keysym::XK_U, u64::from(x11::keysym::XK_U));
    assert_eq!(keysym::XK_V, u64::from(x11::keysym::XK_V));
    assert_eq!(keysym::XK_W, u64::from(x11::keysym::XK_W));
    assert_eq!(keysym::XK_X, u64::from(x11::keysym::XK_X));
    assert_eq!(keysym::XK_Y, u64::from(x11::keysym::XK_Y));
    assert_eq!(keysym::XK_Z, u64::from(x11::keysym::XK_Z));
    assert_eq!(keysym::XK_Escape, u64::from(x11::keysym::XK_Escape));
    assert_eq!(keysym::XK_F1, u64::from(x11::keysym::XK_F1));
    assert_eq!(keysym::XK_F2, u64::from(x11::keysym::XK_F2));
    assert_eq!(keysym::XK_F3, u64::from(x11::keysym::XK_F3));
    assert_eq!(keysym::XK_F4, u64::from(x11::keysym::XK_F4));
    assert_eq!(keysym::XK_F5, u64::from(x11::keysym::XK_F5));
    assert_eq!(keysym::XK_F6, u64::from(x11::keysym::XK_F6));
    assert_eq!(keysym::XK_F7, u64::from(x11::keysym::XK_F7));
    assert_eq!(keysym::XK_F8, u64::from(x11::keysym::XK_F8));
    assert_eq!(keysym::XK_F9, u64::from(x11::keysym::XK_F9));
    assert_eq!(keysym::XK_F10, u64::from(x11::keysym::XK_F10));
    assert_eq!(keysym::XK_F11, u64::from(x11::keysym::XK_F11));
    assert_eq!(keysym::XK_F12, u64::from(x11::keysym::XK_F12));
    assert_eq!(keysym::XK_Scroll_Lock, u64::from(x11::keysym::XK_Scroll_Lock));
    assert_eq!(keysym::XK_Pause, u64::from(x11::keysym::XK_Pause));
    assert_eq!(keysym::XK_Insert, u64::from(x11::keysym::XK_Insert));
    assert_eq!(keysym::XK_Home, u64::from(x11::keysym::XK_Home));
    assert_eq!(keysym::XK_Delete, u64::from(x11::keysym::XK_Delete));
    assert_eq!(keysym::XK_End, u64::from(x11::keysym::XK_End));
    assert_eq!(keysym::XK_Page_Down, u64::from(x11::keysym::XK_Page_Down));
    assert_eq!(keysym::XK_Page_Up, u64::from(x11::keysym::XK_Page_Up));
    assert_eq!(keysym::XK_Left, u64::from(x11::keysym::XK_Left));
    assert_eq!(keysym::XK_Up, u64::from(x11::keysym::XK_Up));
    assert_eq!(keysym::XK_Right, u64::from(x11::keysym::XK_Right));
    assert_eq!(keysym::XK_Down, u64::from(x11::keysym::XK_Down));
    assert_eq!(keysym::XK_BackSpace, u64::from(x11::keysym::XK_BackSpace));
    assert_eq!(keysym::XK_Return, u64::from(x11::keysym::XK_Return));
    assert_eq!(keysym::XK_space, u64::from(x11::keysym::XK_space));
    assert_eq!(keysym::XK_Num_Lock, u64::from(x11::keysym::XK_Num_Lock));
    assert_eq!(keysym::XK_KP_0, u64::from(x11::keysym::XK_KP_0));
    assert_eq!(keysym::XK_KP_1, u64::from(x11::keysym::XK_KP_1));
    assert_eq!(keysym::XK_KP_2, u64::from(x11::keysym::XK_KP_2));
    assert_eq!(keysym::XK_KP_3, u64::from(x11::keysym::XK_KP_3));
    assert_eq!(keysym::XK_KP_4, u64::from(x11::keysym::XK_KP_4));
    assert_eq!(keysym::XK_KP_5, u64::from(x11::keysym::XK_KP_5));
    assert_eq!(keysym::XK_KP_6, u64::from(x11::keysym::XK_KP_6));
    assert_eq!(keysym::XK_KP_7, u64::from(x11::keysym::XK_KP_7));
    assert_eq!(keysym::XK_KP_8, u64::from(x11::keysym::XK_KP_8));
    assert_eq!(keysym::XK_KP_9, u64::from(x11::keysym::XK_KP_9));
    assert_eq!(keysym::XK_apostrophe, u64::from(x11::keysym::XK_apostrophe));
    assert_eq!(keysym::XK_backslash, u64::from(x11::keysym::XK_backslash));
    assert_eq!(keysym::XK_colon, u64::from(x11::keysym::XK_colon));
    assert_eq!(keysym::XK_comma, u64::from(x11::keysym::XK_comma));
    assert_eq!(keysym::XK_grave, u64::from(x11::keysym::XK_grave));
    assert_eq!(keysym::XK_Alt_L, u64::from(x11::keysym::XK_Alt_L));
    assert_eq!(keysym::XK_bracketleft, u64::from(x11::keysym::XK_bracketleft));
    assert_eq!(keysym::XK_Control_L, u64::from(x11::keysym::XK_Control_L));
    assert_eq!(keysym::XK_Shift_L, u64::from(x11::keysym::XK_Shift_L));
    assert_eq!(keysym::XK_Win_L, u64::from(x11::keysym::XK_Win_L));
    assert_eq!(keysym::XK_KP_Separator, u64::from(x11::keysym::XK_KP_Separator));
    assert_eq!(keysym::XK_KP_Enter, u64::from(x11::keysym::XK_KP_Enter));
    assert_eq!(keysym::XK_KP_Equal, u64::from(x11::keysym::XK_KP_Equal));
    assert_eq!(keysym::XK_period, u64::from(x11::keysym::XK_period));
    assert_eq!(keysym::XK_Alt_R, u64::from(x11::keysym::XK_Alt_R));
    assert_eq!(keysym::XK_bracketright, u64::from(x11::keysym::XK_bracketright));
    assert_eq!(keysym::XK_Control_R, u64::from(x11::keysym::XK_Control_R));
    assert_eq!(keysym::XK_Shift_R, u64::from(x11::keysym::XK_Shift_R));
    assert_eq!(keysym::XK_Win_R, u64::from(x11::keysym::XK_Win_R));
    assert_eq!(keysym::XK_semicolon, u64::from(x11::keysym::XK_semicolon));
    assert_eq!(keysym::XK_slash, u64::from(x11::keysym::XK_slash));
    assert_eq!(keysym::XK_Tab, u64::from(x11::keysym::XK_Tab));
    assert_eq!(keysym::XK_Super_L, u64::from(x11::keysym::XK_Super_L));
    assert_eq!(keysym::XK_Super_R, u64::from(x11::keysym::XK_Super_R));
    assert_eq!(keysym::XK_Caps_Lock, u64::from(x11::keysym::XK_Caps_Lock));
    assert_eq!(keysym::XK_Shift_Lock, u64::from(x11::keysym::XK_Shift_Lock));
    assert_eq!(keysym::NoSymbol, x11::xlib::NoSymbol as u64);
}

#[test]
fn each_key_has_the_keysym_of_its_name() {
    assert_eq!(Key::Key1.get_keysym(), u64::from(x11::keysym::XK_1));
    assert_eq!(Key::Key2.get_keysym(), u64::from(x11::keysym::XK_2));
    assert_eq!(Key::Key3.get_keysym(), u64::from(x11::keysym::XK_3));
    assert_eq!(Key::Key4.get_keysym(), u64::from(x11::keysym::XK_4));
    assert_eq!(Key::Key5.get_keysym(), u64::from(x11::keysym::XK_5));
    assert_eq!(Key::Key6.get_keysym(), u64::from(x11::keysym::XK_6));
    assert_eq!(Key::Key7.get_keysym(), u64::from(x11::keysym::XK_7));
    assert_eq!(Key::Key8.get_keysym(), u64::from(x11::keysym::XK_8));
    assert_eq!(Key::Key9.get_keysym(), u64::from(x11::keysym::XK_9));
    assert_eq!(Key::Key0.get_keysym(), u64::from(x11::keysym::XK_0));
    assert_eq!(Key::A.get_keysym(), u64::from(x11::keysym::XK_A));
    assert_eq!(Key::B.get_keysym(), u64::from(x11::keysym::XK_B));
    assert_eq!(Key::C.get_keysym(), u64::from(x11::keysym::XK_C));
    assert_eq!(Key::D.get_keysym(), u64::from(x11::keysym::XK_D));
    assert_eq!(Key::E.get_keysym(), u64::from(x11::keysym::XK_E));
    assert_eq!(Key::F.get_keysym(), u64::from(x11::keysym::XK_F));
    assert_eq!(Key::G.get_keysym(), u64::from(x11::keysym::XK_G));
    assert_eq!(Key::H.get_keysym(), u64::from(x11::keysym::XK_H));
    assert_eq!(Key::I.get_keysym(), u64::from(x11::keysym::XK_I));
    assert_eq!(Key::J.get_keysym(), u64::from(x11::keysym::XK_J));
    assert_eq!(Key::K.get_keysym(), u64::from(x11::keysym::XK_K));
    assert_eq!(Key::L.get_keysym(), u64::from(x11::keysym::XK_L));
    assert_eq!(Key::M.get_keysym(), u64::from(x11::keysym::XK_M));
    assert_eq!(Key::N.get_keysym(), u64::from(x11::keysym::XK_N));
    assert_eq!(Key::O.get_keysym(), u64::from(x11::keysym::XK_O));
    assert_eq!(Key::P.get_keysym(), u64::from(x11::keysym::XK_P));
    assert_eq!(Key::Q.get_keysym(), u64::from(x11::keysym::XK_Q));
    assert_eq!(Key::R.get_keysym(), u64::from(x11::keysym::XK_R));
    assert_eq!(Key::S.get_keysym(), u64::from(x11::keysym::XK_S));
    assert_eq!(Key::T.get_keysym(), u64::from(x11::keysym::XK_T));
    assert_eq!(Key::U.get_keysym(), u64::from(x11::keysym::XK_U));
    assert_eq!(Key::V.get_keysym(), u64::from(x11::keysym::XK_V));
    assert_eq!(Key::W.get_keysym(), u64::from(x11::keysym::XK_W));
    assert_eq!(Key::X.get_keysym(), u64::from(x11::keysym::XK_X));
    assert_eq!(Key::Y.get_keysym(), u64::from(x11::keysym::XK_Y));
    assert_eq!(Key::Z.get_keysym(), u64::from(x11::keysym::XK_Z));
    assert_eq!(Key::Escape.get_keysym(), u64::from(x11::keysym::XK_Escape));
    assert_eq!(Key::F1.get_keysym(), u64::from(x11::keysym::XK_F1));
    assert_eq!(Key::F2.get_keysym(), u64::from(x11::keysym::XK_F2));
    assert_eq!(Key::F3.get_keysym(), u64::from(x11::keysym::XK_F3));
    assert_eq!(Key::F4.get_keysym(), u64::from(x11::keysym::XK_F4));
    assert_eq!(Key::F5.get_keysym(), u64::from(x11::keysym::XK_F5));
    assert_eq!(Key::F6.get_keysym(), u64::from(x11::keysym::XK_F6));
    assert_eq!(Key::F7.get_keysym(), u64::from(x11::keysym::XK_F7));
    assert_eq!(Key::F8.get_keysym(), u64::from(x11::keysym::XK_F8));
    assert_eq!(Key::F9.get_keysym(), u64::from(x11::keysym::XK_F9));
    assert_eq!(Key::F10.get_keysym(), u64::from(x11::keysym::XK_F10));
    assert_eq!(Key::F11.get_keysym(), u64::from(x11::keysym::XK_F11));
    assert_eq!(Key::F12.get_keysym(), u64::from(x11::keysym::XK_F12));
    assert_eq!(Key::Scroll.get_keysym(), u64::from(x11::keysym::XK_Scroll_Lock));
    assert_eq!(Key::Pause.get_keysym(), u64::from(x11::keysym::XK_Pause));
    assert_eq!(Key::Insert.get_keysym(), u64::from(x11::keysym::XK_Insert));
    assert_eq!(Key::Home.get_keysym(), u64::from(x11::keysym::XK_Home));
    assert_eq!(Key::Delete.get_keysym(), u64::from(x11::keysym::XK_Delete));
    assert_eq!(Key::End.get_keysym(), u64::from(x11::keysym::XK_End));
    assert_eq!(Key::PageDown.get_keysym(), u64::from(x11::keysym::XK_Page_Down));
    assert_eq!(Key::PageUp.get_keysym(), u64::from(x11::keysym::XK_Page_Up));
    assert_eq!(Key::Left.get_keysym(), u64::from(x11::keysym::XK_Left));
    assert_eq!(Key::Up.get_keysym(), u64::from(x11::keysym::XK_Up));
    assert_eq!(Key::Right.get_keysym(), u64::from(x11::keysym::XK_Right));
    assert_eq!(Key::Down.get_keysym(), u64::from(x11::keysym::XK_Down));
    assert_eq!(Key::Back.get_keysym(), u64::from(x11::keysym::XK_BackSpace));
    assert_eq!(Key::Return.get_keysym(), u64::from(x11::keysym::XK_Return));
    assert_eq!(Key::Space.get_keysym(), u64::from(x11::keysym::XK_space));
    assert_eq!(Key::Numlock.get_keysym(), u64::from(x11::keysym::XK_Num_Lock));
    assert_eq!(Key::Numpad0.get_keysym(), u64::from(x11::keysym::XK_KP_0));
    assert_eq!(Key::Numpad1.get_keysym(), u64::from(x11::keysym::XK_KP_1));
    assert_eq!(Key::Numpad2.get_keysym(), u64::from(x11::keysym::XK_KP_2));
    assert_eq!(Key::Numpad3.get_keysym(), u64::from(x11::keysym::XK_KP_3));
    assert_eq!(Key::Numpad4.get_keysym(), u64::from(x11::keysym::XK_KP_4));
    assert_eq!(Key::Numpad5.get_keysym(), u64::from(x11::keysym::XK_KP_5));
    assert_eq!(Key::Numpad6.get_keysym(), u64::from(x11::keysym::XK_KP_6));
    assert_eq!(Key::Numpad7.get_keysym(), u64::from(x11::keysym::XK_KP_7));
    assert_eq!(Key::Numpad8.get_keysym(), u64::from(x11::keysym::XK_KP_8));
    assert_eq!(Key::Numpad9.get_keysym(), u64::from(x11::keysym::XK_KP_9));
    assert_eq!(Key::Apostrophe.get_keysym(), u64::from(x11::keysym::XK_apostrophe));
    assert_eq!(Key::Backslash.get_keysym(), u64::from(x11::keysym::XK_backslash));
    assert_eq!(Key::Colon.get_keysym(), u64::from(x11::keysym::XK_colon));
    assert_eq!(Key::Comma.get_keysym(), u64::from(x11::keysym::XK_comma));
    assert_eq!(Key::Grave.get_keysym(), u64::from(x11::keysym::XK_grave));
    assert_eq!(Key::LAlt.get_keysym(), u64::from(x11::keysym::XK_Alt_L));
    assert_eq!(Key::LBracket.get_keysym(), u64::from(x11::keysym::XK_bracketleft));
    assert_eq!(Key::LControl.get_keysym(), u64::from(x11::keysym::XK_Control_L));
    assert_eq!(Key::LShift.get_keysym(), u64::from(x11::keysym::XK_Shift_L));
    assert_eq!(Key::LWin.get_keysym(), u64::from(x11::keysym::XK_Win_L));
    assert_eq!(Key::NumpadComma.get_keysym(), u64::from(x11::keysym::XK_KP_Separator));
    assert_eq!(Key::NumpadEnter.get_keysym(), u64::from(x11::keysym::XK_KP_Enter));
    assert_eq!(Key::NumpadEquals.get_keysym(), u64::from(x11::keysym::XK_KP_Equal));
    assert_eq!(Key::Period.get_keysym(), u64::from(x11::keysym::XK_period));
    assert_eq!(Key::RAlt.get_keysym(), u64::from(x11::keysym::XK_Alt_R));
    assert_eq!(Key::RBracket.get_keysym(), u64::from(x11::keysym::XK_bracketright));
    assert_eq!(Key::RControl.get_keysym(), u64::from(x11::keysym::XK_Control_R));
    assert_eq!(Key::RShift.get_keysym(), u64::from(x11::keysym::XK_Shift_R));
    assert_eq!(Key::RWin.get_keysym(), u64::from(x11::keysym::XK_Win_R));
    assert_eq!(Key::Semicolon.get_keysym(), u64::from(x11::keysym::XK_semicolon));
    assert_eq!(Key::Slash.get_keysym(), u64::from(x11::keysym::XK_slash));
    assert_eq!(Key::Tab.get_keysym(), u64::from(x11::keysym::XK_Tab));
}

#[test]
fn each_key_has_the_expected_keysym_value() {
    assert_eq!(Key::Key1.get_keysym(), 0x0031);
    assert_eq!(Key::Key2.get_keysym(), 0x0032);
    assert_eq!(Key::Key3.get_keysym(), 0x0033);
    assert_eq!(Key::Key4.get_keysym(), 0x0034);
    assert_eq!(Key::Key5.get_keysym(), 0x0035);
    assert_eq!(Key::Key6.get_keysym(), 0x0036);
    assert_eq!(Key::Key7.get_keysym(), 0x0037);
    assert_eq!(Key::Key8.get_keysym(), 0x0038);
    assert_eq!(Key::Key9.get_keysym(), 0x0039);
    assert_eq!(Key::Key0.get_keysym(), 0x0030);
    assert_eq!(Key::A.get_keysym(), 0x0041);
    assert_eq!(Key::B.get_keysym(), 0x0042);
    assert_eq!(Key::C.get_keysym(), 0x0043);
    assert_eq!(Key::D.get_keysym(), 0x0044);
    assert_eq!(Key::E.get_keysym(), 0x0045);
    assert_eq!(Key::F.get_keysym(), 0x0046);
    assert_eq!(Key::G.get_keysym(), 0x0047);
    assert_eq!(Key::H.get_keysym(), 0x0048);
    assert_eq!(Key::I.get_keysym(), 0x0049);
    assert_eq!(Key::J.get_keysym(), 0x004a);
    assert_eq!(Key::K.get_keysym(), 0x004b);
    assert_eq!(Key::L.get_keysym(), 0x004c);
    assert_eq!(Key::M.get_keysym(), 0x004d);
    assert_eq!(Key::N.get_keysym(), 0x004e);
    assert_eq!(Key::O.get_keysym(), 0x004f);
    assert_eq!(Key::P.get_keysym(), 0x0050);
    assert_eq!(Key::Q.get_keysym(), 0x0051);
    assert_eq!(Key::R.get_keysym(), 0x0052);
    assert_eq!(Key::S.get_keysym(), 0x0053);
    assert_eq!(Key::T.get_keysym(), 0x0054);
    assert_eq!(Key::U.get_keysym(), 0x0055);
    assert_eq!(Key::V.get_keysym(), 0x0056);
    assert_eq!(Key::W.get_keysym(), 0x0057);
    assert_eq!(Key::X.get_keysym(), 0x0058);
    assert_eq!(Key::Y.get_keysym(), 0x0059);
    assert_eq!(Key::Z.get_keysym(), 0x005a);
    assert_eq!(Key::Escape.get_keysym(), 0xff1b);
    assert_eq!(Key::F1.get_keysym(), 0xffbe);
    assert_eq!(Key::F2.get_keysym(), 0xffbf);
    assert_eq!(Key::F3.get_keysym(), 0xffc0);
    assert_eq!(Key::F4.get_keysym(), 0xffc1);
    assert_eq!(Key::F5.get_keysym(), 0xffc2);
    assert_eq!(Key::F6.get_keysym(), 0xffc3);
    assert_eq!(Key::F7.get_keysym(), 0xffc4);
    assert_eq!(Key::F8.get_keysym(), 0xffc5);
    assert_eq!(Key::F9.get_keysym(), 0xffc6);
    assert_eq!(Key::F10.get_keysym(), 0xffc7);
    assert_eq!(Key::F11.get_keysym(), 0xffc8);
    assert_eq!(Key::F12.get_keysym(), 0xffc9);
    assert_eq!(Key::Scroll.get_keysym(), 0xff14);
    assert_eq!(Key::Pause.get_keysym(), 0xff13);
    assert_eq!(Key::Insert.get_keysym(), 0xff63);
    assert_eq!(Key::Home.get_keysym(), 0xff50);
    assert_eq!(Key::Delete.get_keysym(), 0xffff);
    assert_eq!(Key::End.get_keysym(), 0xff57);
    assert_eq!(Key::PageDown.get_keysym(), 0xff56);
    assert_eq!(Key::PageUp.get_keysym(), 0xff55);
    assert_eq!(Key::Left.get_keysym(), 0xff51);
    assert_eq!(Key::Up.get_keysym(), 0xff52);
    assert_eq!(Key::Right.get_keysym(), 0xff53);
    assert_eq!(Key::Down.get_keysym(), 0xff54);
    assert_eq!(Key::Back.get_keysym(), 0xff08);
    assert_eq!(Key::Return.get_keysym(), 0xff0d);
    assert_eq!(Key::Space.get_keysym(), 0x0020);
    assert_eq!(Key::Numlock.get_keysym(), 0xff7f);
    assert_eq!(Key::Numpad0.get_keysym(), 0xffb0);
    assert_eq!(Key::Numpad1.get_keysym(), 0xffb1);
    assert_eq!(Key::Numpad2.get_keysym(), 0xffb2);
    assert_eq!(Key::Numpad3.get_keysym(), 0xffb3);
    assert_eq!(Key::Numpad4.get_keysym(), 0xffb4);
    assert_eq!(Key::Numpad5.get_keysym(), 0xffb5);
    assert_eq!(Key::Numpad6.get_keysym(), 0xffb6);
    assert_eq!(Key::Numpad7.get_keysym(), 0xffb7);
    assert_eq!(Key::Numpad8.get_keysym(), 0xffb8);
    assert_eq!(Key::Numpad9.get_keysym(), 0xffb9);
    assert_eq!(Key::Apostrophe.get_keysym(), 0x0027);
    assert_eq!(Key::Backslash.get_keysym(), 0x005c);
    assert_eq!(Key::Colon.get_keysym(), 0x003a);
    assert_eq!(Key::Comma.get_keysym(), 0x002c);
    assert_eq!(Key::Grave.get_keysym(), 0x0060);
    assert_eq!(Key::LAlt.get_keysym(), 0xffe9);
    assert_eq!(Key::LBracket.get_keysym(), 0x005b);
    assert_eq!(Key::LControl.get_keysym(), 0xffe3);
    assert_eq!(Key::LShift.get_keysym(), 0xffe1);
    assert_eq!(Key::LWin.get_keysym(), 0xff5b);
    assert_eq!(Key::NumpadComma.get_keysym(), 0xffac);
    assert_eq!(Key::NumpadEnter.get_keysym(), 0xff8d);
    assert_eq!(Key::NumpadEquals.get_keysym(), 0xffbd);
    assert_eq!(Key::Period.get_keysym(), 0x002e);
    assert_eq!(Key::RAlt.get_keysym(), 0xffea);
    assert_eq!(Key::RBracket.get_keysym(), 0x005d);
    assert_eq!(Key::RControl.get_keysym(), 0xffe4);
    assert_eq!(Key::RShift.get_keysym(), 0xffe2);
    assert_eq!(Key::RWin.get_keysym(), 0xff5c);
    assert_eq!(Key::Semicolon.get_keysym(), 0x003b);
    assert_eq!(Key::Slash.get_keysym(), 0x002f);
    assert_eq!(Key::Tab.get_keysym(), 0xff09);
}

#[test]
fn each_key_is_named_by_a_c_string() {
    assert_eq!(Key::Key1.get_key_c_str(0).as_bytes(), b"1\0");
    assert_eq!(Key::Key2.get_key_c_str(0).as_bytes(), b"2\0");
    assert_eq!(Key::Key3.get_key_c_str(0).as_bytes(), b"3\0");
    assert_eq!(Key::Key4.get_key_c_str(0).as_bytes(), b"4\0");
    assert_eq!(Key::Key5.get_key_c_str(0).as_bytes(), b"5\0");
    assert_eq!(Key::Key6.get_key_c_str(0).as_bytes(), b"6\0");
    assert_eq!(Key::Key7.get_key_c_str(0).as_bytes(), b"7\0");
    assert_eq!(Key::Key8.get_key_c_str(0).as_bytes(), b"8\0");
    assert_eq!(Key::Key9.get_key_c_str(0).as_bytes(), b"9\0");
    assert_eq!(Key::Key0.get_key_c_str(0).as_bytes(), b"0\0");
    assert_eq!(Key::A.get_key_c_str(0).as_bytes(), b"A\0");
    assert_eq!(Key::B.get_key_c_str(0).as_bytes(), b"B\0");
    assert_eq!(Key::C.get_key_c_str(0).as_bytes(), b"C\0");
    assert_eq!(Key::D.get_key_c_str(0).as_bytes(), b"D\0");
    assert_eq!(Key::E.get_key_c_str(0).as_bytes(), b"E\0");
    assert_eq!(Key::F.get_key_c_str(0).as_bytes(), b"F\0");
    assert_eq!(Key::G.get_key_c_str(0).as_bytes(), b"G\0");
    assert_eq!(Key::H.get_key_c_str(0).as_bytes(), b"H\0");
    assert_eq!(Key::I.get_key_c_str(0).as_bytes(), b"I\0");
    assert_eq!(Key::J.get_key_c_str(0).as_bytes(), b"J\0");
    assert_eq!(Key::K.get_key_c_str(0).as_bytes(), b"K\0");
    assert_eq!(Key::L.get_key_c_str(0).as_bytes(), b"L\0");
    assert_eq!(Key::M.get_key_c_str(0).as_bytes(), b"M\0");
    assert_eq!(Key::N.get_key_c_str(0).as_bytes(), b"N\0");
    assert_eq!(Key::O.get_key_c_str(0).as_bytes(), b"O\0");
    assert_eq!(Key::P.get_key_c_str(0).as_bytes(), b"P\0");
    assert_eq!(Key::Q.get_key_c_str(0).as_bytes(), b"Q\0");
    assert_eq!(Key::R.get_key_c_str(0).as_bytes(), b"R\0");
    assert_eq!(Key::S.get_key_c_str(0).as_bytes(), b"S\0");
    assert_eq!(Key::T.get_key_c_str(0).as_bytes(), b"T\0");
    assert_eq!(Key::U.get_key_c_str(0).as_bytes(), b"U\0");
    assert_eq!(Key::V.get_key_c_str(0).as_bytes(), b"V\0");
    assert_eq!(Key::W.get_key_c_str(0).as_bytes(), b"W\0");
    assert_eq!(Key::X.get_key_c_str(0).as_bytes(), b"X\0");
    assert_eq!(Key::Y.get_key_c_str(0).as_bytes(), b"Y\0");
    assert_eq!(Key::Z.get_key_c_str(0).as_bytes(), b"Z\0");
    assert_eq!(Key::Escape.get_key_c_str(0).as_bytes(), b"Escape\0");
    assert_eq!(Key::F1.get_key_c_str(0).as_bytes(), b"F1\0");
    assert_eq!(Key::F2.get_key_c_str(0).as_bytes(), b"F2\0");
    assert_eq!(Key::F3.get_key_c_str(0).as_bytes(), b"F3\0");
    assert_eq!(Key::F4.get_key_c_str(0).as_bytes(), b"F4\0");
    assert_eq!(Key::F5.get_key_c_str(0).as_bytes(), b"F5\0");
    assert_eq!(Key::F6.get_key_c_str(0).as_bytes(), b"F6\0");
    assert_eq!(Key::F7.get_key_c_str(0).as_bytes(), b"F7\0");
    assert_eq!(Key::F8.get_key_c_str(0).as_bytes(), b"F8\0");
    assert_eq!(Key::F9.get_key_c_str(0).as_bytes(), b"F9\0");
    assert_eq!(Key::F10.get_key_c_str(0).as_bytes(), b"F10\0");
    assert_eq!(Key::F11.get_key_c_str(0).as_bytes(), b"F11\0");
    assert_eq!(Key::F12.get_key_c_str(0).as_bytes(), b"F12\0");
    assert_eq!(Key::Scroll.get_key_c_str(0).as_bytes(), b"Scroll_Lock\0");
    assert_eq!(Key::Pause.get_key_c_str(0).as_bytes(), b"Pause\0");
    assert_eq!(Key::Insert.get_key_c_str(0).as_bytes(), b"Insert\0");
    assert_eq!(Key::Home.get_key_c_str(0).as_bytes(), b"Home\0");
    assert_eq!(Key::Delete.get_key_c_str(0).as_bytes(), b"Delete\0");
    assert_eq!(Key::End.get_key_c_str(0).as_bytes(), b"End\0");
    assert_eq!(Key::PageDown.get_key_c_str(0).as_bytes(), b"Page_Down\0");
    assert_eq!(Key::PageUp.get_key_c_str(0).as_bytes(), b"Page_Up\0");
    assert_eq!(Key::Left.get_key_c_str(0).as_bytes(), b"Left\0");
    assert_eq!(Key::Up.get_key_c_str(0).as_bytes(), b"Up\0");
    assert_eq!(Key::Right.get_key_c_str(0).as_bytes(), b"Right\0");
    assert_eq!(Key::Down.get_key_c_str(0).as_bytes(), b"Down\0");
    assert_eq!(Key::Back.get_key_c_str(0).as_bytes(), b"BackSpace\0");
    assert_eq!(Key::Return.get_key_c_str(0).as_bytes(), b"Return\0");
    assert_eq!(Key::Space.get_key_c_str(0).as_bytes(), b"space\0");
    assert_eq!(Key::Numlock.get_key_c_str(0).as_bytes(), b"Num_Lock\0");
    assert_eq!(Key::Numpad0.get_key_c_str(0).as_bytes(), b"KP_0\0");
    assert_eq!(Key::Numpad1.get_key_c_str(0).as_bytes(), b"KP_1\0");
    assert_eq!(Key::Numpad2.get_key_c_str(0).as_bytes(), b"KP_2\0");
    assert_eq!(Key::Numpad3.get_key_c_str(0).as_bytes(), b"KP_3\0");
    assert_eq!(Key::Numpad4.get_key_c_str(0).as_bytes(), b"KP_4\0");
    assert_eq!(Key::Numpad5.get_key_c_str(0).as_bytes(), b"KP_5\0");
    assert_eq!(Key::Numpad6.get_key_c_str(0).as_bytes(), b"KP_6\0");
    assert_eq!(Key::Numpad7.get_key_c_str(0).as_bytes(), b"KP_7\0");
    assert_eq!(Key::Numpad8.get_key_c_str(0).as_bytes(), b"KP_8\0");
    assert_eq!(Key::Numpad9.get_key_c_str(0).as_bytes(), b"KP_9\0");
    assert_eq!(Key::Apostrophe.get_key_c_str(0).as_bytes(), b"apostrophe\0");
    assert_eq!(Key::Backslash.get_key_c_str(0).as_bytes(), b"backslash\0");
    assert_eq!(Key::Colon.get_key_c_str(0).as_bytes(), b"colon\0");
    assert_eq!(Key::Comma.get_key_c_str(0).as_bytes(), b"comma\0");
    assert_eq!(Key::Grave.get_key_c_str(0).as_bytes(), b"grave\0");
    assert_eq!(Key::LAlt.get_key_c_str(0).as_bytes(), b"Alt_L\0");
    assert_eq!(Key::LBracket.get_key_c_str(0).as_bytes(), b"bracketleft\0");
    assert_eq!(Key::LControl.get_key_c_str(0).as_bytes(), b"Control_L\0");
    assert_eq!(Key::LShift.get_key_c_str(0).as_bytes(), b"Shift_L\0");
    assert_eq!(Key::LWin.get_key_c_str(0).as_bytes(), b"Win_L\0");
    assert_eq!(Key::NumpadComma.get_key_c_str(0).as_bytes(), b"KP_Separator\0");
    assert_eq!(Key::NumpadEnter.get_key_c_str(0).as_bytes(), b"KP_Enter\0");
    assert_eq!(Key::NumpadEquals.get_key_c_str(0).as_bytes(), b"KP_Equal\0");
    assert_eq!(Key::Period.get_key_c_str(0).as_bytes(), b"period\0");
    assert_eq!(Key::RAlt.get_key_c_str(0).as_bytes(), b"Alt_R\0");
    assert_eq!(Key::RBracket.get_key_c_str(0).as_bytes(), b"bracketright\0");
    assert_eq!(Key::RControl.get_key_c_str(0).as_bytes(), b"Control_R\0");
    assert_eq!(Key::RShift.get_key_c_str(0).as_bytes(), b"Shift_R\0");
    assert_eq!(Key::RWin.get_key_c_str(0).as_bytes(), b"Win_R\0");
    assert_eq!(Key::Semicolon.get_key_c_str(0).as_bytes(), b"semicolon\0");
    assert_eq!(Key::Slash.get_key_c_str(0).as_bytes(), b"slash\0");
    assert_eq!(Key::Tab.get_key_c_str(0).as_bytes(), b"Tab\0");
}

#[test]
fn each_modifier_has_the_keysym_of_its_name() {
    assert_eq!(Modifier::Super_L.get_keysym(), u64::from(x11::keysym::XK_Super_L));
    assert_eq!(Modifier::Super_L.get_keysym(), 0xffeb);
    assert_eq!(Modifier::Super_L.get_key_c_str().as_bytes(), b"Super_L\0");
    assert_eq!(Modifier::Super_R.get_keysym(), u64::from(x11::keysym::XK_Super_R));
    assert_eq!(Modifier::Super_R.get_keysym(), 0xffec);
    assert_eq!(Modifier::Super_R.get_key_c_str().as_bytes(), b"Super_R\0");
    assert_eq!(Modifier::Alt_L.get_keysym(), u64::from(x11::keysym::XK_Alt_L));
    assert_eq!(Modifier::Alt_L.get_keysym(), 0xffe9);
    assert_eq!(Modifier::Alt_L.get_key_c_str().as_bytes(), b"Alt_L\0");
    assert_eq!(Modifier::Alt_R.get_keysym(), u64::from(x11::keysym::XK_Alt_R));
    assert_eq!(Modifier::Alt_R.get_keysym(), 0xffea);
    assert_eq!(Modifier::Alt_R.get_key_c_str().as_bytes(), b"Alt_R\0");
    assert_eq!(Modifier::Shift_L.get_keysym(), u64::from(x11::keysym::XK_Shift_L));
    assert_eq!(Modifier::Shift_L.get_keysym(), 0xffe1);
    assert_eq!(Modifier::Shift_L.get_key_c_str().as_bytes(), b"Shift_L\0");
    assert_eq!(Modifier::Shift_R.get_keysym(), u64::from(x11::keysym::XK_Shift_R));
    assert_eq!(Modifier::Shift_R.get_keysym(), 0xffe2);
    assert_eq!(Modifier::Shift_R.get_key_c_str().as_bytes(), b"Shift_R\0");
    assert_eq!(Modifier::Caps_Lock.get_keysym(), u64::from(x11::keysym::XK_Caps_Lock));
    assert_eq!(Modifier::Caps_Lock.get_keysym(), 0xffe5);
    assert_eq!(Modifier::Caps_Lock.get_key_c_str().as_bytes(), b"Caps_Lock\0");
    assert_eq!(Modifier::Shift_Lock.get_keysym(), u64::from(x11::keysym::XK_Shift_Lock));
    assert_eq!(Modifier::Shift_Lock.get_keysym(), 0xffe6);
    assert_eq!(Modifier::Shift_Lock.get_key_c_str().as_bytes(), b"Shift_Lock\0");
    assert_eq!(Modifier::Control_L.get_keysym(), u64::from(x11::keysym::XK_Control_L));
    assert_eq!(Modifier::Control_L.get_keysym(), 0xffe3);
    assert_eq!(Modifier::Control_L.get_key_c_str().as_bytes(), b"Control_L\0");
    assert_eq!(Modifier::Control_R.get_keysym(), u64::from(x11::keysym::XK_Control_R));
    assert_eq!(Modifier::Control_R.get_keysym(), 0xffe4);
    assert_eq!(Modifier::Control_R.get_key_c_str().as_bytes(), b"Control_R\0");
}

#[test]
fn insert_has_its_own_keysym() {
    assert_eq!(Key::Insert.get_keysym(), 0xff63);
    assert_eq!(Key::Pause.get_keysym(), 0xff13);
    assert!(Key::Insert != Key::Pause);
    assert!(Key::Insert == Key::Insert);
    assert_eq!(Key::Insert.get_key_c_str(0), "Insert\0");
    assert_eq!(Key::Insert.get_key_c_str(0).len(), 7);
    assert_eq!(Key::Pause.get_key_c_str(0), "Pause\0");
}

#[test]
fn no_key_has_no_symbol() {
    assert_eq!(Key::NoKey.keysym_or_none(), keysym::NoSymbol);
    assert_eq!(Key::Return.keysym_or_none(), 0xff0d);
    assert!(Key::NoKey == Key::NoKey);
    assert!(Key::NoKey != Key::Return);
}

#[test]
fn modifier_masks_are_those_of_xlib() {
    assert_eq!(Modifier::Super_L.get_mask(), x11::xlib::Mod4Mask);
    assert_eq!(Modifier::Super_R.get_mask(), x11::xlib::Mod4Mask);
    assert_eq!(Modifier::Alt_L.get_mask(), x11::xlib::Mod1Mask);
    assert_eq!(Modifier::Alt_R.get_mask(), x11::xlib::Mod1Mask);
    assert_eq!(Modifier::Shift_L.get_mask(), x11::xlib::ShiftMask);
    assert_eq!(Modifier::Shift_R.get_mask(), x11::xlib::ShiftMask);
    assert_eq!(Modifier::Caps_Lock.get_mask(), x11::xlib::LockMask);
    assert_eq!(Modifier::Shift_Lock.get_mask(), x11::xlib::LockMask);
    assert_eq!(Modifier::Control_L.get_mask(), x11::xlib::ControlMask);
    assert_eq!(Modifier::Control_R.get_mask(), x11::xlib::ControlMask);
}

#[test]
fn protocol_numbers_are_those_of_xlib() {
    assert_eq!(xproto::KeyPressMask, x11::xlib::KeyPressMask);
    assert_eq!(xproto::EnterWindowMask, x11::xlib::EnterWindowMask);
    assert_eq!(xproto::LeaveWindowMask, x11::xlib::LeaveWindowMask);
    assert_eq!(xproto::SubstructureNotifyMask, x11::xlib::SubstructureNotifyMask);
    assert_eq!(xproto::SubstructureRedirectMask, x11::xlib::SubstructureRedirectMask);
    assert_eq!(xproto::FocusChangeMask, x11::xlib::FocusChangeMask);
    assert_eq!(
        xproto::ROOT_EVENT_MASK,
        x11::xlib::SubstructureRedirectMask
            | x11::xlib::SubstructureNotifyMask
            | x11::xlib::FocusChangeMask
    );
    assert_eq!(xproto::ROOT_KEY_EVENT_MASK, xproto::ROOT_EVENT_MASK | x11::xlib::KeyPressMask);
    assert_eq!(
        xproto::FRAME_EVENT_MASK,
        x11::xlib::SubstructureRedirectMask
            | x11::xlib::SubstructureNotifyMask
            | x11::xlib::FocusChangeMask
            | x11::xlib::EnterWindowMask
            | x11::xlib::LeaveWindowMask
    );
    assert_eq!(xproto::ShiftMask, x11::xlib::ShiftMask);
    assert_eq!(xproto::LockMask, x11::xlib::LockMask);
    assert_eq!(xproto::ControlMask, x11::xlib::ControlMask);
    assert_eq!(xproto::Mod1Mask, x11::xlib::Mod1Mask);
    assert_eq!(xproto::Mod4Mask, x11::xlib::Mod4Mask);
    assert_eq!(xproto::Button1, x11::xlib::Button1);
    assert_eq!(xproto::GrabModeSync, x11::xlib::GrabModeSync);
    assert_eq!(xproto::IsViewable, x11::xlib::IsViewable);
    assert_eq!(i32::from(xproto::AnyKey), x11::xlib::AnyKey);
    assert_eq!(xproto::BadWindow, x11::xlib::BadWindow);
    assert_eq!(xproto::BadAccess, x11::xlib::BadAccess);
}

#[test]
fn different_keys_have_different_keysyms() {
    let keys = [
        Key::Key1,
        Key::Key2,
        Key::Key3,
        Key::Key4,
        Key::Key5,
        Key::Key6,
        Key::Key7,
        Key::Key8,
        Key::Key9,
        Key::Key0,
        Key::A,
        Key::B,
        Key::C,
        Key::D,
        Key::E,
        Key::F,
        Key::G,
        Key::H,
        Key::I,
        Key::J,
        Key::K,
        Key::L,
        Key::M,
        Key::N,
        Key::O,
        Key::P,
        Key::Q,
        Key::R,
        Key::S,
        Key::T,
        Key::U,
        Key::V,
        Key::W,
        Key::X,
        Key::Y,
        Key::Z,
        Key::Escape,
        Key::F1,
        Key::F2,
        Key::F3,
        Key::F4,
        Key::F5,
        Key::F6,
        Key::F7,
        Key::F8,
        Key::F9,
        Key::F10,
        Key::F11,
        Key::F12,
        Key::Scroll,
        Key::Pause,
        Key::Insert,
        Key::Home,
        Key::Delete,
        Key::End,
        Key::PageDown,
        Key::PageUp,
        Key::Left,
        Key::Up,
        Key::Right,
        Key::Down,
        Key::Back,
        Key::Return,
        Key::Space,
        Key::Numlock,
        Key::Numpad0,
        Key::Numpad1,
        Key::Numpad2,
        Key::Numpad3,
        Key::Numpad4,
        Key::Numpad5,
        Key::Numpad6,
        Key::Numpad7,
        Key::Numpad8,
        Key::Numpad9,
        Key::Apostrophe,
        Key::Backslash,
        Key::Colon,
        Key::Comma,
        Key::Grave,
        Key::LAlt,
        Key::LBracket,
        Key::LControl,
        Key::LShift,
        Key::LWin,
        Key::NumpadComma,
        Key::NumpadEnter,
        Key::NumpadEquals,
        Key::Period,
        Key::RAlt,
        Key::RBracket,
        Key::RControl,
        Key::RShift,
        Key::RWin,
        Key::Semicolon,
        Key::Slash,
        Key::Tab,
    ];
    assert_eq!(keys.len(), 97);
    for (i, a) in keys.iter().enumerate() {
        assert_ne!(a.get_keysym(), 0);
        let name = a.get_key_c_str(0).as_bytes();
        assert!(name.len() >= 2);
        assert_eq!(name[name.len() - 1], 0);
        assert!(!name[..name.len() - 1].contains(&0));
        for (j, b) in keys.iter().enumerate() {
            assert_eq!(a.get_keysym() == b.get_keysym(), i == j);
            assert_eq!(a == b, i == j);
            assert_eq!(a.get_key_c_str(0) == b.get_key_c_str(0), i == j);
        }
    }
}
