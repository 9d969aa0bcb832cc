//! The keysyms that key and modifier names stand for.
//!
//! A keysym is the number by which the X protocol names the symbol on a key
//! cap. The names and values are those of the X11 keysym encoding.

#![allow(non_upper_case_globals)]

use vstd::prelude::*;

verus! {

/// The keysym that stands for "no symbol".
pub const NoSymbol: u64 = 0;

pub const XK_BackSpace: u64 = 0xff08;

pub const XK_Tab: u64 = 0xff09;

pub const XK_Return: u64 = 0xff0d;

pub const XK_Pause: u64 = 0xff13;

pub const XK_Scroll_Lock: u64 = 0xff14;

pub const XK_Escape: u64 = 0xff1b;

pub const XK_Delete: u64 = 0xffff;

pub const XK_Home: u64 = 0xff50;

pub const XK_Left: u64 = 0xff51;

pub const XK_Up: u64 = 0xff52;

pub const XK_Right: u64 = 0xff53;

pub const XK_Down: u64 = 0xff54;

pub const XK_Page_Up: u64 = 0xff55;

pub const XK_Page_Down: u64 = 0xff56;

pub const XK_End: u64 = 0xff57;

pub const XK_Win_L: u64 = 0xff5b;

pub const XK_Win_R: u64 = 0xff5c;

pub const XK_Insert: u64 = 0xff63;

pub const XK_Num_Lock: u64 = 0xff7f;

pub const XK_KP_Enter: u64 = 0xff8d;

pub const XK_KP_Equal: u64 = 0xffbd;

pub const XK_KP_Separator: u64 = 0xffac;

pub const XK_KP_0: u64 = 0xffb0;

pub const XK_KP_1: u64 = 0xffb1;

pub const XK_KP_2: u64 = 0xffb2;

pub const XK_KP_3: u64 = 0xffb3;

pub const XK_KP_4: u64 = 0xffb4;

pub const XK_KP_5: u64 = 0xffb5;

pub const XK_KP_6: u64 = 0xffb6;

pub const XK_KP_7: u64 = 0xffb7;

pub const XK_KP_8: u64 = 0xffb8;

pub const XK_KP_9: u64 = 0xffb9;

pub const XK_F1: u64 = 0xffbe;

pub const XK_F2: u64 = 0xffbf;

pub const XK_F3: u64 = 0xffc0;

pub const XK_F4: u64 = 0xffc1;

pub const XK_F5: u64 = 0xffc2;

pub const XK_F6: u64 = 0xffc3;

pub const XK_F7: u64 = 0xffc4;

pub const XK_F8: u64 = 0xffc5;

pub const XK_F9: u64 = 0xffc6;

pub const XK_F10: u64 = 0xffc7;

pub const XK_F11: u64 = 0xffc8;

pub const XK_F12: u64 = 0xffc9;

pub const XK_Shift_L: u64 = 0xffe1;

pub const XK_Shift_R: u64 = 0xffe2;

pub const XK_Control_L: u64 = 0xffe3;

pub const XK_Control_R: u64 = 0xffe4;

pub const XK_Caps_Lock: u64 = 0xffe5;

pub const XK_Shift_Lock: u64 = 0xffe6;

pub const XK_Alt_L: u64 = 0xffe9;

pub const XK_Alt_R: u64 = 0xffea;

pub const XK_Super_L: u64 = 0xffeb;

pub const XK_Super_R: u64 = 0xffec;

pub const XK_space: u64 = 0x0020;

pub const XK_apostrophe: u64 = 0x0027;

pub const XK_comma: u64 = 0x002c;

pub const XK_period: u64 = 0x002e;

pub const XK_slash: u64 = 0x002f;

pub const XK_0: u64 = 0x0030;

pub const XK_1: u64 = 0x0031;

pub const XK_2: u64 = 0x0032;

pub const XK_3: u64 = 0x0033;

pub const XK_4: u64 = 0x0034;

pub const XK_5: u64 = 0x0035;

pub const XK_6: u64 = 0x0036;

pub const XK_7: u64 = 0x0037;

pub const XK_8: u64 = 0x0038;

pub const XK_9: u64 = 0x0039;

pub const XK_colon: u64 = 0x003a;

pub const XK_semicolon: u64 = 0x003b;

pub const XK_A: u64 = 0x0041;

pub const XK_B: u64 = 0x0042;

pub const XK_C: u64 = 0x0043;

pub const XK_D: u64 = 0x0044;

pub const XK_E: u64 = 0x0045;

pub const XK_F: u64 = 0x0046;

pub const XK_G: u64 = 0x0047;

pub const XK_H: u64 = 0x0048;

pub const XK_I: u64 = 0x0049;

pub const XK_J: u64 = 0x004a;

pub const XK_K: u64 = 0x004b;

pub const XK_L: u64 = 0x004c;

pub const XK_M: u64 = 0x004d;

pub const XK_N: u64 = 0x004e;

pub const XK_O: u64 = 0x004f;

pub const XK_P: u64 = 0x0050;

pub const XK_Q: u64 = 0x0051;

pub const XK_R: u64 = 0x0052;

pub const XK_S: u64 = 0x0053;

pub const XK_T: u64 = 0x0054;

pub const XK_U: u64 = 0x0055;

pub const XK_V: u64 = 0x0056;

pub const XK_W: u64 = 0x0057;

pub const XK_X: u64 = 0x0058;

pub const XK_Y: u64 = 0x0059;

pub const XK_Z: u64 = 0x005a;

pub const XK_bracketleft: u64 = 0x005b;

pub const XK_backslash: u64 = 0x005c;

pub const XK_bracketright: u64 = 0x005d;

pub const XK_grave: u64 = 0x0060;

} // verus!
