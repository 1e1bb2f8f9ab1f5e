//! The records handed to Windows `SendInput`, as plain values, and the
//! Win32 flag values that they carry.
use vstd::prelude::*;

verus! {

/// `KEYEVENTF_EXTENDEDKEY`: the scan code is preceded by the 0xE0 prefix.
pub const KEYEVENTF_EXTENDEDKEY: u32 = 0x0001;
/// `KEYEVENTF_KEYUP`: the key is being released.
pub const KEYEVENTF_KEYUP: u32 = 0x0002;
/// `KEYEVENTF_SCANCODE`: the input carries a hardware scan code.
pub const KEYEVENTF_SCANCODE: u32 = 0x0008;

/// `MOUSEEVENTF_MOVE`
pub const MOUSEEVENTF_MOVE: u32 = 0x0001;
/// `MOUSEEVENTF_LEFTDOWN`
pub const MOUSEEVENTF_LEFTDOWN: u32 = 0x0002;
/// `MOUSEEVENTF_LEFTUP`
pub const MOUSEEVENTF_LEFTUP: u32 = 0x0004;
/// `MOUSEEVENTF_RIGHTDOWN`
pub const MOUSEEVENTF_RIGHTDOWN: u32 = 0x0008;
/// `MOUSEEVENTF_RIGHTUP`
pub const MOUSEEVENTF_RIGHTUP: u32 = 0x0010;
/// `MOUSEEVENTF_MIDDLEDOWN`
pub const MOUSEEVENTF_MIDDLEDOWN: u32 = 0x0020;
/// `MOUSEEVENTF_MIDDLEUP`
pub const MOUSEEVENTF_MIDDLEUP: u32 = 0x0040;
/// `MOUSEEVENTF_XDOWN`
pub const MOUSEEVENTF_XDOWN: u32 = 0x0080;
/// `MOUSEEVENTF_XUP`
pub const MOUSEEVENTF_XUP: u32 = 0x0100;
/// `MOUSEEVENTF_WHEEL`
pub const MOUSEEVENTF_WHEEL: u32 = 0x0800;
/// `MOUSEEVENTF_HWHEEL`
pub const MOUSEEVENTF_HWHEEL: u32 = 0x1000;
/// `MOUSEEVENTF_VIRTUALDESK`
pub const MOUSEEVENTF_VIRTUALDESK: u32 = 0x4000;
/// `MOUSEEVENTF_ABSOLUTE`
pub const MOUSEEVENTF_ABSOLUTE: u32 = 0x8000;

/// `XBUTTON1`: the mouse data of the first extended button.
pub const XBUTTON1: u32 = 0x0001;
/// `XBUTTON2`: the mouse data of the second extended button.
pub const XBUTTON2: u32 = 0x0002;

/// One synthesized input: the content of a Win32 `INPUT` structure whose
/// `time` and `dwExtraInfo` are zero.
#[derive(Clone, Copy, Debug, PartialEq, Eq, Structural)]
pub enum InputRecord {
    /// `INPUT_KEYBOARD` with `wVk` zero.
    Keyboard { scan: u16, flags: u32 },
    /// `INPUT_MOUSE`.
    Mouse { dx: i32, dy: i32, mouse_data: u32, flags: u32 },
}

} // verus!
