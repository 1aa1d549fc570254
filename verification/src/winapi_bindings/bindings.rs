use vstd::prelude::*;
use crate::winapi_bindings::utils::{lparam_of, make_lparam};

verus! {

/// Message identifier of a key going down.
pub const WM_KEYDOWN: u32 = 0x0100;

/// Message identifier of the left mouse button going down.
pub const WM_LBUTTONDOWN: u32 = 0x0201;

/// Message identifier of the left mouse button going up.
pub const WM_LBUTTONUP: u32 = 0x0202;

/// Virtual-key code of the space bar.
pub const VK_SPACE: i32 = 0x20;

/// Flag that the space-bar message carries in its high word while the key is
/// held.
pub const KEY_HELD: i32 = 0x8000;

/// The colour of one pixel.
#[derive(Clone, Copy, Debug, PartialEq, Eq, Structural)]
pub struct Rgb {
    pub r: u8,
    pub g: u8,
    pub b: u8,
}

/// One window message, ready to be delivered to the window `hwnd`.
#[derive(Clone, Copy, Debug, PartialEq, Eq, Structural)]
pub struct Message {
    pub hwnd: usize,
    pub msg: u32,
    pub w_param: usize,
    pub l_param: isize,
}

/// The space-bar message for the window `hwnd`: the key held down if
/// `key_press`, let go otherwise.
pub open spec fn space_key_message_of(hwnd: usize, key_press: bool) -> Message {
    Message {
        hwnd,
        msg: 0x0100,
        w_param: 0x20,
        l_param: lparam_of(
            1,
            if key_press {
                0x8020
            } else {
                0x20
            },
        ),
    }
}

/// The left-button message for the window `hwnd` at the client position
/// `(pos_x, pos_y)`: the button down if `key_press`, up otherwise.
pub open spec fn click_message_of(hwnd: usize, key_press: bool, pos_x: i32, pos_y: i32) -> Message {
    Message {
        hwnd,
        msg: if key_press {
            0x0201
        } else {
            0x0202
        },
        w_param: 0,
        l_param: lparam_of(pos_x, pos_y),
    }
}

/// Builds the message that presses or releases the space bar. Both are sent
/// under the key-down identifier and differ in the high word of the `LPARAM`.
pub fn space_key_message(hwnd: usize, key_press: bool) -> (m: Message)
    ensures
        m == space_key_message_of(hwnd, key_press),
{
    let flags: i32 = if key_press {
        KEY_HELD
    } else {
        0x0000
    };
    assert(0x8000i32 | 0x20i32 == 0x8020i32) by (bit_vector);
    assert(0x0000i32 | 0x20i32 == 0x20i32) by (bit_vector);
    let l_param = make_lparam(1, flags | VK_SPACE);
    Message { hwnd, msg: WM_KEYDOWN, w_param: VK_SPACE as usize, l_param }
}

/// Builds the message that presses or releases the left mouse button at a
/// position.
pub fn click_message(hwnd: usize, key_press: bool, pos_x: i32, pos_y: i32) -> (m: Message)
    ensures
        m == click_message_of(hwnd, key_press, pos_x, pos_y),
{
    let l_param = make_lparam(pos_x, pos_y);
    let msg = if key_press {
        WM_LBUTTONDOWN
    } else {
        WM_LBUTTONUP
    };
    Message { hwnd, msg, w_param: 0, l_param }
}

/// Width and height of the rectangle with the given edges. The two
/// differences have to fit the coordinate type.
pub fn window_size(left: i32, top: i32, right: i32, bottom: i32) -> (size: (i32, i32))
    requires
        i32::MIN <= right - left <= i32::MAX,
        i32::MIN <= bottom - top <= i32::MAX,
    ensures
        size.0 == right - left,
        size.1 == bottom - top,
{
    (right - left, bottom - top)
}

} // verus!
