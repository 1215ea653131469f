//! What a low-level mouse hook event says about the physical buttons.
use vstd::prelude::*;

use crate::clicker::MouseButton;

verus! {

/// Win32 message of a left button going down (`WM_LBUTTONDOWN`).
pub const WM_LBUTTONDOWN: u32 = 0x0201;

/// Win32 message of a left button going up (`WM_LBUTTONUP`).
pub const WM_LBUTTONUP: u32 = 0x0202;

/// Win32 message of a right button going down (`WM_RBUTTONDOWN`).
pub const WM_RBUTTONDOWN: u32 = 0x0204;

/// Win32 message of a right button going up (`WM_RBUTTONUP`).
pub const WM_RBUTTONUP: u32 = 0x0205;

/// Low-level hook flag of an event that software injected (`LLMHF_INJECTED`).
pub const LLMHF_INJECTED: u32 = 0x0001;

/// The physical button change that a hook event reports: none when the hook
/// code is negative or the event was injected (such as the clicker's own
/// clicks); else the button and whether it went down, for the four button
/// messages.
pub open spec fn button_change(code: i32, flags: u32, message: u32) -> Option<(MouseButton, bool)> {
    if code < 0 || flags & LLMHF_INJECTED != 0 {
        None
    } else if message == WM_LBUTTONDOWN {
        Some((MouseButton::Left, true))
    } else if message == WM_LBUTTONUP {
        Some((MouseButton::Left, false))
    } else if message == WM_RBUTTONDOWN {
        Some((MouseButton::Right, true))
    } else if message == WM_RBUTTONUP {
        Some((MouseButton::Right, false))
    } else {
        None
    }
}

/// The physical button change that a hook event reports (see `button_change`).
pub fn physical_button_change(code: i32, flags: u32, message: u32) -> (r: Option<(MouseButton, bool)>)
    ensures
        r == button_change(code, flags, message),
{
    if code < 0 || flags & LLMHF_INJECTED != 0 {
        None
    } else if message == WM_LBUTTONDOWN {
        Some((MouseButton::Left, true))
    } else if message == WM_LBUTTONUP {
        Some((MouseButton::Left, false))
    } else if message == WM_RBUTTONDOWN {
        Some((MouseButton::Right, true))
    } else if message == WM_RBUTTONUP {
        Some((MouseButton::Right, false))
    } else {
        None
    }
}

/// Only events of the hardware count: an event with a negative hook code or
/// one that software injected reports no change. Every other event reports a
/// change exactly for the four button messages; a button's down and up
/// messages name the same button, going down and coming up, and the left and
/// right buttons are told apart.
pub proof fn law_button_change(code: i32, flags: u32, message: u32)
    ensures
        button_change(code, flags, message) is Some ==> code >= 0 && flags & LLMHF_INJECTED == 0,
        code >= 0 && flags & LLMHF_INJECTED == 0 ==> (button_change(code, flags, message) is Some <==> (
        message == WM_LBUTTONDOWN || message == WM_LBUTTONUP || message == WM_RBUTTONDOWN || message
            == WM_RBUTTONUP)),
        button_change(code, flags, WM_LBUTTONDOWN) matches Some((b, down)) ==> down
            && button_change(code, flags, WM_LBUTTONUP) == Some((b, false)),
        button_change(code, flags, WM_RBUTTONDOWN) matches Some((b, down)) ==> down
            && button_change(code, flags, WM_RBUTTONUP) == Some((b, false)),
        button_change(code, flags, WM_LBUTTONDOWN) is Some ==> button_change(code, flags, WM_LBUTTONDOWN)->0
            != button_change(code, flags, WM_RBUTTONDOWN)->0,
{
}

} // verus!
