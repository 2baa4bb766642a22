//! What the keys of the keyboard mean.

use vstd::prelude::*;

verus! {

/// The scan code of the escape key.
pub const KEY_ESCAPE: u32 = 0x01;
/// The scan code of the key that moves the camera forward.
pub const KEY_FORWARD: u32 = 0x11;
/// The scan code of the key that moves the camera backward.
pub const KEY_BACKWARD: u32 = 0x1F;
/// The scan code of the key that reports the frame rate.
pub const KEY_FRAME_RATE: u32 = 0x21;

/// What a key does to the camera.
#[derive(Debug, Clone, Copy, PartialEq, Eq, Structural)]
pub enum CameraMove {
    Forward,
    Backward,
    Stay,
}

/// What a key asks of the program.
#[derive(Debug, Clone, Copy, PartialEq, Eq, Structural)]
pub enum KeyAction {
    /// The program is to shut down.
    Close,
    /// The frame rate is to be reported.
    ReportFrameRate,
    /// Nothing but what the camera makes of the key.
    Pass,
}

/// What the key with the scan code `scancode` does to the camera.
pub open spec fn spec_camera_move(scancode: u32) -> CameraMove {
    if scancode == KEY_FORWARD {
        CameraMove::Forward
    } else if scancode == KEY_BACKWARD {
        CameraMove::Backward
    } else {
        CameraMove::Stay
    }
}

/// What the key with the scan code `scancode` asks of the program.
pub open spec fn spec_key_action(scancode: u32) -> KeyAction {
    if scancode == KEY_ESCAPE {
        KeyAction::Close
    } else if scancode == KEY_FRAME_RATE {
        KeyAction::ReportFrameRate
    } else {
        KeyAction::Pass
    }
}

/// What the key with the scan code `scancode` does to the camera.
pub fn camera_move(scancode: u32) -> (motion: CameraMove)
    ensures
        motion == spec_camera_move(scancode),
{
    if scancode == KEY_FORWARD {
        CameraMove::Forward
    } else if scancode == KEY_BACKWARD {
        CameraMove::Backward
    } else {
        CameraMove::Stay
    }
}

/// What the key with the scan code `scancode` asks of the program.
pub fn key_action(scancode: u32) -> (action: KeyAction)
    ensures
        action == spec_key_action(scancode),
{
    if scancode == KEY_ESCAPE {
        KeyAction::Close
    } else if scancode == KEY_FRAME_RATE {
        KeyAction::ReportFrameRate
    } else {
        KeyAction::Pass
    }
}

} // verus!
