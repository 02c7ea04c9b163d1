//! What the Android system reports, as plain values.
//!
//! Android's own enumerations are open ended: whatever the library does not tell apart is `Other`.
use vstd::prelude::*;

use crate::event::{DeviceId, FingerId};
use crate::geometry::{PhysicalPosition, PhysicalSize};
use crate::ime::{TextInputAction, TextInputState};
use crate::keyboard::KeyInput;

verus! {

/// The class of device that a motion comes from.
#[derive(Clone, Copy, Debug, PartialEq, Eq, Structural)]
pub enum Source {
    BluetoothStylus,
    Mouse,
    MouseRelative,
    Stylus,
    Touchpad,
    Touchscreen,
    Trackball,
    Other,
}

/// What a pointer is made with.
#[derive(Clone, Copy, Debug, PartialEq, Eq, Structural)]
pub enum ToolType {
    Unknown,
    Finger,
    Stylus,
    Mouse,
    Eraser,
    Palm,
    Other,
}

/// A button of a mouse or a stylus.
#[derive(Clone, Copy, Debug, PartialEq, Eq, Structural)]
pub enum Button {
    Back,
    Forward,
    Primary,
    Secondary,
    StylusPrimary,
    StylusSecondary,
    Tertiary,
    Other,
}

#[derive(Clone, Copy, Debug, PartialEq, Eq, Structural)]
pub enum MotionAction {
    Down,
    Up,
    Move,
    Cancel,
    PointerDown,
    PointerUp,
    HoverMove,
    Scroll,
    HoverEnter,
    HoverExit,
    ButtonPress,
    ButtonRelease,
    Other,
}

/// One of the pointers of a motion.
#[derive(Clone, Copy, Debug, PartialEq)]
pub struct MotionPointer<D, S> {
    pub pointer_id: i32,
    pub tool_type: ToolType,
    pub position: PhysicalPosition<D>,
    /// How hard the pointer presses, one being the normal pressure.
    pub pressure: D,
    /// By how many lines the content moves to the right when the wheel was turned.
    pub horizontal_lines: S,
    /// By how many lines the content moves down when the wheel was turned.
    pub vertical_lines: S,
}

impl<D, S> MotionPointer<D, S> {
    /// The finger that this pointer is, should it be one.
    pub open spec fn finger(self) -> FingerId {
        FingerId(self.pointer_id as usize)
    }

    pub fn finger_id(&self) -> (finger_id: FingerId)
        ensures
            finger_id == self.finger(),
    {
        FingerId::from_raw(self.pointer_id as usize)
    }
}

/// A motion of one or more pointers.
#[derive(Clone, Debug, PartialEq)]
pub struct MotionEvent<D, S> {
    pub device_id: i32,
    pub source: Source,
    pub action: MotionAction,
    /// The button that was pressed or released.
    pub action_button: Button,
    /// Which of the pointers the action is about, where it is about one.
    pub pointer_index: usize,
    pub pointers: Vec<MotionPointer<D, S>>,
}

/// The device of a motion or of a key.
pub open spec fn device_of(device_id: i32) -> Option<DeviceId> {
    Some(DeviceId(device_id as i64))
}

/// An event of the input queue.
#[derive(Clone, Debug)]
pub enum InputEvent<D, S> {
    Motion(MotionEvent<D, S>),
    Key(KeyInput),
    Text(TextInputState),
    TextAction(TextInputAction),
    Other,
}

/// Whether the system should go on with an input event itself.
#[derive(Clone, Copy, Debug, PartialEq, Eq, Structural)]
pub enum InputStatus {
    Handled,
    Unhandled,
}

/// An event in the life of the activity.
#[derive(Clone, Copy, Debug, PartialEq, Eq)]
pub enum MainEvent {
    InitWindow,
    TerminateWindow,
    WindowResized,
    RedrawNeeded,
    ContentRectChanged,
    GainedFocus,
    LostFocus,
    /// The display's density, if it tells one, and the size of the screen.
    ConfigChanged { density: Option<u32>, screen_size: PhysicalSize<u32> },
    LowMemory,
    Start,
    Resume,
    SaveState,
    Pause,
    Stop,
    Destroy,
    InsetsChanged,
    Other,
}

/// Why waiting for the next event came to an end.
#[derive(Clone, Copy, Debug, PartialEq, Eq)]
pub enum PollEvent {
    Wake,
    Timeout,
    Main(MainEvent),
    Other,
}

} // verus!
