//! The events that a window reports.
//!
//! Two number types run through them: `D` for what is measured in double precision and `S` for
//! what is measured in single precision.
use vstd::prelude::*;

use crate::geometry::{PhysicalPosition, PhysicalSize, ScaleFactor};

verus! {

/// Names an input device.
#[derive(Clone, Copy, Debug, PartialEq, Eq, Hash, Structural)]
pub struct DeviceId(pub i64);

impl DeviceId {
    pub fn from_raw(id: i64) -> (device_id: Self)
        ensures
            device_id == DeviceId(id),
    {
        DeviceId(id)
    }

    pub fn into_raw(self) -> (id: i64)
        ensures
            id == self.0,
    {
        self.0
    }
}

/// Names one of the fingers that touch a surface.
#[derive(Clone, Copy, Debug, PartialEq, Eq, Hash, Structural)]
pub struct FingerId(pub usize);

impl FingerId {
    pub fn from_raw(id: usize) -> (finger_id: Self)
        ensures
            finger_id == FingerId(id),
    {
        FingerId(id)
    }

    pub fn into_raw(self) -> (id: usize)
        ensures
            id == self.0,
    {
        self.0
    }
}

/// Names a window.
#[derive(Clone, Copy, Debug, PartialEq, Eq, Hash, Structural)]
pub struct WindowId(pub usize);

#[derive(Clone, Copy, Debug, PartialEq, Eq, Hash, Structural)]
pub enum ElementState {
    Pressed,
    Released,
}

#[derive(Clone, Copy, Debug, PartialEq, Eq, Hash, Structural)]
pub enum TouchPhase {
    Started,
    Moved,
    Ended,
    Cancelled,
}

/// How hard a touch presses.
#[derive(Clone, Copy, Debug, PartialEq)]
pub enum Force<D> {
    Calibrated { force: D, max_possible_force: D },
    Normalized(D),
}

#[derive(Clone, Copy, Debug, PartialEq, Eq, Hash, Structural)]
pub enum MouseButton {
    Left,
    Right,
    Middle,
    Back,
    Forward,
    Other(u8),
}

#[derive(Clone, Copy, Debug, PartialEq, Eq, Hash, Structural)]
pub enum TabletToolKind {
    Pen,
    Eraser,
    Brush,
    Pencil,
    Airbrush,
    Finger,
    Mouse,
    Lens,
}

#[derive(Clone, Copy, Debug, PartialEq, Eq, Hash, Structural)]
pub enum TabletToolButton {
    Contact,
    Barrel,
    Other(u16),
}

#[derive(Clone, Copy, Debug, PartialEq, Eq, Hash, Structural)]
pub struct TabletToolTilt {
    pub x: i8,
    pub y: i8,
}

#[derive(Clone, Copy, Debug, PartialEq)]
pub struct TabletToolAngle<D> {
    pub altitude: D,
    pub azimuth: D,
}

/// What a tablet tool reports about itself.
#[derive(Clone, Copy, Debug, PartialEq)]
pub struct TabletToolData<D, S> {
    pub force: Option<Force<D>>,
    pub tangential_force: Option<S>,
    pub twist: Option<u16>,
    pub tilt: Option<TabletToolTilt>,
    pub angle: Option<TabletToolAngle<D>>,
}

#[derive(Clone, Copy, Debug, PartialEq, Eq, Hash, Structural)]
pub enum PointerKind {
    Mouse,
    Touch(FingerId),
    TabletTool(TabletToolKind),
    Unknown,
}

/// What moves a pointer.
#[derive(Clone, Copy, Debug, PartialEq)]
pub enum PointerSource<D, S> {
    Mouse,
    Touch { finger_id: FingerId, force: Option<Force<D>> },
    TabletTool { kind: TabletToolKind, data: TabletToolData<D, S> },
    Unknown,
}

impl<D, S> PointerSource<D, S> {
    pub open spec fn kind(self) -> PointerKind {
        match self {
            PointerSource::Mouse => PointerKind::Mouse,
            PointerSource::Touch { finger_id, .. } => PointerKind::Touch(finger_id),
            PointerSource::TabletTool { kind, .. } => PointerKind::TabletTool(kind),
            PointerSource::Unknown => PointerKind::Unknown,
        }
    }

    /// The kind of pointer that such a source moves.
    pub fn pointer_kind(&self) -> (kind: PointerKind)
        ensures
            kind == self.kind(),
    {
        match self {
            PointerSource::Mouse => PointerKind::Mouse,
            PointerSource::Touch { finger_id, .. } => PointerKind::Touch(*finger_id),
            PointerSource::TabletTool { kind, .. } => PointerKind::TabletTool(*kind),
            PointerSource::Unknown => PointerKind::Unknown,
        }
    }
}

/// What a pressed or released button belongs to.
#[derive(Clone, Copy, Debug, PartialEq)]
pub enum ButtonSource<D, S> {
    Mouse(MouseButton),
    Touch { finger_id: FingerId, force: Option<Force<D>> },
    TabletTool { kind: TabletToolKind, button: TabletToolButton, data: TabletToolData<D, S> },
    Unknown(u16),
}

#[derive(Clone, Copy, Debug, PartialEq)]
pub enum MouseScrollDelta<D, S> {
    LineDelta(S, S),
    PixelDelta(PhysicalPosition<D>),
}

/// What happens to a window. Keyboard and text input are reported apart from these.
#[derive(Clone, Copy, Debug, PartialEq)]
pub enum WindowEvent<D, S> {
    SurfaceResized(PhysicalSize<u32>),
    CloseRequested,
    Destroyed,
    Focused(bool),
    PointerMoved {
        device_id: Option<DeviceId>,
        position: PhysicalPosition<D>,
        primary: bool,
        source: PointerSource<D, S>,
    },
    PointerEntered {
        device_id: Option<DeviceId>,
        position: PhysicalPosition<D>,
        primary: bool,
        kind: PointerKind,
    },
    PointerLeft {
        device_id: Option<DeviceId>,
        position: Option<PhysicalPosition<D>>,
        primary: bool,
        kind: PointerKind,
    },
    PointerButton {
        device_id: Option<DeviceId>,
        state: ElementState,
        position: PhysicalPosition<D>,
        primary: bool,
        button: ButtonSource<D, S>,
    },
    MouseWheel {
        device_id: Option<DeviceId>,
        delta: MouseScrollDelta<D, S>,
        phase: TouchPhase,
    },
    PinchGesture { device_id: Option<DeviceId>, delta: D, phase: TouchPhase },
    PanGesture { device_id: Option<DeviceId>, delta: PhysicalPosition<S>, phase: TouchPhase },
    DoubleTapGesture { device_id: Option<DeviceId> },
    RotationGesture { device_id: Option<DeviceId>, delta: S, phase: TouchPhase },
    ScaleFactorChanged { scale_factor: ScaleFactor, surface_size: PhysicalSize<u32> },
    RedrawRequested,
}

} // verus!
