//! What kind of pointer a motion is made with.
use vstd::prelude::*;

use crate::android::{Button, MotionPointer, Source, ToolType};
use crate::event::{
    ButtonSource, FingerId, Force, MouseButton, PointerKind, PointerSource, TabletToolButton,
    TabletToolData, TabletToolKind,
};

verus! {

/// A pointer, classified.
#[derive(Clone, Copy, Debug, PartialEq)]
pub struct AndroidPointerState<D, S> {
    pub kind: PointerKind,
    pub source: AndroidPointerSource<D, S>,
}

#[derive(Clone, Copy, Debug, PartialEq)]
pub enum AndroidPointerSource<D, S> {
    Mouse,
    Touch { finger_id: FingerId, force: Option<Force<D>> },
    Tablet { kind: TabletToolKind, data: TabletToolData<D, S> },
    Unknown,
}

/// Whether a device moves a mouse cursor.
pub open spec fn drives_cursor(source: Source) -> bool {
    source == Source::Mouse || source == Source::MouseRelative || source == Source::Touchpad
        || source == Source::Trackball
}

/// An eraser erases; any other tool on a tablet is a pen.
pub open spec fn tool_kind(tool_type: ToolType) -> TabletToolKind {
    if tool_type == ToolType::Eraser {
        TabletToolKind::Eraser
    } else {
        TabletToolKind::Pen
    }
}

/// The kind of a pointer; none for a palm, which is no pointer. The device decides if it moves a
/// cursor or is a stylus, and otherwise the tool does.
pub open spec fn classify(source: Source, tool_type: ToolType, finger_id: FingerId) -> Option<
    PointerKind,
> {
    if drives_cursor(source) {
        Some(PointerKind::Mouse)
    } else if source == Source::Stylus || source == Source::BluetoothStylus {
        Some(PointerKind::TabletTool(tool_kind(tool_type)))
    } else {
        match tool_type {
            ToolType::Finger => Some(PointerKind::Touch(finger_id)),
            ToolType::Stylus | ToolType::Eraser => Some(
                PointerKind::TabletTool(tool_kind(tool_type)),
            ),
            ToolType::Mouse => Some(PointerKind::Mouse),
            ToolType::Palm => None,
            _ => Some(PointerKind::Unknown),
        }
    }
}

/// A pointer of the given kind that presses with the given force.
pub open spec fn pointer_with<D, S>(kind: PointerKind, pressure: D) -> AndroidPointerState<D, S> {
    let force = Some(Force::Normalized(pressure));
    AndroidPointerState {
        kind,
        source: match kind {
            PointerKind::Mouse => AndroidPointerSource::Mouse,
            PointerKind::Touch(finger_id) => AndroidPointerSource::Touch { finger_id, force },
            PointerKind::TabletTool(kind) => AndroidPointerSource::Tablet {
                kind,
                data: TabletToolData {
                    force,
                    tangential_force: None,
                    twist: None,
                    tilt: None,
                    angle: None,
                },
            },
            PointerKind::Unknown => AndroidPointerSource::Unknown,
        },
    }
}

/// A pointer of a motion, classified.
pub open spec fn classified<D, S>(source: Source, pointer: MotionPointer<D, S>) -> Option<
    AndroidPointerState<D, S>,
> {
    match classify(source, pointer.tool_type, pointer.finger()) {
        Some(kind) => Some(pointer_with(kind, pointer.pressure)),
        None => None,
    }
}

impl<D, S> AndroidPointerSource<D, S> {
    /// The source as it is reported when the pointer moves.
    pub open spec fn moving(self) -> PointerSource<D, S> {
        match self {
            AndroidPointerSource::Mouse => PointerSource::Mouse,
            AndroidPointerSource::Touch { finger_id, force } => {
                PointerSource::Touch { finger_id, force }
            },
            AndroidPointerSource::Tablet { kind, data } => PointerSource::TabletTool { kind, data },
            AndroidPointerSource::Unknown => PointerSource::Unknown,
        }
    }

    /// The button that is down while the pointer is in contact.
    pub open spec fn contact(self) -> ButtonSource<D, S> {
        match self {
            AndroidPointerSource::Mouse => ButtonSource::Mouse(MouseButton::Left),
            AndroidPointerSource::Touch { finger_id, force } => {
                ButtonSource::Touch { finger_id, force }
            },
            AndroidPointerSource::Tablet { kind, data } => ButtonSource::TabletTool {
                kind,
                button: TabletToolButton::Contact,
                data,
            },
            AndroidPointerSource::Unknown => ButtonSource::Unknown(0),
        }
    }
}

impl<D: Copy, S: Copy> AndroidPointerState<D, S> {
    pub fn pointer_source(&self) -> (source: PointerSource<D, S>)
        ensures
            source == self.source.moving(),
    {
        match &self.source {
            AndroidPointerSource::Mouse => PointerSource::Mouse,
            AndroidPointerSource::Touch { finger_id, force } => {
                PointerSource::Touch { finger_id: *finger_id, force: *force }
            },
            AndroidPointerSource::Tablet { kind, data } => {
                PointerSource::TabletTool { kind: *kind, data: *data }
            },
            AndroidPointerSource::Unknown => PointerSource::Unknown,
        }
    }

    pub fn contact_button(&self) -> (button: ButtonSource<D, S>)
        ensures
            button == self.source.contact(),
    {
        match &self.source {
            AndroidPointerSource::Mouse => ButtonSource::Mouse(MouseButton::Left),
            AndroidPointerSource::Touch { finger_id, force } => {
                ButtonSource::Touch { finger_id: *finger_id, force: *force }
            },
            AndroidPointerSource::Tablet { kind, data } => ButtonSource::TabletTool {
                kind: *kind,
                button: TabletToolButton::Contact,
                data: *data,
            },
            AndroidPointerSource::Unknown => ButtonSource::Unknown(0),
        }
    }
}

pub fn tablet_tool_kind(tool_type: ToolType) -> (kind: TabletToolKind)
    ensures
        kind == tool_kind(tool_type),
{
    match tool_type {
        ToolType::Eraser => TabletToolKind::Eraser,
        _ => TabletToolKind::Pen,
    }
}

/// Classifies a pointer by the device that it comes from and the tool that it is made with.
pub fn android_pointer_state<D: Copy, S: Copy>(
    source: Source,
    tool_type: ToolType,
    finger_id: FingerId,
    pressure: D,
) -> (state: Option<AndroidPointerState<D, S>>)
    ensures
        state == match classify(source, tool_type, finger_id) {
            Some(kind) => Some(pointer_with::<D, S>(kind, pressure)),
            None => None,
        },
{
    let force = Some(Force::Normalized(pressure));
    let tablet_data = TabletToolData {
        force,
        tangential_force: None,
        twist: None,
        tilt: None,
        angle: None,
    };
    let mouse = AndroidPointerState {
        kind: PointerKind::Mouse,
        source: AndroidPointerSource::Mouse,
    };
    let tablet_kind = tablet_tool_kind(tool_type);
    let tablet = AndroidPointerState {
        kind: PointerKind::TabletTool(tablet_kind),
        source: AndroidPointerSource::Tablet { kind: tablet_kind, data: tablet_data },
    };
    match source {
        Source::Mouse | Source::MouseRelative | Source::Touchpad | Source::Trackball => Some(mouse),
        Source::Stylus | Source::BluetoothStylus => Some(tablet),
        Source::Touchscreen | Source::Other => match tool_type {
            ToolType::Finger => Some(
                AndroidPointerState {
                    kind: PointerKind::Touch(finger_id),
                    source: AndroidPointerSource::Touch { finger_id, force },
                },
            ),
            ToolType::Stylus | ToolType::Eraser => Some(tablet),
            ToolType::Mouse => Some(mouse),
            ToolType::Palm => None,
            ToolType::Unknown | ToolType::Other => Some(
                AndroidPointerState {
                    kind: PointerKind::Unknown,
                    source: AndroidPointerSource::Unknown,
                },
            ),
        },
    }
}

/// The mouse button that a button is; none if a mouse has no such button.
pub open spec fn as_mouse_button(button: Button) -> Option<MouseButton> {
    match button {
        Button::Primary => Some(MouseButton::Left),
        Button::Secondary => Some(MouseButton::Right),
        Button::Tertiary => Some(MouseButton::Middle),
        Button::Back => Some(MouseButton::Back),
        Button::Forward => Some(MouseButton::Forward),
        _ => None,
    }
}

pub fn mouse_button(button: Button) -> (mapped: Option<MouseButton>)
    ensures
        mapped == as_mouse_button(button),
{
    match button {
        Button::Primary => Some(MouseButton::Left),
        Button::Secondary => Some(MouseButton::Right),
        Button::Tertiary => Some(MouseButton::Middle),
        Button::Back => Some(MouseButton::Back),
        Button::Forward => Some(MouseButton::Forward),
        _ => None,
    }
}

/// The tablet button that a button is; none if a tablet tool has no such button.
pub open spec fn as_tablet_tool_button(button: Button) -> Option<TabletToolButton> {
    match button {
        Button::Primary => Some(TabletToolButton::Contact),
        Button::Secondary | Button::StylusPrimary => Some(TabletToolButton::Barrel),
        Button::Tertiary => Some(TabletToolButton::Other(1)),
        Button::StylusSecondary => Some(TabletToolButton::Other(2)),
        Button::Back => Some(TabletToolButton::Other(3)),
        Button::Forward => Some(TabletToolButton::Other(4)),
        Button::Other => None,
    }
}

pub fn tablet_tool_button(button: Button) -> (mapped: Option<TabletToolButton>)
    ensures
        mapped == as_tablet_tool_button(button),
{
    match button {
        Button::Primary => Some(TabletToolButton::Contact),
        Button::Secondary | Button::StylusPrimary => Some(TabletToolButton::Barrel),
        Button::Tertiary => Some(TabletToolButton::Other(1)),
        Button::StylusSecondary => Some(TabletToolButton::Other(2)),
        Button::Back => Some(TabletToolButton::Other(3)),
        Button::Forward => Some(TabletToolButton::Other(4)),
        Button::Other => None,
    }
}

/// A button on a pointer; none if such a pointer has no such button. Fingers and pointers of an
/// unknown kind have none at all.
pub open spec fn button_on<D, S>(button: Button, source: AndroidPointerSource<D, S>) -> Option<
    ButtonSource<D, S>,
> {
    match source {
        AndroidPointerSource::Mouse => match as_mouse_button(button) {
            Some(button) => Some(ButtonSource::Mouse(button)),
            None => None,
        },
        AndroidPointerSource::Tablet { kind, data } => match as_tablet_tool_button(button) {
            Some(button) => Some(ButtonSource::TabletTool { kind, button, data }),
            None => None,
        },
        AndroidPointerSource::Touch { .. } => None,
        AndroidPointerSource::Unknown => None,
    }
}

pub fn action_button_source<D: Copy, S: Copy>(
    button: Button,
    pointer_state: &AndroidPointerState<D, S>,
) -> (source: Option<ButtonSource<D, S>>)
    ensures
        source == button_on(button, pointer_state.source),
{
    match &pointer_state.source {
        AndroidPointerSource::Mouse => match mouse_button(button) {
            Some(button) => Some(ButtonSource::Mouse(button)),
            None => None,
        },
        AndroidPointerSource::Tablet { kind, data } => match tablet_tool_button(button) {
            Some(button) => Some(ButtonSource::TabletTool { kind: *kind, button, data: *data }),
            None => None,
        },
        AndroidPointerSource::Touch { .. } => None,
        AndroidPointerSource::Unknown => None,
    }
}

/// However a classified pointer is reported, as moving, as touching down or by one of its buttons,
/// it is reported with the kind that it was classified as.
pub proof fn law_reports_agree_on_kind<D, S>(
    source: Source,
    pointer: MotionPointer<D, S>,
    button: Button,
)
    requires
        classified(source, pointer) is Some,
    ensures
        ({
            let state = classified(source, pointer)->0;
            &&& state.source.moving().kind() == state.kind
            &&& state.source.contact().kind() == state.kind
            &&& button_on(button, state.source) is Some ==> button_on(
                button,
                state.source,
            )->0.kind() == state.kind
        }),
{
}

/// A device that moves a cursor makes every pointer a mouse, and a stylus makes it a tablet tool.
/// On any other device the tool decides: only a finger is a touch, a stylus or an eraser is a tablet
/// tool, a mouse is a mouse, a palm is nothing, and what is left is of unknown kind. A tablet tool
/// is an eraser if the tool is one, and a pen otherwise.
pub proof fn law_classification(source: Source, tool_type: ToolType, finger_id: FingerId)
    ensures
        ({
            let kind = classify(source, tool_type, finger_id);
            let cursor = source is Mouse || source is MouseRelative || source is Touchpad
                || source is Trackball;
            let stylus = source is Stylus || source is BluetoothStylus;
            &&& kind is None <==> tool_type is Palm && !cursor && !stylus
            &&& kind == Some(PointerKind::Mouse) <==> cursor || (tool_type is Mouse && !stylus)
            &&& (kind is Some && kind->0 is Touch) <==> tool_type is Finger && !cursor
                && !stylus
            &&& kind matches Some(PointerKind::Touch(finger)) ==> finger == finger_id
            &&& (kind is Some && kind->0 is TabletTool) <==> !cursor && (stylus
                || tool_type is Stylus || tool_type is Eraser)
            &&& kind matches Some(PointerKind::TabletTool(tool)) ==> {
                &&& tool_type is Eraser ==> tool == TabletToolKind::Eraser
                &&& !(tool_type is Eraser) ==> tool == TabletToolKind::Pen
            }
            &&& kind == Some(PointerKind::Unknown) <==> !cursor && !stylus && (tool_type is Unknown
                || tool_type is Other)
        }),
{
}

/// A pointer of a motion is classified by its own tool, as the finger of its own number should it
/// be one, and it keeps the pressure that it was reported with. A mouse has no pressure.
pub proof fn law_classified_pointers_keep_their_data<D, S>(
    source: Source,
    pointer: MotionPointer<D, S>,
)
    ensures
        match classified(source, pointer) {
            Some(state) => {
                let force = Some(Force::Normalized(pointer.pressure));
                &&& classify(source, pointer.tool_type, FingerId(pointer.pointer_id as usize))
                    == Some(state.kind)
                &&& match state.source {
                    AndroidPointerSource::Mouse => state.kind == PointerKind::Mouse,
                    AndroidPointerSource::Touch { finger_id, force: reported } => {
                        &&& state.kind == PointerKind::Touch(finger_id)
                        &&& reported == force
                    },
                    AndroidPointerSource::Tablet { kind, data } => {
                        &&& state.kind == PointerKind::TabletTool(kind)
                        &&& data.force == force
                        &&& data.tangential_force is None
                        &&& data.twist is None
                        &&& data.tilt is None
                        &&& data.angle is None
                    },
                    AndroidPointerSource::Unknown => state.kind == PointerKind::Unknown,
                }
            },
            None => classify(
                source,
                pointer.tool_type,
                FingerId(pointer.pointer_id as usize),
            ) is None,
        },
        pointer.finger() == FingerId(pointer.pointer_id as usize),
{
}

/// The same holds of a pointer that is classified by its tool and its pressure alone.
pub proof fn law_pressure_is_kept<D, S>(kind: PointerKind, pressure: D)
    ensures
        ({
            let state = pointer_with::<D, S>(kind, pressure);
            &&& state.kind == kind
            &&& match kind {
                PointerKind::Mouse => state.source is Mouse,
                PointerKind::Touch(finger) => {
                    &&& state.source matches AndroidPointerSource::Touch { finger_id, force }
                    &&& finger_id == finger
                    &&& force == Some(Force::Normalized(pressure))
                },
                PointerKind::TabletTool(tool) => {
                    &&& state.source matches AndroidPointerSource::Tablet { kind, data }
                    &&& kind == tool
                    &&& data.force == Some(Force::Normalized(pressure))
                    &&& data.tangential_force is None && data.twist is None && data.tilt is None
                        && data.angle is None
                },
                PointerKind::Unknown => state.source is Unknown,
            }
        }),
{
}

/// A pointer that moves is reported with all that is known of it, so that nothing is lost: pointers
/// that move alike are alike.
pub proof fn law_moving_loses_nothing<D, S>(
    one: AndroidPointerSource<D, S>,
    other: AndroidPointerSource<D, S>,
)
    ensures
        one.moving() == other.moving() <==> one == other,
        one is Mouse <==> one.moving() is Mouse,
        one is Unknown <==> one.moving() is Unknown,
        match one {
            AndroidPointerSource::Touch { finger_id, force } => {
                &&& one.moving() matches PointerSource::Touch { finger_id: told, force: told_force }
                &&& told == finger_id && told_force == force
            },
            AndroidPointerSource::Tablet { kind, data } => {
                &&& one.moving() matches PointerSource::TabletTool { kind: told, data: told_data }
                &&& told == kind && told_data == data
            },
            _ => true,
        },
{
}

/// A pointer touches down with its first button: the left one of a mouse, the contact of a tablet
/// tool, the one numbered zero of a pointer of unknown kind. A finger is a button by itself.
pub proof fn law_contact_is_the_first_button<D, S>(source: AndroidPointerSource<D, S>)
    ensures
        match source.contact() {
            ButtonSource::Mouse(button) => source is Mouse && button == MouseButton::Left,
            ButtonSource::Touch { finger_id, force } => source == (AndroidPointerSource::<
                D,
                S,
            >::Touch { finger_id, force }),
            ButtonSource::TabletTool { kind, button, data } => source == (AndroidPointerSource::<
                D,
                S,
            >::Tablet { kind, data }) && button == TabletToolButton::Contact,
            ButtonSource::Unknown(button) => source is Unknown && button == 0,
        },
        source is Mouse ==> button_on(Button::Primary, source) == Some(source.contact()),
        source is Tablet ==> button_on(Button::Primary, source) == Some(source.contact()),
{
}

/// Which button is which button of a mouse. No two are the same one.
pub proof fn law_mouse_buttons(button: Button)
    ensures
        as_mouse_button(button) == Some(MouseButton::Left) <==> button is Primary,
        as_mouse_button(button) == Some(MouseButton::Right) <==> button is Secondary,
        as_mouse_button(button) == Some(MouseButton::Middle) <==> button is Tertiary,
        as_mouse_button(button) == Some(MouseButton::Back) <==> button is Back,
        as_mouse_button(button) == Some(MouseButton::Forward) <==> button is Forward,
        as_mouse_button(button) is None <==> button is StylusPrimary || button is StylusSecondary
            || button is Other,
{
}

/// Which button is which button of a tablet tool. Only the barrel has two buttons for it.
pub proof fn law_tablet_tool_buttons(button: Button)
    ensures
        as_tablet_tool_button(button) == Some(TabletToolButton::Contact) <==> button is Primary,
        as_tablet_tool_button(button) == Some(TabletToolButton::Barrel) <==> button is Secondary
            || button is StylusPrimary,
        as_tablet_tool_button(button) == Some(TabletToolButton::Other(1)) <==> button is Tertiary,
        as_tablet_tool_button(button) == Some(
            TabletToolButton::Other(2),
        ) <==> button is StylusSecondary,
        as_tablet_tool_button(button) == Some(TabletToolButton::Other(3)) <==> button is Back,
        as_tablet_tool_button(button) == Some(TabletToolButton::Other(4)) <==> button is Forward,
        as_tablet_tool_button(button) is None <==> button is Other,
{
}

/// A button is reported on a mouse or a tablet tool that has such a button, with what is known of
/// the tool, and on no other pointer.
pub proof fn law_buttons_belong_to_their_pointer<D, S>(
    button: Button,
    source: AndroidPointerSource<D, S>,
)
    ensures
        match source {
            AndroidPointerSource::Mouse => match button_on(button, source) {
                Some(ButtonSource::Mouse(told)) => as_mouse_button(button) == Some(told),
                Some(_) => false,
                None => as_mouse_button(button) is None,
            },
            AndroidPointerSource::Tablet { kind, data } => match button_on(button, source) {
                Some(ButtonSource::TabletTool { kind: tool, button: told, data: told_data }) => {
                    &&& as_tablet_tool_button(button) == Some(told)
                    &&& tool == kind
                    &&& told_data == data
                },
                Some(_) => false,
                None => as_tablet_tool_button(button) is None,
            },
            _ => button_on(button, source) is None,
        },
{
}

/// An eraser erases, and every other tool is a pen.
pub proof fn law_only_erasers_erase(tool_type: ToolType)
    ensures
        tool_kind(tool_type) == TabletToolKind::Eraser <==> tool_type is Eraser,
        tool_kind(tool_type) == TabletToolKind::Pen <==> !(tool_type is Eraser),
{
}

} // verus!
