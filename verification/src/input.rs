//! Turns the events of a window into one stream of pointer, scroll and gesture input.
use vstd::prelude::*;

use crate::event::{
    ButtonSource, DeviceId, ElementState, FingerId, MouseButton, MouseScrollDelta, PointerKind,
    PointerSource, TabletToolButton, TabletToolKind, TouchPhase, WindowEvent,
};
use crate::geometry::PhysicalPosition;
use crate::table;
use crate::table::{Table, TableKey};

verus! {

#[derive(Clone, Debug, PartialEq)]
pub enum WindowInputEvent<D, S> {
    Pointer(PointerInputEvent<D, S>),
    Scroll(ScrollInputEvent<D, S>),
    Gesture(GestureInputEvent<D, S>),
}

#[derive(Clone, Debug, PartialEq)]
pub struct PointerInputEvent<D, S> {
    pub device_id: Option<DeviceId>,
    pub pointer_id: PointerId,
    pub position: Option<PhysicalPosition<D>>,
    pub primary: bool,
    pub kind: PointerKind,
    pub action: PointerInputAction<D, S>,
}

#[derive(Clone, Debug, PartialEq)]
pub enum PointerInputAction<D, S> {
    Entered,
    Moved { source: PointerSource<D, S> },
    Pressed { button: ButtonSource<D, S> },
    Released { button: ButtonSource<D, S> },
    Left,
    Cancelled,
}

#[derive(Clone, Debug, PartialEq)]
pub struct ScrollInputEvent<D, S> {
    pub device_id: Option<DeviceId>,
    pub position: Option<PhysicalPosition<D>>,
    pub delta: MouseScrollDelta<D, S>,
    pub phase: TouchPhase,
    pub source: ScrollSource,
}

#[derive(Clone, Debug, PartialEq)]
pub enum GestureInputEvent<D, S> {
    Pan { device_id: Option<DeviceId>, delta: PhysicalPosition<S>, phase: TouchPhase },
    Pinch { device_id: Option<DeviceId>, delta: D, phase: TouchPhase },
    Rotation { device_id: Option<DeviceId>, delta: S, phase: TouchPhase },
    DoubleTap { device_id: Option<DeviceId> },
}

/// Names a pointer for as long as it is tracked.
#[derive(Clone, Copy, Debug, PartialEq, Eq, Hash, Structural)]
pub enum PointerId {
    Mouse,
    Touch(FingerId),
    TabletTool(PointerKind),
    Unknown { device_id: Option<DeviceId>, primary: bool },
}

#[derive(Clone, Copy, Debug, PartialEq, Eq, Structural)]
pub enum ScrollSource {
    Wheel,
    Gesture,
    Unknown,
}

/// Names a button among those that a pointer may hold down.
#[derive(Clone, Copy, Debug, PartialEq, Eq, Structural)]
pub enum ButtonId {
    Mouse(MouseButton),
    Touch(FingerId),
    TabletTool { kind: TabletToolKind, button: TabletToolButton },
    Unknown(u16),
}

impl TableKey for PointerId {
    fn same(&self, other: &Self) -> (result: bool) {
        *self == *other
    }
}

impl PointerId {
    /// The pointer that a kind names; one of unknown kind is told apart by its device and by
    /// whether it is the primary one.
    pub open spec fn of_kind(
        kind: PointerKind,
        device_id: Option<DeviceId>,
        primary: bool,
    ) -> PointerId {
        match kind {
            PointerKind::Mouse => PointerId::Mouse,
            PointerKind::Touch(finger_id) => PointerId::Touch(finger_id),
            PointerKind::TabletTool(_) => PointerId::TabletTool(kind),
            PointerKind::Unknown => PointerId::Unknown { device_id, primary },
        }
    }

    pub fn from_kind(kind: PointerKind, device_id: Option<DeviceId>, primary: bool) -> (id: Self)
        ensures
            id == PointerId::of_kind(kind, device_id, primary),
    {
        match kind {
            PointerKind::Mouse => PointerId::Mouse,
            PointerKind::Touch(finger_id) => PointerId::Touch(finger_id),
            PointerKind::TabletTool(_) => PointerId::TabletTool(kind),
            PointerKind::Unknown => PointerId::Unknown { device_id, primary },
        }
    }

    pub fn from_source<D, S>(
        source: &PointerSource<D, S>,
        device_id: Option<DeviceId>,
        primary: bool,
    ) -> (id: Self)
        ensures
            id == PointerId::of_kind(source.kind(), device_id, primary),
    {
        match source {
            PointerSource::Mouse => PointerId::Mouse,
            PointerSource::Touch { finger_id, .. } => PointerId::Touch(*finger_id),
            PointerSource::TabletTool { kind, .. } => {
                PointerId::TabletTool(PointerKind::TabletTool(*kind))
            },
            PointerSource::Unknown => PointerId::Unknown { device_id, primary },
        }
    }

    pub fn from_button<D, S>(
        button: &ButtonSource<D, S>,
        device_id: Option<DeviceId>,
        primary: bool,
    ) -> (id: Self)
        ensures
            id == PointerId::of_kind(button.kind(), device_id, primary),
    {
        match button {
            ButtonSource::Mouse(_) => PointerId::Mouse,
            ButtonSource::Touch { finger_id, .. } => PointerId::Touch(*finger_id),
            ButtonSource::TabletTool { kind, .. } => {
                PointerId::TabletTool(PointerKind::TabletTool(*kind))
            },
            ButtonSource::Unknown(_) => PointerId::Unknown { device_id, primary },
        }
    }
}

impl<D, S> ButtonSource<D, S> {
    pub open spec fn kind(self) -> PointerKind {
        match self {
            ButtonSource::Mouse(_) => PointerKind::Mouse,
            ButtonSource::Touch { finger_id, .. } => PointerKind::Touch(finger_id),
            ButtonSource::TabletTool { kind, .. } => PointerKind::TabletTool(kind),
            ButtonSource::Unknown(_) => PointerKind::Unknown,
        }
    }

    /// The kind of pointer that has this button.
    pub fn pointer_kind(&self) -> (kind: PointerKind)
        ensures
            kind == self.kind(),
    {
        match self {
            ButtonSource::Mouse(_) => PointerKind::Mouse,
            ButtonSource::Touch { finger_id, .. } => PointerKind::Touch(*finger_id),
            ButtonSource::TabletTool { kind, .. } => PointerKind::TabletTool(*kind),
            ButtonSource::Unknown(_) => PointerKind::Unknown,
        }
    }
}

impl ButtonId {
    /// A button without what it measures: how hard it is pressed does not tell buttons apart.
    pub open spec fn of_source<D, S>(button: ButtonSource<D, S>) -> ButtonId {
        match button {
            ButtonSource::Mouse(mouse_button) => ButtonId::Mouse(mouse_button),
            ButtonSource::Touch { finger_id, .. } => ButtonId::Touch(finger_id),
            ButtonSource::TabletTool { kind, button, .. } => ButtonId::TabletTool { kind, button },
            ButtonSource::Unknown(button) => ButtonId::Unknown(button),
        }
    }

    pub fn from_button_source<D, S>(button: &ButtonSource<D, S>) -> (id: Self)
        ensures
            id == ButtonId::of_source(*button),
    {
        match button {
            ButtonSource::Mouse(mouse_button) => ButtonId::Mouse(*mouse_button),
            ButtonSource::Touch { finger_id, .. } => ButtonId::Touch(*finger_id),
            ButtonSource::TabletTool { kind, button, .. } => {
                ButtonId::TabletTool { kind: *kind, button: *button }
            },
            ButtonSource::Unknown(button) => ButtonId::Unknown(*button),
        }
    }
}

/// What is known of a tracked pointer.
#[verifier::ext_equal]
pub struct TrackedPointer<D> {
    pub device_id: Option<DeviceId>,
    pub kind: PointerKind,
    pub primary: bool,
    /// The buttons that it holds down, in the order in which they went down.
    pub pressed: Seq<ButtonId>,
    pub last_position: Option<PhysicalPosition<D>>,
}

struct PointerState<D> {
    device_id: Option<DeviceId>,
    kind: PointerKind,
    primary: bool,
    pressed_buttons: Vec<ButtonId>,
    last_position: Option<PhysicalPosition<D>>,
}

impl<D> View for PointerState<D> {
    type V = TrackedPointer<D>;

    closed spec fn view(&self) -> TrackedPointer<D> {
        TrackedPointer {
            device_id: self.device_id,
            kind: self.kind,
            primary: self.primary,
            pressed: self.pressed_buttons@,
            last_position: self.last_position,
        }
    }
}

/// The pointers that are tracked, each under its name.
pub type Pointers<D> = Seq<(PointerId, TrackedPointer<D>)>;

/// The buttons that the pointer holds down; none if it is not tracked.
pub open spec fn pressed_buttons<D>(pointers: Pointers<D>, id: PointerId) -> Seq<ButtonId> {
    match table::lookup(pointers, id) {
        Some(pointer) => pointer.pressed,
        None => Seq::empty(),
    }
}

/// The buttons that are down once `id` is; a button that is down already stays where it is.
pub open spec fn with_button(pressed: Seq<ButtonId>, id: ButtonId) -> Seq<ButtonId> {
    if pressed.contains(id) {
        pressed
    } else {
        pressed.push(id)
    }
}

/// The buttons that are down once `id` is not, in their order.
pub open spec fn without_button(pressed: Seq<ButtonId>, id: ButtonId) -> Seq<ButtonId> {
    pressed.filter(|button: ButtonId| button != id)
}

/// Where the mouse was last seen.
pub open spec fn mouse_position_of<D>(pointers: Pointers<D>) -> Option<PhysicalPosition<D>> {
    match table::lookup(pointers, PointerId::Mouse) {
        Some(pointer) => pointer.last_position,
        None => None,
    }
}

/// How the tracked pointers are after an event.
pub open spec fn pointers_after<D, S>(
    pointers: Pointers<D>,
    event: WindowEvent<D, S>,
) -> Pointers<D> {
    match event {
        WindowEvent::Focused(focused) => if focused {
            pointers
        } else {
            Seq::empty()
        },
        WindowEvent::Destroyed => Seq::empty(),
        WindowEvent::PointerEntered { device_id, position, primary, kind } => {
            table::with_entry(
                pointers,
                PointerId::of_kind(kind, device_id, primary),
                TrackedPointer {
                    device_id,
                    kind,
                    primary,
                    pressed: Seq::empty(),
                    last_position: Some(position),
                },
            )
        },
        WindowEvent::PointerMoved { device_id, position, primary, source } => {
            let id = PointerId::of_kind(source.kind(), device_id, primary);
            table::with_entry(
                pointers,
                id,
                TrackedPointer {
                    device_id,
                    kind: source.kind(),
                    primary,
                    pressed: pressed_buttons(pointers, id),
                    last_position: Some(position),
                },
            )
        },
        WindowEvent::PointerButton { device_id, state, position, primary, button } => {
            let id = PointerId::of_kind(button.kind(), device_id, primary);
            let pressed = pressed_buttons(pointers, id);
            table::with_entry(
                pointers,
                id,
                TrackedPointer {
                    device_id,
                    kind: button.kind(),
                    primary,
                    pressed: match state {
                        ElementState::Pressed => with_button(pressed, ButtonId::of_source(button)),
                        ElementState::Released => without_button(
                            pressed,
                            ButtonId::of_source(button),
                        ),
                    },
                    last_position: Some(position),
                },
            )
        },
        WindowEvent::PointerLeft { device_id, position, primary, kind } => {
            table::without_key(pointers, PointerId::of_kind(kind, device_id, primary))
        },
        _ => pointers,
    }
}

/// The event that ends the tracking of a pointer which did not leave by itself.
pub open spec fn cancellation<D, S>(
    entry: (PointerId, TrackedPointer<D>),
) -> WindowInputEvent<D, S> {
    WindowInputEvent::Pointer(
        PointerInputEvent {
            device_id: entry.1.device_id,
            pointer_id: entry.0,
            position: entry.1.last_position,
            primary: entry.1.primary,
            kind: entry.1.kind,
            action: if entry.1.pressed.len() == 0 {
                PointerInputAction::Left
            } else {
                PointerInputAction::Cancelled
            },
        },
    )
}

/// The events that end the tracking of all pointers.
pub open spec fn cancellations<D, S>(pointers: Pointers<D>) -> Seq<WindowInputEvent<D, S>> {
    Seq::new(pointers.len(), |i: int| cancellation(pointers[i]))
}

/// What a pointer that leaves is reported to have done: with a button down it was cut short,
/// unless it is a mouse.
pub open spec fn leave_action<D, S>(
    known: Option<TrackedPointer<D>>,
    kind: PointerKind,
) -> PointerInputAction<D, S> {
    if kind != PointerKind::Mouse && known is Some && known->0.pressed.len() > 0 {
        PointerInputAction::Cancelled
    } else {
        PointerInputAction::Left
    }
}

/// The input that an event amounts to.
pub open spec fn input_of<D, S>(pointers: Pointers<D>, event: WindowEvent<D, S>) -> Seq<
    WindowInputEvent<D, S>,
> {
    match event {
        WindowEvent::Focused(focused) => if focused {
            Seq::empty()
        } else {
            cancellations(pointers)
        },
        WindowEvent::Destroyed => cancellations(pointers),
        WindowEvent::PointerEntered { device_id, position, primary, kind } => seq![
            WindowInputEvent::Pointer(
                PointerInputEvent {
                    device_id,
                    pointer_id: PointerId::of_kind(kind, device_id, primary),
                    position: Some(position),
                    primary,
                    kind,
                    action: PointerInputAction::Entered,
                },
            ),
        ],
        WindowEvent::PointerMoved { device_id, position, primary, source } => seq![
            WindowInputEvent::Pointer(
                PointerInputEvent {
                    device_id,
                    pointer_id: PointerId::of_kind(source.kind(), device_id, primary),
                    position: Some(position),
                    primary,
                    kind: source.kind(),
                    action: PointerInputAction::Moved { source },
                },
            ),
        ],
        WindowEvent::PointerButton { device_id, state, position, primary, button } => seq![
            WindowInputEvent::Pointer(
                PointerInputEvent {
                    device_id,
                    pointer_id: PointerId::of_kind(button.kind(), device_id, primary),
                    position: Some(position),
                    primary,
                    kind: button.kind(),
                    action: match state {
                        ElementState::Pressed => PointerInputAction::Pressed { button },
                        ElementState::Released => PointerInputAction::Released { button },
                    },
                },
            ),
        ],
        WindowEvent::PointerLeft { device_id, position, primary, kind } => {
            let id = PointerId::of_kind(kind, device_id, primary);
            let known = table::lookup(pointers, id);
            seq![
                WindowInputEvent::Pointer(
                    PointerInputEvent {
                        device_id: match known {
                            Some(pointer) => pointer.device_id,
                            None => device_id,
                        },
                        pointer_id: id,
                        position: match (position, known) {
                            (Some(position), _) => Some(position),
                            (None, Some(pointer)) => pointer.last_position,
                            (None, None) => None,
                        },
                        primary,
                        kind,
                        action: leave_action(known, kind),
                    },
                ),
            ]
        },
        WindowEvent::MouseWheel { device_id, delta, phase } => seq![
            WindowInputEvent::Scroll(
                ScrollInputEvent {
                    device_id,
                    position: mouse_position_of(pointers),
                    delta,
                    phase,
                    source: ScrollSource::Wheel,
                },
            ),
        ],
        WindowEvent::PanGesture { device_id, delta, phase } => seq![
            WindowInputEvent::Gesture(GestureInputEvent::Pan { device_id, delta, phase }),
        ],
        WindowEvent::PinchGesture { device_id, delta, phase } => seq![
            WindowInputEvent::Gesture(GestureInputEvent::Pinch { device_id, delta, phase }),
        ],
        WindowEvent::RotationGesture { device_id, delta, phase } => seq![
            WindowInputEvent::Gesture(GestureInputEvent::Rotation { device_id, delta, phase }),
        ],
        WindowEvent::DoubleTapGesture { device_id } => seq![
            WindowInputEvent::Gesture(GestureInputEvent::DoubleTap { device_id }),
        ],
        _ => Seq::empty(),
    }
}

/// How many of the tracked pointers are fingers.
pub open spec fn touch_contacts_of<D>(pointers: Pointers<D>) -> nat {
    pointers.filter(|entry: (PointerId, TrackedPointer<D>)| entry.1.kind is Touch).len()
}

fn contains_button(buttons: &Vec<ButtonId>, id: ButtonId) -> (result: bool)
    ensures
        result == buttons@.contains(id),
{
    let mut index: usize = 0;
    while index < buttons.len()
        invariant
            index <= buttons@.len(),
            forall|i: int| 0 <= i < index ==> buttons@[i] != id,
        decreases buttons@.len() - index,
    {
        if buttons[index] == id {
            return true;
        }
        index = index + 1;
    }
    false
}

/// The buttons other than `id`.
fn other_buttons(buttons: &Vec<ButtonId>, id: ButtonId) -> (others: Vec<ButtonId>)
    ensures
        others@ == without_button(buttons@, id),
{
    let mut others: Vec<ButtonId> = Vec::new();
    let mut index: usize = 0;
    proof {
        reveal(Seq::filter);
    }
    while index < buttons.len()
        invariant
            index <= buttons@.len(),
            others@ == without_button(buttons@.take(index as int), id),
        decreases buttons@.len() - index,
    {
        proof {
            reveal(Seq::filter);
            assert(buttons@.take(index + 1).drop_last() =~= buttons@.take(index as int));
        }
        if !(buttons[index] == id) {
            others.push(buttons[index]);
        }
        index = index + 1;
    }
    assert(buttons@.take(index as int) =~= buttons@);
    others
}

/// The buttons together with `id`.
fn buttons_with(buttons: &Vec<ButtonId>, id: ButtonId) -> (with: Vec<ButtonId>)
    ensures
        with@ == with_button(buttons@, id),
{
    let mut with: Vec<ButtonId> = copied_buttons(buttons);
    if !contains_button(buttons, id) {
        with.push(id);
    }
    with
}

fn copied_buttons(buttons: &Vec<ButtonId>) -> (copy: Vec<ButtonId>)
    ensures
        copy@ == buttons@,
{
    let mut copy: Vec<ButtonId> = Vec::new();
    let mut index: usize = 0;
    while index < buttons.len()
        invariant
            index <= buttons@.len(),
            copy@ == buttons@.take(index as int),
        decreases buttons@.len() - index,
    {
        copy.push(buttons[index]);
        index = index + 1;
    }
    copy
}

/// Follows the pointers of a window and reports what they do.
pub struct WindowInputMapper<D> {
    pointers: Table<PointerId, PointerState<D>>,
}

impl<D> View for WindowInputMapper<D> {
    type V = Pointers<D>;

    closed spec fn view(&self) -> Pointers<D> {
        self.pointers@
    }
}

impl<D> WindowInputMapper<D> {
    /// Whether storage was given back if there was too much of it for the pointers tracked now.
    pub closed spec fn storage_is_settled(&self) -> bool {
        table::storage_settled(self.pointers)
    }
}

impl<D: Copy> Default for WindowInputMapper<D> {
    fn default() -> (mapper: Self)
        ensures
            mapper@ == Pointers::<D>::empty(),
    {
        WindowInputMapper { pointers: Table::new() }
    }
}

impl<D: Copy> WindowInputMapper<D> {
    pub fn new() -> (mapper: Self)
        ensures
            mapper@ == Pointers::<D>::empty(),
    {
        WindowInputMapper { pointers: Table::new() }
    }

    /// The buttons that the pointer holds down.
    fn held_buttons(&self, id: &PointerId) -> (buttons: Vec<ButtonId>)
        ensures
            buttons@ == pressed_buttons(self@, *id),
    {
        match self.pointers.get(id) {
            Some(state) => copied_buttons(&state.pressed_buttons),
            None => Vec::new(),
        }
    }

    /// Takes note of an event and returns the input that it amounts to.
    pub fn map_window_event<S: Copy>(&mut self, event: &WindowEvent<D, S>) -> (input: Vec<
        WindowInputEvent<D, S>,
    >)
        ensures
            final(self)@ == pointers_after(old(self)@, *event),
            input@ == input_of(old(self)@, *event),
            *event is PointerLeft || *event is Destroyed || *event == WindowEvent::<D, S>::Focused(
                false,
            ) ==> final(self).storage_is_settled(),
    {
        let mut input: Vec<WindowInputEvent<D, S>> = Vec::new();
        match event {
            WindowEvent::Focused(false) | WindowEvent::Destroyed => {
                return self.cancel_all();
            },
            WindowEvent::PointerEntered { device_id, position, primary, kind } => {
                let pointer_id = PointerId::from_kind(*kind, *device_id, *primary);
                let state = PointerState {
                    device_id: *device_id,
                    kind: *kind,
                    primary: *primary,
                    pressed_buttons: Vec::new(),
                    last_position: Some(*position),
                };
                self.pointers.insert(pointer_id, state);
                input.push(
                    WindowInputEvent::Pointer(
                        PointerInputEvent {
                            device_id: *device_id,
                            pointer_id,
                            position: Some(*position),
                            primary: *primary,
                            kind: *kind,
                            action: PointerInputAction::Entered,
                        },
                    ),
                );
            },
            WindowEvent::PointerMoved { device_id, position, primary, source } => {
                let pointer_id = PointerId::from_source(source, *device_id, *primary);
                let kind = source.pointer_kind();
                let pressed_buttons = self.held_buttons(&pointer_id);
                self.pointers.insert(
                    pointer_id,
                    PointerState {
                        device_id: *device_id,
                        kind,
                        primary: *primary,
                        pressed_buttons,
                        last_position: Some(*position),
                    },
                );
                input.push(
                    WindowInputEvent::Pointer(
                        PointerInputEvent {
                            device_id: *device_id,
                            pointer_id,
                            position: Some(*position),
                            primary: *primary,
                            kind,
                            action: PointerInputAction::Moved { source: *source },
                        },
                    ),
                );
            },
            WindowEvent::PointerButton { device_id, state, position, primary, button } => {
                let pointer_id = PointerId::from_button(button, *device_id, *primary);
                let kind = button.pointer_kind();
                let button_id = ButtonId::from_button_source(button);
                let held = self.held_buttons(&pointer_id);
                let pressed_buttons = match state {
                    ElementState::Pressed => buttons_with(&held, button_id),
                    ElementState::Released => other_buttons(&held, button_id),
                };
                self.pointers.insert(
                    pointer_id,
                    PointerState {
                        device_id: *device_id,
                        kind,
                        primary: *primary,
                        pressed_buttons,
                        last_position: Some(*position),
                    },
                );
                input.push(
                    WindowInputEvent::Pointer(
                        PointerInputEvent {
                            device_id: *device_id,
                            pointer_id,
                            position: Some(*position),
                            primary: *primary,
                            kind,
                            action: match state {
                                ElementState::Pressed => {
                                    PointerInputAction::Pressed { button: *button }
                                },
                                ElementState::Released => {
                                    PointerInputAction::Released { button: *button }
                                },
                            },
                        },
                    ),
                );
            },
            WindowEvent::PointerLeft { device_id, position, primary, kind } => {
                let pointer_id = PointerId::from_kind(*kind, *device_id, *primary);
                let removed = self.pointers.remove(&pointer_id);
                self.shrink_pointer_storage_if_sparse();
                let (left_device, last_position, button_down) = match &removed {
                    Some(state) => {
                        let button_down = !state.pressed_buttons.is_empty();
                        (state.device_id, state.last_position, button_down)
                    },
                    None => (*device_id, None, false),
                };
                let cut_short = button_down && match kind {
                    PointerKind::Touch(_) | PointerKind::TabletTool(_) | PointerKind::Unknown => {
                        true
                    },
                    PointerKind::Mouse => false,
                };
                input.push(
                    WindowInputEvent::Pointer(
                        PointerInputEvent {
                            device_id: left_device,
                            pointer_id,
                            position: match position {
                                Some(position) => Some(*position),
                                None => last_position,
                            },
                            primary: *primary,
                            kind: *kind,
                            action: if cut_short {
                                PointerInputAction::Cancelled
                            } else {
                                PointerInputAction::Left
                            },
                        },
                    ),
                );
            },
            WindowEvent::MouseWheel { device_id, delta, phase } => {
                input.push(
                    WindowInputEvent::Scroll(
                        ScrollInputEvent {
                            device_id: *device_id,
                            position: self.mouse_position(),
                            delta: *delta,
                            phase: *phase,
                            source: ScrollSource::Wheel,
                        },
                    ),
                );
            },
            WindowEvent::PanGesture { device_id, delta, phase } => {
                input.push(
                    WindowInputEvent::Gesture(
                        GestureInputEvent::Pan {
                            device_id: *device_id,
                            delta: *delta,
                            phase: *phase,
                        },
                    ),
                );
            },
            WindowEvent::PinchGesture { device_id, delta, phase } => {
                input.push(
                    WindowInputEvent::Gesture(
                        GestureInputEvent::Pinch {
                            device_id: *device_id,
                            delta: *delta,
                            phase: *phase,
                        },
                    ),
                );
            },
            WindowEvent::RotationGesture { device_id, delta, phase } => {
                input.push(
                    WindowInputEvent::Gesture(
                        GestureInputEvent::Rotation {
                            device_id: *device_id,
                            delta: *delta,
                            phase: *phase,
                        },
                    ),
                );
            },
            WindowEvent::DoubleTapGesture { device_id } => {
                input.push(
                    WindowInputEvent::Gesture(
                        GestureInputEvent::DoubleTap { device_id: *device_id },
                    ),
                );
            },
            _ => {},
        }
        input
    }

    /// Forgets all pointers without a word.
    pub fn reset(&mut self)
        ensures
            final(self)@ == Pointers::<D>::empty(),
            final(self).storage_is_settled(),
    {
        self.pointers.clear();
        self.shrink_pointer_storage_if_sparse();
    }

    /// Forgets all pointers and reports for each that it left, or that it was cut short if it
    /// held a button down.
    pub fn cancel_all<S>(&mut self) -> (input: Vec<WindowInputEvent<D, S>>)
        ensures
            final(self)@ == Pointers::<D>::empty(),
            final(self).storage_is_settled(),
            input@ == cancellations::<D, S>(old(self)@),
    {
        let pointers = self.pointers.take();
        let mut input: Vec<WindowInputEvent<D, S>> = Vec::new();
        let mut index: usize = 0;
        while index < pointers.len()
            invariant
                index <= pointers@.len(),
                input@ == cancellations::<D, S>(pointers@.take(index as int)),
            decreases pointers@.len() - index,
        {
            let (pointer_id, state) = pointers.entry(index);
            let action = if !state.pressed_buttons.is_empty() {
                PointerInputAction::Cancelled
            } else {
                PointerInputAction::Left
            };
            input.push(
                WindowInputEvent::Pointer(
                    PointerInputEvent {
                        device_id: state.device_id,
                        pointer_id,
                        position: state.last_position,
                        primary: state.primary,
                        kind: state.kind,
                        action,
                    },
                ),
            );
            index = index + 1;
        }
        assert(pointers@.take(index as int) =~= pointers@);
        self.shrink_pointer_storage_if_sparse();
        input
    }

    /// How many fingers touch the window.
    pub fn touch_contact_count(&self) -> (count: usize)
        ensures
            count == touch_contacts_of(self@),
    {
        let ghost is_touch = |entry: (PointerId, TrackedPointer<D>)| entry.1.kind is Touch;
        let mut count: usize = 0;
        let mut index: usize = 0;
        assert(self.pointers@.take(0) =~= Pointers::<D>::empty());
        while index < self.pointers.len()
            invariant
                index <= self.pointers@.len(),
                count <= index,
                is_touch == (|entry: (PointerId, TrackedPointer<D>)| entry.1.kind is Touch),
                count == self.pointers@.take(index as int).filter(is_touch).len(),
            decreases self.pointers@.len() - index,
        {
            let (_, state) = self.pointers.entry(index);
            proof {
                let before = self.pointers@.take(index as int);
                let after = self.pointers@.take(index + 1);
                assert(after.drop_last() =~= before);
                assert(after.last() == self.pointers@[index as int]);
                reveal(Seq::filter);
            }
            match state.kind {
                PointerKind::Touch(_) => {
                    count = count + 1;
                },
                _ => {},
            }
            index = index + 1;
        }
        assert(self.pointers@.take(index as int) =~= self.pointers@);
        count
    }

    fn shrink_pointer_storage_if_sparse(&mut self)
        ensures
            final(self)@ == old(self)@,
            table::shrunk_if_sparse(old(self).pointers, final(self).pointers),
    {
        self.pointers.shrink_if_sparse();
    }

    fn mouse_position(&self) -> (position: Option<PhysicalPosition<D>>)
        ensures
            position == mouse_position_of(self@),
    {
        match self.pointers.get(&PointerId::Mouse) {
            Some(state) => state.last_position,
            None => None,
        }
    }
}

} // verus!
