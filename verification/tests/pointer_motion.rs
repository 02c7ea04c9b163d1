use winit_android::action::{Action, Change, LoopAction, Segment, TouchGesture};
use winit_android::android::{
    Button, MotionAction, MotionEvent, MotionPointer, Source, ToolType,
};
use winit_android::event::{
    ButtonSource, DeviceId, ElementState, FingerId, Force, MouseButton, MouseScrollDelta,
    PointerKind, PointerSource, TabletToolButton, TabletToolData, TabletToolKind, TouchPhase,
    WindowEvent,
};
use winit_android::geometry::PhysicalPosition;
use winit_android::pointer::{
    action_button_source, android_pointer_state, mouse_button, tablet_tool_button,
    tablet_tool_kind, AndroidPointerSource, AndroidPointerState,
};
use winit_android::touch::TouchTracker;

type Step = Action<f64, f32>;

const DEVICE: Option<DeviceId> = Some(DeviceId(6));

fn at(x: f64, y: f64) -> PhysicalPosition<f64> {
    PhysicalPosition::new(x, y)
}

fn pointer(pointer_id: i32, tool_type: ToolType, x: f64, y: f64) -> MotionPointer<f64, f32> {
    MotionPointer {
        pointer_id,
        tool_type,
        position: at(x, y),
        pressure: 0.5,
        horizontal_lines: -1.0,
        vertical_lines: 2.0,
    }
}

fn finger(pointer_id: i32, x: f64, y: f64) -> MotionPointer<f64, f32> {
    pointer(pointer_id, ToolType::Finger, x, y)
}

fn motion(
    source: Source,
    action: MotionAction,
    pointer_index: usize,
    pointers: Vec<MotionPointer<f64, f32>>,
) -> MotionEvent<f64, f32> {
    MotionEvent {
        device_id: 6,
        source,
        action,
        action_button: Button::Primary,
        pointer_index,
        pointers,
    }
}

fn touch(
    action: MotionAction,
    pointer_index: usize,
    pointers: Vec<MotionPointer<f64, f32>>,
) -> MotionEvent<f64, f32> {
    motion(Source::Touchscreen, action, pointer_index, pointers)
}

fn touch_button(
    state: ElementState,
    id: usize,
    primary: bool,
    position: PhysicalPosition<f64>,
) -> Step {
    LoopAction::WindowEvent(WindowEvent::PointerButton {
        device_id: DEVICE,
        primary,
        state,
        position,
        button: ButtonSource::Touch {
            finger_id: FingerId(id),
            force: Some(Force::Normalized(0.5)),
        },
    })
}

fn touch_entered(id: usize, primary: bool, position: PhysicalPosition<f64>) -> Step {
    LoopAction::WindowEvent(WindowEvent::PointerEntered {
        device_id: DEVICE,
        primary,
        position,
        kind: PointerKind::Touch(FingerId(id)),
    })
}

fn touch_left(id: usize, primary: bool, position: PhysicalPosition<f64>) -> Step {
    LoopAction::WindowEvent(WindowEvent::PointerLeft {
        device_id: DEVICE,
        primary,
        position: Some(position),
        kind: PointerKind::Touch(FingerId(id)),
    })
}

fn touch_moved(id: usize, primary: bool, position: PhysicalPosition<f64>) -> Step {
    LoopAction::WindowEvent(WindowEvent::PointerMoved {
        device_id: DEVICE,
        primary,
        position,
        source: PointerSource::Touch {
            finger_id: FingerId(id),
            force: Some(Force::Normalized(0.5)),
        },
    })
}

fn pan(phase: TouchPhase) -> Step {
    LoopAction::TouchGesture(TouchGesture::Pan { device_id: DEVICE, delta: Change::Zero, phase })
}

fn pinch(phase: TouchPhase) -> Step {
    LoopAction::TouchGesture(TouchGesture::Pinch { device_id: DEVICE, delta: Change::Zero, phase })
}

fn rotation(phase: TouchPhase) -> Step {
    LoopAction::TouchGesture(TouchGesture::Rotation {
        device_id: DEVICE,
        delta: Change::Zero,
        phase,
    })
}

fn two_fingers_down() -> TouchTracker<f64> {
    let mut tracker = TouchTracker::new();
    tracker.handle_motion_event(&touch(MotionAction::Down, 0, vec![finger(0, 1.0, 2.0)]));
    tracker.handle_motion_event(&touch(
        MotionAction::PointerDown,
        1,
        vec![finger(0, 1.0, 2.0), finger(1, 3.0, 4.0)],
    ));
    tracker
}

#[test]
fn a_first_finger_is_primary_and_makes_no_gesture() {
    let mut tracker = TouchTracker::new();
    let down = touch(MotionAction::Down, 0, vec![finger(0, 1.0, 2.0)]);
    assert_eq!(
        tracker.handle_motion_event(&down),
        vec![
            touch_entered(0, true, at(1.0, 2.0)),
            touch_button(ElementState::Pressed, 0, true, at(1.0, 2.0)),
        ]
    );
    let up = touch(MotionAction::Up, 0, vec![finger(0, 1.5, 2.5)]);
    assert_eq!(
        tracker.handle_motion_event(&up),
        vec![
            touch_button(ElementState::Released, 0, true, at(1.5, 2.5)),
            touch_left(0, true, at(1.5, 2.5)),
        ]
    );
    assert!(!tracker.is_gesturing());
}

#[test]
fn two_fingers_pan_pinch_and_rotate() {
    let mut tracker = TouchTracker::new();
    tracker.handle_motion_event(&touch(MotionAction::Down, 0, vec![finger(0, 1.0, 2.0)]));
    let second = touch(
        MotionAction::PointerDown,
        1,
        vec![finger(0, 1.0, 2.0), finger(1, 3.0, 4.0)],
    );
    assert_eq!(
        tracker.handle_motion_event(&second),
        vec![
            touch_entered(1, false, at(3.0, 4.0)),
            touch_button(ElementState::Pressed, 1, false, at(3.0, 4.0)),
            pan(TouchPhase::Started),
            pinch(TouchPhase::Started),
            rotation(TouchPhase::Started),
        ]
    );
    assert!(tracker.is_gesturing());

    let moved = touch(MotionAction::Move, 0, vec![finger(0, 1.0, 3.0), finger(1, 5.0, 4.0)]);
    let before = Segment { first: at(1.0, 2.0), second: at(3.0, 4.0) };
    let after = Segment { first: at(1.0, 3.0), second: at(5.0, 4.0) };
    assert_eq!(
        tracker.handle_motion_event(&moved),
        vec![
            touch_moved(0, true, at(1.0, 3.0)),
            touch_moved(1, false, at(5.0, 4.0)),
            LoopAction::TouchGesture(TouchGesture::Pan {
                device_id: DEVICE,
                delta: Change::Between {
                    previous: vec![at(1.0, 2.0), at(3.0, 4.0)],
                    current: vec![at(1.0, 3.0), at(5.0, 4.0)],
                },
                phase: TouchPhase::Moved,
            }),
            LoopAction::TouchGesture(TouchGesture::Pinch {
                device_id: DEVICE,
                delta: Change::Between { previous: before, current: after },
                phase: TouchPhase::Moved,
            }),
            LoopAction::TouchGesture(TouchGesture::Rotation {
                device_id: DEVICE,
                delta: Change::Between { previous: before, current: after },
                phase: TouchPhase::Moved,
            }),
        ]
    );
}

#[test]
fn a_third_finger_ends_pinching_but_not_panning() {
    let mut tracker = two_fingers_down();
    let third = touch(
        MotionAction::PointerDown,
        2,
        vec![finger(0, 1.0, 2.0), finger(1, 3.0, 4.0), finger(2, 5.0, 6.0)],
    );
    let actions: Vec<Step> = tracker.handle_motion_event(&third);
    assert_eq!(actions[2..], [pinch(TouchPhase::Ended), rotation(TouchPhase::Ended)]);

    let lifted = touch(
        MotionAction::PointerUp,
        2,
        vec![finger(0, 1.0, 2.0), finger(1, 3.0, 4.0), finger(2, 5.0, 6.0)],
    );
    let actions: Vec<Step> = tracker.handle_motion_event(&lifted);
    assert_eq!(actions[2..], [pinch(TouchPhase::Started), rotation(TouchPhase::Started)]);

    let lifted = touch(MotionAction::PointerUp, 0, vec![finger(0, 1.0, 2.0), finger(1, 3.0, 4.0)]);
    assert_eq!(
        tracker.handle_motion_event(&lifted),
        vec![
            touch_button(ElementState::Released, 0, true, at(1.0, 2.0)),
            touch_left(0, true, at(1.0, 2.0)),
            pan(TouchPhase::Ended),
            pinch(TouchPhase::Ended),
            rotation(TouchPhase::Ended),
        ]
    );
}

#[test]
fn a_line_goes_from_the_lower_finger_to_the_higher() {
    let mut tracker: TouchTracker<f64> = TouchTracker::new();
    let down = touch(MotionAction::Down, 0, vec![finger(5, 1.0, 1.0)]);
    let _: Vec<Step> = tracker.handle_motion_event(&down);
    let down = touch(
        MotionAction::PointerDown,
        1,
        vec![finger(5, 1.0, 1.0), finger(2, 9.0, 9.0)],
    );
    let _: Vec<Step> = tracker.handle_motion_event(&down);
    let moved = touch(MotionAction::Move, 0, vec![finger(5, 2.0, 2.0)]);
    let actions: Vec<Step> = tracker.handle_motion_event(&moved);
    assert_eq!(
        actions[2],
        LoopAction::TouchGesture(TouchGesture::Pinch {
            device_id: DEVICE,
            delta: Change::Between {
                previous: Segment { first: at(9.0, 9.0), second: at(1.0, 1.0) },
                current: Segment { first: at(9.0, 9.0), second: at(2.0, 2.0) },
            },
            phase: TouchPhase::Moved,
        })
    );
}

#[test]
fn cancelling_a_motion_lets_every_known_finger_leave() {
    let mut tracker = two_fingers_down();
    let cancel = touch(MotionAction::Cancel, 0, vec![finger(0, 100.0, 100.0)]);
    assert_eq!(
        tracker.handle_motion_event(&cancel),
        vec![
            touch_left(0, true, at(1.0, 2.0)),
            touch_left(1, false, at(3.0, 4.0)),
            pan(TouchPhase::Cancelled),
            pinch(TouchPhase::Cancelled),
            rotation(TouchPhase::Cancelled),
        ]
    );
    let again: Vec<Step> = tracker.handle_motion_event(&cancel);
    assert!(again.is_empty());
}

#[test]
fn cancelling_a_mouse_motion_lets_the_mouse_leave() {
    let mut tracker: TouchTracker<f64> = TouchTracker::new();
    let cancel = motion(
        Source::Mouse,
        MotionAction::Cancel,
        0,
        vec![pointer(0, ToolType::Mouse, 3.0, 4.0)],
    );
    let actions: Vec<Step> = tracker.handle_motion_event(&cancel);
    assert_eq!(
        actions,
        vec![LoopAction::WindowEvent(WindowEvent::PointerLeft {
            device_id: DEVICE,
            primary: true,
            position: Some(at(3.0, 4.0)),
            kind: PointerKind::Mouse,
        })]
    );
}

#[test]
fn giving_up_tracking_ends_touches_without_a_device() {
    let mut tracker = two_fingers_down();
    let actions: Vec<Step> = tracker.cancel_touch_tracking();
    assert_eq!(actions.len(), 5);
    assert_eq!(actions[0], touch_left(0, true, at(1.0, 2.0)));
    assert_eq!(actions[1], touch_left(1, false, at(3.0, 4.0)));
    assert_eq!(
        actions[2],
        LoopAction::TouchGesture(TouchGesture::Pan {
            device_id: None,
            delta: Change::Zero,
            phase: TouchPhase::Cancelled,
        })
    );
    assert!(!tracker.is_gesturing());
    let again: Vec<Step> = tracker.cancel_touch_tracking();
    assert!(again.is_empty());
}

#[test]
fn a_moving_finger_that_was_not_seen_is_taken_up() {
    let mut tracker: TouchTracker<f64> = TouchTracker::new();
    let moved = touch(MotionAction::Move, 0, vec![finger(3, 1.0, 1.0), finger(4, 2.0, 2.0)]);
    assert_eq!(
        tracker.handle_motion_event(&moved),
        vec![
            touch_moved(3, false, at(1.0, 1.0)),
            touch_moved(4, false, at(2.0, 2.0)),
            pan(TouchPhase::Started),
            pinch(TouchPhase::Started),
            rotation(TouchPhase::Started),
        ]
    );
}

#[test]
fn a_palm_does_nothing() {
    let mut tracker: TouchTracker<f64> = TouchTracker::new();
    for action in [
        MotionAction::Down,
        MotionAction::Move,
        MotionAction::Up,
        MotionAction::Cancel,
        MotionAction::HoverEnter,
        MotionAction::Scroll,
        MotionAction::ButtonPress,
    ] {
        let palm = touch(action, 0, vec![pointer(0, ToolType::Palm, 1.0, 1.0)]);
        let actions: Vec<Step> = tracker.handle_motion_event(&palm);
        assert!(actions.is_empty());
    }
}

#[test]
fn a_stylus_reports_its_force() {
    let mut tracker: TouchTracker<f64> = TouchTracker::new();
    let down = motion(
        Source::Stylus,
        MotionAction::Down,
        0,
        vec![pointer(0, ToolType::Eraser, 1.0, 1.0)],
    );
    let actions: Vec<Step> = tracker.handle_motion_event(&down);
    assert_eq!(
        actions[1],
        LoopAction::WindowEvent(WindowEvent::PointerButton {
            device_id: DEVICE,
            primary: true,
            state: ElementState::Pressed,
            position: at(1.0, 1.0),
            button: ButtonSource::TabletTool {
                kind: TabletToolKind::Eraser,
                button: TabletToolButton::Contact,
                data: TabletToolData {
                    force: Some(Force::Normalized(0.5)),
                    tangential_force: None,
                    twist: None,
                    tilt: None,
                    angle: None,
                },
            },
        })
    );
    assert_eq!(actions.len(), 2);
}

#[test]
fn hovering_enters_moves_and_leaves() {
    let mut tracker: TouchTracker<f64> = TouchTracker::new();
    let mut hover = |action| -> Vec<Step> {
        tracker.handle_motion_event(&motion(
            Source::Mouse,
            action,
            0,
            vec![pointer(0, ToolType::Mouse, 1.0, 2.0)],
        ))
    };
    assert_eq!(
        hover(MotionAction::HoverEnter),
        vec![LoopAction::WindowEvent(WindowEvent::PointerEntered {
            device_id: DEVICE,
            primary: true,
            position: at(1.0, 2.0),
            kind: PointerKind::Mouse,
        })]
    );
    assert_eq!(
        hover(MotionAction::HoverMove),
        vec![LoopAction::WindowEvent(WindowEvent::PointerMoved {
            device_id: DEVICE,
            primary: true,
            position: at(1.0, 2.0),
            source: PointerSource::Mouse,
        })]
    );
    assert_eq!(
        hover(MotionAction::HoverExit),
        vec![LoopAction::WindowEvent(WindowEvent::PointerLeft {
            device_id: DEVICE,
            primary: true,
            position: Some(at(1.0, 2.0)),
            kind: PointerKind::Mouse,
        })]
    );
    assert!(hover(MotionAction::Other).is_empty());
}

#[test]
fn scrolling_moves_the_pointer_and_turns_the_wheel() {
    let mut tracker: TouchTracker<f64> = TouchTracker::new();
    let scroll = motion(
        Source::Mouse,
        MotionAction::Scroll,
        0,
        vec![pointer(0, ToolType::Mouse, 1.0, 2.0)],
    );
    let actions: Vec<Step> = tracker.handle_motion_event(&scroll);
    assert_eq!(actions.len(), 2);
    assert_eq!(
        actions[1],
        LoopAction::WindowEvent(WindowEvent::MouseWheel {
            device_id: DEVICE,
            delta: MouseScrollDelta::LineDelta(-1.0, 2.0),
            phase: TouchPhase::Moved,
        })
    );
}

#[test]
fn mouse_buttons_are_pressed_and_released() {
    let mut tracker: TouchTracker<f64> = TouchTracker::new();
    let mut press = motion(
        Source::Touchpad,
        MotionAction::ButtonPress,
        0,
        vec![pointer(0, ToolType::Mouse, 1.0, 2.0)],
    );
    press.action_button = Button::Secondary;
    let actions: Vec<Step> = tracker.handle_motion_event(&press);
    assert_eq!(
        actions,
        vec![LoopAction::WindowEvent(WindowEvent::PointerButton {
            device_id: DEVICE,
            primary: true,
            state: ElementState::Pressed,
            position: at(1.0, 2.0),
            button: ButtonSource::Mouse(MouseButton::Right),
        })]
    );
    press.action_button = Button::StylusPrimary;
    let actions: Vec<Step> = tracker.handle_motion_event(&press);
    assert!(actions.is_empty());
    press.action = MotionAction::ButtonRelease;
    press.action_button = Button::Back;
    let actions: Vec<Step> = tracker.handle_motion_event(&press);
    assert!(matches!(
        actions[0],
        LoopAction::WindowEvent(WindowEvent::PointerButton {
            state: ElementState::Released,
            button: ButtonSource::Mouse(MouseButton::Back),
            ..
        })
    ));
}

#[test]
fn pointers_are_classified_by_device_then_tool() {
    let finger_id = FingerId(3);
    let kind = |source, tool| -> Option<PointerKind> {
        let state: Option<AndroidPointerState<f64, f32>> =
            android_pointer_state(source, tool, finger_id, 1.0);
        state.map(|state| state.kind)
    };
    assert_eq!(kind(Source::Trackball, ToolType::Palm), Some(PointerKind::Mouse));
    assert_eq!(kind(Source::MouseRelative, ToolType::Finger), Some(PointerKind::Mouse));
    assert_eq!(
        kind(Source::BluetoothStylus, ToolType::Finger),
        Some(PointerKind::TabletTool(TabletToolKind::Pen))
    );
    assert_eq!(kind(Source::Touchscreen, ToolType::Finger), Some(PointerKind::Touch(finger_id)));
    assert_eq!(
        kind(Source::Touchscreen, ToolType::Eraser),
        Some(PointerKind::TabletTool(TabletToolKind::Eraser))
    );
    assert_eq!(kind(Source::Touchscreen, ToolType::Palm), None);
    assert_eq!(kind(Source::Other, ToolType::Palm), None);
    assert_eq!(kind(Source::Other, ToolType::Mouse), Some(PointerKind::Mouse));
    assert_eq!(kind(Source::Touchscreen, ToolType::Unknown), Some(PointerKind::Unknown));
}

#[test]
fn an_unknown_pointer_touches_with_button_zero() {
    let state: AndroidPointerState<f64, f32> =
        AndroidPointerState { kind: PointerKind::Unknown, source: AndroidPointerSource::Unknown };
    assert_eq!(state.contact_button(), ButtonSource::Unknown(0));
    assert_eq!(state.pointer_source(), PointerSource::Unknown);
    assert_eq!(action_button_source(Button::Primary, &state), None);
}

#[test]
fn android_buttons_are_mapped() {
    let mouse = [
        (Button::Primary, Some(MouseButton::Left)),
        (Button::Secondary, Some(MouseButton::Right)),
        (Button::Tertiary, Some(MouseButton::Middle)),
        (Button::Back, Some(MouseButton::Back)),
        (Button::Forward, Some(MouseButton::Forward)),
        (Button::StylusPrimary, None),
        (Button::StylusSecondary, None),
        (Button::Other, None),
    ];
    for (button, mapped) in mouse {
        assert_eq!(mouse_button(button), mapped);
    }
    let tablet = [
        (Button::Primary, Some(TabletToolButton::Contact)),
        (Button::Secondary, Some(TabletToolButton::Barrel)),
        (Button::StylusPrimary, Some(TabletToolButton::Barrel)),
        (Button::Tertiary, Some(TabletToolButton::Other(1))),
        (Button::StylusSecondary, Some(TabletToolButton::Other(2))),
        (Button::Back, Some(TabletToolButton::Other(3))),
        (Button::Forward, Some(TabletToolButton::Other(4))),
        (Button::Other, None),
    ];
    for (button, mapped) in tablet {
        assert_eq!(tablet_tool_button(button), mapped);
    }
    assert_eq!(tablet_tool_kind(ToolType::Eraser), TabletToolKind::Eraser);
    assert_eq!(tablet_tool_kind(ToolType::Finger), TabletToolKind::Pen);
}
