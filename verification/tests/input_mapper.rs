use winit_android::event::{
    ButtonSource, DeviceId, ElementState, FingerId, Force, MouseButton, MouseScrollDelta,
    PointerKind, PointerSource, TabletToolButton, TabletToolData, TabletToolKind, TouchPhase,
    WindowEvent,
};
use winit_android::geometry::PhysicalPosition;
use winit_android::input::{
    ButtonId, GestureInputEvent, PointerId, PointerInputAction, PointerInputEvent,
    ScrollInputEvent, ScrollSource, WindowInputEvent, WindowInputMapper,
};

type Event = WindowEvent<f64, f32>;
type Input = WindowInputEvent<f64, f32>;

fn collect(mapper: &mut WindowInputMapper<f64>, event: &Event) -> Vec<Input> {
    mapper.map_window_event(event)
}

#[test]
fn touch_pointer_left_without_release_becomes_cancelled() {
    let mut mapper = WindowInputMapper::new();
    let finger_id = FingerId::from_raw(7);

    collect(
        &mut mapper,
        &WindowEvent::PointerEntered {
            device_id: None,
            position: PhysicalPosition::new(10.0, 20.0),
            primary: true,
            kind: PointerKind::Touch(finger_id),
        },
    );
    collect(
        &mut mapper,
        &WindowEvent::PointerButton {
            device_id: None,
            state: ElementState::Pressed,
            position: PhysicalPosition::new(10.0, 20.0),
            primary: true,
            button: ButtonSource::Touch { finger_id, force: Some(Force::Normalized(0.5)) },
        },
    );

    let events = collect(
        &mut mapper,
        &WindowEvent::PointerLeft {
            device_id: None,
            position: None,
            primary: true,
            kind: PointerKind::Touch(finger_id),
        },
    );

    assert_eq!(events.len(), 1);
    assert!(matches!(
        &events[0],
        WindowInputEvent::Pointer(PointerInputEvent {
            pointer_id: PointerId::Touch(id),
            action: PointerInputAction::Cancelled,
            ..
        }) if *id == finger_id
    ));
}

#[test]
fn mouse_pointer_left_stays_left() {
    let mut mapper = WindowInputMapper::new();
    collect(
        &mut mapper,
        &WindowEvent::PointerEntered {
            device_id: None,
            position: PhysicalPosition::new(1.0, 2.0),
            primary: true,
            kind: PointerKind::Mouse,
        },
    );
    collect(
        &mut mapper,
        &WindowEvent::PointerButton {
            device_id: None,
            state: ElementState::Pressed,
            position: PhysicalPosition::new(1.0, 2.0),
            primary: true,
            button: ButtonSource::Mouse(MouseButton::Left),
        },
    );

    let events = collect(
        &mut mapper,
        &WindowEvent::PointerLeft {
            device_id: None,
            position: Some(PhysicalPosition::new(3.0, 4.0)),
            primary: true,
            kind: PointerKind::Mouse,
        },
    );

    assert_eq!(events.len(), 1);
    assert!(matches!(
        &events[0],
        WindowInputEvent::Pointer(PointerInputEvent {
            pointer_id: PointerId::Mouse,
            action: PointerInputAction::Left,
            ..
        })
    ));
}

#[test]
fn pan_gesture_emits_only_pan_gesture() {
    let mut mapper = WindowInputMapper::new();
    let first = FingerId::from_raw(1);
    let second = FingerId::from_raw(2);

    collect(
        &mut mapper,
        &WindowEvent::PointerEntered {
            device_id: None,
            position: PhysicalPosition::new(10.0, 20.0),
            primary: true,
            kind: PointerKind::Touch(first),
        },
    );
    collect(
        &mut mapper,
        &WindowEvent::PointerEntered {
            device_id: None,
            position: PhysicalPosition::new(30.0, 40.0),
            primary: false,
            kind: PointerKind::Touch(second),
        },
    );

    let events = collect(
        &mut mapper,
        &WindowEvent::PanGesture {
            device_id: None,
            delta: PhysicalPosition::new(0.0, 12.0),
            phase: TouchPhase::Moved,
        },
    );

    assert!(matches!(
        &events[0],
        WindowInputEvent::Gesture(GestureInputEvent::Pan {
            delta,
            phase: TouchPhase::Moved,
            ..
        }) if *delta == PhysicalPosition::new(0.0, 12.0)
    ));
    assert_eq!(events.len(), 1);
}

fn at(x: f64, y: f64) -> PhysicalPosition<f64> {
    PhysicalPosition::new(x, y)
}

fn entered(kind: PointerKind, primary: bool, position: PhysicalPosition<f64>) -> Event {
    WindowEvent::PointerEntered { device_id: Some(DeviceId::from_raw(4)), position, primary, kind }
}

fn mouse_button(state: ElementState, button: MouseButton) -> Event {
    WindowEvent::PointerButton {
        device_id: Some(DeviceId::from_raw(4)),
        state,
        position: at(5.0, 6.0),
        primary: true,
        button: ButtonSource::Mouse(button),
    }
}

fn left(kind: PointerKind) -> Event {
    WindowEvent::PointerLeft { device_id: None, position: None, primary: true, kind }
}

fn only_pointer(events: &[Input]) -> PointerInputEvent<f64, f32> {
    assert_eq!(events.len(), 1);
    match &events[0] {
        WindowInputEvent::Pointer(event) => event.clone(),
        other => panic!("not a pointer event: {other:?}"),
    }
}

#[test]
fn entering_is_passed_on_exactly() {
    let mut mapper = WindowInputMapper::new();
    let events = collect(&mut mapper, &entered(PointerKind::Mouse, true, at(1.0, 2.0)));
    assert_eq!(
        only_pointer(&events),
        PointerInputEvent {
            device_id: Some(DeviceId::from_raw(4)),
            pointer_id: PointerId::Mouse,
            position: Some(at(1.0, 2.0)),
            primary: true,
            kind: PointerKind::Mouse,
            action: PointerInputAction::Entered,
        }
    );
}

#[test]
fn moving_an_unseen_pointer_tracks_it() {
    let mut mapper = WindowInputMapper::new();
    let source = PointerSource::Touch {
        finger_id: FingerId::from_raw(3),
        force: Some(Force::Normalized(0.25)),
    };
    let events = collect(
        &mut mapper,
        &WindowEvent::PointerMoved {
            device_id: None,
            position: at(7.0, 8.0),
            primary: false,
            source,
        },
    );
    let event = only_pointer(&events);
    assert_eq!(event.pointer_id, PointerId::Touch(FingerId::from_raw(3)));
    assert_eq!(event.kind, PointerKind::Touch(FingerId::from_raw(3)));
    assert_eq!(event.action, PointerInputAction::Moved { source });
    assert_eq!(mapper.touch_contact_count(), 1);
}

#[test]
fn a_released_finger_leaves_without_being_cancelled() {
    let mut mapper = WindowInputMapper::new();
    let finger_id = FingerId::from_raw(9);
    collect(&mut mapper, &entered(PointerKind::Touch(finger_id), true, at(1.0, 1.0)));
    for state in [ElementState::Pressed, ElementState::Released] {
        collect(
            &mut mapper,
            &WindowEvent::PointerButton {
                device_id: None,
                state,
                position: at(2.0, 2.0),
                primary: true,
                button: ButtonSource::Touch { finger_id, force: None },
            },
        );
    }
    let event = only_pointer(&collect(&mut mapper, &left(PointerKind::Touch(finger_id))));
    assert_eq!(event.action, PointerInputAction::Left);
    assert_eq!(event.position, Some(at(2.0, 2.0)));
    assert_eq!(mapper.touch_contact_count(), 0);
}

#[test]
fn leaving_falls_back_to_what_is_known() {
    let mut mapper = WindowInputMapper::new();
    let tool = PointerKind::TabletTool(TabletToolKind::Pen);
    collect(&mut mapper, &entered(tool, true, at(11.0, 12.0)));
    let event = only_pointer(&collect(&mut mapper, &left(tool)));
    assert_eq!(event.device_id, Some(DeviceId::from_raw(4)));
    assert_eq!(event.position, Some(at(11.0, 12.0)));
    assert_eq!(event.pointer_id, PointerId::TabletTool(tool));

    let event = only_pointer(&collect(&mut mapper, &left(tool)));
    assert_eq!(event.device_id, None);
    assert_eq!(event.position, None);
    assert_eq!(event.action, PointerInputAction::Left);
}

#[test]
fn pressing_twice_needs_one_release() {
    let mut mapper = WindowInputMapper::new();
    let unknown = PointerKind::Unknown;
    let button = |state| WindowEvent::PointerButton {
        device_id: None,
        state,
        position: at(0.0, 0.0),
        primary: true,
        button: ButtonSource::Unknown(2),
    };
    collect(&mut mapper, &button(ElementState::Pressed));
    collect(&mut mapper, &button(ElementState::Pressed));
    let events = collect(&mut mapper, &button(ElementState::Released));
    assert_eq!(
        only_pointer(&events).action,
        PointerInputAction::Released { button: ButtonSource::Unknown(2) }
    );
    assert_eq!(
        only_pointer(&collect(&mut mapper, &left(unknown))).action,
        PointerInputAction::Left
    );
}

#[test]
fn unknown_pointers_are_told_apart_by_device_and_rank() {
    let mut mapper = WindowInputMapper::new();
    let button = |primary| WindowEvent::PointerButton {
        device_id: None,
        state: ElementState::Pressed,
        position: at(0.0, 0.0),
        primary,
        button: ButtonSource::Unknown(0),
    };
    collect(&mut mapper, &button(false));
    let event = only_pointer(&collect(&mut mapper, &left(PointerKind::Unknown)));
    assert_eq!(event.pointer_id, PointerId::Unknown { device_id: None, primary: true });
    assert_eq!(event.action, PointerInputAction::Left);

    collect(&mut mapper, &button(true));
    let event = only_pointer(&collect(&mut mapper, &left(PointerKind::Unknown)));
    assert_eq!(event.action, PointerInputAction::Cancelled);
}

#[test]
fn losing_focus_reports_each_pointer_once() {
    let mut mapper = WindowInputMapper::new();
    let finger = PointerKind::Touch(FingerId::from_raw(1));
    collect(&mut mapper, &entered(PointerKind::Mouse, true, at(1.0, 2.0)));
    collect(&mut mapper, &mouse_button(ElementState::Pressed, MouseButton::Right));
    collect(&mut mapper, &entered(finger, false, at(3.0, 4.0)));

    let events = collect(&mut mapper, &WindowEvent::Focused(false));
    assert_eq!(events.len(), 2);
    let mut actions = Vec::new();
    for event in &events {
        if let WindowInputEvent::Pointer(event) = event {
            actions.push((event.pointer_id, event.action.clone(), event.position));
        }
    }
    assert!(actions.contains(&(
        PointerId::Mouse,
        PointerInputAction::Cancelled,
        Some(at(5.0, 6.0))
    )));
    assert!(actions.contains(&(
        PointerId::Touch(FingerId::from_raw(1)),
        PointerInputAction::Left,
        Some(at(3.0, 4.0))
    )));
    assert!(collect(&mut mapper, &WindowEvent::Destroyed).is_empty());
}

#[test]
fn gaining_focus_and_other_events_say_nothing() {
    let mut mapper = WindowInputMapper::new();
    collect(&mut mapper, &entered(PointerKind::Mouse, true, at(1.0, 2.0)));
    assert!(collect(&mut mapper, &WindowEvent::Focused(true)).is_empty());
    assert!(collect(&mut mapper, &WindowEvent::RedrawRequested).is_empty());
    assert!(collect(&mut mapper, &WindowEvent::CloseRequested).is_empty());
    let events: Vec<Input> = mapper.cancel_all();
    assert_eq!(events.len(), 1);
}

#[test]
fn wheel_scrolls_where_the_mouse_is() {
    let mut mapper = WindowInputMapper::new();
    let wheel = WindowEvent::MouseWheel {
        device_id: None,
        delta: MouseScrollDelta::LineDelta(1.0, -2.0),
        phase: TouchPhase::Moved,
    };
    let scrolled = |position| {
        vec![WindowInputEvent::Scroll(ScrollInputEvent {
            device_id: None,
            position,
            delta: MouseScrollDelta::LineDelta(1.0, -2.0),
            phase: TouchPhase::Moved,
            source: ScrollSource::Wheel,
        })]
    };
    assert_eq!(collect(&mut mapper, &wheel), scrolled(None));
    collect(&mut mapper, &entered(PointerKind::Mouse, true, at(1.0, 2.0)));
    assert_eq!(collect(&mut mapper, &wheel), scrolled(Some(at(1.0, 2.0))));
}

#[test]
fn gestures_are_passed_on_exactly() {
    let mut mapper = WindowInputMapper::new();
    let device_id = Some(DeviceId::from_raw(1));
    let phase = TouchPhase::Ended;
    assert_eq!(
        collect(&mut mapper, &WindowEvent::PinchGesture { device_id, delta: 0.5, phase }),
        vec![WindowInputEvent::Gesture(GestureInputEvent::Pinch { device_id, delta: 0.5, phase })]
    );
    assert_eq!(
        collect(&mut mapper, &WindowEvent::RotationGesture { device_id, delta: -3.0, phase }),
        vec![WindowInputEvent::Gesture(GestureInputEvent::Rotation {
            device_id,
            delta: -3.0,
            phase
        })]
    );
    assert_eq!(
        collect(&mut mapper, &WindowEvent::DoubleTapGesture { device_id }),
        vec![WindowInputEvent::Gesture(GestureInputEvent::DoubleTap { device_id })]
    );
}

#[test]
fn many_fingers_are_counted_and_forgotten_on_reset() {
    let mut mapper = WindowInputMapper::new();
    for finger in 0..40 {
        let kind = PointerKind::Touch(FingerId::from_raw(finger));
        collect(&mut mapper, &entered(kind, finger == 0, at(finger as f64, 0.0)));
    }
    collect(&mut mapper, &entered(PointerKind::Mouse, true, at(0.0, 0.0)));
    assert_eq!(mapper.touch_contact_count(), 40);
    mapper.reset();
    assert_eq!(mapper.touch_contact_count(), 0);
    assert!(collect(&mut mapper, &WindowEvent::Destroyed).is_empty());
    collect(&mut mapper, &entered(PointerKind::Touch(FingerId::from_raw(5)), true, at(0.0, 0.0)));
    assert_eq!(mapper.touch_contact_count(), 1);
}

#[test]
fn pointer_names_agree_for_kinds_sources_and_buttons() {
    let finger_id = FingerId::from_raw(2);
    let device_id = Some(DeviceId::from_raw(8));
    let data = TabletToolData {
        force: None,
        tangential_force: None,
        twist: Some(90),
        tilt: None,
        angle: None,
    };
    let cases: Vec<(PointerKind, PointerSource<f64, f32>, ButtonSource<f64, f32>, PointerId)> = vec![
        (
            PointerKind::Mouse,
            PointerSource::Mouse,
            ButtonSource::Mouse(MouseButton::Other(9)),
            PointerId::Mouse,
        ),
        (
            PointerKind::Touch(finger_id),
            PointerSource::Touch { finger_id, force: None },
            ButtonSource::Touch { finger_id, force: None },
            PointerId::Touch(finger_id),
        ),
        (
            PointerKind::TabletTool(TabletToolKind::Eraser),
            PointerSource::TabletTool { kind: TabletToolKind::Eraser, data },
            ButtonSource::TabletTool {
                kind: TabletToolKind::Eraser,
                button: TabletToolButton::Barrel,
                data,
            },
            PointerId::TabletTool(PointerKind::TabletTool(TabletToolKind::Eraser)),
        ),
        (
            PointerKind::Unknown,
            PointerSource::Unknown,
            ButtonSource::Unknown(1),
            PointerId::Unknown { device_id, primary: false },
        ),
    ];
    for (kind, source, button, id) in cases {
        assert_eq!(PointerId::from_kind(kind, device_id, false), id);
        assert_eq!(PointerId::from_source(&source, device_id, false), id);
        assert_eq!(PointerId::from_button(&button, device_id, false), id);
        assert_eq!(button.pointer_kind(), kind);
        assert_eq!(source.pointer_kind(), kind);
    }
}

#[test]
fn buttons_are_told_apart_by_what_they_belong_to() {
    let finger_id = FingerId::from_raw(2);
    let touch: ButtonSource<f64, f32> = ButtonSource::Touch { finger_id, force: None };
    let mouse: ButtonSource<f64, f32> = ButtonSource::Mouse(MouseButton::Back);
    let other: ButtonSource<f64, f32> = ButtonSource::Unknown(7);
    assert_eq!(ButtonId::from_button_source(&touch), ButtonId::Touch(finger_id));
    assert_eq!(ButtonId::from_button_source(&mouse), ButtonId::Mouse(MouseButton::Back));
    assert_eq!(ButtonId::from_button_source(&other), ButtonId::Unknown(7));
}

#[test]
fn a_finger_counts_from_its_first_event_until_it_leaves() {
    let mut mapper = WindowInputMapper::new();
    let finger_id = FingerId::from_raw(6);
    let button = |state| WindowEvent::PointerButton {
        device_id: None,
        state,
        position: at(1.0, 1.0),
        primary: false,
        button: ButtonSource::Touch { finger_id, force: None },
    };
    collect(&mut mapper, &button(ElementState::Released));
    assert_eq!(mapper.touch_contact_count(), 1);
    collect(&mut mapper, &entered(PointerKind::Touch(finger_id), true, at(2.0, 2.0)));
    collect(&mut mapper, &button(ElementState::Pressed));
    collect(&mut mapper, &button(ElementState::Released));
    collect(&mut mapper, &entered(PointerKind::Mouse, true, at(3.0, 3.0)));
    collect(&mut mapper, &entered(PointerKind::Unknown, true, at(4.0, 4.0)));
    assert_eq!(mapper.touch_contact_count(), 1);
    collect(&mut mapper, &left(PointerKind::Touch(finger_id)));
    assert_eq!(mapper.touch_contact_count(), 0);
}

#[test]
fn input_is_named_by_what_it_reports() {
    let mut mapper = WindowInputMapper::new();
    let mut events = collect(&mut mapper, &entered(PointerKind::Unknown, true, at(1.0, 1.0)));
    events.extend(collect(&mut mapper, &mouse_button(ElementState::Pressed, MouseButton::Left)));
    events.extend(collect(
        &mut mapper,
        &entered(PointerKind::Touch(FingerId::from_raw(1)), false, at(2.0, 2.0)),
    ));
    events.extend(collect(&mut mapper, &left(PointerKind::Touch(FingerId::from_raw(1)))));
    events.extend(collect(&mut mapper, &left(PointerKind::Unknown)));
    events.extend(collect(&mut mapper, &WindowEvent::Focused(false)));
    assert_eq!(events.len(), 7);
    for event in events {
        let event = only_pointer(&[event]);
        assert_eq!(
            event.pointer_id,
            PointerId::from_kind(event.kind, event.device_id, event.primary)
        );
    }
}
