use winit_android::action::{Action, LoopAction};
use winit_android::android::{
    InputEvent, InputStatus, MainEvent, MotionAction, MotionEvent, MotionPointer, PollEvent,
    Source, ToolType,
};
use winit_android::event::{DeviceId, ElementState, FingerId, PointerKind, WindowEvent, WindowId};
use winit_android::event_loop::{
    EventLoop, EventLoopError, Iteration, IterationStep, Observed,
    PlatformSpecificEventLoopAttributes, PollOutcome, PumpAction, PumpStatus, PumpStep,
};
use winit_android::geometry::{PhysicalInsets, PhysicalPosition, PhysicalSize, ScaleFactor};
use winit_android::ime::{Ime, TextInputAction, TextInputState, TextSpan};
use winit_android::keyboard::{
    Key, KeyAction, KeyCode, KeyInput, KeyLocation, KeyMapChar, Keycode, NamedKey, PhysicalKey,
};
use winit_android::time::{min_timeout, ControlFlow, Duration, Instant, StartCause};
use winit_android::window::{
    ImeAction, ImeRequest, ImeRequestError, NotSupportedError, RequestError, Window,
};

type Step = Action<f64, f32>;
type Loop = EventLoop<f64>;

const QUIET: Observed = Observed { woken: false, redraw_requested: false, native_window: None };

fn attributes(ignore_volume_keys: bool) -> PlatformSpecificEventLoopAttributes<u8> {
    PlatformSpecificEventLoopAttributes { android_app: Some(0), ignore_volume_keys }
}

fn new_loop() -> Loop {
    EventLoop::new(&attributes(true), false, Some(320)).unwrap()
}

fn instant(nanos: i128) -> Instant {
    Instant { nanos }
}

fn duration(nanos: u128) -> Duration {
    Duration { nanos }
}

fn iterate(
    event_loop: &mut Loop,
    main_event: Option<MainEvent>,
    observed: Observed,
) -> Vec<Step> {
    let (mut iteration, mut actions) = event_loop.begin_iteration(main_event);
    while iteration.step != IterationStep::Done {
        let (next, more) = event_loop.continue_iteration_with(iteration, observed);
        iteration = next;
        actions.extend(more);
    }
    actions
}

fn resumed_loop() -> Loop {
    let mut event_loop = new_loop();
    iterate(&mut event_loop, Some(MainEvent::Resume), QUIET);
    event_loop
}

fn key(keycode: Keycode, action: KeyAction) -> InputEvent<f64, f32> {
    InputEvent::Key(KeyInput {
        device_id: 3,
        keycode,
        action,
        repeat_count: 0,
        key_char: Some(KeyMapChar::Unicode('a')),
        combining_accent: Some('^'),
        logical_text: Some(String::from("a")),
    })
}

fn touch_down(pointer_id: i32) -> InputEvent<f64, f32> {
    InputEvent::Motion(MotionEvent {
        device_id: 1,
        source: Source::Touchscreen,
        action: if pointer_id == 0 { MotionAction::Down } else { MotionAction::PointerDown },
        action_button: winit_android::android::Button::Other,
        pointer_index: 0,
        pointers: vec![MotionPointer {
            pointer_id,
            tool_type: ToolType::Finger,
            position: PhysicalPosition::new(1.0, 2.0),
            pressure: 1.0,
            horizontal_lines: 0.0,
            vertical_lines: 0.0,
        }],
    })
}

fn text(text: &str, compose_region: Option<TextSpan>) -> InputEvent<f64, f32> {
    let end = text.len();
    InputEvent::Text(TextInputState {
        text: String::from(text),
        selection: TextSpan { start: end, end },
        compose_region,
    })
}

#[test]
fn there_is_only_one_loop() {
    let error = EventLoop::<f64>::new(&attributes(true), true, None).err();
    assert_eq!(error, Some(EventLoopError::RecreationAttempt));
    let absent: PlatformSpecificEventLoopAttributes<u8> = Default::default();
    assert_eq!(absent.android_app, None);
    assert!(absent.ignore_volume_keys);
    assert!(EventLoop::<f64>::new(&absent, true, None).is_err());
}

#[test]
fn an_iteration_announces_itself_and_ends_with_waiting() {
    let mut event_loop = new_loop();
    assert_eq!(
        iterate(&mut event_loop, None, QUIET),
        vec![LoopAction::NewEvents(StartCause::Init), LoopAction::AboutToWait]
    );
}

#[test]
fn main_events_reach_the_application() {
    let cases: Vec<(MainEvent, Vec<Step>)> = vec![
        (MainEvent::InitWindow, vec![LoopAction::CanCreateSurfaces]),
        (MainEvent::TerminateWindow, vec![LoopAction::DestroySurfaces]),
        (MainEvent::LowMemory, vec![LoopAction::MemoryWarning]),
        (MainEvent::Start, vec![LoopAction::Resumed]),
        (MainEvent::Stop, vec![LoopAction::Suspended]),
        (
            MainEvent::GainedFocus,
            vec![
                LoopAction::SetFocus(true),
                LoopAction::WindowEvent(WindowEvent::Focused(true)),
            ],
        ),
        (
            MainEvent::LostFocus,
            vec![
                LoopAction::SetFocus(false),
                LoopAction::WindowEvent(WindowEvent::Focused(false)),
            ],
        ),
        (
            MainEvent::Destroy,
            vec![LoopAction::WindowEvent(WindowEvent::CloseRequested), LoopAction::Exit],
        ),
        (MainEvent::Resume, vec![]),
        (MainEvent::Pause, vec![]),
        (MainEvent::SaveState, vec![]),
        (MainEvent::InsetsChanged, vec![]),
        (MainEvent::ContentRectChanged, vec![]),
        (MainEvent::Other, vec![]),
    ];
    for (event, expected) in cases {
        let mut event_loop = new_loop();
        let (_, actions) = event_loop.begin_iteration::<f32>(Some(event));
        assert_eq!(actions[0], LoopAction::NewEvents(StartCause::Init));
        assert_eq!(actions[1..], expected[..]);
    }
}

#[test]
fn a_new_density_is_told_once() {
    let mut event_loop = new_loop();
    let size = PhysicalSize::new(10, 20);
    let same = MainEvent::ConfigChanged { density: Some(320), screen_size: size };
    let (_, actions) = event_loop.begin_iteration::<f32>(Some(same));
    assert_eq!(actions.len(), 1);
    let other = MainEvent::ConfigChanged { density: None, screen_size: size };
    let (_, actions) = event_loop.begin_iteration::<f32>(Some(other));
    assert_eq!(
        actions[1],
        LoopAction::WindowEvent(WindowEvent::ScaleFactorChanged {
            scale_factor: ScaleFactor { density: 160 },
            surface_size: size,
        })
    );
    let (_, actions) = event_loop.begin_iteration::<f32>(Some(other));
    assert_eq!(actions.len(), 1);
}

#[test]
fn resizing_is_reported_in_the_foreground_only() {
    let observed = Observed { native_window: Some((640, 480)), ..QUIET };
    let mut background = new_loop();
    let actions = iterate(&mut background, Some(MainEvent::WindowResized), observed);
    assert_eq!(actions.len(), 2);

    let mut foreground = resumed_loop();
    let actions = iterate(&mut foreground, Some(MainEvent::WindowResized), observed);
    assert_eq!(
        actions[1..],
        [
            LoopAction::WindowEvent(WindowEvent::SurfaceResized(PhysicalSize::new(640, 480))),
            LoopAction::AboutToWait,
        ]
    );
    let actions = iterate(&mut foreground, Some(MainEvent::WindowResized), QUIET);
    assert_eq!(
        actions[1],
        LoopAction::WindowEvent(WindowEvent::SurfaceResized(PhysicalSize::new(0, 0)))
    );
}

#[test]
fn wake_ups_come_first_and_redraws_last() {
    let mut event_loop = resumed_loop();
    let observed = Observed { woken: true, redraw_requested: true, native_window: None };
    assert_eq!(
        iterate(&mut event_loop, Some(MainEvent::WindowResized), observed)[1..],
        [
            LoopAction::ProxyWakeUp,
            LoopAction::WindowEvent(WindowEvent::SurfaceResized(PhysicalSize::new(0, 0))),
            LoopAction::WindowEvent(WindowEvent::RedrawRequested),
            LoopAction::AboutToWait,
        ]
    );
}

#[test]
fn a_redraw_waits_for_the_foreground() {
    let mut event_loop = new_loop();
    let actions = iterate(&mut event_loop, Some(MainEvent::RedrawNeeded), QUIET);
    assert_eq!(actions[1..], [LoopAction::AboutToWait]);
    let actions = iterate(&mut event_loop, None, QUIET);
    assert_eq!(actions[1..], [LoopAction::AboutToWait]);
    let actions = iterate(&mut event_loop, Some(MainEvent::Resume), QUIET);
    assert_eq!(
        actions[1..],
        [LoopAction::WindowEvent(WindowEvent::RedrawRequested), LoopAction::AboutToWait]
    );
    let actions = iterate(&mut event_loop, None, QUIET);
    assert_eq!(actions[1..], [LoopAction::AboutToWait]);
}

#[test]
fn wake_ups_are_passed_on_in_the_background() {
    let mut event_loop = new_loop();
    let proxy = event_loop.window_target().create_proxy();
    proxy.wake_up();
    assert!(proxy.is_pending());
    let start = instant(0);
    assert_eq!(event_loop.prepare_poll(start, None), Some(duration(0)));
    assert_eq!(
        event_loop.finish_poll(PollEvent::Wake, start, start),
        PollOutcome::Iterate(None)
    );
    let (iteration, _) = event_loop.begin_iteration::<f32>(None);
    let (iteration, actions) = event_loop.continue_iteration::<f32>(iteration, None);
    assert_eq!(actions, vec![LoopAction::ProxyWakeUp]);
    assert_eq!(iteration.step, IterationStep::Resize);
    assert!(!proxy.is_pending());
    assert_eq!(event_loop.finish_poll(PollEvent::Wake, start, start), PollOutcome::Ignore);
}

#[test]
fn redraw_requests_rest_in_the_background() {
    let mut event_loop = new_loop();
    let requester = event_loop.window_target().redraw_requester();
    assert!(requester.request_redraw());
    assert!(!requester.request_redraw());
    let start = instant(0);
    assert_eq!(event_loop.prepare_poll(start, None), None);
    assert!(requester.request_redraw());
    assert_eq!(event_loop.finish_poll(PollEvent::Wake, start, start), PollOutcome::Ignore);

    assert_eq!(
        event_loop.finish_poll(PollEvent::Main(MainEvent::Resume), start, start),
        PollOutcome::Iterate(Some(MainEvent::Resume))
    );
    let (mut iteration, mut actions) =
        event_loop.begin_iteration::<f32>(Some(MainEvent::Resume));
    while iteration.step != IterationStep::Done {
        let (next, more) = event_loop.continue_iteration(iteration, None);
        iteration = next;
        actions.extend(more);
    }
    assert!(actions.contains(&LoopAction::WindowEvent(WindowEvent::RedrawRequested)));

    assert!(requester.request_redraw());
    assert_eq!(event_loop.prepare_poll(start, None), Some(duration(0)));
    assert_eq!(
        event_loop.finish_poll(PollEvent::Wake, start, start),
        PollOutcome::Iterate(None)
    );
}

#[test]
fn a_request_during_an_iteration_is_drawn_in_it() {
    let mut event_loop = resumed_loop();
    let requester = event_loop.window_target().redraw_requester();
    let iteration =
        Iteration { step: IterationStep::Redraw, pending_redraw: false, resized: false };
    assert!(requester.request_redraw());
    let (after, actions) = event_loop.continue_iteration::<f32>(iteration, None);
    assert_eq!(actions, vec![LoopAction::WindowEvent(WindowEvent::RedrawRequested)]);
    assert_eq!(after.step, IterationStep::Wait);
    assert!(requester.request_redraw());
}

#[test]
fn the_loop_waits_as_long_as_it_may() {
    let mut event_loop = new_loop();
    let start = instant(1_000);
    let wait = |event_loop: &mut Loop, timeout| {
        event_loop.prepare_poll_with(start, timeout, false, false)
    };
    assert_eq!(wait(&mut event_loop, None), None);
    assert_eq!(wait(&mut event_loop, Some(duration(70))), Some(duration(70)));
    event_loop.window_target_mut().set_control_flow(ControlFlow::Poll);
    assert_eq!(wait(&mut event_loop, Some(duration(70))), Some(duration(0)));
    event_loop.window_target_mut().set_control_flow(ControlFlow::WaitUntil(instant(1_050)));
    assert_eq!(wait(&mut event_loop, Some(duration(70))), Some(duration(50)));
    assert_eq!(wait(&mut event_loop, Some(duration(20))), Some(duration(20)));
    assert_eq!(wait(&mut event_loop, None), Some(duration(50)));
    event_loop.window_target_mut().set_control_flow(ControlFlow::WaitUntil(instant(900)));
    assert_eq!(wait(&mut event_loop, None), Some(duration(0)));
}

#[test]
fn the_cause_tells_why_the_loop_runs() {
    let start = instant(5);
    let deadline = instant(10);
    let cause = |control_flow, now| {
        let mut event_loop = new_loop();
        event_loop.window_target_mut().set_control_flow(control_flow);
        assert_eq!(event_loop.window_target().control_flow(), control_flow);
        let outcome = event_loop.finish_poll_with(PollEvent::Timeout, start, now, false, false);
        assert_eq!(outcome, PollOutcome::Iterate(None));
        let (_, actions) = event_loop.begin_iteration::<f32>(None);
        actions[0].clone()
    };
    assert_eq!(cause(ControlFlow::Poll, instant(6)), LoopAction::NewEvents(StartCause::Poll));
    assert_eq!(
        cause(ControlFlow::Wait, instant(6)),
        LoopAction::NewEvents(StartCause::WaitCancelled { start, requested_resume: None })
    );
    assert_eq!(
        cause(ControlFlow::WaitUntil(deadline), instant(9)),
        LoopAction::NewEvents(StartCause::WaitCancelled {
            start,
            requested_resume: Some(deadline)
        })
    );
    assert_eq!(
        cause(ControlFlow::WaitUntil(deadline), deadline),
        LoopAction::NewEvents(StartCause::ResumeTimeReached {
            start,
            requested_resume: deadline
        })
    );
}

#[test]
fn unknown_poll_events_lead_to_an_iteration() {
    let mut event_loop = new_loop();
    let outcome = event_loop.finish_poll(PollEvent::Other, instant(0), instant(1));
    assert_eq!(outcome, PollOutcome::Iterate(None));
}

#[test]
fn a_batch_initialises_polls_and_goes_on() {
    let mut event_loop = new_loop();
    assert_eq!(event_loop.pump_app_events(PumpStep::Begin), PumpAction::Initialize);
    assert_eq!(event_loop.pump_app_events(PumpStep::Initialized), PumpAction::Poll);
    assert_eq!(
        event_loop.pump_app_events(PumpStep::Polled),
        PumpAction::Return(PumpStatus::Continue)
    );
    assert_eq!(event_loop.pump_app_events(PumpStep::Begin), PumpAction::Poll);
    event_loop.window_target_mut().exit();
    assert!(event_loop.window_target().exiting());
    assert_eq!(
        event_loop.pump_app_events(PumpStep::Polled),
        PumpAction::Return(PumpStatus::Exit(0))
    );
}

#[test]
fn exiting_during_the_first_iteration_skips_polling_and_the_loop_begins_anew() {
    let mut event_loop = new_loop();
    assert_eq!(event_loop.run_app_on_demand(None), None);
    assert_eq!(event_loop.pump_app_events(PumpStep::Begin), PumpAction::Initialize);
    event_loop.window_target_mut().exit();
    assert_eq!(
        event_loop.pump_app_events(PumpStep::Initialized),
        PumpAction::Return(PumpStatus::Exit(0))
    );
    assert_eq!(event_loop.run_app_on_demand(Some(PumpStatus::Exit(0))), Some(Ok(())));

    event_loop.finish_poll(PollEvent::Timeout, instant(0), instant(1));
    assert_eq!(event_loop.run_app_on_demand(None), None);
    assert!(!event_loop.window_target().exiting());
    assert_eq!(event_loop.pump_app_events(PumpStep::Begin), PumpAction::Initialize);
    let (_, actions) = event_loop.begin_iteration::<f32>(None);
    assert_eq!(actions, vec![LoopAction::NewEvents(StartCause::Init)]);
}

#[test]
fn running_ends_with_the_code_of_the_exit() {
    let mut event_loop = new_loop();
    assert_eq!(event_loop.run_app_on_demand(Some(PumpStatus::Continue)), None);
    assert_eq!(
        event_loop.run_app_on_demand(Some(PumpStatus::Exit(3))),
        Some(Err(EventLoopError::ExitFailure(3)))
    );
}

#[test]
fn volume_keys_are_left_to_the_system() {
    let mut event_loop = new_loop();
    for keycode in [Keycode::VolumeUp, Keycode::VolumeDown, Keycode::VolumeMute] {
        let (status, actions) = event_loop.handle_input_event(&key(keycode, KeyAction::Down));
        assert_eq!(status, InputStatus::Unhandled);
        assert!(actions.is_empty());
        assert!(event_loop.ignores_key(&keycode));
    }
    assert_eq!(event_loop.combining_accent(), None);

    let mut event_loop: Loop = EventLoop::new(&attributes(false), false, None).unwrap();
    let (status, actions) =
        event_loop.handle_input_event(&key(Keycode::VolumeUp, KeyAction::Down));
    assert_eq!(status, InputStatus::Handled);
    assert_eq!(actions.len(), 1);
}

#[test]
fn a_key_types_text_when_it_goes_down() {
    let mut event_loop = new_loop();
    let keycode = Keycode::Other(29);
    let (status, actions) = event_loop.handle_input_event(&key(keycode, KeyAction::Down));
    assert_eq!(status, InputStatus::Handled);
    assert_eq!(event_loop.combining_accent(), Some('^'));
    let input = match &actions[0] {
        LoopAction::KeyboardInput(input) => input,
        other => panic!("not a key: {other:?}"),
    };
    assert_eq!(input.device_id, Some(DeviceId::from_raw(3)));
    assert!(!input.is_synthetic);
    assert_eq!(input.event.state, ElementState::Pressed);
    assert_eq!(input.event.physical_key, PhysicalKey::Mapped(keycode));
    assert_eq!(input.event.location, KeyLocation::Mapped(keycode));
    let meaning = Key::Mapped { key_char: Some(KeyMapChar::Unicode('a')), keycode };
    assert_eq!(input.event.logical_key, meaning);
    assert_eq!(input.event.key_without_modifiers, meaning);
    assert!(!input.event.repeat);
    assert_eq!(input.event.text.as_ref().map(|text| text.as_str()), Some("a"));
    assert_eq!(input.event.text_with_all_modifiers, Some(smol_str::SmolStr::new("a")));

    for action in [KeyAction::Up, KeyAction::Other] {
        let (_, actions) = event_loop.handle_input_event(&key(keycode, action));
        let input = match &actions[0] {
            LoopAction::KeyboardInput(input) => input,
            other => panic!("not a key: {other:?}"),
        };
        assert_eq!(input.event.state, ElementState::Released);
        assert_eq!(input.event.text, None);
        assert_eq!(input.event.text_with_all_modifiers, None);
    }
}

#[test]
fn a_held_key_repeats() {
    let mut event_loop = new_loop();
    let held = InputEvent::Key(KeyInput {
        device_id: -1,
        keycode: Keycode::Other(1),
        action: KeyAction::Down,
        repeat_count: 2,
        key_char: None,
        combining_accent: None,
        logical_text: None,
    });
    let (_, actions): (InputStatus, Vec<Step>) = event_loop.handle_input_event(&held);
    assert!(matches!(
        &actions[0],
        LoopAction::KeyboardInput(input)
            if input.event.repeat && input.device_id == Some(DeviceId::from_raw(-1))
    ));
}

#[test]
fn composed_text_is_shown_and_other_text_committed() {
    let mut event_loop = new_loop();
    let composing = text("hello", Some(TextSpan { start: 1, end: 3 }));
    assert_eq!(
        event_loop.handle_input_event(&composing),
        (
            InputStatus::Handled,
            vec![LoopAction::Ime(Ime::Preedit(String::from("el"), Some((2, 2))))]
        )
    );
    assert_eq!(
        event_loop.handle_input_event(&text("hello", None)),
        (
            InputStatus::Handled,
            vec![
                LoopAction::Ime(Ime::Preedit(String::new(), None)),
                LoopAction::Ime(Ime::Commit(String::from("hello"))),
                LoopAction::ResetTextInput,
            ]
        )
    );
    assert_eq!(event_loop.handle_input_event(&text("", None)), (InputStatus::Handled, vec![]));
}

#[test]
fn a_span_through_a_character_is_not_composed() {
    let mut event_loop = new_loop();
    let half = text("\u{e9}t\u{e9}", Some(TextSpan { start: 1, end: 3 }));
    let (_, actions) = event_loop.handle_input_event(&half);
    assert_eq!(actions.len(), 3);
    let whole = text("\u{e9}t\u{e9}", Some(TextSpan { start: 0, end: 3 }));
    let (_, actions) = event_loop.handle_input_event(&whole);
    assert_eq!(
        actions,
        vec![LoopAction::Ime(Ime::Preedit(String::from("\u{e9}t"), Some((3, 3))))]
    );
}

#[test]
fn the_cursor_is_where_the_selection_starts() {
    let preedit = |selection| {
        winit_android::ime::ime_preedit_from_state(&TextInputState {
            text: String::from("abcdef"),
            selection,
            compose_region: Some(TextSpan { start: 2, end: 5 }),
        })
    };
    let cde = String::from("cde");
    assert_eq!(preedit(TextSpan { start: 4, end: 3 }), Some((cde.clone(), Some((1, 1)))));
    assert_eq!(preedit(TextSpan { start: 2, end: 6 }), Some((cde.clone(), Some((0, 0)))));
    assert_eq!(preedit(TextSpan { start: 5, end: 5 }), Some((cde.clone(), Some((3, 3)))));
    assert_eq!(preedit(TextSpan { start: 0, end: 4 }), Some((cde, Some((3, 3)))));
}

#[test]
fn empty_and_overlong_spans_are_not_composed() {
    let preedit = |start, end| {
        winit_android::ime::ime_preedit_from_state(&TextInputState {
            text: String::from("abc"),
            selection: TextSpan { start: 0, end: 0 },
            compose_region: Some(TextSpan { start, end }),
        })
    };
    assert_eq!(preedit(1, 1), None);
    assert_eq!(preedit(2, 1), None);
    assert_eq!(preedit(1, 4), None);
    assert_eq!(preedit(0, 3), Some((String::from("abc"), Some((0, 0)))));
}

#[test]
fn soft_keyboard_actions_press_keys() {
    let mut event_loop = new_loop();
    let mut pressed = |action| {
        let event: InputEvent<f64, f32> = InputEvent::TextAction(action);
        let (status, actions) = event_loop.handle_input_event(&event);
        assert_eq!(status, InputStatus::Handled);
        match actions.first() {
            Some(LoopAction::KeyboardInput(input)) => {
                assert_eq!(input.device_id, None);
                assert_eq!(input.event.state, ElementState::Pressed);
                assert_eq!(input.event.location, KeyLocation::Standard);
                assert_eq!(input.event.text, None);
                Some((input.event.logical_key, input.event.physical_key))
            },
            _ => None,
        }
    };
    let enter = Some((Key::Named(NamedKey::Enter), PhysicalKey::Code(KeyCode::Enter)));
    for action in [
        TextInputAction::Unspecified,
        TextInputAction::NoAction,
        TextInputAction::Go,
        TextInputAction::Search,
        TextInputAction::Send,
        TextInputAction::Done,
    ] {
        assert_eq!(pressed(action), enter);
    }
    assert_eq!(
        pressed(TextInputAction::Next),
        Some((Key::Named(NamedKey::Tab), PhysicalKey::Code(KeyCode::Tab)))
    );
    assert_eq!(pressed(TextInputAction::Previous), None);
    assert_eq!(pressed(TextInputAction::Other), None);
}

#[test]
fn unknown_input_is_handled_without_effect() {
    let mut event_loop = new_loop();
    let event: InputEvent<f64, f32> = InputEvent::Other;
    assert_eq!(event_loop.handle_input_event(&event), (InputStatus::Handled, vec![]));
}

#[test]
fn losing_the_focus_or_the_window_lets_the_fingers_leave() {
    for event in [MainEvent::LostFocus, MainEvent::TerminateWindow] {
        let mut event_loop = new_loop();
        event_loop.handle_input_event(&touch_down(0));
        event_loop.handle_input_event(&touch_down(1));
        let (_, actions) = event_loop.begin_iteration::<f32>(Some(event));
        let fingers: Vec<usize> = actions
            .iter()
            .filter_map(|action| match action {
                LoopAction::WindowEvent(WindowEvent::PointerLeft {
                    kind: PointerKind::Touch(FingerId(id)),
                    ..
                }) => Some(*id),
                _ => None,
            })
            .collect();
        assert_eq!(fingers, vec![0, 1]);
        let gestures =
            actions.iter().filter(|action| matches!(action, LoopAction::TouchGesture(_))).count();
        assert_eq!(gestures, 3);
        let (_, actions) = event_loop.begin_iteration::<f32>(Some(event));
        assert!(actions.len() <= 3);
    }
}

#[test]
fn timeouts_without_limit_are_the_longest() {
    assert_eq!(min_timeout(None, None), None);
    assert_eq!(min_timeout(Some(duration(0)), None), Some(duration(0)));
    assert_eq!(min_timeout(None, Some(duration(7))), Some(duration(7)));
    assert_eq!(min_timeout(Some(duration(9)), Some(duration(7))), Some(duration(7)));
}

#[test]
fn time_until_a_past_point_is_nothing() {
    assert_eq!(instant(-5).saturating_duration_since(instant(5)), duration(0));
    assert_eq!(instant(5).saturating_duration_since(instant(-5)), duration(10));
    let all = instant(i128::MAX).saturating_duration_since(instant(i128::MIN));
    assert_eq!(all, duration(u128::MAX));
}

#[test]
fn text_input_is_enabled_once() {
    let event_loop = new_loop();
    let mut window: Window<u8> = event_loop.window_target().create_window().unwrap();
    assert_eq!(window.request_ime_update(ImeRequest::Update), Err(ImeRequestError::NotEnabled));
    assert_eq!(
        window.request_ime_update(ImeRequest::Enable(1)),
        Ok(vec![ImeAction::ResetTextInput, ImeAction::ShowSoftInput])
    );
    assert_eq!(
        window.request_ime_update(ImeRequest::Enable(2)),
        Err(ImeRequestError::AlreadyEnabled)
    );
    assert_eq!(window.ime_capabilities(), Some(1));
    assert_eq!(window.request_ime_update(ImeRequest::Update), Ok(vec![]));
    assert_eq!(
        window.request_ime_update(ImeRequest::Disable),
        Ok(vec![ImeAction::ResetTextInput, ImeAction::HideSoftInput])
    );
    assert_eq!(window.ime_capabilities(), None);
    assert_eq!(
        window.request_ime_update(ImeRequest::Disable),
        Ok(vec![ImeAction::ResetTextInput, ImeAction::HideSoftInput])
    );
}

#[test]
fn the_window_draws_on_request_and_fills_the_screen() {
    let mut event_loop = resumed_loop();
    let window: Window<u8> = event_loop.window_target().create_window().unwrap();
    assert!(window.request_redraw());
    assert!(!window.request_redraw());
    assert_eq!(event_loop.prepare_poll(instant(0), None), Some(duration(0)));

    assert_eq!(window.id(), WindowId(0));
    assert_eq!(window.scale_factor(Some(240)), ScaleFactor { density: 240 });
    assert_eq!(window.surface_size(Some((3, 4))), PhysicalSize::new(3, 4));
    assert_eq!(window.request_surface_size(None), Some(PhysicalSize::new(0, 0)));
    assert_eq!(window.surface_position(), PhysicalPosition::new(0, 0));
    assert_eq!(window.safe_area(), PhysicalInsets::new(0, 0, 0, 0));
    assert_eq!(window.surface_resize_increments(), None);
    assert_eq!(window.is_visible(), None);
    assert_eq!(window.is_minimized(), None);
    assert!(!window.is_resizable() && !window.is_maximized() && window.is_decorated());
    let buttons = window.enabled_buttons();
    assert!(buttons.close && buttons.minimize && buttons.maximize);
    assert_eq!(window.title(), "");
}

#[test]
fn what_a_window_cannot_do_is_refused() {
    let event_loop = new_loop();
    let window: Window<u8> = event_loop.window_target().create_window().unwrap();
    let refused = |reason| RequestError::NotSupported(NotSupportedError { reason });
    assert_eq!(window.outer_position(), Err(refused("outer_position is not supported")));
    assert_eq!(window.set_cursor_position(), Err(refused("set_cursor_position is not supported")));
    assert_eq!(window.set_cursor_grab(), Err(refused("set_cursor_grab is not supported")));
    assert_eq!(window.drag_window(), Err(refused("drag_window is not supported")));
    assert_eq!(window.drag_resize_window(), Err(refused("drag_resize_window")));
    assert_eq!(window.set_cursor_hittest(), Err(refused("set_cursor_hittest is not supported")));
    assert_eq!(
        event_loop.window_target().create_custom_cursor(),
        Err(refused("create_custom_cursor is not supported"))
    );
}
