//! The event loop of an activity: what it does next, given what the system reports.
//!
//! The loop itself touches nothing outside. Each call takes what was observed and returns the
//! steps that are to be performed, in their order.
use vstd::prelude::*;

use crate::action::{Action, ActionView, LoopAction};
use crate::android::{InputEvent, InputStatus, MainEvent, PollEvent};
use crate::event::WindowEvent;
use crate::flag::{EventLoopProxy, RedrawRequester, SharedFlag};
use crate::geometry::{screen_size, ScaleFactor};
use crate::ime::{ime_preedit_from_state, text_action_keyboard_event, Ime, TextInputState};
use crate::keyboard::{keyboard_input, KeyInput, Keycode};
use crate::time::{min_timeout, ControlFlow, Duration, Instant, StartCause};
use crate::touch::{TouchTracker, Touches};
use crate::{action, flag, geometry, ime, keyboard, motion, time, touch};
use std::sync::atomic::AtomicBool;
use std::sync::Arc;

verus! {

#[derive(Clone, Copy, Debug, PartialEq, Eq, Structural)]
pub enum EventLoopError {
    /// There is an event loop already.
    RecreationAttempt,
    /// The loop ended with this code.
    ExitFailure(i32),
}

/// Whether the loop goes on after a batch of events.
#[derive(Clone, Copy, Debug, PartialEq, Eq, Structural)]
pub enum PumpStatus {
    Continue,
    Exit(i32),
}

/// How a loop is to be made. `A` is the type of the handle of the Android application.
#[derive(Clone, Debug, PartialEq, Eq, Hash)]
pub struct PlatformSpecificEventLoopAttributes<A> {
    pub android_app: Option<A>,
    pub ignore_volume_keys: bool,
}

impl<A> Default for PlatformSpecificEventLoopAttributes<A> {
    fn default() -> (attributes: Self)
        ensures
            attributes.android_app is None,
            attributes.ignore_volume_keys,
    {
        PlatformSpecificEventLoopAttributes { android_app: None, ignore_volume_keys: true }
    }
}

/// What an application has set about the loop, and the flags by which it reaches the loop.
pub struct Target {
    pub control_flow: ControlFlow,
    pub exiting: bool,
    /// The flag that is raised to ask for a redraw.
    pub redraw_flag: AtomicBool,
    pub proxy: EventLoopProxy,
}

/// The side of the loop that the application sees while it handles an event.
#[derive(Debug)]
pub struct ActiveEventLoop {
    control_flow: ControlFlow,
    exit: bool,
    redraw_requester: RedrawRequester,
    event_loop_proxy: Arc<EventLoopProxy>,
}

impl View for ActiveEventLoop {
    type V = Target;

    closed spec fn view(&self) -> Target {
        Target {
            control_flow: self.control_flow,
            exiting: self.exit,
            redraw_flag: self.redraw_requester.flag(),
            proxy: *self.event_loop_proxy,
        }
    }
}

impl ActiveEventLoop {
    fn new(redraw_flag: &SharedFlag) -> (target: Self)
        ensures
            target@.control_flow == ControlFlow::Wait,
            !target@.exiting,
            target@.redraw_flag == redraw_flag.flag(),
            flag::made_down(target@.proxy.flag()),
    {
        ActiveEventLoop {
            control_flow: ControlFlow::default(),
            exit: false,
            redraw_requester: RedrawRequester::new(redraw_flag),
            event_loop_proxy: Arc::new(EventLoopProxy::new()),
        }
    }

    pub fn set_control_flow(&mut self, control_flow: ControlFlow)
        ensures
            final(self)@ == (Target { control_flow, ..old(self)@ }),
    {
        self.control_flow = control_flow;
    }

    pub fn control_flow(&self) -> (control_flow: ControlFlow)
        ensures
            control_flow == self@.control_flow,
    {
        self.control_flow
    }

    pub fn exit(&mut self)
        ensures
            final(self)@ == (Target { exiting: true, ..old(self)@ }),
    {
        self.exit = true;
    }

    pub fn exiting(&self) -> (exiting: bool)
        ensures
            exiting == self@.exiting,
    {
        self.exit
    }

    fn clear_exit(&mut self)
        ensures
            final(self)@ == (Target { exiting: false, ..old(self)@ }),
    {
        self.exit = false;
    }

    /// A handle by which the loop can be woken up from anywhere.
    pub fn create_proxy(&self) -> (proxy: Arc<EventLoopProxy>)
        ensures
            *proxy == self@.proxy,
    {
        self.event_loop_proxy.clone()
    }

    /// A handle by which a redraw can be asked for from anywhere.
    pub fn redraw_requester(&self) -> (requester: RedrawRequester)
        ensures
            requester.flag() == self@.redraw_flag,
    {
        self.redraw_requester.clone()
    }
}

/// The state of a loop, as contracts speak of it.
#[verifier::ext_equal]
pub struct LoopState<D> {
    pub target: Target,
    /// The flag that is read to learn whether a redraw was asked for.
    pub redraw_flag: AtomicBool,
    /// The loop has begun: the application was told of the first batch of events.
    pub loop_running: bool,
    /// The activity is in the foreground.
    pub running: bool,
    /// The window is to be drawn as soon as the activity is in the foreground.
    pub pending_redraw: bool,
    pub cause: StartCause,
    pub touches: Touches<D>,
    pub scale_factor: ScaleFactor,
    pub ignore_volume_keys: bool,
    pub combining_accent: Option<char>,
}

/// The steps that a main event asks for.
pub open spec fn main_event_actions<D, S>(state: LoopState<D>, event: MainEvent) -> Seq<
    ActionView<D, S>,
> {
    match event {
        MainEvent::InitWindow => seq![LoopAction::CanCreateSurfaces],
        MainEvent::TerminateWindow => touch::abandon_actions::<D, S>(state.touches).push(
            LoopAction::DestroySurfaces,
        ),
        MainEvent::GainedFocus => seq![
            LoopAction::SetFocus(true),
            LoopAction::WindowEvent(WindowEvent::Focused(true)),
        ],
        MainEvent::LostFocus => seq![LoopAction::SetFocus(false)] + touch::abandon_actions::<D, S>(
            state.touches,
        ).push(LoopAction::WindowEvent(WindowEvent::Focused(false))),
        MainEvent::ConfigChanged { density, screen_size } => {
            let scale_factor = ScaleFactor::of(density);
            if scale_factor != state.scale_factor {
                seq![
                    LoopAction::WindowEvent(
                        WindowEvent::ScaleFactorChanged { scale_factor, surface_size: screen_size },
                    ),
                ]
            } else {
                Seq::empty()
            }
        },
        MainEvent::LowMemory => seq![LoopAction::MemoryWarning],
        MainEvent::Start => seq![LoopAction::Resumed],
        MainEvent::Stop => seq![LoopAction::Suspended],
        MainEvent::Destroy => seq![
            LoopAction::WindowEvent(WindowEvent::CloseRequested),
            LoopAction::Exit,
        ],
        _ => Seq::empty(),
    }
}

/// The state after a main event.
pub open spec fn after_main_event<D>(state: LoopState<D>, event: MainEvent) -> LoopState<D> {
    match event {
        MainEvent::TerminateWindow | MainEvent::LostFocus => LoopState {
            touches: touch::no_touches(),
            ..state
        },
        MainEvent::ConfigChanged { density, .. } => LoopState {
            scale_factor: ScaleFactor::of(density),
            ..state
        },
        MainEvent::Resume => LoopState { running: true, ..state },
        MainEvent::Pause => LoopState { running: false, ..state },
        _ => state,
    }
}

/// What is left to do in an iteration once the input has been handled.
#[derive(Clone, Copy, Debug, PartialEq, Eq, Structural)]
pub enum IterationStep {
    /// Pass on that the loop was woken up.
    Proxy,
    /// Report the new size of the window.
    Resize,
    /// Have the window drawn.
    Redraw,
    /// Tell the application that the loop is about to wait.
    Wait,
    Done,
}

/// An iteration under way.
#[derive(Clone, Copy, Debug, PartialEq, Eq, Structural)]
pub struct Iteration {
    pub step: IterationStep,
    pub pending_redraw: bool,
    pub resized: bool,
}

/// An iteration that begins with a main event, or with none.
pub open spec fn iteration_with<D>(
    state: LoopState<D>,
    main_event: Option<MainEvent>,
) -> Iteration {
    Iteration {
        step: IterationStep::Proxy,
        pending_redraw: state.pending_redraw || main_event == Some(MainEvent::RedrawNeeded),
        resized: main_event == Some(MainEvent::WindowResized),
    }
}

/// The steps with which an iteration begins.
pub open spec fn beginning_actions<D, S>(
    state: LoopState<D>,
    main_event: Option<MainEvent>,
) -> Seq<ActionView<D, S>> {
    let new_events = Seq::<ActionView<D, S>>::empty().push(LoopAction::NewEvents(state.cause));
    match main_event {
        Some(event) => new_events + main_event_actions(state, event),
        None => new_events,
    }
}

/// The state when an iteration has begun.
pub open spec fn after_beginning<D>(
    state: LoopState<D>,
    main_event: Option<MainEvent>,
) -> LoopState<D> {
    match main_event {
        Some(event) => after_main_event(state, event),
        None => state,
    }
}

/// What was observed between two steps of an iteration.
#[derive(Clone, Copy, Debug, PartialEq, Eq)]
pub struct Observed {
    /// The loop was woken up through a proxy.
    pub woken: bool,
    /// A redraw was asked for.
    pub redraw_requested: bool,
    /// The width and the height of the native window, if there is one.
    pub native_window: Option<(i32, i32)>,
}

/// What the next step of an iteration asks for.
pub open spec fn step_actions<D, S>(
    running: bool,
    iteration: Iteration,
    observed: Observed,
) -> Seq<ActionView<D, S>> {
    match iteration.step {
        IterationStep::Proxy => if observed.woken {
            seq![LoopAction::ProxyWakeUp]
        } else {
            Seq::empty()
        },
        IterationStep::Resize => if running && iteration.resized {
            seq![
                LoopAction::WindowEvent(
                    WindowEvent::SurfaceResized(geometry::window_size(observed.native_window)),
                ),
            ]
        } else {
            Seq::empty()
        },
        IterationStep::Redraw => if running && (iteration.pending_redraw
            || observed.redraw_requested) {
            seq![LoopAction::WindowEvent(WindowEvent::RedrawRequested)]
        } else {
            Seq::empty()
        },
        IterationStep::Wait => seq![LoopAction::AboutToWait],
        IterationStep::Done => Seq::empty(),
    }
}

/// The iteration after its next step. A redraw that is due stays so unless it takes place, which
/// it does only in the foreground.
pub open spec fn iteration_after(running: bool, iteration: Iteration) -> Iteration {
    match iteration.step {
        IterationStep::Proxy => Iteration { step: IterationStep::Resize, ..iteration },
        IterationStep::Resize => Iteration { step: IterationStep::Redraw, ..iteration },
        IterationStep::Redraw => Iteration {
            step: IterationStep::Wait,
            pending_redraw: iteration.pending_redraw && !running,
            ..iteration
        },
        IterationStep::Wait | IterationStep::Done => Iteration {
            step: IterationStep::Done,
            ..iteration
        },
    }
}

/// The state after the next step of an iteration.
pub open spec fn after_step<D>(state: LoopState<D>, iteration: Iteration) -> LoopState<D> {
    if iteration.step == IterationStep::Wait {
        LoopState { pending_redraw: iteration.pending_redraw, ..state }
    } else {
        state
    }
}

/// The steps that a change of the text under edit asks for. While text is being composed it is
/// handed on as such; other text is committed, and the text under edit emptied.
pub open spec fn text_actions<D, S>(input: TextInputState) -> Seq<ActionView<D, S>> {
    match ime::preedit_of(input.text@, input.selection, input.compose_region) {
        Some((composed, cursor)) => seq![
            LoopAction::Ime(Ime::Preedit(composed, Some((cursor, cursor)))),
        ],
        None => if input.text@.len() > 0 {
            seq![
                LoopAction::Ime(Ime::Preedit(Seq::empty(), None)),
                LoopAction::Ime(Ime::Commit(input.text@)),
                LoopAction::ResetTextInput,
            ]
        } else {
            Seq::empty()
        },
    }
}

/// What becomes of the loop with an input event, what follows, and whether the system should go on
/// with the event itself.
pub open spec fn input_outcome<D, S>(
    state: LoopState<D>,
    event: InputEvent<D, S>,
) -> (LoopState<D>, Seq<ActionView<D, S>>, InputStatus) {
    match event {
        InputEvent::Motion(motion) => {
            let outcome = motion::motion_outcome(state.touches, motion);
            (LoopState { touches: outcome.0, ..state }, outcome.1, InputStatus::Handled)
        },
        InputEvent::Key(key) => if state.ignore_volume_keys && key.keycode.changes_volume() {
            (state, Seq::empty(), InputStatus::Unhandled)
        } else {
            (
                LoopState { combining_accent: key.combining_accent, ..state },
                seq![LoopAction::KeyboardInput(keyboard::keyboard_input_of(key))],
                InputStatus::Handled,
            )
        },
        InputEvent::Text(input) => (state, text_actions(input), InputStatus::Handled),
        InputEvent::TextAction(action) => (
            state,
            match ime::key_of_action(action) {
                Some((named, code)) => seq![
                    LoopAction::KeyboardInput(ime::bare_press(named, code)),
                ],
                None => Seq::empty(),
            },
            InputStatus::Handled,
        ),
        InputEvent::Other => (state, Seq::empty(), InputStatus::Handled),
    }
}

/// Whether an input event is complete: a motion has the pointer that it is about.
pub open spec fn is_complete<D, S>(event: InputEvent<D, S>) -> bool {
    match event {
        InputEvent::Motion(motion) => motion::has_its_pointer(motion),
        _ => true,
    }
}

/// Whether the loop has something to do at once: it was woken up through a proxy, or the window is
/// to be drawn and the activity is in the foreground.
pub open spec fn has_work(running: bool, pending_redraw: bool, woken: bool) -> bool {
    woken || (running && pending_redraw)
}

/// How long the application lets the loop wait.
pub open spec fn control_flow_timeout(control_flow: ControlFlow, start: Instant) -> Option<
    Duration,
> {
    match control_flow {
        ControlFlow::Wait => None,
        ControlFlow::Poll => Some(Duration { nanos: 0 }),
        ControlFlow::WaitUntil(deadline) => Some(deadline.since(start)),
    }
}

/// How long the loop waits for the next event.
pub open spec fn poll_timeout<D>(
    state: LoopState<D>,
    start: Instant,
    timeout: Option<Duration>,
    woken: bool,
) -> Option<Duration> {
    if has_work(state.running, state.pending_redraw, woken) {
        Some(Duration { nanos: 0 })
    } else {
        time::shorter(control_flow_timeout(state.target.control_flow, start), timeout)
    }
}

/// Why the loop runs again after it waited from `start` until `now`.
pub open spec fn wake_cause(control_flow: ControlFlow, start: Instant, now: Instant) -> StartCause {
    match control_flow {
        ControlFlow::Poll => StartCause::Poll,
        ControlFlow::Wait => StartCause::WaitCancelled { start, requested_resume: None },
        ControlFlow::WaitUntil(deadline) => if now.nanos < deadline.nanos {
            StartCause::WaitCancelled { start, requested_resume: Some(deadline) }
        } else {
            StartCause::ResumeTimeReached { start, requested_resume: deadline }
        },
    }
}

/// What the end of a wait leads to.
#[derive(Clone, Copy, Debug, PartialEq, Eq)]
pub enum PollOutcome {
    /// Nothing; the loop was woken for no reason.
    Ignore,
    /// An iteration, with a main event or without.
    Iterate(Option<MainEvent>),
}

/// The loop with a redraw noted, if one was asked for.
pub open spec fn with_redraw<D>(state: LoopState<D>, redraw_requested: bool) -> LoopState<D> {
    LoopState { pending_redraw: state.pending_redraw || redraw_requested, ..state }
}

/// The main event that a wait ended with.
pub open spec fn main_event_of(event: PollEvent) -> Option<MainEvent> {
    match event {
        PollEvent::Main(event) => Some(event),
        _ => None,
    }
}

/// What the end of a wait leads to. A redraw that was asked for, and whether a proxy woke the
/// loop, only matter if the loop was woken up.
pub open spec fn poll_outcome<D>(
    state: LoopState<D>,
    event: PollEvent,
    start: Instant,
    now: Instant,
    redraw_requested: bool,
    woken: bool,
) -> (LoopState<D>, PollOutcome) {
    let noted = if event == PollEvent::Wake {
        with_redraw(state, redraw_requested)
    } else {
        state
    };
    if event == PollEvent::Wake && !has_work(noted.running, noted.pending_redraw, woken) {
        (noted, PollOutcome::Ignore)
    } else {
        (
            LoopState { cause: wake_cause(noted.target.control_flow, start, now), ..noted },
            PollOutcome::Iterate(main_event_of(event)),
        )
    }
}

/// How far a batch of events has got.
#[derive(Clone, Copy, Debug, PartialEq, Eq, Structural)]
pub enum PumpStep {
    /// The batch begins.
    Begin,
    /// The first iteration of the loop is over.
    Initialized,
    /// Events were waited for and handled.
    Polled,
}

/// What a batch of events goes on with.
#[derive(Clone, Copy, Debug, PartialEq, Eq, Structural)]
pub enum PumpAction {
    /// Run the first iteration of the loop.
    Initialize,
    /// Wait for events and handle them.
    Poll,
    /// The batch is over.
    Return(PumpStatus),
}

/// The end of a batch: the loop is over if it was told to exit.
pub open spec fn pump_end<D>(state: LoopState<D>) -> (LoopState<D>, PumpAction) {
    if state.target.exiting {
        (LoopState { loop_running: false, ..state }, PumpAction::Return(PumpStatus::Exit(0)))
    } else {
        (state, PumpAction::Return(PumpStatus::Continue))
    }
}

/// What a batch of events goes on with. A loop that has not begun is set to its beginning first,
/// and one that was told to exit does not wait for events any more.
pub open spec fn pump_outcome<D>(state: LoopState<D>, step: PumpStep) -> (
    LoopState<D>,
    PumpAction,
) {
    match step {
        PumpStep::Begin => if !state.loop_running {
            (
                LoopState {
                    loop_running: true,
                    pending_redraw: false,
                    cause: StartCause::Init,
                    ..state
                },
                PumpAction::Initialize,
            )
        } else if !state.target.exiting {
            (state, PumpAction::Poll)
        } else {
            pump_end(state)
        },
        PumpStep::Initialized => if !state.target.exiting {
            (state, PumpAction::Poll)
        } else {
            pump_end(state)
        },
        PumpStep::Polled => pump_end(state),
    }
}

/// The event loop of an activity.
pub struct EventLoop<D> {
    window_target: ActiveEventLoop,
    redraw_flag: SharedFlag,
    loop_running: bool,
    running: bool,
    pending_redraw: bool,
    cause: StartCause,
    touches: TouchTracker<D>,
    display_scale_factor: ScaleFactor,
    ignore_volume_keys: bool,
    combining_accent: Option<char>,
}

impl<D> View for EventLoop<D> {
    type V = LoopState<D>;

    closed spec fn view(&self) -> LoopState<D> {
        LoopState {
            target: self.window_target@,
            redraw_flag: self.redraw_flag.flag(),
            loop_running: self.loop_running,
            running: self.running,
            pending_redraw: self.pending_redraw,
            cause: self.cause,
            touches: self.touches@,
            scale_factor: self.display_scale_factor,
            ignore_volume_keys: self.ignore_volume_keys,
            combining_accent: self.combining_accent,
        }
    }
}

/// A loop that has not begun. The flag that it reads is the one that is raised to ask it for a
/// redraw.
pub open spec fn fresh_loop<D>(
    ignore_volume_keys: bool,
    density: Option<u32>,
    redraw_flag: AtomicBool,
    proxy: EventLoopProxy,
) -> LoopState<D> {
    LoopState {
        target: Target { control_flow: ControlFlow::Wait, exiting: false, redraw_flag, proxy },
        redraw_flag,
        loop_running: false,
        running: false,
        pending_redraw: false,
        cause: StartCause::Init,
        touches: touch::no_touches(),
        scale_factor: ScaleFactor::of(density),
        ignore_volume_keys,
        combining_accent: None,
    }
}

impl<D: Copy> EventLoop<D> {
    /// Makes a loop for a display of the given density. `created_before` tells whether there is a
    /// loop already, and there can only be one.
    pub fn new<A>(
        attributes: &PlatformSpecificEventLoopAttributes<A>,
        created_before: bool,
        density: Option<u32>,
    ) -> (event_loop: Result<Self, EventLoopError>)
        requires
            !created_before ==> attributes.android_app is Some,
        ensures
            match event_loop {
                Ok(event_loop) => {
                    &&& !created_before
                    &&& event_loop@ == fresh_loop::<D>(
                        attributes.ignore_volume_keys,
                        density,
                        event_loop@.redraw_flag,
                        event_loop@.target.proxy,
                    )
                    &&& flag::made_down(event_loop@.redraw_flag)
                    &&& flag::made_down(event_loop@.target.proxy.flag())
                },
                Err(error) => created_before && error == EventLoopError::RecreationAttempt,
            },
    {
        if created_before {
            return Err(EventLoopError::RecreationAttempt);
        }
        let redraw_flag = SharedFlag::new();
        Ok(
            EventLoop {
                window_target: ActiveEventLoop::new(&redraw_flag),
                redraw_flag,
                loop_running: false,
                running: false,
                pending_redraw: false,
                cause: StartCause::Init,
                touches: TouchTracker::new(),
                display_scale_factor: ScaleFactor::from_density(density),
                ignore_volume_keys: attributes.ignore_volume_keys,
                combining_accent: None,
            },
        )
    }

    pub fn window_target(&self) -> (target: &ActiveEventLoop)
        ensures
            target@ == self@.target,
    {
        &self.window_target
    }

    /// The side of the loop that the application may change while it handles an event.
    pub fn window_target_mut(&mut self) -> (target: &mut ActiveEventLoop)
        ensures
            target@ == old(self)@.target,
            final(self)@ == (LoopState { target: final(target)@, ..old(self)@ }),
    {
        &mut self.window_target
    }

    /// The accent that the next character is to be combined with.
    pub fn combining_accent(&self) -> (accent: Option<char>)
        ensures
            accent == self@.combining_accent,
    {
        self.combining_accent
    }

    /// Whether a key is left to the system.
    pub fn ignores_key(&self, keycode: &Keycode) -> (ignored: bool)
        ensures
            ignored == (self@.ignore_volume_keys && keycode.changes_volume()),
    {
        self.ignore_volume_keys && keycode.is_volume()
    }

    /// Handles a main event.
    fn handle_main_event<S>(&mut self, event: MainEvent) -> (actions: Vec<Action<D, S>>)
        ensures
            final(self)@ == after_main_event(old(self)@, event),
            action::actions_of(actions@) == main_event_actions::<D, S>(old(self)@, event),
    {
        let mut actions: Vec<Action<D, S>> = Vec::new();
        match event {
            MainEvent::InitWindow => {
                actions.push(LoopAction::CanCreateSurfaces);
            },
            MainEvent::TerminateWindow => {
                actions = self.touches.cancel_touch_tracking();
                actions.push(LoopAction::DestroySurfaces);
            },
            MainEvent::GainedFocus => {
                actions.push(LoopAction::SetFocus(true));
                actions.push(LoopAction::WindowEvent(WindowEvent::Focused(true)));
            },
            MainEvent::LostFocus => {
                actions.push(LoopAction::SetFocus(false));
                let mut cancellations = self.touches.cancel_touch_tracking();
                actions.append(&mut cancellations);
                actions.push(LoopAction::WindowEvent(WindowEvent::Focused(false)));
            },
            MainEvent::ConfigChanged { density, screen_size } => {
                let scale_factor = ScaleFactor::from_density(density);
                if !(scale_factor == self.display_scale_factor) {
                    self.display_scale_factor = scale_factor;
                    actions.push(
                        LoopAction::WindowEvent(
                            WindowEvent::ScaleFactorChanged {
                                scale_factor,
                                surface_size: screen_size,
                            },
                        ),
                    );
                }
            },
            MainEvent::LowMemory => {
                actions.push(LoopAction::MemoryWarning);
            },
            MainEvent::Start => {
                actions.push(LoopAction::Resumed);
            },
            MainEvent::Resume => {
                self.running = true;
            },
            MainEvent::Pause => {
                self.running = false;
            },
            MainEvent::Stop => {
                actions.push(LoopAction::Suspended);
            },
            MainEvent::Destroy => {
                actions.push(LoopAction::WindowEvent(WindowEvent::CloseRequested));
                actions.push(LoopAction::Exit);
            },
            MainEvent::WindowResized
            | MainEvent::RedrawNeeded
            | MainEvent::ContentRectChanged
            | MainEvent::SaveState
            | MainEvent::InsetsChanged
            | MainEvent::Other => {},
        }
        assert(action::actions_of(actions@) =~= main_event_actions::<D, S>(old(self)@, event));
        actions
    }

    /// Begins an iteration. After the steps that it asks for come the events of the input queue,
    /// and after those the steps of `continue_iteration` until the iteration is done.
    pub fn begin_iteration<S>(&mut self, main_event: Option<MainEvent>) -> (begun: (
        Iteration,
        Vec<Action<D, S>>,
    ))
        ensures
            begun.0 == iteration_with(old(self)@, main_event),
            final(self)@ == after_beginning(old(self)@, main_event),
            action::actions_of(begun.1@) == beginning_actions::<D, S>(old(self)@, main_event),
    {
        let mut actions: Vec<Action<D, S>> = Vec::new();
        let mut pending_redraw = self.pending_redraw;
        let mut resized = false;
        actions.push(LoopAction::NewEvents(self.cause));
        let ghost new_events = actions@;
        assert(action::actions_of(new_events) =~= beginning_actions::<D, S>(self@, None));
        if let Some(event) = main_event {
            match event {
                MainEvent::WindowResized => {
                    resized = true;
                },
                MainEvent::RedrawNeeded => {
                    pending_redraw = true;
                },
                _ => {},
            }
            let mut handled = self.handle_main_event(event);
            let ghost main_event_steps = handled@;
            actions.append(&mut handled);
            assert(action::actions_of(actions@) =~= action::actions_of(new_events)
                + action::actions_of(main_event_steps));
        }
        (Iteration { step: IterationStep::Proxy, pending_redraw, resized }, actions)
    }

    /// The next step of an iteration, given what was observed.
    pub fn continue_iteration_with<S>(
        &mut self,
        iteration: Iteration,
        observed: Observed,
    ) -> (next: (Iteration, Vec<Action<D, S>>))
        ensures
            final(self)@ == after_step(old(self)@, iteration),
            next.0 == iteration_after(old(self)@.running, iteration),
            action::actions_of(next.1@) == step_actions::<D, S>(
                old(self)@.running,
                iteration,
                observed,
            ),
    {
        let mut actions: Vec<Action<D, S>> = Vec::new();
        let mut after = iteration;
        match iteration.step {
            IterationStep::Proxy => {
                if observed.woken {
                    actions.push(LoopAction::ProxyWakeUp);
                }
                after.step = IterationStep::Resize;
            },
            IterationStep::Resize => {
                if self.running && iteration.resized {
                    let size = screen_size(observed.native_window);
                    actions.push(LoopAction::WindowEvent(WindowEvent::SurfaceResized(size)));
                }
                after.step = IterationStep::Redraw;
            },
            IterationStep::Redraw => {
                if self.running {
                    if iteration.pending_redraw || observed.redraw_requested {
                        after.pending_redraw = false;
                        actions.push(LoopAction::WindowEvent(WindowEvent::RedrawRequested));
                    }
                }
                after.step = IterationStep::Wait;
            },
            IterationStep::Wait => {
                actions.push(LoopAction::AboutToWait);
                self.pending_redraw = iteration.pending_redraw;
                after.step = IterationStep::Done;
            },
            IterationStep::Done => {},
        }
        assert(action::actions_of(actions@) =~= step_actions::<D, S>(
            old(self)@.running,
            iteration,
            observed,
        ));
        (after, actions)
    }

    /// The next step of an iteration. Whether the loop was woken up, and whether a redraw was
    /// asked for, is looked up when it matters; a flag that is looked up is lowered with it, so
    /// that whatever is asked for from then on is kept for later.
    pub fn continue_iteration<S>(
        &mut self,
        iteration: Iteration,
        native_window: Option<(i32, i32)>,
    ) -> (next: (Iteration, Vec<Action<D, S>>))
        ensures
            final(self)@ == after_step(old(self)@, iteration),
            next.0 == iteration_after(old(self)@.running, iteration),
            exists|woken: bool, redraw_requested: bool|
                {
                    &&& action::actions_of(next.1@) == #[trigger] step_actions::<D, S>(
                        old(self)@.running,
                        iteration,
                        Observed { woken, redraw_requested, native_window },
                    )
                    &&& iteration.step is Proxy ==> flag::settling_told(
                        old(self)@.target.proxy.flag(),
                        woken,
                    )
                    &&& iteration.step is Redraw && old(self)@.running ==> flag::lowering_told(
                        old(self)@.redraw_flag,
                        redraw_requested,
                    )
                },
    {
        let woken = match iteration.step {
            IterationStep::Proxy => self.window_target.event_loop_proxy.take(),
            _ => false,
        };
        let redraw_requested = match iteration.step {
            IterationStep::Redraw => if self.running {
                self.redraw_flag.get_and_reset()
            } else {
                false
            },
            _ => false,
        };
        let observed = Observed { woken, redraw_requested, native_window };
        let next = self.continue_iteration_with(iteration, observed);
        assert(action::actions_of(next.1@) == step_actions::<D, S>(
            old(self)@.running,
            iteration,
            Observed { woken, redraw_requested, native_window },
        ));
        next
    }

    fn handle_key_event<S>(&mut self, key: &KeyInput) -> (handled: (InputStatus, Vec<Action<D, S>>))
        ensures
            (final(self)@, action::actions_of(handled.1@), handled.0) == input_outcome(
                old(self)@,
                InputEvent::<D, S>::Key(*key),
            ),
    {
        let mut actions: Vec<Action<D, S>> = Vec::new();
        let status = if self.ignores_key(&key.keycode) {
            InputStatus::Unhandled
        } else {
            self.combining_accent = key.combining_accent;
            actions.push(LoopAction::KeyboardInput(keyboard_input(key)));
            InputStatus::Handled
        };
        assert(action::actions_of(actions@) =~= input_outcome(
            old(self)@,
            InputEvent::<D, S>::Key(*key),
        ).1);
        (status, actions)
    }

    /// Handles an event of the input queue.
    pub fn handle_input_event<S: Copy>(&mut self, event: &InputEvent<D, S>) -> (handled: (
        InputStatus,
        Vec<Action<D, S>>,
    ))
        requires
            is_complete(*event),
        ensures
            (final(self)@, action::actions_of(handled.1@), handled.0) == input_outcome(
                old(self)@,
                *event,
            ),
    {
        match event {
            InputEvent::Motion(motion) => {
                let actions = self.touches.handle_motion_event(motion);
                (InputStatus::Handled, actions)
            },
            InputEvent::Key(key) => self.handle_key_event(key),
            InputEvent::Text(input) => (InputStatus::Handled, handle_text_event(input)),
            InputEvent::TextAction(text_action) => {
                let mut actions: Vec<Action<D, S>> = Vec::new();
                if let Some(input) = text_action_keyboard_event(*text_action) {
                    actions.push(LoopAction::KeyboardInput(input));
                }
                assert(action::actions_of(actions@) =~= input_outcome(old(self)@, *event).1);
                (InputStatus::Handled, actions)
            },
            InputEvent::Other => {
                let actions: Vec<Action<D, S>> = Vec::new();
                assert(action::actions_of(actions@) =~= Seq::empty());
                (InputStatus::Handled, actions)
            },
        }
    }

    /// How long to wait for the next event, given what was observed.
    pub fn prepare_poll_with(
        &mut self,
        start: Instant,
        timeout: Option<Duration>,
        redraw_requested: bool,
        woken: bool,
    ) -> (poll_for: Option<Duration>)
        ensures
            final(self)@ == with_redraw(old(self)@, redraw_requested),
            poll_for == poll_timeout(final(self)@, start, timeout, woken),
    {
        self.pending_redraw = self.pending_redraw || redraw_requested;
        if woken || (self.running && self.pending_redraw) {
            Some(Duration { nanos: 0 })
        } else {
            let control_flow_timeout = match self.control_flow() {
                ControlFlow::Wait => None,
                ControlFlow::Poll => Some(Duration { nanos: 0 }),
                ControlFlow::WaitUntil(deadline) => Some(deadline.saturating_duration_since(start)),
            };
            min_timeout(control_flow_timeout, timeout)
        }
    }

    /// How long to wait for the next event, from `start` on and for `timeout` at most.
    pub fn prepare_poll(&mut self, start: Instant, timeout: Option<Duration>) -> (poll_for: Option<
        Duration,
    >)
        ensures
            exists|redraw_requested: bool, woken: bool|
                {
                    &&& final(self)@ == #[trigger] with_redraw(old(self)@, redraw_requested)
                    &&& poll_for == #[trigger] poll_timeout(final(self)@, start, timeout, woken)
                    &&& flag::lowering_told(old(self)@.redraw_flag, redraw_requested)
                    &&& flag::reading_told(old(self)@.target.proxy.flag(), woken)
                },
    {
        let redraw_requested = self.redraw_flag.get_and_reset();
        let woken = self.window_target.event_loop_proxy.is_pending();
        let poll_for = self.prepare_poll_with(start, timeout, redraw_requested, woken);
        assert(self@ == with_redraw(old(self)@, redraw_requested));
        assert(poll_for == poll_timeout(self@, start, timeout, woken));
        poll_for
    }

    /// What the end of a wait leads to, given what was observed.
    pub fn finish_poll_with(
        &mut self,
        event: PollEvent,
        start: Instant,
        now: Instant,
        redraw_requested: bool,
        woken: bool,
    ) -> (outcome: PollOutcome)
        ensures
            (final(self)@, outcome) == poll_outcome(
                old(self)@,
                event,
                start,
                now,
                redraw_requested,
                woken,
            ),
    {
        let mut main_event = None;
        match event {
            PollEvent::Wake => {
                self.pending_redraw = self.pending_redraw || redraw_requested;
                if !woken && !(self.running && self.pending_redraw) {
                    return PollOutcome::Ignore;
                }
            },
            PollEvent::Timeout => {},
            PollEvent::Main(event) => {
                main_event = Some(event);
            },
            PollEvent::Other => {},
        }
        self.cause = match self.control_flow() {
            ControlFlow::Poll => StartCause::Poll,
            ControlFlow::Wait => StartCause::WaitCancelled { start, requested_resume: None },
            ControlFlow::WaitUntil(deadline) => if now.nanos < deadline.nanos {
                StartCause::WaitCancelled { start, requested_resume: Some(deadline) }
            } else {
                StartCause::ResumeTimeReached { start, requested_resume: deadline }
            },
        };
        PollOutcome::Iterate(main_event)
    }

    /// What the end, at `now`, of a wait that began at `start` leads to.
    pub fn finish_poll(&mut self, event: PollEvent, start: Instant, now: Instant) -> (outcome:
        PollOutcome)
        ensures
            exists|redraw_requested: bool, woken: bool|
                {
                    &&& (final(self)@, outcome) == #[trigger] poll_outcome(
                        old(self)@,
                        event,
                        start,
                        now,
                        redraw_requested,
                        woken,
                    )
                    &&& event is Wake ==> {
                        &&& flag::lowering_told(old(self)@.redraw_flag, redraw_requested)
                        &&& flag::reading_told(old(self)@.target.proxy.flag(), woken)
                    }
                },
    {
        let (redraw_requested, woken) = match event {
            PollEvent::Wake => {
                let redraw_requested = self.redraw_flag.get_and_reset();
                (redraw_requested, self.window_target.event_loop_proxy.is_pending())
            },
            _ => (false, false),
        };
        let outcome = self.finish_poll_with(event, start, now, redraw_requested, woken);
        assert((self@, outcome) == poll_outcome(
            old(self)@,
            event,
            start,
            now,
            redraw_requested,
            woken,
        ));
        outcome
    }

    /// What a batch of events goes on with.
    pub fn pump_app_events(&mut self, step: PumpStep) -> (action: PumpAction)
        ensures
            (final(self)@, action) == pump_outcome(old(self)@, step),
    {
        match step {
            PumpStep::Begin => {
                if !self.loop_running {
                    self.loop_running = true;
                    self.pending_redraw = false;
                    self.cause = StartCause::Init;
                    return PumpAction::Initialize;
                }
                if !self.exiting() {
                    return PumpAction::Poll;
                }
            },
            PumpStep::Initialized => {
                if !self.exiting() {
                    return PumpAction::Poll;
                }
            },
            PumpStep::Polled => {},
        }
        if self.exiting() {
            self.loop_running = false;
            PumpAction::Return(PumpStatus::Exit(0))
        } else {
            PumpAction::Return(PumpStatus::Continue)
        }
    }

    /// Runs the loop: `pumped` is how the last batch of events ended, none before the first one.
    /// The result is none as long as the loop is to go on with another batch.
    pub fn run_app_on_demand(&mut self, pumped: Option<PumpStatus>) -> (result: Option<
        Result<(), EventLoopError>,
    >)
        ensures
            match pumped {
                None => {
                    &&& final(self)@ == (LoopState {
                        target: Target { exiting: false, ..old(self)@.target },
                        ..old(self)@
                    })
                    &&& result is None
                },
                Some(status) => {
                    &&& final(self)@ == old(self)@
                    &&& result == match status {
                        PumpStatus::Exit(code) => Some(
                            if code == 0 {
                                Ok::<(), EventLoopError>(())
                            } else {
                                Err(EventLoopError::ExitFailure(code))
                            },
                        ),
                        PumpStatus::Continue => None,
                    }
                },
            },
    {
        match pumped {
            None => {
                self.window_target.clear_exit();
                None
            },
            Some(PumpStatus::Exit(code)) => if code == 0 {
                Some(Ok(()))
            } else {
                Some(Err(EventLoopError::ExitFailure(code)))
            },
            Some(PumpStatus::Continue) => None,
        }
    }

    fn control_flow(&self) -> (control_flow: ControlFlow)
        ensures
            control_flow == self@.target.control_flow,
    {
        self.window_target.control_flow()
    }

    fn exiting(&self) -> (exiting: bool)
        ensures
            exiting == self@.target.exiting,
    {
        self.window_target.exiting()
    }
}

/// The steps that a change of the text under edit asks for.
fn handle_text_event<D, S>(input: &TextInputState) -> (actions: Vec<Action<D, S>>)
    ensures
        action::actions_of(actions@) == text_actions::<D, S>(*input),
{
    let mut actions: Vec<Action<D, S>> = Vec::new();
    match ime_preedit_from_state(input) {
        Some((preedit, cursor)) => {
            actions.push(LoopAction::Ime(Ime::Preedit(preedit, cursor)));
        },
        None => {
            if !input.text.as_str().is_empty() {
                actions.push(LoopAction::Ime(Ime::Preedit(String::new(), None)));
                actions.push(LoopAction::Ime(Ime::Commit(input.text.clone())));
                actions.push(LoopAction::ResetTextInput);
            }
        },
    }
    assert(action::actions_of(actions@) =~= text_actions::<D, S>(*input));
    actions
}

} // verus!
