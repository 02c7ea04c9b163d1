//! What holds of the loop over several steps, iterations and batches.
use vstd::prelude::*;

use crate::action::{ActionView, LoopAction};
use crate::android::{InputEvent, InputStatus, MainEvent, PollEvent};
use crate::event::WindowEvent;
use crate::event_loop::{
    Iteration, IterationStep, LoopState, Observed, PollOutcome, PumpAction, PumpStatus, PumpStep,
};
use crate::flag::EventLoopProxy;
use crate::geometry::PhysicalSize;
use crate::ime::{Ime, TextInputState};
use crate::time::{ControlFlow, Duration, Instant, StartCause};
use crate::touch::Touches;
use crate::touch_laws::GestureKind;
use crate::{event_loop, geometry, ime, keyboard, motion, time, touch, touch_laws};
use std::sync::atomic::AtomicBool;

verus! {

/// An iteration begins by telling the application that new events come and why. What the main
/// event asks for comes after that, and is neither another such announcement nor the notice that
/// ends an iteration.
pub proof fn law_new_events_come_first<D, S>(state: LoopState<D>, main_event: Option<MainEvent>)
    ensures
        ({
            let actions = event_loop::beginning_actions::<D, S>(state, main_event);
            &&& actions.len() > 0
            &&& actions[0] == ActionView::<D, S>::NewEvents(state.cause)
            &&& forall|i: int|
                0 < i < actions.len() ==> !((#[trigger] actions[i]) is NewEvents)
                    && !(actions[i] is AboutToWait)
        }),
{
}

/// Whether a step may follow from input: the application is told of it, or the text under edit is
/// emptied.
pub open spec fn follows_from_input<D, S>(action: ActionView<D, S>) -> bool {
    touch_laws::reports(action) || action is KeyboardInput || action is Ime
        || action is ResetTextInput
}

/// Input leads to reports and to the text under edit being emptied, and to nothing else.
pub proof fn law_input_only_reports<D, S>(state: LoopState<D>, event: InputEvent<D, S>)
    requires
        event_loop::is_complete(event),
    ensures
        ({
            let actions = event_loop::input_outcome(state, event).1;
            forall|i: int| 0 <= i < actions.len() ==> follows_from_input(#[trigger] actions[i])
        }),
{
    if let InputEvent::Motion(motion) = event {
        touch_laws::law_motions_only_report(state.touches, motion);
    }
}

/// What an iteration asks for from one step on, with what is observed before each of the steps.
pub open spec fn following_actions<D, S>(
    running: bool,
    iteration: Iteration,
    observed: Seq<Observed>,
) -> Seq<ActionView<D, S>>
    decreases observed.len(),
{
    if observed.len() == 0 {
        Seq::empty()
    } else {
        event_loop::step_actions::<D, S>(running, iteration, observed[0]) + following_actions(
            running,
            event_loop::iteration_after(running, iteration),
            observed.drop_first(),
        )
    }
}

/// Where an iteration is some steps later.
pub open spec fn iteration_later(running: bool, iteration: Iteration, steps: nat) -> Iteration
    decreases steps,
{
    if steps == 0 {
        iteration
    } else {
        iteration_later(
            running,
            event_loop::iteration_after(running, iteration),
            (steps - 1) as nat,
        )
    }
}

/// Where the loop is some steps later.
pub open spec fn state_later<D>(state: LoopState<D>, iteration: Iteration, steps: nat) -> LoopState<
    D,
>
    decreases steps,
{
    if steps == 0 {
        state
    } else {
        state_later(
            event_loop::after_step(state, iteration),
            event_loop::iteration_after(state.running, iteration),
            (steps - 1) as nat,
        )
    }
}

/// A step if a condition holds.
pub open spec fn only_if<D, S>(condition: bool, action: ActionView<D, S>) -> Seq<ActionView<D, S>> {
    if condition {
        seq![action]
    } else {
        Seq::empty()
    }
}

/// An iteration is done after four steps, whatever is observed: it passes on that the loop was
/// woken up, reports a new size, has the window drawn, and always ends with the notice that the
/// loop is about to wait. Size and drawing are left out unless the activity is in the foreground;
/// wake-ups are passed on in any case.
pub proof fn law_steps_of_an_iteration<D, S>(
    running: bool,
    iteration: Iteration,
    observed: Seq<Observed>,
)
    requires
        iteration.step == IterationStep::Proxy,
        observed.len() == 4,
    ensures
        following_actions::<D, S>(running, iteration, observed) == only_if::<D, S>(
            observed[0].woken,
            LoopAction::ProxyWakeUp,
        ) + only_if(
            running && iteration.resized,
            LoopAction::WindowEvent(
                WindowEvent::SurfaceResized(geometry::window_size(observed[1].native_window)),
            ),
        ) + only_if(
            running && (iteration.pending_redraw || observed[2].redraw_requested),
            LoopAction::WindowEvent(WindowEvent::RedrawRequested),
        ) + only_if(true, LoopAction::AboutToWait),
        iteration_later(running, iteration, 4).step == IterationStep::Done,
{
    reveal_with_fuel(following_actions, 5);
    reveal_with_fuel(iteration_later, 5);
}

/// The notice that the loop is about to wait comes last in an iteration, and only there.
pub proof fn law_about_to_wait_comes_last<D, S>(
    running: bool,
    iteration: Iteration,
    observed: Seq<Observed>,
)
    requires
        iteration.step == IterationStep::Proxy,
        observed.len() == 4,
    ensures
        ({
            let actions = following_actions::<D, S>(running, iteration, observed);
            &&& actions.len() > 0
            &&& actions.last() == ActionView::<D, S>::AboutToWait
            &&& forall|i: int|
                0 <= i < actions.len() - 1 ==> !((#[trigger] actions[i]) is AboutToWait)
        }),
{
    law_steps_of_an_iteration::<D, S>(running, iteration, observed);
}

/// A redraw that is due stays due while the activity is in the background, and is done with after
/// one iteration in the foreground. Nothing else changes over the steps of an iteration.
pub proof fn law_due_redraws_wait_for_the_foreground<D>(state: LoopState<D>, iteration: Iteration)
    requires
        iteration.step == IterationStep::Proxy,
    ensures
        state_later(state, iteration, 4) == (LoopState {
            pending_redraw: iteration.pending_redraw && !state.running,
            ..state
        }),
{
    reveal_with_fuel(state_later, 5);
}

/// A redraw that came due in the background takes place in the very iteration in which the activity
/// comes to the foreground, whatever is observed.
pub proof fn law_returning_draws<D, S>(state: LoopState<D>, observed: Seq<Observed>)
    requires
        state.pending_redraw,
        observed.len() == 4,
    ensures
        ({
            let begun = event_loop::after_beginning(state, Some(MainEvent::Resume));
            let iteration = event_loop::iteration_with(state, Some(MainEvent::Resume));
            &&& begun.running
            &&& following_actions::<D, S>(begun.running, iteration, observed).contains(
                LoopAction::WindowEvent(WindowEvent::RedrawRequested),
            )
            &&& !state_later(begun, iteration, 4).pending_redraw
        }),
{
    let begun = event_loop::after_beginning(state, Some(MainEvent::Resume));
    let iteration = event_loop::iteration_with(state, Some(MainEvent::Resume));
    law_steps_of_an_iteration::<D, S>(begun.running, iteration, observed);
    law_due_redraws_wait_for_the_foreground(begun, iteration);
    let actions = following_actions::<D, S>(begun.running, iteration, observed);
    assert(actions[actions.len() - 2] == ActionView::<D, S>::WindowEvent(
        WindowEvent::RedrawRequested,
    ));
}

/// The loop does not block exactly when being woken up at that moment would lead to an iteration,
/// unless the application or the caller does not want it to block anyway.
pub proof fn law_waiting_mirrors_waking<D>(
    state: LoopState<D>,
    start: Instant,
    now: Instant,
    timeout: Option<Duration>,
    woken: bool,
)
    ensures
        event_loop::poll_outcome(state, PollEvent::Wake, start, now, false, woken).1
            == PollOutcome::Ignore || event_loop::poll_timeout(state, start, timeout, woken)
            == Some(Duration { nanos: 0 }),
        event_loop::poll_outcome(state, PollEvent::Wake, start, now, false, woken).1
            == PollOutcome::Ignore ==> event_loop::poll_timeout(state, start, timeout, woken)
            == time::shorter(
            event_loop::control_flow_timeout(state.target.control_flow, start),
            timeout,
        ),
{
}

/// Being woken through a proxy leads to an iteration, also in the background, and that iteration
/// passes it on.
pub proof fn law_wake_ups_are_passed_on<D, S>(
    state: LoopState<D>,
    start: Instant,
    now: Instant,
    redraw_requested: bool,
    observed: Seq<Observed>,
)
    requires
        observed.len() == 4,
        observed[0].woken,
    ensures
        ({
            let (after, outcome) = event_loop::poll_outcome(
                state,
                PollEvent::Wake,
                start,
                now,
                redraw_requested,
                true,
            );
            &&& outcome == PollOutcome::Iterate(None)
            &&& following_actions::<D, S>(
                after.running,
                event_loop::iteration_with(after, None),
                observed,
            )[0] == ActionView::<D, S>::ProxyWakeUp
        }),
{
    let after = event_loop::poll_outcome(
        state,
        PollEvent::Wake,
        start,
        now,
        redraw_requested,
        true,
    ).0;
    law_steps_of_an_iteration::<D, S>(
        after.running,
        event_loop::iteration_with(after, None),
        observed,
    );
}

/// Whether the flag that is raised to ask for a redraw is the one that the loop reads.
pub open spec fn is_wired<D>(state: LoopState<D>) -> bool {
    state.target.redraw_flag == state.redraw_flag
}

/// A fresh loop reads the flag that is raised to ask it for a redraw, and nothing that happens to
/// the loop changes which flag is raised, which one is read, and by which proxy it is woken up.
pub proof fn law_requests_reach_the_loop<D, S>(
    state: LoopState<D>,
    main_event: Option<MainEvent>,
    event: InputEvent<D, S>,
    iteration: Iteration,
    poll_event: PollEvent,
    start: Instant,
    now: Instant,
    redraw_requested: bool,
    woken: bool,
    step: PumpStep,
    ignore_volume_keys: bool,
    density: Option<u32>,
)
    ensures
        is_wired(
            event_loop::fresh_loop::<D>(
                ignore_volume_keys,
                density,
                state.redraw_flag,
                state.target.proxy,
            ),
        ),
        same_wiring(state, event_loop::after_beginning(state, main_event)),
        same_wiring(state, event_loop::input_outcome(state, event).0),
        same_wiring(state, event_loop::after_step(state, iteration)),
        same_wiring(state, event_loop::with_redraw(state, redraw_requested)),
        same_wiring(
            state,
            event_loop::poll_outcome(state, poll_event, start, now, redraw_requested, woken).0,
        ),
        same_wiring(state, event_loop::pump_outcome(state, step).0),
{
}

/// Whether two states of a loop have the same flags.
pub open spec fn same_wiring<D>(before: LoopState<D>, after: LoopState<D>) -> bool {
    &&& after.redraw_flag == before.redraw_flag
    &&& after.target.redraw_flag == before.target.redraw_flag
    &&& after.target.proxy == before.target.proxy
}

/// In the background a request to redraw never makes the loop run, but it is not forgotten.
pub proof fn law_redraws_rest_in_the_background<D>(
    state: LoopState<D>,
    start: Instant,
    now: Instant,
    redraw_requested: bool,
)
    requires
        !state.running,
    ensures
        event_loop::poll_outcome(state, PollEvent::Wake, start, now, redraw_requested, false) == (
            event_loop::with_redraw(state, redraw_requested),
            PollOutcome::Ignore,
        ),
        redraw_requested ==> event_loop::with_redraw(state, redraw_requested).pending_redraw,
{
}

/// The loop waits no longer than the caller allows, nor past the time that the application asked
/// to be woken at.
pub proof fn law_waits_are_bounded<D>(
    state: LoopState<D>,
    start: Instant,
    timeout: Option<Duration>,
    woken: bool,
)
    ensures
        ({
            let wait = event_loop::poll_timeout(state, start, timeout, woken);
            &&& timeout matches Some(limit) ==> {
                &&& wait matches Some(wait)
                &&& wait.nanos <= limit.nanos
            }
            &&& state.target.control_flow matches ControlFlow::WaitUntil(deadline) ==> {
                &&& wait matches Some(wait)
                &&& wait.nanos == 0 || start.nanos + wait.nanos <= deadline.nanos
            }
            &&& state.target.control_flow == ControlFlow::Poll ==> wait == Some(
                Duration { nanos: 0 },
            )
        }),
{
}

/// A batch of events ends with the loop being over exactly if the loop was told to exit, and the
/// loop does not wait for events once it was.
pub proof fn law_exiting_ends_the_batch<D>(state: LoopState<D>, step: PumpStep)
    ensures
        ({
            let (after, action) = event_loop::pump_outcome(state, step);
            &&& action == PumpAction::Poll ==> !state.target.exiting
            &&& action matches PumpAction::Return(status) ==> {
                &&& status == PumpStatus::Exit(0) <==> state.target.exiting
                &&& status == PumpStatus::Continue <==> !state.target.exiting
                &&& state.target.exiting ==> !after.loop_running
                &&& !state.target.exiting ==> after == state
            }
        }),
{
}

/// A batch comes to its end: no step comes twice.
pub proof fn law_batches_end<D>(state: LoopState<D>)
    ensures
        !(event_loop::pump_outcome(state, PumpStep::Initialized).1 is Initialize),
        event_loop::pump_outcome(state, PumpStep::Polled).1 is Return,
{
}

/// A loop that is over begins anew with the next batch: the application is told of the beginning
/// again, and no redraw is left over.
pub proof fn law_loops_begin_anew<D, S>(state: LoopState<D>, step: PumpStep)
    requires
        event_loop::pump_outcome(state, step).1 == PumpAction::Return(PumpStatus::Exit(0)),
    ensures
        ({
            let over = event_loop::pump_outcome(state, step).0;
            let (anew, action) = event_loop::pump_outcome(over, PumpStep::Begin);
            &&& action == PumpAction::Initialize
            &&& anew.loop_running
            &&& !event_loop::iteration_with(anew, None).pending_redraw
            &&& event_loop::beginning_actions::<D, S>(anew, None)[0] == ActionView::<
                D,
                S,
            >::NewEvents(StartCause::Init)
        }),
{
}

/// The system gets to handle an event itself exactly if it is a volume key and the loop leaves
/// those to it; the application hears nothing of such a key, and nothing changes.
pub proof fn law_volume_keys<D, S>(state: LoopState<D>, event: InputEvent<D, S>)
    ensures
        ({
            let (after, actions, status) = event_loop::input_outcome(state, event);
            let left_alone = event matches InputEvent::Key(key) && state.ignore_volume_keys
                && key.keycode.changes_volume();
            &&& status == InputStatus::Unhandled <==> left_alone
            &&& left_alone ==> after == state && actions.len() == 0
        }),
{
}

/// Text is either being composed or is committed, never both, and every bit of text that is not
/// being composed is committed and then taken out of the text under edit.
pub proof fn law_text_is_composed_or_committed<D, S>(input: TextInputState)
    ensures
        ({
            let actions = event_loop::text_actions::<D, S>(input);
            let commit = ActionView::<D, S>::Ime(Ime::Commit(input.text@));
            let composing = ime::preedit_of(
                input.text@,
                input.selection,
                input.compose_region,
            ) is Some;
            &&& actions.contains(commit) <==> !composing && input.text@.len() > 0
            &&& actions.contains(ActionView::<D, S>::ResetTextInput)
                <==> actions.contains(commit)
        }),
{
    let actions = event_loop::text_actions::<D, S>(input);
    if ime::preedit_of(input.text@, input.selection, input.compose_region) is None
        && input.text@.len() > 0 {
        assert(actions[1] == ActionView::<D, S>::Ime(Ime::Commit(input.text@)));
        assert(actions[2] == ActionView::<D, S>::ResetTextInput);
    }
}

/// The application is told of a scale factor exactly if it is a new one, and never twice in a row.
pub proof fn law_scale_factor_is_told_once<D, S>(
    state: LoopState<D>,
    density: Option<u32>,
    size: PhysicalSize<u32>,
)
    ensures
        ({
            let event = MainEvent::ConfigChanged { density, screen_size: size };
            let after = event_loop::after_main_event(state, event);
            &&& event_loop::main_event_actions::<D, S>(state, event).len() == 0
                <==> after.scale_factor == state.scale_factor
            &&& event_loop::main_event_actions::<D, S>(after, event).len() == 0
        }),
{
}

/// What is known of the fingers hangs together in a fresh loop.
pub proof fn law_fresh_loops_are_consistent<D>(
    ignore_volume_keys: bool,
    density: Option<u32>,
    redraw_flag: AtomicBool,
    proxy: EventLoopProxy,
)
    ensures
        touch_laws::consistent(
            event_loop::fresh_loop::<D>(ignore_volume_keys, density, redraw_flag, proxy).touches,
        ),
{
    touch_laws::law_consistent_at_first::<D>();
}

/// What is known of the fingers keeps hanging together, whatever the event of the activity or the
/// input.
pub proof fn law_loop_keeps_touches_consistent<D, S>(
    state: LoopState<D>,
    main_event: Option<MainEvent>,
    event: InputEvent<D, S>,
)
    requires
        touch_laws::consistent(state.touches),
        event_loop::is_complete(event),
    ensures
        touch_laws::consistent(event_loop::after_beginning(state, main_event).touches),
        touch_laws::consistent(event_loop::input_outcome(state, event).0.touches),
{
    touch_laws::law_consistent_at_first::<D>();
    if let InputEvent::Motion(motion) = event {
        touch_laws::law_motions_keep_consistency(state.touches, motion);
    }
}

/// Input keeps gestures whole: what the application is told of a gesture is a start, then moves,
/// then an end, and so on from where the last report left off.
pub proof fn law_input_keeps_gestures_whole<D, S>(
    state: LoopState<D>,
    event: InputEvent<D, S>,
    kind: GestureKind,
)
    requires
        event_loop::is_complete(event),
    ensures
        touch_laws::gesture_run(
            event_loop::input_outcome(state, event).1,
            kind,
            touch_laws::active(state.touches, kind),
        ) == Some(touch_laws::active(event_loop::input_outcome(state, event).0.touches, kind)),
{
    if let InputEvent::Motion(motion) = event {
        touch_laws::law_gestures_are_whole(state.touches, motion, kind);
    } else {
        touch_laws::lemma_no_gesture_run(
            event_loop::input_outcome(state, event).1,
            kind,
            touch_laws::active(state.touches, kind),
        );
    }
}

/// Main events keep gestures whole too, whether they leave them alone or end them.
pub proof fn law_main_events_keep_gestures_whole<D, S>(
    state: LoopState<D>,
    main_event: Option<MainEvent>,
    kind: GestureKind,
)
    ensures
        touch_laws::gesture_run(
            event_loop::beginning_actions::<D, S>(state, main_event),
            kind,
            touch_laws::active(state.touches, kind),
        ) == Some(
            touch_laws::active(event_loop::after_beginning(state, main_event).touches, kind),
        ),
{
    let actions = event_loop::beginning_actions::<D, S>(state, main_event);
    match main_event {
        Some(MainEvent::LostFocus) => {
            assert(actions.subrange(2, actions.len() - 1) =~= touch::abandon_actions::<D, S>(
                state.touches,
            ));
            lemma_gestures_within(actions, 2, state.touches, kind);
        },
        Some(MainEvent::TerminateWindow) => {
            assert(actions.subrange(1, actions.len() - 1) =~= touch::abandon_actions::<D, S>(
                state.touches,
            ));
            lemma_gestures_within(actions, 1, state.touches, kind);
        },
        _ => {
            assert(forall|i: int|
                0 <= i < actions.len() ==> !((#[trigger] actions[i]) is TouchGesture));
            touch_laws::lemma_no_gesture_run(
                actions,
                kind,
                touch_laws::active(state.touches, kind),
            );
        },
    }
}

/// Steps that hold the giving up of all fingers, and around it nothing about gestures, end all
/// gestures.
proof fn lemma_gestures_within<D, S>(
    actions: Seq<ActionView<D, S>>,
    from: int,
    touches: Touches<D>,
    kind: GestureKind,
)
    requires
        0 <= from < actions.len(),
        actions.subrange(from, actions.len() - 1) == touch::abandon_actions::<D, S>(touches),
        forall|i: int| 0 <= i < from ==> !((#[trigger] actions[i]) is TouchGesture),
        !(actions.last() is TouchGesture),
    ensures
        touch_laws::gesture_run(actions, kind, touch_laws::active(touches, kind)) == Some(false),
{
    let given_up = touch::abandon_actions::<D, S>(touches);
    let active = touch_laws::active(touches, kind);
    let before = actions.take(from);
    assert(actions.drop_last() =~= before + given_up);
    touch_laws::lemma_no_gesture_run(before, kind, active);
    touch_laws::law_abandoning_ends_gestures::<D, S>(touches, kind);
    touch_laws::lemma_gesture_run_concat(before, given_up, kind, active);
}

/// When the focus or the window goes, all fingers are gone, each of them is reported as having
/// left, and all gestures are over, before the application hears of the loss itself.
pub proof fn law_losing_the_window_ends_touches<D, S>(state: LoopState<D>, event: MainEvent)
    requires
        event == MainEvent::LostFocus || event == MainEvent::TerminateWindow,
    ensures
        event_loop::after_main_event(state, event).touches == touch::no_touches::<D>(),
        ({
            let actions = event_loop::main_event_actions::<D, S>(state, event);
            let touches = touch::abandon_actions::<D, S>(state.touches);
            let skipped: int = if event == MainEvent::LostFocus {
                1
            } else {
                0
            };
            &&& actions.subrange(skipped, skipped + touches.len()) == touches
            &&& actions.len() == skipped + touches.len() + 1
            &&& actions.last() == if event == MainEvent::LostFocus {
                ActionView::<D, S>::WindowEvent(WindowEvent::Focused(false))
            } else {
                LoopAction::DestroySurfaces
            }
        }),
{
    let actions = event_loop::main_event_actions::<D, S>(state, event);
    let touches = touch::abandon_actions::<D, S>(state.touches);
    if event == MainEvent::LostFocus {
        assert(actions.subrange(1, 1 + touches.len() as int) =~= touches);
    } else {
        assert(actions.subrange(0, touches.len() as int) =~= touches);
    }
}

/// When the activity is destroyed the application is asked to close, and after that the loop comes
/// to its end. No other main event ends the loop.
pub proof fn law_destruction_ends_the_loop<D, S>(state: LoopState<D>, event: MainEvent)
    ensures
        ({
            let actions = event_loop::main_event_actions::<D, S>(state, event);
            &&& actions.contains(ActionView::<D, S>::Exit) <==> event == MainEvent::Destroy
            &&& event == MainEvent::Destroy ==> {
                &&& actions.len() == 2
                &&& actions[0] == ActionView::<D, S>::WindowEvent(WindowEvent::CloseRequested)
            }
        }),
{
    let actions = event_loop::main_event_actions::<D, S>(state, event);
    if event == MainEvent::Destroy {
        assert(actions[1] == ActionView::<D, S>::Exit);
    }
}

/// A fresh loop has not begun, is in the background, has nothing to draw and nothing to end, and
/// would wait. It knows of no finger and no accent, has the scale factor of the display's density,
/// and reads the flag that is raised to ask it for a redraw.
pub proof fn law_fresh_loops<D>(
    ignore_volume_keys: bool,
    density: Option<u32>,
    redraw_flag: AtomicBool,
    proxy: EventLoopProxy,
)
    ensures
        ({
            let fresh = event_loop::fresh_loop::<D>(
                ignore_volume_keys,
                density,
                redraw_flag,
                proxy,
            );
            &&& fresh.target.control_flow is Wait && !fresh.target.exiting
            &&& fresh.target.redraw_flag == redraw_flag && fresh.redraw_flag == redraw_flag
            &&& fresh.target.proxy == proxy
            &&& !fresh.loop_running && !fresh.running && !fresh.pending_redraw
            &&& fresh.cause is Init
            &&& fresh.touches.contacts.len() == 0 && fresh.touches.primary_pointer is None
            &&& !fresh.touches.gestures.pan_active && !fresh.touches.gestures.transform_active
            &&& density matches Some(told) ==> fresh.scale_factor.density == told
            &&& density is None ==> fresh.scale_factor.density == geometry::BASELINE_DENSITY
            &&& fresh.ignore_volume_keys == ignore_volume_keys
            &&& fresh.combining_accent is None
        }),
{
}

/// Whether the activity is in the foreground once an iteration has begun: resuming brings it there,
/// pausing takes it away, and nothing else that an iteration begins with does either.
pub open spec fn in_foreground(was: bool, main_event: Option<MainEvent>) -> bool {
    ||| main_event == Some(MainEvent::Resume)
    ||| was && main_event != Some(MainEvent::Pause)
}

/// What a main event changes: resuming and pausing change whether the activity is in the foreground,
/// losing the focus or the window makes the fingers be forgotten, and a new configuration brings its
/// own scale factor. Everything else stays, with every other event too.
pub proof fn law_what_main_events_change<D>(state: LoopState<D>, main_event: Option<MainEvent>)
    ensures
        ({
            let after = event_loop::after_beginning(state, main_event);
            &&& after.running == in_foreground(state.running, main_event)
            &&& main_event == Some(MainEvent::Resume) ==> after.running
            &&& main_event == Some(MainEvent::Pause) ==> !after.running
            &&& main_event != Some(MainEvent::Resume) && main_event != Some(MainEvent::Pause)
                ==> after.running == state.running
            &&& if main_event == Some(MainEvent::LostFocus) || main_event == Some(
                MainEvent::TerminateWindow,
            ) {
                after.touches.contacts.len() == 0 && after.touches.primary_pointer is None
                    && !after.touches.gestures.pan_active
                    && !after.touches.gestures.transform_active
            } else {
                after.touches == state.touches
            }
            &&& match main_event {
                Some(MainEvent::ConfigChanged { density: Some(density), .. }) => {
                    after.scale_factor.density == density
                },
                Some(MainEvent::ConfigChanged { density: None, .. }) => {
                    after.scale_factor.density == geometry::BASELINE_DENSITY
                },
                _ => after.scale_factor == state.scale_factor,
            }
            &&& after.target == state.target && after.redraw_flag == state.redraw_flag
            &&& after.loop_running == state.loop_running
            &&& after.pending_redraw == state.pending_redraw
            &&& after.cause == state.cause
            &&& after.ignore_volume_keys == state.ignore_volume_keys
            &&& after.combining_accent == state.combining_accent
        }),
{
}

/// What a main event makes the application hear: of surfaces when the window comes or goes, of the
/// focus when it comes or goes, of the activity being started or stopped, of low memory, of a scale
/// factor that is new, and of having to close. Each of these comes with its own event only.
pub proof fn law_what_main_events_tell<D, S>(state: LoopState<D>, event: MainEvent)
    ensures
        ({
            let actions = event_loop::main_event_actions::<D, S>(state, event);
            match event {
                MainEvent::InitWindow => actions.len() == 1 && actions[0] is CanCreateSurfaces,
                MainEvent::TerminateWindow => actions.len() > 0
                    && actions.last() is DestroySurfaces,
                MainEvent::GainedFocus => {
                    &&& actions.len() == 2
                    &&& actions[0] matches LoopAction::SetFocus(focus)
                    &&& focus
                    &&& actions[1] matches LoopAction::WindowEvent(WindowEvent::Focused(focused))
                    &&& focused
                },
                MainEvent::LostFocus => {
                    &&& actions.len() >= 2
                    &&& actions[0] matches LoopAction::SetFocus(focus)
                    &&& !focus
                    &&& actions.last() matches LoopAction::WindowEvent(
                        WindowEvent::Focused(focused),
                    )
                    &&& !focused
                },
                MainEvent::ConfigChanged { density, screen_size } => {
                    let told = match density {
                        Some(density) => density,
                        None => geometry::BASELINE_DENSITY,
                    };
                    &&& told == state.scale_factor.density ==> actions.len() == 0
                    &&& told != state.scale_factor.density ==> {
                        &&& actions.len() == 1
                        &&& actions[0] matches LoopAction::WindowEvent(
                            WindowEvent::ScaleFactorChanged { scale_factor, surface_size },
                        )
                        &&& scale_factor.density == told
                        &&& surface_size == screen_size
                    }
                },
                MainEvent::LowMemory => actions.len() == 1 && actions[0] is MemoryWarning,
                MainEvent::Start => actions.len() == 1 && actions[0] is Resumed,
                MainEvent::Stop => actions.len() == 1 && actions[0] is Suspended,
                MainEvent::Destroy => {
                    &&& actions.len() == 2
                    &&& actions[0] matches LoopAction::WindowEvent(closing)
                    &&& closing is CloseRequested
                    &&& actions[1] is Exit
                },
                _ => actions.len() == 0,
            }
        }),
{
}

/// All that an iteration asks for but what its input makes for, with what is observed before each of
/// its last steps.
pub open spec fn iteration_actions<D, S>(
    state: LoopState<D>,
    main_event: Option<MainEvent>,
    observed: Seq<Observed>,
) -> Seq<ActionView<D, S>> {
    event_loop::beginning_actions::<D, S>(state, main_event) + following_actions(
        event_loop::after_beginning(state, main_event).running,
        event_loop::iteration_with(state, main_event),
        observed,
    )
}

/// The state of the loop when an iteration without input is over.
pub open spec fn iteration_end<D>(
    state: LoopState<D>,
    main_event: Option<MainEvent>,
) -> LoopState<D> {
    state_later(
        event_loop::after_beginning(state, main_event),
        event_loop::iteration_with(state, main_event),
        4,
    )
}

/// What an iteration comes to. It announces itself with its cause and has the main event told, then
/// passes on that the loop was woken, and ends with the notice that the loop is about to wait.
/// Before that, and only in the foreground, it reports the size of a window that was resized, and
/// has the window drawn if that was due before, comes due with the iteration or was asked for. What
/// is due stays due in the background, and is done with in the foreground.
pub proof fn law_whole_iterations<D, S>(
    state: LoopState<D>,
    main_event: Option<MainEvent>,
    observed: Seq<Observed>,
)
    requires
        observed.len() == 4,
    ensures
        ({
            let foreground = in_foreground(state.running, main_event);
            let due = state.pending_redraw || main_event == Some(MainEvent::RedrawNeeded);
            let end = iteration_end(state, main_event);
            let told = match main_event {
                Some(event) => event_loop::main_event_actions::<D, S>(state, event),
                None => Seq::empty(),
            };
            &&& iteration_actions::<D, S>(state, main_event, observed) == only_if::<D, S>(
                true,
                LoopAction::NewEvents(state.cause),
            ) + told + only_if(observed[0].woken, LoopAction::ProxyWakeUp) + only_if(
                foreground && main_event == Some(MainEvent::WindowResized),
                LoopAction::WindowEvent(
                    WindowEvent::SurfaceResized(geometry::window_size(observed[1].native_window)),
                ),
            ) + only_if(
                foreground && (due || observed[2].redraw_requested),
                LoopAction::WindowEvent(WindowEvent::RedrawRequested),
            ) + only_if(true, LoopAction::AboutToWait)
            &&& end.running == foreground
            &&& end.pending_redraw == (due && !foreground)
            &&& end == (LoopState {
                pending_redraw: end.pending_redraw,
                ..event_loop::after_beginning(state, main_event)
            })
        }),
{
    let begun = event_loop::after_beginning(state, main_event);
    let iteration = event_loop::iteration_with(state, main_event);
    law_steps_of_an_iteration::<D, S>(begun.running, iteration, observed);
    law_due_redraws_wait_for_the_foreground(begun, iteration);
    law_what_main_events_change(state, main_event);
    let foreground = in_foreground(state.running, main_event);
    let due = state.pending_redraw || main_event == Some(MainEvent::RedrawNeeded);
    let told = match main_event {
        Some(event) => event_loop::main_event_actions::<D, S>(state, event),
        None => Seq::empty(),
    };
    assert(iteration_actions::<D, S>(state, main_event, observed) =~= only_if::<D, S>(
        true,
        LoopAction::NewEvents(state.cause),
    ) + told + only_if(observed[0].woken, LoopAction::ProxyWakeUp) + only_if(
        foreground && main_event == Some(MainEvent::WindowResized),
        LoopAction::WindowEvent(
            WindowEvent::SurfaceResized(geometry::window_size(observed[1].native_window)),
        ),
    ) + only_if(
        foreground && (due || observed[2].redraw_requested),
        LoopAction::WindowEvent(WindowEvent::RedrawRequested),
    ) + only_if(true, LoopAction::AboutToWait));
}

/// Whether a step has the window drawn or tells of its size.
pub open spec fn is_for_the_foreground<D, S>(action: ActionView<D, S>) -> bool {
    action matches LoopAction::WindowEvent(event) && (event is RedrawRequested
        || event is SurfaceResized)
}

/// An iteration that pauses the activity, or that begins while it is in the background and does not
/// resume it, neither has the window drawn nor tells of its size, whatever is observed, and leaves
/// the activity in the background.
pub proof fn law_background_iterations<D, S>(
    state: LoopState<D>,
    main_event: Option<MainEvent>,
    observed: Seq<Observed>,
)
    requires
        observed.len() == 4,
        !state.running && main_event != Some(MainEvent::Resume) || main_event == Some(
            MainEvent::Pause,
        ),
    ensures
        !iteration_end(state, main_event).running,
        ({
            let actions = iteration_actions::<D, S>(state, main_event, observed);
            forall|i: int|
                0 <= i < actions.len() ==> !is_for_the_foreground(#[trigger] actions[i])
        }),
{
    law_whole_iterations::<D, S>(state, main_event, observed);
    law_what_main_events_change(state, main_event);
    let told = match main_event {
        Some(event) => event_loop::main_event_actions::<D, S>(state, event),
        None => Seq::empty(),
    };
    assert(forall|i: int| 0 <= i < told.len() ==> !is_for_the_foreground(#[trigger] told[i]));
    let actions = iteration_actions::<D, S>(state, main_event, observed);
    let woken = only_if::<D, S>(observed[0].woken, LoopAction::ProxyWakeUp);
    let last = woken + only_if::<D, S>(true, LoopAction::AboutToWait);
    assert(actions =~= only_if::<D, S>(true, LoopAction::NewEvents(state.cause)) + told + last);
    assert forall|i: int| 0 <= i < actions.len() implies !is_for_the_foreground(
        #[trigger] actions[i],
    ) by {
        if 1 <= i < 1 + told.len() {
            assert(actions[i] == told[i - 1]);
        } else if i > told.len() {
            assert(actions[i] == last[i - 1 - told.len()]);
        }
    }
}

/// The state of the loop after iterations that begin with the given main events.
pub open spec fn after_iterations<D>(
    state: LoopState<D>,
    main_events: Seq<Option<MainEvent>>,
) -> LoopState<D>
    decreases main_events.len(),
{
    if main_events.len() == 0 {
        state
    } else {
        iteration_end(after_iterations(state, main_events.drop_last()), main_events.last())
    }
}

/// From a pause until the activity is resumed no iteration has the window drawn or tells of its
/// size, however many there are and whatever is observed.
pub proof fn law_paused_until_resumed<D, S>(
    state: LoopState<D>,
    main_events: Seq<Option<MainEvent>>,
    main_event: Option<MainEvent>,
    observed: Seq<Observed>,
)
    requires
        observed.len() == 4,
        main_event != Some(MainEvent::Resume),
        forall|i: int|
            0 <= i < main_events.len() ==> (#[trigger] main_events[i]) != Some(MainEvent::Resume),
    ensures
        ({
            let paused = iteration_end(state, Some(MainEvent::Pause));
            let later = after_iterations(paused, main_events);
            let actions = iteration_actions::<D, S>(later, main_event, observed);
            &&& !later.running
            &&& forall|i: int|
                0 <= i < actions.len() ==> !is_for_the_foreground(#[trigger] actions[i])
        }),
    decreases main_events.len(),
{
    let paused = iteration_end(state, Some(MainEvent::Pause));
    law_background_iterations::<D, S>(state, Some(MainEvent::Pause), observed);
    let later = after_iterations(paused, main_events);
    if main_events.len() > 0 {
        let last = main_events[main_events.len() - 1];
        assert forall|i: int| 0 <= i < main_events.drop_last().len() implies (
        #[trigger] main_events.drop_last()[i]) != Some(MainEvent::Resume) by {
            assert(main_events[i] != Some(MainEvent::Resume));
        }
        law_paused_until_resumed::<D, S>(state, main_events.drop_last(), last, observed);
        law_background_iterations::<D, S>(
            after_iterations(paused, main_events.drop_last()),
            last,
            observed,
        );
    }
    law_background_iterations::<D, S>(later, main_event, observed);
}

/// Neither input, nor waiting, nor the steps of an iteration or of a batch bring the activity to the
/// foreground or take it from there.
pub proof fn law_only_the_activity_changes_the_foreground<D, S>(
    state: LoopState<D>,
    event: InputEvent<D, S>,
    iteration: Iteration,
    poll_event: PollEvent,
    start: Instant,
    now: Instant,
    redraw_requested: bool,
    woken: bool,
    step: PumpStep,
)
    ensures
        event_loop::input_outcome(state, event).0.running == state.running,
        event_loop::after_step(state, iteration).running == state.running,
        event_loop::with_redraw(state, redraw_requested).running == state.running,
        event_loop::poll_outcome(
            state,
            poll_event,
            start,
            now,
            redraw_requested,
            woken,
        ).0.running == state.running,
        event_loop::pump_outcome(state, step).0.running == state.running,
{
}

/// What input comes to. A motion comes to what it does to the fingers, a key that is not left to the
/// system to one report and the accent that it leaves, an action of the soft keyboard to the key
/// that it stands for, and changed text to what is composed or committed. Nothing else changes.
pub proof fn law_what_input_comes_to<D, S>(state: LoopState<D>, event: InputEvent<D, S>)
    ensures
        ({
            let (after, actions, status) = event_loop::input_outcome(state, event);
            &&& match event {
                InputEvent::Motion(moved) => {
                    &&& (after.touches, actions) == motion::motion_outcome(state.touches, moved)
                    &&& status is Handled
                },
                InputEvent::Key(key) => if status is Handled {
                    &&& actions.len() == 1
                    &&& actions[0] matches LoopAction::KeyboardInput(told)
                    &&& told == keyboard::keyboard_input_of(key)
                    &&& after.combining_accent == key.combining_accent
                } else {
                    actions.len() == 0 && after.combining_accent == state.combining_accent
                },
                InputEvent::Text(input) => {
                    &&& actions == event_loop::text_actions::<D, S>(input)
                    &&& status is Handled
                },
                InputEvent::TextAction(action) => status is Handled && match ime::key_of_action(
                    action,
                ) {
                    Some((named, code)) => {
                        &&& actions.len() == 1
                        &&& actions[0] matches LoopAction::KeyboardInput(told)
                        &&& told == ime::bare_press(named, code)
                    },
                    None => actions.len() == 0,
                },
                InputEvent::Other => actions.len() == 0 && status is Handled,
            }
            &&& !(event is Motion) ==> after.touches == state.touches
            &&& !(event is Key) ==> after.combining_accent == state.combining_accent
            &&& after == (LoopState {
                touches: after.touches,
                combining_accent: after.combining_accent,
                ..state
            })
        }),
{
}

/// Text that is being composed is handed on once, with the cursor as a selection without extent.
/// Any other text ends what was being composed, is committed as it is, and is then taken out of the
/// text under edit, in that order; no text is nothing.
pub proof fn law_what_text_comes_to<D, S>(input: TextInputState)
    ensures
        ({
            let actions = event_loop::text_actions::<D, S>(input);
            match ime::preedit_of(input.text@, input.selection, input.compose_region) {
                Some((composed, cursor)) => {
                    &&& actions.len() == 1
                    &&& actions[0] matches LoopAction::Ime(Ime::Preedit(told, selection))
                    &&& told == composed && selection == Some((cursor, cursor))
                },
                None => if input.text@.len() == 0 {
                    actions.len() == 0
                } else {
                    &&& actions.len() == 3
                    &&& actions[0] matches LoopAction::Ime(Ime::Preedit(told, selection))
                    &&& told.len() == 0 && selection is None
                    &&& actions[1] matches LoopAction::Ime(Ime::Commit(committed))
                    &&& committed == input.text@
                    &&& actions[2] is ResetTextInput
                },
            }
        }),
{
}

/// How long the loop waits: not at all if a proxy woke it, or if there is something to draw in the
/// foreground. Else as long as the caller allows, but not at all if the application polls, and no
/// longer than until the time that the application set.
pub proof fn law_how_long_the_loop_waits<D>(
    state: LoopState<D>,
    start: Instant,
    timeout: Option<Duration>,
    woken: bool,
)
    ensures
        ({
            let wait = event_loop::poll_timeout(state, start, timeout, woken);
            let busy = woken || state.running && state.pending_redraw;
            &&& busy ==> wait == Some(Duration { nanos: 0 })
            &&& !busy ==> match state.target.control_flow {
                ControlFlow::Wait => wait == timeout,
                ControlFlow::Poll => wait == Some(Duration { nanos: 0 }),
                ControlFlow::WaitUntil(deadline) => {
                    &&& wait matches Some(wait)
                    &&& wait.nanos == 0 || start.nanos + wait.nanos <= deadline.nanos
                    &&& timeout matches Some(limit) ==> wait.nanos <= limit.nanos
                    &&& start.nanos + wait.nanos >= deadline.nanos || (timeout matches Some(limit)
                        && wait.nanos == limit.nanos)
                },
            }
        }),
{
}

/// What the end of a wait leads to. The loop goes on sleeping only if it was woken and there is
/// nothing to do: no proxy woke it, and there is nothing to draw in the foreground, counting what is
/// asked for now. Else it runs, with the main event if that ended the wait, and the cause tells how
/// the application let it wait, since when, and whether the time that it set has come. Being woken
/// notes what was asked to be drawn; nothing else changes.
pub proof fn law_what_ends_of_waits_lead_to<D>(
    state: LoopState<D>,
    event: PollEvent,
    start: Instant,
    now: Instant,
    redraw_requested: bool,
    woken: bool,
)
    ensures
        ({
            let (after, outcome) = event_loop::poll_outcome(
                state,
                event,
                start,
                now,
                redraw_requested,
                woken,
            );
            let due = state.pending_redraw || (event is Wake && redraw_requested);
            &&& outcome is Ignore <==> event is Wake && !woken && !(state.running && due)
            &&& outcome matches PollOutcome::Iterate(main_event) ==> {
                &&& match event {
                    PollEvent::Main(told) => main_event == Some(told),
                    _ => main_event is None,
                }
                &&& match after.cause {
                    StartCause::Poll => state.target.control_flow is Poll,
                    StartCause::WaitCancelled { start: since, requested_resume } => {
                        &&& since == start
                        &&& match requested_resume {
                            None => state.target.control_flow is Wait,
                            Some(deadline) => state.target.control_flow == ControlFlow::WaitUntil(
                                deadline,
                            ) && now.nanos < deadline.nanos,
                        }
                    },
                    StartCause::ResumeTimeReached { start: since, requested_resume } => {
                        &&& since == start
                        &&& state.target.control_flow == ControlFlow::WaitUntil(requested_resume)
                        &&& now.nanos >= requested_resume.nanos
                    },
                    StartCause::Init => false,
                }
            }
            &&& outcome is Ignore ==> after.cause == state.cause
            &&& after.pending_redraw == due
            &&& after == (LoopState {
                pending_redraw: after.pending_redraw,
                cause: after.cause,
                ..state
            })
        }),
{
}

/// A redraw that was asked for is due, and so is one that was due before; nothing else changes.
pub proof fn law_requests_are_noted<D>(state: LoopState<D>, redraw_requested: bool)
    ensures
        event_loop::with_redraw(state, redraw_requested).pending_redraw <==> state.pending_redraw
            || redraw_requested,
        event_loop::with_redraw(state, redraw_requested) == (LoopState {
            pending_redraw: event_loop::with_redraw(state, redraw_requested).pending_redraw,
            ..state
        }),
{
}

/// How a batch of events goes on. A loop that has not begun is set to its beginning and runs its
/// first iteration. After that, or if it had begun, it waits for events, unless it is to exit; and
/// after that the batch is over. It leaves the loop over exactly if the loop is to exit, and without
/// an error. Nothing else changes.
pub proof fn law_how_batches_go_on<D>(state: LoopState<D>, step: PumpStep)
    ensures
        ({
            let (after, action) = event_loop::pump_outcome(state, step);
            &&& action is Initialize <==> step is Begin && !state.loop_running
            &&& action is Poll <==> !(action is Initialize) && !(step is Polled)
                && !state.target.exiting
            &&& action matches PumpAction::Return(status) ==> match status {
                PumpStatus::Exit(code) => state.target.exiting && code == 0 && !after.loop_running,
                PumpStatus::Continue => !state.target.exiting && after.loop_running
                    == state.loop_running,
            }
            &&& action is Initialize ==> after.loop_running && !after.pending_redraw
                && after.cause is Init
            &&& action is Poll ==> after == state
            &&& !(action is Initialize) ==> after.pending_redraw == state.pending_redraw
                && after.cause == state.cause
            &&& after == (LoopState {
                loop_running: after.loop_running,
                pending_redraw: after.pending_redraw,
                cause: after.cause,
                ..state
            })
        }),
{
}

/// Input is complete exactly if it is no motion, or a motion that has the pointer that it is about.
pub proof fn law_when_input_is_complete<D, S>(event: InputEvent<D, S>)
    ensures
        !(event is Motion) ==> event_loop::is_complete(event),
        event matches InputEvent::Motion(moved) ==> (event_loop::is_complete(event)
            <==> moved.action is Move || moved.action is Cancel || moved.action is Other
            || moved.pointer_index < moved.pointers@.len()),
{
}

/// An iteration that is done asks for nothing and stays done, and the steps before the last leave the
/// loop as it is.
pub proof fn law_done_iterations_do_nothing<D, S>(
    state: LoopState<D>,
    iteration: Iteration,
    observed: Observed,
)
    ensures
        iteration.step is Done ==> {
            &&& event_loop::step_actions::<D, S>(state.running, iteration, observed).len() == 0
            &&& event_loop::iteration_after(state.running, iteration) == iteration
        },
        !(iteration.step is Wait) ==> event_loop::after_step(state, iteration) == state,
{
}

} // verus!
