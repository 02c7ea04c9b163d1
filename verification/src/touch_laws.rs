//! What holds of the fingers on the screen and of their gestures over any run of motions.
use vstd::prelude::*;

use crate::action::{ActionView, LoopAction, TouchGesture};
use crate::android::{MotionAction, MotionEvent, MotionPointer, Source};
use crate::event::{DeviceId, FingerId, PointerKind, TouchPhase, WindowEvent};
use crate::motion::Outcome;
use crate::touch::{Contacts, TouchContact, Touches};
use crate::{motion, pointer, table, touch};

verus! {

/// What is known of the fingers hangs together: none is known twice, the primary one is among
/// them, and the gestures are those that so many fingers make.
pub open spec fn consistent<D>(touches: Touches<D>) -> bool {
    &&& table::keys_distinct(touches.contacts)
    &&& touches.primary_pointer matches Some(finger_id) ==> table::has_key(
        touches.contacts,
        finger_id,
    )
    &&& touches.gestures == touch::gestures_with(touches.contacts)
}

/// What is known before anything touched the screen hangs together.
pub proof fn law_consistent_at_first<D>()
    ensures
        consistent(touch::no_touches::<D>()),
{
    assert(touch::gestures_with(Contacts::<D>::empty()) =~= touch::no_gestures());
}

proof fn lemma_has_key_with_entry<K, W>(entries: Seq<(K, W)>, key: K, value: W, other: K)
    requires
        table::keys_distinct(entries),
    ensures
        table::has_key(table::with_entry(entries, key, value), other) <==> (other == key
            || table::has_key(entries, other)),
{
    table::law_with_entry(entries, key, value);
    let after = table::with_entry(entries, key, value);
    assert(table::lookup(after, other) == if other == key {
        Some(value)
    } else {
        table::lookup(entries, other)
    });
}

proof fn lemma_has_key_without<K, W>(entries: Seq<(K, W)>, key: K, other: K)
    requires
        table::keys_distinct(entries),
    ensures
        table::has_key(table::without_key(entries, key), other) <==> (other != key
            && table::has_key(entries, other)),
{
    table::law_without_key(entries, key);
    let after = table::without_key(entries, key);
    assert(table::lookup(after, other) == if other == key {
        None
    } else {
        table::lookup(entries, other)
    });
}

/// Apart from the gestures, what is known of the fingers hangs together.
pub open spec fn sound_contacts<D>(touches: Touches<D>) -> bool {
    &&& table::keys_distinct(touches.contacts)
    &&& touches.primary_pointer matches Some(finger_id) ==> table::has_key(
        touches.contacts,
        finger_id,
    )
}

/// Moving keeps hanging together what is known of the fingers.
pub proof fn lemma_move_keeps_contacts<D, S>(
    touches: Touches<D>,
    source: Source,
    pointers: Seq<MotionPointer<D, S>>,
    device_id: Option<DeviceId>,
)
    requires
        sound_contacts(touches),
    ensures
        ({
            let after = motion::pointers_moved(touches, source, pointers, device_id).0;
            &&& sound_contacts(after)
            &&& after.primary_pointer == touches.primary_pointer
            &&& after.gestures == touches.gestures
            &&& !motion::any_finger(source, pointers) ==> after == touches
        }),
    decreases pointers.len(),
{
    if pointers.len() > 0 {
        let earlier = pointers.drop_last();
        let at = pointers.last();
        lemma_move_keeps_contacts(touches, source, earlier, device_id);
        let before = motion::pointers_moved(touches, source, earlier, device_id).0;
        if motion::is_finger(source, at) {
            assert(motion::is_finger(source, pointers[pointers.len() - 1]));
            let after = touch::after_touch_move(before, at.finger(), device_id, at.position);
            let known_device = match table::lookup(before.contacts, at.finger()) {
                Some(contact) => contact.device_id,
                None => device_id,
            };
            let contact = TouchContact { device_id: known_device, position: at.position };
            table::law_with_entry(before.contacts, at.finger(), contact);
            if let Some(primary) = touches.primary_pointer {
                lemma_has_key_with_entry(before.contacts, at.finger(), contact, primary);
            }
        }
        if motion::any_finger(source, earlier) {
            let i = choose|i: int|
                0 <= i < earlier.len() && motion::is_finger(source, #[trigger] earlier[i]);
            assert(motion::is_finger(source, pointers[i]));
        }
    }
}

/// Whatever a motion does, what is known of the fingers still hangs together. In particular a pan
/// is going on exactly while several fingers touch the screen, and a pinch and a rotation exactly
/// while two do.
pub proof fn law_motions_keep_consistency<D, S>(touches: Touches<D>, motion: MotionEvent<D, S>)
    requires
        consistent(touches),
        motion::has_its_pointer(motion),
    ensures
        consistent(motion::motion_outcome(touches, motion).0),
{
    let at = motion.pointers@[motion.pointer_index as int];
    let device_id = crate::android::device_of(motion.device_id);
    match motion.action {
        MotionAction::Down | MotionAction::PointerDown => {
            if motion::is_finger(motion.source, at) {
                let contact = TouchContact { device_id, position: at.position };
                table::law_with_entry(touches.contacts, at.finger(), contact);
                lemma_has_key_with_entry(touches.contacts, at.finger(), contact, at.finger());
                if let Some(primary) = touches.primary_pointer {
                    lemma_has_key_with_entry(touches.contacts, at.finger(), contact, primary);
                }
            }
        },
        MotionAction::Up | MotionAction::PointerUp => {
            if motion::is_finger(motion.source, at) {
                table::law_without_key(touches.contacts, at.finger());
                if let Some(primary) = touches.primary_pointer {
                    lemma_has_key_without(touches.contacts, at.finger(), primary);
                }
            }
        },
        MotionAction::Move => {
            lemma_move_keeps_contacts(touches, motion.source, motion.pointers@, device_id);
        },
        MotionAction::Cancel => {
            assert(touches.contacts.len() == 0 ==> touches.contacts =~= Contacts::<D>::empty());
        },
        _ => {},
    }
}

/// When a motion is cut short nothing is left of fingers and gestures.
pub proof fn law_cancel_leaves_nothing<D, S>(
    touches: Touches<D>,
    source: Source,
    pointers: Seq<MotionPointer<D, S>>,
    device_id: Option<DeviceId>,
)
    requires
        consistent(touches),
    ensures
        motion::motion_cancel(touches, source, pointers, device_id).0 == touch::no_touches::<D>(),
{
    assert(touch::gestures_with(Contacts::<D>::empty()) =~= touch::no_gestures());
    assert(touches.contacts.len() == 0 ==> touches.contacts =~= Contacts::<D>::empty());
}

/// A finger that comes down and is lifted again leaves everything as it was.
pub proof fn law_down_and_up<D, S>(
    touches: Touches<D>,
    source: Source,
    down: MotionPointer<D, S>,
    up: MotionPointer<D, S>,
    device_id: Option<DeviceId>,
    first: bool,
)
    requires
        consistent(touches),
        motion::is_finger(source, down),
        motion::is_finger(source, up),
        up.pointer_id == down.pointer_id,
        !table::has_key(touches.contacts, down.finger()),
        first ==> touches.primary_pointer is None,
    ensures
        ({
            let held = motion::contact_down(touches, source, down, device_id, first).0;
            &&& motion::contact_up(held, source, up, device_id).0 == touches
        }),
{
    let contact = TouchContact { device_id, position: down.position };
    let finger = down.finger();
    let entries = table::with_entry(touches.contacts, finger, contact);
    table::law_with_entry(touches.contacts, finger, contact);
    assert(entries[touches.contacts.len() as int].0 == finger);
    assert(table::key_index(entries, finger) == touches.contacts.len());
    assert(table::without_key(entries, finger) =~= touches.contacts);
    let held = motion::contact_down(touches, source, down, device_id, first).0;
    let after = motion::contact_up(held, source, up, device_id).0;
    assert(after.contacts =~= touches.contacts);
    assert(after.primary_pointer == touches.primary_pointer);
}

/// The finger that a step reports as having left.
pub open spec fn finger_left<D, S>(action: ActionView<D, S>) -> Option<FingerId> {
    match action {
        LoopAction::WindowEvent(
            WindowEvent::PointerLeft { kind: PointerKind::Touch(finger_id), .. },
        ) => Some(finger_id),
        _ => None,
    }
}

/// Whether a step reports that the primary pointer left.
pub open spec fn primary_left<D, S>(action: ActionView<D, S>) -> bool {
    match action {
        LoopAction::WindowEvent(WindowEvent::PointerLeft { primary, .. }) => primary,
        _ => false,
    }
}

/// Giving up all fingers reports each of them as having left, once, and none but the primary one
/// as primary.
pub proof fn law_each_finger_leaves_once<D, S>(touches: Touches<D>)
    requires
        consistent(touches),
    ensures
        ({
            let actions = touch::touch_cancellations::<D, S>(touches);
            &&& actions.len() == touches.contacts.len()
            &&& forall|i: int|
                0 <= i < actions.len() ==> match finger_left(#[trigger] actions[i]) {
                    Some(finger_id) => {
                        &&& table::has_key(touches.contacts, finger_id)
                        &&& primary_left(actions[i]) == (touches.primary_pointer == Some(
                            finger_id,
                        ))
                    },
                    None => false,
                }
            &&& forall|i: int, j: int|
                0 <= i < j < actions.len() ==> finger_left(#[trigger] actions[i])
                    != finger_left(#[trigger] actions[j])
        }),
{
    let actions = touch::touch_cancellations::<D, S>(touches);
    match touches.primary_pointer {
        Some(primary) => {
            let others = table::without_key(touches.contacts, primary);
            table::law_without_key(touches.contacts, primary);
            assert forall|i: int| 0 <= i < others.len() implies (#[trigger] others[i]).0 != primary
                && table::has_key(touches.contacts, others[i].0) by {
                assert(table::has_key(others, others[i].0));
                lemma_has_key_without(touches.contacts, primary, others[i].0);
            }
            assert forall|i: int| 0 <= i < actions.len() implies finger_left(#[trigger] actions[i])
                == Some(
                if i == 0 {
                    primary
                } else {
                    others[i - 1].0
                },
            ) && primary_left(actions[i]) == (i == 0) by {}
        },
        None => {
            assert forall|i: int| 0 <= i < actions.len() implies finger_left(#[trigger] actions[i])
                == Some(touches.contacts[i].0) && !primary_left(actions[i]) by {
                assert(table::has_key(touches.contacts, touches.contacts[i].0));
            }
        },
    }
}

/// The gestures that are told apart.
pub enum GestureKind {
    Pan,
    Pinch,
    Rotation,
}

/// The phase of a gesture of some kind that a step reports.
pub open spec fn phase_of<D, S>(action: ActionView<D, S>, kind: GestureKind) -> Option<
    TouchPhase,
> {
    match (action, kind) {
        (LoopAction::TouchGesture(TouchGesture::Pan { phase, .. }), GestureKind::Pan) => Some(
            phase,
        ),
        (LoopAction::TouchGesture(TouchGesture::Pinch { phase, .. }), GestureKind::Pinch) => Some(
            phase,
        ),
        (
            LoopAction::TouchGesture(TouchGesture::Rotation { phase, .. }),
            GestureKind::Rotation,
        ) => Some(phase),
        _ => None,
    }
}

/// Whether a gesture of some kind is going on after a run of steps; none if the steps do not fit
/// together: a gesture may only start while it is not going on, and may only move or end while it
/// is.
pub open spec fn gesture_run<D, S>(
    actions: Seq<ActionView<D, S>>,
    kind: GestureKind,
    active: bool,
) -> Option<bool>
    decreases actions.len(),
{
    if actions.len() == 0 {
        Some(active)
    } else {
        match (
            gesture_run(actions.drop_last(), kind, active),
            phase_of(actions.last(), kind),
        ) {
            (Some(active), None) => Some(active),
            (Some(active), Some(TouchPhase::Started)) => if active {
                None
            } else {
                Some(true)
            },
            (Some(active), Some(TouchPhase::Moved)) => if active {
                Some(true)
            } else {
                None
            },
            (Some(active), Some(_)) => if active {
                Some(false)
            } else {
                None
            },
            (None, _) => None,
        }
    }
}

/// Whether a gesture of some kind is going on.
pub open spec fn active<D>(touches: Touches<D>, kind: GestureKind) -> bool {
    match kind {
        GestureKind::Pan => touches.gestures.pan_active,
        GestureKind::Pinch | GestureKind::Rotation => touches.gestures.transform_active,
    }
}

/// A run of steps may be looked at in two parts.
pub proof fn lemma_gesture_run_concat<D, S>(
    first: Seq<ActionView<D, S>>,
    second: Seq<ActionView<D, S>>,
    kind: GestureKind,
    active: bool,
)
    ensures
        gesture_run(first + second, kind, active) == match gesture_run(first, kind, active) {
            Some(active) => gesture_run(second, kind, active),
            None => None,
        },
    decreases second.len(),
{
    if second.len() == 0 {
        assert(first + second =~= first);
    } else {
        assert((first + second).drop_last() =~= first + second.drop_last());
        lemma_gesture_run_concat(first, second.drop_last(), kind, active);
    }
}

/// Steps that report no gesture leave the gestures alone.
pub proof fn lemma_no_gesture_run<D, S>(
    actions: Seq<ActionView<D, S>>,
    kind: GestureKind,
    active: bool,
)
    requires
        forall|i: int| 0 <= i < actions.len() ==> phase_of(#[trigger] actions[i], kind) is None,
    ensures
        gesture_run(actions, kind, active) == Some(active),
    decreases actions.len(),
{
    if actions.len() > 0 {
        assert(phase_of(actions[actions.len() - 1], kind) is None);
        lemma_no_gesture_run(actions.drop_last(), kind, active);
    }
}

proof fn lemma_single_run<D, S>(action: ActionView<D, S>, kind: GestureKind, active: bool)
    ensures
        gesture_run(seq![action], kind, active) == match phase_of(action, kind) {
            None => Some(active),
            Some(TouchPhase::Started) => if active {
                None
            } else {
                Some(true)
            },
            Some(TouchPhase::Moved) => if active {
                Some(true)
            } else {
                None
            },
            Some(_) => if active {
                Some(false)
            } else {
                None
            },
        },
{
    assert(seq![action].drop_last() =~= Seq::empty());
    reveal_with_fuel(gesture_run, 2);
}

proof fn lemma_pair_run<D, S>(
    one: ActionView<D, S>,
    other: ActionView<D, S>,
    kind: GestureKind,
    active: bool,
)
    ensures
        gesture_run(seq![one, other], kind, active) == match gesture_run(
            seq![one],
            kind,
            active,
        ) {
            Some(active) => gesture_run(seq![other], kind, active),
            None => None,
        },
{
    assert(seq![one, other] =~= seq![one] + seq![other]);
    lemma_gesture_run_concat(seq![one], seq![other], kind, active);
}

/// Bringing the gestures up to date reports steps that fit onto the gestures before and lead to
/// the gestures after.
pub proof fn law_sync_fits<D, S>(
    touches: Touches<D>,
    device_id: Option<DeviceId>,
    moved: bool,
    cancelled: bool,
    kind: GestureKind,
)
    ensures
        gesture_run(
            touch::sync_actions::<D, S>(touches, device_id, moved, cancelled),
            kind,
            active(touches, kind),
        ) == Some(active(touch::synced(touches), kind)),
{
    let contacts = touches.contacts;
    let gestures = touches.gestures;
    let several = contacts.len() >= 2;
    let two = contacts.len() == 2;
    let pan_change = match touch::phase_change(gestures.pan_active, several, cancelled) {
        Some(phase) => seq![
            LoopAction::TouchGesture(
                TouchGesture::Pan { device_id, delta: crate::action::Change::Zero, phase },
            ),
        ],
        None => Seq::<ActionView<D, S>>::empty(),
    };
    let transform_change = match touch::phase_change(gestures.transform_active, two, cancelled) {
        Some(phase) => seq![
            LoopAction::TouchGesture(
                TouchGesture::Pinch { device_id, delta: crate::action::Change::Zero, phase },
            ),
            LoopAction::TouchGesture(
                TouchGesture::Rotation { device_id, delta: crate::action::Change::Zero, phase },
            ),
        ],
        None => Seq::<ActionView<D, S>>::empty(),
    };
    let pan_move = match gestures.points {
        Some(previous) if moved && several => seq![
            LoopAction::TouchGesture(
                TouchGesture::Pan {
                    device_id,
                    delta: crate::action::Change::Between {
                        previous,
                        current: touch::points_of(contacts),
                    },
                    phase: TouchPhase::Moved,
                },
            ),
        ],
        _ => Seq::<ActionView<D, S>>::empty(),
    };
    let transform_move = match (gestures.segment, touch::segment_of(contacts)) {
        (Some(previous), Some(current)) if moved => {
            let delta = crate::action::Change::Between { previous, current };
            seq![
                LoopAction::TouchGesture(
                    TouchGesture::Pinch { device_id, delta, phase: TouchPhase::Moved },
                ),
                LoopAction::TouchGesture(
                    TouchGesture::Rotation { device_id, delta, phase: TouchPhase::Moved },
                ),
            ]
        },
        _ => Seq::<ActionView<D, S>>::empty(),
    };
    let actions = touch::sync_actions::<D, S>(touches, device_id, moved, cancelled);
    assert(actions =~= pan_change + transform_change + pan_move + transform_move);
    let was = active(touches, kind);
    let is = active(touch::synced(touches), kind);
    lemma_gesture_run_concat(pan_change, transform_change, kind, was);
    lemma_gesture_run_concat(pan_change + transform_change, pan_move, kind, was);
    lemma_gesture_run_concat(
        pan_change + transform_change + pan_move,
        transform_move,
        kind,
        was,
    );
    assert forall|a: bool| #[trigger] gesture_run(Seq::<ActionView<D, S>>::empty(), kind, a) == Some(
        a,
    ) by {}
    if pan_change.len() == 1 {
        lemma_single_run(pan_change[0], kind, was);
        assert(pan_change =~= seq![pan_change[0]]);
    }
    let between = gesture_run(pan_change, kind, was);
    assert(between == Some(
        if kind is Pan {
            is
        } else {
            was
        },
    ));
    if transform_change.len() == 2 {
        lemma_pair_run(transform_change[0], transform_change[1], kind, between->0);
        lemma_single_run(transform_change[0], kind, between->0);
        lemma_single_run(transform_change[1], kind, between->0);
        lemma_single_run(transform_change[1], kind, is);
        assert(transform_change =~= seq![transform_change[0], transform_change[1]]);
    }
    assert(gesture_run(pan_change + transform_change, kind, was) == Some(is));
    if pan_move.len() == 1 {
        lemma_single_run(pan_move[0], kind, is);
        assert(pan_move =~= seq![pan_move[0]]);
    }
    if transform_move.len() == 2 {
        lemma_pair_run(transform_move[0], transform_move[1], kind, is);
        lemma_single_run(transform_move[0], kind, is);
        lemma_single_run(transform_move[1], kind, is);
        assert(transform_move =~= seq![transform_move[0], transform_move[1]]);
    }
}

proof fn lemma_then_sync_fits<D, S>(
    outcome: Outcome<D, S>,
    device_id: Option<DeviceId>,
    moved: bool,
    cancelled: bool,
    kind: GestureKind,
)
    requires
        forall|i: int| 0 <= i < outcome.1.len() ==> (#[trigger] outcome.1[i]) is WindowEvent,
    ensures
        ({
            let after = motion::then_sync(outcome, device_id, moved, cancelled);
            gesture_run(after.1, kind, active(outcome.0, kind)) == Some(active(after.0, kind))
        }),
{
    let synced = touch::sync_actions::<D, S>(outcome.0, device_id, moved, cancelled);
    lemma_no_gesture_run(outcome.1, kind, active(outcome.0, kind));
    lemma_gesture_run_concat(outcome.1, synced, kind, active(outcome.0, kind));
    law_sync_fits::<D, S>(outcome.0, device_id, moved, cancelled, kind);
}

/// Moving reports events of the window, and leaves the gestures alone.
pub proof fn lemma_moves_are_window_events<D, S>(
    touches: Touches<D>,
    source: Source,
    pointers: Seq<MotionPointer<D, S>>,
    device_id: Option<DeviceId>,
)
    ensures
        forall|i: int|
            0 <= i < motion::pointers_moved(touches, source, pointers, device_id).1.len()
                ==> (#[trigger] motion::pointers_moved(touches, source, pointers, device_id).1[i])
                is WindowEvent,
        motion::pointers_moved(touches, source, pointers, device_id).0.gestures
            == touches.gestures,
    decreases pointers.len(),
{
    if pointers.len() > 0 {
        lemma_moves_are_window_events(touches, source, pointers.drop_last(), device_id);
    }
}

/// Leaving is reported with events of the window.
pub proof fn lemma_others_left_are_window_events<D, S>(
    source: Source,
    pointers: Seq<MotionPointer<D, S>>,
    device_id: Option<DeviceId>,
)
    ensures
        forall|i: int|
            0 <= i < motion::others_left(source, pointers, device_id).len() ==> (
            #[trigger] motion::others_left(source, pointers, device_id)[i]) is WindowEvent,
    decreases pointers.len(),
{
    if pointers.len() > 0 {
        lemma_others_left_are_window_events(source, pointers.drop_last(), device_id);
    }
}

/// Whether a step reports something to the application about its window.
pub open spec fn reports<D, S>(action: ActionView<D, S>) -> bool {
    action is WindowEvent || action is TouchGesture
}

/// All that follows from a motion is that the application is told of it.
pub proof fn law_motions_only_report<D, S>(touches: Touches<D>, motion: MotionEvent<D, S>)
    requires
        motion::has_its_pointer(motion),
    ensures
        ({
            let actions = motion::motion_outcome(touches, motion).1;
            forall|i: int| 0 <= i < actions.len() ==> reports(#[trigger] actions[i])
        }),
{
    let device_id = crate::android::device_of(motion.device_id);
    lemma_moves_are_window_events(touches, motion.source, motion.pointers@, device_id);
    lemma_others_left_are_window_events(motion.source, motion.pointers@, device_id);
}

/// Over any motions, gestures are reported as a whole: each starts once, moves only while it is
/// going on, and ends or is cancelled once.
pub proof fn law_gestures_are_whole<D, S>(
    touches: Touches<D>,
    motion: MotionEvent<D, S>,
    kind: GestureKind,
)
    requires
        motion::has_its_pointer(motion),
    ensures
        gesture_run(
            motion::motion_outcome(touches, motion).1,
            kind,
            active(touches, kind),
        ) == Some(active(motion::motion_outcome(touches, motion).0, kind)),
{
    let at = motion.pointers@[motion.pointer_index as int];
    let device_id = crate::android::device_of(motion.device_id);
    let source = motion.source;
    let outcome = motion::motion_outcome(touches, motion);
    match motion.action {
        MotionAction::Down | MotionAction::PointerDown => {
            let first = motion.action is Down;
            match pointer::classified(source, at) {
                Some(state) => {
                    let primary = !(state.kind is Touch) || first;
                    let actions = seq![
                        motion::entered(device_id, at, primary, state),
                        motion::button_used(
                            device_id,
                            at,
                            primary,
                            crate::event::ElementState::Pressed,
                            state.source.contact(),
                        ),
                    ];
                    if state.kind is Touch {
                        let contact = TouchContact { device_id, position: at.position };
                        lemma_then_sync_fits(
                            (
                                touch::after_touch_down(touches, at.finger(), contact, first),
                                actions,
                            ),
                            device_id,
                            false,
                            false,
                            kind,
                        );
                    } else {
                        lemma_no_gesture_run(actions, kind, active(touches, kind));
                    }
                },
                None => {},
            }
        },
        MotionAction::Up | MotionAction::PointerUp => {
            match pointer::classified(source, at) {
                Some(state) => {
                    let primary = !(state.kind is Touch) || touches.primary_pointer == Some(
                        at.finger(),
                    );
                    let actions = seq![
                        motion::button_used(
                            device_id,
                            at,
                            primary,
                            crate::event::ElementState::Released,
                            state.source.contact(),
                        ),
                        motion::left(device_id, at, primary, state),
                    ];
                    if state.kind is Touch {
                        lemma_then_sync_fits(
                            (touch::after_touch_up(touches, at.finger()), actions),
                            device_id,
                            false,
                            false,
                            kind,
                        );
                    } else {
                        lemma_no_gesture_run(actions, kind, active(touches, kind));
                    }
                },
                None => {},
            }
        },
        MotionAction::Move => {
            let moved = motion::pointers_moved(touches, source, motion.pointers@, device_id);
            lemma_moves_are_window_events(touches, source, motion.pointers@, device_id);
            if motion::any_finger(source, motion.pointers@) {
                lemma_then_sync_fits(moved, device_id, true, false, kind);
            } else {
                lemma_no_gesture_run(moved.1, kind, active(touches, kind));
            }
        },
        MotionAction::Cancel => {
            let others = motion::others_left(source, motion.pointers@, device_id);
            lemma_others_left_are_window_events(source, motion.pointers@, device_id);
            let fingers = touch::touch_cancellations::<D, S>(touches);
            assert(forall|i: int|
                0 <= i < fingers.len() ==> (#[trigger] fingers[i]) is WindowEvent);
            let given_up = Touches {
                primary_pointer: None,
                contacts: Seq::empty(),
                ..touches
            };
            assert(forall|i: int|
                0 <= i < (others + fingers).len() ==> (#[trigger] (others + fingers)[i]) is WindowEvent);
            if touches.contacts.len() > 0 || touch::gesturing(touches) {
                lemma_then_sync_fits(
                    (given_up, others + fingers),
                    device_id,
                    false,
                    true,
                    kind,
                );
            } else {
                lemma_no_gesture_run(others + fingers, kind, active(touches, kind));
            }
        },
        _ => {
            lemma_no_gesture_run(outcome.1, kind, active(touches, kind));
        },
    }
}

/// Giving up all fingers and gestures ends every gesture that was going on.
pub proof fn law_abandoning_ends_gestures<D, S>(touches: Touches<D>, kind: GestureKind)
    ensures
        gesture_run(touch::abandon_actions::<D, S>(touches), kind, active(touches, kind)) == Some(
            false,
        ),
{
    let fingers = touch::touch_cancellations::<D, S>(touches);
    assert(forall|i: int| 0 <= i < fingers.len() ==> (#[trigger] fingers[i]) is WindowEvent);
    lemma_no_gesture_run(fingers, kind, active(touches, kind));
    let given_up = Touches { contacts: Seq::empty(), ..touches };
    if touch::gesturing(touches) {
        law_sync_fits::<D, S>(given_up, None, false, true, kind);
        lemma_gesture_run_concat(
            fingers,
            touch::sync_actions::<D, S>(given_up, None, false, true),
            kind,
            active(touches, kind),
        );
    } else {
        assert(fingers + Seq::<ActionView<D, S>>::empty() =~= fingers);
        assert(touch::abandon_actions::<D, S>(touches) =~= fingers);
    }
}

/// Of two fingers the one with the lower number always comes first, in whatever order they came.
pub proof fn law_segment_does_not_depend_on_order<D>(
    one: (FingerId, TouchContact<D>),
    other: (FingerId, TouchContact<D>),
)
    requires
        one.0 != other.0,
    ensures
        touch::segment_of(seq![one, other]) == touch::segment_of(seq![other, one]),
{
}

} // verus!
