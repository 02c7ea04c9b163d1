//! What motions of pointers come to, in terms of the pointers that move and of the fingers that are
//! down before and after.
use vstd::prelude::*;

use crate::action::{ActionView, Change, LoopAction, Segment, TouchGesture};
use crate::android::{Button, MotionAction, MotionEvent, MotionPointer, Source};
use crate::event::{
    DeviceId, ElementState, FingerId, MouseScrollDelta, PointerKind, TouchPhase, WindowEvent,
};
use crate::geometry::PhysicalPosition;
use crate::touch::{Contacts, TouchContact, TouchGestureState, Touches};
use crate::touch_laws::GestureKind;
use crate::{motion, pointer, table, touch, touch_laws};

verus! {

/// The kind of a pointer of a motion; none for a palm.
pub open spec fn kind_of<D, S>(source: Source, at: MotionPointer<D, S>) -> Option<PointerKind> {
    pointer::classify(source, at.tool_type, FingerId(at.pointer_id as usize))
}

/// Whether a pointer of a motion is the given finger.
pub open spec fn is_the_finger<D, S>(
    source: Source,
    at: MotionPointer<D, S>,
    finger: FingerId,
) -> bool {
    kind_of(source, at) == Some(PointerKind::Touch(finger))
}

/// Whether a motion has a finger among its pointers.
pub open spec fn has_finger<D, S>(motion: MotionEvent<D, S>) -> bool {
    exists|i: int|
        0 <= i < motion.pointers@.len() && (kind_of(
            motion.source,
            #[trigger] motion.pointers@[i],
        ) matches Some(kind) && kind is Touch)
}

/// Which motions are about one of their pointers, and so have to have it: those that touch, leave,
/// hover, scroll or use a button.
pub proof fn law_which_motions_are_about_a_pointer<D, S>(motion: MotionEvent<D, S>)
    ensures
        motion.action is Move || motion.action is Cancel || motion.action is Other
            ==> motion::has_its_pointer(motion),
        !(motion.action is Move || motion.action is Cancel || motion.action is Other) ==> (
        motion::has_its_pointer(motion) <==> motion.pointer_index < motion.pointers@.len()),
{
}

/// The places of all fingers that are down.
pub open spec fn places<D>(contacts: Contacts<D>) -> Seq<PhysicalPosition<D>> {
    Seq::new(contacts.len(), |i: int| contacts[i].1.position)
}

/// The line from the lower numbered of two fingers to the higher numbered one.
pub open spec fn line<D>(contacts: Contacts<D>) -> Segment<D> {
    if contacts[1].0.0 < contacts[0].0.0 {
        Segment { first: contacts[1].1.position, second: contacts[0].1.position }
    } else {
        Segment { first: contacts[0].1.position, second: contacts[1].1.position }
    }
}

/// Whether the gestures remembered are those that the given fingers make: two fingers or more pan,
/// and exactly two pinch and rotate along the line through them.
pub open spec fn remembers<D>(
    gestures: TouchGestureState<D, Seq<PhysicalPosition<D>>>,
    contacts: Contacts<D>,
) -> bool {
    &&& gestures.pan_active <==> contacts.len() >= 2
    &&& gestures.transform_active <==> contacts.len() == 2
    &&& contacts.len() == 0 ==> gestures.points is None
    &&& contacts.len() > 0 ==> gestures.points == Some(places(contacts))
    &&& contacts.len() == 2 ==> gestures.segment == Some(line(contacts))
    &&& contacts.len() != 2 ==> gestures.segment is None
}

/// Where fingers and gestures hang together, the gestures are those that the fingers make, no
/// finger is known twice, and the primary finger is down.
pub proof fn law_what_hangs_together<D>(touches: Touches<D>)
    requires
        touch_laws::consistent(touches),
    ensures
        remembers(touches.gestures, touches.contacts),
        forall|i: int, j: int|
            0 <= i < j < touches.contacts.len() ==> (#[trigger] touches.contacts[i]).0 != (
            #[trigger] touches.contacts[j]).0,
        touches.primary_pointer matches Some(finger) ==> exists|i: int|
            0 <= i < touches.contacts.len() && (#[trigger] touches.contacts[i]).0 == finger,
{
    assert(touch::points_of(touches.contacts) =~= places(touches.contacts));
}

/// Nothing is down and nothing goes on before anything touched the screen.
pub proof fn law_nothing_at_first<D>()
    ensures
        touch::no_touches::<D>().contacts.len() == 0,
        touch::no_touches::<D>().primary_pointer is None,
        remembers(touch::no_touches::<D>().gestures, Seq::empty()),
{
}

/// A snapshot of the fingers has all their places and, if there are two, the line through them.
pub proof fn law_snapshots<D>(contacts: Contacts<D>)
    ensures
        match touch::snapshot_of(contacts) {
            Some(snapshot) => {
                &&& contacts.len() > 0
                &&& snapshot.points == places(contacts)
                &&& contacts.len() == 2 ==> snapshot.segment == Some(line(contacts))
                &&& contacts.len() != 2 ==> snapshot.segment is None
            },
            None => contacts.len() == 0,
        },
{
    assert(touch::points_of(contacts) =~= places(contacts));
}

/// A step if a condition holds.
pub open spec fn told_if<D, S>(
    condition: bool,
    gesture: TouchGesture<D, Seq<PhysicalPosition<D>>>,
) -> Seq<ActionView<D, S>> {
    if condition {
        seq![LoopAction::TouchGesture(gesture)]
    } else {
        Seq::empty()
    }
}

/// What is told of gestures when the fingers that are down change from `before` to `now`: a gesture
/// starts once there are fingers for it, ends once there are not, and moves with the fingers from
/// where they were to where they are.
pub open spec fn told_gestures<D, S>(
    before: Contacts<D>,
    now: Contacts<D>,
    device_id: Option<DeviceId>,
    moved: bool,
    cancelled: bool,
) -> Seq<ActionView<D, S>> {
    let begun = TouchPhase::Started;
    let over = if cancelled {
        TouchPhase::Cancelled
    } else {
        TouchPhase::Ended
    };
    let panned = Change::Between { previous: places(before), current: places(now) };
    let turned = Change::Between { previous: line(before), current: line(now) };
    told_if::<D, S>(
        before.len() < 2 && now.len() >= 2,
        TouchGesture::Pan { device_id, delta: Change::Zero, phase: begun },
    ) + told_if(
        before.len() >= 2 && now.len() < 2,
        TouchGesture::Pan { device_id, delta: Change::Zero, phase: over },
    ) + told_if(
        before.len() != 2 && now.len() == 2,
        TouchGesture::Pinch { device_id, delta: Change::Zero, phase: begun },
    ) + told_if(
        before.len() != 2 && now.len() == 2,
        TouchGesture::Rotation { device_id, delta: Change::Zero, phase: begun },
    ) + told_if(
        before.len() == 2 && now.len() != 2,
        TouchGesture::Pinch { device_id, delta: Change::Zero, phase: over },
    ) + told_if(
        before.len() == 2 && now.len() != 2,
        TouchGesture::Rotation { device_id, delta: Change::Zero, phase: over },
    ) + told_if(
        moved && before.len() >= 1 && now.len() >= 2,
        TouchGesture::Pan { device_id, delta: panned, phase: TouchPhase::Moved },
    ) + told_if(
        moved && before.len() == 2 && now.len() == 2,
        TouchGesture::Pinch { device_id, delta: turned, phase: TouchPhase::Moved },
    ) + told_if(
        moved && before.len() == 2 && now.len() == 2,
        TouchGesture::Rotation { device_id, delta: turned, phase: TouchPhase::Moved },
    )
}

/// Bringing the gestures up to date tells just what became of them since they were last up to date,
/// and leaves them remembered for the fingers that are down now. The fingers stay.
pub proof fn law_gestures_are_told<D, S>(
    touches: Touches<D>,
    before: Contacts<D>,
    device_id: Option<DeviceId>,
    moved: bool,
    cancelled: bool,
)
    requires
        remembers(touches.gestures, before),
    ensures
        touch::sync_actions::<D, S>(touches, device_id, moved, cancelled) == told_gestures::<D, S>(
            before,
            touches.contacts,
            device_id,
            moved,
            cancelled,
        ),
        remembers(touch::synced(touches).gestures, touches.contacts),
        touch::synced(touches).contacts == touches.contacts,
        touch::synced(touches).primary_pointer == touches.primary_pointer,
{
    let now = touches.contacts;
    assert(touch::points_of(now) =~= places(now));
    let reports = touch::gesture_reports(touches.gestures, now, device_id, moved, cancelled);
    let told = told_gestures::<D, S>(before, now, device_id, moved, cancelled);
    assert(touch::gesture_actions::<D, S>(reports) =~= told);
}

/// Whether steps end with the given ones, and before those only hand on events of the window.
pub open spec fn ends_with<D, S>(
    actions: Seq<ActionView<D, S>>,
    last: Seq<ActionView<D, S>>,
) -> bool {
    let first = actions.len() - last.len();
    &&& first >= 0
    &&& actions.subrange(first, actions.len() as int) == last
    &&& forall|i: int| 0 <= i < first ==> (#[trigger] actions[i]) is WindowEvent
}

proof fn lemma_ends_with<D, S>(first: Seq<ActionView<D, S>>, last: Seq<ActionView<D, S>>)
    requires
        forall|i: int| 0 <= i < first.len() ==> (#[trigger] first[i]) is WindowEvent,
    ensures
        ends_with(first + last, last),
{
    let all = first + last;
    assert(all.subrange(first.len() as int, all.len() as int) =~= last);
    assert forall|i: int| 0 <= i < first.len() implies (#[trigger] all[i]) is WindowEvent by {
        assert(all[i] == first[i]);
    }
}

proof fn lemma_ends_with_nothing<D, S>(actions: Seq<ActionView<D, S>>)
    requires
        forall|i: int| 0 <= i < actions.len() ==> (#[trigger] actions[i]) is WindowEvent,
    ensures
        ends_with(actions, Seq::empty()),
{
    assert(actions.subrange(actions.len() as int, actions.len() as int) =~= Seq::empty());
}

proof fn lemma_nothing_told<D, S>(
    contacts: Contacts<D>,
    device_id: Option<DeviceId>,
    cancelled: bool,
)
    ensures
        told_gestures::<D, S>(contacts, contacts, device_id, false, cancelled) =~= Seq::empty(),
{
}

proof fn lemma_fingers<D, S>(motion: MotionEvent<D, S>)
    ensures
        has_finger(motion) <==> motion::any_finger(motion.source, motion.pointers@),
{
    let pointers = motion.pointers@;
    if has_finger(motion) {
        let i = choose|i: int|
            0 <= i < pointers.len() && (kind_of(motion.source, #[trigger] pointers[i]) matches Some(
                kind,
            ) && kind is Touch);
        assert(motion::is_finger(motion.source, pointers[i]));
    }
    if motion::any_finger(motion.source, pointers) {
        let i = choose|i: int|
            0 <= i < pointers.len() && motion::is_finger(motion.source, #[trigger] pointers[i]);
        assert(kind_of(motion.source, pointers[i]) matches Some(kind) && kind is Touch);
    }
}

/// After events of the window a motion tells of gestures, and just what the fingers before and after
/// it make: gestures move only if fingers moved, and are cut short only if the motion is.
pub proof fn law_motions_tell_gestures<D, S>(touches: Touches<D>, motion: MotionEvent<D, S>)
    requires
        touch_laws::consistent(touches),
        motion::has_its_pointer(motion),
    ensures
        ({
            let (after, actions) = motion::motion_outcome(touches, motion);
            &&& remembers(after.gestures, after.contacts)
            &&& ends_with(
                actions,
                told_gestures::<D, S>(
                    touches.contacts,
                    after.contacts,
                    Some(DeviceId(motion.device_id as i64)),
                    motion.action is Move && has_finger(motion),
                    motion.action is Cancel,
                ),
            )
        }),
{
    law_what_hangs_together(touches);
    lemma_fingers(motion);
    let (after, actions) = motion::motion_outcome(touches, motion);
    let device_id = Some(DeviceId(motion.device_id as i64));
    let source = motion.source;
    let at = motion.pointers@[motion.pointer_index as int];
    let moved = motion.action is Move && has_finger(motion);
    let cancelled = motion.action is Cancel;
    match motion.action {
        MotionAction::Down | MotionAction::PointerDown => {
            let first = motion.action is Down;
            match pointer::classified(source, at) {
                Some(state) => {
                    let primary = !(state.kind is Touch) || first;
                    let events = seq![
                        motion::entered(device_id, at, primary, state),
                        motion::button_used(
                            device_id,
                            at,
                            primary,
                            ElementState::Pressed,
                            state.source.contact(),
                        ),
                    ];
                    if state.kind is Touch {
                        let contact = TouchContact { device_id, position: at.position };
                        let down = touch::after_touch_down(touches, at.finger(), contact, first);
                        law_gestures_are_told::<D, S>(
                            down,
                            touches.contacts,
                            device_id,
                            false,
                            false,
                        );
                        lemma_ends_with(
                            events,
                            touch::sync_actions::<D, S>(down, device_id, false, false),
                        );
                    } else {
                        lemma_nothing_told::<D, S>(touches.contacts, device_id, false);
                        lemma_ends_with_nothing(events);
                    }
                },
                None => {
                    lemma_nothing_told::<D, S>(touches.contacts, device_id, false);
                    lemma_ends_with_nothing(actions);
                },
            }
        },
        MotionAction::Up | MotionAction::PointerUp => {
            match pointer::classified(source, at) {
                Some(state) => {
                    let primary = !(state.kind is Touch) || touches.primary_pointer == Some(
                        at.finger(),
                    );
                    let events = seq![
                        motion::button_used(
                            device_id,
                            at,
                            primary,
                            ElementState::Released,
                            state.source.contact(),
                        ),
                        motion::left(device_id, at, primary, state),
                    ];
                    if state.kind is Touch {
                        let up = touch::after_touch_up(touches, at.finger());
                        law_gestures_are_told::<D, S>(
                            up,
                            touches.contacts,
                            device_id,
                            false,
                            false,
                        );
                        lemma_ends_with(
                            events,
                            touch::sync_actions::<D, S>(up, device_id, false, false),
                        );
                    } else {
                        lemma_nothing_told::<D, S>(touches.contacts, device_id, false);
                        lemma_ends_with_nothing(events);
                    }
                },
                None => {
                    lemma_nothing_told::<D, S>(touches.contacts, device_id, false);
                    lemma_ends_with_nothing(actions);
                },
            }
        },
        MotionAction::Move => {
            let there = motion::pointers_moved(touches, source, motion.pointers@, device_id);
            touch_laws::lemma_moves_are_window_events(
                touches,
                source,
                motion.pointers@,
                device_id,
            );
            touch_laws::lemma_move_keeps_contacts(touches, source, motion.pointers@, device_id);
            if moved {
                law_gestures_are_told::<D, S>(
                    there.0,
                    touches.contacts,
                    device_id,
                    true,
                    false,
                );
                lemma_ends_with(
                    there.1,
                    touch::sync_actions::<D, S>(there.0, device_id, true, false),
                );
            } else {
                lemma_nothing_told::<D, S>(touches.contacts, device_id, false);
                lemma_ends_with_nothing(there.1);
            }
        },
        MotionAction::Cancel => {
            let others = motion::others_left(source, motion.pointers@, device_id);
            touch_laws::lemma_others_left_are_window_events(source, motion.pointers@, device_id);
            let fingers = touch::touch_cancellations::<D, S>(touches);
            let events = others + fingers;
            assert(forall|i: int|
                0 <= i < fingers.len() ==> (#[trigger] fingers[i]) is WindowEvent);
            assert forall|i: int| 0 <= i < events.len() implies (
            #[trigger] events[i]) is WindowEvent by {
                if i >= others.len() {
                    assert(events[i] == fingers[i - others.len()]);
                }
            }
            let given_up = Touches {
                primary_pointer: None,
                contacts: Seq::empty(),
                ..touches
            };
            if touches.contacts.len() > 0 || touch::gesturing(touches) {
                law_gestures_are_told::<D, S>(
                    given_up,
                    touches.contacts,
                    device_id,
                    false,
                    true,
                );
                lemma_ends_with(
                    events,
                    touch::sync_actions::<D, S>(given_up, device_id, false, true),
                );
            } else {
                assert(touches.contacts =~= Seq::empty());
                lemma_nothing_told::<D, S>(touches.contacts, device_id, true);
                lemma_ends_with_nothing(events);
            }
        },
        _ => {
            lemma_nothing_told::<D, S>(touches.contacts, device_id, false);
            lemma_ends_with_nothing(actions);
        },
    }
}

/// While two fingers or more are down, however many, a motion that moves fingers tells once that they
/// pan: from where all fingers were to where all fingers are. It tells nothing else of panning.
pub proof fn law_fingers_pan<D, S>(touches: Touches<D>, motion: MotionEvent<D, S>)
    requires
        touch_laws::consistent(touches),
        motion.action is Move,
        has_finger(motion),
        touches.contacts.len() >= 2,
        motion::motion_outcome(touches, motion).0.contacts.len() >= 2,
    ensures
        ({
            let (after, actions) = motion::motion_outcome(touches, motion);
            exists|i: int|
                0 <= i < actions.len() && (#[trigger] actions[i] matches LoopAction::TouchGesture(
                    TouchGesture::Pan { device_id, delta: Change::Between { previous, current }, phase },
                ) && {
                    &&& device_id == Some(DeviceId(motion.device_id as i64))
                    &&& phase is Moved
                    &&& previous.len() == touches.contacts.len()
                    &&& forall|k: int|
                        0 <= k < previous.len() ==> #[trigger] previous[k]
                            == touches.contacts[k].1.position
                    &&& current.len() == after.contacts.len()
                    &&& forall|k: int|
                        0 <= k < current.len() ==> #[trigger] current[k]
                            == after.contacts[k].1.position
                    &&& forall|j: int|
                        0 <= j < actions.len() && touch_laws::phase_of(
                            #[trigger] actions[j],
                            GestureKind::Pan,
                        ) is Some ==> j == i
                })
        }),
{
    law_motions_tell_gestures(touches, motion);
    let (after, actions) = motion::motion_outcome(touches, motion);
    let device_id = Some(DeviceId(motion.device_id as i64));
    let told = told_gestures::<D, S>(
        touches.contacts,
        after.contacts,
        device_id,
        true,
        false,
    );
    let first = actions.len() - told.len();
    assert forall|j: int| first <= j < actions.len() implies actions[j] == told[j - first] by {
        assert(actions.subrange(first, actions.len() as int)[j - first] == actions[j]);
    }
    let within = if (touches.contacts.len() == 2) == (after.contacts.len() == 2) {
        0int
    } else {
        2int
    };
    let pan = TouchGesture::Pan {
        device_id,
        delta: Change::Between {
            previous: places(touches.contacts),
            current: places(after.contacts),
        },
        phase: TouchPhase::Moved,
    };
    assert(told[within] == ActionView::<D, S>::TouchGesture(pan));
    let i = first + within;
    assert(actions[i] == ActionView::<D, S>::TouchGesture(pan));
    assert forall|j: int|
        0 <= j < actions.len() && touch_laws::phase_of(
            #[trigger] actions[j],
            GestureKind::Pan,
        ) is Some implies j == i by {
        if j >= first {
            assert(actions[j] == told[j - first]);
        }
    }
}

/// When a motion tells of gestures. Panning starts when there come to be two fingers or more, ends
/// when there are fewer, and moves when fingers moved that had been there. Pinching and rotating
/// start when there come to be exactly two, end when there are not, and move when the two moved.
/// What ends with a motion that is cut short is cut short with it. Nothing is told twice.
pub proof fn law_when_gestures_are_told<D, S>(
    touches: Touches<D>,
    motion: MotionEvent<D, S>,
    kind: GestureKind,
    phase: TouchPhase,
)
    requires
        touch_laws::consistent(touches),
        motion::has_its_pointer(motion),
    ensures
        ({
            let (after, actions) = motion::motion_outcome(touches, motion);
            let fingers = touches.contacts.len();
            let fingers_now = after.contacts.len();
            let moved = motion.action is Move && has_finger(motion);
            &&& (exists|i: int|
                0 <= i < actions.len() && touch_laws::phase_of(#[trigger] actions[i], kind) == Some(
                    phase,
                )) <==> match (kind, phase) {
                (GestureKind::Pan, TouchPhase::Started) => fingers < 2 && fingers_now >= 2,
                (GestureKind::Pan, TouchPhase::Moved) => moved && fingers >= 1 && fingers_now >= 2,
                (GestureKind::Pan, TouchPhase::Ended) => fingers >= 2 && fingers_now < 2 && !(
                motion.action is Cancel),
                (GestureKind::Pan, TouchPhase::Cancelled) => fingers >= 2 && fingers_now < 2
                    && motion.action is Cancel,
                (_, TouchPhase::Started) => fingers != 2 && fingers_now == 2,
                (_, TouchPhase::Moved) => moved && fingers == 2 && fingers_now == 2,
                (_, TouchPhase::Ended) => fingers == 2 && fingers_now != 2 && !(
                motion.action is Cancel),
                (_, TouchPhase::Cancelled) => fingers == 2 && fingers_now != 2
                    && motion.action is Cancel,
            }
            &&& forall|i: int, j: int|
                0 <= i < j < actions.len() && touch_laws::phase_of(#[trigger] actions[i], kind)
                    == Some(phase) ==> touch_laws::phase_of(#[trigger] actions[j], kind) != Some(
                    phase,
                )
        }),
{
    law_motions_tell_gestures(touches, motion);
    let (after, actions) = motion::motion_outcome(touches, motion);
    let device_id = Some(DeviceId(motion.device_id as i64));
    let moved = motion.action is Move && has_finger(motion);
    let cancelled = motion.action is Cancel;
    let before = touches.contacts;
    let now = after.contacts;
    let told = told_gestures::<D, S>(before, now, device_id, moved, cancelled);
    let first = actions.len() - told.len();
    assert forall|j: int| first <= j < actions.len() implies actions[j] == told[j - first] by {
        assert(actions.subrange(first, actions.len() as int)[j - first] == actions[j]);
    }
    lemma_where_told::<D, S>(before, now, device_id, moved, cancelled, kind, phase);
    let within = where_told(before.len(), now.len(), moved, kind, phase);
    assert forall|i: int|
        0 <= i < actions.len() && touch_laws::phase_of(#[trigger] actions[i], kind) == Some(
            phase,
        ) implies i == first + within && 0 <= within < told.len() && touch_laws::phase_of(
        told[within],
        kind,
    ) == Some(phase) by {
        assert(i >= first);
        assert(actions[i] == told[i - first]);
    }
    if 0 <= within < told.len() && touch_laws::phase_of(told[within], kind) == Some(phase) {
        assert(touch_laws::phase_of(actions[first + within], kind) == Some(phase));
    }
}

/// Where a phase of a gesture stands among what is told of gestures, if it is told.
spec fn where_told(
    fingers: nat,
    fingers_now: nat,
    moved: bool,
    kind: GestureKind,
    phase: TouchPhase,
) -> int {
    let pans = if (fingers < 2) != (fingers_now < 2) {
        1int
    } else {
        0int
    };
    let transforms = if (fingers == 2) != (fingers_now == 2) {
        2int
    } else {
        0int
    };
    match (kind, phase) {
        (GestureKind::Pan, TouchPhase::Moved) => pans + transforms,
        (GestureKind::Pan, _) => 0,
        (GestureKind::Pinch, TouchPhase::Moved) => 1,
        (GestureKind::Pinch, _) => pans,
        (GestureKind::Rotation, TouchPhase::Moved) => 2,
        (GestureKind::Rotation, _) => pans + 1,
    }
}

#[verifier::spinoff_prover]
#[verifier::rlimit(60)]
proof fn lemma_where_told<D, S>(
    before: Contacts<D>,
    now: Contacts<D>,
    device_id: Option<DeviceId>,
    moved: bool,
    cancelled: bool,
    kind: GestureKind,
    phase: TouchPhase,
)
    ensures
        ({
            let told = told_gestures::<D, S>(before, now, device_id, moved, cancelled);
            let within = where_told(before.len(), now.len(), moved, kind, phase);
            &&& forall|i: int|
                0 <= i < told.len() && touch_laws::phase_of(#[trigger] told[i], kind) == Some(phase)
                    ==> i == within
            &&& (0 <= within < told.len() && touch_laws::phase_of(told[within], kind) == Some(
                phase,
            )) <==> match (kind, phase) {
                (GestureKind::Pan, TouchPhase::Started) => before.len() < 2 && now.len() >= 2,
                (GestureKind::Pan, TouchPhase::Moved) => moved && before.len() >= 1 && now.len()
                    >= 2,
                (GestureKind::Pan, TouchPhase::Ended) => before.len() >= 2 && now.len() < 2
                    && !cancelled,
                (GestureKind::Pan, TouchPhase::Cancelled) => before.len() >= 2 && now.len() < 2
                    && cancelled,
                (_, TouchPhase::Started) => before.len() != 2 && now.len() == 2,
                (_, TouchPhase::Moved) => moved && before.len() == 2 && now.len() == 2,
                (_, TouchPhase::Ended) => before.len() == 2 && now.len() != 2 && !cancelled,
                (_, TouchPhase::Cancelled) => before.len() == 2 && now.len() != 2 && cancelled,
            }
        }),
{
    let told = told_gestures::<D, S>(before, now, device_id, moved, cancelled);
    assert(told.len() <= 4);
    let within = where_told(before.len(), now.len(), moved, kind, phase);
    if before.len() < 2 {
        if now.len() < 2 {
            assert(told.len() == 0);
        } else if now.len() == 2 {
            assert(told.len() >= 3);
        } else {
            assert(told.len() >= 1);
        }
    } else if before.len() == 2 {
        if now.len() < 2 {
            assert(told.len() == 3);
        } else if now.len() == 2 {
            assert(told.len() == 0 || told.len() == 3);
        } else {
            assert(told.len() >= 2);
        }
    } else {
        if now.len() < 2 {
            assert(told.len() == 1);
        } else if now.len() == 2 {
            assert(told.len() >= 2);
        } else {
            assert(told.len() <= 1);
        }
    }
}

/// What a motion tells of a gesture: the device of the motion, and how much changed. Nothing does
/// when a gesture starts or ends. When it moves, a pan goes from where all fingers were to where all
/// are, and pinching and rotating from the line through two fingers to the line through the same
/// two, each from the lower numbered finger to the higher numbered one.
#[verifier::spinoff_prover]
pub proof fn law_what_is_told_of_gestures<D, S>(
    touches: Touches<D>,
    motion: MotionEvent<D, S>,
    i: int,
)
    requires
        touch_laws::consistent(touches),
        motion::has_its_pointer(motion),
        0 <= i < motion::motion_outcome(touches, motion).1.len(),
    ensures
        ({
            let (after, actions) = motion::motion_outcome(touches, motion);
            let before = touches.contacts;
            let now = after.contacts;
            match actions[i] {
                LoopAction::TouchGesture(TouchGesture::Pan { device_id, delta, phase }) => {
                    &&& device_id == Some(DeviceId(motion.device_id as i64))
                    &&& match delta {
                        Change::Zero => !(phase is Moved),
                        Change::Between { previous, current } => {
                            &&& phase is Moved
                            &&& previous.len() == before.len() && current.len() == now.len()
                            &&& forall|k: int|
                                0 <= k < before.len() ==> previous[k] == (
                                #[trigger] before[k]).1.position
                            &&& forall|k: int|
                                0 <= k < now.len() ==> current[k] == (#[trigger] now[k]).1.position
                        },
                    }
                },
                LoopAction::TouchGesture(TouchGesture::Pinch { device_id, delta, phase })
                | LoopAction::TouchGesture(TouchGesture::Rotation { device_id, delta, phase }) => {
                    &&& device_id == Some(DeviceId(motion.device_id as i64))
                    &&& match delta {
                        Change::Zero => !(phase is Moved),
                        Change::Between { previous, current } => {
                            &&& phase is Moved
                            &&& before.len() == 2 && now.len() == 2
                            &&& forall|low: int, high: int|
                                0 <= low < 2 && 0 <= high < 2 && (#[trigger] before[low]).0.0 < (
                                #[trigger] before[high]).0.0 ==> previous.first
                                    == before[low].1.position && previous.second
                                    == before[high].1.position
                            &&& forall|low: int, high: int|
                                0 <= low < 2 && 0 <= high < 2 && (#[trigger] now[low]).0.0 < (
                                #[trigger] now[high]).0.0 ==> current.first
                                    == now[low].1.position && current.second
                                    == now[high].1.position
                        },
                    }
                },
                _ => actions[i] is WindowEvent,
            }
        }),
{
    law_motions_tell_gestures(touches, motion);
    let (after, actions) = motion::motion_outcome(touches, motion);
    let device_id = Some(DeviceId(motion.device_id as i64));
    let moved = motion.action is Move && has_finger(motion);
    let cancelled = motion.action is Cancel;
    let told = told_gestures::<D, S>(
        touches.contacts,
        after.contacts,
        device_id,
        moved,
        cancelled,
    );
    let first = actions.len() - told.len();
    if i >= first {
        assert(actions.subrange(first, actions.len() as int)[i - first] == actions[i]);
        lemma_what_is_told::<D, S>(
            touches.contacts,
            after.contacts,
            device_id,
            moved,
            cancelled,
            i - first,
        );
    }
}

#[verifier::spinoff_prover]
proof fn lemma_what_is_told<D, S>(
    before: Contacts<D>,
    now: Contacts<D>,
    device_id: Option<DeviceId>,
    moved: bool,
    cancelled: bool,
    i: int,
)
    requires
        0 <= i < told_gestures::<D, S>(before, now, device_id, moved, cancelled).len(),
    ensures
        match told_gestures::<D, S>(before, now, device_id, moved, cancelled)[i] {
            LoopAction::TouchGesture(TouchGesture::Pan { device_id: device, delta, phase }) => {
                &&& device == device_id
                &&& match delta {
                    Change::Zero => !(phase is Moved),
                    Change::Between { previous, current } => phase is Moved && previous == places(
                        before,
                    ) && current == places(now),
                }
            },
            LoopAction::TouchGesture(TouchGesture::Pinch { device_id: device, delta, phase })
            | LoopAction::TouchGesture(
                TouchGesture::Rotation { device_id: device, delta, phase },
            ) => {
                &&& device == device_id
                &&& match delta {
                    Change::Zero => !(phase is Moved),
                    Change::Between { previous, current } => phase is Moved && before.len() == 2
                        && now.len() == 2 && previous == line(before) && current == line(now),
                }
            },
            _ => false,
        },
{
}

/// The pointer that a motion is about.
pub open spec fn subject<D, S>(motion: MotionEvent<D, S>) -> MotionPointer<D, S> {
    motion.pointers@[motion.pointer_index as int]
}

/// A pointer that touches down enters and then presses its contact, where it is. It is primary if it
/// is no finger or the first one. Only a finger is known from then on, where it touched, and the
/// first one as the primary finger; the other fingers stay as they were. A palm does nothing.
pub proof fn law_touching_down<D, S>(touches: Touches<D>, motion: MotionEvent<D, S>)
    requires
        touch_laws::consistent(touches),
        motion::has_its_pointer(motion),
        motion.action is Down || motion.action is PointerDown,
    ensures
        ({
            let (after, actions) = motion::motion_outcome(touches, motion);
            let at = subject(motion);
            let device = Some(DeviceId(motion.device_id as i64));
            match pointer::classified(motion.source, at) {
                None => after == touches && actions.len() == 0,
                Some(state) => {
                    &&& actions.len() >= 2
                    &&& actions[0] matches LoopAction::WindowEvent(
                        WindowEvent::PointerEntered { device_id, position, primary, kind },
                    )
                    &&& device_id == device && position == at.position && kind == state.kind
                    &&& primary <==> !(kind is Touch) || motion.action is Down
                    &&& actions[1] matches LoopAction::WindowEvent(
                        WindowEvent::PointerButton {
                            device_id: button_device,
                            state: button_state,
                            position: button_position,
                            primary: button_primary,
                            button,
                        },
                    )
                    &&& button_state is Pressed && button == state.source.contact()
                    &&& button_device == device && button_position == at.position
                        && button_primary == primary
                    &&& forall|i: int|
                        2 <= i < actions.len() ==> (#[trigger] actions[i]) is TouchGesture
                    &&& match state.kind {
                        PointerKind::Touch(finger) => {
                            &&& table::lookup(after.contacts, finger) == Some(
                                TouchContact { device_id: device, position: at.position },
                            )
                            &&& forall|other: FingerId|
                                other != finger ==> #[trigger] table::lookup(after.contacts, other)
                                    == table::lookup(touches.contacts, other)
                            &&& after.primary_pointer == if motion.action is Down {
                                Some(finger)
                            } else {
                                touches.primary_pointer
                            }
                        },
                        _ => after == touches && actions.len() == 2,
                    }
                },
            }
        }),
{
    let at = subject(motion);
    let device_id = Some(DeviceId(motion.device_id as i64));
    let contact = TouchContact { device_id, position: at.position };
    table::law_with_entry(touches.contacts, at.finger(), contact);
    if let Some(state) = pointer::classified(motion.source, at) {
        if state.kind is Touch {
            let after = motion::motion_outcome(touches, motion).0;
            assert(after.contacts == table::with_entry(touches.contacts, at.finger(), contact));
        }
    }
}

/// A pointer that is lifted releases its contact and then leaves, where it is. It is primary if it is
/// no finger or the primary one. A finger is not known any more, and if it was the primary one none
/// is; the other fingers stay as they were. A palm does nothing.
pub proof fn law_lifting<D, S>(touches: Touches<D>, motion: MotionEvent<D, S>)
    requires
        touch_laws::consistent(touches),
        motion::has_its_pointer(motion),
        motion.action is Up || motion.action is PointerUp,
    ensures
        ({
            let (after, actions) = motion::motion_outcome(touches, motion);
            let at = subject(motion);
            let device = Some(DeviceId(motion.device_id as i64));
            match pointer::classified(motion.source, at) {
                None => after == touches && actions.len() == 0,
                Some(state) => {
                    &&& actions.len() >= 2
                    &&& actions[0] matches LoopAction::WindowEvent(
                        WindowEvent::PointerButton {
                            device_id: button_device,
                            state: button_state,
                            position: button_position,
                            primary: button_primary,
                            button,
                        },
                    )
                    &&& button_state is Released && button == state.source.contact()
                    &&& button_device == device && button_position == at.position
                    &&& actions[1] matches LoopAction::WindowEvent(
                        WindowEvent::PointerLeft { device_id, position, primary, kind },
                    )
                    &&& device_id == device && position == Some(at.position) && kind == state.kind
                    &&& button_primary == primary
                    &&& forall|i: int|
                        2 <= i < actions.len() ==> (#[trigger] actions[i]) is TouchGesture
                    &&& match state.kind {
                        PointerKind::Touch(finger) => {
                            &&& primary <==> touches.primary_pointer == Some(finger)
                            &&& table::lookup(after.contacts, finger) is None
                            &&& forall|other: FingerId|
                                other != finger ==> #[trigger] table::lookup(after.contacts, other)
                                    == table::lookup(touches.contacts, other)
                            &&& after.primary_pointer == if primary {
                                None
                            } else {
                                touches.primary_pointer
                            }
                        },
                        _ => primary && after == touches && actions.len() == 2,
                    }
                },
            }
        }),
{
    let at = subject(motion);
    table::law_without_key(touches.contacts, at.finger());
    if let Some(state) = pointer::classified(motion.source, at) {
        if state.kind is Touch {
            let after = motion::motion_outcome(touches, motion).0;
            assert(after.contacts == table::without_key(touches.contacts, at.finger()));
        }
    }
}

/// The pointers of a motion that are reported at all: all but palms.
pub open spec fn told_pointers<D, S>(
    source: Source,
    pointers: Seq<MotionPointer<D, S>>,
) -> Seq<MotionPointer<D, S>> {
    pointers.filter(|at: MotionPointer<D, S>| kind_of(source, at) is Some)
}

/// Whether a step tells that a pointer moved to where it is, by its own source, and that it is
/// primary exactly if it is no finger or the primary one.
pub open spec fn tells_move<D, S>(
    action: ActionView<D, S>,
    motion: MotionEvent<D, S>,
    at: MotionPointer<D, S>,
    primary_finger: Option<FingerId>,
) -> bool {
    &&& action matches LoopAction::WindowEvent(
        WindowEvent::PointerMoved { device_id, position, primary, source },
    )
    &&& device_id == Some(DeviceId(motion.device_id as i64))
    &&& position == at.position
    &&& pointer::classified(motion.source, at) matches Some(state)
    &&& source == state.source.moving()
    &&& kind_of(motion.source, at) matches Some(kind)
    &&& match kind {
        PointerKind::Touch(finger) => primary <==> primary_finger == Some(finger),
        _ => primary,
    }
}

proof fn lemma_moves_are_told<D, S>(
    touches: Touches<D>,
    motion: MotionEvent<D, S>,
    pointers: Seq<MotionPointer<D, S>>,
)
    ensures
        ({
            let device_id = Some(DeviceId(motion.device_id as i64));
            let (after, actions) = motion::pointers_moved(
                touches,
                motion.source,
                pointers,
                device_id,
            );
            let told = told_pointers(motion.source, pointers);
            &&& after.primary_pointer == touches.primary_pointer
            &&& actions.len() == told.len()
            &&& forall|i: int|
                0 <= i < told.len() ==> tells_move(
                    #[trigger] actions[i],
                    motion,
                    told[i],
                    touches.primary_pointer,
                )
        }),
    decreases pointers.len(),
{
    reveal(Seq::filter);
    if pointers.len() > 0 {
        lemma_moves_are_told(touches, motion, pointers.drop_last());
    }
}

/// When pointers move, each of them but palms is told of once, in their order: where it moved to, by
/// its own source, and as primary exactly if it is no finger or is the primary finger. After that
/// only gestures are told of.
pub proof fn law_moving_pointers<D, S>(touches: Touches<D>, motion: MotionEvent<D, S>)
    requires
        motion.action is Move,
    ensures
        ({
            let (after, actions) = motion::motion_outcome(touches, motion);
            let told = motion.pointers@.filter(
                |at: MotionPointer<D, S>| pointer::classified(motion.source, at) is Some,
            );
            &&& after.primary_pointer == touches.primary_pointer
            &&& actions.len() >= told.len()
            &&& forall|i: int|
                0 <= i < told.len() ==> {
                    &&& #[trigger] actions[i] matches LoopAction::WindowEvent(
                        WindowEvent::PointerMoved { device_id, position, primary, source },
                    )
                    &&& device_id == Some(DeviceId(motion.device_id as i64))
                    &&& position == told[i].position
                    &&& pointer::classified(motion.source, told[i]) matches Some(state)
                    &&& source == state.source.moving()
                    &&& primary <==> !(state.kind is Touch) || touches.primary_pointer == Some(
                        FingerId(told[i].pointer_id as usize),
                    )
                }
            &&& forall|i: int|
                told.len() <= i < actions.len() ==> (#[trigger] actions[i]) is TouchGesture
        }),
{
    lemma_moves_are_told(touches, motion, motion.pointers@);
    let (after, actions) = motion::motion_outcome(touches, motion);
    let device_id = Some(DeviceId(motion.device_id as i64));
    let there = motion::pointers_moved(touches, motion.source, motion.pointers@, device_id);
    let told = motion.pointers@.filter(
        |at: MotionPointer<D, S>| pointer::classified(motion.source, at) is Some,
    );
    lemma_told_are_classified(motion.source, motion.pointers@);
    assert forall|i: int| 0 <= i < told.len() implies tells_move(
        #[trigger] actions[i],
        motion,
        told[i],
        touches.primary_pointer,
    ) by {
        assert(actions[i] == there.1[i]);
    }
}

proof fn lemma_told_are_classified<D, S>(source: Source, pointers: Seq<MotionPointer<D, S>>)
    ensures
        pointers.filter(|at: MotionPointer<D, S>| pointer::classified(source, at) is Some)
            == told_pointers(source, pointers),
    decreases pointers.len(),
{
    reveal(Seq::filter);
    if pointers.len() > 0 {
        lemma_told_are_classified(source, pointers.drop_last());
    }
}

proof fn lemma_where_fingers_are<D, S>(
    touches: Touches<D>,
    motion: MotionEvent<D, S>,
    pointers: Seq<MotionPointer<D, S>>,
    finger: FingerId,
)
    requires
        table::keys_distinct(touches.contacts),
    ensures
        ({
            let device = Some(DeviceId(motion.device_id as i64));
            let after = motion::pointers_moved(touches, motion.source, pointers, device).0.contacts;
            let known = table::lookup(touches.contacts, finger);
            &&& table::keys_distinct(after)
            &&& (forall|i: int|
                0 <= i < pointers.len() ==> !is_the_finger(
                    motion.source,
                    #[trigger] pointers[i],
                    finger,
                )) ==> table::lookup(after, finger) == known
            &&& forall|i: int|
                0 <= i < pointers.len() && is_the_finger(
                    motion.source,
                    #[trigger] pointers[i],
                    finger,
                ) && (forall|j: int|
                    i < j < pointers.len() ==> !is_the_finger(
                        motion.source,
                        #[trigger] pointers[j],
                        finger,
                    )) ==> table::lookup(after, finger) == Some(
                    TouchContact {
                        device_id: match known {
                            Some(contact) => contact.device_id,
                            None => device,
                        },
                        position: pointers[i].position,
                    },
                )
            &&& table::lookup(after, finger) matches Some(contact) ==> contact.device_id
                == match known {
                Some(contact) => contact.device_id,
                None => device,
            }
        }),
    decreases pointers.len(),
{
    let device = Some(DeviceId(motion.device_id as i64));
    let known = table::lookup(touches.contacts, finger);
    if pointers.len() > 0 {
        let fewer = pointers.drop_last();
        let last = pointers.last();
        lemma_where_fingers_are(touches, motion, fewer, finger);
        let before = motion::pointers_moved(touches, motion.source, fewer, device).0;
        let after = motion::pointers_moved(touches, motion.source, pointers, device).0;
        if kind_of(motion.source, last) matches Some(kind) && kind is Touch {
            let contact = TouchContact {
                device_id: match table::lookup(before.contacts, last.finger()) {
                    Some(contact) => contact.device_id,
                    None => device,
                },
                position: last.position,
            };
            table::law_with_entry(before.contacts, last.finger(), contact);
            assert(after.contacts == table::with_entry(before.contacts, last.finger(), contact));
            assert(table::lookup(after.contacts, finger) == if finger == last.finger() {
                Some(contact)
            } else {
                table::lookup(before.contacts, finger)
            });
            if finger == last.finger() && table::lookup(before.contacts, finger) is None {
                assert(known is None) by {
                    if known is Some {
                        lemma_moving_forgets_nobody(touches, motion, fewer, finger);
                    }
                }
            }
        } else {
            assert(after == before);
        }
        assert(is_the_finger(motion.source, last, finger) ==> last.finger() == finger);
        assert forall|i: int|
            0 <= i < pointers.len() && is_the_finger(
                motion.source,
                #[trigger] pointers[i],
                finger,
            ) && (forall|j: int|
                i < j < pointers.len() ==> !is_the_finger(
                    motion.source,
                    #[trigger] pointers[j],
                    finger,
                )) implies table::lookup(after.contacts, finger) == Some(
            TouchContact {
                device_id: match known {
                    Some(contact) => contact.device_id,
                    None => device,
                },
                position: pointers[i].position,
            },
        ) by {
            if i < fewer.len() {
                assert(!is_the_finger(motion.source, pointers[pointers.len() - 1], finger));
                assert(is_the_finger(motion.source, fewer[i], finger));
                assert forall|j: int| i < j < fewer.len() implies !is_the_finger(
                    motion.source,
                    #[trigger] fewer[j],
                    finger,
                ) by {
                    assert(!is_the_finger(motion.source, pointers[j], finger));
                }
            }
        }
        if forall|i: int|
            0 <= i < pointers.len() ==> !is_the_finger(
                motion.source,
                #[trigger] pointers[i],
                finger,
            ) {
            assert(!is_the_finger(motion.source, pointers[pointers.len() - 1], finger));
            assert forall|i: int| 0 <= i < fewer.len() implies !is_the_finger(
                motion.source,
                #[trigger] fewer[i],
                finger,
            ) by {
                assert(!is_the_finger(motion.source, pointers[i], finger));
            }
        }
    }
}

proof fn lemma_moving_forgets_nobody<D, S>(
    touches: Touches<D>,
    motion: MotionEvent<D, S>,
    pointers: Seq<MotionPointer<D, S>>,
    finger: FingerId,
)
    requires
        table::keys_distinct(touches.contacts),
        table::lookup(touches.contacts, finger) is Some,
    ensures
        ({
            let device = Some(DeviceId(motion.device_id as i64));
            let after = motion::pointers_moved(touches, motion.source, pointers, device).0.contacts;
            &&& table::keys_distinct(after)
            &&& table::lookup(after, finger) is Some
        }),
    decreases pointers.len(),
{
    let device = Some(DeviceId(motion.device_id as i64));
    if pointers.len() > 0 {
        let fewer = pointers.drop_last();
        let last = pointers.last();
        lemma_moving_forgets_nobody(touches, motion, fewer, finger);
        let before = motion::pointers_moved(touches, motion.source, fewer, device).0;
        let after = motion::pointers_moved(touches, motion.source, pointers, device).0;
        if kind_of(motion.source, last) matches Some(kind) && kind is Touch {
            let contact = TouchContact {
                device_id: match table::lookup(before.contacts, last.finger()) {
                    Some(contact) => contact.device_id,
                    None => device,
                },
                position: last.position,
            };
            table::law_with_entry(before.contacts, last.finger(), contact);
            assert(after.contacts == table::with_entry(before.contacts, last.finger(), contact));
            assert(table::lookup(after.contacts, finger) is Some);
        }
    }
}

/// A finger that moves is known to be where it moved to last, on the device that it was known on; one
/// that was not known is from then on, on the device of the motion. A finger that does not move
/// stays as it was.
pub proof fn law_where_fingers_move<D, S>(
    touches: Touches<D>,
    motion: MotionEvent<D, S>,
    finger: FingerId,
)
    requires
        touch_laws::consistent(touches),
        motion.action is Move,
    ensures
        ({
            let after = motion::motion_outcome(touches, motion).0.contacts;
            let known = table::lookup(touches.contacts, finger);
            &&& (forall|i: int|
                0 <= i < motion.pointers@.len() ==> !is_the_finger(
                    motion.source,
                    #[trigger] motion.pointers@[i],
                    finger,
                )) ==> table::lookup(after, finger) == known
            &&& forall|i: int|
                0 <= i < motion.pointers@.len() && is_the_finger(
                    motion.source,
                    #[trigger] motion.pointers@[i],
                    finger,
                ) && (forall|j: int|
                    i < j < motion.pointers@.len() ==> !is_the_finger(
                        motion.source,
                        #[trigger] motion.pointers@[j],
                        finger,
                    )) ==> table::lookup(after, finger) == Some(
                    TouchContact {
                        device_id: match known {
                            Some(contact) => contact.device_id,
                            None => Some(DeviceId(motion.device_id as i64)),
                        },
                        position: motion.pointers@[i].position,
                    },
                )
        }),
{
    lemma_where_fingers_are(touches, motion, motion.pointers@, finger);
    let device = Some(DeviceId(motion.device_id as i64));
    assert(motion::motion_outcome(touches, motion).0.contacts == motion::pointers_moved(
        touches,
        motion.source,
        motion.pointers@,
        device,
    ).0.contacts);
}

/// Whether a step tells that a finger left that was down as the given contact.
pub open spec fn tells_finger_left<D, S>(
    action: ActionView<D, S>,
    finger: FingerId,
    contact: TouchContact<D>,
    is_primary: bool,
) -> bool {
    &&& action matches LoopAction::WindowEvent(
        WindowEvent::PointerLeft { device_id, position, primary, kind },
    )
    &&& device_id == contact.device_id
    &&& position == Some(contact.position)
    &&& primary == is_primary
    &&& kind == PointerKind::Touch(finger)
}

/// When all fingers are given up, each is told to have left where it was last, on the device that it
/// was on, and as primary if it is. There are as many reports as fingers, and the primary finger
/// comes first.
pub proof fn law_given_up_fingers_leave<D, S>(touches: Touches<D>)
    requires
        touch_laws::consistent(touches),
    ensures
        ({
            let actions = touch::touch_cancellations::<D, S>(touches);
            &&& actions.len() == touches.contacts.len()
            &&& forall|j: int|
                0 <= j < touches.contacts.len() ==> exists|i: int|
                    0 <= i < actions.len() && tells_finger_left(
                        #[trigger] actions[i],
                        (#[trigger] touches.contacts[j]).0,
                        touches.contacts[j].1,
                        touches.primary_pointer == Some(touches.contacts[j].0),
                    )
            &&& touches.primary_pointer matches Some(finger) ==> {
                &&& actions.len() > 0
                &&& table::lookup(touches.contacts, finger) matches Some(contact)
                &&& tells_finger_left(actions[0], finger, contact, true)
            }
        }),
{
    touch_laws::law_each_finger_leaves_once::<D, S>(touches);
    let actions = touch::touch_cancellations::<D, S>(touches);
    let contacts = touches.contacts;
    assert forall|j: int| 0 <= j < contacts.len() implies exists|i: int|
        0 <= i < actions.len() && tells_finger_left(
            #[trigger] actions[i],
            (#[trigger] contacts[j]).0,
            contacts[j].1,
            touches.primary_pointer == Some(contacts[j].0),
        ) by {
        match touches.primary_pointer {
            Some(primary) => {
                let gone = table::key_index(contacts, primary);
                let others = table::without_key(contacts, primary);
                assert(contacts[gone].0 == primary);
                if j == gone {
                    assert(tells_finger_left(actions[0], contacts[j].0, contacts[j].1, true));
                } else {
                    assert(contacts[j].0 != primary);
                    let k = if j < gone {
                        j
                    } else {
                        j - 1
                    };
                    assert(others[k] == contacts[j]);
                    assert(actions[k + 1] == touch::cancelled_touch::<D, S>(
                        others[k].0,
                        others[k].1,
                        false,
                    ));
                    assert(tells_finger_left(
                        actions[k + 1],
                        contacts[j].0,
                        contacts[j].1,
                        false,
                    ));
                }
            },
            None => {
                assert(tells_finger_left(actions[j], contacts[j].0, contacts[j].1, false));
            },
        }
    }
}

/// The pointers of a motion that are reported and are no fingers.
pub open spec fn told_others<D, S>(
    source: Source,
    pointers: Seq<MotionPointer<D, S>>,
) -> Seq<MotionPointer<D, S>> {
    pointers.filter(
        |at: MotionPointer<D, S>|
            kind_of(source, at) is Some && !(kind_of(source, at)->0 is Touch),
    )
}

/// Whether a step tells that a pointer that is no finger left where it is.
pub open spec fn tells_other_left<D, S>(
    action: ActionView<D, S>,
    motion: MotionEvent<D, S>,
    at: MotionPointer<D, S>,
) -> bool {
    &&& action matches LoopAction::WindowEvent(
        WindowEvent::PointerLeft { device_id, position, primary, kind },
    )
    &&& device_id == Some(DeviceId(motion.device_id as i64))
    &&& position == Some(at.position)
    &&& primary
    &&& kind_of(motion.source, at) == Some(kind)
}

proof fn lemma_others_leave<D, S>(
    motion: MotionEvent<D, S>,
    pointers: Seq<MotionPointer<D, S>>,
)
    ensures
        ({
            let actions = motion::others_left(
                motion.source,
                pointers,
                Some(DeviceId(motion.device_id as i64)),
            );
            let told = told_others(motion.source, pointers);
            &&& actions.len() == told.len()
            &&& forall|i: int|
                0 <= i < told.len() ==> tells_other_left(#[trigger] actions[i], motion, told[i])
        }),
    decreases pointers.len(),
{
    reveal(Seq::filter);
    if pointers.len() > 0 {
        lemma_others_leave(motion, pointers.drop_last());
    }
}

/// When a motion is cut short, each of its pointers that is no finger and no palm leaves, in their
/// order, and then all fingers that were down, whichever the motion has. At last the gestures that
/// they made are cut short, and nothing is down any more.
pub proof fn law_cutting_motions_short<D, S>(touches: Touches<D>, motion: MotionEvent<D, S>)
    requires
        touch_laws::consistent(touches),
        motion.action is Cancel,
    ensures
        ({
            let (after, actions) = motion::motion_outcome(touches, motion);
            let others = told_others(motion.source, motion.pointers@);
            let fingers = touch::touch_cancellations::<D, S>(touches);
            let gestures = told_gestures::<D, S>(
                touches.contacts,
                Seq::empty(),
                Some(DeviceId(motion.device_id as i64)),
                false,
                true,
            );
            &&& actions.len() == others.len() + fingers.len() + gestures.len()
            &&& forall|i: int|
                0 <= i < others.len() ==> tells_other_left(
                    #[trigger] actions[i],
                    motion,
                    others[i],
                )
            &&& actions.subrange(
                others.len() as int,
                (others.len() + fingers.len()) as int,
            ) == fingers
            &&& actions.subrange(
                (others.len() + fingers.len()) as int,
                actions.len() as int,
            ) == gestures
            &&& after.contacts.len() == 0
            &&& after.primary_pointer is None
            &&& !after.gestures.pan_active && !after.gestures.transform_active
        }),
{
    law_what_hangs_together(touches);
    law_motions_tell_gestures(touches, motion);
    lemma_others_leave(motion, motion.pointers@);
    let device_id = Some(DeviceId(motion.device_id as i64));
    let (after, actions) = motion::motion_outcome(touches, motion);
    let left = motion::others_left(motion.source, motion.pointers@, device_id);
    let others = told_others(motion.source, motion.pointers@);
    let fingers = touch::touch_cancellations::<D, S>(touches);
    let gestures = told_gestures::<D, S>(
        touches.contacts,
        Seq::empty(),
        device_id,
        false,
        true,
    );
    let given_up = Touches { primary_pointer: None, contacts: Seq::empty(), ..touches };
    if touches.contacts.len() > 0 || touch::gesturing(touches) {
        law_gestures_are_told::<D, S>(given_up, touches.contacts, device_id, false, true);
        assert(actions == left + fingers + gestures);
    } else {
        assert(gestures =~= Seq::empty());
        assert(actions == left + fingers);
    }
    assert forall|i: int| 0 <= i < others.len() implies tells_other_left(
        #[trigger] actions[i],
        motion,
        others[i],
    ) by {
        assert(actions[i] == left[i]);
    }
    assert(actions.subrange(others.len() as int, (others.len() + fingers.len()) as int)
        =~= fingers);
    assert(actions.subrange((others.len() + fingers.len()) as int, actions.len() as int)
        =~= gestures);
}

/// Giving up all fingers tells of each that it left, and after that that the gestures that they made
/// are cut short, on no device.
pub proof fn law_giving_up<D, S>(touches: Touches<D>)
    requires
        touch_laws::consistent(touches),
    ensures
        touch::abandon_actions::<D, S>(touches) == touch::touch_cancellations::<D, S>(touches)
            + told_gestures::<D, S>(touches.contacts, Seq::empty(), None, false, true),
{
    law_what_hangs_together(touches);
    let given_up = Touches { contacts: Seq::empty(), ..touches };
    law_gestures_are_told::<D, S>(given_up, touches.contacts, None, false, true);
    assert(!touch::gesturing(touches) ==> told_gestures::<D, S>(
        touches.contacts,
        Seq::empty(),
        None,
        false,
        true,
    ) =~= Seq::empty());
}

/// A pointer that hovers enters, moves and leaves where it is, always as primary, and is not known to
/// touch. A palm does not hover.
pub proof fn law_hovering<D, S>(touches: Touches<D>, motion: MotionEvent<D, S>)
    requires
        motion::has_its_pointer(motion),
        motion.action is HoverEnter || motion.action is HoverMove || motion.action is HoverExit,
    ensures
        ({
            let (after, actions) = motion::motion_outcome(touches, motion);
            let at = subject(motion);
            let device = Some(DeviceId(motion.device_id as i64));
            &&& after == touches
            &&& match pointer::classified(motion.source, at) {
                None => actions.len() == 0,
                Some(state) => actions.len() == 1 && match actions[0] {
                    LoopAction::WindowEvent(
                        WindowEvent::PointerEntered { device_id, position, primary, kind },
                    ) => motion.action is HoverEnter && device_id == device && position
                        == at.position && primary && kind == state.kind,
                    LoopAction::WindowEvent(
                        WindowEvent::PointerMoved { device_id, position, primary, source },
                    ) => motion.action is HoverMove && device_id == device && position
                        == at.position && primary && source == state.source.moving(),
                    LoopAction::WindowEvent(
                        WindowEvent::PointerLeft { device_id, position, primary, kind },
                    ) => motion.action is HoverExit && device_id == device && position == Some(
                        at.position,
                    ) && primary && kind == state.kind,
                    _ => false,
                },
            }
        }),
{
}

/// Turning a wheel moves the pointer to where it is, as primary, and then scrolls by as many lines as
/// the wheel was turned by, each way its own.
pub proof fn law_turning_wheels<D, S>(touches: Touches<D>, motion: MotionEvent<D, S>)
    requires
        motion::has_its_pointer(motion),
        motion.action is Scroll,
    ensures
        ({
            let (after, actions) = motion::motion_outcome(touches, motion);
            let at = subject(motion);
            let device = Some(DeviceId(motion.device_id as i64));
            &&& after == touches
            &&& match pointer::classified(motion.source, at) {
                None => actions.len() == 0,
                Some(state) => {
                    &&& actions.len() == 2
                    &&& actions[0] matches LoopAction::WindowEvent(
                        WindowEvent::PointerMoved { device_id, position, primary, source },
                    )
                    &&& device_id == device && position == at.position && primary && source
                        == state.source.moving()
                    &&& actions[1] matches LoopAction::WindowEvent(
                        WindowEvent::MouseWheel {
                            device_id: wheel_device,
                            delta: MouseScrollDelta::LineDelta(horizontal, vertical),
                            phase,
                        },
                    )
                    &&& wheel_device == device && phase is Moved
                    &&& horizontal == at.horizontal_lines && vertical == at.vertical_lines
                },
            }
        }),
{
}

/// A button of a pointer that has it is told to be pressed or released, where the pointer is and as
/// primary. Pointers that do not have it, and palms, do nothing.
pub proof fn law_using_buttons<D, S>(touches: Touches<D>, motion: MotionEvent<D, S>)
    requires
        motion::has_its_pointer(motion),
        motion.action is ButtonPress || motion.action is ButtonRelease,
    ensures
        ({
            let (after, actions) = motion::motion_outcome(touches, motion);
            let at = subject(motion);
            let used = match pointer::classified(motion.source, at) {
                Some(state) => pointer::button_on(motion.action_button, state.source),
                None => None,
            };
            &&& after == touches
            &&& match used {
                None => actions.len() == 0,
                Some(used) => {
                    &&& actions.len() == 1
                    &&& actions[0] matches LoopAction::WindowEvent(
                        WindowEvent::PointerButton { device_id, state, position, primary, button },
                    )
                    &&& device_id == Some(DeviceId(motion.device_id as i64))
                    &&& state is Pressed <==> motion.action is ButtonPress
                    &&& position == at.position && primary && button == used
                },
            }
        }),
{
}

/// A motion of any other kind does nothing.
pub proof fn law_other_motions_do_nothing<D, S>(touches: Touches<D>, motion: MotionEvent<D, S>)
    requires
        motion.action is Other,
    ensures
        motion::motion_outcome(touches, motion).0 == touches,
        motion::motion_outcome(touches, motion).1.len() == 0,
{
}

/// What is no hovering is not told as hovering, and what uses no button not as using one.
pub proof fn law_only_hovering_hovers<D, S>(
    action: MotionAction,
    source: Source,
    at: MotionPointer<D, S>,
    used: Button,
    device_id: Option<DeviceId>,
)
    ensures
        !(action is HoverEnter || action is HoverMove || action is HoverExit) ==> motion::hover(
            action,
            source,
            at,
            device_id,
        ).len() == 0,
        !(action is ButtonPress || action is ButtonRelease) ==> motion::button(
            action,
            source,
            at,
            used,
            device_id,
        ).len() == 0,
{
}

/// A gesture goes on exactly while two fingers or more are down.
pub proof fn law_when_gestures_go_on<D>(touches: Touches<D>)
    requires
        touch_laws::consistent(touches),
    ensures
        touch::gesturing(touches) <==> touches.contacts.len() >= 2,
{
    law_what_hangs_together(touches);
}

} // verus!
