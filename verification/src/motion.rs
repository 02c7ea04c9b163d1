//! What the motions of pointers amount to.
use vstd::prelude::*;

use crate::action::{Action, ActionView, LoopAction};
use crate::android::{MotionAction, MotionEvent, MotionPointer, Source};
use crate::event::{
    ButtonSource, DeviceId, ElementState, MouseScrollDelta, PointerKind, TouchPhase, WindowEvent,
};
use crate::pointer::{action_button_source, android_pointer_state, AndroidPointerState};
use crate::touch::{TouchContact, TouchTracker, Touches};
use crate::{action, pointer, touch};

verus! {

/// What becomes of the fingers, and the steps that follow.
pub type Outcome<D, S> = (Touches<D>, Seq<ActionView<D, S>>);

/// An outcome after which the gestures are brought up to date.
pub open spec fn then_sync<D, S>(
    outcome: Outcome<D, S>,
    device_id: Option<DeviceId>,
    moved: bool,
    cancelled: bool,
) -> Outcome<D, S> {
    (
        touch::synced(outcome.0),
        outcome.1 + touch::sync_actions(outcome.0, device_id, moved, cancelled),
    )
}

pub open spec fn entered<D, S>(
    device_id: Option<DeviceId>,
    at: MotionPointer<D, S>,
    primary: bool,
    state: AndroidPointerState<D, S>,
) -> ActionView<D, S> {
    LoopAction::WindowEvent(
        WindowEvent::PointerEntered {
            device_id,
            primary,
            position: at.position,
            kind: state.kind,
        },
    )
}

pub open spec fn left<D, S>(
    device_id: Option<DeviceId>,
    at: MotionPointer<D, S>,
    primary: bool,
    state: AndroidPointerState<D, S>,
) -> ActionView<D, S> {
    LoopAction::WindowEvent(
        WindowEvent::PointerLeft {
            device_id,
            primary,
            position: Some(at.position),
            kind: state.kind,
        },
    )
}

pub open spec fn moved<D, S>(
    device_id: Option<DeviceId>,
    at: MotionPointer<D, S>,
    primary: bool,
    state: AndroidPointerState<D, S>,
) -> ActionView<D, S> {
    LoopAction::WindowEvent(
        WindowEvent::PointerMoved {
            device_id,
            primary,
            position: at.position,
            source: state.source.moving(),
        },
    )
}

pub open spec fn button_used<D, S>(
    device_id: Option<DeviceId>,
    at: MotionPointer<D, S>,
    primary: bool,
    state: ElementState,
    button: ButtonSource<D, S>,
) -> ActionView<D, S> {
    LoopAction::WindowEvent(
        WindowEvent::PointerButton { device_id, primary, state, position: at.position, button },
    )
}

/// A pointer comes down: it enters, and its contact is a pressed button. Of the fingers the first
/// one is the primary one; other pointers always are. A palm does nothing.
pub open spec fn contact_down<D, S>(
    touches: Touches<D>,
    source: Source,
    at: MotionPointer<D, S>,
    device_id: Option<DeviceId>,
    first: bool,
) -> Outcome<D, S> {
    match pointer::classified(source, at) {
        Some(state) => {
            let finger = state.kind is Touch;
            let primary = !finger || first;
            let actions = seq![
                entered(device_id, at, primary, state),
                button_used(
                    device_id,
                    at,
                    primary,
                    ElementState::Pressed,
                    state.source.contact(),
                ),
            ];
            if finger {
                let contact = TouchContact { device_id, position: at.position };
                then_sync(
                    (touch::after_touch_down(touches, at.finger(), contact, first), actions),
                    device_id,
                    false,
                    false,
                )
            } else {
                (touches, actions)
            }
        },
        None => (touches, Seq::empty()),
    }
}

/// A pointer is lifted: its contact is released, and it leaves.
pub open spec fn contact_up<D, S>(
    touches: Touches<D>,
    source: Source,
    at: MotionPointer<D, S>,
    device_id: Option<DeviceId>,
) -> Outcome<D, S> {
    match pointer::classified(source, at) {
        Some(state) => {
            let finger = state.kind is Touch;
            let primary = !finger || touches.primary_pointer == Some(at.finger());
            let actions = seq![
                button_used(
                    device_id,
                    at,
                    primary,
                    ElementState::Released,
                    state.source.contact(),
                ),
                left(device_id, at, primary, state),
            ];
            if finger {
                then_sync(
                    (touch::after_touch_up(touches, at.finger()), actions),
                    device_id,
                    false,
                    false,
                )
            } else {
                (touches, actions)
            }
        },
        None => (touches, Seq::empty()),
    }
}

/// One pointer after the other moves.
pub open spec fn pointers_moved<D, S>(
    touches: Touches<D>,
    source: Source,
    pointers: Seq<MotionPointer<D, S>>,
    device_id: Option<DeviceId>,
) -> Outcome<D, S>
    decreases pointers.len(),
{
    if pointers.len() == 0 {
        (touches, Seq::empty())
    } else {
        let before = pointers_moved(touches, source, pointers.drop_last(), device_id);
        let at = pointers.last();
        match pointer::classified(source, at) {
            Some(state) => if state.kind is Touch {
                (
                    touch::after_touch_move(before.0, at.finger(), device_id, at.position),
                    before.1.push(
                        moved(
                            device_id,
                            at,
                            before.0.primary_pointer == Some(at.finger()),
                            state,
                        ),
                    ),
                )
            } else {
                (before.0, before.1.push(moved(device_id, at, true, state)))
            },
            None => before,
        }
    }
}

/// Whether a pointer is a finger.
pub open spec fn is_finger<D, S>(source: Source, at: MotionPointer<D, S>) -> bool {
    pointer::classified(source, at) matches Some(state) && state.kind is Touch
}

/// Whether some of the pointers are fingers.
pub open spec fn any_finger<D, S>(source: Source, pointers: Seq<MotionPointer<D, S>>) -> bool {
    exists|i: int| 0 <= i < pointers.len() && is_finger(source, #[trigger] pointers[i])
}

/// The pointers move, and with the fingers the gestures.
pub open spec fn motion_move<D, S>(
    touches: Touches<D>,
    source: Source,
    pointers: Seq<MotionPointer<D, S>>,
    device_id: Option<DeviceId>,
) -> Outcome<D, S> {
    let outcome = pointers_moved(touches, source, pointers, device_id);
    if any_finger(source, pointers) {
        then_sync(outcome, device_id, true, false)
    } else {
        outcome
    }
}

/// The pointers that are no fingers leave, one after the other.
pub open spec fn others_left<D, S>(
    source: Source,
    pointers: Seq<MotionPointer<D, S>>,
    device_id: Option<DeviceId>,
) -> Seq<ActionView<D, S>>
    decreases pointers.len(),
{
    if pointers.len() == 0 {
        Seq::empty()
    } else {
        let before = others_left(source, pointers.drop_last(), device_id);
        match pointer::classified(source, pointers.last()) {
            Some(state) if !(state.kind is Touch) => before.push(
                left(device_id, pointers.last(), true, state),
            ),
            _ => before,
        }
    }
}

/// The motion is cut short: the pointers that are no fingers leave, and so do all fingers known,
/// whatever fingers the motion has; gestures that are going on are cut short too.
pub open spec fn motion_cancel<D, S>(
    touches: Touches<D>,
    source: Source,
    pointers: Seq<MotionPointer<D, S>>,
    device_id: Option<DeviceId>,
) -> Outcome<D, S> {
    let outcome = (
        Touches { primary_pointer: None, contacts: Seq::empty(), ..touches },
        others_left(source, pointers, device_id) + touch::touch_cancellations(touches),
    );
    if touches.contacts.len() > 0 || touch::gesturing(touches) {
        then_sync(outcome, device_id, false, true)
    } else {
        outcome
    }
}

/// A pointer hovers.
pub open spec fn hover<D, S>(
    action: MotionAction,
    source: Source,
    at: MotionPointer<D, S>,
    device_id: Option<DeviceId>,
) -> Seq<ActionView<D, S>> {
    match pointer::classified(source, at) {
        Some(state) => match action {
            MotionAction::HoverEnter => seq![entered(device_id, at, true, state)],
            MotionAction::HoverMove => seq![moved(device_id, at, true, state)],
            MotionAction::HoverExit => seq![left(device_id, at, true, state)],
            _ => Seq::empty(),
        },
        None => Seq::empty(),
    }
}

/// A wheel is turned where a pointer is.
pub open spec fn scroll<D, S>(
    source: Source,
    at: MotionPointer<D, S>,
    device_id: Option<DeviceId>,
) -> Seq<ActionView<D, S>> {
    match pointer::classified(source, at) {
        Some(state) => seq![
            moved(device_id, at, true, state),
            LoopAction::WindowEvent(
                WindowEvent::MouseWheel {
                    device_id,
                    delta: MouseScrollDelta::LineDelta(at.horizontal_lines, at.vertical_lines),
                    phase: TouchPhase::Moved,
                },
            ),
        ],
        None => Seq::empty(),
    }
}

/// A button of a pointer is pressed or released.
pub open spec fn button<D, S>(
    action: MotionAction,
    source: Source,
    at: MotionPointer<D, S>,
    used: crate::android::Button,
    device_id: Option<DeviceId>,
) -> Seq<ActionView<D, S>> {
    match pointer::classified(source, at) {
        Some(state) => match pointer::button_on(used, state.source) {
            Some(source) => match action {
                MotionAction::ButtonPress => seq![
                    button_used(device_id, at, true, ElementState::Pressed, source),
                ],
                MotionAction::ButtonRelease => seq![
                    button_used(device_id, at, true, ElementState::Released, source),
                ],
                _ => Seq::empty(),
            },
            None => Seq::empty(),
        },
        None => Seq::empty(),
    }
}

/// Whether an action is about one of the pointers.
pub open spec fn about_one_pointer(action: MotionAction) -> bool {
    !(action is Move || action is Cancel || action is Other)
}

/// Whether a motion has the pointer that it is about, if it is about one.
pub open spec fn has_its_pointer<D, S>(motion: MotionEvent<D, S>) -> bool {
    about_one_pointer(motion.action) ==> motion.pointer_index < motion.pointers@.len()
}

/// What a motion amounts to.
pub open spec fn motion_outcome<D, S>(
    touches: Touches<D>,
    motion: MotionEvent<D, S>,
) -> Outcome<D, S> {
    let device_id = crate::android::device_of(motion.device_id);
    let at = motion.pointers@[motion.pointer_index as int];
    match motion.action {
        MotionAction::Down => contact_down(touches, motion.source, at, device_id, true),
        MotionAction::PointerDown => contact_down(touches, motion.source, at, device_id, false),
        MotionAction::Move => motion_move(touches, motion.source, motion.pointers@, device_id),
        MotionAction::Up | MotionAction::PointerUp => contact_up(
            touches,
            motion.source,
            at,
            device_id,
        ),
        MotionAction::Cancel => motion_cancel(touches, motion.source, motion.pointers@, device_id),
        MotionAction::HoverEnter | MotionAction::HoverMove | MotionAction::HoverExit => (
            touches,
            hover(motion.action, motion.source, at, device_id),
        ),
        MotionAction::Scroll => (touches, scroll(motion.source, at, device_id)),
        MotionAction::ButtonPress | MotionAction::ButtonRelease => (
            touches,
            button(motion.action, motion.source, at, motion.action_button, device_id),
        ),
        MotionAction::Other => (touches, Seq::empty()),
    }
}

fn classified_pointer<D: Copy, S: Copy>(source: Source, at: &MotionPointer<D, S>) -> (state: Option<
    AndroidPointerState<D, S>,
>)
    ensures
        state == pointer::classified(source, *at),
{
    android_pointer_state(source, at.tool_type, at.finger_id(), at.pressure)
}

fn is_touch(kind: &PointerKind) -> (result: bool)
    ensures
        result == (*kind is Touch),
{
    match kind {
        PointerKind::Touch(_) => true,
        _ => false,
    }
}

impl<D: Copy> TouchTracker<D> {
    pub fn handle_contact_down<S: Copy>(
        &mut self,
        motion: &MotionEvent<D, S>,
        device_id: Option<DeviceId>,
    ) -> (actions: Vec<Action<D, S>>)
        requires
            motion.pointer_index < motion.pointers@.len(),
        ensures
            (final(self)@, action::actions_of(actions@)) == contact_down(
                old(self)@,
                motion.source,
                motion.pointers@[motion.pointer_index as int],
                device_id,
                motion.action == MotionAction::Down,
            ),
    {
        let mut actions: Vec<Action<D, S>> = Vec::new();
        assert(action::actions_of(actions@) =~= Seq::empty());
        let at = &motion.pointers[motion.pointer_index];
        let finger_id = at.finger_id();
        let state = match classified_pointer(motion.source, at) {
            Some(state) => state,
            None => return actions,
        };
        let finger = is_touch(&state.kind);
        let first = motion.action == MotionAction::Down;
        let primary = !finger || first;
        if finger {
            let contact = TouchContact { device_id, position: at.position };
            self.touch_down(finger_id, contact, first);
        }
        actions.push(
            LoopAction::WindowEvent(
                WindowEvent::PointerEntered {
                    device_id,
                    primary,
                    position: at.position,
                    kind: state.kind,
                },
            ),
        );
        actions.push(
            LoopAction::WindowEvent(
                WindowEvent::PointerButton {
                    device_id,
                    primary,
                    state: ElementState::Pressed,
                    position: at.position,
                    button: state.contact_button(),
                },
            ),
        );
        let ghost reported = actions@;
        assert(action::actions_of(reported) =~= seq![
            entered(device_id, *at, primary, state),
            button_used(device_id, *at, primary, ElementState::Pressed, state.source.contact()),
        ]);
        if finger {
            let mut gestures = self.sync_touch_gestures(device_id, false, false);
            let ghost synced = gestures@;
            actions.append(&mut gestures);
            assert(action::actions_of(actions@) =~= action::actions_of(reported)
                + action::actions_of(synced));
        }
        actions
    }

    pub fn handle_motion_move<S: Copy>(
        &mut self,
        motion: &MotionEvent<D, S>,
        device_id: Option<DeviceId>,
    ) -> (actions: Vec<Action<D, S>>)
        ensures
            (final(self)@, action::actions_of(actions@)) == motion_move(
                old(self)@,
                motion.source,
                motion.pointers@,
                device_id,
            ),
    {
        let mut actions: Vec<Action<D, S>> = Vec::new();
        let mut touched = false;
        let mut index: usize = 0;
        assert(action::actions_of(actions@) =~= Seq::empty());
        while index < motion.pointers.len()
            invariant
                index <= motion.pointers@.len(),
                (self@, action::actions_of(actions@)) == pointers_moved(
                    old(self)@,
                    motion.source,
                    motion.pointers@.take(index as int),
                    device_id,
                ),
                touched == any_finger(motion.source, motion.pointers@.take(index as int)),
            decreases motion.pointers@.len() - index,
        {
            let at = &motion.pointers[index];
            let ghost before = motion.pointers@.take(index as int);
            let ghost after = motion.pointers@.take(index + 1);
            let ghost reported = actions@;
            proof {
                assert(after.drop_last() =~= before);
                assert(after.last() == *at);
                assert(any_finger(motion.source, after) == (any_finger(motion.source, before)
                    || is_finger(motion.source, *at))) by {
                    if any_finger(motion.source, before) {
                        let i = choose|i: int|
                            0 <= i < before.len() && is_finger(motion.source, #[trigger] before[i]);
                        assert(is_finger(motion.source, after[i]));
                    }
                    if is_finger(motion.source, *at) {
                        assert(is_finger(motion.source, after[index as int]));
                    }
                    if any_finger(motion.source, after) {
                        let i = choose|i: int|
                            0 <= i < after.len() && is_finger(motion.source, #[trigger] after[i]);
                        if i < index {
                            assert(is_finger(motion.source, before[i]));
                        }
                    }
                }
            }
            index = index + 1;
            let finger_id = at.finger_id();
            if let Some(state) = classified_pointer(motion.source, at) {
                let mut primary = true;
                if is_touch(&state.kind) {
                    primary = self.is_primary(finger_id);
                    self.touch_move(finger_id, device_id, at.position);
                    touched = true;
                }
                actions.push(
                    LoopAction::WindowEvent(
                        WindowEvent::PointerMoved {
                            device_id,
                            primary,
                            position: at.position,
                            source: state.pointer_source(),
                        },
                    ),
                );
                assert(action::actions_of(actions@) =~= action::actions_of(reported).push(
                    moved(device_id, *at, primary, state),
                ));
            }
        }
        assert(motion.pointers@.take(index as int) =~= motion.pointers@);
        if touched {
            let ghost reported = actions@;
            let mut gestures = self.sync_touch_gestures(device_id, true, false);
            let ghost synced = gestures@;
            actions.append(&mut gestures);
            assert(action::actions_of(actions@) =~= action::actions_of(reported)
                + action::actions_of(synced));
        }
        actions
    }

    pub fn handle_contact_up<S: Copy>(
        &mut self,
        motion: &MotionEvent<D, S>,
        device_id: Option<DeviceId>,
    ) -> (actions: Vec<Action<D, S>>)
        requires
            motion.pointer_index < motion.pointers@.len(),
        ensures
            (final(self)@, action::actions_of(actions@)) == contact_up(
                old(self)@,
                motion.source,
                motion.pointers@[motion.pointer_index as int],
                device_id,
            ),
    {
        let mut actions: Vec<Action<D, S>> = Vec::new();
        assert(action::actions_of(actions@) =~= Seq::empty());
        let at = &motion.pointers[motion.pointer_index];
        let finger_id = at.finger_id();
        let state = match classified_pointer(motion.source, at) {
            Some(state) => state,
            None => return actions,
        };
        let finger = is_touch(&state.kind);
        let primary = if finger {
            self.touch_up(finger_id)
        } else {
            true
        };
        actions.push(
            LoopAction::WindowEvent(
                WindowEvent::PointerButton {
                    device_id,
                    primary,
                    state: ElementState::Released,
                    position: at.position,
                    button: state.contact_button(),
                },
            ),
        );
        actions.push(
            LoopAction::WindowEvent(
                WindowEvent::PointerLeft {
                    device_id,
                    primary,
                    position: Some(at.position),
                    kind: state.kind,
                },
            ),
        );
        let ghost reported = actions@;
        assert(action::actions_of(reported) =~= seq![
            button_used(device_id, *at, primary, ElementState::Released, state.source.contact()),
            left(device_id, *at, primary, state),
        ]);
        if finger {
            let mut gestures = self.sync_touch_gestures(device_id, false, false);
            let ghost synced = gestures@;
            actions.append(&mut gestures);
            assert(action::actions_of(actions@) =~= action::actions_of(reported)
                + action::actions_of(synced));
        }
        actions
    }

    pub fn handle_motion_cancel<S: Copy>(
        &mut self,
        motion: &MotionEvent<D, S>,
        device_id: Option<DeviceId>,
    ) -> (actions: Vec<Action<D, S>>)
        ensures
            (final(self)@, action::actions_of(actions@)) == motion_cancel(
                old(self)@,
                motion.source,
                motion.pointers@,
                device_id,
            ),
    {
        let mut actions: Vec<Action<D, S>> = Vec::new();
        let mut index: usize = 0;
        assert(action::actions_of(actions@) =~= Seq::empty());
        while index < motion.pointers.len()
            invariant
                index <= motion.pointers@.len(),
                *self == *old(self),
                action::actions_of(actions@) == others_left(
                    motion.source,
                    motion.pointers@.take(index as int),
                    device_id,
                ),
            decreases motion.pointers@.len() - index,
        {
            let at = &motion.pointers[index];
            let ghost reported = actions@;
            proof {
                let after = motion.pointers@.take(index + 1);
                assert(after.drop_last() =~= motion.pointers@.take(index as int));
                assert(after.last() == *at);
            }
            index = index + 1;
            if let Some(state) = classified_pointer(motion.source, at) {
                if !is_touch(&state.kind) {
                    actions.push(
                        LoopAction::WindowEvent(
                            WindowEvent::PointerLeft {
                                device_id,
                                primary: true,
                                position: Some(at.position),
                                kind: state.kind,
                            },
                        ),
                    );
                    assert(action::actions_of(actions@) =~= action::actions_of(reported).push(
                        left(device_id, *at, true, state),
                    ));
                }
            }
        }
        assert(motion.pointers@.take(index as int) =~= motion.pointers@);
        let ghost others = actions@;
        let (mut cancellations, touched) = self.emit_tracked_touch_cancellations();
        let ghost cancelled = cancellations@;
        actions.append(&mut cancellations);
        assert(action::actions_of(actions@) =~= action::actions_of(others) + action::actions_of(
            cancelled,
        ));
        if touched || self.is_gesturing() {
            let ghost reported = actions@;
            let mut gestures = self.sync_touch_gestures(device_id, false, true);
            let ghost synced = gestures@;
            actions.append(&mut gestures);
            assert(action::actions_of(actions@) =~= action::actions_of(reported)
                + action::actions_of(synced));
        }
        actions
    }

    /// Handles a motion of pointers.
    pub fn handle_motion_event<S: Copy>(&mut self, motion: &MotionEvent<D, S>) -> (actions: Vec<
        Action<D, S>,
    >)
        requires
            has_its_pointer(*motion),
        ensures
            (final(self)@, action::actions_of(actions@)) == motion_outcome(old(self)@, *motion),
    {
        let device_id = Some(DeviceId::from_raw(motion.device_id as i64));
        match motion.action {
            MotionAction::Down | MotionAction::PointerDown => {
                self.handle_contact_down(motion, device_id)
            },
            MotionAction::Move => self.handle_motion_move(motion, device_id),
            MotionAction::Up | MotionAction::PointerUp => self.handle_contact_up(motion, device_id),
            MotionAction::Cancel => self.handle_motion_cancel(motion, device_id),
            MotionAction::HoverEnter | MotionAction::HoverMove | MotionAction::HoverExit => {
                handle_hover_event(motion, device_id)
            },
            MotionAction::Scroll => handle_scroll_event(motion, device_id),
            MotionAction::ButtonPress | MotionAction::ButtonRelease => {
                handle_button_event(motion, device_id)
            },
            MotionAction::Other => {
                let actions: Vec<Action<D, S>> = Vec::new();
                assert(action::actions_of(actions@) =~= Seq::empty());
                actions
            },
        }
    }
}

pub fn handle_hover_event<D: Copy, S: Copy>(
    motion: &MotionEvent<D, S>,
    device_id: Option<DeviceId>,
) -> (actions: Vec<Action<D, S>>)
    requires
        motion.pointer_index < motion.pointers@.len(),
    ensures
        action::actions_of(actions@) == hover(
            motion.action,
            motion.source,
            motion.pointers@[motion.pointer_index as int],
            device_id,
        ),
{
    let mut actions: Vec<Action<D, S>> = Vec::new();
    let at = &motion.pointers[motion.pointer_index];
    if let Some(state) = classified_pointer(motion.source, at) {
        match motion.action {
            MotionAction::HoverEnter => {
                actions.push(
                    LoopAction::WindowEvent(
                        WindowEvent::PointerEntered {
                            device_id,
                            primary: true,
                            position: at.position,
                            kind: state.kind,
                        },
                    ),
                );
            },
            MotionAction::HoverMove => {
                actions.push(
                    LoopAction::WindowEvent(
                        WindowEvent::PointerMoved {
                            device_id,
                            primary: true,
                            position: at.position,
                            source: state.pointer_source(),
                        },
                    ),
                );
            },
            MotionAction::HoverExit => {
                actions.push(
                    LoopAction::WindowEvent(
                        WindowEvent::PointerLeft {
                            device_id,
                            primary: true,
                            position: Some(at.position),
                            kind: state.kind,
                        },
                    ),
                );
            },
            _ => {},
        }
    }
    assert(action::actions_of(actions@) =~= hover(motion.action, motion.source, *at, device_id));
    actions
}

pub fn handle_scroll_event<D: Copy, S: Copy>(
    motion: &MotionEvent<D, S>,
    device_id: Option<DeviceId>,
) -> (actions: Vec<Action<D, S>>)
    requires
        motion.pointer_index < motion.pointers@.len(),
    ensures
        action::actions_of(actions@) == scroll(
            motion.source,
            motion.pointers@[motion.pointer_index as int],
            device_id,
        ),
{
    let mut actions: Vec<Action<D, S>> = Vec::new();
    let at = &motion.pointers[motion.pointer_index];
    if let Some(state) = classified_pointer(motion.source, at) {
        actions.push(
            LoopAction::WindowEvent(
                WindowEvent::PointerMoved {
                    device_id,
                    primary: true,
                    position: at.position,
                    source: state.pointer_source(),
                },
            ),
        );
        actions.push(
            LoopAction::WindowEvent(
                WindowEvent::MouseWheel {
                    device_id,
                    delta: MouseScrollDelta::LineDelta(at.horizontal_lines, at.vertical_lines),
                    phase: TouchPhase::Moved,
                },
            ),
        );
    }
    assert(action::actions_of(actions@) =~= scroll(motion.source, *at, device_id));
    actions
}

pub fn handle_button_event<D: Copy, S: Copy>(
    motion: &MotionEvent<D, S>,
    device_id: Option<DeviceId>,
) -> (actions: Vec<Action<D, S>>)
    requires
        motion.pointer_index < motion.pointers@.len(),
    ensures
        action::actions_of(actions@) == button(
            motion.action,
            motion.source,
            motion.pointers@[motion.pointer_index as int],
            motion.action_button,
            device_id,
        ),
{
    let mut actions: Vec<Action<D, S>> = Vec::new();
    let at = &motion.pointers[motion.pointer_index];
    let used = match motion.action {
        MotionAction::ButtonPress => Some(ElementState::Pressed),
        MotionAction::ButtonRelease => Some(ElementState::Released),
        _ => None,
    };
    if let (Some(state), Some(element_state)) = (classified_pointer(motion.source, at), used) {
        if let Some(button) = action_button_source(motion.action_button, &state) {
            actions.push(
                LoopAction::WindowEvent(
                    WindowEvent::PointerButton {
                        device_id,
                        primary: true,
                        state: element_state,
                        position: at.position,
                        button,
                    },
                ),
            );
        }
    }
    assert(action::actions_of(actions@) =~= button(
        motion.action,
        motion.source,
        *at,
        motion.action_button,
        device_id,
    ));
    actions
}

} // verus!
