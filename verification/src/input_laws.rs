//! What holds of the tracked pointers and of the reported input over several events.
use vstd::prelude::*;

use crate::event::{
    ButtonSource, DeviceId, ElementState, FingerId, PointerKind, PointerSource, WindowEvent,
};
use crate::geometry::PhysicalPosition;
use crate::input::{
    ButtonId, GestureInputEvent, PointerId, PointerInputAction, Pointers, TrackedPointer, WindowInputEvent,
};
use crate::{input, table};

verus! {

/// The pointer that an event is about, if it is about one.
pub open spec fn subject<D, S>(event: WindowEvent<D, S>) -> Option<PointerId> {
    match event {
        WindowEvent::PointerEntered { device_id, primary, kind, .. } => Some(
            PointerId::of_kind(kind, device_id, primary),
        ),
        WindowEvent::PointerMoved { device_id, primary, source, .. } => Some(
            PointerId::of_kind(source.kind(), device_id, primary),
        ),
        WindowEvent::PointerButton { device_id, primary, button, .. } => Some(
            PointerId::of_kind(button.kind(), device_id, primary),
        ),
        WindowEvent::PointerLeft { device_id, primary, kind, .. } => Some(
            PointerId::of_kind(kind, device_id, primary),
        ),
        _ => None,
    }
}

/// Whether an event ends the tracking of all pointers.
pub open spec fn ends_tracking<D, S>(event: WindowEvent<D, S>) -> bool {
    event == WindowEvent::<D, S>::Focused(false) || event == WindowEvent::<D, S>::Destroyed
}

/// No event makes a pointer be tracked twice.
pub proof fn law_pointers_stay_distinct<D, S>(pointers: Pointers<D>, event: WindowEvent<D, S>)
    requires
        table::keys_distinct(pointers),
    ensures
        table::keys_distinct(input::pointers_after(pointers, event)),
{
    match event {
        WindowEvent::PointerEntered { device_id, position, primary, kind } => {
            table::law_with_entry(
                pointers,
                PointerId::of_kind(kind, device_id, primary),
                TrackedPointer {
                    device_id,
                    kind,
                    primary,
                    pressed: Seq::empty(),
                    last_position: Some(position),
                },
            );
        },
        WindowEvent::PointerMoved { .. } | WindowEvent::PointerButton { .. } => {
            let id = subject(event)->0;
            let after = input::pointers_after(pointers, event);
            assert(table::has_key(after, id)) by {
                if table::has_key(pointers, id) {
                    assert(after[table::key_index(pointers, id)].0 == id);
                } else {
                    assert(after[pointers.len() as int].0 == id);
                }
            }
            assert(exists|value: TrackedPointer<D>|
                after == table::with_entry(pointers, id, value));
            let value = choose|value: TrackedPointer<D>|
                after == table::with_entry(pointers, id, value);
            table::law_with_entry(pointers, id, value);
        },
        WindowEvent::PointerLeft { .. } => {
            table::law_without_key(pointers, subject(event)->0);
        },
        _ => {},
    }
}

/// An event about one pointer leaves what is known of the others alone.
pub proof fn law_other_pointers_untouched<D, S>(
    pointers: Pointers<D>,
    event: WindowEvent<D, S>,
    other: PointerId,
)
    requires
        table::keys_distinct(pointers),
        !ends_tracking(event),
        subject(event) != Some(other),
    ensures
        table::lookup(input::pointers_after(pointers, event), other) == table::lookup(pointers, other),
{
    match event {
        WindowEvent::PointerEntered { .. } | WindowEvent::PointerMoved { .. }
        | WindowEvent::PointerButton { .. } => {
            let id = subject(event)->0;
            let after = input::pointers_after(pointers, event);
            assert(exists|value: TrackedPointer<D>|
                after == table::with_entry(pointers, id, value));
            let value = choose|value: TrackedPointer<D>|
                after == table::with_entry(pointers, id, value);
            table::law_with_entry(pointers, id, value);
        },
        WindowEvent::PointerLeft { .. } => {
            table::law_without_key(pointers, subject(event)->0);
        },
        _ => {},
    }
}

/// A button that goes down is down, with those that were, and none comes to be listed twice.
proof fn lemma_with_button(pressed: Seq<ButtonId>, id: ButtonId)
    ensures
        input::with_button(pressed, id).to_set() == pressed.to_set().insert(id),
        pressed.no_duplicates() ==> input::with_button(pressed, id).no_duplicates(),
{
    let after = input::with_button(pressed, id);
    assert forall|button: ButtonId|
        after.contains(button) == (button == id || pressed.contains(button)) by {
        if pressed.contains(button) {
            let i = choose|i: int| 0 <= i < pressed.len() && pressed[i] == button;
            assert(after[i] == button);
        }
        if !pressed.contains(id) {
            assert(after[pressed.len() as int] == id);
        }
    }
    assert(after.to_set() =~= pressed.to_set().insert(id));
}

/// A button that goes up is no longer down, the others stay, and none comes to be listed twice.
proof fn lemma_without_button(pressed: Seq<ButtonId>, id: ButtonId)
    ensures
        input::without_button(pressed, id).to_set() == pressed.to_set().remove(id),
        pressed.no_duplicates() ==> input::without_button(pressed, id).no_duplicates(),
    decreases pressed.len(),
{
    reveal(Seq::filter);
    let after = input::without_button(pressed, id);
    if pressed.len() > 0 {
        let fewer = pressed.drop_last();
        let last = pressed.last();
        lemma_without_button(fewer, id);
        let before = input::without_button(fewer, id);
        assert forall|button: ButtonId| #[trigger]
            pressed.contains(button) == (button == last || fewer.contains(button)) by {
            if fewer.contains(button) {
                let i = choose|i: int| 0 <= i < fewer.len() && fewer[i] == button;
                assert(pressed[i] == button);
            }
            if pressed.contains(button) && button != last {
                let i = choose|i: int| 0 <= i < pressed.len() && pressed[i] == button;
                assert(fewer[i] == button);
            }
            assert(pressed[fewer.len() as int] == last);
        }
        assert forall|button: ButtonId| #[trigger]
            before.contains(button) == (button != id && fewer.contains(button)) by {
            assert(before.to_set().contains(button) == fewer.to_set().remove(id).contains(button));
        }
        if last != id {
            assert(after == before.push(last));
            assert forall|button: ButtonId| #[trigger]
                after.contains(button) == (button == last || before.contains(button)) by {
                if before.contains(button) {
                    let i = choose|i: int| 0 <= i < before.len() && before[i] == button;
                    assert(after[i] == button);
                }
                assert(after[before.len() as int] == last);
            }
            if pressed.no_duplicates() {
                assert(!fewer.contains(last));
                assert(!before.contains(last));
                assert forall|i: int, j: int| 0 <= i < after.len() && 0 <= j < after.len() && i != j
                    implies after[i] != after[j] by {
                    if i < before.len() {
                        assert(before.contains(before[i]));
                    }
                    if j < before.len() {
                        assert(before.contains(before[j]));
                    }
                }
            }
        } else {
            assert(after == before);
        }
        assert forall|button: ButtonId| #[trigger]
            after.to_set().contains(button) == pressed.to_set().remove(id).contains(button) by {
            assert(after.contains(button) == (button != id && pressed.contains(button)));
        }
    }
    assert(after.to_set() =~= pressed.to_set().remove(id));
}

/// Moving a pointer keeps its buttons down.
pub proof fn law_moving_keeps_buttons<D, S>(
    pointers: Pointers<D>,
    device_id: Option<DeviceId>,
    position: PhysicalPosition<D>,
    primary: bool,
    source: PointerSource<D, S>,
    id: PointerId,
)
    requires
        table::keys_distinct(pointers),
    ensures
        input::pressed_buttons(
            input::pointers_after(
                pointers,
                WindowEvent::PointerMoved { device_id, position, primary, source },
            ),
            id,
        ) == input::pressed_buttons(pointers, id),
{
    let moved = PointerId::of_kind(source.kind(), device_id, primary);
    table::law_with_entry(
        pointers,
        moved,
        TrackedPointer {
            device_id,
            kind: source.kind(),
            primary,
            pressed: input::pressed_buttons(pointers, moved),
            last_position: Some(position),
        },
    );
}

/// Pressing a button puts it among those that the pointer holds down, releasing it takes it out,
/// and neither touches the pointer's other buttons.
pub proof fn law_press_and_release<D, S>(
    pointers: Pointers<D>,
    device_id: Option<DeviceId>,
    state: ElementState,
    position: PhysicalPosition<D>,
    primary: bool,
    button: ButtonSource<D, S>,
)
    requires
        table::keys_distinct(pointers),
    ensures
        ({
            let id = PointerId::of_kind(button.kind(), device_id, primary);
            let after = input::pointers_after(
                pointers,
                WindowEvent::PointerButton { device_id, state, position, primary, button },
            );
            &&& table::lookup(after, id) is Some
            &&& input::pressed_buttons(after, id).to_set() == match state {
                ElementState::Pressed => input::pressed_buttons(pointers, id).to_set().insert(
                    ButtonId::of_source(button),
                ),
                ElementState::Released => input::pressed_buttons(pointers, id).to_set().remove(
                    ButtonId::of_source(button),
                ),
            }
        }),
{
    let id = PointerId::of_kind(button.kind(), device_id, primary);
    let pressed = input::pressed_buttons(pointers, id);
    table::law_with_entry(
        pointers,
        id,
        TrackedPointer {
            device_id,
            kind: button.kind(),
            primary,
            pressed: match state {
                ElementState::Pressed => input::with_button(pressed, ButtonId::of_source(button)),
                ElementState::Released => input::without_button(
                    pressed,
                    ButtonId::of_source(button),
                ),
            },
            last_position: Some(position),
        },
    );
    lemma_with_button(pressed, ButtonId::of_source(button));
    lemma_without_button(pressed, ButtonId::of_source(button));
}

/// The action of a pointer event.
pub open spec fn action_of<D, S>(input: WindowInputEvent<D, S>) -> Option<
    PointerInputAction<D, S>,
> {
    match input {
        WindowInputEvent::Pointer(pointer) => Some(pointer.action),
        _ => None,
    }
}

/// A pointer that leaves with a button still down is reported as cancelled, unless it is a mouse,
/// which is reported as having left.
pub proof fn law_leaving_with_a_button_down<D, S>(
    pointers: Pointers<D>,
    pressed_by: Option<DeviceId>,
    pressed_at: PhysicalPosition<D>,
    primary: bool,
    button: ButtonSource<D, S>,
    left_at: Option<PhysicalPosition<D>>,
)
    requires
        table::keys_distinct(pointers),
    ensures
        ({
            let held = input::pointers_after(
                pointers,
                WindowEvent::PointerButton {
                    device_id: pressed_by,
                    state: ElementState::Pressed,
                    position: pressed_at,
                    primary,
                    button,
                },
            );
            let left = WindowEvent::<D, S>::PointerLeft {
                device_id: pressed_by,
                position: left_at,
                primary,
                kind: button.kind(),
            };
            let input = input::input_of(held, left);
            &&& input.len() == 1
            &&& action_of(input[0]) == Some(
                if button.kind() == PointerKind::Mouse {
                    PointerInputAction::<D, S>::Left
                } else {
                    PointerInputAction::<D, S>::Cancelled
                },
            )
        }),
{
    let id = PointerId::of_kind(button.kind(), pressed_by, primary);
    law_press_and_release(
        pointers,
        pressed_by,
        ElementState::Pressed,
        pressed_at,
        primary,
        button,
    );
    let held = input::pointers_after(
        pointers,
        WindowEvent::PointerButton {
            device_id: pressed_by,
            state: ElementState::Pressed,
            position: pressed_at,
            primary,
            button,
        },
    );
    assert(input::pressed_buttons(held, id).to_set().contains(ButtonId::of_source(button)));
}

/// A pointer that left is no longer known.
pub proof fn law_leaving_forgets<D, S>(
    pointers: Pointers<D>,
    device_id: Option<DeviceId>,
    position: Option<PhysicalPosition<D>>,
    primary: bool,
    kind: PointerKind,
)
    requires
        table::keys_distinct(pointers),
    ensures
        table::lookup(
            input::pointers_after(
                pointers,
                WindowEvent::<D, S>::PointerLeft { device_id, position, primary, kind },
            ),
            PointerId::of_kind(kind, device_id, primary),
        ) is None,
{
    table::law_without_key(pointers, PointerId::of_kind(kind, device_id, primary));
}

/// The name under which a pointer event is reported.
pub open spec fn pointer_of<D, S>(input: WindowInputEvent<D, S>) -> Option<PointerId> {
    match input {
        WindowInputEvent::Pointer(pointer) => Some(pointer.pointer_id),
        _ => None,
    }
}

/// Ending the tracking of all pointers reports each of them, once, and none is known afterwards.
pub proof fn law_cancelling_reports_each_pointer_once<D, S>(
    pointers: Pointers<D>,
    event: WindowEvent<D, S>,
)
    requires
        table::keys_distinct(pointers),
        ends_tracking(event),
    ensures
        input::pointers_after(pointers, event).len() == 0,
        input::touch_contacts_of(input::pointers_after(pointers, event)) == 0,
        input::input_of(pointers, event).len() == pointers.len(),
        forall|id: PointerId|
            #![trigger table::has_key(pointers, id)]
            table::has_key(pointers, id) <==> exists|i: int|
                0 <= i < pointers.len() && pointer_of(#[trigger] input::input_of(pointers, event)[i])
                    == Some(id),
        forall|i: int, j: int|
            0 <= i < j < pointers.len() ==> pointer_of(#[trigger] input::input_of(pointers, event)[i])
                != pointer_of(#[trigger] input::input_of(pointers, event)[j]),
{
    let input = input::input_of(pointers, event);
    assert(input == input::cancellations::<D, S>(pointers));
    assert forall|i: int| 0 <= i < pointers.len() implies pointer_of(#[trigger] input[i]) == Some(
        pointers[i].0,
    ) by {
        assert(input[i] == input::cancellation::<D, S>(pointers[i]));
    }
    assert forall|id: PointerId| #![trigger table::has_key(pointers, id)] table::has_key(
        pointers,
        id,
    ) implies exists|i: int|
        0 <= i < pointers.len() && pointer_of(#[trigger] input[i]) == Some(id) by {
        let i = table::key_index(pointers, id);
        assert(pointer_of(input[i]) == Some(id));
    }
    assert forall|id: PointerId| (exists|i: int|
        0 <= i < pointers.len() && pointer_of(#[trigger] input[i]) == Some(id)) implies #[trigger]
    table::has_key(pointers, id) by {
        let i = choose|i: int| 0 <= i < pointers.len() && pointer_of(#[trigger] input[i]) == Some(
            id,
        );
        assert(pointers[i].0 == id);
    }
    reveal(Seq::filter);
}

/// Scrolling and gestures are reported as they come, one for one, and move no pointer.
pub proof fn law_gestures_track_nothing<D, S>(pointers: Pointers<D>, event: WindowEvent<D, S>)
    requires
        event is MouseWheel || event is PanGesture || event is PinchGesture
            || event is RotationGesture || event is DoubleTapGesture,
    ensures
        input::pointers_after(pointers, event) == pointers,
        input::input_of(pointers, event).len() == 1,
        input::input_of(pointers, event)[0] is Scroll <==> event is MouseWheel,
        input::input_of(pointers, event)[0] is Gesture <==> !(event is MouseWheel),
{
}

/// A finger that comes down anew is counted, and one that leaves is no longer counted.
pub proof fn law_touch_contacts_counted<D, S>(
    pointers: Pointers<D>,
    device_id: Option<DeviceId>,
    position: PhysicalPosition<D>,
    primary: bool,
    finger: FingerId,
)
    requires
        table::keys_distinct(pointers),
        table::lookup(pointers, PointerId::Touch(finger)) is None,
    ensures
        ({
            let kind = PointerKind::Touch(finger);
            let entered = input::pointers_after(
                pointers,
                WindowEvent::<D, S>::PointerEntered { device_id, position, primary, kind },
            );
            let left = input::pointers_after(
                entered,
                WindowEvent::<D, S>::PointerLeft {
                    device_id,
                    position: Some(position),
                    primary,
                    kind,
                },
            );
            &&& input::touch_contacts_of(entered) == input::touch_contacts_of(pointers) + 1
            &&& left == pointers
        }),
{
    let kind = PointerKind::Touch(finger);
    let id = PointerId::Touch(finger);
    let entered = input::pointers_after(
        pointers,
        WindowEvent::<D, S>::PointerEntered { device_id, position, primary, kind },
    );
    assert(entered.drop_last() =~= pointers);
    reveal(Seq::filter);
    law_pointers_stay_distinct(
        pointers,
        WindowEvent::<D, S>::PointerEntered { device_id, position, primary, kind },
    );
    assert(entered[pointers.len() as int].0 == id);
    assert(table::key_index(entered, id) == pointers.len());
    assert(table::without_key(entered, id) =~= pointers);
}

/// Whether a pointer is kept as it should be: it has the name that belongs to its kind, its device
/// and its rank, its last position is known, and none of its buttons is listed twice.
pub open spec fn is_kept_well<D>(entry: (PointerId, TrackedPointer<D>)) -> bool {
    &&& entry.0 == PointerId::of_kind(entry.1.kind, entry.1.device_id, entry.1.primary)
    &&& entry.1.last_position is Some
    &&& entry.1.pressed.no_duplicates()
}

/// Whether all pointers are kept as they should be, and none twice.
pub open spec fn well_kept<D>(pointers: Pointers<D>) -> bool {
    &&& table::keys_distinct(pointers)
    &&& forall|i: int| 0 <= i < pointers.len() ==> is_kept_well(#[trigger] pointers[i])
}

/// Whether input about a pointer has the name that belongs to the kind, the device and the rank
/// that it is reported with.
pub open spec fn is_named_well<D, S>(input: WindowInputEvent<D, S>) -> bool {
    match input {
        WindowInputEvent::Pointer(pointer) => pointer.pointer_id == PointerId::of_kind(
            pointer.kind,
            pointer.device_id,
            pointer.primary,
        ),
        _ => true,
    }
}

/// The buttons of a pointer that is kept well, or of one that is not tracked, are listed once.
proof fn lemma_buttons_listed_once<D>(pointers: Pointers<D>, id: PointerId)
    requires
        well_kept(pointers),
    ensures
        input::pressed_buttons(pointers, id).no_duplicates(),
{
    if table::has_key(pointers, id) {
        assert(is_kept_well(pointers[table::key_index(pointers, id)]));
    }
}

/// Every event leaves the pointers well kept, and all input about pointers is well named.
pub proof fn law_pointers_stay_well_kept<D, S>(pointers: Pointers<D>, event: WindowEvent<D, S>)
    requires
        well_kept(pointers),
    ensures
        well_kept(input::pointers_after(pointers, event)),
        forall|i: int|
            0 <= i < input::input_of(pointers, event).len() ==> is_named_well(
                #[trigger] input::input_of(pointers, event)[i],
            ),
{
    law_pointers_stay_distinct(pointers, event);
    if let WindowEvent::PointerButton { device_id, primary, button, .. } = event {
        let pressed = input::pressed_buttons(
            pointers,
            PointerId::of_kind(button.kind(), device_id, primary),
        );
        lemma_with_button(pressed, ButtonId::of_source(button));
        lemma_without_button(pressed, ButtonId::of_source(button));
    }
    if let Some(id) = subject(event) {
        lemma_buttons_listed_once(pointers, id);
        if table::has_key(pointers, id) {
            assert(is_kept_well(pointers[table::key_index(pointers, id)]));
        }
    }
    let after = input::pointers_after(pointers, event);
    assert forall|i: int| 0 <= i < after.len() implies is_kept_well(#[trigger] after[i]) by {
        if i < pointers.len() {
            assert(is_kept_well(pointers[i]));
        }
        if i + 1 < pointers.len() {
            assert(is_kept_well(pointers[i + 1]));
        }
    }
    if ends_tracking(event) {
        assert forall|i: int| 0 <= i < pointers.len() implies is_named_well(
            #[trigger] input::input_of(pointers, event)[i],
        ) by {
            assert(is_kept_well(pointers[i]));
        }
    }
}

/// The pointers that are tracked after some events. There are none at first, nor after all pointers
/// were forgotten, so the events are those since then.
pub open spec fn pointers_reached<D, S>(events: Seq<WindowEvent<D, S>>) -> Pointers<D>
    decreases events.len(),
{
    if events.len() == 0 {
        Seq::empty()
    } else {
        input::pointers_after(pointers_reached(events.drop_last()), events.last())
    }
}

/// After any events the pointers are well kept, and as many touch contacts are counted as there are
/// fingers tracked.
pub proof fn law_reached_pointers_are_well_kept<D, S>(events: Seq<WindowEvent<D, S>>)
    ensures
        well_kept(pointers_reached(events)),
        input::touch_contacts_of(pointers_reached(events)) == fingers_of(
            pointers_reached(events),
        ).len(),
    decreases events.len(),
{
    if events.len() > 0 {
        law_reached_pointers_are_well_kept(events.drop_last());
        law_pointers_stay_well_kept(pointers_reached(events.drop_last()), events.last());
    }
    law_touch_contacts_are_fingers(pointers_reached(events));
}

/// The fingers that are tracked.
pub open spec fn fingers_of<D>(pointers: Pointers<D>) -> Set<FingerId> {
    Set::new(|finger: FingerId| table::has_key(pointers, PointerId::Touch(finger)))
}

/// As many touch contacts are counted as there are fingers tracked.
pub proof fn law_touch_contacts_are_fingers<D>(pointers: Pointers<D>)
    requires
        well_kept(pointers),
    ensures
        fingers_of(pointers).finite(),
        input::touch_contacts_of(pointers) == fingers_of(pointers).len(),
    decreases pointers.len(),
{
    reveal(Seq::filter);
    if pointers.len() == 0 {
        assert(fingers_of(pointers) =~= Set::empty());
    } else {
        let fewer = pointers.drop_last();
        let last = pointers.last();
        assert(is_kept_well(pointers[pointers.len() - 1]));
        assert(well_kept(fewer)) by {
            assert forall|i: int| 0 <= i < fewer.len() implies is_kept_well(
                #[trigger] fewer[i],
            ) by {
                assert(is_kept_well(pointers[i]));
            }
        }
        law_touch_contacts_are_fingers(fewer);
        assert forall|id: PointerId| #[trigger]
            table::has_key(pointers, id) == (id == last.0 || table::has_key(fewer, id)) by {
            if table::has_key(fewer, id) {
                let i = table::key_index(fewer, id);
                assert(pointers[i].0 == id);
            }
            assert(pointers[fewer.len() as int].0 == last.0);
            if table::has_key(pointers, id) && id != last.0 {
                let i = table::key_index(pointers, id);
                assert(fewer[i].0 == id);
            }
        }
        match last.1.kind {
            PointerKind::Touch(finger) => {
                assert(!table::has_key(fewer, last.0));
                assert(fingers_of(pointers) =~= fingers_of(fewer).insert(finger));
            },
            _ => {
                assert(fingers_of(pointers) =~= fingers_of(fewer));
            },
        }
    }
}

/// A finger is tracked from the first event about it on, also if that is the release of a button,
/// until it leaves or the tracking of all pointers ends. No event changes which of the other
/// fingers are tracked, and events about other pointers change none.
pub proof fn law_fingers_follow_events<D, S>(pointers: Pointers<D>, event: WindowEvent<D, S>)
    requires
        table::keys_distinct(pointers),
    ensures
        fingers_of(input::pointers_after(pointers, event)) == if ends_tracking(event) {
            Set::empty()
        } else {
            match subject(event) {
                Some(PointerId::Touch(finger)) => if event is PointerLeft {
                    fingers_of(pointers).remove(finger)
                } else {
                    fingers_of(pointers).insert(finger)
                },
                _ => fingers_of(pointers),
            }
        },
{
    let after = input::pointers_after(pointers, event);
    if ends_tracking(event) {
        assert(fingers_of(after) =~= Set::empty());
    } else {
        assert forall|id: PointerId| #[trigger]
            table::has_key(after, id) == if subject(event) == Some(id) {
                !(event is PointerLeft)
            } else {
                table::has_key(pointers, id)
            } by {
            if subject(event) == Some(id) {
                lemma_subject_is_tracked(pointers, event);
            } else {
                law_other_pointers_untouched(pointers, event, id);
                assert(table::lookup(after, id) == table::lookup(pointers, id));
            }
        }
        match subject(event) {
            Some(PointerId::Touch(finger)) => {
                if event is PointerLeft {
                    assert(fingers_of(after) =~= fingers_of(pointers).remove(finger));
                } else {
                    assert(fingers_of(after) =~= fingers_of(pointers).insert(finger));
                }
            },
            _ => {
                assert(fingers_of(after) =~= fingers_of(pointers));
            },
        }
    }
}

/// The pointer that an event is about is tracked afterwards, unless it left.
proof fn lemma_subject_is_tracked<D, S>(pointers: Pointers<D>, event: WindowEvent<D, S>)
    requires
        table::keys_distinct(pointers),
        subject(event) is Some,
    ensures
        table::has_key(input::pointers_after(pointers, event), subject(event)->0) == !(event
            is PointerLeft),
{
    let id = subject(event)->0;
    let after = input::pointers_after(pointers, event);
    if event is PointerLeft {
        table::law_without_key(pointers, id);
        assert(table::lookup(after, id) is None);
    } else if table::has_key(pointers, id) {
        assert(after[table::key_index(pointers, id)].0 == id);
    } else {
        assert(after[pointers.len() as int].0 == id);
    }
}

/// A pointer is named by its kind alone, unless the kind is unknown: then its device and its rank
/// tell it apart from others.
pub proof fn law_names_tell_pointers_apart(
    kind: PointerKind,
    device_id: Option<DeviceId>,
    primary: bool,
    other_kind: PointerKind,
    other_device: Option<DeviceId>,
    other_primary: bool,
)
    ensures
        ({
            let name = PointerId::of_kind(kind, device_id, primary);
            &&& name == PointerId::of_kind(other_kind, other_device, other_primary) <==> kind
                == other_kind && (kind is Unknown ==> device_id == other_device && primary
                == other_primary)
            &&& match name {
                PointerId::Mouse => kind is Mouse,
                PointerId::Touch(finger) => kind == PointerKind::Touch(finger),
                PointerId::TabletTool(tool) => kind is TabletTool && tool == kind,
                PointerId::Unknown { device_id: device, primary: rank } => kind is Unknown
                    && device == device_id && rank == primary,
            }
        }),
{
}

/// What moves a pointer, and what its buttons belong to, has the kind that it is made as.
pub proof fn law_kinds_of_sources_and_buttons<D, S>(
    source: PointerSource<D, S>,
    button: ButtonSource<D, S>,
)
    ensures
        match source {
            PointerSource::Mouse => source.kind() is Mouse,
            PointerSource::Touch { finger_id, .. } => source.kind() == PointerKind::Touch(
                finger_id,
            ),
            PointerSource::TabletTool { kind, .. } => source.kind() == PointerKind::TabletTool(
                kind,
            ),
            PointerSource::Unknown => source.kind() is Unknown,
        },
        match button {
            ButtonSource::Mouse(_) => button.kind() is Mouse,
            ButtonSource::Touch { finger_id, .. } => button.kind() == PointerKind::Touch(
                finger_id,
            ),
            ButtonSource::TabletTool { kind, .. } => button.kind() == PointerKind::TabletTool(
                kind,
            ),
            ButtonSource::Unknown(_) => button.kind() is Unknown,
        },
{
}

/// Two reports are about the same button exactly if they name the same button of the same kind of
/// pointer; how hard it is pressed does not matter.
pub proof fn law_buttons_are_told_apart<D, S>(one: ButtonSource<D, S>, other: ButtonSource<D, S>)
    ensures
        ButtonId::of_source(one) == ButtonId::of_source(other) <==> match (one, other) {
            (ButtonSource::Mouse(a), ButtonSource::Mouse(b)) => a == b,
            (
                ButtonSource::Touch { finger_id: a, .. },
                ButtonSource::Touch { finger_id: b, .. },
            ) => a == b,
            (
                ButtonSource::TabletTool { kind: a, button: a_button, .. },
                ButtonSource::TabletTool { kind: b, button: b_button, .. },
            ) => a == b && a_button == b_button,
            (ButtonSource::Unknown(a), ButtonSource::Unknown(b)) => a == b,
            _ => false,
        },
        match ButtonId::of_source(one) {
            ButtonId::Mouse(button) => one == ButtonSource::<D, S>::Mouse(button),
            ButtonId::Touch(finger) => one is Touch && one.kind() == PointerKind::Touch(finger),
            ButtonId::TabletTool { kind, .. } => one is TabletTool && one.kind()
                == PointerKind::TabletTool(kind),
            ButtonId::Unknown(button) => one == ButtonSource::<D, S>::Unknown(button),
        },
{
}

/// A pointer that enters is reported once, as entering, where it is and as what it is. From then on
/// it is tracked, with no button down.
pub proof fn law_entering<D, S>(
    pointers: Pointers<D>,
    device_id: Option<DeviceId>,
    position: PhysicalPosition<D>,
    primary: bool,
    kind: PointerKind,
)
    requires
        table::keys_distinct(pointers),
    ensures
        ({
            let event = WindowEvent::<D, S>::PointerEntered { device_id, position, primary, kind };
            let id = PointerId::of_kind(kind, device_id, primary);
            let input = input::input_of(pointers, event);
            &&& input.len() == 1
            &&& input[0] matches WindowInputEvent::Pointer(told)
            &&& told.action is Entered
            &&& told.pointer_id == id
            &&& told.device_id == device_id
            &&& told.position == Some(position)
            &&& told.primary == primary
            &&& told.kind == kind
            &&& table::lookup(input::pointers_after(pointers, event), id) matches Some(known)
            &&& known.pressed.len() == 0
            &&& known.device_id == device_id
            &&& known.last_position == Some(position)
            &&& known.primary == primary
            &&& known.kind == kind
        }),
{
    let id = PointerId::of_kind(kind, device_id, primary);
    let known = TrackedPointer {
        device_id,
        kind,
        primary,
        pressed: Seq::<ButtonId>::empty(),
        last_position: Some(position),
    };
    table::law_with_entry(pointers, id, known);
    let after = input::pointers_after(
        pointers,
        WindowEvent::<D, S>::PointerEntered { device_id, position, primary, kind },
    );
    assert(after == table::with_entry(pointers, id, known));
    assert(table::lookup(after, id) == Some(known));
}

/// A pointer that moves is reported once, as moved by its source, where it is now. It is tracked
/// there from then on, and was it tracked before or not, it holds the buttons that it held.
pub proof fn law_moving<D, S>(
    pointers: Pointers<D>,
    device_id: Option<DeviceId>,
    position: PhysicalPosition<D>,
    primary: bool,
    source: PointerSource<D, S>,
)
    requires
        table::keys_distinct(pointers),
    ensures
        ({
            let event = WindowEvent::PointerMoved { device_id, position, primary, source };
            let id = PointerId::of_kind(source.kind(), device_id, primary);
            let input = input::input_of(pointers, event);
            &&& input.len() == 1
            &&& input[0] matches WindowInputEvent::Pointer(told)
            &&& told.action == (PointerInputAction::Moved { source })
            &&& told.pointer_id == id
            &&& told.device_id == device_id
            &&& told.position == Some(position)
            &&& told.primary == primary
            &&& told.kind == source.kind()
            &&& table::lookup(input::pointers_after(pointers, event), id) matches Some(known)
            &&& known.device_id == device_id
            &&& known.last_position == Some(position)
            &&& known.primary == primary
            &&& known.kind == source.kind()
            &&& match table::lookup(pointers, id) {
                Some(before) => known.pressed == before.pressed,
                None => known.pressed.len() == 0,
            }
        }),
{
    let id = PointerId::of_kind(source.kind(), device_id, primary);
    let known = TrackedPointer {
        device_id,
        kind: source.kind(),
        primary,
        pressed: input::pressed_buttons(pointers, id),
        last_position: Some(position),
    };
    table::law_with_entry(pointers, id, known);
    let after = input::pointers_after(
        pointers,
        WindowEvent::PointerMoved { device_id, position, primary, source },
    );
    assert(after == table::with_entry(pointers, id, known));
    assert(table::lookup(after, id) == Some(known));
}

/// A button that goes down is reported once, as pressed, and one that goes up once, as released. The
/// button is among those that its pointer holds afterwards exactly if it was reported as pressed,
/// and no other button comes or goes.
pub proof fn law_pressing_and_releasing<D, S>(
    pointers: Pointers<D>,
    device_id: Option<DeviceId>,
    state: ElementState,
    position: PhysicalPosition<D>,
    primary: bool,
    button: ButtonSource<D, S>,
)
    requires
        table::keys_distinct(pointers),
    ensures
        ({
            let event = WindowEvent::PointerButton { device_id, state, position, primary, button };
            let id = PointerId::of_kind(button.kind(), device_id, primary);
            let input = input::input_of(pointers, event);
            &&& input.len() == 1
            &&& input[0] matches WindowInputEvent::Pointer(told)
            &&& state is Pressed ==> told.action == (PointerInputAction::Pressed { button })
            &&& state is Released ==> told.action == (PointerInputAction::Released { button })
            &&& told.pointer_id == id
            &&& told.device_id == device_id
            &&& told.position == Some(position)
            &&& told.primary == primary
            &&& told.kind == button.kind()
            &&& table::lookup(input::pointers_after(pointers, event), id) matches Some(known)
            &&& known.device_id == device_id
            &&& known.last_position == Some(position)
            &&& known.primary == primary
            &&& known.kind == button.kind()
            &&& known.pressed.contains(ButtonId::of_source(button)) <==> told.action is Pressed
            &&& forall|other: ButtonId|
                other != ButtonId::of_source(button) ==> (#[trigger] known.pressed.contains(other)
                    <==> (table::lookup(pointers, id) matches Some(before)
                    && before.pressed.contains(other)))
        }),
{
    let id = PointerId::of_kind(button.kind(), device_id, primary);
    let held = input::pressed_buttons(pointers, id);
    let button_id = ButtonId::of_source(button);
    let known = TrackedPointer {
        device_id,
        kind: button.kind(),
        primary,
        pressed: match state {
            ElementState::Pressed => input::with_button(held, button_id),
            ElementState::Released => input::without_button(held, button_id),
        },
        last_position: Some(position),
    };
    table::law_with_entry(pointers, id, known);
    let after = input::pointers_after(
        pointers,
        WindowEvent::PointerButton { device_id, state, position, primary, button },
    );
    assert(after == table::with_entry(pointers, id, known));
    assert(table::lookup(after, id) == Some(known));
    lemma_with_button(held, button_id);
    lemma_without_button(held, button_id);
    assert forall|other: ButtonId| #[trigger] known.pressed.contains(other) == if other
        == button_id {
        state is Pressed
    } else {
        held.contains(other)
    } by {
        assert(known.pressed.to_set().contains(other) == known.pressed.contains(other));
        assert(held.to_set().contains(other) == held.contains(other));
    }
    assert(table::lookup(pointers, id) is None ==> !exists|other: ButtonId| held.contains(other));
}

/// A pointer that leaves is reported once, as leaving, or as cut short if it is no mouse and still
/// holds a button down. It is reported where it left, or else where it was last seen, and on the
/// device that it was last seen on. It is not tracked any more.
pub proof fn law_leaving<D, S>(
    pointers: Pointers<D>,
    device_id: Option<DeviceId>,
    position: Option<PhysicalPosition<D>>,
    primary: bool,
    kind: PointerKind,
)
    requires
        table::keys_distinct(pointers),
    ensures
        ({
            let event = WindowEvent::<D, S>::PointerLeft { device_id, position, primary, kind };
            let id = PointerId::of_kind(kind, device_id, primary);
            let input = input::input_of(pointers, event);
            let known = table::lookup(pointers, id);
            &&& input.len() == 1
            &&& input[0] matches WindowInputEvent::Pointer(told)
            &&& told.pointer_id == id
            &&& told.primary == primary
            &&& told.kind == kind
            &&& position is Some ==> told.position == position
            &&& told.action is Cancelled <==> !(kind is Mouse) && known is Some && exists|
                button: ButtonId,
            | #[trigger] known->0.pressed.contains(button)
            &&& told.action is Cancelled || told.action is Left
            &&& match known {
                Some(known) => {
                    &&& told.device_id == known.device_id
                    &&& position is None ==> told.position == known.last_position
                },
                None => {
                    &&& told.device_id == device_id
                    &&& position is None ==> told.position is None
                },
            }
            &&& table::lookup(input::pointers_after(pointers, event), id) is None
        }),
{
    let id = PointerId::of_kind(kind, device_id, primary);
    table::law_without_key(pointers, id);
    let after = input::pointers_after(
        pointers,
        WindowEvent::<D, S>::PointerLeft { device_id, position, primary, kind },
    );
    assert(after == table::without_key(pointers, id));
    assert(table::lookup(after, id) is None);
    if let Some(known) = table::lookup(pointers, id) {
        if known.pressed.len() > 0 {
            assert(known.pressed.contains(known.pressed[0]));
        }
    }
}

/// When the focus or the window goes, every tracked pointer is reported with what was last known of
/// it, as leaving, or as cut short if it still holds a button down. Nothing else is reported, and
/// nothing is tracked any more.
pub proof fn law_losing_the_window<D, S>(
    pointers: Pointers<D>,
    event: WindowEvent<D, S>,
)
    requires
        event is Destroyed || event == WindowEvent::<D, S>::Focused(false),
    ensures
        input::input_of(pointers, event).len() == pointers.len(),
        forall|i: int|
            0 <= i < pointers.len() ==> {
                let (id, known) = #[trigger] pointers[i];
                &&& input::input_of(pointers, event)[i] matches WindowInputEvent::Pointer(told)
                &&& told.pointer_id == id
                &&& told.device_id == known.device_id
                &&& told.position == known.last_position
                &&& told.primary == known.primary
                &&& told.kind == known.kind
                &&& told.action is Cancelled <==> exists|button: ButtonId| #[trigger]
                    known.pressed.contains(button)
                &&& told.action is Cancelled || told.action is Left
            },
        input::pointers_after(pointers, event).len() == 0,
{
    assert forall|i: int| 0 <= i < pointers.len() implies {
        let (id, known) = #[trigger] pointers[i];
        &&& input::input_of(pointers, event)[i] matches WindowInputEvent::Pointer(told)
        &&& told.pointer_id == id
        &&& told.device_id == known.device_id
        &&& told.position == known.last_position
        &&& told.primary == known.primary
        &&& told.kind == known.kind
        &&& told.action is Cancelled <==> exists|button: ButtonId| #[trigger]
            known.pressed.contains(button)
        &&& told.action is Cancelled || told.action is Left
    } by {
        let (id, known) = pointers[i];
        assert(input::input_of(pointers, event)[i] == input::cancellation::<D, S>(pointers[i]));
        if known.pressed.len() > 0 {
            assert(known.pressed.contains(known.pressed[0]));
        }
    }
}

/// The wheel scrolls by as much as it was turned, where the mouse was last seen. Gestures are
/// reported with their device, by how much they changed, and in their phase.
pub proof fn law_scrolling_and_gestures<D, S>(pointers: Pointers<D>, event: WindowEvent<D, S>)
    ensures
        ({
            let input = input::input_of(pointers, event);
            match event {
                WindowEvent::MouseWheel { device_id, delta, phase } => {
                    &&& input.len() == 1
                    &&& input[0] matches WindowInputEvent::Scroll(told)
                    &&& told.device_id == device_id && told.delta == delta && told.phase == phase
                    &&& told.source is Wheel
                    &&& match table::lookup(pointers, PointerId::Mouse) {
                        Some(mouse) => told.position == mouse.last_position,
                        None => told.position is None,
                    }
                },
                WindowEvent::PanGesture { device_id, delta, phase } => {
                    &&& input.len() == 1
                    &&& input[0] matches WindowInputEvent::Gesture(GestureInputEvent::Pan {
                        device_id: told_device,
                        delta: told_delta,
                        phase: told_phase,
                    })
                    &&& told_device == device_id && told_delta == delta && told_phase == phase
                },
                WindowEvent::PinchGesture { device_id, delta, phase } => {
                    &&& input.len() == 1
                    &&& input[0] matches WindowInputEvent::Gesture(GestureInputEvent::Pinch {
                        device_id: told_device,
                        delta: told_delta,
                        phase: told_phase,
                    })
                    &&& told_device == device_id && told_delta == delta && told_phase == phase
                },
                WindowEvent::RotationGesture { device_id, delta, phase } => {
                    &&& input.len() == 1
                    &&& input[0] matches WindowInputEvent::Gesture(GestureInputEvent::Rotation {
                        device_id: told_device,
                        delta: told_delta,
                        phase: told_phase,
                    })
                    &&& told_device == device_id && told_delta == delta && told_phase == phase
                },
                WindowEvent::DoubleTapGesture { device_id } => {
                    &&& input.len() == 1
                    &&& input[0] matches WindowInputEvent::Gesture(GestureInputEvent::DoubleTap {
                        device_id: told_device,
                    })
                    &&& told_device == device_id
                },
                _ => true,
            }
        }),
{
}

/// Only pointers, scrolling, gestures and the loss of the focus or the window make for input. Any
/// other event is passed over, and no pointer comes or goes with it, nor with scrolling or a gesture.
pub proof fn law_other_events_are_passed_over<D, S>(
    pointers: Pointers<D>,
    event: WindowEvent<D, S>,
)
    ensures
        event == WindowEvent::<D, S>::Focused(true) || event is SurfaceResized
            || event is CloseRequested || event is ScaleFactorChanged || event is RedrawRequested
            ==> input::input_of(pointers, event).len() == 0,
        !(event is PointerEntered || event is PointerMoved || event is PointerButton
            || event is PointerLeft || event is Destroyed || event == WindowEvent::<
            D,
            S,
        >::Focused(false)) ==> input::pointers_after(pointers, event) == pointers,
{
}

/// What is reported tells which buttons are held: a button is held down by a pointer after an event
/// exactly if the event was reported as pressing it, or it was held before and was reported neither
/// as released nor with its pointer entering, leaving or being cut short.
pub proof fn law_reports_tell_what_is_held<D, S>(
    pointers: Pointers<D>,
    event: WindowEvent<D, S>,
    id: PointerId,
    button: ButtonId,
)
    requires
        table::keys_distinct(pointers),
        !(event is Destroyed || event == WindowEvent::<D, S>::Focused(false)),
    ensures
        ({
            let before = input::pressed_buttons(pointers, id).contains(button);
            let after = input::pressed_buttons(
                input::pointers_after(pointers, event),
                id,
            ).contains(button);
            let input = input::input_of(pointers, event);
            &&& input.len() <= 1
            &&& if input.len() == 1 && pointer_of(input[0]) == Some(id) {
                match action_of(input[0]) {
                    Some(PointerInputAction::Pressed { button: told }) => after == (before
                        || ButtonId::of_source(told) == button),
                    Some(PointerInputAction::Released { button: told }) => after == (before
                        && ButtonId::of_source(told) != button),
                    Some(PointerInputAction::Moved { .. }) => after == before,
                    _ => !after,
                }
            } else {
                after == before
            }
        }),
{
    match event {
        WindowEvent::PointerEntered { device_id, position, primary, kind } => {
            law_entering::<D, S>(pointers, device_id, position, primary, kind);
        },
        WindowEvent::PointerMoved { device_id, position, primary, source } => {
            law_moving(pointers, device_id, position, primary, source);
        },
        WindowEvent::PointerButton { device_id, state, position, primary, button } => {
            law_pressing_and_releasing(pointers, device_id, state, position, primary, button);
        },
        WindowEvent::PointerLeft { device_id, position, primary, kind } => {
            law_leaving::<D, S>(pointers, device_id, position, primary, kind);
        },
        _ => {},
    }
    if subject(event) != Some(id) {
        law_other_pointers_untouched(pointers, event, id);
    }
}

} // verus!
