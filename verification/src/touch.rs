//! The fingers that touch the screen and the gestures that they make together.
use vstd::prelude::*;

use crate::action::{Action, ActionView, Change, LoopAction, Segment, TouchGesture};
use crate::event::{DeviceId, FingerId, PointerKind, TouchPhase, WindowEvent};
use crate::geometry::PhysicalPosition;
use crate::table::{Table, TableKey};
use crate::{action, table};

verus! {

impl TableKey for FingerId {
    fn same(&self, other: &Self) -> (result: bool) {
        *self == *other
    }
}

/// A finger on the screen.
#[derive(Clone, Copy, Debug, PartialEq)]
pub struct TouchContact<D> {
    pub device_id: Option<DeviceId>,
    pub position: PhysicalPosition<D>,
}

impl<D> View for TouchContact<D> {
    type V = TouchContact<D>;

    open spec fn view(&self) -> TouchContact<D> {
        *self
    }
}

/// The fingers on the screen.
pub type Contacts<D> = Seq<(FingerId, TouchContact<D>)>;

/// The gestures that are going on, and where the fingers were when they were last looked at. `C`
/// is the type of a collection of positions.
#[verifier::ext_equal]
pub struct TouchGestureState<D, C> {
    pub pan_active: bool,
    pub transform_active: bool,
    pub points: Option<C>,
    pub segment: Option<Segment<D>>,
}

/// Where the fingers are at one time: all of them, and the line through them if there are two.
/// `C` is the type of a collection of positions.
#[verifier::ext_equal]
pub struct TouchSnapshot<D, C> {
    pub points: C,
    pub segment: Option<Segment<D>>,
}

impl<D> View for TouchGestureState<D, Vec<PhysicalPosition<D>>> {
    type V = TouchGestureState<D, Seq<PhysicalPosition<D>>>;

    open spec fn view(&self) -> TouchGestureState<D, Seq<PhysicalPosition<D>>> {
        TouchGestureState {
            pan_active: self.pan_active,
            transform_active: self.transform_active,
            points: match self.points {
                Some(points) => Some(points@),
                None => None,
            },
            segment: self.segment,
        }
    }
}

impl<D> View for TouchSnapshot<D, Vec<PhysicalPosition<D>>> {
    type V = TouchSnapshot<D, Seq<PhysicalPosition<D>>>;

    open spec fn view(&self) -> TouchSnapshot<D, Seq<PhysicalPosition<D>>> {
        TouchSnapshot { points: self.points@, segment: self.segment }
    }
}

/// No gesture, and nothing remembered.
pub open spec fn no_gestures<D, C>() -> TouchGestureState<D, C> {
    TouchGestureState { pan_active: false, transform_active: false, points: None, segment: None }
}

/// Where the fingers are.
pub open spec fn points_of<D>(contacts: Contacts<D>) -> Seq<PhysicalPosition<D>> {
    Seq::new(contacts.len(), |i: int| contacts[i].1.position)
}

/// The line through the fingers, if there are two.
pub open spec fn segment_of<D>(contacts: Contacts<D>) -> Option<Segment<D>> {
    if contacts.len() == 2 {
        let (one, other) = (contacts[0], contacts[1]);
        Some(
            if one.0.0 <= other.0.0 {
                Segment { first: one.1.position, second: other.1.position }
            } else {
                Segment { first: other.1.position, second: one.1.position }
            },
        )
    } else {
        None
    }
}

/// Where the fingers are, if there are any.
pub open spec fn snapshot_of<D>(contacts: Contacts<D>) -> Option<
    TouchSnapshot<D, Seq<PhysicalPosition<D>>>,
> {
    if contacts.len() == 0 {
        None
    } else {
        Some(TouchSnapshot { points: points_of(contacts), segment: segment_of(contacts) })
    }
}

/// The gestures that so many fingers make: several pan, and exactly two also pinch and rotate.
pub open spec fn gestures_with<D>(contacts: Contacts<D>) -> TouchGestureState<
    D,
    Seq<PhysicalPosition<D>>,
> {
    TouchGestureState {
        pan_active: contacts.len() >= 2,
        transform_active: contacts.len() == 2,
        points: if contacts.len() == 0 {
            None
        } else {
            Some(points_of(contacts))
        },
        segment: segment_of(contacts),
    }
}

/// How a gesture that begins or ends is reported.
pub open spec fn phase_change(active: bool, to_be: bool, cancelled: bool) -> Option<TouchPhase> {
    if !active && to_be {
        Some(TouchPhase::Started)
    } else if active && !to_be {
        Some(
            if cancelled {
                TouchPhase::Cancelled
            } else {
                TouchPhase::Ended
            },
        )
    } else {
        None
    }
}

/// The reports of gestures that begin, end or go on, given the gestures so far and the fingers
/// now. `moved` says whether the fingers may have moved, `cancelled` whether gestures that end
/// were cut short.
pub open spec fn gesture_reports<D>(
    gestures: TouchGestureState<D, Seq<PhysicalPosition<D>>>,
    contacts: Contacts<D>,
    device_id: Option<DeviceId>,
    moved: bool,
    cancelled: bool,
) -> Seq<TouchGesture<D, Seq<PhysicalPosition<D>>>> {
    let pan_change = match phase_change(gestures.pan_active, contacts.len() >= 2, cancelled) {
        Some(phase) => seq![TouchGesture::Pan { device_id, delta: Change::Zero, phase }],
        None => Seq::empty(),
    };
    let transform_change = match phase_change(
        gestures.transform_active,
        contacts.len() == 2,
        cancelled,
    ) {
        Some(phase) => seq![
            TouchGesture::Pinch { device_id, delta: Change::Zero, phase },
            TouchGesture::Rotation { device_id, delta: Change::Zero, phase },
        ],
        None => Seq::empty(),
    };
    let pan_move = match gestures.points {
        Some(previous) if moved && contacts.len() >= 2 => seq![
            TouchGesture::Pan {
                device_id,
                delta: Change::Between { previous, current: points_of(contacts) },
                phase: TouchPhase::Moved,
            },
        ],
        _ => Seq::empty(),
    };
    let transform_move = match (gestures.segment, segment_of(contacts)) {
        (Some(previous), Some(current)) if moved => {
            let delta = Change::Between { previous, current };
            seq![
                TouchGesture::Pinch { device_id, delta, phase: TouchPhase::Moved },
                TouchGesture::Rotation { device_id, delta, phase: TouchPhase::Moved },
            ]
        },
        _ => Seq::empty(),
    };
    pan_change + transform_change + pan_move + transform_move
}

/// Gestures as steps of the loop.
pub open spec fn gesture_actions<D, S>(
    reports: Seq<TouchGesture<D, Seq<PhysicalPosition<D>>>>,
) -> Seq<ActionView<D, S>> {
    Seq::new(reports.len(), |i: int| LoopAction::TouchGesture(reports[i]))
}

fn copied_points<D: Copy>(points: &Vec<PhysicalPosition<D>>) -> (copy: Vec<PhysicalPosition<D>>)
    ensures
        copy@ == points@,
{
    let mut copy: Vec<PhysicalPosition<D>> = Vec::new();
    let mut index: usize = 0;
    while index < points.len()
        invariant
            index <= points@.len(),
            copy@ == points@.take(index as int),
        decreases points@.len() - index,
    {
        copy.push(points[index]);
        index = index + 1;
    }
    copy
}

/// Where the fingers are now.
pub fn touch_snapshot<D: Copy>(contacts: &Table<FingerId, TouchContact<D>>) -> (snapshot: Option<
    TouchSnapshot<D, Vec<PhysicalPosition<D>>>,
>)
    ensures
        match snapshot {
            Some(snapshot) => snapshot_of(contacts@) == Some(snapshot@),
            None => snapshot_of(contacts@) is None,
        },
{
    let count = contacts.len();
    if count == 0 {
        return None;
    }
    let mut points: Vec<PhysicalPosition<D>> = Vec::new();
    let mut index: usize = 0;
    while index < count
        invariant
            count == contacts@.len(),
            index <= count,
            points@ == points_of(contacts@).take(index as int),
        decreases count - index,
    {
        let (_, contact) = contacts.entry(index);
        points.push(contact.position);
        index = index + 1;
    }
    assert(points@ =~= points_of(contacts@));
    let segment = if count == 2 {
        let (one_id, one) = contacts.entry(0);
        let (other_id, other) = contacts.entry(1);
        if one_id.into_raw() <= other_id.into_raw() {
            Some(Segment { first: one.position, second: other.position })
        } else {
            Some(Segment { first: other.position, second: one.position })
        }
    } else {
        None
    };
    Some(TouchSnapshot { points, segment })
}

/// What is known of the fingers on the screen.
#[verifier::ext_equal]
pub struct Touches<D> {
    /// The finger that came down first, while it is down.
    pub primary_pointer: Option<FingerId>,
    pub contacts: Contacts<D>,
    pub gestures: TouchGestureState<D, Seq<PhysicalPosition<D>>>,
}

/// Nothing touches the screen.
pub open spec fn no_touches<D>() -> Touches<D> {
    Touches { primary_pointer: None, contacts: Seq::empty(), gestures: no_gestures() }
}

/// How gestures are once they are brought up to date with the fingers.
pub open spec fn synced<D>(touches: Touches<D>) -> Touches<D> {
    Touches { gestures: gestures_with(touches.contacts), ..touches }
}

/// The steps that bring the application up to date with the gestures.
pub open spec fn sync_actions<D, S>(
    touches: Touches<D>,
    device_id: Option<DeviceId>,
    moved: bool,
    cancelled: bool,
) -> Seq<ActionView<D, S>> {
    gesture_actions(
        gesture_reports(touches.gestures, touches.contacts, device_id, moved, cancelled),
    )
}

/// A finger came down.
pub open spec fn after_touch_down<D>(
    touches: Touches<D>,
    finger_id: FingerId,
    contact: TouchContact<D>,
    first: bool,
) -> Touches<D> {
    Touches {
        primary_pointer: if first {
            Some(finger_id)
        } else {
            touches.primary_pointer
        },
        contacts: table::with_entry(touches.contacts, finger_id, contact),
        ..touches
    }
}

/// A finger moved. It keeps the device that it was first seen on.
pub open spec fn after_touch_move<D>(
    touches: Touches<D>,
    finger_id: FingerId,
    device_id: Option<DeviceId>,
    position: PhysicalPosition<D>,
) -> Touches<D> {
    let known_device = match table::lookup(touches.contacts, finger_id) {
        Some(contact) => contact.device_id,
        None => device_id,
    };
    Touches {
        contacts: table::with_entry(
            touches.contacts,
            finger_id,
            TouchContact { device_id: known_device, position },
        ),
        ..touches
    }
}

/// A finger was lifted.
pub open spec fn after_touch_up<D>(touches: Touches<D>, finger_id: FingerId) -> Touches<D> {
    Touches {
        primary_pointer: if touches.primary_pointer == Some(finger_id) {
            None
        } else {
            touches.primary_pointer
        },
        contacts: table::without_key(touches.contacts, finger_id),
        ..touches
    }
}

/// Whether some gesture is going on.
pub open spec fn gesturing<D>(touches: Touches<D>) -> bool {
    touches.gestures.pan_active || touches.gestures.transform_active
}

/// The report that a finger left.
pub open spec fn cancelled_touch<D, S>(
    finger_id: FingerId,
    contact: TouchContact<D>,
    primary: bool,
) -> ActionView<D, S> {
    LoopAction::WindowEvent(
        WindowEvent::PointerLeft {
            device_id: contact.device_id,
            primary,
            position: Some(contact.position),
            kind: PointerKind::Touch(finger_id),
        },
    )
}

/// The reports that fingers left, none of which is the primary one.
pub open spec fn lifted_actions<D, S>(contacts: Contacts<D>) -> Seq<ActionView<D, S>> {
    Seq::new(contacts.len(), |i: int| cancelled_touch(contacts[i].0, contacts[i].1, false))
}

/// The reports that all fingers left, the primary one first.
pub open spec fn touch_cancellations<D, S>(touches: Touches<D>) -> Seq<ActionView<D, S>> {
    match touches.primary_pointer {
        Some(finger_id) => match table::lookup(touches.contacts, finger_id) {
            Some(contact) => seq![cancelled_touch::<D, S>(finger_id, contact, true)]
                + lifted_actions(table::without_key(touches.contacts, finger_id)),
            None => lifted_actions(touches.contacts),
        },
        None => lifted_actions(touches.contacts),
    }
}

/// The reports that end all fingers and all gestures.
pub open spec fn abandon_actions<D, S>(touches: Touches<D>) -> Seq<ActionView<D, S>> {
    touch_cancellations::<D, S>(touches) + if gesturing(touches) {
        sync_actions(Touches { contacts: Seq::empty(), ..touches }, None, false, true)
    } else {
        Seq::empty()
    }
}

/// Follows the fingers on the screen and the gestures that they make.
pub struct TouchTracker<D> {
    primary_pointer: Option<FingerId>,
    touch_contacts: Table<FingerId, TouchContact<D>>,
    touch_gestures: TouchGestureState<D, Vec<PhysicalPosition<D>>>,
}

impl<D> View for TouchTracker<D> {
    type V = Touches<D>;

    closed spec fn view(&self) -> Touches<D> {
        Touches {
            primary_pointer: self.primary_pointer,
            contacts: self.touch_contacts@,
            gestures: self.touch_gestures@,
        }
    }
}

impl<D: Copy> TouchTracker<D> {
    pub fn new() -> (tracker: Self)
        ensures
            tracker@ == no_touches::<D>(),
    {
        TouchTracker {
            primary_pointer: None,
            touch_contacts: Table::new(),
            touch_gestures: TouchGestureState {
                pan_active: false,
                transform_active: false,
                points: None,
                segment: None,
            },
        }
    }

    /// Brings the gestures up to date with the fingers and reports what became of them. `moved`
    /// says whether the fingers may have moved, `cancelled` whether gestures that end were cut
    /// short.
    pub fn sync_touch_gestures<S>(
        &mut self,
        device_id: Option<DeviceId>,
        moved: bool,
        cancelled: bool,
    ) -> (actions: Vec<Action<D, S>>)
        ensures
            final(self)@ == synced(old(self)@),
            action::actions_of(actions@) == sync_actions::<D, S>(
                old(self)@,
                device_id,
                moved,
                cancelled,
            ),
    {
        let mut actions: Vec<Action<D, S>> = Vec::new();
        let snapshot = touch_snapshot(&self.touch_contacts);
        let count = self.touch_contacts.len();
        let phase_end = if cancelled {
            TouchPhase::Cancelled
        } else {
            TouchPhase::Ended
        };

        let pan_should_be_active = count >= 2;
        if !self.touch_gestures.pan_active && pan_should_be_active {
            self.touch_gestures.pan_active = true;
            actions.push(
                LoopAction::TouchGesture(
                    TouchGesture::Pan { device_id, delta: Change::Zero, phase: TouchPhase::Started },
                ),
            );
        } else if self.touch_gestures.pan_active && !pan_should_be_active {
            self.touch_gestures.pan_active = false;
            actions.push(
                LoopAction::TouchGesture(
                    TouchGesture::Pan { device_id, delta: Change::Zero, phase: phase_end },
                ),
            );
        }

        let transform_should_be_active = count == 2;
        if !self.touch_gestures.transform_active && transform_should_be_active {
            self.touch_gestures.transform_active = true;
            actions.push(
                LoopAction::TouchGesture(
                    TouchGesture::Pinch {
                        device_id,
                        delta: Change::Zero,
                        phase: TouchPhase::Started,
                    },
                ),
            );
            actions.push(
                LoopAction::TouchGesture(
                    TouchGesture::Rotation {
                        device_id,
                        delta: Change::Zero,
                        phase: TouchPhase::Started,
                    },
                ),
            );
        } else if self.touch_gestures.transform_active && !transform_should_be_active {
            self.touch_gestures.transform_active = false;
            actions.push(
                LoopAction::TouchGesture(
                    TouchGesture::Pinch { device_id, delta: Change::Zero, phase: phase_end },
                ),
            );
            actions.push(
                LoopAction::TouchGesture(
                    TouchGesture::Rotation { device_id, delta: Change::Zero, phase: phase_end },
                ),
            );
        }

        let previous_points = self.touch_gestures.points.take();
        let previous_segment = self.touch_gestures.segment;
        let mut points: Option<Vec<PhysicalPosition<D>>> = None;
        let mut segment: Option<Segment<D>> = None;
        if let Some(snapshot) = snapshot {
            if moved {
                if self.touch_gestures.pan_active {
                    if let Some(previous) = previous_points {
                        actions.push(
                            LoopAction::TouchGesture(
                                TouchGesture::Pan {
                                    device_id,
                                    delta: Change::Between {
                                        previous,
                                        current: copied_points(&snapshot.points),
                                    },
                                    phase: TouchPhase::Moved,
                                },
                            ),
                        );
                    }
                }
                if self.touch_gestures.transform_active {
                    if let (Some(previous), Some(current)) = (previous_segment, snapshot.segment) {
                        let delta = Change::Between { previous, current };
                        actions.push(
                            LoopAction::TouchGesture(
                                TouchGesture::Pinch { device_id, delta, phase: TouchPhase::Moved },
                            ),
                        );
                        actions.push(
                            LoopAction::TouchGesture(
                                TouchGesture::Rotation {
                                    device_id,
                                    delta,
                                    phase: TouchPhase::Moved,
                                },
                            ),
                        );
                    }
                }
            }
            segment = snapshot.segment;
            points = Some(snapshot.points);
        }
        self.touch_gestures.points = points;
        self.touch_gestures.segment = segment;
        assert(action::actions_of(actions@) =~= sync_actions::<D, S>(
            old(self)@,
            device_id,
            moved,
            cancelled,
        ));
        actions
    }

    /// Whether a finger is the primary one.
    pub fn is_primary(&self, finger_id: FingerId) -> (primary: bool)
        ensures
            primary == (self@.primary_pointer == Some(finger_id)),
    {
        match self.primary_pointer {
            Some(primary) => primary == finger_id,
            None => false,
        }
    }

    /// Takes note of a finger that came down, `first` if no other finger was down.
    pub fn touch_down(&mut self, finger_id: FingerId, contact: TouchContact<D>, first: bool)
        ensures
            final(self)@ == after_touch_down(old(self)@, finger_id, contact, first),
    {
        if first {
            self.primary_pointer = Some(finger_id);
        }
        self.touch_contacts.insert(finger_id, contact);
    }

    /// Takes note of where a finger is now.
    pub fn touch_move(
        &mut self,
        finger_id: FingerId,
        device_id: Option<DeviceId>,
        position: PhysicalPosition<D>,
    )
        ensures
            final(self)@ == after_touch_move(old(self)@, finger_id, device_id, position),
    {
        let known_device = match self.touch_contacts.get(&finger_id) {
            Some(contact) => contact.device_id,
            None => device_id,
        };
        self.touch_contacts.insert(finger_id, TouchContact { device_id: known_device, position });
    }

    /// Takes note of a finger that was lifted, and tells whether it was the primary one.
    pub fn touch_up(&mut self, finger_id: FingerId) -> (primary: bool)
        ensures
            final(self)@ == after_touch_up(old(self)@, finger_id),
            primary == (old(self)@.primary_pointer == Some(finger_id)),
    {
        let primary = self.is_primary(finger_id);
        if primary {
            self.primary_pointer = None;
        }
        let _ = self.touch_contacts.remove(&finger_id);
        primary
    }

    /// Whether some gesture is going on.
    pub fn is_gesturing(&self) -> (result: bool)
        ensures
            result == gesturing(self@),
    {
        self.touch_gestures.pan_active || self.touch_gestures.transform_active
    }

    /// Reports of each finger that it left, the primary one first, and tells whether there were
    /// any.
    pub fn emit_tracked_touch_cancellations<S>(&mut self) -> (result: (Vec<Action<D, S>>, bool))
        ensures
            final(self)@ == (Touches {
                primary_pointer: None,
                contacts: Seq::empty(),
                ..old(self)@
            }),
            action::actions_of(result.0@) == touch_cancellations::<D, S>(old(self)@),
            result.1 == (old(self)@.contacts.len() > 0),
    {
        let mut actions: Vec<Action<D, S>> = Vec::new();
        let primary_pointer = self.primary_pointer.take();
        let mut contacts = self.touch_contacts.take();
        let touched = contacts.len() != 0;
        if let Some(finger_id) = primary_pointer {
            if let Some(contact) = contacts.remove(&finger_id) {
                actions.push(emit_touch_cancellation(finger_id, contact, true));
            }
        }
        let ghost first = actions@;
        let ghost others = contacts@;
        let mut index: usize = 0;
        while index < contacts.len()
            invariant
                index <= contacts@.len(),
                contacts@ == others,
                action::actions_of(actions@) == action::actions_of(first) + lifted_actions::<D, S>(
                    others.take(index as int),
                ),
            decreases contacts@.len() - index,
        {
            let (finger_id, contact) = contacts.entry(index);
            let ghost before = actions@;
            actions.push(emit_touch_cancellation(finger_id, *contact, false));
            assert(action::actions_of(actions@) =~= action::actions_of(before).push(
                cancelled_touch::<D, S>(finger_id, *contact, false),
            ));
            assert(lifted_actions::<D, S>(others.take(index + 1)) =~= lifted_actions::<D, S>(
                others.take(index as int),
            ).push(cancelled_touch::<D, S>(finger_id, *contact, false)));
            index = index + 1;
        }
        assert(others.take(index as int) =~= others);
        assert(action::actions_of(actions@) =~= touch_cancellations::<D, S>(old(self)@));
        (actions, touched)
    }

    /// Gives up all fingers and gestures, with the reports that end them.
    pub fn cancel_touch_tracking<S>(&mut self) -> (actions: Vec<Action<D, S>>)
        ensures
            final(self)@ == no_touches::<D>(),
            action::actions_of(actions@) == abandon_actions::<D, S>(old(self)@),
    {
        let (mut actions, _) = self.emit_tracked_touch_cancellations();
        let ghost cancellations = actions@;
        if self.is_gesturing() {
            let mut gestures = self.sync_touch_gestures(None, false, true);
            let ghost ended = gestures@;
            actions.append(&mut gestures);
            assert(action::actions_of(actions@) =~= action::actions_of(cancellations)
                + action::actions_of(ended));
        }
        self.touch_gestures = TouchGestureState {
            pan_active: false,
            transform_active: false,
            points: None,
            segment: None,
        };
        assert(action::actions_of(actions@) =~= abandon_actions::<D, S>(old(self)@));
        actions
    }
}

/// The report that a finger left.
fn emit_touch_cancellation<D: Copy, S>(
    finger_id: FingerId,
    contact: TouchContact<D>,
    primary: bool,
) -> (action: Action<D, S>)
    ensures
        action@ == cancelled_touch::<D, S>(finger_id, contact, primary),
{
    LoopAction::WindowEvent(
        WindowEvent::PointerLeft {
            device_id: contact.device_id,
            primary,
            position: Some(contact.position),
            kind: PointerKind::Touch(finger_id),
        },
    )
}

/// What contracts say of a finger, of the gestures remembered and of a snapshot is what they hold,
/// positions in their order.
pub proof fn law_touches_are_seen_as_they_are<D>(
    contact: TouchContact<D>,
    gestures: TouchGestureState<D, Vec<PhysicalPosition<D>>>,
    snapshot: TouchSnapshot<D, Vec<PhysicalPosition<D>>>,
)
    ensures
        contact@.device_id == contact.device_id,
        contact@.position == contact.position,
        gestures@.pan_active == gestures.pan_active,
        gestures@.transform_active == gestures.transform_active,
        gestures@.segment == gestures.segment,
        match (gestures@.points, gestures.points) {
            (Some(seen), Some(held)) => seen == held@,
            (None, None) => true,
            _ => false,
        },
        snapshot@.points == snapshot.points@,
        snapshot@.segment == snapshot.segment,
{
}

} // verus!
