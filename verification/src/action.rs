//! What the loop asks of the program around it.
use vstd::prelude::*;

use crate::event::{DeviceId, TouchPhase, WindowEvent};
use crate::geometry::PhysicalPosition;
use crate::ime::Ime;
use crate::keyboard::KeyboardInput;
use crate::time::StartCause;
use smol_str::SmolStr;

verus! {

/// Two touching fingers, the one with the lower number first.
#[derive(Clone, Copy, Debug, PartialEq)]
pub struct Segment<D> {
    pub first: PhysicalPosition<D>,
    pub second: PhysicalPosition<D>,
}

/// How much something changed: not at all, or as much as lies between two states of it.
#[derive(Clone, Copy, Debug, PartialEq)]
pub enum Change<T> {
    Zero,
    Between { previous: T, current: T },
}

/// A gesture made with several fingers. `C` is the type of a collection of positions.
///
/// A pan moves by as much as the centroid of the fingers moves, a pinch grows by as much as the
/// distance of two fingers grows, and a rotation turns by as much as the line through two fingers
/// turns.
#[derive(Clone, Debug, PartialEq)]
pub enum TouchGesture<D, C> {
    Pan { device_id: Option<DeviceId>, delta: Change<C>, phase: TouchPhase },
    Pinch { device_id: Option<DeviceId>, delta: Change<Segment<D>>, phase: TouchPhase },
    Rotation { device_id: Option<DeviceId>, delta: Change<Segment<D>>, phase: TouchPhase },
}

/// A step that the loop asks for. `C` is the type of a collection of positions, `K` and `T` are
/// types of text.
#[derive(Clone, Debug, PartialEq)]
pub enum LoopAction<D, S, C, K, T> {
    /// Tell the application that a new batch of events comes, and why.
    NewEvents(StartCause),
    CanCreateSurfaces,
    DestroySurfaces,
    MemoryWarning,
    Resumed,
    Suspended,
    ProxyWakeUp,
    AboutToWait,
    /// Hand the application an event of the window.
    WindowEvent(WindowEvent<D, S>),
    /// Hand the application a gesture as an event of the window.
    TouchGesture(TouchGesture<D, C>),
    /// Hand the application a key event of the window.
    KeyboardInput(KeyboardInput<K>),
    /// Hand the application a step of text input in the window.
    Ime(Ime<T>),
    /// Note whether the window has the focus.
    SetFocus(bool),
    /// Let the loop come to its end.
    Exit,
    /// Empty the text under edit of the soft keyboard.
    ResetTextInput,
}

/// A step, as the loop hands it out.
pub type Action<D, S> = LoopAction<D, S, Vec<PhysicalPosition<D>>, SmolStr, String>;

/// A step, as contracts speak of it.
pub type ActionView<D, S> = LoopAction<D, S, Seq<PhysicalPosition<D>>, Seq<char>, Seq<char>>;

impl<D> View for Change<Vec<PhysicalPosition<D>>> {
    type V = Change<Seq<PhysicalPosition<D>>>;

    open spec fn view(&self) -> Change<Seq<PhysicalPosition<D>>> {
        match self {
            Change::Zero => Change::Zero,
            Change::Between { previous, current } => Change::Between {
                previous: previous@,
                current: current@,
            },
        }
    }
}

impl<D> View for TouchGesture<D, Vec<PhysicalPosition<D>>> {
    type V = TouchGesture<D, Seq<PhysicalPosition<D>>>;

    open spec fn view(&self) -> TouchGesture<D, Seq<PhysicalPosition<D>>> {
        match *self {
            TouchGesture::Pan { device_id, delta, phase } => TouchGesture::Pan {
                device_id,
                delta: delta@,
                phase,
            },
            TouchGesture::Pinch { device_id, delta, phase } => TouchGesture::Pinch {
                device_id,
                delta,
                phase,
            },
            TouchGesture::Rotation { device_id, delta, phase } => TouchGesture::Rotation {
                device_id,
                delta,
                phase,
            },
        }
    }
}

impl<D, S> View for LoopAction<D, S, Vec<PhysicalPosition<D>>, SmolStr, String> {
    type V = LoopAction<D, S, Seq<PhysicalPosition<D>>, Seq<char>, Seq<char>>;

    open spec fn view(&self) -> ActionView<D, S> {
        match *self {
            LoopAction::NewEvents(cause) => LoopAction::NewEvents(cause),
            LoopAction::CanCreateSurfaces => LoopAction::CanCreateSurfaces,
            LoopAction::DestroySurfaces => LoopAction::DestroySurfaces,
            LoopAction::MemoryWarning => LoopAction::MemoryWarning,
            LoopAction::Resumed => LoopAction::Resumed,
            LoopAction::Suspended => LoopAction::Suspended,
            LoopAction::ProxyWakeUp => LoopAction::ProxyWakeUp,
            LoopAction::AboutToWait => LoopAction::AboutToWait,
            LoopAction::WindowEvent(event) => LoopAction::WindowEvent(event),
            LoopAction::TouchGesture(gesture) => LoopAction::TouchGesture(gesture@),
            LoopAction::KeyboardInput(input) => LoopAction::KeyboardInput(input@),
            LoopAction::Ime(ime) => LoopAction::Ime(ime@),
            LoopAction::SetFocus(focused) => LoopAction::SetFocus(focused),
            LoopAction::Exit => LoopAction::Exit,
            LoopAction::ResetTextInput => LoopAction::ResetTextInput,
        }
    }
}

/// A list of steps, as contracts speak of it.
pub open spec fn actions_of<D, S>(actions: Seq<Action<D, S>>) -> Seq<ActionView<D, S>> {
    Seq::new(actions.len(), |i: int| actions[i]@)
}

/// What contracts say of a step is what it holds: the same step, its texts by their characters and
/// its positions in their order.
pub proof fn law_steps_are_seen_as_they_are<D, S>(action: Action<D, S>)
    ensures
        match action {
            LoopAction::NewEvents(cause) => {
                &&& action@ matches LoopAction::NewEvents(seen)
                &&& seen == cause
            },
            LoopAction::CanCreateSurfaces => action@ is CanCreateSurfaces,
            LoopAction::DestroySurfaces => action@ is DestroySurfaces,
            LoopAction::MemoryWarning => action@ is MemoryWarning,
            LoopAction::Resumed => action@ is Resumed,
            LoopAction::Suspended => action@ is Suspended,
            LoopAction::ProxyWakeUp => action@ is ProxyWakeUp,
            LoopAction::AboutToWait => action@ is AboutToWait,
            LoopAction::WindowEvent(event) => {
                &&& action@ matches LoopAction::WindowEvent(seen)
                &&& seen == event
            },
            LoopAction::TouchGesture(gesture) => {
                &&& action@ matches LoopAction::TouchGesture(seen)
                &&& seen == gesture@
            },
            LoopAction::KeyboardInput(input) => {
                &&& action@ matches LoopAction::KeyboardInput(seen)
                &&& seen == input@
            },
            LoopAction::Ime(ime) => {
                &&& action@ matches LoopAction::Ime(seen)
                &&& seen == ime@
            },
            LoopAction::SetFocus(focused) => {
                &&& action@ matches LoopAction::SetFocus(seen)
                &&& seen == focused
            },
            LoopAction::Exit => action@ is Exit,
            LoopAction::ResetTextInput => action@ is ResetTextInput,
        },
{
}

/// What contracts say of a gesture is what it holds.
pub proof fn law_gestures_are_seen_as_they_are<D>(
    gesture: TouchGesture<D, Vec<PhysicalPosition<D>>>,
)
    ensures
        match gesture {
            TouchGesture::Pan { device_id, delta, phase } => {
                &&& gesture@ matches TouchGesture::Pan {
                    device_id: seen_device,
                    delta: seen_delta,
                    phase: seen_phase,
                }
                &&& seen_device == device_id && seen_phase == phase
                &&& match delta {
                    Change::Zero => seen_delta is Zero,
                    Change::Between { previous, current } => {
                        &&& seen_delta matches Change::Between { previous: before, current: after }
                        &&& before == previous@ && after == current@
                    },
                }
            },
            TouchGesture::Pinch { device_id, delta, phase } => {
                &&& gesture@ matches TouchGesture::Pinch {
                    device_id: seen_device,
                    delta: seen_delta,
                    phase: seen_phase,
                }
                &&& seen_device == device_id && seen_delta == delta && seen_phase == phase
            },
            TouchGesture::Rotation { device_id, delta, phase } => {
                &&& gesture@ matches TouchGesture::Rotation {
                    device_id: seen_device,
                    delta: seen_delta,
                    phase: seen_phase,
                }
                &&& seen_device == device_id && seen_delta == delta && seen_phase == phase
            },
        },
{
}

/// A list of steps is seen step by step, in its order.
pub proof fn law_lists_are_seen_in_order<D, S>(actions: Seq<Action<D, S>>)
    ensures
        actions_of(actions).len() == actions.len(),
        forall|i: int| 0 <= i < actions.len() ==> #[trigger] actions_of(actions)[i] == actions[i]@,
{
}

} // verus!
