//! Flags that other threads may raise.
//!
//! What a flag holds at any time depends on those threads, so no value that is read here follows
//! from the arguments. Contracts state which operation a value comes from, on which flag and with
//! which arguments; what follows from each value is stated where it is used. They speak of a flag
//! as an `AtomicBool`, which stands for the place that it is kept in and not for what it holds.
use vstd::prelude::*;

use std::sync::atomic::{AtomicBool, Ordering};
use std::sync::Arc;

verus! {

/// A flag was made, and is down at first.
pub open spec fn made_down(flag: AtomicBool) -> bool {
    call_ensures(AtomicBool::new, (false,), flag)
}

/// A flag was raised if it was down, and this tells whether it was.
pub open spec fn raising_told(flag: AtomicBool, was_down: bool) -> bool {
    exists|outcome: Result<bool, bool>|
        {
            &&& #[trigger] call_ensures(
                AtomicBool::compare_exchange,
                (&flag, false, true, Ordering::AcqRel, Ordering::Relaxed),
                outcome,
            )
            &&& was_down == outcome is Ok
        }
}

/// A flag was raised, whether it was down or not.
pub open spec fn raised(flag: AtomicBool) -> bool {
    call_ensures(AtomicBool::store, (&flag, true, Ordering::Relaxed), ())
}

/// A flag was lowered with all that was done before it was raised in view, and this tells whether
/// it was up.
pub open spec fn lowering_told(flag: AtomicBool, was_up: bool) -> bool {
    call_ensures(AtomicBool::swap, (&flag, false, Ordering::AcqRel), was_up)
}

/// A flag was lowered on its own, and this tells whether it was up.
pub open spec fn settling_told(flag: AtomicBool, was_up: bool) -> bool {
    call_ensures(AtomicBool::swap, (&flag, false, Ordering::Relaxed), was_up)
}

/// A flag was read and left as it was, and this tells whether it was up.
pub open spec fn reading_told(flag: AtomicBool, up: bool) -> bool {
    call_ensures(AtomicBool::load, (&flag, Ordering::Relaxed), up)
}

/// Raises a flag.
#[derive(Debug)]
pub struct SharedFlagSetter {
    flag: Arc<AtomicBool>,
}

impl Clone for SharedFlagSetter {
    fn clone(&self) -> (copy: Self)
        ensures
            copy.flag() == self.flag(),
    {
        SharedFlagSetter { flag: self.flag.clone() }
    }
}

impl SharedFlagSetter {
    /// The flag that this raises.
    pub closed spec fn flag(&self) -> AtomicBool {
        *self.flag
    }

    /// Raises the flag and tells whether it was down before.
    pub fn set(&self) -> (was_down: bool)
        ensures
            raising_told(self.flag(), was_down),
    {
        self.flag.compare_exchange(false, true, Ordering::AcqRel, Ordering::Relaxed).is_ok()
    }
}

/// A flag that can be raised from any thread, any number of times, and is lowered in one go with
/// being read.
#[derive(Debug)]
pub struct SharedFlag {
    flag: Arc<AtomicBool>,
}

impl SharedFlag {
    /// The flag itself.
    pub closed spec fn flag(&self) -> AtomicBool {
        *self.flag
    }

    /// A flag that is down.
    pub fn new() -> (flag: Self)
        ensures
            made_down(flag.flag()),
    {
        SharedFlag { flag: Arc::new(AtomicBool::new(false)) }
    }

    pub fn setter(&self) -> (setter: SharedFlagSetter)
        ensures
            setter.flag() == self.flag(),
    {
        SharedFlagSetter { flag: self.flag.clone() }
    }

    /// Lowers the flag and tells whether it was up.
    pub fn get_and_reset(&self) -> (was_up: bool)
        ensures
            lowering_told(self.flag(), was_up),
    {
        self.flag.swap(false, Ordering::AcqRel)
    }
}

/// Asks for the window to be drawn again.
#[derive(Debug)]
pub struct RedrawRequester {
    flag: SharedFlagSetter,
}

impl Clone for RedrawRequester {
    fn clone(&self) -> (copy: Self)
        ensures
            copy.flag() == self.flag(),
    {
        RedrawRequester { flag: self.flag.clone() }
    }
}

impl RedrawRequester {
    /// The flag that is raised to ask for a redraw.
    pub closed spec fn flag(&self) -> AtomicBool {
        self.flag.flag()
    }

    pub fn new(flag: &SharedFlag) -> (requester: Self)
        ensures
            requester.flag() == flag.flag(),
    {
        RedrawRequester { flag: flag.setter() }
    }

    /// Asks for a redraw and tells whether the loop has to be woken: only the first request since
    /// the loop last looked has to.
    pub fn request_redraw(&self) -> (to_be_woken: bool)
        ensures
            raising_told(self.flag(), to_be_woken),
    {
        self.flag.set()
    }
}

/// Wakes the loop up from anywhere.
#[derive(Debug)]
pub struct EventLoopProxy {
    wake_up: AtomicBool,
}

impl EventLoopProxy {
    /// The flag that is up while the loop is to wake up.
    pub closed spec fn flag(&self) -> AtomicBool {
        self.wake_up
    }

    /// A proxy by which nothing was asked for yet.
    pub fn new() -> (proxy: Self)
        ensures
            made_down(proxy.flag()),
    {
        EventLoopProxy { wake_up: AtomicBool::new(false) }
    }

    /// Notes that the loop is to wake up. The loop has to be woken after that.
    pub fn wake_up(&self)
        ensures
            raised(self.flag()),
    {
        self.wake_up.store(true, Ordering::Relaxed);
    }

    /// Whether the loop is to wake up.
    pub fn is_pending(&self) -> (pending: bool)
        ensures
            reading_told(self.flag(), pending),
    {
        self.wake_up.load(Ordering::Relaxed)
    }

    /// Tells whether the loop is to wake up, and settles it.
    pub fn take(&self) -> (was_pending: bool)
        ensures
            settling_told(self.flag(), was_pending),
    {
        self.wake_up.swap(false, Ordering::Relaxed)
    }
}

/// Which operations flags are made, raised, lowered and read by. A flag is made down. Raising it and
/// telling whether it was down is one operation, and so is lowering it and telling whether it was up.
pub proof fn law_flag_operations(flag: AtomicBool, told: bool)
    ensures
        made_down(flag) ==> call_ensures(AtomicBool::new, (false,), flag),
        raised(flag) ==> call_ensures(AtomicBool::store, (&flag, true, Ordering::Relaxed), ()),
        raising_told(flag, told) ==> exists|outcome: Result<bool, bool>|
            {
                &&& #[trigger] call_ensures(
                    AtomicBool::compare_exchange,
                    (&flag, false, true, Ordering::AcqRel, Ordering::Relaxed),
                    outcome,
                )
                &&& told <==> outcome is Ok
            },
        lowering_told(flag, told) ==> call_ensures(
            AtomicBool::swap,
            (&flag, false, Ordering::AcqRel),
            told,
        ),
        settling_told(flag, told) ==> call_ensures(
            AtomicBool::swap,
            (&flag, false, Ordering::Relaxed),
            told,
        ),
        reading_told(flag, told) ==> call_ensures(
            AtomicBool::load,
            (&flag, Ordering::Relaxed),
            told,
        ),
{
}

} // verus!
