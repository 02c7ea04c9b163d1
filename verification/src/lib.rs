//! The logic of windows and their input in an Android activity.
//!
//! `event_loop` decides what the loop of an activity does next; `motion`, `touch`, `pointer`,
//! `keyboard` and `ime` say what input amounts to; `window` answers for the window; `input` follows
//! the pointers of a window on behalf of an application. The modules whose names end in `_laws`
//! state and prove what holds across calls.
pub mod action;
pub mod android;
pub mod event;
pub mod event_loop;
pub mod flag;
pub mod geometry;
pub mod ime;
pub mod input;
pub mod input_laws;
pub mod keyboard;
pub mod loop_laws;
pub mod motion;
pub mod motion_laws;
pub mod pointer;
pub mod table;
pub mod time;
pub mod touch;
pub mod touch_laws;
pub mod window;
