//! The window of an activity.
use vstd::prelude::*;

use crate::event::WindowId;
use crate::event_loop::ActiveEventLoop;
use crate::flag::RedrawRequester;
use crate::geometry::{screen_size, PhysicalInsets, PhysicalPosition, PhysicalSize, ScaleFactor};
use crate::{flag, geometry};
use std::sync::atomic::AtomicBool;

verus! {

/// The number of the window. There is only one.
pub const GLOBAL_WINDOW: usize = 0;

/// There is nothing to be set for a window here.
#[derive(Clone, Copy, Debug, Default, Eq, PartialEq)]
pub struct PlatformSpecificWindowAttributes;

/// Something that cannot be done here.
#[derive(Clone, Copy, Debug, PartialEq, Eq)]
pub struct NotSupportedError {
    pub reason: &'static str,
}

#[derive(Clone, Copy, Debug, PartialEq, Eq)]
pub enum RequestError {
    NotSupported(NotSupportedError),
}

/// Whether a request was turned down for the given reason.
pub open spec fn not_supported<T>(result: Result<T, RequestError>, reason: &str) -> bool {
    result matches Err(RequestError::NotSupported(error)) && error.reason@ == reason@
}

fn refuse<T>(reason: &'static str) -> (result: Result<T, RequestError>)
    ensures
        not_supported(result, reason),
{
    Err(RequestError::NotSupported(NotSupportedError { reason }))
}

/// A request about text input. `C` is the type of what text input is to be capable of.
#[derive(Clone, Copy, Debug, PartialEq, Eq)]
pub enum ImeRequest<C> {
    Enable(C),
    Update,
    Disable,
}

#[derive(Clone, Copy, Debug, PartialEq, Eq, Structural)]
pub enum ImeRequestError {
    /// Text input has to be enabled first.
    NotEnabled,
    /// Text input is enabled already.
    AlreadyEnabled,
}

/// What a request about text input asks of the program around.
#[derive(Clone, Copy, Debug, PartialEq, Eq, Structural)]
pub enum ImeAction {
    /// Empty the text under edit of the soft keyboard.
    ResetTextInput,
    /// Show the soft keyboard, on an implicit request.
    ShowSoftInput,
    /// Hide the soft keyboard, if it was shown on an implicit request.
    HideSoftInput,
}

/// What becomes of the capabilities of text input with a request, and what follows.
pub open spec fn ime_outcome<C>(capabilities: Option<C>, request: ImeRequest<C>) -> (
    Option<C>,
    Result<Seq<ImeAction>, ImeRequestError>,
) {
    match request {
        ImeRequest::Enable(requested) => if capabilities is Some {
            (capabilities, Err(ImeRequestError::AlreadyEnabled))
        } else {
            (Some(requested), Ok(seq![ImeAction::ResetTextInput, ImeAction::ShowSoftInput]))
        },
        ImeRequest::Update => if capabilities is None {
            (None, Err(ImeRequestError::NotEnabled))
        } else {
            (capabilities, Ok(Seq::empty()))
        },
        ImeRequest::Disable => (
            None,
            Ok(seq![ImeAction::ResetTextInput, ImeAction::HideSoftInput]),
        ),
    }
}

/// A request that is turned down changes nothing, and the one that was turned down for coming too
/// early or too late is granted once text input is enabled or disabled.
pub proof fn law_refused_requests_change_nothing<C>(
    capabilities: Option<C>,
    request: ImeRequest<C>,
)
    ensures
        ime_outcome(capabilities, request).1 is Err ==> ime_outcome(capabilities, request).0
            == capabilities,
        ime_outcome(capabilities, request).1 == Err::<Seq<ImeAction>, _>(
            ImeRequestError::AlreadyEnabled,
        ) ==> ime_outcome(ime_outcome(capabilities, ImeRequest::Disable).0, request).1 is Ok,
        ime_outcome(capabilities, request).1 == Err::<Seq<ImeAction>, _>(
            ImeRequestError::NotEnabled,
        ) ==> forall|requested: C|
            ime_outcome(
                (#[trigger] ime_outcome(capabilities, ImeRequest::Enable(requested))).0,
                request,
            ).1 is Ok,
{
}

/// Text input has the capabilities that it was enabled with until it is disabled: enabling it
/// again and updating it change nothing.
pub proof fn law_capabilities_last<C>(requested: C, later: ImeRequest<C>)
    ensures
        ime_outcome(None, ImeRequest::Enable(requested)).0 == Some(requested),
        ime_outcome(Some(requested), later).0 == if later is Disable {
            None
        } else {
            Some(requested)
        },
{
}

/// The buttons in the frame of a window.
#[derive(Clone, Copy, Debug, PartialEq, Eq)]
pub struct WindowButtons {
    pub close: bool,
    pub minimize: bool,
    pub maximize: bool,
}

/// The window. `C` is the type of what text input is to be capable of.
#[derive(Debug)]
pub struct Window<C> {
    ime_capabilities: Option<C>,
    redraw_requester: RedrawRequester,
}

impl<C> View for Window<C> {
    /// What text input is capable of, while it is enabled.
    type V = Option<C>;

    closed spec fn view(&self) -> Option<C> {
        self.ime_capabilities
    }
}

impl<C> Window<C> {
    /// The flag that is raised to ask for a redraw.
    pub closed spec fn redraw_flag(&self) -> AtomicBool {
        self.redraw_requester.flag()
    }
}

impl<C: Copy> Window<C> {
    pub fn new(event_loop: &ActiveEventLoop) -> (window: Self)
        ensures
            window@ is None,
            window.redraw_flag() == event_loop@.redraw_flag,
    {
        Window { ime_capabilities: None, redraw_requester: event_loop.redraw_requester() }
    }

    /// Handles a request about text input.
    pub fn request_ime_update(&mut self, request: ImeRequest<C>) -> (result: Result<
        Vec<ImeAction>,
        ImeRequestError,
    >)
        ensures
            final(self)@ == ime_outcome(old(self)@, request).0,
            final(self).redraw_flag() == old(self).redraw_flag(),
            match result {
                Ok(actions) => ime_outcome(old(self)@, request).1 == Ok::<_, ImeRequestError>(
                    actions@,
                ),
                Err(error) => ime_outcome(old(self)@, request).1 == Err::<Seq<ImeAction>, _>(error),
            },
    {
        let mut actions: Vec<ImeAction> = Vec::new();
        match request {
            ImeRequest::Enable(capabilities) => {
                if self.ime_capabilities.is_some() {
                    return Err(ImeRequestError::AlreadyEnabled);
                }
                self.ime_capabilities = Some(capabilities);
                actions.push(ImeAction::ResetTextInput);
                actions.push(ImeAction::ShowSoftInput);
            },
            ImeRequest::Update => {
                if self.ime_capabilities.is_none() {
                    return Err(ImeRequestError::NotEnabled);
                }
            },
            ImeRequest::Disable => {
                self.ime_capabilities = None;
                actions.push(ImeAction::ResetTextInput);
                actions.push(ImeAction::HideSoftInput);
            },
        }
        assert(ime_outcome(old(self)@, request).1->Ok_0 =~= actions@);
        Ok(actions)
    }

    pub fn ime_capabilities(&self) -> (capabilities: Option<C>)
        ensures
            capabilities == self@,
    {
        self.ime_capabilities
    }

    /// Asks for a redraw and tells whether the loop has to be woken.
    pub fn request_redraw(&self) -> (to_be_woken: bool)
        ensures
            flag::raising_told(self.redraw_flag(), to_be_woken),
    {
        self.redraw_requester.request_redraw()
    }

    pub fn id(&self) -> (id: WindowId)
        ensures
            id == WindowId(GLOBAL_WINDOW),
    {
        WindowId(GLOBAL_WINDOW)
    }

    /// The scale factor on a display of the given density.
    pub fn scale_factor(&self, density: Option<u32>) -> (factor: ScaleFactor)
        ensures
            factor == ScaleFactor::of(density),
    {
        ScaleFactor::from_density(density)
    }

    pub fn surface_position(&self) -> (position: PhysicalPosition<i32>)
        ensures
            position == (PhysicalPosition { x: 0i32, y: 0i32 }),
    {
        PhysicalPosition::new(0, 0)
    }

    pub fn outer_position(&self) -> (result: Result<PhysicalPosition<i32>, RequestError>)
        ensures
            not_supported(result, "outer_position is not supported"),
    {
        refuse("outer_position is not supported")
    }

    /// The surface takes up all of the native window.
    pub fn surface_size(&self, native_window: Option<(i32, i32)>) -> (size: PhysicalSize<u32>)
        ensures
            size == geometry::window_size(native_window),
    {
        self.outer_size(native_window)
    }

    /// A size cannot be asked for: the answer is the size that the surface has anyway.
    pub fn request_surface_size(&self, native_window: Option<(i32, i32)>) -> (size: Option<
        PhysicalSize<u32>,
    >)
        ensures
            size == Some(geometry::window_size(native_window)),
    {
        Some(self.surface_size(native_window))
    }

    pub fn outer_size(&self, native_window: Option<(i32, i32)>) -> (size: PhysicalSize<u32>)
        ensures
            size == geometry::window_size(native_window),
    {
        screen_size(native_window)
    }

    pub fn safe_area(&self) -> (insets: PhysicalInsets<u32>)
        ensures
            insets == (PhysicalInsets { top: 0u32, left: 0u32, bottom: 0u32, right: 0u32 }),
    {
        PhysicalInsets::new(0, 0, 0, 0)
    }

    pub fn surface_resize_increments(&self) -> (increments: Option<PhysicalSize<u32>>)
        ensures
            increments is None,
    {
        None
    }

    pub fn is_visible(&self) -> (visible: Option<bool>)
        ensures
            visible is None,
    {
        None
    }

    pub fn is_resizable(&self) -> (resizable: bool)
        ensures
            !resizable,
    {
        false
    }

    pub fn enabled_buttons(&self) -> (buttons: WindowButtons)
        ensures
            buttons.close && buttons.minimize && buttons.maximize,
    {
        WindowButtons { close: true, minimize: true, maximize: true }
    }

    pub fn is_minimized(&self) -> (minimized: Option<bool>)
        ensures
            minimized is None,
    {
        None
    }

    pub fn is_maximized(&self) -> (maximized: bool)
        ensures
            !maximized,
    {
        false
    }

    pub fn is_decorated(&self) -> (decorated: bool)
        ensures
            decorated,
    {
        true
    }

    pub fn set_cursor_position(&self) -> (result: Result<(), RequestError>)
        ensures
            not_supported(result, "set_cursor_position is not supported"),
    {
        refuse("set_cursor_position is not supported")
    }

    pub fn set_cursor_grab(&self) -> (result: Result<(), RequestError>)
        ensures
            not_supported(result, "set_cursor_grab is not supported"),
    {
        refuse("set_cursor_grab is not supported")
    }

    pub fn drag_window(&self) -> (result: Result<(), RequestError>)
        ensures
            not_supported(result, "drag_window is not supported"),
    {
        refuse("drag_window is not supported")
    }

    pub fn drag_resize_window(&self) -> (result: Result<(), RequestError>)
        ensures
            not_supported(result, "drag_resize_window"),
    {
        refuse("drag_resize_window")
    }

    pub fn set_cursor_hittest(&self) -> (result: Result<(), RequestError>)
        ensures
            not_supported(result, "set_cursor_hittest is not supported"),
    {
        refuse("set_cursor_hittest is not supported")
    }

    pub fn title(&self) -> (title: String)
        ensures
            title@.len() == 0,
    {
        String::new()
    }
}

impl ActiveEventLoop {
    /// Makes the window. Its attributes cannot be chosen.
    pub fn create_window<C: Copy>(&self) -> (window: Result<Window<C>, RequestError>)
        ensures
            window matches Ok(window) && window@ is None && window.redraw_flag()
                == self@.redraw_flag,
    {
        Ok(Window::new(self))
    }

    pub fn create_custom_cursor(&self) -> (result: Result<(), RequestError>)
        ensures
            not_supported(result, "create_custom_cursor is not supported"),
    {
        refuse("create_custom_cursor is not supported")
    }
}

/// Text input can be enabled only while it is not, updated only while it is, and disabled at any
/// time. Enabling it shows the soft keyboard and disabling it hides it, each on emptied text.
pub proof fn law_text_input_requests<C>(capabilities: Option<C>, request: ImeRequest<C>)
    ensures
        ({
            let (after, result) = ime_outcome(capabilities, request);
            &&& result == Err::<Seq<ImeAction>, _>(ImeRequestError::AlreadyEnabled)
                <==> request is Enable && capabilities is Some
            &&& result == Err::<Seq<ImeAction>, _>(ImeRequestError::NotEnabled)
                <==> request is Update && capabilities is None
            &&& result matches Ok(actions) ==> match request {
                ImeRequest::Enable(requested) => {
                    &&& after == Some(requested)
                    &&& actions.len() == 2
                    &&& actions[0] is ResetTextInput
                    &&& actions[1] is ShowSoftInput
                },
                ImeRequest::Update => after == capabilities && actions.len() == 0,
                ImeRequest::Disable => {
                    &&& after is None
                    &&& actions.len() == 2
                    &&& actions[0] is ResetTextInput
                    &&& actions[1] is HideSoftInput
                },
            }
            &&& result is Err ==> after == capabilities
        }),
{
}

/// What is turned down is no success, and gives the reason.
pub proof fn law_refusals_are_errors<T>(result: Result<T, RequestError>, reason: &str)
    requires
        not_supported(result, reason),
    ensures
        result is Err,
        result matches Err(RequestError::NotSupported(error)) ==> error.reason@ == reason@,
{
}

} // verus!
