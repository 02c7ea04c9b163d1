//! Positions and sizes in physical pixels.
//!
//! The number type is a parameter: nothing here computes with coordinates, it only hands them on.
use vstd::prelude::*;

verus! {

/// A point in physical pixels.
#[derive(Clone, Copy, Debug, Default, PartialEq, Eq, Hash)]
pub struct PhysicalPosition<P> {
    pub x: P,
    pub y: P,
}

impl<P> PhysicalPosition<P> {
    pub fn new(x: P, y: P) -> (position: Self)
        ensures
            position == (PhysicalPosition { x, y }),
    {
        PhysicalPosition { x, y }
    }
}

/// A width and a height in physical pixels.
#[derive(Clone, Copy, Debug, Default, PartialEq, Eq, Hash)]
pub struct PhysicalSize<P> {
    pub width: P,
    pub height: P,
}

impl<P> PhysicalSize<P> {
    pub fn new(width: P, height: P) -> (size: Self)
        ensures
            size == (PhysicalSize { width, height }),
    {
        PhysicalSize { width, height }
    }
}

/// Distances from the four edges of a surface, in physical pixels.
#[derive(Clone, Copy, Debug, Default, PartialEq, Eq, Hash)]
pub struct PhysicalInsets<P> {
    pub top: P,
    pub left: P,
    pub bottom: P,
    pub right: P,
}

impl<P> PhysicalInsets<P> {
    pub fn new(top: P, left: P, bottom: P, right: P) -> (insets: Self)
        ensures
            insets == (PhysicalInsets { top, left, bottom, right }),
    {
        PhysicalInsets { top, left, bottom, right }
    }
}

/// The densities, in dots per inch, are taken relative to this one.
pub const BASELINE_DENSITY: u32 = 160;

/// How many physical pixels make up a logical one, as the display density that it comes from:
/// the factor is `density` over `BASELINE_DENSITY`.
#[derive(Clone, Copy, Debug, PartialEq, Eq, Hash, Structural)]
pub struct ScaleFactor {
    pub density: u32,
}

impl ScaleFactor {
    /// The factor that belongs to a display density; a display that does not tell its density is
    /// taken to have the baseline density, so the factor is one.
    pub open spec fn of(density: Option<u32>) -> ScaleFactor {
        ScaleFactor {
            density: match density {
                Some(density) => density,
                None => BASELINE_DENSITY,
            },
        }
    }

    pub fn from_density(density: Option<u32>) -> (factor: Self)
        ensures
            factor == ScaleFactor::of(density),
    {
        match density {
            Some(density) => ScaleFactor { density },
            None => ScaleFactor { density: BASELINE_DENSITY },
        }
    }
}

/// The size that a native window with this width and height has, or that of no window.
pub open spec fn window_size(native_window: Option<(i32, i32)>) -> PhysicalSize<u32> {
    match native_window {
        Some((width, height)) => PhysicalSize { width: width as u32, height: height as u32 },
        None => PhysicalSize { width: 0, height: 0 },
    }
}

/// The size of the screen: that of the native window, or nothing while there is none.
pub fn screen_size(native_window: Option<(i32, i32)>) -> (size: PhysicalSize<u32>)
    ensures
        size == window_size(native_window),
{
    match native_window {
        Some((width, height)) => PhysicalSize::new(width as u32, height as u32),
        None => PhysicalSize::new(0, 0),
    }
}

/// A display has the scale factor of its density, and the factor one if it tells no density.
/// Displays of different densities have different factors.
pub proof fn law_scale_factors(one: Option<u32>, other: Option<u32>)
    ensures
        one matches Some(density) ==> ScaleFactor::of(one).density == density,
        one is None ==> ScaleFactor::of(one).density == BASELINE_DENSITY,
        one is Some && other is Some ==> (ScaleFactor::of(one) == ScaleFactor::of(other) <==> one
            == other),
        BASELINE_DENSITY == 160,
{
}

/// A native window has its own width and height, and no window has none.
pub proof fn law_window_sizes(width: i32, height: i32)
    ensures
        width >= 0 ==> window_size(Some((width, height))).width == width,
        height >= 0 ==> window_size(Some((width, height))).height == height,
        window_size(Some((width, height))).width == width as u32,
        window_size(Some((width, height))).height == height as u32,
        window_size(None).width == 0,
        window_size(None).height == 0,
{
}

} // verus!
