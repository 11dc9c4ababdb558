//! The canonical frame geometry of an encoding session, and the derivation of
//! the shared frame delay from the user's timing choice.

use vstd::prelude::*;

verus! {

/// The single fixed width and height that every output frame must conform to.
///
/// It is established exactly once per session: either both sides are supplied
/// explicitly up front, or the first decoded raster's own dimensions are taken.
#[derive(Clone, Copy, PartialEq, Eq, Structural, Debug)]
pub struct Geometry {
    pub width: u16,
    pub height: u16,
}

/// Fixes the canonical geometry for a session.
///
/// An explicit override wins; otherwise the first raster's own dimensions
/// become canonical, which requires them to fit the container's 16-bit fields.
pub fn resolve_geometry(
    override_geometry: Option<Geometry>,
    raster_width: u32,
    raster_height: u32,
) -> (g: Geometry)
    requires
        override_geometry is None ==> raster_width <= 0xFFFF && raster_height <= 0xFFFF,
    ensures
        override_geometry is Some ==> g == override_geometry->0,
        override_geometry is None ==> g.width == raster_width && g.height == raster_height,
{
    match override_geometry {
        Some(g) => g,
        None => Geometry { width: raster_width as u16, height: raster_height as u16 },
    }
}

/// Derives the per-frame delay, in hundredths of a second, from a target
/// frame rate. Integer division floors, so any rate above 100 yields 0.
pub fn delay_from_fps(fps: u16) -> (d: u16)
    requires
        fps >= 1,
    ensures
        d == 100 as int / fps as int,
{
    100 / fps
}

/// Resolves the session-wide frame delay from the user's timing choice: a
/// frame-rate target is converted with `delay_from_fps`, a direct delay value
/// is taken as it is.
pub fn resolve_delay(from_fps: bool, value: u16) -> (d: u16)
    requires
        from_fps ==> value >= 1,
    ensures
        from_fps ==> d == 100 as int / value as int,
        !from_fps ==> d == value,
{
    if from_fps {
        delay_from_fps(value)
    } else {
        value
    }
}

} // verus!
