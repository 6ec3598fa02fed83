use vstd::prelude::*;

verus! {

/// The phase of a continuous touch or wheel gesture, as the windowing layer reports it.
#[derive(Clone, Copy, Debug, PartialEq, Eq, Structural)]
pub enum TouchPhase {
    Started,
    Moved,
    Ended,
    Cancelled,
}

/// The three-state phase that the engine expects on a scroll event.
#[derive(Clone, Copy, Debug, PartialEq, Eq, Structural)]
pub enum ScrollPhase {
    Down,
    Move,
    Up,
}

/// The engine phase of a gesture phase: a cancelled gesture ends like a finished one.
pub open spec fn scroll_phase_of(p: TouchPhase) -> ScrollPhase {
    match p {
        TouchPhase::Started => ScrollPhase::Down,
        TouchPhase::Moved => ScrollPhase::Move,
        TouchPhase::Ended => ScrollPhase::Up,
        TouchPhase::Cancelled => ScrollPhase::Up,
    }
}

/// Maps a gesture phase to the engine's scroll phase.
pub fn scroll_phase(p: TouchPhase) -> (r: ScrollPhase)
    ensures
        r == scroll_phase_of(p),
{
    match p {
        TouchPhase::Started => ScrollPhase::Down,
        TouchPhase::Moved => ScrollPhase::Move,
        TouchPhase::Ended => ScrollPhase::Up,
        TouchPhase::Cancelled => ScrollPhase::Up,
    }
}

/// Height of one scrolled line, in pixels.
pub const LINE_HEIGHT: u32 = 38;

/// How far a wheel turned, in the unit that the device reports.
#[derive(Clone, Copy, Debug, PartialEq)]
pub enum WheelDelta<D> {
    /// Whole lines (and columns) of text.
    Lines { dx: D, dy: D },
    /// Pixels, as precise touchpads report them.
    Pixels { dx: D, dy: D },
}

/// A scroll amount in pixels: `dx` horizontally and `dy * dy_scale` vertically.
///
/// The vertical factor is kept apart from the amount so that the amount keeps the
/// device's own number type.
#[derive(Clone, Copy, Debug, PartialEq)]
pub struct PixelDelta<D> {
    pub dx: D,
    pub dy: D,
    pub dy_scale: u32,
}

/// The pixel delta of a wheel delta: line steps scale vertically by the line
/// height, pixel steps pass through.
pub open spec fn pixel_delta_of<D>(d: WheelDelta<D>) -> PixelDelta<D> {
    match d {
        WheelDelta::Lines { dx, dy } => PixelDelta { dx, dy, dy_scale: LINE_HEIGHT },
        WheelDelta::Pixels { dx, dy } => PixelDelta { dx, dy, dy_scale: 1 },
    }
}

/// Resolves a wheel delta to pixels.
pub fn pixel_delta<D>(d: WheelDelta<D>) -> (r: PixelDelta<D>)
    ensures
        r == pixel_delta_of(d),
{
    match d {
        WheelDelta::Lines { dx, dy } => PixelDelta { dx, dy, dy_scale: LINE_HEIGHT },
        WheelDelta::Pixels { dx, dy } => PixelDelta { dx, dy, dy_scale: 1 },
    }
}

} // verus!
