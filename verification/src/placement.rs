//! Where the overlay is docked at startup.

use vstd::prelude::*;
use crate::geometry::{logical_size_of, resolve_logical_screen_size, LogicalSize, MonitorQuery};
use crate::units::LogicalCoordinate;

verus! {

/// How far left of the screen's middle the overlay's left edge lies: half the
/// width of its assumed footprint.
pub const HORIZONTAL_INSET: u32 = 100;

/// How far above the screen's bottom edge the overlay's top edge lies: the
/// height of its assumed footprint.
pub const BOTTOM_INSET: u32 = 200;

/// A position in logical units, from the screen's top left corner.
#[derive(Clone, Copy, Debug)]
pub struct PlacementResult {
    pub x: LogicalCoordinate,
    pub y: LogicalCoordinate,
}

/// The startup position on a screen of the given logical width and height:
/// centred horizontally, docked at the bottom.
pub open spec fn startup_position_of(width: real, height: real) -> (real, real) {
    (width / 2real - 100real, height - 200real)
}

impl View for PlacementResult {
    type V = (real, real);

    open spec fn view(&self) -> (real, real) {
        (self.x@, self.y@)
    }
}

/// Computes where the overlay goes at startup. The overlay's footprint is
/// taken to be 200 by 200 logical units, whatever the window's size is.
pub fn compute_startup_position(screen: &LogicalSize) -> (at: PlacementResult)
    ensures
        at@ == startup_position_of(screen.width@, screen.height@),
{
    PlacementResult {
        x: LogicalCoordinate::before_middle(&screen.width, HORIZONTAL_INSET),
        y: LogicalCoordinate::before_end(&screen.height, BOTTOM_INSET),
    }
}

/// Computes the overlay's startup position from the result of the monitor
/// query. Without a monitor the overlay is placed on a screen of the fallback
/// size, so there is always a position.
pub fn initial_placement(query: MonitorQuery) -> (at: PlacementResult)
    ensures
        at@ == startup_position_of(logical_size_of(query).0, logical_size_of(query).1),
        !(query is Found) ==> at@ == startup_position_of(1920real, 1080real),
{
    let screen = resolve_logical_screen_size(query);
    compute_startup_position(&screen)
}

/// The startup position docks the overlay's footprint of 200 by 200 units
/// at the bottom centre: as much of the screen's width lies left of it as
/// right of it, and its lower edge is the screen's lower edge.
pub proof fn startup_position_is_bottom_centre(width: real, height: real)
    ensures
        startup_position_of(width, height).0 == width - (startup_position_of(width, height).0
            + 200real),
        startup_position_of(width, height).1 + 200real == height,
{
}

} // verus!
