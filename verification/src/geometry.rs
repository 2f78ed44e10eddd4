//! Size of the screen in logical units.
//!
//! A display reports its size in physical pixels and a scale factor. The
//! overlay is sized and placed in logical units, which do not depend on the
//! display's pixel density: physical pixels divided by the scale factor.

use vstd::prelude::*;
use crate::units::{
    binary64_is_positive_finite, binary64_value, scale_factor_is_positive, LogicalLength,
    ScaleFactor,
};

verus! {

/// Logical width that is assumed when no display can be queried.
pub const FALLBACK_WIDTH: u32 = 1920;

/// Logical height that is assumed when no display can be queried.
pub const FALLBACK_HEIGHT: u32 = 1080;

/// A display as the host reports it: its size in physical pixels and its
/// scale factor.
#[derive(Clone, Copy, Debug)]
pub struct Monitor {
    pub width_px: u32,
    pub height_px: u32,
    pub scale: ScaleFactor,
}

/// What asking the host for the window's monitor came to.
#[derive(Clone, Copy, Debug)]
pub enum MonitorQuery {
    /// The host could not answer.
    Failed,
    /// The host answered that the window is on no monitor it knows.
    NoMonitor,
    /// The window is on this monitor.
    Found(Monitor),
}

/// The size of a screen in logical units.
#[derive(Clone, Copy, Debug)]
pub struct LogicalSize {
    pub width: LogicalLength,
    pub height: LogicalLength,
}

/// The scale factor that a host's binary64 report stands for: the reported
/// number itself, where it is positive and finite. A report of zero, of a
/// negative number, of an infinity or of a NaN leaves the scale factor
/// undefined, and 1 takes its place.
pub open spec fn reported_scale(scale_bits: u64) -> real {
    if binary64_is_positive_finite(scale_bits) {
        binary64_value(scale_bits)
    } else {
        1real
    }
}

/// The logical size of the screen: that of the monitor, where one was found,
/// and the fallback otherwise. Width comes first.
pub open spec fn logical_size_of(query: MonitorQuery) -> (real, real) {
    match query {
        MonitorQuery::Found(m) => (m.width_px as real / m.scale@, m.height_px as real / m.scale@),
        _ => (FALLBACK_WIDTH as real, FALLBACK_HEIGHT as real),
    }
}

impl Monitor {
    /// A monitor from what the host reports: the size in physical pixels and
    /// the bit pattern of the scale factor, a binary64 number. Every positive
    /// finite scale factor is kept as it is. Only a report that is no such
    /// number (zero, negative, infinite or a NaN) is replaced, by 1.
    pub fn new(width_px: u32, height_px: u32, scale_bits: u64) -> (monitor: Monitor)
        ensures
            monitor.width_px == width_px,
            monitor.height_px == height_px,
            monitor.scale@ == reported_scale(scale_bits),
            binary64_is_positive_finite(scale_bits) ==> monitor.scale@ == binary64_value(
                scale_bits,
            ),
            !binary64_is_positive_finite(scale_bits) ==> monitor.scale@ == 1real,
    {
        let scale = match ScaleFactor::from_binary64(scale_bits) {
            Some(scale) => scale,
            None => ScaleFactor::one(),
        };
        Monitor { width_px, height_px, scale }
    }
}

impl View for LogicalSize {
    type V = (real, real);

    open spec fn view(&self) -> (real, real) {
        (self.width@, self.height@)
    }
}

/// Resolves the size of the screen in logical units from the result of the
/// monitor query. A monitor's physical size is divided by its scale factor.
/// A query that failed or found no monitor gives the fallback size, so there
/// is always a result.
pub fn resolve_logical_screen_size(query: MonitorQuery) -> (size: LogicalSize)
    ensures
        size@ == logical_size_of(query),
        query matches MonitorQuery::Found(m) ==> size.width@ == m.width_px as real / m.scale@
            && size.height@ == m.height_px as real / m.scale@,
        !(query is Found) ==> size.width@ == 1920real && size.height@ == 1080real,
{
    match query {
        MonitorQuery::Found(m) => LogicalSize {
            width: LogicalLength::from_physical(m.width_px, &m.scale),
            height: LogicalLength::from_physical(m.height_px, &m.scale),
        },
        _ => LogicalSize {
            width: LogicalLength::whole(FALLBACK_WIDTH),
            height: LogicalLength::whole(FALLBACK_HEIGHT),
        },
    }
}

/// A monitor's logical size, multiplied by its scale factor, is its physical
/// size again.
pub proof fn logical_size_scales_back(monitor: Monitor)
    ensures
        logical_size_of(MonitorQuery::Found(monitor)).0 * monitor.scale@ == monitor.width_px as real,
        logical_size_of(MonitorQuery::Found(monitor)).1 * monitor.scale@
            == monitor.height_px as real,
{
    scale_factor_is_positive(monitor.scale);
    let scale = monitor.scale@;
    let width = monitor.width_px as real;
    let height = monitor.height_px as real;
    assert(width / scale * scale == width && height / scale * scale == height)
        by (nonlinear_arith)
        requires
            scale > 0real,
    ;
}

} // verus!
