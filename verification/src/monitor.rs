use vstd::prelude::*;
use crate::dpi::{PhysicalPosition, PhysicalSize};

verus! {

/// The single synthetic monitor. The host exposes no real multi-monitor
/// information, so this handle carries no geometry and reports a fixed
/// scale factor of one.
#[derive(Clone, Copy, Debug, PartialEq, Eq, PartialOrd, Ord, Hash, Structural)]
pub struct MonitorHandle;

impl MonitorHandle {
    /// The fixed scale factor of the synthetic monitor, in whole units.
    pub fn get_hidpi_factor(&self) -> (r: u32)
        ensures
            r == 1,
    {
        1
    }

    /// The synthetic monitor has no position to report.
    pub fn get_position(&self) -> (r: Option<PhysicalPosition>)
        ensures
            r is None,
    {
        None
    }

    /// The synthetic monitor has no dimensions to report.
    pub fn get_dimensions(&self) -> (r: Option<PhysicalSize>)
        ensures
            r is None,
    {
        None
    }

    /// The synthetic monitor has no name to report.
    pub fn get_name(&self) -> (r: Option<String>)
        ensures
            r is None,
    {
        None
    }
}

} // verus!
