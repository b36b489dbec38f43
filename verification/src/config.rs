//! What the user can set.

use crate::style::Color;
use vstd::prelude::*;

verus! {

/// How a history is drawn.
#[derive(Clone, Copy, Debug, PartialEq, Eq, Structural)]
pub enum ViewType {
    Sparkline,
    Gauge,
}

/// Which share of a processor is shown: with the frequency taken into account, or of the time.
#[derive(Clone, Copy, Debug, PartialEq, Eq, Structural)]
pub enum RatioMode {
    Scaled,
    Active,
}

/// The settings.
#[derive(Clone, Copy, Debug, PartialEq, Eq, Structural)]
pub struct Config {
    pub color: Color,
    pub view_type: ViewType,
    pub ratio_mode: RatioMode,
    pub per_core_view: bool,
    /// The time between two measurements, in milliseconds.
    pub interval: u32,
}

} // verus!
