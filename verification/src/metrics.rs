//! What is measured of the machine.
//!
//! Some quantities are measured in floating point. Of these the caller hands in what the rest of
//! the program reads: the number in the units of a history, the number written out, and where it
//! is needed again the bits of the number itself, which nothing here computes with.

use vstd::prelude::*;

verus! {

/// A share from 0 to 1.
#[derive(Debug)]
pub struct Ratio {
    /// The bits of the share, as a double.
    pub bits: u64,
    /// The share in percent, rounded down.
    pub percent: u64,
    /// The share in percent, rounded to the nearest and written in three columns.
    pub text: String,
}

/// What a share stands for.
pub struct RatioView {
    pub bits: u64,
    pub percent: u64,
    pub text: Seq<char>,
}

impl View for Ratio {
    type V = RatioView;

    open spec fn view(&self) -> RatioView {
        RatioView { bits: self.bits, percent: self.percent, text: self.text@ }
    }
}

impl RatioView {
    /// The share of nothing.
    pub open spec fn zero() -> RatioView {
        RatioView { bits: 0, percent: 0, text: "  0"@ }
    }
}

impl Ratio {
    /// The share of nothing.
    pub fn zero() -> (ratio: Ratio)
        ensures
            ratio@ == RatioView::zero(),
    {
        Ratio { bits: 0, percent: 0, text: "  0".to_owned() }
    }

    /// The same share once more.
    pub fn copied(&self) -> (ratio: Ratio)
        ensures
            ratio@ == self@,
    {
        Ratio { bits: self.bits, percent: self.percent, text: self.text.clone() }
    }
}

/// What is measured of one processor core.
#[derive(Debug)]
pub struct CpuCoreMetrics {
    pub die_id: usize,
    pub core_id: usize,
    pub freq_mhz: u32,
    pub scaled_ratio: Ratio,
    pub active_ratio: Ratio,
}

/// The use of memory, in bytes.
#[derive(Debug)]
pub struct MemMetrics {
    pub ram_total: u64,
    pub ram_usage: u64,
    pub swap_total: u64,
    pub swap_usage: u64,
    pub readout: MemReadout,
}

/// The shares of memory and swap that are in use.
#[derive(Debug)]
pub struct MemReadout {
    /// Memory in use in percent, with one decimal.
    pub ram_percent: String,
    /// The bits of the share of the memory that is in use, as a double.
    pub ram_ratio: u64,
    /// The bits of the share of the swap that is in use, as a double.
    pub swap_ratio: u64,
}

/// A temperature.
#[derive(Debug)]
pub struct Temp {
    /// The bits of the temperature in degrees Celsius, as a single.
    pub bits: u32,
    /// Whether the temperature is above zero.
    pub positive: bool,
    /// The temperature in degrees Celsius, with one decimal.
    pub text: String,
}

/// A sample of a temperature.
#[derive(Debug)]
pub struct TempSample {
    /// What the sensor says, unless it says nothing or zero.
    pub measured: Option<Temp>,
    /// What the earlier temperatures suggest, unless that is zero.
    pub trend: Option<Temp>,
}

/// What is measured of one fan.
#[derive(Clone, Copy, Debug, PartialEq, Eq, Structural)]
pub struct FanMetric {
    pub rpm: u64,
}

/// Everything that is measured at one time. Powers are in milliwatts.
#[derive(Debug)]
pub struct Metrics {
    pub cpu_power: u64,
    pub gpu_power: u64,
    pub all_power: u64,
    pub sys_power: u64,
    pub ecpu_freq_mhz: u32,
    pub ecpu_scaled_ratio: Ratio,
    pub ecpu_active_ratio: Ratio,
    pub ecpu_cores: Vec<CpuCoreMetrics>,
    pub pcpu_freq_mhz: u32,
    pub pcpu_scaled_ratio: Ratio,
    pub pcpu_active_ratio: Ratio,
    pub pcpu_cores: Vec<CpuCoreMetrics>,
    pub gpu_freq_mhz: u32,
    pub gpu_scaled_ratio: Ratio,
    pub gpu_active_ratio: Ratio,
    pub cpu_temp: TempSample,
    pub gpu_temp: TempSample,
    pub fans: Vec<FanMetric>,
    pub memory: MemMetrics,
}

/// What the machine is made of.
#[derive(Debug)]
pub struct SocInfo {
    pub chip_name: String,
    pub ecpu_cores: u64,
    pub ecpu_label: String,
    pub pcpu_cores: u64,
    pub pcpu_label: String,
    pub gpu_cores: u64,
    pub memory_gb: u64,
}

} // verus!
