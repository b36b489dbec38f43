//! Histories of what is measured.

use crate::config::RatioMode;
use crate::history::{find_largest, largest, record, recorded, sum, total};
use crate::metrics::{
    CpuCoreMetrics, FanMetric, MemMetrics, MemReadout, Ratio, RatioView, Temp, TempSample,
};
use crate::text::{decimal, push_decimal};
use vstd::prelude::*;
use vstd::string::*;

verus! {

/// How many values a chart is drawn from.
pub const MAX_SPARKLINE: usize = 128;

/// How many temperatures are kept.
pub const MAX_TEMPS: usize = 8;

/// The history of a share.
#[derive(Debug)]
pub struct RatioSeries {
    /// Recent values in percent, newest first.
    pub items: Vec<u64>,
    /// The latest value.
    pub ratio: Ratio,
}

/// What the history of a share holds.
#[verifier::ext_equal]
pub struct SeriesView {
    pub items: Seq<u64>,
    pub ratio: RatioView,
}

impl View for RatioSeries {
    type V = SeriesView;

    open spec fn view(&self) -> SeriesView {
        SeriesView { items: self.items@, ratio: self.ratio@ }
    }
}

impl SeriesView {
    /// A history before the first value.
    pub open spec fn empty() -> SeriesView {
        SeriesView { items: Seq::empty(), ratio: RatioView::zero() }
    }

    /// The history with one more value.
    pub open spec fn pushed(self, ratio: RatioView) -> SeriesView {
        SeriesView {
            items: recorded(self.items, ratio.percent, MAX_SPARKLINE as nat),
            ratio,
        }
    }
}

impl RatioSeries {
    /// A history before the first value.
    pub fn empty() -> (series: RatioSeries)
        ensures
            series@ == SeriesView::empty(),
    {
        RatioSeries { items: Vec::new(), ratio: Ratio::zero() }
    }

    /// Adds a value.
    pub fn push(&mut self, ratio: Ratio)
        ensures
            final(self)@ == old(self)@.pushed(ratio@),
    {
        record(&mut self.items, ratio.percent, MAX_SPARKLINE);
        self.ratio = ratio;
    }
}

/// A frequency, and how much of a processor was in use at it.
#[derive(Debug)]
pub struct FreqSample {
    pub freq_mhz: u64,
    pub scaled_ratio: Ratio,
    pub active_ratio: Ratio,
}

/// What a sample of a frequency stands for.
pub struct FreqSampleView {
    pub freq_mhz: u64,
    pub scaled_ratio: RatioView,
    pub active_ratio: RatioView,
}

impl View for FreqSample {
    type V = FreqSampleView;

    open spec fn view(&self) -> FreqSampleView {
        FreqSampleView {
            freq_mhz: self.freq_mhz,
            scaled_ratio: self.scaled_ratio@,
            active_ratio: self.active_ratio@,
        }
    }
}

impl FreqSampleView {
    /// The sample of a processor that is off.
    pub open spec fn idle() -> FreqSampleView {
        FreqSampleView {
            freq_mhz: 0,
            scaled_ratio: RatioView::zero(),
            active_ratio: RatioView::zero(),
        }
    }

    /// The sample of a core.
    pub open spec fn of_core(core: CpuCoreMetrics) -> FreqSampleView {
        FreqSampleView {
            freq_mhz: core.freq_mhz as u64,
            scaled_ratio: core.scaled_ratio@,
            active_ratio: core.active_ratio@,
        }
    }
}

impl FreqSample {
    pub fn new(freq_mhz: u32, scaled_ratio: Ratio, active_ratio: Ratio) -> (sample: FreqSample)
        ensures
            sample == (FreqSample { freq_mhz: freq_mhz as u64, scaled_ratio, active_ratio }),
    {
        FreqSample { freq_mhz: freq_mhz as u64, scaled_ratio, active_ratio }
    }

    /// The sample of a core.
    pub fn from_core(core: &CpuCoreMetrics) -> (sample: FreqSample)
        ensures
            sample@ == FreqSampleView::of_core(*core),
    {
        FreqSample::new(core.freq_mhz, core.scaled_ratio.copied(), core.active_ratio.copied())
    }

    /// The sample of a processor that is off.
    pub fn idle() -> (sample: FreqSample)
        ensures
            sample@ == FreqSampleView::idle(),
    {
        FreqSample { freq_mhz: 0, scaled_ratio: Ratio::zero(), active_ratio: Ratio::zero() }
    }
}

/// The latest frequency, and the histories of both shares side by side.
#[derive(Debug)]
pub struct FreqStore {
    pub freq_mhz: u64,
    pub scaled: RatioSeries,
    pub active: RatioSeries,
}

/// What the history of a processor holds.
#[verifier::ext_equal]
pub struct FreqStoreView {
    pub freq_mhz: u64,
    pub scaled: SeriesView,
    pub active: SeriesView,
}

impl View for FreqStore {
    type V = FreqStoreView;

    open spec fn view(&self) -> FreqStoreView {
        FreqStoreView { freq_mhz: self.freq_mhz, scaled: self.scaled@, active: self.active@ }
    }
}

impl FreqStoreView {
    /// A history before the first sample.
    pub open spec fn empty() -> FreqStoreView {
        FreqStoreView { freq_mhz: 0, scaled: SeriesView::empty(), active: SeriesView::empty() }
    }

    /// The history with one more sample.
    pub open spec fn pushed(self, sample: FreqSampleView) -> FreqStoreView {
        FreqStoreView {
            freq_mhz: sample.freq_mhz,
            scaled: self.scaled.pushed(sample.scaled_ratio),
            active: self.active.pushed(sample.active_ratio),
        }
    }

    /// The history that a mode shows.
    pub open spec fn ratio(self, mode: RatioMode) -> SeriesView {
        match mode {
            RatioMode::Scaled => self.scaled,
            RatioMode::Active => self.active,
        }
    }
}

impl FreqStore {
    /// A history before the first sample.
    pub fn empty() -> (store: FreqStore)
        ensures
            store@ == FreqStoreView::empty(),
    {
        FreqStore { freq_mhz: 0, scaled: RatioSeries::empty(), active: RatioSeries::empty() }
    }

    /// Adds a sample.
    pub fn push(&mut self, sample: FreqSample)
        ensures
            final(self)@ == old(self)@.pushed(sample@),
    {
        self.freq_mhz = sample.freq_mhz;
        self.scaled.push(sample.scaled_ratio);
        self.active.push(sample.active_ratio);
    }

    /// The history that a mode shows.
    pub fn ratio(&self, mode: RatioMode) -> (series: &RatioSeries)
        ensures
            series@ == self@.ratio(mode),
            *series == match mode {
                RatioMode::Scaled => self.scaled,
                RatioMode::Active => self.active,
            },
    {
        match mode {
            RatioMode::Scaled => &self.scaled,
            RatioMode::Active => &self.active,
        }
    }
}

/// The history of a power.
#[derive(Debug)]
pub struct PowerStore {
    /// Recent values in milliwatts, newest first.
    pub items: Vec<u64>,
    /// The latest value in watts, smoothed.
    pub top_value: String,
    /// The mean of the recent values in watts.
    pub avg_value: String,
    /// The largest of the recent values in watts.
    pub max_value: String,
}

/// The figures that a power is summed up in, in milliwatts.
#[derive(Clone, Copy, Debug, PartialEq, Eq, Structural)]
pub struct PowerTotals {
    pub sum: u64,
    pub count: usize,
    pub max: u64,
}

impl PowerStore {
    /// Whether no value has come in yet.
    pub open spec fn is_empty(self) -> bool {
        &&& self.items@ == Seq::<u64>::empty()
        &&& self.top_value@ == "0.00"@
        &&& self.avg_value@ == "0.00"@
        &&& self.max_value@ == "0.00"@
    }

    /// A history before the first value.
    pub fn empty() -> (store: PowerStore)
        ensures
            store.is_empty(),
    {
        PowerStore {
            items: Vec::new(),
            top_value: "0.00".to_owned(),
            avg_value: "0.00".to_owned(),
            max_value: "0.00".to_owned(),
        }
    }

    /// Adds a value, in milliwatts.
    pub fn push(&mut self, value: u64)
        ensures
            final(self).items@ == recorded(old(self).items@, value, MAX_SPARKLINE as nat),
            final(self).top_value == old(self).top_value,
            final(self).avg_value == old(self).avg_value,
            final(self).max_value == old(self).max_value,
    {
        record(&mut self.items, value, MAX_SPARKLINE);
    }

    /// The latest value, or nothing before the first.
    pub fn latest(&self) -> (value: u64)
        ensures
            value == if self.items@.len() > 0 {
                self.items@[0]
            } else {
                0
            },
    {
        if self.items.len() > 0 {
            self.items[0]
        } else {
            0
        }
    }

    /// What the mean and the largest value are worked out from.
    pub fn totals(&self) -> (totals: PowerTotals)
        requires
            total(self.items@) <= u64::MAX,
        ensures
            totals.sum == total(self.items@),
            totals.count == self.items@.len(),
            totals.max == largest(self.items@),
    {
        PowerTotals {
            sum: sum(&self.items),
            count: self.items.len(),
            max: find_largest(&self.items),
        }
    }

    /// Takes in the figures that are shown.
    pub fn show(&mut self, top_value: String, avg_value: String, max_value: String)
        ensures
            *final(self) == (PowerStore {
                items: old(self).items,
                top_value,
                avg_value,
                max_value,
            }),
    {
        self.top_value = top_value;
        self.avg_value = avg_value;
        self.max_value = max_value;
    }
}

/// The history of the use of memory.
#[derive(Debug)]
pub struct MemoryStore {
    /// Recent use of memory in bytes, newest first.
    pub items: Vec<u64>,
    /// Recent use of swap in bytes, newest first.
    pub swap_items: Vec<u64>,
    pub ram_usage: u64,
    pub ram_total: u64,
    pub swap_usage: u64,
    pub swap_total: u64,
    pub max_ram: u64,
    pub max_swap: u64,
    /// The shares that are in use.
    pub readout: MemReadout,
}

impl MemoryStore {
    /// Whether no sample has come in yet.
    pub open spec fn is_empty(self) -> bool {
        &&& self.items@ == Seq::<u64>::empty()
        &&& self.swap_items@ == Seq::<u64>::empty()
        &&& self.ram_usage == 0
        &&& self.ram_total == 0
        &&& self.swap_usage == 0
        &&& self.swap_total == 0
        &&& self.max_ram == 0
        &&& self.max_swap == 0
        &&& self.readout.ram_percent@ == "0.0"@
        &&& self.readout.ram_ratio == 0
        &&& self.readout.swap_ratio == 0
    }

    /// Whether this is the history `old` with one more sample.
    pub open spec fn recorded_from(self, old: MemoryStore, value: MemMetrics) -> bool {
        &&& self.items@ == recorded(old.items@, value.ram_usage, MAX_SPARKLINE as nat)
        &&& self.swap_items@ == recorded(old.swap_items@, value.swap_usage, MAX_SPARKLINE as nat)
        &&& self.ram_usage == value.ram_usage
        &&& self.ram_total == value.ram_total
        &&& self.swap_usage == value.swap_usage
        &&& self.swap_total == value.swap_total
        &&& self.max_ram == largest(self.items@)
        &&& self.max_swap == largest(self.swap_items@)
        &&& self.readout == value.readout
    }

    /// A history before the first sample.
    pub fn empty() -> (store: MemoryStore)
        ensures
            store.is_empty(),
    {
        MemoryStore {
            items: Vec::new(),
            swap_items: Vec::new(),
            ram_usage: 0,
            ram_total: 0,
            swap_usage: 0,
            swap_total: 0,
            max_ram: 0,
            max_swap: 0,
            readout: MemReadout { ram_percent: "0.0".to_owned(), ram_ratio: 0, swap_ratio: 0 },
        }
    }

    /// Adds a sample.
    pub fn push(&mut self, value: MemMetrics)
        ensures
            final(self).recorded_from(*old(self), value),
    {
        record(&mut self.items, value.ram_usage, MAX_SPARKLINE);
        record(&mut self.swap_items, value.swap_usage, MAX_SPARKLINE);
        self.ram_usage = value.ram_usage;
        self.ram_total = value.ram_total;
        self.swap_usage = value.swap_usage;
        self.swap_total = value.swap_total;
        self.max_ram = find_largest(&self.items);
        self.max_swap = find_largest(&self.swap_items);
        self.readout = value.readout;
    }
}

/// The history of a temperature.
#[derive(Debug)]
pub struct TempStore {
    /// Recent values, newest first.
    pub items: Vec<Temp>,
}

impl TempStore {
    /// The value that a sample adds: what the sensor says, else the trend, which takes two
    /// earlier values.
    pub open spec fn value_of(items: Seq<Temp>, sample: TempSample) -> Option<Temp> {
        if sample.measured is Some {
            sample.measured
        } else if items.len() < 2 {
            None
        } else {
            sample.trend
        }
    }

    /// A history before the first value.
    pub fn empty() -> (store: TempStore)
        ensures
            store.items@ == Seq::<Temp>::empty(),
    {
        TempStore { items: Vec::new() }
    }

    /// The latest value, if there is one.
    pub fn last(&self) -> (value: Option<&Temp>)
        ensures
            match value {
                Some(temp) => self.items@.len() > 0 && *temp == self.items@[0],
                None => self.items@.len() == 0,
            },
    {
        if self.items.len() > 0 {
            Some(&self.items[0])
        } else {
            None
        }
    }

    /// Adds a sample; one without a value changes nothing.
    pub fn push(&mut self, sample: TempSample)
        ensures
            final(self).items@ == match Self::value_of(old(self).items@, sample) {
                Some(value) => recorded(old(self).items@, value, MAX_TEMPS as nat),
                None => old(self).items@,
            },
    {
        let value = match sample.measured {
            Some(value) => Some(value),
            None => if self.items.len() < 2 {
                None
            } else {
                sample.trend
            },
        };
        if let Some(value) = value {
            record(&mut self.items, value, MAX_TEMPS);
        }
    }
}

/// The fans.
#[derive(Debug)]
pub struct FanStore {
    pub items: Vec<FanMetric>,
}

/// The speeds of fans, with strokes between them.
pub open spec fn speeds_text(fans: Seq<FanMetric>) -> Seq<char>
    decreases fans.len(),
{
    if fans.len() == 0 {
        Seq::empty()
    } else if fans.len() == 1 {
        decimal(fans[0].rpm as nat)
    } else {
        speeds_text(fans.drop_last()) + "/"@ + decimal(fans.last().rpm as nat)
    }
}

/// The text on the fans.
pub open spec fn fans_text(fans: Seq<FanMetric>) -> Seq<char> {
    if fans.len() == 0 {
        Seq::empty()
    } else if fans.len() == 1 {
        "Fan "@ + speeds_text(fans) + " RPM"@
    } else {
        "Fans "@ + speeds_text(fans) + " RPM"@
    }
}

impl FanStore {
    /// No fans.
    pub fn empty() -> (store: FanStore)
        ensures
            store.items@ == Seq::<FanMetric>::empty(),
    {
        FanStore { items: Vec::new() }
    }

    /// Takes in the latest speeds.
    pub fn push(&mut self, value: Vec<FanMetric>)
        ensures
            final(self).items == value,
    {
        self.items = value;
    }

    /// The text on the fans.
    pub fn label(&self) -> (text: String)
        ensures
            text@ == fans_text(self.items@),
    {
        if self.items.len() == 0 {
            return String::new();
        }
        let mut text = if self.items.len() == 1 {
            String::from_str("Fan ")
        } else {
            String::from_str("Fans ")
        };
        let ghost start = text@;
        let mut i: usize = 0;
        while i < self.items.len()
            invariant
                i <= self.items@.len(),
                text@ == start + speeds_text(self.items@.take(i as int)),
            decreases self.items@.len() - i,
        {
            assert(self.items@.take(i + 1).drop_last() =~= self.items@.take(i as int));
            if i > 0 {
                text.append("/");
            }
            push_decimal(&mut text, self.items[i].rpm);
            assert(text@ =~= start + speeds_text(self.items@.take(i + 1)));
            i = i + 1;
        }
        assert(self.items@.take(i as int) =~= self.items@);
        text.append(" RPM");
        text
    }
}

} // verus!
