use macmon_tui::config::RatioMode;
use macmon_tui::cores::{CoreId, CpuFreqStore};
use macmon_tui::metrics::{
    CpuCoreMetrics, FanMetric, MemMetrics, MemReadout, Ratio, Temp, TempSample,
};
use macmon_tui::stores::{
    FanStore, FreqSample, FreqStore, MemoryStore, PowerStore, RatioSeries, TempStore,
    MAX_SPARKLINE, MAX_TEMPS,
};

fn ratio(value: f64) -> Ratio {
    Ratio {
        bits: value.to_bits(),
        percent: (value * 100.0) as u64,
        text: format!("{:3.0}", value * 100.0),
    }
}

fn measured(die_id: usize, core_id: usize, freq_mhz: u32) -> CpuCoreMetrics {
    CpuCoreMetrics {
        die_id,
        core_id,
        freq_mhz,
        scaled_ratio: ratio(0.5),
        active_ratio: ratio(0.75),
    }
}

fn memory(ram_usage: u64, swap_usage: u64) -> MemMetrics {
    MemMetrics {
        ram_total: 1_000,
        ram_usage,
        swap_total: 500,
        swap_usage,
        readout: MemReadout {
            ram_percent: (ram_usage / 10).to_string(),
            ram_ratio: 0,
            swap_ratio: 0,
        },
    }
}

fn temp(value: f32) -> Temp {
    Temp { bits: value.to_bits(), positive: value > 0.0, text: format!("{value:.1}") }
}

fn ids(store: &CpuFreqStore) -> Vec<(usize, usize)> {
    store.cores.iter().map(|core| (core.id.die_id, core.id.core_id)).collect()
}

#[test]
fn a_zero_share_reads_as_a_float_does() {
    let zero = Ratio::zero();
    let expected = ratio(0.0);
    assert_eq!((zero.bits, zero.percent, zero.text), (expected.bits, expected.percent, expected.text));
}

#[test]
fn shares_are_kept_newest_first() {
    let mut series = RatioSeries::empty();
    for i in 0..200u64 {
        series.push(Ratio { bits: i, percent: i, text: i.to_string() });
    }
    assert_eq!(series.items.len(), MAX_SPARKLINE);
    assert_eq!(series.items[0], 199);
    assert_eq!(series.items[1], 198);
    assert_eq!(series.items[127], 72);
    assert_eq!(series.ratio.text, "199");
}

#[test]
fn both_shares_are_kept_side_by_side() {
    let mut store = FreqStore::empty();
    store.push(FreqSample::new(2_400, ratio(0.25), ratio(0.999)));
    assert_eq!(store.freq_mhz, 2_400);
    assert_eq!(store.ratio(RatioMode::Scaled).items, vec![25]);
    assert_eq!(store.ratio(RatioMode::Active).items, vec![99]);
    assert_eq!(store.ratio(RatioMode::Active).ratio.text, "100");
}

#[test]
fn cores_stay_in_order_and_are_never_lost() {
    let mut store = CpuFreqStore::empty();
    assert!(!store.has_multiple_dies());
    store.push(FreqSample::idle(), &vec![measured(0, 3, 10), measured(1, 0, 20), measured(0, 1, 30)]);
    assert_eq!(ids(&store), vec![(0, 1), (0, 3), (1, 0)]);
    assert!(store.has_multiple_dies());

    store.push(FreqSample::new(5, ratio(0.1), ratio(0.2)), &vec![measured(0, 2, 40), measured(0, 3, 50)]);
    assert_eq!(ids(&store), vec![(0, 1), (0, 2), (0, 3), (1, 0)]);
    assert_eq!(store.aggregate.scaled.items, vec![10, 0]);
    let freqs: Vec<u64> = store.cores.iter().map(|core| core.store.freq_mhz).collect();
    assert_eq!(freqs, vec![0, 40, 50, 0]);
    let histories: Vec<Vec<u64>> =
        store.cores.iter().map(|core| core.store.active.items.clone()).collect();
    assert_eq!(histories, vec![vec![0, 75], vec![75], vec![75, 75], vec![0, 75]]);
    assert_eq!(store.cores[0].store.scaled.ratio.text, "  0");
}

#[test]
fn a_core_that_is_measured_twice_gets_both_samples() {
    let mut store = CpuFreqStore::empty();
    store.push(FreqSample::idle(), &vec![measured(0, 0, 10), measured(0, 0, 20)]);
    assert_eq!(store.cores.len(), 1);
    assert_eq!(store.cores[0].id, CoreId { die_id: 0, core_id: 0 });
    assert_eq!(store.cores[0].store.freq_mhz, 20);
    assert_eq!(store.cores[0].store.scaled.items, vec![50, 50]);
    assert!(!store.has_multiple_dies());
}

#[test]
fn powers_are_summed_up() {
    let mut store = PowerStore::empty();
    assert_eq!(store.latest(), 0);
    assert_eq!(store.top_value, format!("{:.2}", 0.0));
    for value in [100, 700, 400] {
        store.push(value);
    }
    assert_eq!(store.items, vec![400, 700, 100]);
    assert_eq!(store.latest(), 400);
    let totals = store.totals();
    assert_eq!((totals.sum, totals.count, totals.max), (1_200, 3, 700));
    store.show("0.55".to_string(), "0.40".to_string(), "0.70".to_string());
    assert_eq!(store.avg_value, "0.40");
    assert_eq!(store.items.len(), 3);
}

#[test]
fn the_largest_use_of_memory_is_that_of_the_history() {
    let mut store = MemoryStore::empty();
    store.push(memory(900, 30));
    store.push(memory(200, 40));
    assert_eq!(store.items, vec![200, 900]);
    assert_eq!(store.swap_items, vec![40, 30]);
    assert_eq!((store.ram_usage, store.swap_usage), (200, 40));
    assert_eq!((store.max_ram, store.max_swap), (900, 40));
    assert_eq!(store.readout.ram_percent, "20");
    for _ in 0..127 {
        store.push(memory(1, 1));
    }
    assert_eq!(store.items.len(), MAX_SPARKLINE);
    assert_eq!((store.max_ram, store.max_swap), (200, 40));
}

#[test]
fn a_trend_takes_two_temperatures() {
    let mut store = TempStore::empty();
    assert!(store.last().is_none());
    store.push(TempSample { measured: None, trend: Some(temp(1.0)) });
    assert!(store.last().is_none());
    store.push(TempSample { measured: Some(temp(40.0)), trend: None });
    store.push(TempSample { measured: None, trend: Some(temp(2.0)) });
    assert_eq!(store.items.len(), 1);
    store.push(TempSample { measured: Some(temp(50.0)), trend: Some(temp(3.0)) });
    store.push(TempSample { measured: None, trend: Some(temp(48.0)) });
    assert_eq!(store.last().unwrap().text, "48.0");
    store.push(TempSample { measured: None, trend: None });
    assert_eq!(store.items.len(), 3);
    for _ in 0..20 {
        store.push(TempSample { measured: Some(temp(60.0)), trend: None });
    }
    assert_eq!(store.items.len(), MAX_TEMPS);
}

#[test]
fn fans_are_listed() {
    let mut store = FanStore::empty();
    assert_eq!(store.label(), "");
    store.push(vec![FanMetric { rpm: 0 }]);
    assert_eq!(store.label(), "Fan 0 RPM");
    store.push(vec![FanMetric { rpm: 1_200 }, FanMetric { rpm: 1_305 }, FanMetric { rpm: 7 }]);
    assert_eq!(store.label(), "Fans 1200/1305/7 RPM");
}
