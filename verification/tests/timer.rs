use std::time::Duration;

use macmon_tui::battery::{battery_time_label, BatteryStatus};
use macmon_tui::timer::{BatteryTimer, Scaling, DURATION_MAX};

const START: u128 = 7_000_000_000_000;

fn battery(capacity: u8, is_charging: bool, on_ac_power: bool) -> BatteryStatus {
    BatteryStatus {
        capacity,
        is_charging,
        on_ac_power,
        charging_paused: false,
        adapter_watts: None,
        input_power_mw: None,
        remaining_energy_mwh: None,
    }
}

fn secs(seconds: u64) -> u128 {
    Duration::from_secs(seconds).as_nanos()
}

fn scale(scaling: Scaling) -> u128 {
    let seconds = (scaling.elapsed / 1_000_000_000) as u64;
    let nanos = (scaling.elapsed % 1_000_000_000) as u32;
    Duration::new(seconds, nanos)
        .mul_f64(f64::from(scaling.part) / f64::from(scaling.whole))
        .as_nanos()
}

fn update(
    timer: &mut BatteryTimer,
    sample: Option<BatteryStatus>,
    now: u128,
    configured_target: Option<u8>,
) {
    let scaled = timer.update_scaling(sample, now, configured_target).map_or(0, scale);
    timer.update(sample, now, configured_target, scaled);
}

#[test]
fn scales_battery_time_across_partial_charges() {
    assert_eq!(battery_time_label(0), "On battery 0m");
    assert_eq!(battery_time_label(secs(83 * 60)), "On battery 1h23m");

    let start = START;
    let mut timer = BatteryTimer::default();
    update(&mut timer, Some(battery(80, false, false)), start, None);
    update(&mut timer, Some(battery(80, false, false)), start + secs(60 * 60), None);
    update(&mut timer, Some(battery(80, true, true)), start + secs(60 * 60), Some(100));
    update(&mut timer, Some(battery(90, true, true)), start + secs(70 * 60), None);
    assert_eq!(timer.elapsed, secs(30 * 60));
    assert_eq!(timer.elapsed_at(start + secs(70 * 60)), None);

    update(&mut timer, Some(battery(90, false, false)), start + secs(70 * 60), None);
    assert_eq!(timer.elapsed_at(start + secs(85 * 60)), Some(secs(45 * 60)));
}

#[test]
fn honors_explicit_charge_targets_and_full_charge() {
    let start = START;
    let mut timer = BatteryTimer::default();
    update(&mut timer, Some(battery(80, false, false)), start, None);
    update(&mut timer, Some(battery(80, false, false)), start + secs(60 * 60), None);
    update(&mut timer, Some(battery(80, true, true)), start + secs(60 * 60), Some(90));
    update(&mut timer, Some(battery(85, true, true)), start + secs(65 * 60), None);
    assert_eq!(timer.elapsed, secs(30 * 60));
    update(&mut timer, Some(battery(90, false, true)), start + secs(70 * 60), None);
    assert_eq!(timer.elapsed, 0);

    let mut timer = BatteryTimer { elapsed: secs(60 * 60), ..Default::default() };
    update(&mut timer, Some(battery(95, true, true)), start, Some(100));
    update(&mut timer, Some(battery(100, false, true)), start + secs(5 * 60), None);
    assert_eq!(timer.elapsed, 0);
}

#[test]
fn learns_only_stable_effective_full_holds() {
    let start = START;
    let mut timer = BatteryTimer { elapsed: secs(60 * 60), ..Default::default() };
    let mut paused = battery(80, false, true);
    paused.charging_paused = true;

    update(&mut timer, Some(paused), start, None);
    update(&mut timer, Some(paused), start + secs(4 * 60 + 59), None);
    assert_eq!(timer.elapsed, secs(60 * 60));
    update(&mut timer, Some(battery(80, true, true)), start + secs(5 * 60), None);
    assert_eq!(timer.learned_target, None);

    update(&mut timer, Some(paused), start + secs(6 * 60), None);
    update(&mut timer, Some(paused), start + secs(11 * 60), None);
    assert_eq!(timer.learned_target, Some(80));
    assert_eq!(timer.elapsed, 0);
}

#[test]
fn charging_past_a_learned_target_uses_full_capacity() {
    let start = START;
    let mut timer = BatteryTimer {
        elapsed: secs(60 * 60),
        learned_target: Some(80),
        ..Default::default()
    };
    update(&mut timer, Some(battery(80, true, true)), start, None);
    assert_eq!(timer.elapsed, secs(60 * 60));
    assert_eq!(timer.charge.unwrap().target, 100);
}

#[test]
fn missing_battery_samples_freeze_and_hide_time() {
    let start = START;
    let mut timer = BatteryTimer::default();
    update(&mut timer, Some(battery(70, false, false)), start, None);
    update(&mut timer, None, start + secs(10 * 60), None);
    assert_eq!(timer.elapsed_at(start + secs(40 * 60)), None);

    update(&mut timer, Some(battery(69, false, false)), start + secs(40 * 60), None);
    assert_eq!(timer.elapsed_at(start + secs(45 * 60)), Some(secs(15 * 60)));
}

#[test]
fn only_the_first_sample_on_external_power_enters_it() {
    let mut timer = BatteryTimer::default();
    assert!(timer.entering_ac(Some(battery(50, true, true))));
    assert!(!timer.entering_ac(Some(battery(50, false, false))));
    assert!(!timer.entering_ac(None));
    update(&mut timer, Some(battery(50, true, true)), START, None);
    assert!(!timer.entering_ac(Some(battery(51, true, true))));
    update(&mut timer, None, START + 1, None);
    assert!(!timer.entering_ac(Some(battery(51, true, true))));
    update(&mut timer, Some(battery(51, false, false)), START + 2, None);
    assert!(timer.entering_ac(Some(battery(51, true, true))));
}

#[test]
fn targets_outside_the_range_are_passed_over() {
    for (configured, learned, target, is_learned) in [
        (Some(79), None, 100, false),
        (Some(80), Some(90), 80, false),
        (Some(101), Some(90), 90, true),
        (None, Some(90), 90, true),
        (None, Some(69), 100, false),
        (None, None, 100, false),
    ] {
        let mut timer = BatteryTimer { learned_target: learned, ..Default::default() };
        update(&mut timer, Some(battery(70, true, true)), START, configured);
        let charge = timer.charge.unwrap();
        assert_eq!((charge.target, charge.learned_target), (target, is_learned));
    }
}

#[test]
fn scaling_is_the_share_that_is_left() {
    let mut timer = BatteryTimer { elapsed: secs(1_000), ..Default::default() };
    update(&mut timer, Some(battery(60, true, true)), START, None);
    let scaling = timer.update_scaling(Some(battery(70, true, true)), START + secs(60), None);
    assert_eq!(scaling, Some(Scaling { elapsed: secs(1_000), part: 30, whole: 40 }));
    assert_eq!(scaling, timer.charge_scaling(battery(70, true, true)));
    assert_eq!(timer.update_scaling(Some(battery(100, true, true)), START + secs(60), None), None);
    assert_eq!(timer.update_scaling(None, START + secs(60), None), None);

    // A scaling that comes to more than there is takes nothing off.
    timer.update(Some(battery(50, false, true)), START + secs(60), None, secs(2_000));
    assert_eq!(timer.elapsed, secs(1_000));
    timer.apply_charge(battery(70, true, true), secs(750));
    assert_eq!(timer.elapsed, secs(750));
}

#[test]
fn unplugging_keeps_the_time_left() {
    let mut timer = BatteryTimer { elapsed: secs(900), ..Default::default() };
    update(&mut timer, Some(battery(60, true, true)), START, None);
    update(&mut timer, Some(battery(71, true, true)), START + secs(60), None);
    let left = timer.elapsed;
    update(&mut timer, Some(battery(71, false, false)), START + secs(90), None);
    assert_eq!(timer.elapsed_at(START + secs(90)), Some(left));
    assert!(timer.charge.is_none());
}

#[test]
fn a_hold_starts_over_at_another_charge() {
    let mut timer = BatteryTimer::default();
    let mut paused = battery(80, false, true);
    paused.charging_paused = true;
    update(&mut timer, Some(paused), START, None);
    update(&mut timer, Some(paused), START + secs(299), None);
    assert_eq!(timer.hold.unwrap().elapsed, secs(299));
    paused.capacity = 81;
    update(&mut timer, Some(paused), START + secs(400), None);
    assert_eq!(timer.hold.unwrap().capacity, 81);
    assert_eq!(timer.hold.unwrap().elapsed, 0);
    assert_eq!(timer.learned_target, None);
    update(&mut timer, Some(paused), START + secs(700), None);
    assert_eq!(timer.learned_target, Some(81));
    let charge = timer.charge.unwrap();
    assert_eq!((charge.target, charge.learned_target), (81, true));
    paused.capacity = 100;
    update(&mut timer, Some(paused), START + secs(701), None);
    assert!(timer.hold.is_none());
}

#[test]
fn the_clock_may_run_backwards() {
    let mut timer = BatteryTimer::default();
    update(&mut timer, Some(battery(70, false, false)), START, None);
    assert_eq!(timer.elapsed_at(START - 5), Some(0));
    update(&mut timer, Some(battery(70, false, false)), START - 5, None);
    assert_eq!(timer.elapsed, 0);
    assert_eq!(timer.elapsed_at(START), Some(5));
}

#[test]
fn the_longest_duration_is_that_of_the_standard_library() {
    assert_eq!(DURATION_MAX, Duration::MAX.as_nanos());
}
