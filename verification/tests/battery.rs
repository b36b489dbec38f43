use macmon_tui::battery::{
    battery_bar, battery_color, battery_label, battery_runtime, battery_runtime_key, battery_steps,
    battery_time_label, format_minutes, format_runtime, power_label, BatteryStatus,
};
use macmon_tui::style::{Color, Span};

fn battery(capacity: u8, is_charging: bool, on_ac_power: bool) -> BatteryStatus {
    BatteryStatus {
        capacity,
        is_charging,
        on_ac_power,
        charging_paused: false,
        adapter_watts: None,
        input_power_mw: None,
        remaining_energy_mwh: None,
    }
}

fn text(line: &[Span]) -> String {
    line.iter().map(|span| span.content.as_str()).collect::<String>()
}

#[test]
fn renders_battery_levels_and_colors() {
    for (capacity, expected) in [
        (0, "▕    ▏"),
        (1, "▕    ▏"),
        (15, "▕▌   ▏"),
        (25, "▕█   ▏"),
        (50, "▕██  ▏"),
        (75, "▕███ ▏"),
        (99, "▕███▉▏"),
        (100, "▕████"),
    ] {
        assert_eq!(battery_bar(capacity), expected);
    }

    assert_eq!(battery_color(battery(25, false, false), Color::Blue), Color::Red);
    assert_eq!(battery_color(battery(26, false, false), Color::Blue), Color::Yellow);
    assert_eq!(battery_color(battery(49, false, false), Color::Blue), Color::Yellow);
    assert_eq!(battery_color(battery(50, false, false), Color::Blue), Color::Blue);
    assert_eq!(battery_color(battery(10, true, true), Color::Blue), Color::Green);

    let base = battery(79, false, false);
    assert_eq!(text(&battery_label(base, Color::Green, "")), " ▕███▏▏ ");
    let charging = battery_label(battery(79, true, true), Color::Blue, "");
    assert_eq!(text(&charging), " ▕███▏▏ 79% ⚡ ");
    assert_eq!(charging[0].color, Some(Color::Green));
    assert_eq!(charging[1].color, Some(Color::Blue));
    assert_eq!(charging[2].color, Some(Color::Green));

    let low = battery_label(battery(15, true, false), Color::Green, "");
    assert_eq!(text(&low), " ▕▌   ▏ 15% ⚡ ");
    assert_eq!(low[0].color, Some(Color::Red));
    assert_eq!(low[1].color, Some(Color::Green));
    assert_eq!(text(&battery_label(battery(16, false, false), Color::Green, "")), " ▕▋   ▏ ");

    let mut powered = battery(15, false, true);
    powered.input_power_mw = Some(10_000);
    assert_eq!(text(&battery_label(powered, Color::Green, "")), " ▕▌   ▏ 15% ⚡ ");
    assert_eq!(text(&battery_label(battery(100, true, true), Color::Blue, "")), " ▕████ ⚡ ");

    let mut adapter = battery(50, true, true);
    assert_eq!(power_label(Some(adapter)), "AC connected");
    adapter.adapter_watts = Some(65);
    assert_eq!(power_label(Some(adapter)), "AC 65W");
    adapter.input_power_mw = Some(46_355);
    assert_eq!(power_label(Some(adapter)), "AC 46/65W");
    adapter.adapter_watts = None;
    assert_eq!(power_label(Some(adapter)), "AC 46W");
    assert_eq!(power_label(Some(battery(50, false, false))), "");
}

#[test]
fn predicts_runtime_at_visible_battery_granularity() {
    assert_eq!(format_runtime(46_667, 20), "2h20m");
    assert_eq!(battery_runtime(46_667), "2h20m@20W 56m@50W 28m@99W");
    assert_eq!(
        battery_runtime_key(battery(79, false, false)),
        battery_runtime_key(battery(81, false, false))
    );
    assert_ne!(
        battery_runtime_key(battery(81, false, false)),
        battery_runtime_key(battery(82, false, false))
    );
    assert_ne!(
        battery_runtime_key(battery(14, false, false)),
        battery_runtime_key(battery(15, false, false))
    );
    assert_eq!(battery_runtime_key(battery(50, false, true)), None);

    assert_eq!(
        text(&battery_label(battery(79, false, false), Color::Green, "2h20m@20W")),
        " ▕███▏▏ 2h20m@20W "
    );
}

#[test]
fn bar_shows_each_eighth() {
    for (capacity, expected) in [
        (3, "▕    ▏"),
        (4, "▕▏   ▏"),
        (7, "▕▎   ▏"),
        (10, "▕▍   ▏"),
        (13, "▕▌   ▏"),
        (16, "▕▋   ▏"),
        (19, "▕▊   ▏"),
        (22, "▕▉   ▏"),
        (255, "▕████"),
    ] {
        assert_eq!(battery_bar(capacity), expected);
    }
    assert_eq!(battery_steps(99), 31);
    assert_eq!(battery_steps(100), 32);
    assert_eq!(battery_steps(200), 32);
}

#[test]
fn same_key_means_same_bar() {
    for a in 0..=100u8 {
        for b in 0..=100u8 {
            let same_key = battery_runtime_key(battery(a, false, false))
                == battery_runtime_key(battery(b, false, false));
            let low = a <= 15 || b <= 15;
            assert_eq!(same_key, battery_bar(a) == battery_bar(b) && (!low || a == b));
        }
    }
}

#[test]
fn last_span_of_the_line_is_plain() {
    let line = battery_label(battery(60, false, false), Color::Cyan, "1h00m@20W");
    assert_eq!(line.len(), 3);
    assert_eq!(line[1].content, " 1h00m@20W");
    assert_eq!(line[1].color, Some(Color::Cyan));
    assert_eq!(line[2].content, " ");
    assert_eq!(line[2].color, None);
}

#[test]
fn minutes_and_hours() {
    assert_eq!(format_minutes(0), "0m");
    assert_eq!(format_minutes(59), "59m");
    assert_eq!(format_minutes(60), "1h00m");
    assert_eq!(format_minutes(125), "2h05m");
    assert_eq!(format_minutes(u64::MAX), "307445734561825860h15m");
    assert_eq!(battery_time_label(59_999_999_999), "On battery 0m");
    assert_eq!(battery_time_label(60_000_000_000), "On battery 1m");
}

#[test]
fn runtime_is_cut_off_at_the_largest_energy() {
    assert_eq!(format_runtime(u64::MAX, 1), format_minutes(u64::MAX / 1000));
    assert_eq!(format_runtime(0, 99), "0m");
    assert_eq!(format_runtime(1_000, 60), "1m");
}

#[test]
fn watts_are_rounded_as_a_float_is() {
    let mut status = battery(50, true, true);
    for milliwatts in [0, 1, 499, 500, 501, 1_499, 1_500, 2_500, 3_500, 99_500, u32::MAX] {
        status.input_power_mw = Some(milliwatts);
        let watts = f64::from(milliwatts) / 1000.0;
        assert_eq!(power_label(Some(status)), format!("AC {watts:.0}W"));
    }
    assert_eq!(power_label(None), "");
}
