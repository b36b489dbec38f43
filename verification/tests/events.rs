use macmon_tui::app::{Action, App, Setting};
use macmon_tui::battery::BatteryStatus;
use macmon_tui::config::{Config, RatioMode, ViewType};
use macmon_tui::event::{
    bar_set, handle_key_event, sample_interval, BarSet, Event, Key, TickClock,
};
use macmon_tui::metrics::{
    CpuCoreMetrics, FanMetric, MemMetrics, MemReadout, Metrics, Ratio, SocInfo, Temp,
    TempSample,
};
use macmon_tui::style::Color;

fn config() -> Config {
    Config {
        color: Color::Green,
        view_type: ViewType::Sparkline,
        ratio_mode: RatioMode::Scaled,
        per_core_view: false,
        interval: 1_000,
    }
}

fn app() -> App {
    let soc = SocInfo {
        chip_name: "Apple M1".to_string(),
        ecpu_cores: 4,
        ecpu_label: "E".to_string(),
        pcpu_cores: 4,
        pcpu_label: "P".to_string(),
        gpu_cores: 8,
        memory_gb: 16,
    };
    App::new(config(), soc)
}

fn ratio(value: f64) -> Ratio {
    Ratio {
        bits: value.to_bits(),
        percent: (value * 100.0) as u64,
        text: format!("{:3.0}", value * 100.0),
    }
}

fn metrics() -> Metrics {
    Metrics {
        cpu_power: 1_500,
        gpu_power: 250,
        all_power: 1_750,
        sys_power: 9_000,
        ecpu_freq_mhz: 1_000,
        ecpu_scaled_ratio: ratio(0.1),
        ecpu_active_ratio: ratio(0.2),
        ecpu_cores: vec![CpuCoreMetrics {
            die_id: 0,
            core_id: 0,
            freq_mhz: 1_000,
            scaled_ratio: ratio(0.1),
            active_ratio: ratio(0.2),
        }],
        pcpu_freq_mhz: 3_000,
        pcpu_scaled_ratio: ratio(0.3),
        pcpu_active_ratio: ratio(0.4),
        pcpu_cores: vec![],
        gpu_freq_mhz: 400,
        gpu_scaled_ratio: ratio(0.5),
        gpu_active_ratio: ratio(0.6),
        cpu_temp: TempSample {
            measured: Some(Temp { bits: 45f32.to_bits(), positive: true, text: "45.0".to_string() }),
            trend: None,
        },
        gpu_temp: TempSample { measured: None, trend: None },
        fans: vec![FanMetric { rpm: 1_200 }],
        memory: MemMetrics {
            ram_total: 16,
            ram_usage: 8,
            swap_total: 4,
            swap_usage: 2,
            readout: MemReadout {
                ram_percent: "50.0".to_string(),
                ram_ratio: 0.5f64.to_bits(),
                swap_ratio: 0.5f64.to_bits(),
            },
        },
    }
}

fn battery(capacity: u8, on_ac_power: bool, energy: Option<u64>) -> BatteryStatus {
    BatteryStatus {
        capacity,
        is_charging: false,
        on_ac_power,
        charging_paused: false,
        adapter_watts: None,
        input_power_mw: None,
        remaining_energy_mwh: energy,
    }
}

fn key(character: char, control: bool) -> Option<Event> {
    handle_key_event(Key { character: Some(character), control })
}

#[test]
fn keys_ask_for_events() {
    assert!(matches!(key('q', false), Some(Event::Quit)));
    assert!(matches!(key('q', true), Some(Event::Quit)));
    assert!(matches!(key('c', true), Some(Event::Quit)));
    assert!(matches!(key('c', false), Some(Event::ChangeColor)));
    assert!(matches!(key('v', false), Some(Event::ChangeView)));
    assert!(matches!(key('d', false), Some(Event::TogglePerCore)));
    assert!(matches!(key('r', false), Some(Event::ToggleRatioMode)));
    assert!(matches!(key('?', false), Some(Event::ToggleHelp)));
    assert!(matches!(key('+', false), Some(Event::IncInterval)));
    assert!(matches!(key('=', false), Some(Event::IncInterval)));
    assert!(matches!(key('-', false), Some(Event::DecInterval)));
    assert!(key('Q', false).is_none());
    assert!(handle_key_event(Key { character: None, control: true }).is_none());
}

#[test]
fn ticks_come_at_their_rate() {
    let mut clock = TickClock { last_tick: 100, tick_rate: 250 };
    assert!(!clock.due(349));
    assert!(clock.due(350));
    assert!(!clock.due(0));
    clock.ticked(400);
    assert!(!clock.due(649));
    assert!(clock.due(650));
}

#[test]
fn intervals_have_bounds() {
    assert_eq!(sample_interval(50, 100), 100);
    assert_eq!(sample_interval(100, 100), 100);
    assert_eq!(sample_interval(500, 100), 500);
    let mut app = app();
    assert_eq!(app.start(None, 100, 10_000), 1_000);
    assert_eq!(app.start(Some(20), 100, 10_000), 100);
    assert_eq!(app.cfg.interval, 100);
    assert_eq!(app.start(Some(20_000), 100, 10_000), 10_000);
    assert_eq!(app.start(Some(750), 100, 10_000), 750);
    assert_eq!(app.cfg.interval, 750);
}

#[test]
fn the_terminal_decides_on_the_bars() {
    assert_eq!(bar_set(Some("Apple_Terminal")), BarSet::ThreeLevels);
    assert_eq!(bar_set(Some("iTerm.app")), BarSet::NineLevels);
    assert_eq!(bar_set(Some("")), BarSet::NineLevels);
    assert_eq!(bar_set(None), BarSet::NineLevels);
}

#[test]
fn events_lead_to_actions() {
    let mut app = app();
    assert_eq!(app.handle_event(Event::Quit), Action::Quit);
    assert_eq!(app.handle_event(Event::Tick), Action::Continue);
    assert_eq!(app.handle_event(Event::ChangeColor), Action::Change(Setting::NextColor));
    assert_eq!(app.handle_event(Event::ChangeView), Action::Change(Setting::NextViewType));
    assert_eq!(app.handle_event(Event::TogglePerCore), Action::Change(Setting::TogglePerCoreView));
    assert_eq!(app.handle_event(Event::ToggleRatioMode), Action::Change(Setting::ToggleRatioMode));
    assert_eq!(app.handle_event(Event::IncInterval), Action::Change(Setting::IncInterval));
    assert_eq!(app.handle_event(Event::DecInterval), Action::Change(Setting::DecInterval));
    assert!(!app.show_help);
    assert_eq!(app.handle_event(Event::ToggleHelp), Action::Continue);
    assert!(app.show_help);
    assert_eq!(app.handle_event(Event::ToggleHelp), Action::Continue);
    assert!(!app.show_help);

    let status = battery(50, false, None);
    let action = app.handle_event(Event::Update(Box::new(metrics()), Some(status)));
    assert_eq!(action, Action::TakeBattery(Some(status)));
    assert_eq!(app.cpu_power.items, vec![1_500]);
}

#[test]
fn a_new_interval_is_handed_back() {
    let mut app = app();
    let cfg = Config { interval: 1_250, ..config() };
    assert_eq!(app.apply_config(Setting::IncInterval, cfg), Some(1_250));
    assert_eq!(app.cfg.interval, 1_250);
    assert_eq!(app.apply_config(Setting::DecInterval, config()), Some(1_000));
    let cfg = Config { color: Color::Red, ..config() };
    assert_eq!(app.apply_config(Setting::NextColor, cfg), None);
    assert_eq!(app.cfg.color, Color::Red);
}

#[test]
fn a_measurement_reaches_every_store() {
    let mut app = app();
    app.update_metrics(metrics());
    assert_eq!(app.cpu_power.items, vec![1_500]);
    assert_eq!(app.gpu_power.items, vec![250]);
    assert_eq!(app.all_power.items, vec![1_750]);
    assert_eq!(app.sys_power.items, vec![9_000]);
    assert_eq!(app.ecpu_freq.aggregate.freq_mhz, 1_000);
    assert_eq!(app.ecpu_freq.aggregate.scaled.items, vec![10]);
    assert_eq!(app.ecpu_freq.cores.len(), 1);
    assert_eq!(app.pcpu_freq.aggregate.active.items, vec![40]);
    assert_eq!(app.pcpu_freq.cores.len(), 0);
    assert_eq!(app.igpu_freq.freq_mhz, 400);
    assert_eq!(app.igpu_freq.active.items, vec![60]);
    assert_eq!(app.cpu_temp.items.len(), 1);
    assert_eq!(app.gpu_temp.items.len(), 0);
    assert_eq!(app.fans.label(), "Fan 1200 RPM");
    assert_eq!(app.mem.items, vec![8]);
    assert_eq!(app.mem.swap_items, vec![2]);
}

#[test]
fn the_runtime_is_worked_out_when_the_bar_changes() {
    let mut app = app();
    app.update_battery(Some(battery(79, false, Some(46_667))), 1, None, 0);
    assert_eq!(app.battery_runtime, "2h20m@20W 56m@50W 28m@99W");
    app.update_battery(Some(battery(81, false, Some(10_000))), 2, None, 0);
    assert_eq!(app.battery_runtime, "2h20m@20W 56m@50W 28m@99W");
    app.update_battery(Some(battery(82, false, Some(10_000))), 3, None, 0);
    assert_eq!(app.battery_runtime, "30m@20W 12m@50W 6m@99W");
    app.update_battery(Some(battery(82, true, Some(10_000))), 4, None, 0);
    assert_eq!(app.battery_runtime, "");
    app.update_battery(Some(battery(50, false, None)), 5, None, 0);
    assert_eq!(app.battery_runtime, "");
    assert_eq!(app.battery_runtime_key, Some((16, None)));
    app.update_battery(None, 6, None, 0);
    assert_eq!(app.battery_runtime_key, None);
    assert!(app.battery.is_none());
    assert_eq!(app.battery_timer.elapsed, 1);
}
