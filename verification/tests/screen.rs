use macmon_tui::app::App;
use macmon_tui::battery::BatteryStatus;
use macmon_tui::config::{Config, RatioMode, ViewType};
use macmon_tui::cores::CpuFreqStore;
use macmon_tui::draw::Draw;
use macmon_tui::geometry::{h_stack, Rect};
use macmon_tui::metrics::{
    CpuCoreMetrics, FanMetric, MemMetrics, MemReadout, Metrics, Ratio, SocInfo, Temp,
    TempSample,
};
use macmon_tui::style::Color;

const NOW: u128 = 5_000_000_000;

fn rect(x: u16, y: u16, width: u16, height: u16) -> Rect {
    Rect { x, y, width, height }
}

fn ratio(value: f64) -> Ratio {
    Ratio {
        bits: value.to_bits(),
        percent: (value * 100.0) as u64,
        text: format!("{:3.0}", value * 100.0),
    }
}

fn measured(die_id: usize, core_id: usize, value: f64) -> CpuCoreMetrics {
    CpuCoreMetrics {
        die_id,
        core_id,
        freq_mhz: 900,
        scaled_ratio: ratio(value),
        active_ratio: ratio(value),
    }
}

fn metrics(swap_total: u64) -> Metrics {
    Metrics {
        cpu_power: 1_500,
        gpu_power: 250,
        all_power: 1_750,
        sys_power: 9_000,
        ecpu_freq_mhz: 972,
        ecpu_scaled_ratio: ratio(0.07),
        ecpu_active_ratio: ratio(0.2),
        ecpu_cores: vec![measured(0, 1, 0.25), measured(0, 0, 1.0)],
        pcpu_freq_mhz: 3_204,
        pcpu_scaled_ratio: ratio(0.3),
        pcpu_active_ratio: ratio(0.4),
        pcpu_cores: vec![measured(0, 0, 0.5), measured(1, 10, 0.5)],
        gpu_freq_mhz: 400,
        gpu_scaled_ratio: ratio(0.5),
        gpu_active_ratio: ratio(0.625),
        cpu_temp: TempSample {
            measured: Some(Temp { bits: 45.5f32.to_bits(), positive: true, text: "45.5".to_string() }),
            trend: None,
        },
        gpu_temp: TempSample { measured: None, trend: None },
        fans: vec![FanMetric { rpm: 1_200 }],
        memory: MemMetrics {
            ram_total: 17_179_869_184,
            ram_usage: 9_663_676_416,
            swap_total,
            swap_usage: 536_870_912,
            readout: MemReadout {
                ram_percent: "56.2".to_string(),
                ram_ratio: 0.5625f64.to_bits(),
                swap_ratio: 0.25f64.to_bits(),
            },
        },
    }
}

fn app(view_type: ViewType, per_core_view: bool) -> App {
    let cfg = Config {
        color: Color::Green,
        view_type,
        ratio_mode: RatioMode::Scaled,
        per_core_view,
        interval: 1_000,
    };
    let soc = SocInfo {
        chip_name: "Apple M1 Pro".to_string(),
        ecpu_cores: 2,
        ecpu_label: "E".to_string(),
        pcpu_cores: 8,
        pcpu_label: "P".to_string(),
        gpu_cores: 16,
        memory_gb: 32,
    };
    let mut app = App::new(cfg, soc);
    app.update_metrics(metrics(2_147_483_648));
    app.cpu_power.show("1.50".to_string(), "1.50".to_string(), "1.50".to_string());
    app.all_power.show("1.75".to_string(), "1.74".to_string(), "1.76".to_string());
    app
}

/// Where a piece stands, and the texts that it shows.
fn summary(draw: &Draw) -> (Rect, Vec<String>) {
    let (area, block, mut texts) = match draw {
        Draw::Frame { area, block } => (*area, Some(block), vec![]),
        Draw::Sparkline { area, block, .. } => (*area, block.as_ref(), vec![]),
        Draw::Gauge { area, block, label, .. } => {
            (*area, block.as_ref(), vec![label.content.clone()])
        }
        Draw::Label { area, label } => (*area, None, vec![label.content.clone()]),
        Draw::Clear { area } => (*area, None, vec![]),
        Draw::Text { area, text, block, .. } => (*area, Some(block), vec![text.clone()]),
    };
    if let Some(block) = block {
        texts.extend(block.top_left.clone());
        texts.extend(block.top_right.clone());
        if let Some(spans) = &block.bottom_left {
            texts.push(spans.iter().map(|span| span.content.as_str()).collect());
        }
        texts.extend(block.bottom_right.clone());
    }
    (area, texts)
}

fn texts(draw: &Draw) -> Vec<String> {
    summary(draw).1
}

#[test]
fn an_area_is_cut_in_half() {
    assert_eq!(h_stack(rect(2, 3, 10, 5)), (rect(2, 3, 5, 5), rect(7, 3, 5, 5)));
}

#[test]
fn everything_has_its_place() {
    let app = app(ViewType::Sparkline, true);
    let panes = app.place(rect(0, 0, 82, 32));
    assert_eq!(panes.upper.y, 0);
    assert_eq!(panes.upper.height + panes.lower.height, 32);
    assert_eq!(panes.lower.y, panes.upper.height);
    assert_eq!(panes.ecpu, rect(1, 1, 40, panes.first_row.height));
    assert_eq!(panes.pcpu, rect(41, 1, 40, panes.first_row.height));
    assert_eq!(panes.mem.y, 1 + panes.first_row.height);
    assert_eq!(panes.first_row.height + panes.second_row.height, panes.upper.height - 2);
    assert_eq!(panes.ecpu_cores.len(), 2);
    assert_eq!(panes.ecpu_cores[0].x, 2);
    assert_eq!(panes.ecpu_cores[0].width, 38);
    assert_eq!(panes.pcpu_cores.len(), 2);
    assert_eq!(panes.mem_sections.len(), 2);
    assert_eq!(panes.cpu_power.y, panes.lower.y + 1);
    assert_eq!(panes.cpu_power.height, panes.lower.height - 2);
    assert_eq!(panes.cpu_power.width + panes.gpu_power.width + panes.sys_power.width, 80);
}

#[test]
fn there_are_no_rows_without_detail() {
    let mut app = app(ViewType::Gauge, false);
    let panes = app.place(rect(0, 0, 82, 32));
    assert_eq!((panes.ecpu_cores.len(), panes.mem_sections.len()), (0, 0));
    app.cfg.per_core_view = true;
    app.update_metrics(metrics(0));
    assert_eq!(app.place(rect(0, 0, 82, 32)).mem_sections.len(), 1);
    // No screen is too small to find a place on.
    let panes = app.place(rect(0, 0, 0, 0));
    assert_eq!(panes.upper, rect(0, 0, 0, 0));
    assert_eq!(panes.ecpu_cores.len(), 2);
}

#[test]
fn the_plain_screen_shows_every_title() {
    let app = app(ViewType::Sparkline, false);
    let draws = app.render(rect(0, 0, 100, 40), NOW, "monitor", "1.2.3");
    let shown: Vec<Vec<String>> = draws.iter().map(texts).collect();
    assert_eq!(shown.len(), 9);
    assert_eq!(shown[0], vec![" Apple M1 Pro (2E+8P+16GPU 32GB) ", " monitor v1.2.3 "]);
    assert_eq!(shown[1], vec![" E-CPU   7% @  972 MHz "]);
    assert_eq!(shown[2], vec![" P-CPU  30% @ 3204 MHz "]);
    assert_eq!(shown[3], vec![" RAM 9.00 / 16.0 GB (56.2%) ", " SWAP 0.50 / 2.0 GB "]);
    assert_eq!(shown[4], vec![" GPU  50% @  400 MHz "]);
    assert_eq!(shown[5], vec![" Power: 1.75W (avg 1.74W, max 1.76W) ", " Fan 1200 RPM ", " ? "]);
    assert_eq!(shown[6], vec![" CPU 1.50W (1.50, 1.50) ", " 45.5°C "]);
    assert_eq!(shown[7], vec![" GPU 0.00W (0.00, 0.00) "]);
    assert_eq!(shown[8], vec![" Total 0.00W (0.00, 0.00) "]);
    match &draws[1] {
        Draw::Sparkline { data, max, color, .. } => {
            assert_eq!((data.as_slice(), *max, *color), (&[7u64][..], Some(100), Color::Green));
        }
        _ => panic!("no chart"),
    }
    match &draws[6] {
        Draw::Sparkline { data, max, .. } => {
            assert_eq!((data.as_slice(), *max), (&[1_500u64][..], None));
        }
        _ => panic!("no chart"),
    }
}

#[test]
fn gauges_carry_the_share() {
    let mut app = app(ViewType::Gauge, false);
    app.cfg.ratio_mode = RatioMode::Active;
    let draws = app.render(rect(0, 0, 100, 40), NOW, "monitor", "1.2.3");
    match &draws[4] {
        Draw::Gauge { ratio, label, .. } => {
            assert_eq!(f64::from_bits(*ratio), 0.625);
            assert_eq!(label.content, "");
        }
        _ => panic!("no gauge"),
    }
    match &draws[3] {
        Draw::Gauge { ratio, .. } => assert_eq!(f64::from_bits(*ratio), 0.5625),
        _ => panic!("no gauge"),
    }
    // `{:3.0}` rounds a half to the even number.
    assert_eq!(texts(&draws[4])[1], " GPU  62% @  400 MHz ");
}

#[test]
fn the_detailed_screen_shows_every_core() {
    let app = app(ViewType::Sparkline, true);
    let panes = app.place(rect(0, 0, 100, 40));
    let draws = app.render_panes(rect(0, 0, 100, 40), &panes, NOW, "monitor", "1.2.3");
    let shown: Vec<(Rect, Vec<String>)> = draws.iter().map(summary).collect();
    assert_eq!(shown[1].1, vec![" E-CPU   7% @  972 MHz (2 cores) "]);
    assert_eq!(shown[1].0, panes.ecpu);

    let row = panes.ecpu_cores[0];
    assert_eq!(shown[2].1, vec!["Core 0 100%"]);
    assert_eq!(shown[2].0, Rect { width: 12, height: 1, ..row });
    assert_eq!(shown[3].0, Rect { x: row.x + 12, width: row.width - 12, ..row });
    assert_eq!(shown[4].1, vec!["Core 1  25%"]);
    // Where there are several dies they are named.
    assert_eq!(shown[6].1, vec![" P-CPU  30% @ 3204 MHz (2 cores) "]);
    assert_eq!(shown[7].1, vec!["D0 Core 0  50%"]);
    assert_eq!(shown[9].1, vec!["D1 Core 10  50%"]);
    assert_eq!(shown[11].1, vec![" Memory "]);
    assert_eq!(shown[12].1, vec!["RAM 9.00/16.0 GB"]);
    assert_eq!(shown[14].1, vec!["SWAP 0.50/ 2.0 GB"]);
    assert_eq!(shown[16].1, vec![" GPU  50% @  400 MHz "]);
    assert_eq!(shown.len(), 21);
    match &draws[15] {
        Draw::Sparkline { max, .. } => assert_eq!(*max, Some(2_147_483_648)),
        _ => panic!("no chart"),
    }
}

#[test]
fn a_label_without_room_is_left_out() {
    let app = app(ViewType::Sparkline, true);
    let mut draws = Vec::new();
    let narrow = rect(3, 4, 11, 1);
    app.render_cores(&mut draws, rect(0, 0, 20, 9), "E-CPU", &app.ecpu_freq, &vec![narrow]);
    // There is an area for one of the two cores only.
    assert_eq!(draws.len(), 2);
    assert_eq!(summary(&draws[1]), (narrow, vec![]));

    let mut draws = Vec::new();
    let wide = rect(3, 4, 12, 1);
    app.render_cores(&mut draws, rect(0, 0, 20, 9), "E-CPU", &app.ecpu_freq, &vec![wide]);
    assert_eq!(summary(&draws[1]), (rect(3, 4, 12, 1), vec!["Core 0 100%".to_string()]));
    assert_eq!(summary(&draws[2]), (rect(15, 4, 0, 1), vec![]));
}

#[test]
fn labels_of_gauges_stand_out() {
    let app = app(ViewType::Gauge, true);
    let draws = app.render(rect(0, 0, 100, 40), NOW, "monitor", "1.2.3");
    match &draws[2] {
        Draw::Gauge { label, .. } => assert_eq!(label.color, None),
        _ => panic!("no gauge"),
    }
    match (&draws[8], &draws[9]) {
        (Draw::Gauge { label: ram, .. }, Draw::Gauge { label: swap, ratio, .. }) => {
            assert_eq!((ram.content.as_str(), ram.color), ("RAM 9.00/16.0 GB", Some(Color::Black)));
            assert_eq!(swap.color, Some(Color::Green));
            assert_eq!(f64::from_bits(*ratio), 0.25);
        }
        _ => panic!("no gauges"),
    }
}

#[test]
fn the_lower_frame_shows_the_supply() {
    let mut app = app(ViewType::Sparkline, false);
    let mut status = BatteryStatus {
        capacity: 79,
        is_charging: false,
        on_ac_power: false,
        charging_paused: false,
        adapter_watts: Some(65),
        input_power_mw: None,
        remaining_energy_mwh: Some(46_667),
    };
    app.update_battery(Some(status), 1_000, None, 0);
    let later = 1_000 + 83 * 60_000_000_000;
    let draws = app.render(rect(0, 0, 100, 40), later, "monitor", "1.2.3");
    assert_eq!(
        texts(&draws[5]),
        vec![
            " Power: 1.75W (avg 1.74W, max 1.76W) ",
            " On battery 1h23m | Fan 1200 RPM ",
            " ▕███▏▏ 2h20m@20W 56m@50W 28m@99W ",
            " ? ",
        ]
    );

    status.on_ac_power = true;
    app.update_battery(Some(status), later, None, 0);
    let draws = app.render(rect(0, 0, 100, 40), later, "monitor", "1.2.3");
    assert_eq!(texts(&draws[5])[1], " AC 65W | Fan 1200 RPM ");
    assert_eq!(texts(&draws[5])[2], " ▕███▏▏ ");
}

#[test]
fn help_is_laid_over_the_middle() {
    let mut app = app(ViewType::Sparkline, false);
    app.show_help = true;
    let draws = app.render(rect(10, 20, 100, 41), NOW, "monitor", "1.2.3");
    assert_eq!(draws.len(), 11);
    let popup = rect(10 + 34, 20 + 15, 32, 10);
    assert!(matches!(&draws[9], Draw::Clear { area } if *area == popup));
    let (area, shown) = summary(&draws[10]);
    assert_eq!(area, popup);
    assert_eq!(
        shown[0],
        "?           toggle help\n\
         q / Ctrl-C  quit\n\
         c           change color\n\
         v           change chart type\n\
         d           toggle detail view\n\
         r           change ratio mode\n\
         + / =       increase interval\n\
         -           decrease interval"
    );
    assert_eq!(shown[1], " Help ");

    // On a small screen it takes up all there is.
    let draws = app.render(rect(1, 2, 20, 6), NOW, "monitor", "1.2.3");
    assert_eq!(summary(&draws[10]).0, rect(1, 2, 20, 6));
}

/// Where the cut behind the first of several equal shares lies.
fn cut(len: u16, before: usize, total: usize) -> u16 {
    ((2 * len as usize * before + total) / (2 * total)) as u16
}

#[test]
fn halves_fill_the_area() {
    for x in [0, 3, 250, 60_000] {
        for width in (0..400).chain([1_001, 5_535]) {
            let left = (width + 1) / 2;
            assert_eq!(
                h_stack(rect(x, 7, width, 3)),
                (rect(x, 7, left, 3), rect(x + left, 7, width - left, 3))
            );
        }
    }
    let whole = h_stack(rect(0, 0, 65_535, 1));
    assert_eq!(whole, (rect(0, 0, 32_768, 1), rect(32_768, 0, 32_767, 1)));
    // What lies past the largest coordinate is left out.
    let edge = h_stack(rect(65_530, 0, 9, 1));
    assert_eq!(edge, (rect(65_530, 0, 3, 1), rect(65_533, 0, 2, 1)));
}

#[test]
fn frames_and_charts_fill_the_screen() {
    let app = app(ViewType::Sparkline, false);
    for size in 0..300 {
        let panes = app.place(rect(11, 5, size, size));
        let upper = cut(size, 2, 3);
        assert_eq!(panes.upper, rect(11, 5, size, upper));
        assert_eq!(panes.lower, rect(11, 5 + upper, size, size - upper));
        let rows = upper.saturating_sub(2);
        assert_eq!(panes.first_row.height, (rows + 1) / 2);
        assert_eq!(panes.second_row.height, rows / 2);
        assert_eq!(panes.second_row.y, panes.first_row.y + panes.first_row.height);

        let inner = size.saturating_sub(2);
        let x = panes.cpu_power.x;
        assert_eq!(x, if size > 0 { 12 } else { 11 });
        assert_eq!(panes.cpu_power.width, cut(inner, 1, 3));
        assert_eq!(panes.gpu_power.x, x + cut(inner, 1, 3));
        assert_eq!(panes.sys_power.x, x + cut(inner, 2, 3));
        assert_eq!(panes.sys_power.x + panes.sys_power.width, x + inner);
    }
}

/// Checks that so many cores share a frame evenly on screens of these heights.
fn check_rows(cores: usize, heights: &[u16]) {
    let mut app = app(ViewType::Sparkline, true);
    let mut data = metrics(0);
    data.pcpu_cores = (0..cores).map(|i| measured(0, i, 0.5)).collect();
    app.pcpu_freq = CpuFreqStore::empty();
    app.update_metrics(data);
    for height in heights {
        let panes = app.place(rect(3, 5, 90, *height));
        let len = panes.pcpu.height.saturating_sub(2);
        assert_eq!(panes.pcpu_cores.len(), cores);
        for (i, row) in panes.pcpu_cores.iter().enumerate() {
            let top = panes.pcpu_cores[0].y + cut(len, i, cores);
            let bottom = panes.pcpu_cores[0].y + cut(len, i + 1, cores);
            assert_eq!((row.y, row.y + row.height), (top, bottom));
        }
    }
}

#[test]
fn rows_share_their_frame_evenly() {
    let heights: Vec<u16> = (0..70).collect();
    for cores in 1..9 {
        check_rows(cores, &heights);
    }
}

#[test]
fn many_rows_share_their_frame_evenly() {
    for cores in [12, 16, 24] {
        check_rows(cores, &[3, 40, 61, 200]);
    }
}
