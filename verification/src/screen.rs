//! The whole screen: where everything stands, and what stands there.

use crate::app::App;
use crate::battery::{
    battery_label, battery_time_label, battery_time_text, label_spans, power_label, power_text,
};
use crate::draw::{BlockView, Draw, DrawView, draws_view, push_draw, title_block, titled};
use crate::geometry::{
    Direction, Rect, divides, end_along, h_stack, law_parts_fill_the_area, split, start_along,
    total_weight, weight_before,
};
use crate::metrics::SocInfo;
use crate::render::{
    cores_block, cores_have_room, freq_block, mem_block, mem_has_room, mem_section_count, newest,
    power_chart, split_mem_block,
};
use crate::stores::{PowerStore, fans_text};
use crate::text::{decimal, push_decimal};
use crate::timer::DURATION_MAX;
use vstd::prelude::*;
use vstd::string::*;
use vstd::utf8::*;

verus! {

/// Where everything stands on the screen.
#[derive(Debug)]
pub struct Panes {
    /// The upper frame, around processors and memory.
    pub upper: Rect,
    /// The lower frame, around the powers.
    pub lower: Rect,
    /// The row of the processors.
    pub first_row: Rect,
    /// The row of the memory and the graphics processor.
    pub second_row: Rect,
    pub ecpu: Rect,
    pub pcpu: Rect,
    pub mem: Rect,
    pub gpu: Rect,
    pub cpu_power: Rect,
    pub gpu_power: Rect,
    pub sys_power: Rect,
    /// The rows of the efficiency cores, where they are shown one by one.
    pub ecpu_cores: Vec<Rect>,
    /// The rows of the performance cores, where they are shown one by one.
    pub pcpu_cores: Vec<Rect>,
    /// The rows of memory and swap, where they are shown one by one.
    pub mem_sections: Vec<Rect>,
}

/// The same weight for each of several parts.
pub open spec fn equal_weights(count: nat) -> Seq<u16> {
    Seq::new(count, |i: int| 1u16)
}

/// Whether rows can come of dividing the inside of a frame evenly; none where they are not shown.
pub open spec fn rows_within(shown: bool, count: nat, frame: Rect, rows: Seq<Rect>) -> bool {
    if shown && count > 0 {
        divides(Direction::Vertical, equal_weights(count), frame.bordered_inner(), rows)
    } else {
        rows.len() == 0
    }
}

impl Panes {
    /// Whether everything stands where it may: the upper frame has two parts of the screen and
    /// the lower one; within the upper one, there are two rows of two panes each, and within the
    /// lower one a row of three.
    pub open spec fn placed(self, app: App, area: Rect) -> bool {
        &&& divides(Direction::Vertical, seq![2, 1], area, seq![self.upper, self.lower])
        &&& divides(
            Direction::Vertical,
            seq![1, 1],
            self.upper.bordered_inner(),
            seq![self.first_row, self.second_row],
        )
        &&& divides(Direction::Horizontal, seq![1, 1], self.first_row, seq![self.ecpu, self.pcpu])
        &&& divides(Direction::Horizontal, seq![1, 1], self.second_row, seq![self.mem, self.gpu])
        &&& divides(
            Direction::Horizontal,
            seq![1, 1, 1],
            self.lower.bordered_inner(),
            seq![self.cpu_power, self.gpu_power, self.sys_power],
        )
        &&& rows_within(
            app.cfg.per_core_view,
            app.ecpu_freq@.cores.len(),
            self.ecpu,
            self.ecpu_cores@,
        )
        &&& rows_within(
            app.cfg.per_core_view,
            app.pcpu_freq@.cores.len(),
            self.pcpu,
            self.pcpu_cores@,
        )
        &&& rows_within(
            app.cfg.per_core_view,
            mem_section_count(app.mem),
            self.mem,
            self.mem_sections@,
        )
    }

    /// Whether everything can be drawn where it stands.
    pub open spec fn usable(self, app: App) -> bool {
        app.cfg.per_core_view ==> {
            &&& cores_have_room(app.cfg, app.ecpu_freq@, self.ecpu_cores@)
            &&& cores_have_room(app.cfg, app.pcpu_freq@, self.pcpu_cores@)
            &&& mem_has_room(app.cfg, app.mem, self.mem_sections@)
        }
    }
}

/// The same weight for each of several parts.
fn make_equal_weights(count: usize) -> (weights: Vec<u16>)
    ensures
        weights@ == equal_weights(count as nat),
{
    let mut weights: Vec<u16> = Vec::new();
    let mut i: usize = 0;
    while i < count
        invariant
            i <= count,
            weights@ == equal_weights(i as nat),
        decreases count - i,
    {
        weights.push(1);
        i = i + 1;
    }
    weights
}

/// Divides the inside of a frame evenly into rows.
fn place_rows(shown: bool, count: usize, frame: Rect) -> (rows: Vec<Rect>)
    ensures
        rows_within(shown, count as nat, frame, rows@),
        frame.fits() ==> forall|i: int| 0 <= i < rows@.len() ==> (#[trigger] rows@[i]).fits(),
{
    if shown && count > 0 {
        let weights = make_equal_weights(count);
        split(Direction::Vertical, &weights, frame.within_border())
    } else {
        Vec::new()
    }
}

impl App {
    /// Finds a place for everything.
    pub fn place(&self, area: Rect) -> (panes: Panes)
        ensures
            panes.placed(*self, area),
            area.fits() ==> panes.usable(*self),
    {
        let weights: Vec<u16> = vec![2, 1];
        let rows = split(Direction::Vertical, &weights, area);
        let upper = rows[0];
        let lower = rows[1];
        assert(rows@ =~= seq![upper, lower]);

        let weights: Vec<u16> = vec![1, 1];
        let halves = split(Direction::Vertical, &weights, upper.within_border());
        let first_row = halves[0];
        let second_row = halves[1];
        assert(halves@ =~= seq![first_row, second_row]);
        let (ecpu, pcpu) = h_stack(first_row);
        let (mem, gpu) = h_stack(second_row);
        proof {
            if area.fits() {
                let cpus = seq![ecpu, pcpu];
                assert(cpus[0].fits() && cpus[1].fits());
                let rest = seq![mem, gpu];
                assert(rest[0].fits());
            }
        }

        let weights: Vec<u16> = vec![1, 1, 1];
        let charts = split(Direction::Horizontal, &weights, lower.within_border());
        assert(charts@ =~= seq![charts@[0], charts@[1], charts@[2]]);

        let shown: bool = self.cfg.per_core_view;
        let sections: usize = if self.mem.swap_total > 0 {
            2
        } else {
            1
        };
        Panes {
            upper,
            lower,
            first_row,
            second_row,
            ecpu,
            pcpu,
            mem,
            gpu,
            cpu_power: charts[0],
            gpu_power: charts[1],
            sys_power: charts[2],
            ecpu_cores: place_rows(shown, self.ecpu_freq.cores.len(), ecpu),
            pcpu_cores: place_rows(shown, self.pcpu_freq.cores.len(), pcpu),
            mem_sections: place_rows(shown, sections, mem),
        }
    }
}

/// The title of the machine: its chip, and what is on it.
pub open spec fn soc_title(soc: SocInfo) -> Seq<char> {
    soc.chip_name@ + " ("@ + decimal(soc.ecpu_cores as nat) + soc.ecpu_label@ + "+"@ + decimal(
        soc.pcpu_cores as nat,
    ) + soc.pcpu_label@ + "+"@ + decimal(soc.gpu_cores as nat) + "GPU "@ + decimal(
        soc.memory_gb as nat,
    ) + "GB)"@
}

/// The title of the program.
pub open spec fn brand(name: Seq<char>, version: Seq<char>) -> Seq<char> {
    name + " v"@ + version
}

/// The label of a group of processor cores.
pub open spec fn cpu_label(label: Seq<char>) -> Seq<char> {
    label + "-CPU"@
}

/// The title of the power of the whole machine.
pub open spec fn total_title(val: PowerStore) -> Seq<char> {
    "Power: "@ + val.top_value@ + "W (avg "@ + val.avg_value@ + "W, max "@ + val.max_value@ + "W)"@
}

/// Texts with a stroke between them; empty ones are left out.
pub open spec fn joined(labels: Seq<Seq<char>>) -> Seq<char>
    decreases labels.len(),
{
    if labels.len() == 0 {
        Seq::empty()
    } else {
        let before = joined(labels.drop_last());
        if labels.last().len() == 0 {
            before
        } else if before.len() == 0 {
            labels.last()
        } else {
            before + " | "@ + labels.last()
        }
    }
}

/// The time on battery, written out; none on external power or without a reading.
pub open spec fn time_text(app: App, now: u128) -> Seq<char> {
    if app.battery_timer.on_battery() {
        battery_time_text(app.battery_timer.total(now) as u128)
    } else {
        Seq::empty()
    }
}

/// What is said of the supply: the time on battery, the adapter, and the fans.
pub open spec fn supply_title(app: App, now: u128) -> Seq<char> {
    joined(seq![time_text(app, now), power_text(app.battery), fans_text(app.fans.items@)])
}

/// The lower frame.
pub open spec fn supply_block(app: App, now: u128) -> BlockView {
    BlockView {
        bottom_left: match app.battery {
            Some(battery) => Some(label_spans(battery, app.cfg.color, app.battery_runtime@)),
            None => None,
        },
        bottom_right: Some(" ? "@),
        ..titled(app.cfg.color, total_title(app.all_power), supply_title(app, now))
    }
}

/// The keys, and what they do.
pub open spec fn help_lines() -> Seq<Seq<char>> {
    seq![
        "?           toggle help"@,
        "q / Ctrl-C  quit"@,
        "c           change color"@,
        "v           change chart type"@,
        "d           toggle detail view"@,
        "r           change ratio mode"@,
        "+ / =       increase interval"@,
        "-           decrease interval"@,
    ]
}

/// Lines of text, one below the other.
pub open spec fn paragraph(lines: Seq<Seq<char>>) -> Seq<char>
    decreases lines.len(),
{
    if lines.len() == 0 {
        Seq::empty()
    } else if lines.len() == 1 {
        lines[0]
    } else {
        paragraph(lines.drop_last()) + "\n"@ + lines.last()
    }
}

/// The length of the longest line, in bytes.
pub open spec fn widest(lines: Seq<Seq<char>>) -> nat
    decreases lines.len(),
{
    if lines.len() == 0 {
        0
    } else {
        let before = widest(lines.drop_last());
        let last = encode_utf8(lines.last()).len();
        if last > before {
            last
        } else {
            before
        }
    }
}

/// Where an area of the given size stands in the middle of another; as much of it as there is
/// room for.
pub open spec fn centered(area: Rect, width: u16, height: u16) -> Rect {
    let fitting_width = if width < area.width {
        width
    } else {
        area.width
    };
    let fitting_height = if height < area.height {
        height
    } else {
        area.height
    };
    Rect::clip(
        (area.x + (area.width - fitting_width) / 2) as u16,
        (area.y + (area.height - fitting_height) / 2) as u16,
        fitting_width,
        fitting_height,
    )
}

/// Whether an area of the given size has coordinates in the middle of another.
pub open spec fn has_middle(area: Rect, width: u16, height: u16) -> bool {
    &&& width < area.width ==> area.x + (area.width - width) / 2 <= u16::MAX
    &&& height < area.height ==> area.y + (area.height - height) / 2 <= u16::MAX
}

/// The width of the help, with its frame.
pub open spec fn help_width() -> u16 {
    (widest(help_lines()) + 2) as u16
}

/// The height of the help, with its frame.
pub open spec fn help_height() -> u16 {
    (help_lines().len() + 2) as u16
}

/// Where the help stands: in the middle.
pub open spec fn help_area(area: Rect) -> Rect {
    centered(area, help_width(), help_height())
}

/// Whether the help has a place, if it is shown.
pub open spec fn help_has_room(app: App, area: Rect) -> bool {
    app.show_help ==> has_middle(area, help_width(), help_height())
}

/// The help, over what stands below it.
pub open spec fn help_draws(app: App, area: Rect) -> Seq<DrawView> {
    if app.show_help {
        seq![
            DrawView::Clear { area: help_area(area) },
            DrawView::Text {
                area: help_area(area),
                text: paragraph(help_lines()),
                block: titled(app.cfg.color, "Help"@, Seq::empty()),
                color: app.cfg.color,
            },
        ]
    } else {
        Seq::empty()
    }
}

/// The processors and the memory: in detail, or each as one.
pub open spec fn upper_draws(app: App, panes: Panes) -> Seq<DrawView> {
    let ecpu = cpu_label(app.soc.ecpu_label@);
    let pcpu = cpu_label(app.soc.pcpu_label@);
    (if app.cfg.per_core_view {
        cores_block(app.cfg, panes.ecpu, ecpu, app.ecpu_freq@, panes.ecpu_cores@) + cores_block(
            app.cfg,
            panes.pcpu,
            pcpu,
            app.pcpu_freq@,
            panes.pcpu_cores@,
        ) + split_mem_block(app.cfg, panes.mem, app.mem, panes.mem_sections@)
    } else {
        seq![
            freq_block(app.cfg, panes.ecpu, ecpu, app.ecpu_freq@.aggregate),
            freq_block(app.cfg, panes.pcpu, pcpu, app.pcpu_freq@.aggregate),
            mem_block(app.cfg, panes.mem, app.mem),
        ]
    }) + seq![freq_block(app.cfg, panes.gpu, "GPU"@, app.igpu_freq@)]
}

/// The powers, in the lower frame.
pub open spec fn lower_draws(app: App, panes: Panes, now: u128) -> Seq<DrawView> {
    let color = app.cfg.color;
    seq![
        DrawView::Frame { area: panes.lower, block: supply_block(app, now) },
        power_chart(color, panes.cpu_power, "CPU"@, app.cpu_power, newest(app.cpu_temp.items@)),
        power_chart(color, panes.gpu_power, "GPU"@, app.gpu_power, newest(app.gpu_temp.items@)),
        power_chart(color, panes.sys_power, "Total"@, app.sys_power, None),
    ]
}

/// The whole screen, with everything in its place.
pub open spec fn screen(
    app: App,
    area: Rect,
    panes: Panes,
    now: u128,
    name: Seq<char>,
    version: Seq<char>,
) -> Seq<DrawView> {
    seq![
        DrawView::Frame {
            area: panes.upper,
            block: titled(app.cfg.color, soc_title(app.soc), brand(name, version)),
        },
    ] + upper_draws(app, panes) + lower_draws(app, panes, now) + help_draws(app, area)
}

/// The title of the machine.
fn make_soc_title(soc: &SocInfo) -> (text: String)
    ensures
        text@ == soc_title(*soc),
{
    let mut text = String::from_str(soc.chip_name.as_str());
    text.append(" (");
    push_decimal(&mut text, soc.ecpu_cores);
    text.append(soc.ecpu_label.as_str());
    text.append("+");
    push_decimal(&mut text, soc.pcpu_cores);
    text.append(soc.pcpu_label.as_str());
    text.append("+");
    push_decimal(&mut text, soc.gpu_cores);
    text.append("GPU ");
    push_decimal(&mut text, soc.memory_gb);
    text.append("GB)");
    text
}

/// The label of a group of processor cores.
fn make_cpu_label(label: &String) -> (text: String)
    ensures
        text@ == cpu_label(label@),
{
    let mut text = String::from_str(label.as_str());
    text.append("-CPU");
    text
}

/// The title of the power of the whole machine.
fn make_total_title(val: &PowerStore) -> (text: String)
    ensures
        text@ == total_title(*val),
{
    let mut text = String::from_str("Power: ");
    text.append(val.top_value.as_str());
    text.append("W (avg ");
    text.append(val.avg_value.as_str());
    text.append("W, max ");
    text.append(val.max_value.as_str());
    text.append("W)");
    text
}

/// Appends a text, behind a stroke if there is something before it.
fn join(text: &mut String, label: &str)
    ensures
        final(text)@ == if label@.len() == 0 {
            old(text)@
        } else if old(text)@.len() == 0 {
            label@
        } else {
            old(text)@ + " | "@ + label@
        },
{
    if !label.is_empty() {
        if !text.as_str().is_empty() {
            text.append(" | ");
        }
        text.append(label);
    }
    assert(old(text)@.len() == 0 ==> old(text)@ + label@ =~= label@);
}

/// The keys, and what they do.
fn make_help_lines() -> (lines: Vec<&'static str>)
    ensures
        lines@.map_values(|line: &'static str| line@) == help_lines(),
{
    let lines: Vec<&'static str> = vec![
        "?           toggle help",
        "q / Ctrl-C  quit",
        "c           change color",
        "v           change chart type",
        "d           toggle detail view",
        "r           change ratio mode",
        "+ / =       increase interval",
        "-           decrease interval",
    ];
    assert(lines@.map_values(|line: &'static str| line@) =~= help_lines());
    lines
}

/// Lines of text, one below the other.
fn join_lines(lines: &Vec<&'static str>) -> (text: String)
    ensures
        text@ == paragraph(lines@.map_values(|line: &'static str| line@)),
{
    let ghost all = lines@.map_values(|line: &'static str| line@);
    let mut text = String::new();
    let mut i: usize = 0;
    while i < lines.len()
        invariant
            i <= lines@.len(),
            all == lines@.map_values(|line: &'static str| line@),
            text@ == paragraph(all.take(i as int)),
        decreases lines@.len() - i,
    {
        assert(all.take(i + 1).drop_last() =~= all.take(i as int));
        if i > 0 {
            text.append("\n");
        }
        text.append(lines[i]);
        assert(text@ =~= paragraph(all.take(i + 1)));
        i = i + 1;
    }
    assert(all.take(i as int) =~= all);
    text
}

/// The length of the longest line, in bytes.
fn find_widest(lines: &Vec<&'static str>) -> (width: usize)
    requires
        widest(lines@.map_values(|line: &'static str| line@)) <= usize::MAX,
    ensures
        width == widest(lines@.map_values(|line: &'static str| line@)),
{
    let ghost all = lines@.map_values(|line: &'static str| line@);
    let mut width: usize = 0;
    let mut i: usize = 0;
    while i < lines.len()
        invariant
            i <= lines@.len(),
            all == lines@.map_values(|line: &'static str| line@),
            widest(all) <= usize::MAX,
            width == widest(all.take(i as int)),
        decreases lines@.len() - i,
    {
        proof {
            assert(all.take(i + 1).drop_last() =~= all.take(i as int));
            lemma_widest_grows(all, i + 1);
        }
        let len: usize = lines[i].len();
        if len > width {
            width = len;
        }
        i = i + 1;
    }
    assert(all.take(i as int) =~= all);
    width
}

/// Further lines make the longest one no shorter.
proof fn lemma_widest_grows(lines: Seq<Seq<char>>, len: int)
    requires
        0 <= len <= lines.len(),
    ensures
        widest(lines.take(len)) <= widest(lines),
    decreases lines.len(),
{
    if len < lines.len() {
        lemma_widest_grows(lines.drop_last(), len);
        assert(lines.drop_last().take(len) =~= lines.take(len));
    } else {
        assert(lines.take(len) =~= lines);
    }
}

/// A line of the help takes up one byte for each of its characters.
proof fn lemma_ascii_len(line: Seq<char>)
    requires
        is_ascii_chars(line),
    ensures
        encode_utf8(line).len() == line.len(),
{
    is_ascii_chars_encode_utf8(line);
}

/// The longest line of the help has thirty characters.
pub(crate) proof fn lemma_help_width()
    ensures
        widest(help_lines()) == 30,
        help_lines().len() == 8,
{
    reveal_strlit("?           toggle help");
    reveal_strlit("q / Ctrl-C  quit");
    reveal_strlit("c           change color");
    reveal_strlit("v           change chart type");
    reveal_strlit("d           toggle detail view");
    reveal_strlit("r           change ratio mode");
    reveal_strlit("+ / =       increase interval");
    reveal_strlit("-           decrease interval");
    let lines = help_lines();
    assert forall|i: int| 0 <= i < lines.len() implies encode_utf8(#[trigger] lines[i]).len()
        == lines[i].len() by {
        lemma_ascii_len(lines[i]);
    }
    assert(lines[0].len() == 23);
    assert(lines[1].len() == 16);
    assert(lines[2].len() == 24);
    assert(lines[3].len() == 29);
    assert(lines[4].len() == 30);
    assert(lines[5].len() == 29);
    assert(lines[6].len() == 29);
    assert(lines[7].len() == 29);
    lemma_widest_bound(lines, 30);
    lemma_widest_of(lines, 4);
}

/// A bound on the length of each line bounds that of the longest.
proof fn lemma_widest_bound(lines: Seq<Seq<char>>, bound: nat)
    requires
        forall|i: int| 0 <= i < lines.len() ==> encode_utf8(#[trigger] lines[i]).len() <= bound,
    ensures
        widest(lines) <= bound,
    decreases lines.len(),
{
    if lines.len() > 0 {
        let before = lines.drop_last();
        assert forall|i: int| 0 <= i < before.len() implies encode_utf8(#[trigger] before[i]).len()
            <= bound by {
            assert(before[i] == lines[i]);
        }
        lemma_widest_bound(before, bound);
        assert(lines.last() == lines[lines.len() - 1]);
    }
}

/// The longest line is no shorter than any.
proof fn lemma_widest_of(lines: Seq<Seq<char>>, at: int)
    requires
        0 <= at < lines.len(),
    ensures
        encode_utf8(lines[at]).len() <= widest(lines),
    decreases lines.len(),
{
    if at < lines.len() - 1 {
        assert(lines.drop_last()[at] == lines[at]);
        lemma_widest_of(lines.drop_last(), at);
    }
}

/// The help stands on the screen, whatever the size of the screen.
pub proof fn law_help_stays_on_screen(area: Rect)
    requires
        area.fits(),
    ensures
        area.x <= help_area(area).x,
        help_area(area).x + help_area(area).width <= area.x + area.width,
        area.y <= help_area(area).y,
        help_area(area).y + help_area(area).height <= area.y + area.height,
{
}

/// The state with the help shown where it was hidden, and hidden where it was shown.
pub open spec fn help_toggled(app: App) -> App {
    App { show_help: !app.show_help, ..app }
}

/// To show the help and to hide it again changes nothing, and neither does it change what else
/// is drawn: the help is drawn last, over everything.
pub proof fn law_help_is_laid_over(
    app: App,
    area: Rect,
    panes: Panes,
    now: u128,
    name: Seq<char>,
    version: Seq<char>,
)
    requires
        !app.show_help,
    ensures
        help_toggled(help_toggled(app)) == app,
        screen(help_toggled(app), area, panes, now, name, version) == screen(
            app,
            area,
            panes,
            now,
            name,
            version,
        ) + help_draws(help_toggled(app), area),
{
    assert(screen(help_toggled(app), area, panes, now, name, version) =~= screen(
        app,
        area,
        panes,
        now,
        name,
        version,
    ) + help_draws(help_toggled(app), area));
}

/// Everything has its place on the screen: no frame, no chart and no row reaches past it.
pub proof fn law_panes_stay_on_screen(app: App, area: Rect, panes: Panes)
    requires
        area.fits(),
        panes.placed(app, area),
    ensures
        area.encloses(panes.upper),
        area.encloses(panes.lower),
        panes.upper.encloses(panes.ecpu),
        panes.upper.encloses(panes.pcpu),
        panes.upper.encloses(panes.mem),
        panes.upper.encloses(panes.gpu),
        panes.lower.encloses(panes.cpu_power),
        panes.lower.encloses(panes.gpu_power),
        panes.lower.encloses(panes.sys_power),
        forall|i: int|
            0 <= i < panes.ecpu_cores@.len() ==> panes.ecpu.encloses(
                #[trigger] panes.ecpu_cores@[i],
            ),
        forall|i: int|
            0 <= i < panes.pcpu_cores@.len() ==> panes.pcpu.encloses(
                #[trigger] panes.pcpu_cores@[i],
            ),
        forall|i: int|
            0 <= i < panes.mem_sections@.len() ==> panes.mem.encloses(
                #[trigger] panes.mem_sections@[i],
            ),
{
    let frames = seq![panes.upper, panes.lower];
    assert(frames[0].fits() && frames[1].fits());
    let rows = seq![panes.first_row, panes.second_row];
    assert(rows[0].fits() && rows[1].fits());
    let cpus = seq![panes.ecpu, panes.pcpu];
    assert(cpus[0].fits() && cpus[1].fits());
    let rest = seq![panes.mem, panes.gpu];
    assert(rest[0].fits() && rest[1].fits());
    let charts = seq![panes.cpu_power, panes.gpu_power, panes.sys_power];
    assert(charts[0].fits() && charts[1].fits() && charts[2].fits());
}

/// Whether two parts fill an area along a direction, one behind the other.
pub open spec fn fill(direction: Direction, area: Rect, first: Rect, second: Rect) -> bool {
    &&& start_along(direction, first) == start_along(direction, area)
    &&& start_along(direction, second) == end_along(direction, first)
    &&& end_along(direction, second) == end_along(direction, area)
}

/// Two parts of small weights fill an area.
proof fn lemma_two_parts_fill(
    direction: Direction,
    weights: Seq<u16>,
    area: Rect,
    first: Rect,
    second: Rect,
)
    requires
        area.fits(),
        weights.len() == 2,
        0 < weights[0] + weights[1] < 100,
        divides(direction, weights, area, seq![first, second]),
    ensures
        fill(direction, area, first, second),
        first.fits(),
        second.fits(),
{
    reveal_with_fuel(weight_before, 3);
    let parts = seq![first, second];
    law_parts_fill_the_area(direction, weights, area, parts);
    assert(parts[0] == first && parts[1] == second);
}

/// The screen has no gaps: the frames fill the screen, and within each frame the rows and the
/// panes fill what the border leaves.
pub proof fn law_panes_fill_the_screen(app: App, area: Rect, panes: Panes)
    requires
        area.fits(),
        panes.placed(app, area),
    ensures
        fill(Direction::Vertical, area, panes.upper, panes.lower),
        fill(
            Direction::Vertical,
            panes.upper.bordered_inner(),
            panes.first_row,
            panes.second_row,
        ),
        fill(Direction::Horizontal, panes.first_row, panes.ecpu, panes.pcpu),
        fill(Direction::Horizontal, panes.second_row, panes.mem, panes.gpu),
        ({
            let inner = panes.lower.bordered_inner();
            &&& panes.cpu_power.x == inner.x
            &&& panes.gpu_power.x == panes.cpu_power.x + panes.cpu_power.width
            &&& panes.sys_power.x == panes.gpu_power.x + panes.gpu_power.width
            &&& panes.sys_power.x + panes.sys_power.width == inner.x + inner.width
        }),
{
    lemma_two_parts_fill(Direction::Vertical, seq![2, 1], area, panes.upper, panes.lower);
    lemma_two_parts_fill(
        Direction::Vertical,
        seq![1, 1],
        panes.upper.bordered_inner(),
        panes.first_row,
        panes.second_row,
    );
    let halves = seq![1u16, 1];
    lemma_two_parts_fill(Direction::Horizontal, halves, panes.first_row, panes.ecpu, panes.pcpu);
    lemma_two_parts_fill(Direction::Horizontal, halves, panes.second_row, panes.mem, panes.gpu);

    reveal_with_fuel(weight_before, 4);
    let thirds = seq![1u16, 1, 1];
    let charts = seq![panes.cpu_power, panes.gpu_power, panes.sys_power];
    assert(total_weight(thirds) == 3);
    law_parts_fill_the_area(
        Direction::Horizontal,
        thirds,
        panes.lower.bordered_inner(),
        charts,
    );
    assert(charts[1] == panes.gpu_power && charts[2] == panes.sys_power);
}

/// Equal weights come to their number.
pub(crate) proof fn lemma_equal_weights(count: nat, done: int)
    requires
        0 <= done <= count,
    ensures
        weight_before(equal_weights(count), done) == done,
    decreases done,
{
    if done > 0 {
        lemma_equal_weights(count, done - 1);
    }
}

/// Parts of small weights are the same however an area is divided.
proof fn lemma_division_is_unique(
    direction: Direction,
    weights: Seq<u16>,
    area: Rect,
    a: Seq<Rect>,
    b: Seq<Rect>,
)
    requires
        total_weight(weights) < 100,
        divides(direction, weights, area, a),
        divides(direction, weights, area, b),
    ensures
        a == b,
{
    assert forall|i: int| 0 <= i < a.len() implies a[i] == b[i] by {
        assert(a[i].x == b[i].x && a[i].y == b[i].y);
    }
    assert(a =~= b);
}

/// Rows are the same however the inside of a frame is divided into fewer than a hundred.
proof fn lemma_rows_are_unique(
    shown: bool,
    count: nat,
    frame: Rect,
    a: Seq<Rect>,
    b: Seq<Rect>,
)
    requires
        count < 100,
        rows_within(shown, count, frame, a),
        rows_within(shown, count, frame, b),
    ensures
        a == b,
{
    if shown && count > 0 {
        lemma_equal_weights(count, count as int);
        lemma_division_is_unique(
            Direction::Vertical,
            equal_weights(count),
            frame.bordered_inner(),
            a,
            b,
        );
    } else {
        assert(a =~= b);
    }
}

/// The place of everything depends on the state and the size of the screen alone, for machines
/// with fewer than a hundred cores of a kind: whatever is drawn twice is drawn in the same place.
#[verifier::rlimit(30)]
pub proof fn law_places_are_determined(app: App, area: Rect, a: Panes, b: Panes)
    requires
        app.ecpu_freq@.cores.len() < 100,
        app.pcpu_freq@.cores.len() < 100,
        a.placed(app, area),
        b.placed(app, area),
    ensures
        a.upper == b.upper,
        a.lower == b.lower,
        a.first_row == b.first_row,
        a.second_row == b.second_row,
        a.ecpu == b.ecpu,
        a.pcpu == b.pcpu,
        a.mem == b.mem,
        a.gpu == b.gpu,
        a.cpu_power == b.cpu_power,
        a.gpu_power == b.gpu_power,
        a.sys_power == b.sys_power,
        a.ecpu_cores@ == b.ecpu_cores@,
        a.pcpu_cores@ == b.pcpu_cores@,
        a.mem_sections@ == b.mem_sections@,
{
    reveal_with_fuel(weight_before, 4);
    let halves = seq![1u16, 1];
    let thirds = seq![1u16, 1, 1];
    let rows = seq![2u16, 1];
    assert(total_weight(rows) == 3 && total_weight(halves) == 2 && total_weight(thirds) == 3);

    let (x, y) = (seq![a.upper, a.lower], seq![b.upper, b.lower]);
    lemma_division_is_unique(Direction::Vertical, rows, area, x, y);
    assert(x[0] == y[0] && x[1] == y[1]);

    let (x, y) = (seq![a.first_row, a.second_row], seq![b.first_row, b.second_row]);
    lemma_division_is_unique(Direction::Vertical, halves, a.upper.bordered_inner(), x, y);
    assert(x[0] == y[0] && x[1] == y[1]);

    let (x, y) = (seq![a.ecpu, a.pcpu], seq![b.ecpu, b.pcpu]);
    lemma_division_is_unique(Direction::Horizontal, halves, a.first_row, x, y);
    assert(x[0] == y[0] && x[1] == y[1]);

    let (x, y) = (seq![a.mem, a.gpu], seq![b.mem, b.gpu]);
    lemma_division_is_unique(Direction::Horizontal, halves, a.second_row, x, y);
    assert(x[0] == y[0] && x[1] == y[1]);

    let x = seq![a.cpu_power, a.gpu_power, a.sys_power];
    let y = seq![b.cpu_power, b.gpu_power, b.sys_power];
    lemma_division_is_unique(Direction::Horizontal, thirds, a.lower.bordered_inner(), x, y);
    assert(x[0] == y[0] && x[1] == y[1] && x[2] == y[2]);

    let shown = app.cfg.per_core_view;
    let (x, y) = (a.ecpu_cores@, b.ecpu_cores@);
    lemma_rows_are_unique(shown, app.ecpu_freq@.cores.len(), a.ecpu, x, y);
    let (x, y) = (a.pcpu_cores@, b.pcpu_cores@);
    lemma_rows_are_unique(shown, app.pcpu_freq@.cores.len(), a.pcpu, x, y);
    let (x, y) = (a.mem_sections@, b.mem_sections@);
    lemma_rows_are_unique(shown, mem_section_count(app.mem), a.mem, x, y);
}

/// In the detailed view each core has a row of its own, and each kind of memory too.
pub proof fn law_every_core_has_a_row(app: App, area: Rect, panes: Panes)
    requires
        panes.placed(app, area),
        app.cfg.per_core_view,
    ensures
        panes.ecpu_cores@.len() == app.ecpu_freq@.cores.len(),
        panes.pcpu_cores@.len() == app.pcpu_freq@.cores.len(),
        panes.mem_sections@.len() == mem_section_count(app.mem),
{
}

impl App {
    /// What is said of the supply.
    fn make_supply_title(&self, now: u128) -> (text: String)
        requires
            self.battery_timer.total(now) <= DURATION_MAX,
        ensures
            text@ == supply_title(*self, now),
    {
        let time = match self.battery_timer.elapsed_at(now) {
            Some(elapsed) => battery_time_label(elapsed),
            None => String::new(),
        };
        let power = power_label(self.battery);
        let fans = self.fans.label();
        let mut text = String::new();
        join(&mut text, time.as_str());
        join(&mut text, power.as_str());
        join(&mut text, fans.as_str());
        proof {
            let labels = seq![time@, power@, fans@];
            assert(labels.drop_last().drop_last().drop_last() =~= Seq::<Seq<char>>::empty());
            assert(labels.drop_last().drop_last() =~= seq![time@]);
            assert(labels.drop_last() =~= seq![time@, power@]);
            reveal_with_fuel(joined, 4);
            assert(time@ == time_text(*self, now));
            assert(text@ =~= joined(labels));
        }
        text
    }

    /// Draws the help, if it is shown.
    fn render_help<'a>(&self, draws: &mut Vec<Draw<'a>>, area: Rect)
        requires
            help_has_room(*self, area),
        ensures
            draws_view(final(draws)@) == draws_view(old(draws)@) + help_draws(*self, area),
    {
        proof {
            reveal_strlit("");
            assert(""@ =~= Seq::<char>::empty());
            lemma_help_width();
        }
        if self.show_help {
            let help = make_help_lines();
            let width: u16 = find_widest(&help) as u16 + 2;
            let height: u16 = help.len() as u16 + 2;
            let width: u16 = if width < area.width {
                width
            } else {
                area.width
            };
            let height: u16 = if height < area.height {
                height
            } else {
                area.height
            };
            let popup = Rect::clipped(
                area.x + (area.width - width) / 2,
                area.y + (area.height - height) / 2,
                width,
                height,
            );
            assert(popup == help_area(area));
            push_draw(draws, Draw::Clear { area: popup });
            let color = self.cfg.color;
            push_draw(
                draws,
                Draw::Text {
                    area: popup,
                    text: join_lines(&help),
                    block: title_block(color, "Help", ""),
                    color,
                },
            );
        }
        assert(draws_view(draws@) =~= draws_view(old(draws)@) + help_draws(*self, area));
    }

    /// Draws the processors and the memory.
    fn render_upper<'a>(&'a self, draws: &mut Vec<Draw<'a>>, panes: &Panes)
        requires
            panes.usable(*self),
        ensures
            draws_view(final(draws)@) == draws_view(old(draws)@) + upper_draws(*self, *panes),
    {
        let ghost before = draws_view(draws@);
        let ecpu = make_cpu_label(&self.soc.ecpu_label);
        let pcpu = make_cpu_label(&self.soc.pcpu_label);
        if self.cfg.per_core_view {
            let cores = &panes.ecpu_cores;
            self.render_cores(draws, panes.ecpu, ecpu.as_str(), &self.ecpu_freq, cores);
            let cores = &panes.pcpu_cores;
            self.render_cores(draws, panes.pcpu, pcpu.as_str(), &self.pcpu_freq, cores);
            self.render_split_mem_block(draws, panes.mem, &self.mem, &panes.mem_sections);
        } else {
            self.render_freq_block(draws, panes.ecpu, ecpu.as_str(), &self.ecpu_freq.aggregate);
            self.render_freq_block(draws, panes.pcpu, pcpu.as_str(), &self.pcpu_freq.aggregate);
            self.render_mem_block(draws, panes.mem, &self.mem);
        }
        self.render_freq_block(draws, panes.gpu, "GPU", &self.igpu_freq);
        assert(draws_view(draws@) =~= before + upper_draws(*self, *panes));
    }

    /// Draws the powers.
    fn render_lower<'a>(&'a self, draws: &mut Vec<Draw<'a>>, panes: &Panes, now: u128)
        requires
            self.battery_timer.total(now) <= DURATION_MAX,
        ensures
            draws_view(final(draws)@) == draws_view(old(draws)@) + lower_draws(*self, *panes, now),
    {
        let ghost before = draws_view(draws@);
        let color = self.cfg.color;
        let label_l = make_total_title(&self.all_power);
        let label_r = self.make_supply_title(now);
        let mut block = title_block(color, label_l.as_str(), label_r.as_str());
        if let Some(battery) = self.battery {
            let line = battery_label(battery, color, self.battery_runtime.as_str());
            block.bottom_left = Some(line);
        }
        block.bottom_right = Some(String::from_str(" ? "));
        assert(block@ == supply_block(*self, now));
        push_draw(draws, Draw::Frame { area: panes.lower, block });

        let temp = self.cpu_temp.last();
        let chart = self.get_power_block(panes.cpu_power, "CPU", &self.cpu_power, temp);
        push_draw(draws, chart);
        let temp = self.gpu_temp.last();
        let chart = self.get_power_block(panes.gpu_power, "GPU", &self.gpu_power, temp);
        push_draw(draws, chart);
        let chart = self.get_power_block(panes.sys_power, "Total", &self.sys_power, None);
        push_draw(draws, chart);
        assert(draws_view(draws@) =~= before + lower_draws(*self, *panes, now));
    }

    /// Draws the whole screen, with everything in its place.
    pub fn render_panes<'a>(
        &'a self,
        area: Rect,
        panes: &Panes,
        now: u128,
        name: &str,
        version: &str,
    ) -> (draws: Vec<Draw<'a>>)
        requires
            help_has_room(*self, area),
            panes.usable(*self),
            self.battery_timer.total(now) <= DURATION_MAX,
        ensures
            draws_view(draws@) == screen(*self, area, *panes, now, name@, version@),
    {
        let mut draws: Vec<Draw<'a>> = Vec::new();
        assert(draws_view(draws@) =~= Seq::<DrawView>::empty());

        let mut brand = String::from_str(name);
        brand.append(" v");
        brand.append(version);
        let label = make_soc_title(&self.soc);
        let block = title_block(self.cfg.color, label.as_str(), brand.as_str());
        push_draw(&mut draws, Draw::Frame { area: panes.upper, block });
        self.render_upper(&mut draws, panes);
        self.render_lower(&mut draws, panes, now);
        self.render_help(&mut draws, area);
        assert(draws_view(draws@) =~= screen(*self, area, *panes, now, name@, version@));
        draws
    }

    /// Draws the whole screen.
    pub fn render<'a>(&'a self, area: Rect, now: u128, name: &str, version: &str) -> (draws: Vec<
        Draw<'a>,
    >)
        requires
            area.fits(),
            self.battery_timer.total(now) <= DURATION_MAX,
        ensures
            exists|panes: Panes|
                {
                    &&& #[trigger] panes.placed(*self, area)
                    &&& panes.usable(*self)
                    &&& draws_view(draws@) == screen(*self, area, panes, now, name@, version@)
                },
    {
        let panes = self.place(area);
        self.render_panes(area, &panes, now, name, version)
    }
}

} // verus!
