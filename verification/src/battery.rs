//! What the screen says of the battery.

use crate::style::{Color, Span, SpanView, spans_view};
use crate::text::{decimal, push_decimal, push_two_digits, two_digits};
use crate::timer::DURATION_MAX;
use crate::units::{half_even, round_half_even};
use vstd::arithmetic::div_mod::{lemma_div_is_ordered, lemma_div_is_ordered_by_denominator};
use vstd::prelude::*;
use vstd::string::*;

verus! {

/// One reading of the battery and of the power supply.
#[derive(Clone, Copy, Debug, PartialEq, Eq, Structural)]
pub struct BatteryStatus {
    /// Charge in percent.
    pub capacity: u8,
    pub is_charging: bool,
    pub on_ac_power: bool,
    /// Whether the system holds the charge where it is although it has power to charge.
    pub charging_paused: bool,
    /// What the adapter can deliver, in watts.
    pub adapter_watts: Option<u32>,
    /// What the adapter delivers now, in milliwatts.
    pub input_power_mw: Option<u32>,
    /// What the battery still holds, in milliwatt hours.
    pub remaining_energy_mwh: Option<u64>,
}

/// The left edge of the battery bar.
pub const BAR_LEFT: char = '▕';

/// The right edge of the battery bar.
pub const BAR_RIGHT: char = '▏';

/// The charge up to which it is always shown in figures.
pub const LOW_CAPACITY: u8 = 15;

/// How many cells the battery bar has between its edges.
pub const BAR_CELLS: usize = 4;

/// The symbols of a cell that is filled from the left, by the eighths that are filled.
struct BlockSymbols {
    empty: &'static str,
    one_eighth: &'static str,
    one_quarter: &'static str,
    three_eighths: &'static str,
    half: &'static str,
    five_eighths: &'static str,
    three_quarters: &'static str,
    seven_eighths: &'static str,
    full: &'static str,
}

/// The character for a cell of which `eighths` are filled.
pub open spec fn block_char(eighths: int) -> char {
    if eighths <= 0 {
        ' '
    } else if eighths == 1 {
        '▏'
    } else if eighths == 2 {
        '▎'
    } else if eighths == 3 {
        '▍'
    } else if eighths == 4 {
        '▌'
    } else if eighths == 5 {
        '▋'
    } else if eighths == 6 {
        '▊'
    } else if eighths == 7 {
        '▉'
    } else {
        '█'
    }
}

/// The constant `ratatui::symbols::block::NINE_LEVELS`: for each number of eighths, one block
/// character of that width.
#[verifier::external_body]
fn block_symbols() -> (set: BlockSymbols)
    ensures
        set.complete(),
{
    let set = ratatui::symbols::block::NINE_LEVELS;
    BlockSymbols {
        empty: set.empty,
        one_eighth: set.one_eighth,
        one_quarter: set.one_quarter,
        three_eighths: set.three_eighths,
        half: set.half,
        five_eighths: set.five_eighths,
        three_quarters: set.three_quarters,
        seven_eighths: set.seven_eighths,
        full: set.full,
    }
}

impl BlockSymbols {
    /// Whether each symbol is the block of its width.
    spec fn complete(self) -> bool {
        &&& self.empty@ == seq![block_char(0)]
        &&& self.one_eighth@ == seq![block_char(1)]
        &&& self.one_quarter@ == seq![block_char(2)]
        &&& self.three_eighths@ == seq![block_char(3)]
        &&& self.half@ == seq![block_char(4)]
        &&& self.five_eighths@ == seq![block_char(5)]
        &&& self.three_quarters@ == seq![block_char(6)]
        &&& self.seven_eighths@ == seq![block_char(7)]
        &&& self.full@ == seq![block_char(8)]
    }

    /// The symbol for a cell that is filled in part.
    fn level(&self, eighths: usize) -> (symbol: &'static str)
        requires
            self.complete(),
            eighths < 8,
        ensures
            symbol@ == seq![block_char(eighths as int)],
    {
        match eighths {
            0 => self.empty,
            1 => self.one_eighth,
            2 => self.one_quarter,
            3 => self.three_eighths,
            4 => self.half,
            5 => self.five_eighths,
            6 => self.three_quarters,
            _ => self.seven_eighths,
        }
    }
}

/// How many of the thirty-two steps of the battery bar a charge fills.
pub open spec fn steps(capacity: u8) -> int {
    (if capacity < 100 {
        capacity as int
    } else {
        100
    }) * 32 / 100
}

/// The cells of the battery bar: each shows up to eight of the steps.
pub open spec fn bar_cells(capacity: u8) -> Seq<char> {
    Seq::new(BAR_CELLS as nat, |i: int| block_char(steps(capacity) - 8 * i))
}

/// The battery bar: the cells between two edges, of which a full charge covers the right one.
pub open spec fn bar(capacity: u8) -> Seq<char> {
    seq![BAR_LEFT] + bar_cells(capacity) + if capacity < 100 {
        seq![BAR_RIGHT]
    } else {
        seq![]
    }
}

/// How many of the thirty-two steps of the battery bar a charge fills.
pub fn battery_steps(capacity: u8) -> (filled: usize)
    ensures
        filled == steps(capacity),
        filled <= 32,
{
    let percent: usize = if capacity < 100 {
        capacity as usize
    } else {
        100
    };
    percent * 32 / 100
}

/// The battery bar.
pub fn battery_bar(capacity: u8) -> (text: String)
    ensures
        text@ == bar(capacity),
{
    let set = block_symbols();
    let eighths: usize = battery_steps(capacity);
    let full: usize = eighths / 8;
    let partial: usize = eighths % 8;

    let mut text = String::new();
    text.push(BAR_LEFT);
    let mut cell: usize = 0;
    while cell < BAR_CELLS
        invariant
            cell <= BAR_CELLS,
            set.complete(),
            eighths == steps(capacity),
            eighths <= 32,
            full == eighths / 8,
            partial == eighths % 8,
            text@ == seq![BAR_LEFT] + bar_cells(capacity).take(cell as int),
        decreases BAR_CELLS - cell,
    {
        let symbol: &str = if cell < full {
            set.full
        } else if cell == full {
            set.level(partial)
        } else {
            set.empty
        };
        text.append(symbol);
        proof {
            assert(symbol@ == seq![bar_cells(capacity)[cell as int]]);
        }
        cell = cell + 1;
    }
    assert(bar_cells(capacity).take(BAR_CELLS as int) =~= bar_cells(capacity));
    if capacity < 100 {
        text.push(BAR_RIGHT);
    }
    assert(text@ =~= bar(capacity));
    text
}

/// The colour of the battery bar: green while the battery charges from external power, else red
/// and yellow for a low charge.
pub open spec fn status_color(status: BatteryStatus, primary: Color) -> Color {
    if status.on_ac_power && status.is_charging {
        Color::Green
    } else if status.capacity <= 25 {
        Color::Red
    } else if status.capacity < 50 {
        Color::Yellow
    } else {
        primary
    }
}

/// The colour of the battery bar.
pub fn battery_color(status: BatteryStatus, primary: Color) -> (color: Color)
    ensures
        color == status_color(status, primary),
{
    if status.on_ac_power && status.is_charging {
        return Color::Green;
    }
    if status.capacity <= 25 {
        Color::Red
    } else if status.capacity < 50 {
        Color::Yellow
    } else {
        primary
    }
}

/// Whether the charge is shown in figures: when it is low, and while it grows.
pub open spec fn shows_percent(status: BatteryStatus) -> bool {
    status.capacity <= LOW_CAPACITY || (status.capacity < 100 && status.is_charging)
}

/// Whether the line shows that power comes in.
pub open spec fn shows_bolt(status: BatteryStatus) -> bool {
    status.is_charging || (status.on_ac_power && status.input_power_mw is Some)
}

/// The line on the battery: the bar, the charge in figures, a bolt, and the runtime, as far as
/// there is anything to say of each.
pub open spec fn label_spans(
    status: BatteryStatus,
    primary: Color,
    runtime: Seq<char>,
) -> Seq<SpanView> {
    let color = status_color(status, primary);
    let none = Seq::<SpanView>::empty();
    seq![SpanView { content: " "@ + bar(status.capacity), color: Some(color) }] + (if shows_percent(
        status,
    ) {
        seq![
            SpanView {
                content: " "@ + decimal(status.capacity as nat) + "%"@,
                color: Some(primary),
            },
        ]
    } else {
        none
    }) + (if shows_bolt(status) {
        seq![SpanView { content: " ⚡"@, color: Some(color) }]
    } else {
        none
    }) + (if runtime.len() > 0 {
        seq![SpanView { content: " "@ + runtime, color: Some(primary) }]
    } else {
        none
    }) + seq![SpanView { content: " "@, color: None }]
}

/// Appends a piece to a line.
fn push_span(spans: &mut Vec<Span>, content: String, color: Option<Color>)
    ensures
        spans_view(final(spans)@) == spans_view(old(spans)@) + seq![
            SpanView { content: content@, color },
        ],
{
    spans.push(Span { content, color });
    assert(spans_view(spans@) =~= spans_view(old(spans)@) + seq![
        SpanView { content: content@, color },
    ]);
}

/// The line on the battery.
pub fn battery_label(status: BatteryStatus, primary: Color, runtime: &str) -> (line: Vec<Span>)
    ensures
        spans_view(line@) == label_spans(status, primary, runtime@),
{
    let color = battery_color(status, primary);
    let mut spans: Vec<Span> = Vec::new();
    assert(spans_view(spans@) =~= Seq::<SpanView>::empty());

    let mut content = String::from_str(" ");
    content.append(battery_bar(status.capacity).as_str());
    push_span(&mut spans, content, Some(color));
    if status.capacity <= LOW_CAPACITY || status.capacity < 100 && status.is_charging {
        let mut content = String::from_str(" ");
        push_decimal(&mut content, status.capacity as u64);
        content.append("%");
        push_span(&mut spans, content, Some(primary));
    }
    if status.is_charging || status.on_ac_power && status.input_power_mw.is_some() {
        push_span(&mut spans, String::from_str(" ⚡"), Some(color));
    }
    if !runtime.is_empty() {
        let mut content = String::from_str(" ");
        content.append(runtime);
        push_span(&mut spans, content, Some(primary));
    }
    push_span(&mut spans, String::from_str(" "), None);
    assert(spans_view(spans@) =~= label_spans(status, primary, runtime@));
    spans
}

/// What a reading shows of the charge on battery: the steps of the bar, and the charge itself
/// where it is shown in figures.
pub open spec fn runtime_key(status: BatteryStatus) -> Option<(usize, Option<u8>)> {
    if status.on_ac_power {
        None
    } else {
        Some(
            (
                steps(status.capacity) as usize,
                if status.capacity <= LOW_CAPACITY {
                    Some(status.capacity)
                } else {
                    None
                },
            ),
        )
    }
}

/// What a reading shows of the charge on battery; the runtime is worked out anew when it changes.
pub fn battery_runtime_key(status: BatteryStatus) -> (key: Option<(usize, Option<u8>)>)
    ensures
        key == runtime_key(status),
{
    if status.on_ac_power {
        return None;
    }
    let low = if status.capacity <= LOW_CAPACITY {
        Some(status.capacity)
    } else {
        None
    };
    Some((battery_steps(status.capacity), low))
}

/// A time in minutes, or in hours and minutes from an hour up.
pub open spec fn minutes_text(minutes: nat) -> Seq<char> {
    if minutes >= 60 {
        decimal(minutes / 60) + "h"@ + two_digits(minutes % 60) + "m"@
    } else {
        decimal(minutes) + "m"@
    }
}

/// A time in minutes, or in hours and minutes from an hour up.
pub fn format_minutes(minutes: u64) -> (text: String)
    ensures
        text@ == minutes_text(minutes as nat),
{
    let mut text = String::new();
    if minutes >= 60 {
        push_decimal(&mut text, minutes / 60);
        text.append("h");
        push_two_digits(&mut text, minutes % 60);
        text.append("m");
    } else {
        push_decimal(&mut text, minutes);
        text.append("m");
    }
    assert(text@ =~= minutes_text(minutes as nat));
    text
}

/// For how many minutes an energy lasts under a load. The sixtyfold of the energy is cut off at
/// the largest number there is.
pub open spec fn runtime_minutes(energy_mwh: u64, watts: u64) -> nat
    recommends
        watts > 0,
{
    let product = if energy_mwh * 60 <= u64::MAX {
        (energy_mwh * 60) as nat
    } else {
        u64::MAX as nat
    };
    product / (watts * 1000) as nat
}

/// For how long an energy lasts under a load.
pub fn format_runtime(energy_mwh: u64, watts: u64) -> (text: String)
    requires
        0 < watts,
        watts * 1000 <= u64::MAX,
    ensures
        text@ == minutes_text(runtime_minutes(energy_mwh, watts)),
{
    let product: u64 = match energy_mwh.checked_mul(60) {
        Some(product) => product,
        None => u64::MAX,
    };
    format_minutes(product / (watts * 1000))
}

/// The text for a time on battery.
pub open spec fn battery_time_text(elapsed: u128) -> Seq<char> {
    "On battery "@ + minutes_text((elapsed / 60_000_000_000) as nat)
}

/// The text for a time on battery, given in nanoseconds.
pub fn battery_time_label(elapsed: u128) -> (text: String)
    requires
        elapsed <= DURATION_MAX,
    ensures
        text@ == battery_time_text(elapsed),
{
    let minutes: u64 = (elapsed / 60_000_000_000) as u64;
    let mut text = String::from_str("On battery ");
    text.append(format_minutes(minutes).as_str());
    text
}

/// For how long an energy lasts under one load.
pub open spec fn load_text(energy_mwh: u64, watts: u64) -> Seq<char> {
    minutes_text(runtime_minutes(energy_mwh, watts)) + "@"@ + decimal(watts as nat) + "W"@
}

/// For how long an energy lasts under a light, a middling and a heavy load.
pub open spec fn runtime_text(energy_mwh: u64) -> Seq<char> {
    load_text(energy_mwh, 20) + " "@ + load_text(energy_mwh, 50) + " "@ + load_text(energy_mwh, 99)
}

/// Appends for how long an energy lasts under one load.
fn push_load(text: &mut String, energy_mwh: u64, watts: u64)
    requires
        0 < watts,
        watts * 1000 <= u64::MAX,
    ensures
        final(text)@ == old(text)@ + load_text(energy_mwh, watts),
{
    text.append(format_runtime(energy_mwh, watts).as_str());
    text.append("@");
    push_decimal(text, watts);
    text.append("W");
    assert(text@ =~= old(text)@ + load_text(energy_mwh, watts));
}

/// For how long an energy lasts under a light, a middling and a heavy load.
pub fn battery_runtime(energy_mwh: u64) -> (text: String)
    ensures
        text@ == runtime_text(energy_mwh),
{
    let mut text = String::new();
    push_load(&mut text, energy_mwh, 20);
    text.append(" ");
    push_load(&mut text, energy_mwh, 50);
    text.append(" ");
    push_load(&mut text, energy_mwh, 99);
    assert(text@ =~= runtime_text(energy_mwh));
    text
}

/// Milliwatts in whole watts, rounded to the nearest; halfway, to the even one.
pub open spec fn rounded_watts(milliwatts: nat) -> nat {
    half_even(milliwatts, 1000)
}

/// The text on the power supply; none without external power.
pub open spec fn power_text(status: Option<BatteryStatus>) -> Seq<char> {
    match status {
        Some(status) if status.on_ac_power => match (status.input_power_mw, status.adapter_watts) {
            (Some(input), Some(max)) => "AC "@ + decimal(rounded_watts(input as nat)) + "/"@
                + decimal(max as nat) + "W"@,
            (Some(input), None) => "AC "@ + decimal(rounded_watts(input as nat)) + "W"@,
            (None, Some(max)) => "AC "@ + decimal(max as nat) + "W"@,
            (None, None) => "AC connected"@,
        },
        _ => Seq::empty(),
    }
}

/// Milliwatts in whole watts, rounded to the nearest; halfway, to the even one.
fn round_watts(milliwatts: u32) -> (watts: u64)
    ensures
        watts == rounded_watts(milliwatts as nat),
{
    round_half_even(milliwatts as u128, 1000) as u64
}

/// The text on the power supply.
pub fn power_label(status: Option<BatteryStatus>) -> (text: String)
    ensures
        text@ == power_text(status),
{
    let status = match status {
        Some(status) => status,
        None => {
            return String::new();
        },
    };
    if !status.on_ac_power {
        return String::new();
    }
    if status.input_power_mw.is_none() && status.adapter_watts.is_none() {
        return String::from_str("AC connected");
    }
    let mut text = String::from_str("AC ");
    if let Some(input) = status.input_power_mw {
        push_decimal(&mut text, round_watts(input));
    }
    if let Some(max) = status.adapter_watts {
        if status.input_power_mw.is_some() {
            text.append("/");
        }
        push_decimal(&mut text, max as u64);
    }
    text.append("W");
    assert(text@ =~= power_text(Some(status)));
    text
}

/// The battery bar has four cells between its edges, and always the left one; a full charge
/// takes the place of the right one.
pub proof fn law_bar_width(capacity: u8)
    ensures
        capacity < 100 ==> bar(capacity).len() == BAR_CELLS + 2,
        capacity >= 100 ==> bar(capacity).len() == BAR_CELLS + 1,
        bar(capacity)[0] == BAR_LEFT,
        capacity >= 100 ==> forall|i: int|
            1 <= i <= BAR_CELLS ==> #[trigger] bar(capacity)[i] == block_char(8),
{
}

/// A higher charge fills no fewer steps; none fills none of them, and a full one all.
pub proof fn law_steps_grow_with_the_charge(lower: u8, higher: u8)
    requires
        lower <= higher,
    ensures
        0 <= steps(lower) <= steps(higher) <= 32,
        steps(lower) == 0 <==> lower <= 3,
        steps(higher) == 32 <==> higher >= 100,
{
}

/// Two readings on battery with the same key look the same: the bar is the same, and so are the
/// figures, where there are any.
pub proof fn law_same_key_looks_the_same(a: BatteryStatus, b: BatteryStatus)
    requires
        !a.on_ac_power,
        !b.on_ac_power,
        runtime_key(a) == runtime_key(b),
    ensures
        bar(a.capacity) == bar(b.capacity),
        a.capacity <= LOW_CAPACITY || b.capacity <= LOW_CAPACITY ==> a.capacity == b.capacity,
{
    assert(bar(a.capacity) =~= bar(b.capacity));
}

/// Readings whose keys differ differ in the bar or in the figures: a runtime is worked out anew
/// only when the screen shows a change.
pub proof fn law_new_key_is_visible(a: BatteryStatus, b: BatteryStatus)
    requires
        !a.on_ac_power,
        !b.on_ac_power,
        runtime_key(a) != runtime_key(b),
    ensures
        bar(a.capacity) != bar(b.capacity) || (a.capacity != b.capacity && (a.capacity
            <= LOW_CAPACITY || b.capacity <= LOW_CAPACITY)),
{
    if steps(a.capacity) != steps(b.capacity) {
        let (low, high) = if steps(a.capacity) < steps(b.capacity) {
            (a.capacity, b.capacity)
        } else {
            (b.capacity, a.capacity)
        };
        let cell = steps(low) / 8;
        assert(0 <= cell < 4);
        assert(bar_cells(low)[cell] != bar_cells(high)[cell]);
        assert(bar(low)[cell + 1] == bar_cells(low)[cell]);
        assert(bar(high)[cell + 1] == bar_cells(high)[cell]);
    }
}

/// More energy lasts no shorter, and a heavier load drains no slower.
pub proof fn law_runtime_is_monotone(less: u64, more: u64, light: u64, heavy: u64)
    requires
        less <= more,
        0 < light <= heavy,
    ensures
        runtime_minutes(less, light) <= runtime_minutes(more, light),
        runtime_minutes(more, heavy) <= runtime_minutes(more, light),
{
    let low = if less * 60 <= u64::MAX {
        less * 60
    } else {
        u64::MAX as int
    };
    let high = if more * 60 <= u64::MAX {
        more * 60
    } else {
        u64::MAX as int
    };
    lemma_div_is_ordered(low, high, light * 1000);
    lemma_div_is_ordered_by_denominator(high, light * 1000, heavy * 1000);
}

} // verus!
