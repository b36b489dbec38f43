//! What holds of everything that the screen says of the battery.

use crate::battery::{
    BatteryStatus, bar, bar_cells, battery_time_text, label_spans, load_text, minutes_text,
    power_text, rounded_watts, runtime_key, runtime_minutes, runtime_text, status_color, steps,
};
use crate::style::{Color, SpanView};
use crate::text::{decimal, two_digits};
use crate::text_laws::{law_decimal_is_unique, law_decimal_reads_back, law_two_digits_read_back};
use vstd::arithmetic::div_mod::lemma_fundamental_div_mod_converse;
use vstd::prelude::*;

verus! {

/// Whether a charge fills `filled` of the thirty-two steps of the bar: as many as its share of a
/// full charge covers.
pub open spec fn fills(capacity: u8, filled: int) -> bool {
    let charge = if capacity < 100 {
        capacity as int
    } else {
        100
    };
    100 * filled <= 32 * charge < 100 * (filled + 1)
}

/// A charge fills as many steps as its share of a full charge covers.
pub proof fn law_steps_are_the_share_of_the_charge(capacity: u8)
    ensures
        fills(capacity, steps(capacity)),
{
}

/// The bar of a charge that fills so many steps: between its edges, cells of eight steps each are
/// filled from the left, with the block characters of Unicode, of which the full one is U+2588
/// and that for one eighth U+258F. A full charge stands in the place of the right edge.
pub proof fn law_bar_shows_the_charge(capacity: u8, filled: int)
    requires
        fills(capacity, filled),
    ensures
        bar(capacity)[0] as int == 0x2595,
        forall|i: int|
            0 <= i < 4 ==> {
                let cell = #[trigger] bar(capacity)[i + 1] as int;
                if filled >= 8 * i + 8 {
                    cell == 0x2588
                } else if filled <= 8 * i {
                    cell == 0x20
                } else {
                    cell == 0x2590 - (filled - 8 * i)
                }
            },
        capacity < 100 ==> bar(capacity).len() == 6 && bar(capacity)[5] as int == 0x258f,
        capacity >= 100 ==> bar(capacity).len() == 5,
{
    assert(filled == steps(capacity));
    assert forall|i: int| 0 <= i < 4 implies #[trigger] bar(capacity)[i + 1] == bar_cells(
        capacity,
    )[i] by {}
}

/// Green stands for a battery that charges from external power; of any other, a charge up to 25
/// is red, one from 26 to 49 yellow, and a higher one has the colour of everything else.
pub proof fn law_color_tells_the_charge(status: BatteryStatus, primary: Color)
    ensures
        status.on_ac_power && status.is_charging ==> status_color(status, primary) == Color::Green,
        !(status.on_ac_power && status.is_charging) ==> {
            &&& status.capacity <= 25 ==> status_color(status, primary) == Color::Red
            &&& 26 <= status.capacity <= 49 ==> status_color(status, primary) == Color::Yellow
            &&& 50 <= status.capacity ==> status_color(status, primary) == primary
        },
{
}

/// The colour does not depend on anything else: not on what the adapter gives, nor on what is
/// left in the battery.
pub proof fn law_color_depends_on_charge_and_power(
    a: BatteryStatus,
    b: BatteryStatus,
    primary: Color,
)
    requires
        a.capacity == b.capacity,
        (a.on_ac_power && a.is_charging) == (b.on_ac_power && b.is_charging),
    ensures
        status_color(a, primary) == status_color(b, primary),
{
}

/// The charge in figures, as the line on the battery shows it.
pub open spec fn figures(capacity: u8, primary: Color) -> SpanView {
    SpanView { content: " "@ + decimal(capacity as nat) + "%"@, color: Some(primary) }
}

/// How many pieces a condition adds: one where it holds.
pub open spec fn one_if(condition: bool) -> int {
    if condition {
        1
    } else {
        0
    }
}

/// The line on the battery, piece by piece: the bar in the colour of the charge; the figures up
/// to a charge of 15, and below a full one while it charges; a bolt in the colour of the charge
/// while the battery charges, and on external power that is measured; the runtime, if there is
/// one; and a space at the end.
#[verifier::rlimit(30)]
pub proof fn law_line_has_its_pieces(status: BatteryStatus, primary: Color, runtime: Seq<char>)
    ensures
        ({
            let line = label_spans(status, primary, runtime);
            let color = Some(status_color(status, primary));
            let low = status.capacity <= 15;
            let shown = one_if(low || (status.is_charging && status.capacity <= 99));
            let bolts = one_if(
                status.is_charging || (status.on_ac_power && status.input_power_mw is Some),
            );
            let times = one_if(runtime != Seq::<char>::empty());
            &&& line.len() == 2 + shown + bolts + times
            &&& line[0] == SpanView { content: " "@ + bar(status.capacity), color }
            &&& shown == 1 ==> line[1] == figures(status.capacity, primary)
            &&& bolts == 1 ==> line[1 + shown] == SpanView { content: " ⚡"@, color }
            &&& times == 1 ==> line[1 + shown + bolts] == SpanView {
                content: " "@ + runtime,
                color: Some(primary),
            }
            &&& line.last() == SpanView { content: " "@, color: None }
        }),
{
    if runtime.len() == 0 {
        assert(runtime =~= Seq::<char>::empty());
    }
}

/// A charge of 15 or less is shown in figures, whatever the power source and whether it charges.
pub proof fn law_low_charge_is_shown_in_figures(
    status: BatteryStatus,
    primary: Color,
    runtime: Seq<char>,
)
    requires
        status.capacity <= 15,
    ensures
        label_spans(status, primary, runtime).contains(figures(status.capacity, primary)),
{
    law_line_has_its_pieces(status, primary, runtime);
    assert(label_spans(status, primary, runtime)[1] == figures(status.capacity, primary));
}

/// A charge above 15 is shown in figures exactly while the battery charges and is not full. The
/// runtime must not end in a percent sign, since a runtime of that form looks like the figures.
#[verifier::rlimit(30)]
pub proof fn law_higher_charge_is_shown_in_figures_while_it_grows(
    status: BatteryStatus,
    primary: Color,
    runtime: Seq<char>,
)
    requires
        status.capacity > 15,
        runtime.len() > 0 ==> runtime.last() != '%',
    ensures
        label_spans(status, primary, runtime).contains(figures(status.capacity, primary)) <==> (
        status.is_charging && status.capacity < 100),
{
    reveal_strlit(" ");
    reveal_strlit("%");
    reveal_strlit(" ⚡");
    law_line_has_its_pieces(status, primary, runtime);
    let line = label_spans(status, primary, runtime);
    let wanted = figures(status.capacity, primary);
    assert(wanted.content.last() == '%');
    if status.is_charging && status.capacity < 100 {
        assert(line[1] == wanted);
    } else if line.contains(wanted) {
        let i = choose|i: int| 0 <= i < line.len() && line[i] == wanted;
        law_bar_shows_the_charge(status.capacity, steps(status.capacity));
        let first = line[0].content;
        assert(first.last() == bar(status.capacity).last());
        assert(bar(status.capacity)[3int + 1] as int == 0x2588 || status.capacity < 100);
        assert(first.last() as int != '%' as int);
        if runtime.len() > 0 {
            assert((" "@ + runtime).last() == runtime.last());
        }
        assert(false);
    }
}

/// The key of a reading: there is one exactly on battery; it holds the steps of the bar, and the
/// charge itself where that is 15 or less.
pub proof fn law_key_holds_what_is_shown(status: BatteryStatus)
    ensures
        runtime_key(status) is None <==> status.on_ac_power,
        !status.on_ac_power ==> {
            let (filled, low) = runtime_key(status)->0;
            &&& fills(status.capacity, filled as int)
            &&& status.capacity <= 15 ==> low == Some(status.capacity)
            &&& status.capacity > 15 ==> low is None
        },
{
}

/// A time of so many hours and minutes is written with both, the minutes in two digits, unless
/// it is less than an hour.
pub proof fn law_minutes_are_written_with_their_hours(hours: nat, minutes: nat)
    requires
        minutes < 60,
    ensures
        hours == 0 ==> minutes_text(hours * 60 + minutes) == decimal(minutes) + "m"@,
        hours > 0 ==> minutes_text(hours * 60 + minutes) == decimal(hours) + "h"@ + two_digits(
            minutes,
        ) + "m"@,
{
}

/// Different times look different.
#[verifier::rlimit(30)]
pub proof fn law_times_are_told_apart(a: nat, b: nat)
    requires
        minutes_text(a) == minutes_text(b),
    ensures
        a == b,
{
    reveal_strlit("h");
    reveal_strlit("m");
    let text = minutes_text(a);
    if a < 60 && b < 60 {
        assert(text.drop_last() =~= decimal(a));
        assert(minutes_text(b).drop_last() =~= decimal(b));
        law_decimal_is_unique(a, b);
    } else if a >= 60 && b >= 60 {
        assert(text.take(text.len() - 4) =~= decimal(a / 60));
        assert(minutes_text(b).take(text.len() - 4) =~= decimal(b / 60));
        law_decimal_is_unique(a / 60, b / 60);
        let digits = text.subrange(text.len() - 3, text.len() - 1);
        assert(digits =~= two_digits(a % 60));
        assert(minutes_text(b).subrange(text.len() - 3, text.len() - 1) =~= two_digits(b % 60));
        law_two_digits_read_back(a % 60);
        law_two_digits_read_back(b % 60);
    } else if a >= 60 {
        lemma_hours_need_an_hour(a, b);
    } else {
        lemma_hours_need_an_hour(b, a);
    }
}

/// A time of an hour or more looks like no shorter one.
proof fn lemma_hours_need_an_hour(long: nat, short: nat)
    requires
        long >= 60,
        short < 60,
    ensures
        minutes_text(long) != minutes_text(short),
{
    reveal_strlit("h");
    reveal_strlit("m");
    law_decimal_reads_back(short);
    let (text, other) = (minutes_text(long), minutes_text(short));
    let at = decimal(long / 60).len() as int;
    assert(text[at] == 'h');
    if text == other {
        assert(other[at] == 'h');
        if at < other.len() - 1 {
            assert(other[at] == decimal(short)[at]);
        }
    }
}

/// Sixty times an energy, or the largest number there is where that is more.
pub open spec fn sixtyfold(energy_mwh: u64) -> int {
    if energy_mwh * 60 <= 0xffff_ffff_ffff_ffff {
        energy_mwh * 60
    } else {
        0xffff_ffff_ffff_ffff
    }
}

/// Under a load an energy lasts for as many whole minutes as the load can be kept up.
pub proof fn law_minutes_use_up_the_energy(energy_mwh: u64, watts: u64, minutes: nat)
    requires
        0 < watts,
        minutes * (watts * 1000) <= sixtyfold(energy_mwh) < (minutes + 1) * (watts * 1000),
    ensures
        runtime_minutes(energy_mwh, watts) == minutes,
{
    let load = watts * 1000;
    let rest = sixtyfold(energy_mwh) - minutes * load;
    assert((minutes + 1) * load == minutes * load + load) by (nonlinear_arith);
    lemma_fundamental_div_mod_converse(sixtyfold(energy_mwh), load, minutes as int, rest);
}

/// The three loads in decimal.
proof fn lemma_loads_in_decimal()
    ensures
        decimal(20) == seq!['2', '0'],
        decimal(50) == seq!['5', '0'],
        decimal(99) == seq!['9', '9'],
{
    reveal_with_fuel(decimal, 3);
    assert(decimal(20) =~= seq!['2', '0']);
    assert(decimal(50) =~= seq!['5', '0']);
    assert(decimal(99) =~= seq!['9', '9']);
}

/// A text with a load of two digits behind it.
proof fn lemma_text_with_load(text: Seq<char>, tens: char, units: char, load: Seq<char>)
    requires
        load == seq!['@', tens, units, 'W'],
    ensures
        text + "@"@ + seq![tens, units] + "W"@ == text + load,
{
    reveal_strlit("@");
    reveal_strlit("W");
    assert(text + "@"@ + seq![tens, units] + "W"@ =~= text + load);
}

/// Three texts with their loads, one after the other.
#[verifier::rlimit(30)]
proof fn lemma_texts_in_a_row(a: Seq<char>, b: Seq<char>, c: Seq<char>)
    ensures
        (a + seq!['@', '2', '0', 'W']) + " "@ + (b + seq!['@', '5', '0', 'W']) + " "@ + (c
            + seq!['@', '9', '9', 'W']) == a + "@20W "@ + b + "@50W "@ + c + "@99W"@,
{
    reveal_strlit(" ");
    reveal_strlit("@20W ");
    reveal_strlit("@50W ");
    reveal_strlit("@99W");
    assert(seq!['@', '2', '0', 'W'] + " "@ =~= "@20W "@);
    assert(seq!['@', '5', '0', 'W'] + " "@ =~= "@50W "@);
    assert(seq!['@', '9', '9', 'W'] =~= "@99W"@);
    assert((a + seq!['@', '2', '0', 'W']) + " "@ + (b + seq!['@', '5', '0', 'W']) + " "@ + (c
        + seq!['@', '9', '9', 'W']) =~= a + (seq!['@', '2', '0', 'W'] + " "@) + b + (seq![
        '@',
        '5',
        '0',
        'W',
    ] + " "@) + c + seq!['@', '9', '9', 'W']);
}

/// The runtime says of a load of 20, 50 and 99 watts for how many minutes the energy keeps it up.
pub proof fn law_runtime_is_that_of_the_energy(
    energy_mwh: u64,
    light: nat,
    middling: nat,
    heavy: nat,
)
    requires
        light * 20_000 <= sixtyfold(energy_mwh) < (light + 1) * 20_000,
        middling * 50_000 <= sixtyfold(energy_mwh) < (middling + 1) * 50_000,
        heavy * 99_000 <= sixtyfold(energy_mwh) < (heavy + 1) * 99_000,
    ensures
        runtime_text(energy_mwh) == minutes_text(light) + "@20W "@ + minutes_text(middling)
            + "@50W "@ + minutes_text(heavy) + "@99W"@,
{
    law_minutes_use_up_the_energy(energy_mwh, 20, light);
    law_minutes_use_up_the_energy(energy_mwh, 50, middling);
    law_minutes_use_up_the_energy(energy_mwh, 99, heavy);
    lemma_loads_in_decimal();
    let (a, b, c) = (minutes_text(light), minutes_text(middling), minutes_text(heavy));
    lemma_text_with_load(a, '2', '0', seq!['@', '2', '0', 'W']);
    lemma_text_with_load(b, '5', '0', seq!['@', '5', '0', 'W']);
    lemma_text_with_load(c, '9', '9', seq!['@', '9', '9', 'W']);
    assert(load_text(energy_mwh, 20) == a + seq!['@', '2', '0', 'W']);
    assert(load_text(energy_mwh, 50) == b + seq!['@', '5', '0', 'W']);
    assert(load_text(energy_mwh, 99) == c + seq!['@', '9', '9', 'W']);
    lemma_texts_in_a_row(a, b, c);
}

/// A time on battery is written in the whole minutes that have passed.
pub proof fn law_battery_time_is_in_whole_minutes(elapsed: u128, minutes: nat)
    requires
        minutes * 60_000_000_000 <= elapsed < (minutes + 1) * 60_000_000_000,
    ensures
        battery_time_text(elapsed) == "On battery "@ + minutes_text(minutes),
{
}

/// Whether a number of watts is the nearest to so many milliwatts, and the even one halfway.
pub open spec fn is_nearest(watts: nat, milliwatts: nat) -> bool {
    &&& -1000 <= 2 * (watts * 1000 - milliwatts) <= 1000
    &&& 2 * (watts * 1000 - milliwatts) == 1000 || 2 * (watts * 1000 - milliwatts) == -1000
        ==> watts % 2 == 0
}

/// The text on the power supply: none without external power; else what comes in, to the nearest
/// watt, and what the adapter can deliver, as far as each is known.
pub proof fn law_power_is_shown_as_far_as_known(status: BatteryStatus, watts: nat)
    requires
        status.input_power_mw is Some ==> is_nearest(watts, status.input_power_mw->0 as nat),
    ensures
        power_text(None).len() == 0,
        !status.on_ac_power ==> power_text(Some(status)).len() == 0,
        status.on_ac_power ==> power_text(Some(status)) == match (
            status.input_power_mw,
            status.adapter_watts,
        ) {
            (None, None) => "AC connected"@,
            (None, Some(most)) => "AC "@ + decimal(most as nat) + "W"@,
            (Some(_), None) => "AC "@ + decimal(watts) + "W"@,
            (Some(_), Some(most)) => "AC "@ + decimal(watts) + "/"@ + decimal(most as nat) + "W"@,
        },
{
    if status.input_power_mw is Some {
        assert(rounded_watts(status.input_power_mw->0 as nat) == watts);
    }
}

} // verus!
