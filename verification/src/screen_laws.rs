//! What holds of the whole screen.

use crate::app::App;
use crate::battery::{battery_time_text, label_spans, power_text};
use crate::draw::{DrawView, title};
use crate::geometry::{Direction, Rect, cuts_at, divides, total_weight, weight_before};
use crate::metrics::SocInfo;
use crate::render::{cores_block, freq_block, mem_block, power_chart, split_mem_block};
use crate::screen::{
    Panes, brand, centered, cpu_label, has_middle, help_area, help_draws, help_has_room,
    help_lines, joined, lemma_equal_weights, lemma_help_width, lower_draws,
    paragraph, rows_within, screen, soc_title, supply_block, supply_title, time_text, total_title,
    upper_draws,
};
use crate::stores::{PowerStore, fans_text};
use crate::text::decimal;
use vstd::arithmetic::div_mod::lemma_fundamental_div_mod;
use vstd::prelude::*;

verus! {

/// What a border leaves of an area is one cell less on each side, where there are as many; an
/// area that ends past the largest coordinate ends there instead, and any other stays as it is.
pub proof fn law_borders_take_one_cell_on_each_side(area: Rect)
    ensures
        area.fits() && area.width >= 2 && area.height >= 2 ==> {
            let inner = area.bordered_inner();
            &&& inner.x == area.x + 1
            &&& inner.y == area.y + 1
            &&& inner.x + inner.width == area.x + area.width - 1
            &&& inner.y + inner.height == area.y + area.height - 1
        },
        area.fits() ==> Rect::clip(area.x, area.y, area.width, area.height) == area,
        Rect::clip(area.x, area.y, area.width, area.height).fits(),
        area.x + area.width >= 65_535 ==> area.x + Rect::clip(
            area.x,
            area.y,
            area.width,
            area.height,
        ).width == 65_535,
        area.y + area.height >= 65_535 ==> area.y + Rect::clip(
            area.x,
            area.y,
            area.width,
            area.height,
        ).height == 65_535,
{
}

/// The upper frame takes two thirds of the screen, to the nearest cell.
pub proof fn law_upper_frame_takes_two_thirds(app: App, area: Rect, panes: Panes)
    requires
        area.fits(),
        panes.placed(app, area),
    ensures
        -3 <= 2 * (3 * panes.upper.height - 2 * area.height) <= 3,
{
    reveal_with_fuel(weight_before, 3);
    let weights = seq![2u16, 1];
    let parts = seq![panes.upper, panes.lower];
    let len = area.height as int;
    assert(parts[0] == panes.upper);
    assert(total_weight(weights) == 3);
    assert(weight_before(weights, 0) == 0 && weight_before(weights, 1) == 2);
    assert(divides(Direction::Vertical, weights, area, parts));
    assert(cuts_at(panes.upper.y - area.y, len, weights, 0));
    assert(cuts_at(panes.upper.y + panes.upper.height - area.y, len, weights, 1));
    assert(len * 0 == 0 && len * 2 == len + len) by (nonlinear_arith);
    assert(panes.upper.y - area.y == (2 * (len * 0) + 3) / 6);
    assert(panes.upper.y + panes.upper.height - area.y == (2 * (len * 2) + 3) / 6);
}

/// Rows that share a frame are as high as each other, but for one cell.
pub proof fn law_rows_are_equally_high(count: nat, frame: Rect, rows: Seq<Rect>, i: int, j: int)
    requires
        frame.fits(),
        0 < count < 100,
        rows_within(true, count, frame, rows),
        0 <= i < count,
        0 <= j < count,
    ensures
        -1 <= rows[i].height - rows[j].height <= 1,
{
    let len = frame.bordered_inner().height as int;
    lemma_equal_weights(count, count as int);
    lemma_equal_weights(count, i);
    lemma_equal_weights(count, i + 1);
    lemma_equal_weights(count, j);
    lemma_equal_weights(count, j + 1);
    lemma_cut_difference(len, count as int, i);
    lemma_cut_difference(len, count as int, j);
}

/// The distance of two cuts next to each other is the length over the number of parts, or one
/// more.
proof fn lemma_cut_difference(len: int, count: int, at: int)
    requires
        len >= 0,
        count > 0,
        at >= 0,
    ensures
        len / count <= (2 * (len * (at + 1)) + count) / (2 * count) - (2 * (len * at) + count) / (2
            * count) <= len / count + 1,
{
    let first = 2 * (len * at) + count;
    let second = 2 * (len * (at + 1)) + count;
    assert(len * (at + 1) == len * at + len) by (nonlinear_arith);
    let step = 2 * count;
    lemma_fundamental_div_mod(first, step);
    lemma_fundamental_div_mod(second, step);
    lemma_fundamental_div_mod(len, count);
    let (p, q, k) = (first / step, second / step, len / count);
    let (r, s, t) = (first % step, second % step, len % count);
    assert(step * (q - p) == second - s - (first - r)) by (nonlinear_arith)
        requires
            first == step * p + r,
            second == step * q + s,
    ;
    assert(2 * len == step * k + 2 * t) by (nonlinear_arith)
        requires
            len == count * k + t,
            step == 2 * count,
    ;
    assert(q - p >= k) by (nonlinear_arith)
        requires
            step * (q - p) == step * k + 2 * t - s + r,
            0 <= s < step,
            0 <= r,
            0 <= t,
            step > 0,
    ;
    assert(q - p <= k + 1) by (nonlinear_arith)
        requires
            step * (q - p) == step * k + 2 * t - s + r,
            0 <= s,
            r < step,
            2 * t < step,
            step > 0,
    ;
}

/// The title of the machine names the chip, and in brackets the cores of each kind with the label
/// of the kind, the graphics cores, and the memory.
pub proof fn law_machine_is_named_with_its_parts(soc: SocInfo, name: Seq<char>, version: Seq<char>)
    ensures
        soc_title(soc) == soc.chip_name@ + " ("@ + (decimal(soc.ecpu_cores as nat)
            + soc.ecpu_label@) + "+"@ + (decimal(soc.pcpu_cores as nat) + soc.pcpu_label@) + "+"@
            + (decimal(soc.gpu_cores as nat) + "GPU "@) + (decimal(soc.memory_gb as nat) + "GB)"@),
        brand(name, version) == name + " v"@ + version,
        cpu_label(name) == name + "-CPU"@,
{
    assert(soc_title(soc) =~= soc.chip_name@ + " ("@ + (decimal(soc.ecpu_cores as nat)
        + soc.ecpu_label@) + "+"@ + (decimal(soc.pcpu_cores as nat) + soc.pcpu_label@) + "+"@ + (
    decimal(soc.gpu_cores as nat) + "GPU "@) + (decimal(soc.memory_gb as nat) + "GB)"@));
}

/// The power of the whole machine is named with its latest, its mean and its largest value.
pub proof fn law_total_power_is_named_with_its_figures(val: PowerStore)
    ensures
        total_title(val) == "Power: "@ + (val.top_value@ + "W (avg "@) + (val.avg_value@
            + "W, max "@) + (val.max_value@ + "W)"@),
{
    assert(total_title(val) =~= "Power: "@ + (val.top_value@ + "W (avg "@) + (val.avg_value@
        + "W, max "@) + (val.max_value@ + "W)"@));
}

/// Texts are joined in their order, with a stroke between each two; an empty text leaves no trace,
/// wherever it stands.
pub proof fn law_empty_texts_leave_no_trace(
    before: Seq<Seq<char>>,
    after: Seq<Seq<char>>,
    text: Seq<char>,
)
    ensures
        joined(Seq::empty()).len() == 0,
        joined(seq![text]) == text,
        joined(before + seq![Seq::<char>::empty()] + after) == joined(before + after),
        text.len() > 0 && joined(before).len() > 0 ==> joined(before + seq![text]) == joined(before)
            + " | "@ + text,
    decreases after.len(),
{
    reveal_with_fuel(joined, 2);
    assert(seq![text].drop_last() =~= Seq::<Seq<char>>::empty());
    assert(joined(seq![text]) =~= text);
    let none = seq![Seq::<char>::empty()];
    assert((before + seq![text]).drop_last() =~= before);
    if after.len() == 0 {
        assert((before + none + after).drop_last() =~= before);
        assert((before + none + after).last() =~= Seq::<char>::empty());
        assert(before + after =~= before);
    } else {
        law_empty_texts_leave_no_trace(before, after.drop_last(), text);
        assert((before + none + after).drop_last() =~= before + none + after.drop_last());
        assert((before + after).drop_last() =~= before + after.drop_last());
        assert((before + none + after).last() == after.last());
        assert((before + after).last() == after.last());
    }
}

/// What is said of the supply: on battery the time on battery, on external power what is known of
/// it, and then the fans, with strokes between them.
#[verifier::rlimit(30)]
pub proof fn law_supply_is_told_in_order(app: App, now: u128)
    ensures
        app.battery_timer.on_battery() ==> time_text(app, now) == battery_time_text(
            app.battery_timer.total(now) as u128,
        ),
        !app.battery_timer.on_battery() ==> time_text(app, now).len() == 0,
        ({
            let time = time_text(app, now);
            let power = power_text(app.battery);
            let fans = fans_text(app.fans.items@);
            let shown = supply_title(app, now);
            &&& time.len() > 0 && power.len() == 0 && fans.len() > 0 ==> shown == time + " | "@
                + fans
            &&& time.len() == 0 && power.len() > 0 && fans.len() > 0 ==> shown == power + " | "@
                + fans
            &&& time.len() > 0 && power.len() > 0 && fans.len() > 0 ==> shown == time + " | "@
                + power + " | "@ + fans
            &&& time.len() > 0 && power.len() > 0 && fans.len() == 0 ==> shown == time + " | "@
                + power
            &&& time.len() > 0 && power.len() == 0 && fans.len() == 0 ==> shown == time
            &&& time.len() == 0 && power.len() > 0 && fans.len() == 0 ==> shown == power
            &&& time.len() == 0 && power.len() == 0 ==> shown == fans
        }),
{
    reveal_with_fuel(joined, 4);
    let time = time_text(app, now);
    let power = power_text(app.battery);
    let fans = fans_text(app.fans.items@);
    let labels = seq![time, power, fans];
    assert(labels.drop_last() =~= seq![time, power]);
    assert(labels.drop_last().drop_last() =~= seq![time]);
    assert(labels.drop_last().drop_last().drop_last() =~= Seq::<Seq<char>>::empty());
    if time.len() == 0 && power.len() == 0 && fans.len() == 0 {
        assert(supply_title(app, now) =~= fans);
    }
}

/// The lower frame says what power the machine takes and what supplies it, above; below it shows
/// the battery, where there is one, with its runtime, and where the help is to be found.
pub proof fn law_lower_frame_shows_the_battery(app: App, now: u128)
    ensures
        ({
            let block = supply_block(app, now);
            &&& block.color == app.cfg.color
            &&& block.top_left == title(total_title(app.all_power))
            &&& block.top_right == title(supply_title(app, now))
            &&& block.bottom_right == Some(" ? "@)
            &&& app.battery is None ==> block.bottom_left is None
            &&& app.battery is Some ==> block.bottom_left == Some(
                label_spans(app.battery->0, app.cfg.color, app.battery_runtime@),
            )
        }),
{
}

/// Below the lower frame's border stand the powers of the processors, with their temperatures,
/// and of the whole machine, each in its own place with its own history.
pub proof fn law_each_power_has_its_place(app: App, panes: Panes, now: u128)
    ensures
        ({
            let draws = lower_draws(app, panes, now);
            let cpu_temp = if app.cpu_temp.items@.len() == 0 {
                None
            } else {
                Some(app.cpu_temp.items@[0])
            };
            let gpu_temp = if app.gpu_temp.items@.len() == 0 {
                None
            } else {
                Some(app.gpu_temp.items@[0])
            };
            let color = app.cfg.color;
            &&& draws.len() == 4
            &&& draws[0] == DrawView::Frame { area: panes.lower, block: supply_block(app, now) }
            &&& draws[1] == power_chart(color, panes.cpu_power, "CPU"@, app.cpu_power, cpu_temp)
            &&& draws[2] == power_chart(color, panes.gpu_power, "GPU"@, app.gpu_power, gpu_temp)
            &&& draws[3] == power_chart(color, panes.sys_power, "Total"@, app.sys_power, None)
        }),
{
}

/// In the plain view each processor and the memory has one piece in its own place; in the detailed
/// view each kind of cores has its frame and its rows, and so have the memory and the swap. The
/// graphics processor has one piece in either view.
pub proof fn law_each_processor_has_its_place(app: App, panes: Panes)
    ensures
        ({
            let draws = upper_draws(app, panes);
            let ecpu = app.soc.ecpu_label@ + "-CPU"@;
            let pcpu = app.soc.pcpu_label@ + "-CPU"@;
            &&& draws.len() > 0
            &&& draws.last() == freq_block(app.cfg, panes.gpu, "GPU"@, app.igpu_freq@)
            &&& !app.cfg.per_core_view ==> {
                &&& draws.len() == 4
                &&& draws[0] == freq_block(app.cfg, panes.ecpu, ecpu, app.ecpu_freq@.aggregate)
                &&& draws[1] == freq_block(app.cfg, panes.pcpu, pcpu, app.pcpu_freq@.aggregate)
                &&& draws[2] == mem_block(app.cfg, panes.mem, app.mem)
            }
            &&& app.cfg.per_core_view ==> draws.drop_last() == cores_block(
                app.cfg,
                panes.ecpu,
                ecpu,
                app.ecpu_freq@,
                panes.ecpu_cores@,
            ) + cores_block(app.cfg, panes.pcpu, pcpu, app.pcpu_freq@, panes.pcpu_cores@)
                + split_mem_block(app.cfg, panes.mem, app.mem, panes.mem_sections@)
        }),
{
    let draws = upper_draws(app, panes);
    if app.cfg.per_core_view {
        let ecpu = app.soc.ecpu_label@ + "-CPU"@;
        let pcpu = app.soc.pcpu_label@ + "-CPU"@;
        assert(draws.drop_last() =~= cores_block(
            app.cfg,
            panes.ecpu,
            ecpu,
            app.ecpu_freq@,
            panes.ecpu_cores@,
        ) + cores_block(app.cfg, panes.pcpu, pcpu, app.pcpu_freq@, panes.pcpu_cores@)
            + split_mem_block(app.cfg, panes.mem, app.mem, panes.mem_sections@));
    }
}

/// The screen is drawn from the top down: the upper frame, with the machine on the left and the
/// program on the right of its border, what stands in it, the lower frame with what stands in it,
/// and the help last.
#[verifier::rlimit(30)]
pub proof fn law_screen_is_drawn_from_the_top(
    app: App,
    area: Rect,
    panes: Panes,
    now: u128,
    name: Seq<char>,
    version: Seq<char>,
)
    ensures
        ({
            let draws = screen(app, area, panes, now, name, version);
            let upper = upper_draws(app, panes);
            let lower = lower_draws(app, panes, now);
            let help = help_draws(app, area);
            &&& draws.len() == 1int + upper.len() + lower.len() + help.len()
            &&& draws[0] is Frame
            &&& draws[0]->Frame_area == panes.upper
            &&& draws[0]->Frame_block.color == app.cfg.color
            &&& draws[0]->Frame_block.top_left == title(soc_title(app.soc))
            &&& draws[0]->Frame_block.top_right == title(name + " v"@ + version)
            &&& draws.subrange(1, 1int + upper.len()) == upper
            &&& draws.subrange(1int + upper.len(), 1int + upper.len() + lower.len()) == lower
            &&& draws.skip(1int + upper.len() + lower.len()) == help
        }),
{
    let draws = screen(app, area, panes, now, name, version);
    let upper = upper_draws(app, panes);
    let lower = lower_draws(app, panes, now);
    assert(draws.subrange(1, 1int + upper.len()) =~= upper);
    assert(draws.subrange(1int + upper.len(), 1int + upper.len() + lower.len()) =~= lower);
    assert(draws.skip(1int + upper.len() + lower.len()) =~= help_draws(app, area));
}

/// What stands in the middle has the size that was asked for, as far as there is room, and as
/// much room on one side as on the other, but for one cell.
pub proof fn law_middle_has_equal_margins(area: Rect, width: u16, height: u16)
    requires
        area.fits(),
    ensures
        ({
            let inner = centered(area, width, height);
            let right = area.x + area.width - (inner.x + inner.width);
            let below = area.y + area.height - (inner.y + inner.height);
            &&& inner.width == width || inner.width == area.width
            &&& inner.width <= width && inner.width <= area.width
            &&& inner.height == height || inner.height == area.height
            &&& inner.height <= height && inner.height <= area.height
            &&& 0 <= right - (inner.x - area.x) <= 1
            &&& 0 <= below - (inner.y - area.y) <= 1
            &&& has_middle(area, width, height)
        }),
{
}

/// The help is shown exactly where it was asked for: over an area in the middle that is cleared,
/// for 30 columns and eight lines of text within a border, with its own title.
pub proof fn law_help_is_shown_in_the_middle(app: App, area: Rect)
    requires
        area.fits(),
    ensures
        help_has_room(app, area),
        !app.show_help ==> help_draws(app, area).len() == 0,
        app.show_help ==> {
            let draws = help_draws(app, area);
            let popup = centered(area, 32, 10);
            &&& draws.len() == 2
            &&& draws[0] == DrawView::Clear { area: popup }
            &&& draws[1] is Text
            &&& draws[1]->Text_area == popup
            &&& draws[1]->Text_color == app.cfg.color
            &&& draws[1]->Text_block.top_left == title("Help"@)
            &&& draws[1]->Text_block.color == app.cfg.color
            &&& draws[1]->Text_text == paragraph(help_lines())
        },
        help_area(area) == centered(area, 32, 10),
{
    lemma_help_width();
}

/// Lines stand one below the other: those of two paragraphs, with a line break between them, are
/// those of both; a single line is a paragraph.
pub proof fn law_lines_stand_one_below_the_other(
    first: Seq<Seq<char>>,
    second: Seq<Seq<char>>,
    line: Seq<char>,
)
    requires
        first.len() > 0,
        second.len() > 0,
    ensures
        paragraph(seq![line]) == line,
        paragraph(first + second) == paragraph(first) + "\n"@ + paragraph(second),
    decreases second.len(),
{
    reveal_with_fuel(paragraph, 2);
    assert((first + second).drop_last() =~= first + second.drop_last());
    assert((first + second).last() == second.last());
    if second.len() == 1 {
        assert(first + second.drop_last() =~= first);
        assert(second[0] == second.last());
    } else {
        law_lines_stand_one_below_the_other(first, second.drop_last(), line);
        assert(paragraph(first + second) =~= paragraph(first) + "\n"@ + paragraph(second));
    }
}

} // verus!
