//! What holds of every piece that is drawn.

use crate::config::{Config, RatioMode, ViewType};
use crate::cores::{CoreView, CpuFreqStoreView};
use crate::draw::{BlockView, DrawView, has_room, label_width, labelled_chart, title, titled};
use crate::geometry::Rect;
use crate::metrics::Temp;
use crate::render::{
    core_has_room, core_label, core_row, core_rows, cores_block, cores_have_room, cores_title,
    freq_block, freq_title, gauge_label, mem_block, mem_has_room, mem_section, mem_section_count,
    newest, power_chart, ram_label, ram_title, split_mem_block, swap_label, swap_title,
};
use crate::stores::{FreqStoreView, MemoryStore, PowerStore, SeriesView};
use crate::style::{Color, SpanView};
use crate::text::{decimal, pad_left};
use crate::units::{over_half, with_hundredths, with_tenths};
use vstd::prelude::*;
use vstd::utf8::encode_utf8;

verus! {

/// A title stands on the border with a space on either side and nothing else; there is none
/// exactly for an empty label.
pub proof fn law_titles_stand_between_spaces(label: Seq<char>)
    ensures
        title(label) is None <==> label.len() == 0,
        title(label) is Some ==> {
            let text = title(label)->0;
            &&& text.len() == label.len() + 2
            &&& text[0] == ' '
            &&& text.last() == ' '
            &&& text.subrange(1, text.len() - 1) == label
        },
{
    reveal_strlit(" ");
    if label.len() > 0 {
        assert(title(label)->0.subrange(1, label.len() + 1int) =~= label);
    }
}

/// A frame has the colour it is given, the first title on the left and the second on the right of
/// its upper border, and nothing on its lower border.
pub proof fn law_frames_have_their_titles(color: Color, left: Seq<char>, right: Seq<char>)
    ensures
        ({
            let frame = titled(color, left, right);
            &&& frame.color == color
            &&& frame.top_left == title(left)
            &&& frame.top_right == title(right)
            &&& frame.bottom_left is None
            &&& frame.bottom_right is None
        }),
{
}

/// A chart with a label: where the area is wider than the label has bytes, the label stands at the
/// start of the first line, with a column to spare, and the chart in what is left beside it; else
/// the chart has all of the area. The chart shows the data it is given, against the top it is
/// given, in the colour it is given.
pub proof fn law_charts_stand_beside_their_labels(
    area: Rect,
    label: Seq<char>,
    data: Seq<u64>,
    top: u64,
    color: Color,
)
    requires
        encode_utf8(label).len() <= 65_535,
        area.width > encode_utf8(label).len() ==> area.x + encode_utf8(label).len() + 1 <= 65_535,
    ensures
        ({
            let draws = labelled_chart(area, label, data, top, color);
            let bytes = encode_utf8(label).len() as int;
            &&& area.width > bytes ==> {
                &&& draws.len() == 2
                &&& draws[0] == DrawView::Label {
                    area: Rect { x: area.x, y: area.y, width: (bytes + 1) as u16, height: 1 },
                    label: SpanView { content: label, color: Some(color) },
                }
                &&& draws[1] == DrawView::Sparkline {
                    area: Rect {
                        x: (area.x + bytes + 1) as u16,
                        y: area.y,
                        width: (area.width - bytes - 1) as u16,
                        height: area.height,
                    },
                    block: None,
                    data,
                    max: Some(top),
                    color,
                }
            }
            &&& area.width <= bytes ==> {
                &&& draws.len() == 1
                &&& draws[0] == DrawView::Sparkline {
                    area,
                    block: None,
                    data,
                    max: Some(top),
                    color,
                }
            }
        }),
{
    assert(label_width(label) == encode_utf8(label).len());
}

/// The piece that shows the data is the last one, whatever room there is for the label.
pub proof fn law_charts_are_always_drawn(
    area: Rect,
    label: Seq<char>,
    data: Seq<u64>,
    top: u64,
    color: Color,
)
    ensures
        ({
            let draws = labelled_chart(area, label, data, top, color);
            &&& draws.len() > 0
            &&& draws.last() is Sparkline
            &&& draws.last()->Sparkline_data == data
            &&& draws.last()->Sparkline_max == Some(top)
            &&& draws.last()->Sparkline_color == color
        }),
{
}

/// On any area of the screen there is room for whatever is drawn there.
pub proof fn law_areas_on_the_screen_have_room(
    cfg: Config,
    area: Rect,
    label: Seq<char>,
    core: CoreView,
    show_die: bool,
    val: CpuFreqStoreView,
    areas: Seq<Rect>,
    mem: MemoryStore,
)
    requires
        area.fits(),
        forall|i: int| 0 <= i < areas.len() ==> (#[trigger] areas[i]).fits(),
        areas.len() >= 2,
    ensures
        has_room(area, label),
        core_has_room(cfg, area, core, show_die),
        cores_have_room(cfg, val, areas),
        mem_has_room(cfg, mem, areas),
{
    assert(areas[0].fits() && areas[1].fits());
}

/// The chart of a power shows the history of that power, against its own largest value. On the
/// left stand its name and its three figures, the latest first and the mean before the largest;
/// on the right a temperature, if there is one above zero.
pub proof fn law_powers_show_their_history(
    color: Color,
    area: Rect,
    label: Seq<char>,
    val: PowerStore,
    temp: Option<Temp>,
)
    ensures
        ({
            let left = label + " "@ + val.top_value@ + "W ("@ + val.avg_value@ + ", "@
                + val.max_value@ + ")"@;
            let right = if temp is Some && temp->0.positive {
                temp->0.text@ + "°C"@
            } else {
                Seq::<char>::empty()
            };
            power_chart(color, area, label, val, temp) == DrawView::Sparkline {
                area,
                block: Some(
                    BlockView {
                        color,
                        top_left: title(left),
                        top_right: title(right),
                        bottom_left: None,
                        bottom_right: None,
                    },
                ),
                data: val.items@,
                max: None,
                color,
            }
        }),
{
}

/// The latest temperature is the first of its history.
pub proof fn law_newest_is_the_first(items: Seq<Temp>)
    ensures
        newest(items) is Some <==> items.len() > 0,
        items.len() > 0 ==> newest(items)->0 == items[0],
{
}

/// A processor as it is drawn from one series of shares: title, chart and gauge all show it.
pub open spec fn drawn_from(
    draw: DrawView,
    cfg: Config,
    area: Rect,
    label: Seq<char>,
    freq_mhz: u64,
    series: SeriesView,
) -> bool {
    let text = label + " "@ + series.ratio.text + "% @ "@ + pad_left(decimal(freq_mhz as nat), 4)
        + " MHz"@;
    let block = Some(titled(cfg.color, text, Seq::empty()));
    match cfg.view_type {
        ViewType::Sparkline => draw == DrawView::Sparkline {
            area,
            block,
            data: series.items,
            max: Some(100),
            color: cfg.color,
        },
        ViewType::Gauge => draw == DrawView::Gauge {
            area,
            block,
            label: SpanView { content: Seq::empty(), color: None },
            ratio: series.ratio.bits,
            color: cfg.color,
        },
    }
}

/// A processor is drawn from the active shares where the mode asks for these, and from the scaled
/// ones where it asks for those: the chart shows the series whose latest value stands in the
/// title and fills the gauge.
pub proof fn law_processors_show_the_series_of_the_mode(
    cfg: Config,
    area: Rect,
    label: Seq<char>,
    val: FreqStoreView,
)
    ensures
        cfg.ratio_mode is Active ==> drawn_from(
            freq_block(cfg, area, label, val),
            cfg,
            area,
            label,
            val.freq_mhz,
            val.active,
        ),
        cfg.ratio_mode is Scaled ==> drawn_from(
            freq_block(cfg, area, label, val),
            cfg,
            area,
            label,
            val.freq_mhz,
            val.scaled,
        ),
{
    reveal_strlit("");
    assert(""@ =~= Seq::<char>::empty());
}

/// To change the mode is to exchange the two series: it changes nothing else, and what the other
/// series holds makes no difference.
pub proof fn law_modes_exchange_the_series(
    cfg: Config,
    area: Rect,
    label: Seq<char>,
    val: FreqStoreView,
    other: SeriesView,
)
    ensures
        freq_block(Config { ratio_mode: RatioMode::Active, ..cfg }, area, label, val)
            == freq_block(
            Config { ratio_mode: RatioMode::Scaled, ..cfg },
            area,
            label,
            FreqStoreView { scaled: val.active, active: val.scaled, ..val },
        ),
        freq_block(Config { ratio_mode: RatioMode::Active, ..cfg }, area, label, val)
            == freq_block(
            Config { ratio_mode: RatioMode::Active, ..cfg },
            area,
            label,
            FreqStoreView { scaled: other, ..val },
        ),
        freq_block(Config { ratio_mode: RatioMode::Scaled, ..cfg }, area, label, val)
            == freq_block(
            Config { ratio_mode: RatioMode::Scaled, ..cfg },
            area,
            label,
            FreqStoreView { active: other, ..val },
        ),
{
    let active = Config { ratio_mode: RatioMode::Active, ..cfg };
    let scaled = Config { ratio_mode: RatioMode::Scaled, ..cfg };
    let exchanged = FreqStoreView { scaled: val.active, active: val.scaled, ..val };
    assert(freq_title(active, label, val) == freq_title(scaled, label, exchanged));
}

/// The series of a core that a mode asks for.
pub open spec fn series_of(cfg: Config, store: FreqStoreView) -> SeriesView {
    if cfg.ratio_mode is Active {
        store.active
    } else {
        store.scaled
    }
}

/// What stands on a core: its die where there are several, its number, and the latest value of
/// the series that the mode asks for.
pub open spec fn core_text(cfg: Config, core: CoreView, show_die: bool) -> Seq<char> {
    let text = "Core "@ + decimal(core.id.core_id as nat) + " "@ + series_of(
        cfg,
        core.store,
    ).ratio.text + "%"@;
    if show_die {
        "D"@ + decimal(core.id.die_id as nat) + " "@ + text
    } else {
        text
    }
}

/// A core is drawn from the series that the mode asks for, under its own label: as a gauge that
/// is filled by the latest value, or as a chart of the recent ones against a hundred.
pub proof fn law_cores_show_the_series_of_the_mode(
    cfg: Config,
    area: Rect,
    core: CoreView,
    show_die: bool,
)
    ensures
        ({
            let row = core_row(cfg, area, core, show_die);
            let series = series_of(cfg, core.store);
            let text = core_text(cfg, core, show_die);
            match cfg.view_type {
                ViewType::Gauge => row == seq![
                    DrawView::Gauge {
                        area,
                        block: None,
                        label: SpanView { content: text, color: None },
                        ratio: series.ratio.bits,
                        color: cfg.color,
                    },
                ],
                ViewType::Sparkline => row == labelled_chart(
                    area,
                    text,
                    series.items,
                    100,
                    cfg.color,
                ),
            }
        }),
        core_label(cfg, core, show_die) == core_text(cfg, core, show_die),
{
    reveal_strlit("Core ");
    reveal_strlit(" Core ");
    reveal_strlit(" ");
    assert(" Core "@ =~= " "@ + "Core "@);
    assert(core_label(cfg, core, show_die) =~= core_text(cfg, core, show_die));
}

/// The rows of cores follow one another: those of the first cores, then those of the rest, each
/// core in its own area; the row of a single core is all there is of it.
pub proof fn law_rows_follow_one_another(
    cfg: Config,
    areas: Seq<Rect>,
    cores: Seq<CoreView>,
    show_die: bool,
    first: nat,
    rest: nat,
)
    requires
        first + rest <= areas.len(),
        first + rest <= cores.len(),
    ensures
        core_rows(cfg, areas, cores, show_die, 0).len() == 0,
        core_rows(cfg, areas, cores, show_die, 1) == core_row(cfg, areas[0], cores[0], show_die),
        core_rows(cfg, areas, cores, show_die, first + rest) == core_rows(
            cfg,
            areas,
            cores,
            show_die,
            first,
        ) + core_rows(
            cfg,
            areas.skip(first as int),
            cores.skip(first as int),
            show_die,
            rest,
        ),
    decreases rest,
{
    reveal_with_fuel(core_rows, 2);
    assert(core_rows(cfg, areas, cores, show_die, 1) =~= core_row(
        cfg,
        areas[0],
        cores[0],
        show_die,
    ));
    let before = core_rows(cfg, areas, cores, show_die, first);
    let (late_areas, late_cores) = (areas.skip(first as int), cores.skip(first as int));
    if rest == 0 {
        assert(before =~= before + core_rows(cfg, late_areas, late_cores, show_die, 0));
    } else {
        let less = (rest - 1) as nat;
        law_rows_follow_one_another(cfg, areas, cores, show_die, first, less);
        let last = first + less;
        assert(late_areas[less as int] == areas[last as int]);
        assert(late_cores[less as int] == cores[last as int]);
        assert(core_rows(cfg, areas, cores, show_die, first + rest) =~= before + core_rows(
            cfg,
            late_areas,
            late_cores,
            show_die,
            rest,
        ));
    }
}

/// A processor with its cores: nothing without cores, else a frame that names the processor, its
/// share, its frequency and how many cores it has, and then the rows of all cores for which there
/// is an area. The dies are named where the cores are on more than one.
pub proof fn law_every_core_with_an_area_is_drawn(
    cfg: Config,
    area: Rect,
    label: Seq<char>,
    val: CpuFreqStoreView,
    areas: Seq<Rect>,
)
    ensures
        ({
            let draws = cores_block(cfg, area, label, val, areas);
            let series = series_of(cfg, val.aggregate);
            let text = label + " "@ + series.ratio.text + "% @ "@ + pad_left(
                decimal(val.aggregate.freq_mhz as nat),
                4,
            ) + " MHz"@ + " ("@ + decimal(val.cores.len()) + " cores)"@;
            let count = if areas.len() < val.cores.len() {
                areas.len()
            } else {
                val.cores.len()
            };
            &&& val.cores.len() == 0 ==> draws.len() == 0
            &&& val.cores.len() > 0 ==> {
                &&& draws[0] == DrawView::Frame {
                    area,
                    block: titled(cfg.color, text, Seq::empty()),
                }
                &&& draws.skip(1) == core_rows(cfg, areas, val.cores, val.multiple_dies(), count)
            }
        }),
{
    let series = series_of(cfg, val.aggregate);
    assert(cores_title(cfg, label, val) =~= label + " "@ + series.ratio.text + "% @ "@ + pad_left(
        decimal(val.aggregate.freq_mhz as nat),
        4,
    ) + " MHz"@ + " ("@ + decimal(val.cores.len()) + " cores)"@);
    if val.cores.len() > 0 {
        let count = if areas.len() < val.cores.len() {
            areas.len()
        } else {
            val.cores.len()
        };
        assert(cores_block(cfg, area, label, val, areas).skip(1) =~= core_rows(
            cfg,
            areas,
            val.cores,
            val.multiple_dies(),
            count,
        ));
    }
}

/// In the view of gauges there is one gauge for each core that has an area, in the order of the
/// cores, each in its own area.
pub proof fn law_each_gauge_is_that_of_its_core(
    cfg: Config,
    areas: Seq<Rect>,
    cores: Seq<CoreView>,
    show_die: bool,
    count: nat,
)
    requires
        cfg.view_type is Gauge,
        count <= areas.len(),
        count <= cores.len(),
    ensures
        core_rows(cfg, areas, cores, show_die, count).len() == count,
        forall|i: int|
            0 <= i < count ==> #[trigger] core_rows(cfg, areas, cores, show_die, count)[i]
                == (DrawView::Gauge {
                area: areas[i],
                block: None,
                label: SpanView { content: core_text(cfg, cores[i], show_die), color: None },
                ratio: series_of(cfg, cores[i].store).ratio.bits,
                color: cfg.color,
            }),
    decreases count,
{
    if count > 0 {
        let last = count - 1;
        law_each_gauge_is_that_of_its_core(cfg, areas, cores, show_die, last as nat);
        law_cores_show_the_series_of_the_mode(cfg, areas[last], cores[last], show_die);
    }
}

/// A use of memory, as the labels show it: what is in use in hundredths and what there is in
/// tenths of a gigabyte, each in four columns at least.
pub proof fn law_memory_is_labelled_in_gigabytes(val: MemoryStore)
    ensures
        ({
            let ram = with_hundredths(val.ram_usage);
            let all = with_tenths(val.ram_total);
            let swap = with_hundredths(val.swap_usage);
            let all_swap = with_tenths(val.swap_total);
            &&& ram_title(val) == "RAM "@ + pad_left(ram, 4) + " / "@ + pad_left(all, 4) + " GB ("@
                + val.readout.ram_percent@ + "%)"@
            &&& val.swap_total == 0 ==> swap_title(val).len() == 0
            &&& val.swap_total > 0 ==> swap_title(val) == "SWAP "@ + swap + " / "@ + all_swap
                + " GB"@
            &&& ram_label(val) == "RAM"@ + " "@ + pad_left(ram, 4) + "/"@ + pad_left(all, 4)
                + " GB"@
            &&& swap_label(val) == "SWAP"@ + " "@ + pad_left(swap, 4) + "/"@ + pad_left(
                all_swap,
                4,
            ) + " GB"@
        }),
{
}

/// The memory as one: a chart of the memory in use against all memory, or a gauge filled by the
/// share in use, with the memory on the left of the border and the swap on the right.
pub proof fn law_memory_is_shown_against_all_of_it(cfg: Config, area: Rect, val: MemoryStore)
    ensures
        ({
            let block = Some(titled(cfg.color, ram_title(val), swap_title(val)));
            match cfg.view_type {
                ViewType::Sparkline => mem_block(cfg, area, val) == DrawView::Sparkline {
                    area,
                    block,
                    data: val.items@,
                    max: Some(val.ram_total),
                    color: cfg.color,
                },
                ViewType::Gauge => mem_block(cfg, area, val) == DrawView::Gauge {
                    area,
                    block,
                    label: SpanView { content: Seq::empty(), color: None },
                    ratio: val.readout.ram_ratio,
                    color: cfg.color,
                },
            }
        }),
{
    reveal_strlit("");
    assert(""@ =~= Seq::<char>::empty());
}

/// The label of a gauge is black exactly where it lies on the filled part, which is more than
/// half, and else has the colour of everything (which may itself be black).
pub proof fn law_gauge_labels_stand_out(cfg: Config, label: Seq<char>)
    ensures
        gauge_label(cfg, label, true) == (SpanView { content: label, color: Some(Color::Black) }),
        gauge_label(cfg, label, false) == (SpanView { content: label, color: Some(cfg.color) }),
{
}

/// One kind of memory as it is drawn in detail: as a chart of its own history against all of it,
/// or as a gauge filled by its own share, with a label that is black on more than half.
pub open spec fn section_shows(
    draws: Seq<DrawView>,
    cfg: Config,
    area: Rect,
    label: Seq<char>,
    data: Seq<u64>,
    usage: u64,
    total: u64,
    ratio: u64,
) -> bool {
    match cfg.view_type {
        ViewType::Sparkline => draws == labelled_chart(area, label, data, total, cfg.color),
        ViewType::Gauge => {
            let color = if over_half(usage, total) {
                Color::Black
            } else {
                cfg.color
            };
            &&& draws.len() == 1
            &&& draws[0] == DrawView::Gauge {
                area,
                block: None,
                label: SpanView { content: label, color: Some(color) },
                ratio,
                color: cfg.color,
            }
        },
    }
}

/// The memory in detail: a frame, in it the memory in the first area, and where there is swap the
/// swap in the second, each with its own history, size and share.
#[verifier::rlimit(30)]
pub proof fn law_memory_and_swap_are_kept_apart(
    cfg: Config,
    area: Rect,
    val: MemoryStore,
    sections: Seq<Rect>,
)
    ensures
        mem_section_count(val) == if val.swap_total == 0 {
            1nat
        } else {
            2
        },
        ({
            let draws = split_mem_block(cfg, area, val, sections);
            exists|ram: Seq<DrawView>, swap: Seq<DrawView>|
                {
                    &&& draws == #[trigger] (seq![
                        DrawView::Frame {
                            area,
                            block: titled(cfg.color, "Memory"@, Seq::empty()),
                        },
                    ] + ram + swap)
                    &&& section_shows(
                        ram,
                        cfg,
                        sections[0],
                        ram_label(val),
                        val.items@,
                        val.ram_usage,
                        val.ram_total,
                        val.readout.ram_ratio,
                    )
                    &&& val.swap_total == 0 ==> swap.len() == 0
                    &&& val.swap_total > 0 ==> section_shows(
                        swap,
                        cfg,
                        sections[1],
                        swap_label(val),
                        val.swap_items@,
                        val.swap_usage,
                        val.swap_total,
                        val.readout.swap_ratio,
                    )
                }
        }),
{
    let frame = seq![
        DrawView::Frame { area, block: titled(cfg.color, "Memory"@, Seq::empty()) },
    ];
    let ram = mem_section(
        cfg,
        sections[0],
        ram_label(val),
        val.items@,
        val.ram_usage,
        val.ram_total,
        val.readout.ram_ratio,
    );
    let swap = if val.swap_total == 0 {
        Seq::empty()
    } else {
        mem_section(
            cfg,
            sections[1],
            swap_label(val),
            val.swap_items@,
            val.swap_usage,
            val.swap_total,
            val.readout.swap_ratio,
        )
    };
    assert(split_mem_block(cfg, area, val, sections) == frame + ram + swap);
}

} // verus!
