//! The screen, drawn from the state of the monitor.

use crate::app::App;
use crate::config::{Config, ViewType};
use crate::cores::{CoreStore, CoreView, CpuFreqStore, CpuFreqStoreView};
use crate::draw::{
    Draw, DrawView, draw_labelled_chart, draws_view, has_room, labelled_chart, push_draw,
    title_block, titled,
};
use crate::geometry::Rect;
use crate::metrics::Temp;
use crate::stores::{FreqStore, FreqStoreView, MemoryStore, PowerStore};
use crate::style::{Color, Span, SpanView};
use crate::text::{decimal, pad_left, push_decimal, push_padded};
use crate::units::{
    format_with_hundredths, format_with_tenths, is_over_half, over_half, with_hundredths,
    with_tenths,
};
use vstd::prelude::*;
use vstd::string::*;

verus! {

/// The top of the scale of a share, in percent.
pub const FULL_SCALE: u64 = 100;

/// A text without a colour of its own.
pub open spec fn plain(content: Seq<char>) -> SpanView {
    SpanView { content, color: None }
}

/// The title of a power: its latest value, and in brackets its mean and its largest one.
pub open spec fn power_title(label: Seq<char>, val: PowerStore) -> Seq<char> {
    label + " "@ + val.top_value@ + "W ("@ + val.avg_value@ + ", "@ + val.max_value@ + ")"@
}

/// The title of a temperature; none unless it is above zero.
pub open spec fn temp_title(temp: Option<Temp>) -> Seq<char> {
    match temp {
        Some(temp) if temp.positive => temp.text@ + "°C"@,
        _ => Seq::empty(),
    }
}

/// The chart of a power.
pub open spec fn power_chart(
    color: Color,
    area: Rect,
    label: Seq<char>,
    val: PowerStore,
    temp: Option<Temp>,
) -> DrawView {
    DrawView::Sparkline {
        area,
        block: Some(titled(color, power_title(label, val), temp_title(temp))),
        data: val.items@,
        max: None,
        color,
    }
}

/// The latest of a history, if there is one.
pub open spec fn newest(items: Seq<Temp>) -> Option<Temp> {
    if items.len() > 0 {
        Some(items[0])
    } else {
        None
    }
}

/// The title of a processor: the share of it that is in use, and its frequency.
pub open spec fn freq_title(cfg: Config, label: Seq<char>, val: FreqStoreView) -> Seq<char> {
    label + " "@ + val.ratio(cfg.ratio_mode).ratio.text + "% @ "@ + pad_left(
        decimal(val.freq_mhz as nat),
        4,
    ) + " MHz"@
}

/// The chart or the gauge of a processor.
pub open spec fn freq_block(
    cfg: Config,
    area: Rect,
    label: Seq<char>,
    val: FreqStoreView,
) -> DrawView {
    let block = Some(titled(cfg.color, freq_title(cfg, label, val), Seq::empty()));
    let ratio = val.ratio(cfg.ratio_mode);
    match cfg.view_type {
        ViewType::Sparkline => DrawView::Sparkline {
            area,
            block,
            data: ratio.items,
            max: Some(FULL_SCALE),
            color: cfg.color,
        },
        ViewType::Gauge => DrawView::Gauge {
            area,
            block,
            label: plain(""@),
            ratio: ratio.ratio.bits,
            color: cfg.color,
        },
    }
}

/// The label of a core; the die is named where there are several.
pub open spec fn core_label(cfg: Config, core: CoreView, show_die: bool) -> Seq<char> {
    (if show_die {
        "D"@ + decimal(core.id.die_id as nat) + " Core "@
    } else {
        "Core "@
    }) + decimal(core.id.core_id as nat) + " "@ + core.store.ratio(cfg.ratio_mode).ratio.text + "%"@
}

/// The chart or the gauge of one core.
pub open spec fn core_row(
    cfg: Config,
    area: Rect,
    core: CoreView,
    show_die: bool,
) -> Seq<DrawView> {
    let ratio = core.store.ratio(cfg.ratio_mode);
    let label = core_label(cfg, core, show_die);
    match cfg.view_type {
        ViewType::Sparkline => labelled_chart(area, label, ratio.items, FULL_SCALE, cfg.color),
        ViewType::Gauge => seq![
            DrawView::Gauge {
                area,
                block: None,
                label: plain(label),
                ratio: ratio.ratio.bits,
                color: cfg.color,
            },
        ],
    }
}

/// The rows of the first `count` cores.
pub open spec fn core_rows(
    cfg: Config,
    areas: Seq<Rect>,
    cores: Seq<CoreView>,
    show_die: bool,
    count: nat,
) -> Seq<DrawView>
    decreases count,
{
    if count == 0 {
        Seq::empty()
    } else {
        let last = count - 1;
        core_rows(cfg, areas, cores, show_die, last as nat) + core_row(
            cfg,
            areas[last],
            cores[last],
            show_die,
        )
    }
}

/// The title of a processor with its cores.
pub open spec fn cores_title(cfg: Config, label: Seq<char>, val: CpuFreqStoreView) -> Seq<char> {
    freq_title(cfg, label, val.aggregate) + " ("@ + decimal(val.cores.len()) + " cores)"@
}

/// A frame with a row for each core for which there is an area; nothing without cores.
pub open spec fn cores_block(
    cfg: Config,
    area: Rect,
    label: Seq<char>,
    val: CpuFreqStoreView,
    areas: Seq<Rect>,
) -> Seq<DrawView> {
    if val.cores.len() == 0 {
        Seq::empty()
    } else {
        let count = if val.cores.len() <= areas.len() {
            val.cores.len()
        } else {
            areas.len()
        };
        seq![
            DrawView::Frame {
                area,
                block: titled(cfg.color, cores_title(cfg, label, val), Seq::empty()),
            },
        ] + core_rows(cfg, areas, val.cores, val.multiple_dies(), count)
    }
}

/// Whether the row of a core can be drawn in an area.
pub open spec fn core_has_room(cfg: Config, area: Rect, core: CoreView, show_die: bool) -> bool {
    cfg.view_type is Sparkline ==> has_room(area, core_label(cfg, core, show_die))
}

/// Whether the rows of all cores for which there is an area can be drawn.
pub open spec fn cores_have_room(cfg: Config, val: CpuFreqStoreView, areas: Seq<Rect>) -> bool {
    forall|i: int|
        0 <= i < val.cores.len() && i < areas.len() ==> #[trigger] core_has_room(
            cfg,
            areas[i],
            val.cores[i],
            val.multiple_dies(),
        )
}

/// The title of the memory, on the left.
pub open spec fn ram_title(val: MemoryStore) -> Seq<char> {
    "RAM "@ + pad_left(with_hundredths(val.ram_usage), 4) + " / "@ + pad_left(
        with_tenths(val.ram_total),
        4,
    ) + " GB ("@ + val.readout.ram_percent@ + "%)"@
}

/// The title of the swap, on the right; none without swap.
pub open spec fn swap_title(val: MemoryStore) -> Seq<char> {
    if val.swap_total > 0 {
        "SWAP "@ + with_hundredths(val.swap_usage) + " / "@ + with_tenths(val.swap_total) + " GB"@
    } else {
        Seq::empty()
    }
}

/// The chart or the gauge of the memory.
pub open spec fn mem_block(cfg: Config, area: Rect, val: MemoryStore) -> DrawView {
    let block = Some(titled(cfg.color, ram_title(val), swap_title(val)));
    match cfg.view_type {
        ViewType::Sparkline => DrawView::Sparkline {
            area,
            block,
            data: val.items@,
            max: Some(val.ram_total),
            color: cfg.color,
        },
        ViewType::Gauge => DrawView::Gauge {
            area,
            block,
            label: plain(""@),
            ratio: val.readout.ram_ratio,
            color: cfg.color,
        },
    }
}

/// A use of memory, written out: what is in use, and how much there is.
pub open spec fn usage_label(name: Seq<char>, usage: u64, total: u64) -> Seq<char> {
    name + " "@ + pad_left(with_hundredths(usage), 4) + "/"@ + pad_left(with_tenths(total), 4)
        + " GB"@
}

/// The label of a gauge: black where more than half is filled, so that it lies on the filled part.
pub open spec fn gauge_label(cfg: Config, label: Seq<char>, over_half: bool) -> SpanView {
    SpanView {
        content: label,
        color: Some(
            if over_half {
                Color::Black
            } else {
                cfg.color
            },
        ),
    }
}

/// The chart or the gauge of one kind of memory.
pub open spec fn mem_section(
    cfg: Config,
    area: Rect,
    label: Seq<char>,
    data: Seq<u64>,
    usage: u64,
    total: u64,
    ratio: u64,
) -> Seq<DrawView> {
    match cfg.view_type {
        ViewType::Sparkline => labelled_chart(area, label, data, total, cfg.color),
        ViewType::Gauge => seq![
            DrawView::Gauge {
                area,
                block: None,
                label: gauge_label(cfg, label, over_half(usage, total)),
                ratio,
                color: cfg.color,
            },
        ],
    }
}

/// The label of the memory.
pub open spec fn ram_label(val: MemoryStore) -> Seq<char> {
    usage_label("RAM"@, val.ram_usage, val.ram_total)
}

/// The label of the swap.
pub open spec fn swap_label(val: MemoryStore) -> Seq<char> {
    usage_label("SWAP"@, val.swap_usage, val.swap_total)
}

/// Whether there is an area for each kind of memory, in which it can be drawn.
pub open spec fn mem_has_room(cfg: Config, val: MemoryStore, sections: Seq<Rect>) -> bool {
    &&& sections.len() >= mem_section_count(val)
    &&& cfg.view_type is Sparkline ==> {
        &&& has_room(sections[0], ram_label(val))
        &&& val.swap_total > 0 ==> has_room(sections[1], swap_label(val))
    }
}

/// A frame with the memory, and where there is any with the swap below it.
pub open spec fn split_mem_block(
    cfg: Config,
    area: Rect,
    val: MemoryStore,
    sections: Seq<Rect>,
) -> Seq<DrawView> {
    seq![
        DrawView::Frame { area, block: titled(cfg.color, "Memory"@, Seq::empty()) },
    ] + mem_section(
        cfg,
        sections[0],
        ram_label(val),
        val.items@,
        val.ram_usage,
        val.ram_total,
        val.readout.ram_ratio,
    ) + if val.swap_total == 0 {
        Seq::empty()
    } else {
        mem_section(
            cfg,
            sections[1],
            swap_label(val),
            val.swap_items@,
            val.swap_usage,
            val.swap_total,
            val.readout.swap_ratio,
        )
    }
}

impl App {
    /// The chart of a power.
    pub fn get_power_block<'a>(
        &self,
        area: Rect,
        label: &str,
        val: &'a PowerStore,
        temp: Option<&Temp>,
    ) -> (draw: Draw<'a>)
        ensures
            draw@ == power_chart(
                self.cfg.color,
                area,
                label@,
                *val,
                match temp {
                    Some(temp) => Some(*temp),
                    None => None,
                },
            ),
    {
        let mut label_l = String::from_str(label);
        label_l.append(" ");
        label_l.append(val.top_value.as_str());
        label_l.append("W (");
        label_l.append(val.avg_value.as_str());
        label_l.append(", ");
        label_l.append(val.max_value.as_str());
        label_l.append(")");

        let mut label_r = String::new();
        if let Some(temp) = temp {
            if temp.positive {
                label_r.append(temp.text.as_str());
                label_r.append("°C");
            }
        }
        assert(label_l@ =~= power_title(label@, *val));
        let color = self.cfg.color;
        let block = title_block(color, label_l.as_str(), label_r.as_str());
        Draw::Sparkline { area, block: Some(block), data: &val.items, max: None, color }
    }

    /// The title of a processor.
    fn make_freq_title(&self, label: &str, val: &FreqStore) -> (text: String)
        ensures
            text@ == freq_title(self.cfg, label@, val@),
    {
        let ratio = val.ratio(self.cfg.ratio_mode);
        let mut freq = String::new();
        push_decimal(&mut freq, val.freq_mhz);
        assert(freq@ =~= decimal(val.freq_mhz as nat));

        let mut text = String::from_str(label);
        text.append(" ");
        text.append(ratio.ratio.text.as_str());
        text.append("% @ ");
        push_padded(&mut text, freq.as_str(), 4);
        text.append(" MHz");
        text
    }

    /// Draws the chart or the gauge of a processor.
    pub fn render_freq_block<'a>(
        &self,
        draws: &mut Vec<Draw<'a>>,
        area: Rect,
        label: &str,
        val: &'a FreqStore,
    )
        ensures
            draws_view(final(draws)@) == draws_view(old(draws)@) + seq![
                freq_block(self.cfg, area, label@, val@),
            ],
    {
        let ratio = val.ratio(self.cfg.ratio_mode);
        let text = self.make_freq_title(label, val);
        let color = self.cfg.color;
        let block = Some(title_block(color, text.as_str(), ""));
        proof {
            reveal_strlit("");
            assert(""@ =~= Seq::<char>::empty());
        }
        match self.cfg.view_type {
            ViewType::Sparkline => push_draw(
                draws,
                Draw::Sparkline { area, block, data: &ratio.items, max: Some(FULL_SCALE), color },
            ),
            ViewType::Gauge => {
                let label = Span { content: String::from_str(""), color: None };
                push_draw(draws, Draw::Gauge { area, block, label, ratio: ratio.ratio.bits, color })
            },
        }
    }

    /// The label of a core.
    fn make_core_label(&self, core: &CoreStore, show_die: bool) -> (text: String)
        ensures
            text@ == core_label(self.cfg, core@, show_die),
    {
        let ratio = core.store.ratio(self.cfg.ratio_mode);
        let mut text = String::new();
        if show_die {
            text.append("D");
            push_decimal(&mut text, core.id.die_id as u64);
            text.append(" Core ");
        } else {
            text.append("Core ");
        }
        push_decimal(&mut text, core.id.core_id as u64);
        text.append(" ");
        text.append(ratio.ratio.text.as_str());
        text.append("%");
        assert(text@ =~= core_label(self.cfg, core@, show_die));
        text
    }

    /// Draws the chart or the gauge of one core.
    fn render_core<'a>(
        &self,
        draws: &mut Vec<Draw<'a>>,
        area: Rect,
        core: &'a CoreStore,
        show_die: bool,
    )
        requires
            self.cfg.view_type is Sparkline ==> has_room(
                area,
                core_label(self.cfg, core@, show_die),
            ),
        ensures
            draws_view(final(draws)@) == draws_view(old(draws)@) + core_row(
                self.cfg,
                area,
                core@,
                show_die,
            ),
    {
        let ratio = core.store.ratio(self.cfg.ratio_mode);
        let label = self.make_core_label(core, show_die);
        let color = self.cfg.color;
        match self.cfg.view_type {
            ViewType::Sparkline => {
                draw_labelled_chart(draws, area, label, &ratio.items, FULL_SCALE, color)
            },
            ViewType::Gauge => {
                let label = Span { content: label, color: None };
                push_draw(
                    draws,
                    Draw::Gauge { area, block: None, label, ratio: ratio.ratio.bits, color },
                )
            },
        }
    }

    /// Draws a processor with its cores, one below the other in `areas`.
    pub fn render_cores<'a>(
        &self,
        draws: &mut Vec<Draw<'a>>,
        area: Rect,
        label: &str,
        val: &'a CpuFreqStore,
        areas: &Vec<Rect>,
    )
        requires
            cores_have_room(self.cfg, val@, areas@),
        ensures
            draws_view(final(draws)@) == draws_view(old(draws)@) + cores_block(
                self.cfg,
                area,
                label@,
                val@,
                areas@,
            ),
    {
        proof {
            reveal_strlit("");
            assert(""@ =~= Seq::<char>::empty());
        }
        if val.cores.len() == 0 {
            assert(draws_view(draws@) =~= draws_view(draws@) + cores_block(
                self.cfg,
                area,
                label@,
                val@,
                areas@,
            ));
            return;
        }
        let mut text = self.make_freq_title(label, &val.aggregate);
        text.append(" (");
        push_decimal(&mut text, val.cores.len() as u64);
        text.append(" cores)");
        assert(text@ =~= cores_title(self.cfg, label@, val@));
        let block = title_block(self.cfg.color, text.as_str(), "");
        push_draw(draws, Draw::Frame { area, block });

        let show_die: bool = val.has_multiple_dies();
        let ghost before = draws_view(draws@);
        let mut i: usize = 0;
        while i < val.cores.len() && i < areas.len()
            invariant
                i <= val.cores@.len(),
                i <= areas@.len(),
                cores_have_room(self.cfg, val@, areas@),
                show_die == val@.multiple_dies(),
                draws_view(draws@) == before + core_rows(
                    self.cfg,
                    areas@,
                    val@.cores,
                    show_die,
                    i as nat,
                ),
            decreases val.cores@.len() - i,
        {
            assert(val@.cores[i as int] == val.cores@[i as int]@);
            assert(core_has_room(self.cfg, areas@[i as int], val@.cores[i as int], show_die));
            self.render_core(draws, areas[i], &val.cores[i], show_die);
            assert(draws_view(draws@) =~= before + core_rows(
                self.cfg,
                areas@,
                val@.cores,
                show_die,
                (i + 1) as nat,
            ));
            i = i + 1;
        }
        assert(draws_view(draws@) =~= draws_view(old(draws)@) + cores_block(
            self.cfg,
            area,
            label@,
            val@,
            areas@,
        ));
    }

    /// Draws the chart or the gauge of the memory.
    pub fn render_mem_block<'a>(
        &self,
        draws: &mut Vec<Draw<'a>>,
        area: Rect,
        val: &'a MemoryStore,
    )
        ensures
            draws_view(final(draws)@) == draws_view(old(draws)@) + seq![
                mem_block(self.cfg, area, *val),
            ],
    {
        let mut label_l = String::from_str("RAM ");
        push_padded(&mut label_l, format_with_hundredths(val.ram_usage).as_str(), 4);
        label_l.append(" / ");
        push_padded(&mut label_l, format_with_tenths(val.ram_total).as_str(), 4);
        label_l.append(" GB (");
        label_l.append(val.readout.ram_percent.as_str());
        label_l.append("%)");

        let mut label_r = String::new();
        if val.swap_total > 0 {
            label_r.append("SWAP ");
            label_r.append(format_with_hundredths(val.swap_usage).as_str());
            label_r.append(" / ");
            label_r.append(format_with_tenths(val.swap_total).as_str());
            label_r.append(" GB");
        }
        assert(label_r@ =~= swap_title(*val));
        let color = self.cfg.color;
        let block = Some(title_block(color, label_l.as_str(), label_r.as_str()));
        match self.cfg.view_type {
            ViewType::Sparkline => push_draw(
                draws,
                Draw::Sparkline { area, block, data: &val.items, max: Some(val.ram_total), color },
            ),
            ViewType::Gauge => {
                let label = Span { content: String::from_str(""), color: None };
                let ratio: u64 = val.readout.ram_ratio;
                push_draw(draws, Draw::Gauge { area, block, label, ratio, color })
            },
        }
    }

    /// The label of a gauge.
    pub fn gauge_label(&self, label: String, over_half: bool) -> (span: Span)
        ensures
            span@ == gauge_label(self.cfg, label@, over_half),
    {
        let color = if over_half {
            Color::Black
        } else {
            self.cfg.color
        };
        Span { content: label, color: Some(color) }
    }

    /// Draws the chart or the gauge of one kind of memory.
    fn render_mem_section<'a>(
        &self,
        draws: &mut Vec<Draw<'a>>,
        area: Rect,
        label: String,
        data: &'a Vec<u64>,
        usage: u64,
        total: u64,
        ratio: u64,
    )
        requires
            self.cfg.view_type is Sparkline ==> has_room(area, label@),
        ensures
            draws_view(final(draws)@) == draws_view(old(draws)@) + mem_section(
                self.cfg,
                area,
                label@,
                data@,
                usage,
                total,
                ratio,
            ),
    {
        let color = self.cfg.color;
        match self.cfg.view_type {
            ViewType::Sparkline => draw_labelled_chart(draws, area, label, data, total, color),
            ViewType::Gauge => {
                let label = self.gauge_label(label, is_over_half(usage, total));
                push_draw(draws, Draw::Gauge { area, block: None, label, ratio, color })
            },
        }
    }

    /// Draws the memory, and where there is any the swap below it.
    pub fn render_split_mem_block<'a>(
        &self,
        draws: &mut Vec<Draw<'a>>,
        area: Rect,
        val: &'a MemoryStore,
        sections: &Vec<Rect>,
    )
        requires
            mem_has_room(self.cfg, *val, sections@),
        ensures
            draws_view(final(draws)@) == draws_view(old(draws)@) + split_mem_block(
                self.cfg,
                area,
                *val,
                sections@,
            ),
    {
        proof {
            reveal_strlit("");
            assert(""@ =~= Seq::<char>::empty());
        }
        let block = title_block(self.cfg.color, "Memory", "");
        push_draw(draws, Draw::Frame { area, block });

        let ram_label = make_usage_label("RAM", val.ram_usage, val.ram_total);
        self.render_mem_section(
            draws,
            sections[0],
            ram_label,
            &val.items,
            val.ram_usage,
            val.ram_total,
            val.readout.ram_ratio,
        );
        if val.swap_total > 0 {
            let swap_label = make_usage_label("SWAP", val.swap_usage, val.swap_total);
            self.render_mem_section(
                draws,
                sections[1],
                swap_label,
                &val.swap_items,
                val.swap_usage,
                val.swap_total,
                val.readout.swap_ratio,
            );
        }
        assert(draws_view(draws@) =~= draws_view(old(draws)@) + split_mem_block(
            self.cfg,
            area,
            *val,
            sections@,
        ));
    }
}

/// How many kinds of memory are shown: swap only where there is any.
pub open spec fn mem_section_count(val: MemoryStore) -> nat {
    if val.swap_total > 0 {
        2
    } else {
        1
    }
}

/// A use of memory, written out.
fn make_usage_label(name: &str, usage: u64, total: u64) -> (text: String)
    ensures
        text@ == usage_label(name@, usage, total),
{
    let mut text = String::from_str(name);
    text.append(" ");
    push_padded(&mut text, format_with_hundredths(usage).as_str(), 4);
    text.append("/");
    push_padded(&mut text, format_with_tenths(total).as_str(), 4);
    text.append(" GB");
    text
}

} // verus!
