//! What is drawn, piece by piece.

use crate::geometry::Rect;
use crate::style::{Color, Span, SpanView, spans_view};
use vstd::prelude::*;
use vstd::string::*;
use vstd::utf8::encode_utf8;

verus! {

/// A frame with titles on its border.
#[derive(Debug)]
pub struct Block {
    pub color: Color,
    pub top_left: Option<String>,
    pub top_right: Option<String>,
    pub bottom_left: Option<Vec<Span>>,
    pub bottom_right: Option<String>,
}

/// What a frame shows.
#[verifier::ext_equal]
pub struct BlockView {
    pub color: Color,
    pub top_left: Option<Seq<char>>,
    pub top_right: Option<Seq<char>>,
    pub bottom_left: Option<Seq<SpanView>>,
    pub bottom_right: Option<Seq<char>>,
}

/// What a text shows, if there is one.
pub open spec fn text_view(text: Option<String>) -> Option<Seq<char>> {
    match text {
        Some(text) => Some(text@),
        None => None,
    }
}

impl View for Block {
    type V = BlockView;

    open spec fn view(&self) -> BlockView {
        BlockView {
            color: self.color,
            top_left: text_view(self.top_left),
            top_right: text_view(self.top_right),
            bottom_left: match self.bottom_left {
                Some(spans) => Some(spans_view(spans@)),
                None => None,
            },
            bottom_right: text_view(self.bottom_right),
        }
    }
}

/// One piece of the screen. Later pieces are drawn over earlier ones.
#[derive(Debug)]
pub enum Draw<'a> {
    /// A frame.
    Frame { area: Rect, block: Block },
    /// A chart of a history, newest value at the right; `max` is the value of a full bar, or the
    /// largest value where there is none.
    Sparkline {
        area: Rect,
        block: Option<Block>,
        data: &'a Vec<u64>,
        max: Option<u64>,
        color: Color,
    },
    /// A gauge; `ratio` holds the bits of the share that is filled, as a double.
    Gauge { area: Rect, block: Option<Block>, label: Span, ratio: u64, color: Color },
    /// A piece of text.
    Label { area: Rect, label: Span },
    /// An empty area.
    Clear { area: Rect },
    /// Lines of text in a frame.
    Text { area: Rect, text: String, block: Block, color: Color },
}

/// What one piece of the screen shows.
#[verifier::ext_equal]
pub enum DrawView {
    Frame { area: Rect, block: BlockView },
    Sparkline {
        area: Rect,
        block: Option<BlockView>,
        data: Seq<u64>,
        max: Option<u64>,
        color: Color,
    },
    Gauge { area: Rect, block: Option<BlockView>, label: SpanView, ratio: u64, color: Color },
    Label { area: Rect, label: SpanView },
    Clear { area: Rect },
    Text { area: Rect, text: Seq<char>, block: BlockView, color: Color },
}

/// What a frame shows, if there is one.
pub open spec fn block_view(block: Option<Block>) -> Option<BlockView> {
    match block {
        Some(block) => Some(block@),
        None => None,
    }
}

impl<'a> View for Draw<'a> {
    type V = DrawView;

    open spec fn view(&self) -> DrawView {
        match *self {
            Draw::Frame { area, block } => DrawView::Frame { area, block: block@ },
            Draw::Sparkline { area, block, data, max, color } => DrawView::Sparkline {
                area,
                block: block_view(block),
                data: data@,
                max,
                color,
            },
            Draw::Gauge { area, block, label, ratio, color } => DrawView::Gauge {
                area,
                block: block_view(block),
                label: label@,
                ratio,
                color,
            },
            Draw::Label { area, label } => DrawView::Label { area, label: label@ },
            Draw::Clear { area } => DrawView::Clear { area },
            Draw::Text { area, text, block, color } => DrawView::Text {
                area,
                text: text@,
                block: block@,
                color,
            },
        }
    }
}

/// What the pieces of the screen show.
pub open spec fn draws_view<'a>(draws: Seq<Draw<'a>>) -> Seq<DrawView> {
    draws.map_values(|draw: Draw<'a>| draw@)
}

/// Adds a piece.
pub(crate) fn push_draw<'a>(draws: &mut Vec<Draw<'a>>, draw: Draw<'a>)
    ensures
        draws_view(final(draws)@) == draws_view(old(draws)@) + seq![draw@],
{
    draws.push(draw);
    assert(draws_view(draws@) =~= draws_view(old(draws)@) + seq![draw@]);
}

/// A title as it stands on a border, with a space on either side; an empty one is left out.
pub open spec fn title(label: Seq<char>) -> Option<Seq<char>> {
    if label.len() > 0 {
        Some(" "@ + label + " "@)
    } else {
        None
    }
}

/// A frame with a title on the left and one on the right.
pub open spec fn titled(color: Color, label_l: Seq<char>, label_r: Seq<char>) -> BlockView {
    BlockView {
        color,
        top_left: title(label_l),
        top_right: title(label_r),
        bottom_left: None,
        bottom_right: None,
    }
}

/// A title as it stands on a border.
fn make_title(label: &str) -> (text: Option<String>)
    ensures
        text_view(text) == title(label@),
{
    if label.is_empty() {
        None
    } else {
        let mut text = String::from_str(" ");
        text.append(label);
        text.append(" ");
        Some(text)
    }
}

/// A frame with a title on the left and one on the right.
pub fn title_block(color: Color, label_l: &str, label_r: &str) -> (block: Block)
    ensures
        block@ == titled(color, label_l@, label_r@),
{
    Block {
        color,
        top_left: make_title(label_l),
        top_right: make_title(label_r),
        bottom_left: None,
        bottom_right: None,
    }
}

/// How many columns a label takes up: one for each byte, as far as they can be counted.
pub open spec fn label_width(label: Seq<char>) -> u16 {
    (encode_utf8(label).len() as usize) as u16
}

/// Where the label of a chart stands: at the start of the first line, with a column to spare.
pub open spec fn label_area(area: Rect, width: u16) -> Rect {
    Rect { x: area.x, y: area.y, width: (width + 1) as u16, height: 1 }
}

/// What a label leaves of the area of its chart.
pub open spec fn beside_label(area: Rect, width: u16) -> Rect {
    Rect {
        x: (area.x + width + 1) as u16,
        width: (area.width - width - 1) as u16,
        ..area
    }
}

/// Whether what a label leaves of the area of its chart begins at a coordinate.
pub open spec fn has_room(area: Rect, label: Seq<char>) -> bool {
    area.width > label_width(label) ==> area.x + label_width(label) + 1 <= u16::MAX
}

/// A chart with a label before it; where there is no room for the label it is left out.
pub open spec fn labelled_chart(
    area: Rect,
    label: Seq<char>,
    data: Seq<u64>,
    max: u64,
    color: Color,
) -> Seq<DrawView> {
    let width = label_width(label);
    if area.width > width {
        seq![
            DrawView::Label {
                area: label_area(area, width),
                label: SpanView { content: label, color: Some(color) },
            },
            DrawView::Sparkline {
                area: beside_label(area, width),
                block: None,
                data,
                max: Some(max),
                color,
            },
        ]
    } else {
        seq![DrawView::Sparkline { area, block: None, data, max: Some(max), color }]
    }
}

/// Draws a chart with a label before it.
pub fn draw_labelled_chart<'a>(
    draws: &mut Vec<Draw<'a>>,
    area: Rect,
    label: String,
    data: &'a Vec<u64>,
    max: u64,
    color: Color,
)
    requires
        has_room(area, label@),
    ensures
        draws_view(final(draws)@) == draws_view(old(draws)@) + labelled_chart(
            area,
            label@,
            data@,
            max,
            color,
        ),
{
    let width: u16 = label.as_str().len() as u16;
    if area.width > width {
        push_draw(
            draws,
            Draw::Label {
                area: Rect { x: area.x, y: area.y, width: width + 1, height: 1 },
                label: Span { content: label, color: Some(color) },
            },
        );
        push_draw(
            draws,
            Draw::Sparkline {
                area: Rect { x: area.x + width + 1, width: area.width - width - 1, ..area },
                block: None,
                data,
                max: Some(max),
                color,
            },
        );
    } else {
        push_draw(draws, Draw::Sparkline { area, block: None, data, max: Some(max), color });
    }
    assert(draws_view(draws@) =~= draws_view(old(draws)@) + labelled_chart(
        area,
        label@,
        data@,
        max,
        color,
    ));
}

/// A label and its chart stand side by side: together they take up the width of the area, and
/// neither reaches past it.
pub proof fn law_label_and_chart_share_the_area(area: Rect, label: Seq<char>)
    requires
        area.fits(),
        area.width > label_width(label),
    ensures
        ({
            let width = label_width(label);
            let left = label_area(area, width);
            let right = beside_label(area, width);
            &&& left.x == area.x
            &&& right.x == left.x + left.width
            &&& left.width + right.width == area.width
            &&& right.y == area.y && right.height == area.height
            &&& right.fits()
        }),
{
}

} // verus!
