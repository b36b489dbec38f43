//! Colours, and text that carries one.

use vstd::prelude::*;

verus! {

/// A terminal colour.
#[derive(Clone, Copy, Debug, PartialEq, Eq, Structural)]
pub enum Color {
    Reset,
    Black,
    Red,
    Green,
    Yellow,
    Blue,
    Magenta,
    Cyan,
    Gray,
    DarkGray,
    LightRed,
    LightGreen,
    LightYellow,
    LightBlue,
    LightMagenta,
    LightCyan,
    White,
    Rgb(u8, u8, u8),
    Indexed(u8),
}

/// A piece of a line of text; without a colour it takes that of its surroundings.
#[derive(Clone, Debug)]
pub struct Span {
    pub content: String,
    pub color: Option<Color>,
}

/// What a piece of a line shows.
pub struct SpanView {
    pub content: Seq<char>,
    pub color: Option<Color>,
}

impl View for Span {
    type V = SpanView;

    open spec fn view(&self) -> SpanView {
        SpanView { content: self.content@, color: self.color }
    }
}

/// What the pieces of a line show.
pub open spec fn spans_view(spans: Seq<Span>) -> Seq<SpanView> {
    spans.map_values(|span: Span| span@)
}

} // verus!
