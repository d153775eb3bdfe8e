//! Span building: one styled text span for each run, and a line terminator
//! that ends the row.

use crate::cell::{Color, Sugar, SugarStyle};
use crate::run::{is_run, lemma_row_runs_partition, row_runs, Run, RunView};
use vstd::prelude::*;

verus! {

/// The one style classification a span carries.
#[derive(Clone, Copy, Debug, PartialEq, Eq, Structural)]
pub enum SpanStyle {
    Regular,
    Italic,
    Bold,
    BoldItalic,
}

/// A styled text fragment queued for shaping.
#[derive(Clone, Debug, PartialEq, Eq)]
pub struct Span {
    pub content: String,
    pub style: SpanStyle,
    pub color: Color,
}

/// A span as a mathematical value.
pub struct SpanView {
    pub content: Seq<char>,
    pub style: SpanStyle,
    pub color: Color,
}

impl View for Span {
    type V = SpanView;

    open spec fn view(&self) -> SpanView {
        SpanView { content: self.content@, style: self.style, color: self.color }
    }
}

/// The views of a sequence of spans, in order.
pub open spec fn span_views(spans: Seq<Span>) -> Seq<SpanView> {
    spans.map_values(|s: Span| s@)
}

/// The color every span is drawn in.
pub open spec fn text_color() -> Color {
    Color { r: 1, g: 1, b: 1, a: 255 }
}

/// The style of a span by precedence: bold italic before bold, bold before
/// italic, italic before regular. A cell without style flags is regular.
pub open spec fn style_of(style: Option<SugarStyle>) -> SpanStyle {
    match style {
        Some(flags) => if flags.is_bold_italic {
            SpanStyle::BoldItalic
        } else if flags.is_bold {
            SpanStyle::Bold
        } else if flags.is_italic {
            SpanStyle::Italic
        } else {
            SpanStyle::Regular
        },
        None => SpanStyle::Regular,
    }
}

/// The span of a run: the run's content in the style of the cell that closed
/// it.
pub open spec fn span_of(run: RunView) -> SpanView {
    SpanView { content: run.content, style: style_of(run.style), color: text_color() }
}

/// The span that ends a row.
pub open spec fn line_terminator() -> SpanView {
    SpanView { content: seq!['\n'], style: SpanStyle::Regular, color: text_color() }
}

/// The spans of some runs, one for each, in order.
pub open spec fn run_spans(runs: Seq<RunView>) -> Seq<SpanView> {
    runs.map_values(|r: RunView| span_of(r))
}

/// The spans of a row: those of its runs, then the line terminator.
pub open spec fn row_spans(row: Seq<Sugar>) -> Seq<SpanView> {
    run_spans(row_runs(row)).push(line_terminator())
}

/// Whether shaping starts a new line inside this span.
pub open spec fn breaks_line(span: SpanView) -> bool {
    span.content.contains('\n')
}

impl SpanStyle {
    /// Computes `style_of`.
    pub fn of(style: &Option<SugarStyle>) -> (picked: SpanStyle)
        ensures
            picked == style_of(*style),
    {
        match style {
            Some(flags) => if flags.is_bold_italic {
                SpanStyle::BoldItalic
            } else if flags.is_bold {
                SpanStyle::Bold
            } else if flags.is_italic {
                SpanStyle::Italic
            } else {
                SpanStyle::Regular
            },
            None => SpanStyle::Regular,
        }
    }
}

impl Span {
    /// Builds the span of a run.
    pub fn of_run(run: &Run) -> (span: Span)
        ensures
            span@ == span_of(run@),
    {
        Span {
            content: run.content.clone(),
            style: SpanStyle::of(&run.style),
            color: Color { r: 1, g: 1, b: 1, a: 255 },
        }
    }

    /// Builds the line terminator.
    pub fn line_break() -> (span: Span)
        ensures
            span@ == line_terminator(),
    {
        let mut content = String::new();
        content.push('\n');
        Span { content, style: SpanStyle::Regular, color: Color { r: 1, g: 1, b: 1, a: 255 } }
    }
}

/// A row queues one span for each of its runs and one more, the line
/// terminator, after them.
pub proof fn lemma_row_ends_with_terminator(row: Seq<Sugar>)
    ensures
        row_spans(row).len() == row_runs(row).len() + 1,
        row_spans(row).last() == line_terminator(),
        breaks_line(row_spans(row).last()),
        forall|j: int|
            0 <= j < row_runs(row).len() ==> #[trigger] row_spans(row)[j] == span_of(
                row_runs(row)[j],
            ),
{
    assert(line_terminator().content[0] == '\n');
}

/// In a row of which no cell holds a line feed, the line terminator is the
/// only span that breaks the line.
pub proof fn lemma_one_line_terminator(row: Seq<Sugar>)
    requires
        forall|c: int| 0 <= c < row.len() ==> (#[trigger] row[c]).content != '\n',
    ensures
        forall|j: int|
            0 <= j < row_spans(row).len() ==> (breaks_line(#[trigger] row_spans(row)[j]) <==> j
                == row_spans(row).len() - 1),
{
    let runs = row_runs(row);
    let spans = row_spans(row);
    lemma_row_runs_partition(row);
    lemma_row_ends_with_terminator(row);
    assert forall|j: int| 0 <= j < spans.len() implies (breaks_line(#[trigger] spans[j]) <==> j
        == spans.len() - 1) by {
        if j < runs.len() {
            let run = runs[j];
            assert(is_run(row, run));
            assert(spans[j] == span_of(run));
            assert forall|n: int| 0 <= n < run.content.len() implies run.content[n] != '\n' by {
                assert(run.content[n] == row[run.start + n].content);
            }
        }
    }
}

} // verus!
