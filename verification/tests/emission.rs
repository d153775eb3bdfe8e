use sugarloaf::cell::{Color, Sugar, SugarDecoration, SugarStyle, CELL_WIDTH, ROW_ORIGIN};
use sugarloaf::layout::SugarloafLayout;
use sugarloaf::rect::{emit_rects, scale_length, Rect};
use sugarloaf::run::merge_runs;
use sugarloaf::span::{Span, SpanStyle};

const INK: Color = Color { r: 1, g: 1, b: 1, a: 255 };
const WHITE: Color = Color { r: 255, g: 255, b: 255, a: 255 };
const BLACK: Color = Color { r: 0, g: 0, b: 0, a: 255 };
const BLUE: Color = Color { r: 0, g: 0, b: 255, a: 255 };

fn cell(content: char) -> Sugar {
    Sugar {
        content,
        foreground_color: WHITE,
        background_color: BLACK,
        style: None,
        decoration: None,
    }
}

fn flags(is_italic: bool, is_bold: bool, is_bold_italic: bool) -> Option<SugarStyle> {
    Some(SugarStyle { is_italic, is_bold, is_bold_italic })
}

#[test]
fn style_precedence() {
    assert_eq!(SpanStyle::of(&None), SpanStyle::Regular);
    assert_eq!(SpanStyle::of(&flags(false, false, false)), SpanStyle::Regular);
    assert_eq!(SpanStyle::of(&flags(true, false, false)), SpanStyle::Italic);
    assert_eq!(SpanStyle::of(&flags(false, true, false)), SpanStyle::Bold);
    assert_eq!(SpanStyle::of(&flags(true, true, false)), SpanStyle::Bold);
    assert_eq!(SpanStyle::of(&flags(false, false, true)), SpanStyle::BoldItalic);
    assert_eq!(SpanStyle::of(&flags(true, true, true)), SpanStyle::BoldItalic);
    assert_eq!(SpanStyle::of(&flags(true, false, true)), SpanStyle::BoldItalic);
}

#[test]
fn a_span_carries_the_run_content_and_the_fixed_color() {
    let mut row = vec![cell('h'); 3];
    row[2].style = flags(true, false, false);
    let runs = merge_runs(&row);
    let span = Span::of_run(&runs[0]);
    assert_eq!(span, Span { content: "hhh".to_string(), style: SpanStyle::Italic, color: INK });
}

#[test]
fn the_line_break_is_a_regular_line_feed() {
    assert_eq!(
        Span::line_break(),
        Span { content: "\n".to_string(), style: SpanStyle::Regular, color: INK }
    );
}

#[test]
fn a_background_is_as_wide_as_its_cells() {
    let layout = SugarloafLayout::new(800, 600, 1000, 18, 22);
    let runs = merge_runs(&vec![cell('a'); 7]);
    let mut rects = Vec::new();
    emit_rects(&runs[0], &layout, &mut rects);
    assert_eq!(rects, vec![Rect { position: (0, 0), color: BLACK, size: (70, 18) }]);
    assert_eq!(rects[0].size.0, 7 * CELL_WIDTH);
}

#[test]
fn a_decoration_adds_an_overlay_after_the_background() {
    let layout = SugarloafLayout::new(800, 600, 1000, 18, 22);
    let mut marked = cell('a');
    marked.decoration =
        Some(SugarDecoration { relative_position: (0, 950), size: (1000, 500), color: BLUE });
    let runs = merge_runs(&vec![marked]);
    let mut rects = vec![Rect { position: (5, 5), color: WHITE, size: (1, 1) }];
    emit_rects(&runs[0], &layout, &mut rects);
    assert_eq!(rects.len(), 3);
    assert_eq!(rects[0], Rect { position: (5, 5), color: WHITE, size: (1, 1) });
    assert_eq!(rects[1], Rect { position: (0, 0), color: BLACK, size: (10, 18) });
    // 22 * 950 / 1000 = 20 (20.9 rounded down), below the origin at 10;
    // 18 * 500 / 1000 = 9.
    assert_eq!(rects[2], Rect { position: (ROW_ORIGIN, 30), color: BLUE, size: (CELL_WIDTH, 9) });
}

#[test]
fn scaling_rounds_down_and_does_not_overflow() {
    assert_eq!(scale_length(20, 1000), 20);
    assert_eq!(scale_length(20, 50), 1);
    assert_eq!(scale_length(19, 50), 0);
    assert_eq!(scale_length(0, 1000), 0);
    assert_eq!(scale_length(7, 0), 0);
    assert_eq!(scale_length(u32::MAX, u32::MAX), 18_446_744_065_119_617);
}
