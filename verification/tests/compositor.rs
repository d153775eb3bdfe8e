use sugarloaf::cell::{Color, Sugar, SugarDecoration, SugarStyle};
use sugarloaf::context::{Context, Size};
use sugarloaf::font::{SugarloafFont, SugarloafFonts};
use sugarloaf::frame::{FrameAction, FrameEvent, FramePhase, FrameStage, TextStages};
use sugarloaf::layout::{Image, ImageProperties, Rectangle, SugarloafLayout};
use sugarloaf::rect::Rect;
use sugarloaf::span::{Span, SpanStyle};
use sugarloaf::sugarloaf::{Database, Sugarloaf};

const INK: Color = Color { r: 1, g: 1, b: 1, a: 255 };
const WHITE: Color = Color { r: 255, g: 255, b: 255, a: 255 };
const BLACK: Color = Color { r: 0, g: 0, b: 0, a: 255 };
const RED: Color = Color { r: 255, g: 0, b: 0, a: 255 };

fn font(family: &str) -> SugarloafFont {
    SugarloafFont { family: family.to_string() }
}

fn fonts() -> SugarloafFonts {
    SugarloafFonts {
        regular: font("Fira Code"),
        bold: font("Fira Code Bold"),
        bold_italic: font("Fira Code Bold Italic"),
        italic: font("Fira Code Italic"),
    }
}

fn compositor(width: u32, height: u32, sugarheight: u32) -> Sugarloaf {
    let ctx = Context::new(width, height, 1000);
    let layout = SugarloafLayout::new(width, height, 1000, sugarheight, 24);
    Sugarloaf::new(ctx, fonts(), layout, None, Vec::new()).unwrap()
}

fn cell(content: char, fg: Color, bg: Color) -> Sugar {
    Sugar { content, foreground_color: fg, background_color: bg, style: None, decoration: None }
}

fn text(content: &str, style: SpanStyle) -> Span {
    Span { content: content.to_string(), style, color: INK }
}

fn line_break() -> Span {
    text("\n", SpanStyle::Regular)
}

fn run_frame(s: &mut Sugarloaf) -> Vec<FrameAction> {
    vec![
        s.render(FrameEvent::Tick),
        s.render(FrameEvent::TargetReady),
        s.render(FrameEvent::Composited),
        s.render(FrameEvent::Submitted),
    ]
}

#[test]
fn five_identical_cells_queue_one_rect_and_one_span() {
    let mut s = compositor(800, 600, 20);
    s.stack(vec![cell('a', WHITE, BLACK); 5]);
    assert_eq!(s.rects(), &vec![Rect { position: (0, 0), color: BLACK, size: (50, 20) }]);
    assert_eq!(s.spans(), &vec![text("aaaaa", SpanStyle::Regular), line_break()]);
}

#[test]
fn two_runs_queue_two_rects_and_two_spans() {
    let mut s = compositor(800, 600, 20);
    s.stack(vec![cell('x', RED, BLACK), cell('x', RED, BLACK), cell('y', RED, BLACK)]);
    assert_eq!(
        s.rects(),
        &vec![
            Rect { position: (0, 0), color: BLACK, size: (20, 20) },
            Rect { position: (0, 0), color: BLACK, size: (10, 20) },
        ]
    );
    assert_eq!(
        s.spans(),
        &vec![text("xx", SpanStyle::Regular), text("y", SpanStyle::Regular), line_break()]
    );
}

#[test]
fn a_decoration_in_the_middle_queues_an_overlay() {
    let mut s = compositor(800, 600, 20);
    let mut row = vec![cell('a', WHITE, BLACK); 4];
    row[2].decoration =
        Some(SugarDecoration { relative_position: (0, 500), size: (1000, 100), color: RED });
    s.stack(row);
    assert_eq!(
        s.rects(),
        &vec![
            Rect { position: (0, 0), color: BLACK, size: (20, 20) },
            Rect { position: (0, 0), color: BLACK, size: (10, 20) },
            Rect { position: (10, 22), color: RED, size: (10, 2) },
            Rect { position: (0, 0), color: BLACK, size: (10, 20) },
        ]
    );
    assert_eq!(
        s.spans(),
        &vec![
            text("aa", SpanStyle::Regular),
            text("a", SpanStyle::Regular),
            text("a", SpanStyle::Regular),
            line_break(),
        ]
    );
}

#[test]
fn an_empty_row_is_an_empty_line() {
    let mut s = compositor(800, 600, 20);
    s.stack(Vec::new());
    assert!(s.rects().is_empty());
    assert_eq!(s.spans(), &vec![line_break()]);
}

#[test]
fn rows_add_up_and_each_ends_in_one_line_break() {
    let mut s = compositor(800, 600, 20);
    s.stack(vec![cell('a', WHITE, BLACK); 2]);
    s.stack(vec![cell('b', WHITE, BLACK), cell('c', WHITE, BLACK)]);
    assert_eq!(
        s.spans(),
        &vec![
            text("aa", SpanStyle::Regular),
            line_break(),
            text("b", SpanStyle::Regular),
            text("c", SpanStyle::Regular),
            line_break(),
        ]
    );
    assert_eq!(s.rects().len(), 3);
    let breaks = s.spans().iter().filter(|span| span.content.contains('\n')).count();
    assert_eq!(breaks, 2);
}

#[test]
fn the_background_is_the_closing_cell_s_own() {
    let mut s = compositor(800, 600, 20);
    s.stack(vec![cell('a', WHITE, BLACK), cell('a', WHITE, RED)]);
    assert_eq!(
        s.rects(),
        &vec![
            Rect { position: (0, 0), color: BLACK, size: (10, 20) },
            Rect { position: (0, 0), color: RED, size: (10, 20) },
        ]
    );
}

#[test]
fn a_styled_run_gives_a_styled_span() {
    let mut s = compositor(800, 600, 20);
    let mut bold = cell('b', WHITE, BLACK);
    bold.style = Some(SugarStyle { is_italic: true, is_bold: true, is_bold_italic: false });
    let mut unflagged = cell('u', WHITE, BLACK);
    unflagged.style =
        Some(SugarStyle { is_italic: false, is_bold: false, is_bold_italic: false });
    s.stack(vec![bold, unflagged]);
    assert_eq!(
        s.spans(),
        &vec![text("b", SpanStyle::Bold), text("u", SpanStyle::Regular), line_break()]
    );
}

#[test]
fn a_new_compositor_holds_nothing() {
    let s = compositor(640, 480, 16);
    assert!(s.rects().is_empty());
    assert!(s.spans().is_empty());
    assert_eq!(s.phase(), FramePhase::Idle);
    assert_eq!(s.text_stages(), TextStages { prepare: true, render: false });
    assert_eq!(s.get_context(), &Context { size: Size { width: 640, height: 480 }, scale: 1000 });
    assert_eq!(s.get_scale(), 1000);
    assert_eq!(s.get_layout().sugarheight, 16);
    assert_eq!(s.fonts(), &fonts());
    assert_eq!(s.get_layout().background_color, BLACK);
    assert_eq!(s.get_layout().background_image, None);
}

#[test]
fn missing_fonts_come_back_with_a_working_compositor() {
    let ctx = Context::new(640, 480, 1000);
    let layout = SugarloafLayout::new(640, 480, 1000, 16, 20);
    let missing = vec![font("Nope Sans"), font("Nope Mono")];
    let db = Database {};
    let made = Sugarloaf::new(ctx, fonts(), layout.clone(), Some(&db), missing.clone());
    let failed = made.unwrap_err();
    assert_eq!(failed.errors.fonts_not_found, missing);
    let mut instance = failed.instance;
    assert_eq!(instance.get_layout(), &layout);
    assert_eq!(instance.phase(), FramePhase::Idle);
    instance.stack(vec![cell('a', WHITE, BLACK)]);
    assert_eq!(instance.rects().len(), 1);
}

#[test]
fn a_completed_frame_drains_what_was_pending() {
    let mut s = compositor(800, 600, 20);
    for _ in 0..7 {
        s.stack(vec![cell('a', WHITE, BLACK); 3]);
    }
    s.pile_rects(vec![Rect { position: (1, 1), color: RED, size: (2, 2) }]);
    assert_eq!(s.rects().len(), 8);
    assert_eq!(s.spans().len(), 14);
    let actions = run_frame(&mut s);
    assert_eq!(
        actions,
        vec![
            FrameAction::Acquire,
            FrameAction::Composite(vec![
                FrameStage::Clear,
                FrameStage::Rects,
                FrameStage::PrepareText
            ]),
            FrameAction::Submit,
            FrameAction::Present { trim: true },
        ]
    );
    assert!(s.rects().is_empty());
    assert!(s.spans().is_empty());
    assert_eq!(s.phase(), FramePhase::Presented);
}

#[test]
fn pending_state_lasts_until_the_frame_completes() {
    let mut s = compositor(800, 600, 20);
    s.stack(vec![cell('a', WHITE, BLACK); 3]);
    s.render(FrameEvent::Tick);
    assert_eq!(s.phase(), FramePhase::Acquiring);
    s.render(FrameEvent::TargetReady);
    assert_eq!(s.phase(), FramePhase::Compositing);
    assert_eq!(s.rects().len(), 1);
    assert_eq!(s.spans().len(), 2);
    s.render(FrameEvent::Composited);
    assert_eq!(s.phase(), FramePhase::Submitted);
    assert_eq!(s.rects().len(), 1);
    s.render(FrameEvent::Submitted);
    assert_eq!(s.rects().len(), 0);
}

#[test]
fn an_empty_frame_completes_too() {
    let mut s = compositor(800, 600, 20);
    run_frame(&mut s);
    assert_eq!(s.phase(), FramePhase::Presented);
    assert!(s.rects().is_empty());
    assert!(s.spans().is_empty());
}

#[test]
fn a_frame_without_target_is_dropped_and_the_next_goes_on() {
    let mut s = compositor(800, 600, 20);
    s.stack(vec![cell('a', WHITE, BLACK); 3]);
    assert_eq!(s.render(FrameEvent::Tick), FrameAction::Acquire);
    assert_eq!(s.render(FrameEvent::TargetUnavailable), FrameAction::Nothing);
    assert_eq!(s.phase(), FramePhase::Dropped);
    assert_eq!(s.rects().len(), 1);
    assert_eq!(s.spans().len(), 2);
    let actions = run_frame(&mut s);
    assert_eq!(actions[0], FrameAction::Acquire);
    assert_eq!(actions[3], FrameAction::Present { trim: true });
    assert!(s.rects().is_empty());
}

#[test]
fn an_exhausted_device_aborts() {
    let mut s = compositor(800, 600, 20);
    s.render(FrameEvent::Tick);
    assert_eq!(s.render(FrameEvent::DeviceExhausted), FrameAction::Abort);
    assert_eq!(s.phase(), FramePhase::Dropped);
}

#[test]
fn an_event_out_of_turn_changes_nothing() {
    let mut s = compositor(800, 600, 20);
    s.stack(vec![cell('a', WHITE, BLACK)]);
    for event in [
        FrameEvent::TargetReady,
        FrameEvent::TargetUnavailable,
        FrameEvent::DeviceExhausted,
        FrameEvent::Composited,
        FrameEvent::Submitted,
    ] {
        assert_eq!(s.render(event), FrameAction::Nothing);
        assert_eq!(s.phase(), FramePhase::Idle);
        assert_eq!(s.rects().len(), 1);
    }
    s.render(FrameEvent::Tick);
    assert_eq!(s.render(FrameEvent::Tick), FrameAction::Nothing);
    assert_eq!(s.render(FrameEvent::Submitted), FrameAction::Nothing);
    assert_eq!(s.phase(), FramePhase::Acquiring);
    assert_eq!(s.rects().len(), 1);
}

#[test]
fn a_background_image_is_drawn_beneath_everything() {
    let mut s = compositor(800, 600, 20);
    let props =
        ImageProperties { path: "wall.png".to_string(), width: 300, height: 200, x: 10, y: 20 };
    s.set_background_image(&props);
    assert_eq!(
        s.get_layout().background_image,
        Some(Image {
            path: "wall.png".to_string(),
            bounds: Rectangle { x: 10, y: 20, width: 300, height: 200 },
        })
    );
    s.set_text_stages(TextStages { prepare: true, render: true });
    s.render(FrameEvent::Tick);
    assert_eq!(
        s.render(FrameEvent::TargetReady),
        FrameAction::Composite(vec![
            FrameStage::Clear,
            FrameStage::Layer,
            FrameStage::Rects,
            FrameStage::PrepareText,
            FrameStage::RenderText,
        ])
    );
}

#[test]
fn the_text_stages_switch_off_one_by_one() {
    let mut s = compositor(800, 600, 20);
    s.set_text_stages(TextStages { prepare: false, render: true });
    s.render(FrameEvent::Tick);
    assert_eq!(
        s.render(FrameEvent::TargetReady),
        FrameAction::Composite(vec![FrameStage::Clear, FrameStage::Rects, FrameStage::RenderText])
    );
    let mut s = compositor(800, 600, 20);
    s.set_text_stages(TextStages { prepare: false, render: false });
    s.stack(vec![cell('a', WHITE, BLACK)]);
    let actions = run_frame(&mut s);
    assert_eq!(actions[1], FrameAction::Composite(vec![FrameStage::Clear, FrameStage::Rects]));
    assert!(s.rects().is_empty());
    assert!(s.spans().is_empty());
}

#[test]
fn clearing_the_surface_keeps_what_is_pending() {
    let mut s = compositor(800, 600, 20);
    s.stack(vec![cell('a', WHITE, BLACK); 2]);
    assert_eq!(s.clear(FrameEvent::Tick), FrameAction::Acquire);
    assert_eq!(
        s.clear(FrameEvent::TargetReady),
        FrameAction::Composite(vec![FrameStage::Clear])
    );
    assert_eq!(s.clear(FrameEvent::Composited), FrameAction::Submit);
    assert_eq!(s.clear(FrameEvent::Submitted), FrameAction::Present { trim: false });
    assert_eq!(s.phase(), FramePhase::Presented);
    assert_eq!(s.rects().len(), 1);
    assert_eq!(s.spans().len(), 2);
    s.clear(FrameEvent::Tick);
    assert_eq!(s.clear(FrameEvent::DeviceExhausted), FrameAction::Abort);
}

#[test]
fn resize_twice_is_resize_once() {
    let mut once = compositor(800, 600, 20);
    once.resize(1024, 768);
    let mut twice = compositor(800, 600, 20);
    twice.resize(1024, 768).resize(1024, 768);
    assert_eq!(once.get_layout(), twice.get_layout());
    assert_eq!(once.get_context(), twice.get_context());
    assert_eq!(once.get_layout().width, 1024);
    assert_eq!(once.get_layout().height, 768);
    assert_eq!(once.get_layout().columns, 102);
    assert_eq!(once.get_layout().lines, 32);
    assert_eq!(once.get_context().size, Size { width: 1024, height: 768 });
}

#[test]
fn resize_and_rescale_draw_nothing_and_chain() {
    let mut s = compositor(800, 600, 20);
    s.stack(vec![cell('a', WHITE, BLACK)]);
    s.resize(400, 300).rescale(2000).set_background_color(RED);
    assert_eq!(s.phase(), FramePhase::Idle);
    assert_eq!(s.rects().len(), 1);
    assert_eq!(s.spans().len(), 2);
    assert_eq!(s.get_scale(), 2000);
    assert_eq!(s.get_layout().scale_factor, 2000);
    assert_eq!(s.get_layout().columns, 20);
    assert_eq!(s.get_layout().lines, 6);
    assert_eq!(s.get_layout().background_color, RED);
    assert_eq!(s.get_layout().sugarheight, 20);
}

#[test]
fn no_rect_of_the_old_viewport_is_in_the_next_frame() {
    let mut s = compositor(800, 600, 20);
    s.stack(vec![cell('a', WHITE, BLACK); 60]);
    s.stack(vec![cell('b', WHITE, RED); 60]);
    run_frame(&mut s);
    s.resize(200, 100);
    assert_eq!(s.get_layout().columns, 20);
    s.stack(vec![cell('c', WHITE, BLACK); 20]);
    s.render(FrameEvent::Tick);
    s.render(FrameEvent::TargetReady);
    assert_eq!(s.rects(), &vec![Rect { position: (0, 0), color: BLACK, size: (200, 20) }]);
    assert_eq!(s.spans().len(), 2);
    assert_eq!(s.spans()[0].content, "c".repeat(20));
}

#[test]
fn piled_rects_follow_what_is_pending() {
    let mut s = compositor(800, 600, 20);
    s.stack(vec![cell('a', WHITE, BLACK)]);
    let cursor = Rect { position: (30, 40), color: WHITE, size: (10, 20) };
    let mark = Rect { position: (50, 60), color: RED, size: (1, 1) };
    s.pile_rects(vec![cursor, mark]).pile_rects(Vec::new());
    assert_eq!(
        s.rects(),
        &vec![Rect { position: (0, 0), color: BLACK, size: (10, 20) }, cursor, mark]
    );
    assert_eq!(s.spans().len(), 2);
}
