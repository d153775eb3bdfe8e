//! The compositor: rows of cells go in, and once a frame everything pending
//! is drawn and forgotten.

use crate::cell::{Color, Sugar, SugarStack, CELL_WIDTH};
use crate::context::{Context, Size};
use crate::font::{SugarloafFont, SugarloafFonts};
use crate::frame::{
    action_for, at_rest, clear_stages, completes, decide, full_stages, next_phase, plan_stages,
    FrameAction, FrameEvent, FramePhase, FrameStage, TextStages,
};
use crate::layout::{raster, Image, ImageProperties, SugarloafLayout};
use crate::rect::{emit_rects, rects_of, row_rects, Rect};
use crate::run::{is_run, lemma_row_runs_partition, merge_runs, row_runs, run_views};
use crate::span::{line_terminator, row_spans, run_spans, span_of, span_views, Span, SpanView};
use vstd::prelude::*;

verus! {

/// The font database that the fonts were looked up in. The compositor reads
/// nothing from it.
#[derive(Clone, Copy, Debug)]
pub struct Database {}

/// The fonts that were asked for and not found.
#[derive(Clone, Debug, PartialEq, Eq)]
pub struct SugarloafErrors {
    pub fonts_not_found: Vec<SugarloafFont>,
}

/// A compositor that works, with what went wrong while it was set up.
#[derive(Debug)]
pub struct SugarloafWithErrors {
    pub instance: Sugarloaf,
    pub errors: SugarloafErrors,
}

/// The cell-stack compositor and frame orchestrator.
#[derive(Debug)]
pub struct Sugarloaf {
    ctx: Context,
    layout: SugarloafLayout,
    text: TextStages,
    rects: Vec<Rect>,
    spans: Vec<Span>,
    fonts: SugarloafFonts,
    phase: FramePhase,
}

/// A compositor as a mathematical value.
pub struct SugarloafView {
    pub ctx: Context,
    pub layout: SugarloafLayout,
    /// Which text stages a full frame runs.
    pub text: TextStages,
    /// The rectangles that wait for the next frame, in the order they came.
    pub rects: Seq<Rect>,
    /// The spans that wait for the next frame, in the order they came.
    pub spans: Seq<SpanView>,
    pub fonts: SugarloafFonts,
    pub phase: FramePhase,
}

impl SugarloafView {
    /// A compositor on which nothing was pushed and no frame has begun. The
    /// glyphs are prepared and not drawn.
    pub open spec fn initial(
        ctx: Context,
        fonts: SugarloafFonts,
        layout: SugarloafLayout,
    ) -> SugarloafView {
        SugarloafView {
            ctx,
            layout,
            text: TextStages { prepare: true, render: false },
            rects: Seq::empty(),
            spans: Seq::empty(),
            fonts,
            phase: FramePhase::Idle,
        }
    }

    /// After a row was pushed: its rectangles and its spans follow what was
    /// pending.
    pub open spec fn stacked(self, row: Seq<Sugar>) -> SugarloafView {
        SugarloafView {
            rects: self.rects + row_rects(row, self.layout),
            spans: self.spans + row_spans(row),
            ..self
        }
    }

    /// After the surface took a new size: the context and the layout hold it,
    /// and the layout's derived fields are recomputed.
    pub open spec fn resized(self, width: u32, height: u32) -> SugarloafView {
        SugarloafView {
            ctx: Context { size: Size { width, height }, ..self.ctx },
            layout: self.layout.with_viewport(width, height).updated(),
            ..self
        }
    }

    /// After the device took a new scale: the context and the layout hold it,
    /// and the layout's derived fields are recomputed.
    pub open spec fn rescaled(self, scale: u32) -> SugarloafView {
        SugarloafView {
            ctx: Context { scale, ..self.ctx },
            layout: self.layout.with_scale(scale).updated(),
            ..self
        }
    }

    /// With another background color.
    pub open spec fn with_background_color(self, color: Color) -> SugarloafView {
        SugarloafView {
            layout: SugarloafLayout { background_color: color, ..self.layout },
            ..self
        }
    }

    /// With a background image.
    pub open spec fn with_background_image(self, image: Image) -> SugarloafView {
        SugarloafView {
            layout: SugarloafLayout { background_image: Some(image), ..self.layout },
            ..self
        }
    }

    /// With the text stages switched as `text` says.
    pub open spec fn with_text_stages(self, text: TextStages) -> SugarloafView {
        SugarloafView { text, ..self }
    }

    /// After rectangles of the caller's were added to the batch.
    pub open spec fn piled(self, instances: Seq<Rect>) -> SugarloafView {
        SugarloafView { rects: self.rects + instances, ..self }
    }

    /// The stages that a full frame draws now.
    pub open spec fn stages(self) -> Seq<FrameStage> {
        full_stages(self.layout.background_image is Some, self.text)
    }

    /// After one step of a full frame. The step that completes the frame
    /// empties what was pending; no other step touches it.
    pub open spec fn rendered(self, event: FrameEvent) -> SugarloafView {
        if completes(self.phase, event) {
            SugarloafView {
                phase: next_phase(self.phase, event),
                rects: Seq::empty(),
                spans: Seq::empty(),
                ..self
            }
        } else {
            SugarloafView { phase: next_phase(self.phase, event), ..self }
        }
    }

    /// After one step of a frame that only clears the surface: what is
    /// pending stays.
    pub open spec fn cleared(self, event: FrameEvent) -> SugarloafView {
        SugarloafView { phase: next_phase(self.phase, event), ..self }
    }
}

impl View for Sugarloaf {
    type V = SugarloafView;

    closed spec fn view(&self) -> SugarloafView {
        SugarloafView {
            ctx: self.ctx,
            layout: self.layout,
            text: self.text,
            rects: self.rects@,
            spans: span_views(self.spans@),
            fonts: self.fonts,
            phase: self.phase,
        }
    }
}

impl Sugarloaf {
    /// Makes a compositor for a surface. `fonts_not_found` are the fonts
    /// among `fonts` that the caller could not load: with none the result is
    /// the compositor, else the same compositor together with them.
    pub fn new(
        ctx: Context,
        fonts: SugarloafFonts,
        layout: SugarloafLayout,
        db: Option<&Database>,
        fonts_not_found: Vec<SugarloafFont>,
    ) -> (made: Result<Sugarloaf, SugarloafWithErrors>)
        ensures
            made is Ok <==> fonts_not_found@.len() == 0,
            made matches Ok(instance) ==> instance@ == SugarloafView::initial(ctx, fonts, layout),
            made matches Err(failed) ==> {
                &&& failed.instance@ == SugarloafView::initial(ctx, fonts, layout)
                &&& failed.errors.fonts_not_found == fonts_not_found
            },
    {
        let instance = Sugarloaf {
            ctx,
            layout,
            text: TextStages { prepare: true, render: false },
            rects: Vec::new(),
            spans: Vec::new(),
            fonts,
            phase: FramePhase::Idle,
        };
        assert(span_views(instance.spans@) == Seq::<SpanView>::empty());
        if fonts_not_found.len() == 0 {
            Ok(instance)
        } else {
            Err(SugarloafWithErrors { instance, errors: SugarloafErrors { fonts_not_found } })
        }
    }

    /// Pushes one row: its cells are merged into runs, and each run queues one
    /// span and its rectangles. A line terminator follows the row's spans.
    pub fn stack(&mut self, stack: SugarStack)
        requires
            CELL_WIDTH * stack@.len() <= u64::MAX,
        ensures
            final(self)@ == old(self)@.stacked(stack@),
    {
        let runs = merge_runs(&stack);
        let ghost row = stack@;
        let ghost all = row_runs(row);
        let ghost rects_before = self.rects@;
        let ghost spans_before = span_views(self.spans@);
        proof {
            lemma_row_runs_partition(row);
            assert forall|j: int| 0 <= j < all.len() implies (#[trigger] all[j]).quantity
                <= row.len() by {
                assert(is_run(row, all[j]));
            }
        }
        let mut k: usize = 0;
        while k < runs.len()
            invariant
                k <= runs.len(),
                run_views(runs@) == all,
                forall|j: int| 0 <= j < all.len() ==> (#[trigger] all[j]).quantity <= row.len(),
                CELL_WIDTH * row.len() <= u64::MAX,
                self.rects@ == rects_before + rects_of(all.take(k as int), self.layout),
                span_views(self.spans@) == spans_before + run_spans(all.take(k as int)),
                self.layout == old(self).layout,
                self.ctx == old(self).ctx,
                self.text == old(self).text,
                self.fonts == old(self).fonts,
                self.phase == old(self).phase,
            decreases runs.len() - k,
        {
            let run = &runs[k];
            assert(run@ == all[k as int]);
            assert(all.take(k + 1).drop_last() == all.take(k as int));
            assert(all.take(k + 1).last() == all[k as int]);
            let ghost before = self.spans@;
            self.spans.push(Span::of_run(run));
            assert(span_views(self.spans@) == span_views(before).push(span_of(all[k as int])));
            assert(run_spans(all.take(k + 1)) == run_spans(all.take(k as int)).push(
                span_of(all[k as int]),
            ));
            emit_rects(run, &self.layout, &mut self.rects);
            k = k + 1;
        }
        assert(all.take(k as int) == all);
        let ghost before = self.spans@;
        self.spans.push(Span::line_break());
        assert(span_views(self.spans@) == span_views(before).push(line_terminator()));
    }

    /// Takes the surface's new size and brings the layout up to date. Draws
    /// nothing.
    pub fn resize(&mut self, width: u32, height: u32) -> (ret: &mut Self)
        ensures
            ret@ == old(self)@.resized(width, height),
            *final(self) == *final(ret),
    {
        self.ctx.resize(width, height);
        self.layout.resize(width, height).update();
        self
    }

    /// Takes the device's new scale, in thousandths, and brings the layout up
    /// to date. Draws nothing.
    pub fn rescale(&mut self, scale: u32) -> (ret: &mut Self)
        ensures
            ret@ == old(self)@.rescaled(scale),
            *final(self) == *final(ret),
    {
        self.ctx.scale = scale;
        self.layout.rescale(scale).update();
        self
    }

    /// The surface's size and scale.
    pub fn get_context(&self) -> (ctx: &Context)
        ensures
            *ctx == self@.ctx,
    {
        &self.ctx
    }

    /// The device scale in thousandths.
    pub fn get_scale(&self) -> (scale: u32)
        ensures
            scale == self@.ctx.scale,
    {
        self.ctx.scale
    }

    /// The layout.
    pub fn get_layout(&self) -> (layout: &SugarloafLayout)
        ensures
            *layout == self@.layout,
    {
        &self.layout
    }

    /// Which text stages a full frame runs.
    pub fn text_stages(&self) -> (text: TextStages)
        ensures
            text == self@.text,
    {
        self.text
    }

    /// Switches the two text stages, each by itself. Takes effect with the
    /// next frame.
    pub fn set_text_stages(&mut self, text: TextStages) -> (ret: &mut Self)
        ensures
            ret@ == old(self)@.with_text_stages(text),
            *final(self) == *final(ret),
    {
        self.text = text;
        self
    }

    /// The rectangles that wait for the next frame.
    pub fn rects(&self) -> (rects: &Vec<Rect>)
        ensures
            rects@ == self@.rects,
    {
        &self.rects
    }

    /// The spans that wait for the next frame.
    pub fn spans(&self) -> (spans: &Vec<Span>)
        ensures
            span_views(spans@) == self@.spans,
    {
        &self.spans
    }

    /// The fonts the compositor was made with.
    pub fn fonts(&self) -> (fonts: &SugarloafFonts)
        ensures
            *fonts == self@.fonts,
    {
        &self.fonts
    }

    /// Where the frame stands.
    pub fn phase(&self) -> (phase: FramePhase)
        ensures
            phase == self@.phase,
    {
        self.phase
    }

    /// Sets the color the next frame clears the surface to.
    pub fn set_background_color(&mut self, color: Color) -> (ret: &mut Self)
        ensures
            ret@ == old(self)@.with_background_color(color),
            *final(self) == *final(ret),
    {
        self.layout.background_color = color;
        self
    }

    /// Sets the image the next frame draws beneath everything else. Reads no
    /// file.
    pub fn set_background_image(&mut self, image: &ImageProperties) -> (ret: &mut Self)
        ensures
            ret@ == old(self)@.with_background_image(raster(*image)),
            *final(self) == *final(ret),
    {
        self.layout.background_image = Some(Image::from_properties(image));
        self
    }

    /// Adds rectangles of the caller's to the batch, behind what is pending.
    pub fn pile_rects(&mut self, instances: Vec<Rect>) -> (ret: &mut Self)
        ensures
            ret@ == old(self)@.piled(instances@),
            *final(self) == *final(ret),
    {
        let mut instances = instances;
        self.rects.append(&mut instances);
        self
    }

    /// One step of a full frame. The caller reports what the last outside
    /// step came to and is told the next one; an event that the phase does
    /// not wait for changes nothing and asks for nothing. The step that
    /// completes the frame empties the pending rectangles and spans.
    pub fn render(&mut self, event: FrameEvent) -> (action: FrameAction)
        ensures
            final(self)@ == old(self)@.rendered(event),
            action@ == action_for(old(self)@.phase, event, old(self)@.stages(), true),
    {
        let stages = plan_stages(self.layout.background_image.is_some(), self.text);
        let action = decide(self.phase, event, stages, true);
        if self.phase == FramePhase::Submitted && event == FrameEvent::Submitted {
            self.rects = Vec::new();
            self.spans = Vec::new();
            assert(span_views(self.spans@) == Seq::<SpanView>::empty());
        }
        self.phase = self.phase.next(event);
        action
    }

    /// One step of a frame that only clears the surface to the background
    /// color. What is pending stays for the next full frame.
    pub fn clear(&mut self, event: FrameEvent) -> (action: FrameAction)
        ensures
            final(self)@ == old(self)@.cleared(event),
            action@ == action_for(old(self)@.phase, event, clear_stages(), false),
    {
        let mut stages: Vec<FrameStage> = Vec::new();
        stages.push(FrameStage::Clear);
        let action = decide(self.phase, event, stages, false);
        self.phase = self.phase.next(event);
        action
    }
}

/// Resizing twice to the same size leaves what resizing once leaves, and the
/// layout it leaves is current.
pub proof fn lemma_resize_is_idempotent(s: SugarloafView, width: u32, height: u32)
    ensures
        s.resized(width, height).resized(width, height) == s.resized(width, height),
        s.resized(width, height).layout.is_current(),
        s.resized(width, height).layout.width == width,
        s.resized(width, height).layout.height == height,
        s.resized(width, height).ctx.size == (Size { width, height }),
{
}

/// Rescaling twice to the same scale leaves what rescaling once leaves, and
/// the layout it leaves is current.
pub proof fn lemma_rescale_is_idempotent(s: SugarloafView, scale: u32)
    ensures
        s.rescaled(scale).rescaled(scale) == s.rescaled(scale),
        s.rescaled(scale).layout.is_current(),
        s.rescaled(scale).layout.scale_factor == scale,
        s.rescaled(scale).ctx.scale == scale,
{
}

/// A step of a full frame that brings the frame to `Presented` leaves no
/// rectangle and no span pending, however many rows were pushed before.
pub proof fn lemma_presented_frame_is_drained(s: SugarloafView, event: FrameEvent)
    requires
        s.phase != FramePhase::Presented,
        s.rendered(event).phase == FramePhase::Presented,
    ensures
        s.rendered(event).rects.len() == 0,
        s.rendered(event).spans.len() == 0,
{
}

/// From rest, a frame whose surface gives a target runs through its four
/// steps to `Presented`, and then nothing is pending. Layout and context are
/// as before.
pub proof fn lemma_frame_runs_to_presented(s: SugarloafView)
    requires
        at_rest(s.phase),
    ensures
        ({
            let done = s.rendered(FrameEvent::Tick).rendered(FrameEvent::TargetReady).rendered(
                FrameEvent::Composited,
            ).rendered(FrameEvent::Submitted);
            &&& done.phase == FramePhase::Presented
            &&& done.rects.len() == 0
            &&& done.spans.len() == 0
            &&& done.layout == s.layout
            &&& done.ctx == s.ctx
        }),
{
}

/// A frame that the surface has no target for is dropped whole: nothing
/// pending is lost, and the next tick begins a new frame.
pub proof fn lemma_dropped_frame_keeps_pending(s: SugarloafView)
    requires
        at_rest(s.phase),
    ensures
        ({
            let dropped = s.rendered(FrameEvent::Tick).rendered(FrameEvent::TargetUnavailable);
            &&& dropped.phase == FramePhase::Dropped
            &&& dropped.rects == s.rects
            &&& dropped.spans == s.spans
            &&& dropped.rendered(FrameEvent::Tick).phase == FramePhase::Acquiring
        }),
{
}

/// After a completed frame and a resize, the next row's rectangles are the
/// only ones pending, and they are those of the new layout.
pub proof fn lemma_no_rect_outlives_its_frame(
    s: SugarloafView,
    event: FrameEvent,
    width: u32,
    height: u32,
    row: Seq<Sugar>,
)
    requires
        completes(s.phase, event),
    ensures
        s.rendered(event).resized(width, height).stacked(row).rects == row_rects(
            row,
            s.layout.with_viewport(width, height).updated(),
        ),
        s.rendered(event).resized(width, height).stacked(row).spans == row_spans(row),
{
}

} // verus!
