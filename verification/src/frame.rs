//! The frame protocol: which outside step comes next, and what a frame
//! draws, in which order.

use vstd::prelude::*;

verus! {

/// Where a frame stands.
#[derive(Clone, Copy, Debug, PartialEq, Eq, Structural)]
pub enum FramePhase {
    /// No frame has begun.
    Idle,
    /// A surface target was asked for.
    Acquiring,
    /// The target is here and the command sequence is open.
    Compositing,
    /// The command sequence went to the device queue.
    Submitted,
    /// The frame was handed over for presenting.
    Presented,
    /// The frame was abandoned.
    Dropped,
}

/// What the caller reports after the outside step it was asked for.
#[derive(Clone, Copy, Debug, PartialEq, Eq, Structural)]
pub enum FrameEvent {
    /// Time for a frame.
    Tick,
    /// The surface gave a target.
    TargetReady,
    /// The surface has no target now: it timed out, is outdated or was lost.
    TargetUnavailable,
    /// The device is out of memory.
    DeviceExhausted,
    /// The stages were recorded in the command sequence.
    Composited,
    /// The device queue took the command sequence.
    Submitted,
}

/// One stage of compositing.
#[derive(Clone, Copy, Debug, PartialEq, Eq, Structural)]
pub enum FrameStage {
    /// Clear the whole surface to the background color.
    Clear,
    /// Prepare and draw the background image.
    Layer,
    /// Prepare and draw the pending rectangles.
    Rects,
    /// Shape the pending spans and prepare their glyphs.
    PrepareText,
    /// Draw the prepared glyphs.
    RenderText,
}

/// The two text stages, each switched on or off by itself.
#[derive(Clone, Copy, Debug, PartialEq, Eq, Structural)]
pub struct TextStages {
    pub prepare: bool,
    pub render: bool,
}

/// What the caller is asked to do next.
#[derive(Clone, Debug, PartialEq, Eq)]
pub enum FrameAction {
    /// Nothing: the frame is over, or the event did not belong here.
    Nothing,
    /// Ask the surface for a target, and report what it answered.
    Acquire,
    /// Open a command sequence and record these stages in this order.
    Composite(Vec<FrameStage>),
    /// Close the command sequence and hand it to the device queue.
    Submit,
    /// Present the target and reclaim the staging resources; with `trim`,
    /// let the glyph cache drop what it did not use.
    Present { trim: bool },
    /// Stop the process: the device cannot go on.
    Abort,
}

/// An action as a mathematical value.
pub enum ActionView {
    Nothing,
    Acquire,
    Composite(Seq<FrameStage>),
    Submit,
    Present { trim: bool },
    Abort,
}

impl View for FrameAction {
    type V = ActionView;

    open spec fn view(&self) -> ActionView {
        match *self {
            FrameAction::Nothing => ActionView::Nothing,
            FrameAction::Acquire => ActionView::Acquire,
            FrameAction::Composite(stages) => ActionView::Composite(stages@),
            FrameAction::Submit => ActionView::Submit,
            FrameAction::Present { trim } => ActionView::Present { trim },
            FrameAction::Abort => ActionView::Abort,
        }
    }
}

/// A frame may begin: none is under way.
pub open spec fn at_rest(phase: FramePhase) -> bool {
    phase == FramePhase::Idle || phase == FramePhase::Presented || phase == FramePhase::Dropped
}

/// The event is the one the phase waits for.
pub open spec fn expected(phase: FramePhase, event: FrameEvent) -> bool {
    match event {
        FrameEvent::Tick => at_rest(phase),
        FrameEvent::TargetReady | FrameEvent::TargetUnavailable | FrameEvent::DeviceExhausted => phase
            == FramePhase::Acquiring,
        FrameEvent::Composited => phase == FramePhase::Compositing,
        FrameEvent::Submitted => phase == FramePhase::Submitted,
    }
}

/// The phase after an event. An event that the phase does not wait for
/// changes nothing.
pub open spec fn next_phase(phase: FramePhase, event: FrameEvent) -> FramePhase {
    if !expected(phase, event) {
        phase
    } else {
        match event {
            FrameEvent::Tick => FramePhase::Acquiring,
            FrameEvent::TargetReady => FramePhase::Compositing,
            FrameEvent::TargetUnavailable => FramePhase::Dropped,
            FrameEvent::DeviceExhausted => FramePhase::Dropped,
            FrameEvent::Composited => FramePhase::Submitted,
            FrameEvent::Submitted => FramePhase::Presented,
        }
    }
}

/// The event completes a frame: it was submitted and is now presented.
pub open spec fn completes(phase: FramePhase, event: FrameEvent) -> bool {
    phase == FramePhase::Submitted && event == FrameEvent::Submitted
}

/// The stages of a full frame, bottom layer first: the clear, the background
/// image if there is one, the rectangles, then each text stage that is
/// switched on.
pub open spec fn full_stages(has_image: bool, text: TextStages) -> Seq<FrameStage> {
    seq![FrameStage::Clear] + (if has_image {
        seq![FrameStage::Layer]
    } else {
        Seq::empty()
    }) + seq![FrameStage::Rects] + (if text.prepare {
        seq![FrameStage::PrepareText]
    } else {
        Seq::empty()
    }) + (if text.render {
        seq![FrameStage::RenderText]
    } else {
        Seq::empty()
    })
}

/// The stages of a frame that only clears the surface.
pub open spec fn clear_stages() -> Seq<FrameStage> {
    seq![FrameStage::Clear]
}

/// What is asked of the caller after an event, in a frame that draws
/// `stages` and ends with or without a trim of the caches.
pub open spec fn action_for(
    phase: FramePhase,
    event: FrameEvent,
    stages: Seq<FrameStage>,
    trim: bool,
) -> ActionView {
    if !expected(phase, event) {
        ActionView::Nothing
    } else {
        match event {
            FrameEvent::Tick => ActionView::Acquire,
            FrameEvent::TargetReady => ActionView::Composite(stages),
            FrameEvent::TargetUnavailable => ActionView::Nothing,
            FrameEvent::DeviceExhausted => ActionView::Abort,
            FrameEvent::Composited => ActionView::Submit,
            FrameEvent::Submitted => ActionView::Present { trim },
        }
    }
}

impl FramePhase {
    /// Decides `expected`.
    pub fn expects(self, event: FrameEvent) -> (waited_for: bool)
        ensures
            waited_for == expected(self, event),
    {
        match event {
            FrameEvent::Tick => self == FramePhase::Idle || self == FramePhase::Presented || self
                == FramePhase::Dropped,
            FrameEvent::TargetReady | FrameEvent::TargetUnavailable | FrameEvent::DeviceExhausted => self
                == FramePhase::Acquiring,
            FrameEvent::Composited => self == FramePhase::Compositing,
            FrameEvent::Submitted => self == FramePhase::Submitted,
        }
    }

    /// Computes `next_phase`.
    pub fn next(self, event: FrameEvent) -> (phase: FramePhase)
        ensures
            phase == next_phase(self, event),
    {
        if !self.expects(event) {
            self
        } else {
            match event {
                FrameEvent::Tick => FramePhase::Acquiring,
                FrameEvent::TargetReady => FramePhase::Compositing,
                FrameEvent::TargetUnavailable => FramePhase::Dropped,
                FrameEvent::DeviceExhausted => FramePhase::Dropped,
                FrameEvent::Composited => FramePhase::Submitted,
                FrameEvent::Submitted => FramePhase::Presented,
            }
        }
    }
}

/// Lists the stages of a full frame.
pub fn plan_stages(has_image: bool, text: TextStages) -> (stages: Vec<FrameStage>)
    ensures
        stages@ == full_stages(has_image, text),
{
    let mut stages: Vec<FrameStage> = Vec::new();
    stages.push(FrameStage::Clear);
    if has_image {
        stages.push(FrameStage::Layer);
    }
    stages.push(FrameStage::Rects);
    if text.prepare {
        stages.push(FrameStage::PrepareText);
    }
    if text.render {
        stages.push(FrameStage::RenderText);
    }
    stages
}

/// Decides what is asked of the caller after an event.
pub fn decide(phase: FramePhase, event: FrameEvent, stages: Vec<FrameStage>, trim: bool) -> (action:
    FrameAction)
    ensures
        action@ == action_for(phase, event, stages@, trim),
{
    if !phase.expects(event) {
        FrameAction::Nothing
    } else {
        match event {
            FrameEvent::Tick => FrameAction::Acquire,
            FrameEvent::TargetReady => FrameAction::Composite(stages),
            FrameEvent::TargetUnavailable => FrameAction::Nothing,
            FrameEvent::DeviceExhausted => FrameAction::Abort,
            FrameEvent::Composited => FrameAction::Submit,
            FrameEvent::Submitted => FrameAction::Present { trim },
        }
    }
}

} // verus!
