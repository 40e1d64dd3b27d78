//! Phases and step counting of an ongoing render.

use vstd::prelude::*;

verus! {

/// The current phase of a render operation.
#[derive(Clone, Copy, Debug, PartialEq, Eq, Structural)]
pub enum RenderPhase {
    /// No render in progress.
    Idle,
    /// Computing the reference orbit (single-threaded, slow at deep zoom).
    ComputingOrbit,
    /// Building the bivariate linear approximation table.
    BuildingBla,
    /// Rendering tiles (CPU) or row-sets (GPU).
    Rendering,
    /// Running the final colorization pipeline.
    Colorizing,
    /// Render complete.
    Complete,
}

impl Default for RenderPhase {
    fn default() -> (r: Self)
        ensures
            r == RenderPhase::Idle,
    {
        RenderPhase::Idle
    }
}

/// Phases whose progress is shown without a step count.
pub open spec fn phase_is_indeterminate(p: RenderPhase) -> bool {
    p == RenderPhase::ComputingOrbit || p == RenderPhase::BuildingBla || p == RenderPhase::Colorizing
}

/// Phases during which a render is under way.
pub open spec fn phase_is_active(p: RenderPhase) -> bool {
    p != RenderPhase::Idle && p != RenderPhase::Complete
}

impl RenderPhase {
    /// Whether this phase shows indeterminate progress (no step count).
    pub fn is_indeterminate(&self) -> (r: bool)
        ensures
            r == phase_is_indeterminate(*self),
    {
        match self {
            RenderPhase::ComputingOrbit | RenderPhase::BuildingBla | RenderPhase::Colorizing => true,
            _ => false,
        }
    }

    /// The display label of this phase.
    pub fn label(&self) -> (r: &'static str)
        ensures
            *self == RenderPhase::Idle ==> r@ == ""@,
            *self == RenderPhase::ComputingOrbit ==> r@ == "Computing orbit..."@,
            *self == RenderPhase::BuildingBla ==> r@ == "Building BLA table..."@,
            *self == RenderPhase::Rendering ==> r@ == "Rendering"@,
            *self == RenderPhase::Colorizing ==> r@ == "Colorizing..."@,
            *self == RenderPhase::Complete ==> r@ == "Rendered"@,
    {
        match self {
            RenderPhase::Idle => "",
            RenderPhase::ComputingOrbit => "Computing orbit...",
            RenderPhase::BuildingBla => "Building BLA table...",
            RenderPhase::Rendering => "Rendering",
            RenderPhase::Colorizing => "Colorizing...",
            RenderPhase::Complete => "Rendered",
        }
    }
}

/// Phase and step counts of an ongoing render. Elapsed wall-clock time is
/// tracked by the caller, which owns the clock.
#[derive(Clone, Copy, Debug, PartialEq, Eq, Structural)]
pub struct RenderProgress {
    /// Current render phase.
    pub phase: RenderPhase,
    /// Completed steps (meaningful during the Rendering phase).
    pub completed_steps: u32,
    /// Total steps (meaningful during the Rendering phase).
    pub total_steps: u32,
}

impl Default for RenderProgress {
    fn default() -> (r: Self)
        ensures
            r == (RenderProgress { phase: RenderPhase::Idle, completed_steps: 0, total_steps: 0 }),
    {
        RenderProgress { phase: RenderPhase::Idle, completed_steps: 0, total_steps: 0 }
    }
}

impl RenderProgress {
    /// A new render, starting with the reference orbit.
    pub fn start() -> (r: Self)
        ensures
            r == (RenderProgress { phase: RenderPhase::ComputingOrbit, completed_steps: 0, total_steps: 0 }),
    {
        RenderProgress { phase: RenderPhase::ComputingOrbit, completed_steps: 0, total_steps: 0 }
    }

    /// A render of `total_steps` steps, starting in the Rendering phase.
    pub fn new(total_steps: u32) -> (r: Self)
        ensures
            r == (RenderProgress { phase: RenderPhase::Rendering, completed_steps: 0, total_steps }),
    {
        RenderProgress { phase: RenderPhase::Rendering, completed_steps: 0, total_steps }
    }

    /// Move to another phase.
    pub fn set_phase(&mut self, phase: RenderPhase)
        ensures
            *final(self) == (RenderProgress { phase, ..*old(self) }),
    {
        self.phase = phase;
    }

    /// Set the step count of the Rendering phase; no step is completed yet.
    pub fn set_total_steps(&mut self, total: u32)
        ensures
            *final(self) == (RenderProgress { total_steps: total, completed_steps: 0, ..*old(self) }),
    {
        self.total_steps = total;
        self.completed_steps = 0;
    }

    /// Count one more completed step.
    pub fn increment_step(&mut self)
        requires
            old(self).completed_steps < u32::MAX,
        ensures
            *final(self) == (RenderProgress { completed_steps: (old(self).completed_steps + 1) as u32, ..*old(self) }),
    {
        self.completed_steps = self.completed_steps + 1;
    }

    /// Whether the render is complete.
    pub fn is_complete(&self) -> (r: bool)
        ensures
            r == (self.phase == RenderPhase::Complete),
    {
        self.phase == RenderPhase::Complete
    }

    /// Whether a render is under way (any phase but Idle and Complete).
    pub fn is_active(&self) -> (r: bool)
        ensures
            r == phase_is_active(self.phase),
    {
        !(self.phase == RenderPhase::Idle || self.phase == RenderPhase::Complete)
    }

    /// Back to the idle state.
    pub fn reset(&mut self)
        ensures
            *final(self) == (RenderProgress { phase: RenderPhase::Idle, completed_steps: 0, total_steps: 0 }),
    {
        *self = RenderProgress::default();
    }

    /// Mark the render as complete.
    pub fn set_complete(&mut self)
        ensures
            *final(self) == (RenderProgress { phase: RenderPhase::Complete, ..*old(self) }),
    {
        self.set_phase(RenderPhase::Complete);
    }
}

/// What the status line shows about a render.
#[derive(Clone, Copy, Debug, PartialEq, Eq, Structural)]
pub enum RenderStatus {
    /// Nothing (no stepped render yet).
    Blank,
    /// Steps done so far, with a cancel button.
    InProgress,
    /// The total render time.
    Finished,
}

/// The status line of a render: in progress while it has steps and is not
/// complete, finished once complete with steps, blank otherwise.
pub fn render_status(progress: &RenderProgress) -> (r: RenderStatus)
    ensures
        r == (if progress.total_steps > 0 && progress.phase != RenderPhase::Complete {
            RenderStatus::InProgress
        } else if progress.total_steps > 0 {
            RenderStatus::Finished
        } else {
            RenderStatus::Blank
        }),
{
    if progress.total_steps > 0 && !progress.is_complete() {
        RenderStatus::InProgress
    } else if progress.total_steps > 0 {
        RenderStatus::Finished
    } else {
        RenderStatus::Blank
    }
}

/// A render is never both complete and active, and every phase that shows
/// indeterminate progress is an active phase.
pub proof fn lemma_phase_classification(p: RenderPhase)
    ensures
        p == RenderPhase::Complete ==> !phase_is_active(p),
        phase_is_indeterminate(p) ==> phase_is_active(p),
{
}

/// Marking a render complete leaves it inactive; resetting it leaves it
/// idle and neither active nor complete.
pub proof fn lemma_complete_and_reset_end_activity(p: RenderProgress)
    ensures
        !phase_is_active((RenderProgress { phase: RenderPhase::Complete, ..p }).phase),
        !phase_is_active(RenderPhase::Idle),
{
}

} // verus!
