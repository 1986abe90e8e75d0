use vstd::prelude::*;
use crate::color::Color;
use crate::color::spec_initial_color;
use crate::color::initial_color;
use crate::surface::SurfaceConfig;
use crate::surface::spec_clamp_dim;
use crate::surface::spec_reconfigured;
use crate::ui::UiEventResponse;
use crate::ui::UiFrameOutput;
use crate::frame::GpuOp;
use crate::frame::spec_frame_plan;
use crate::frame::plan_frame;

verus! {

/// One platform window event, reduced to the kinds the loop dispatches on.
#[derive(Clone, Copy, PartialEq, Eq, Structural, Debug)]
pub enum LoopEvent {
    /// The window's physical size changed.
    Resized { width: u32, height: u32 },
    /// The platform asks for the window to be redrawn.
    RedrawRequested,
    /// The user asked to close the window.
    CloseRequested,
    /// Any other window event: forwarded to the UI, otherwise ignored.
    Other,
}

/// What the loop decides the host must do for one event.
#[derive(Clone, Copy, PartialEq, Eq, Structural, Debug)]
pub enum Directive {
    /// Reapply the (already clamped) stored configuration to the surface.
    Reconfigure,
    /// Run the full redraw: acquire a frame, run the UI, execute the plan.
    RunRedraw,
    /// Leave the event loop.
    Exit,
    /// Nothing to perform for this event.
    Idle,
}

/// The loop's answer to one event: the directive to perform, and whether a
/// redraw should be requested from the window.
#[derive(Clone, Copy, PartialEq, Eq, Structural, Debug)]
pub struct StepResult {
    pub directive: Directive,
    pub request_redraw: bool,
}

/// The loop's whole mutable state: the committed color, the surface
/// configuration, and whether the loop is still running.
#[derive(Clone, Copy, PartialEq, Eq, Structural, Debug)]
pub struct LoopState {
    pub color: Color,
    pub config: SurfaceConfig,
    pub running: bool,
}

impl LoopState {
    /// Valid color channels and a non-degenerate surface.
    pub open spec fn valid(self) -> bool {
        self.color.valid() && self.config.valid()
    }
}

/// The dispatch a running loop performs once the UI has declined the event.
pub open spec fn spec_dispatch_directive(e: LoopEvent) -> Directive {
    match e {
        LoopEvent::Resized { .. } => Directive::Reconfigure,
        LoopEvent::RedrawRequested => Directive::RunRedraw,
        LoopEvent::CloseRequested => Directive::Exit,
        LoopEvent::Other => Directive::Idle,
    }
}

/// The state a running loop moves to once the UI has declined the event.
pub open spec fn spec_dispatch_state(s: LoopState, e: LoopEvent) -> LoopState {
    match e {
        LoopEvent::Resized { width, height } => LoopState {
            config: spec_reconfigured(s.config, width, height),
            ..s
        },
        LoopEvent::RedrawRequested => s,
        LoopEvent::CloseRequested => LoopState { running: false, ..s },
        LoopEvent::Other => s,
    }
}

/// The state after one event: unchanged if the loop has stopped or the UI
/// claimed the event, the event's dispatch otherwise.
pub open spec fn spec_next_state(s: LoopState, e: LoopEvent, u: UiEventResponse) -> LoopState {
    if !s.running {
        s
    } else if u.consumed {
        s
    } else {
        spec_dispatch_state(s, e)
    }
}

/// The directive for one event: nothing if the loop has stopped or the UI
/// claimed the event, the event's dispatch otherwise.
pub open spec fn spec_directive(s: LoopState, e: LoopEvent, u: UiEventResponse) -> Directive {
    if !s.running {
        Directive::Idle
    } else if u.consumed {
        Directive::Idle
    } else {
        spec_dispatch_directive(e)
    }
}

/// Whether a redraw is requested from the window: whenever the UI asks for
/// a repaint, and after a resize — some platforms do not repaint on resize
/// by themselves.
pub open spec fn spec_request_redraw(s: LoopState, e: LoopEvent, u: UiEventResponse) -> bool {
    s.running && (u.repaint || (!u.consumed && e is Resized))
}

/// The loop state at startup: opaque red committed, the surface configured
/// to the window's physical size clamped to at least 1x1, running.
pub fn initial_state(format: u32, width: u32, height: u32) -> (s: LoopState)
    ensures
        s.color == spec_initial_color(),
        s.config.width == spec_clamp_dim(width),
        s.config.height == spec_clamp_dim(height),
        s.config.format == format,
        s.running,
        s.valid(),
{
    LoopState {
        color: initial_color(),
        config: SurfaceConfig::new(format, width, height),
        running: true,
    }
}

/// Handles one window event, after the UI layer has seen it and reported
/// its response. The host performs the returned directive and, if asked,
/// requests a window redraw.
pub fn handle_event(state: &mut LoopState, event: &LoopEvent, ui: &UiEventResponse) -> (r:
    StepResult)
    ensures
        *final(state) == spec_next_state(*old(state), *event, *ui),
        r.directive == spec_directive(*old(state), *event, *ui),
        r.request_redraw == spec_request_redraw(*old(state), *event, *ui),
{
    if !state.running {
        return StepResult { directive: Directive::Idle, request_redraw: false };
    }
    let request_redraw = ui.repaint || (!ui.consumed && matches!(event, LoopEvent::Resized { .. }));
    if ui.consumed {
        return StepResult { directive: Directive::Idle, request_redraw };
    }
    let directive = match event {
        LoopEvent::Resized { width, height } => {
            state.config.reconfigure(*width, *height);
            Directive::Reconfigure
        },
        LoopEvent::RedrawRequested => Directive::RunRedraw,
        LoopEvent::CloseRequested => {
            state.running = false;
            Directive::Exit
        },
        LoopEvent::Other => Directive::Idle,
    };
    StepResult { directive, request_redraw }
}

/// The redraw body, run when the directive is `RunRedraw` and the UI frame
/// has produced its output: commits the frame's color as the loop's and
/// returns the ordered command plan of this redraw.
pub fn commit_frame(state: &mut LoopState, ui: &UiFrameOutput) -> (plan: Vec<GpuOp>)
    ensures
        final(state).color == ui.color,
        final(state).config == old(state).config,
        final(state).running == old(state).running,
        plan@ == spec_frame_plan(*ui),
{
    state.color = ui.color;
    plan_frame(ui)
}

/// Event handling keeps the loop state valid: the committed color is not
/// touched, and every surface size it applies is clamped to at least 1x1.
pub proof fn lemma_step_preserves_validity(s: LoopState, e: LoopEvent, u: UiEventResponse)
    requires
        s.valid(),
    ensures
        spec_next_state(s, e, u).valid(),
        spec_next_state(s, e, u).color == s.color,
{
}

/// Single-consumer dispatch: for any one event a running loop either lets
/// the UI keep it — the state is untouched and no directive is issued — or
/// dispatches it to the scene; never both, never neither.
pub proof fn lemma_event_consumption_exclusive(s: LoopState, e: LoopEvent, u: UiEventResponse)
    requires
        s.running,
    ensures
        u.consumed ==> spec_next_state(s, e, u) == s && spec_directive(s, e, u) == Directive::Idle,
        !u.consumed ==> spec_next_state(s, e, u) == spec_dispatch_state(s, e) && spec_directive(
            s,
            e,
            u,
        ) == spec_dispatch_directive(e),
{
}

/// A close request is terminal: the loop stops running, and a stopped loop
/// answers every further event with no directive, no redraw request and no
/// state change.
pub proof fn lemma_close_is_terminal(
    s: LoopState,
    u: UiEventResponse,
    e2: LoopEvent,
    u2: UiEventResponse,
)
    requires
        s.running,
        !u.consumed,
    ensures
        ({
            let closed = spec_next_state(s, LoopEvent::CloseRequested, u);
            &&& !closed.running
            &&& spec_directive(closed, e2, u2) == Directive::Idle
            &&& spec_directive(closed, e2, u2) != Directive::RunRedraw
            &&& !spec_request_redraw(closed, e2, u2)
            &&& spec_next_state(closed, e2, u2) == closed
        }),
{
}

} // verus!
