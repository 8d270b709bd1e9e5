use vstd::prelude::*;

use crate::bridge::context_outcome;
use crate::bridge::encode_outcome;
use crate::bridge::status_ok;
use crate::bridge::surface_outcome;
use crate::bridge::CairoFormat;
use crate::bridge::cairo_status_t;
use crate::error::RenderError;
use crate::geometry::scaled_pixels;
use crate::geometry::spec_scaled_pixels;
use vstd::pervasive::unreached;

verus! {

/// Where a render's encode step sends its PNG output.
#[derive(Debug, PartialEq, Eq)]
pub enum EncodeTarget {
    /// Encode straight into the named file; carries the
    /// NUL-terminated path bytes the encoder is given.
    File { cpath: Vec<u8> },
    /// Stream the encode chunk by chunk into a growable byte sink.
    Memory,
}

/// Where a render plan stands between two native calls.
///
/// The phase names say which native resources are live: a surface
/// exists from a successful creation until its destruction event, a
/// context likewise, and the teardown phases walk them back in the
/// only order the plan ever allows — context first, surface second —
/// on the success path and on every failure path alike.
#[derive(Debug, PartialEq, Eq)]
pub enum RenderPhase {
    /// Nothing native has happened; the geometry query comes first.
    Start,
    /// Target pixel dimensions are fixed; a surface of that size has
    /// been asked for. Nothing is live yet.
    SurfacePending { width: i32, height: i32 },
    /// The surface is live and checked; a paint context has been asked
    /// for.
    ContextPending,
    /// Surface and context are live; scale, paint and flush come next.
    PaintPending,
    /// The painted surface awaits its encode.
    EncodePending,
    /// The encode finished (`failure` records how); the context must
    /// be destroyed before anything else.
    ContextTeardown { failure: Option<RenderError> },
    /// Only the surface is still live; it is destroyed last.
    SurfaceTeardown { failure: Option<RenderError> },
    /// Nothing is live any more; `failure` is the whole render's
    /// outcome, `None` for a completed encode.
    Done { failure: Option<RenderError> },
}

/// What the unverified shim observed one native call produce.
pub enum RenderEvent {
    /// The engine reported the page's native size (in thousandths of a
    /// page unit).
    SizeQueried { width_milli: u64, height_milli: u64 },
    /// The rasterizer answered the surface request: whether a surface
    /// came back at all, and the surface's own status query.
    SurfaceCreated { created: bool, status: cairo_status_t },
    /// The rasterizer answered the context request with the context's
    /// status query.
    ContextCreated { status: cairo_status_t },
    /// Scale was applied and the page was painted and flushed. The
    /// paint call has no failure signal of its own; trouble surfaces
    /// in the later status checks.
    Painted,
    /// The encode finished with this status; `status_message` is the
    /// side helper's translation of it, absent for an unmapped code.
    Encoded { status: cairo_status_t, status_message: Option<String> },
    /// The context was destroyed.
    ContextDestroyed,
    /// The surface was destroyed.
    SurfaceDestroyed,
}

/// The one native call the shim is to perform next.
#[derive(Debug, Clone, Copy, PartialEq, Eq)]
pub enum RenderAction {
    /// Query the page's native size.
    QuerySize,
    /// Create a pixel surface of the given dimensions and format (the
    /// plan always asks for 32-bit ARGB).
    CreateSurface { format: CairoFormat, width: i32, height: i32 },
    /// Create a paint context bound to the surface.
    CreateContext,
    /// Apply the scale to the context's transform, paint the page into
    /// it, and flush the surface.
    PaintAndFlush { scale_milli: u64 },
    /// Encode the surface as PNG into the job's target.
    Encode,
    /// Destroy the paint context.
    DestroyContext,
    /// Destroy the surface.
    DestroySurface,
    /// Nothing is left to do; read the outcome with `finish`.
    Finish,
}

/// Whether a surface is live in this phase.
pub open spec fn surface_alive(p: RenderPhase) -> bool {
    p is ContextPending || p is PaintPending || p is EncodePending || p is ContextTeardown
        || p is SurfaceTeardown
}

/// Whether a paint context is live in this phase.
pub open spec fn context_alive(p: RenderPhase) -> bool {
    p is PaintPending || p is EncodePending || p is ContextTeardown
}

/// The plan's transition relation: the phase that follows `phase` when
/// the shim reports `event`, for a render at `scale_milli`. An event
/// that does not belong to the phase changes nothing.
pub open spec fn spec_step(phase: RenderPhase, event: RenderEvent, scale_milli: u64) -> RenderPhase {
    match (phase, event) {
        (RenderPhase::Start, RenderEvent::SizeQueried { width_milli, height_milli }) => (
        RenderPhase::SurfacePending {
            width: spec_scaled_pixels(width_milli as int, scale_milli as int) as i32,
            height: spec_scaled_pixels(height_milli as int, scale_milli as int) as i32,
        }),
        (
            RenderPhase::SurfacePending { .. },
            RenderEvent::SurfaceCreated { created, status },
        ) => if created && status_ok(status) {
            RenderPhase::ContextPending
        } else if created {
            (RenderPhase::SurfaceTeardown { failure: Some(RenderError::SurfaceCreationFailed) })
        } else {
            (RenderPhase::Done { failure: Some(RenderError::SurfaceCreationFailed) })
        },
        (RenderPhase::ContextPending, RenderEvent::ContextCreated { status }) => if status_ok(
            status,
        ) {
            RenderPhase::PaintPending
        } else {
            (RenderPhase::SurfaceTeardown { failure: Some(RenderError::ContextCreationFailed) })
        },
        (RenderPhase::PaintPending, RenderEvent::Painted) => RenderPhase::EncodePending,
        (RenderPhase::EncodePending, RenderEvent::Encoded { status, status_message }) => (
        RenderPhase::ContextTeardown {
            failure: if status_ok(status) {
                None
            } else {
                Some(RenderError::EncodeFailed(status_message))
            },
        }),
        (RenderPhase::ContextTeardown { failure }, RenderEvent::ContextDestroyed) => (
        RenderPhase::SurfaceTeardown { failure }),
        (RenderPhase::SurfaceTeardown { failure }, RenderEvent::SurfaceDestroyed) => (
        RenderPhase::Done { failure }),
        (p, _) => p,
    }
}

/// One render of one page at one scale, as a plan the unverified shim
/// drives: the shim asks `next_action` what to do, performs that one
/// native call, reports what it observed through `advance`, and
/// repeats until the action is `Finish`.
#[derive(Debug)]
pub struct RenderJob {
    /// The engine's handle for the page being rendered.
    pub page_handle: u64,
    /// The render's scale factor, in thousandths; always positive.
    pub scale_milli: u64,
    /// Where the encode step sends its output.
    pub target: EncodeTarget,
    /// Where the plan stands.
    pub phase: RenderPhase,
}

/// The action a job's phase calls for.
pub open spec fn spec_next_action(job: RenderJob) -> RenderAction {
    match job.phase {
        RenderPhase::Start => RenderAction::QuerySize,
        RenderPhase::SurfacePending { width, height } => (RenderAction::CreateSurface {
            format: CairoFormat::Argb32,
            width,
            height,
        }),
        RenderPhase::ContextPending => RenderAction::CreateContext,
        RenderPhase::PaintPending => (RenderAction::PaintAndFlush {
            scale_milli: job.scale_milli,
        }),
        RenderPhase::EncodePending => RenderAction::Encode,
        RenderPhase::ContextTeardown { .. } => RenderAction::DestroyContext,
        RenderPhase::SurfaceTeardown { .. } => RenderAction::DestroySurface,
        RenderPhase::Done { .. } => RenderAction::Finish,
    }
}

impl RenderJob {
    /// The one native call to perform next.
    ///
    /// The teardown-ordering guarantees ride on this answer: a surface
    /// is only ever destroyed once no context is live above it, a
    /// context is only destroyed while its surface still stands, and
    /// `Finish` only comes once nothing native is left live.
    pub fn next_action(&self) -> (a: RenderAction)
        ensures
            a == spec_next_action(*self),
            a is DestroySurface ==> surface_alive(self.phase) && !context_alive(self.phase),
            a is DestroyContext ==> context_alive(self.phase) && surface_alive(self.phase),
            a is Finish ==> !surface_alive(self.phase) && !context_alive(self.phase),
    {
        match &self.phase {
            RenderPhase::Start => RenderAction::QuerySize,
            RenderPhase::SurfacePending { width, height } => RenderAction::CreateSurface {
                format: CairoFormat::Argb32,
                width: *width,
                height: *height,
            },
            RenderPhase::ContextPending => RenderAction::CreateContext,
            RenderPhase::PaintPending => RenderAction::PaintAndFlush {
                scale_milli: self.scale_milli,
            },
            RenderPhase::EncodePending => RenderAction::Encode,
            RenderPhase::ContextTeardown { .. } => RenderAction::DestroyContext,
            RenderPhase::SurfaceTeardown { .. } => RenderAction::DestroySurface,
            RenderPhase::Done { .. } => RenderAction::Finish,
        }
    }

    /// Feeds one observed outcome into the plan.
    ///
    /// Besides following the transition relation exactly, the step
    /// keeps the lifecycle honest: a live surface stays live until its
    /// own destruction event and a live context until its own; a
    /// surface becomes live only when the rasterizer actually returned
    /// one (even one whose status check then failed — it still has to
    /// be destroyed), a context only on a clean status check; a live
    /// context always has a live surface under it; and the plan only
    /// reaches `Done` with no context live and the surface either
    /// never created, already destroyed, or destroyed by this very
    /// event.
    pub fn advance(&mut self, event: RenderEvent)
        ensures
            final(self).page_handle == old(self).page_handle,
            final(self).scale_milli == old(self).scale_milli,
            final(self).target == old(self).target,
            final(self).phase == spec_step(old(self).phase, event, old(self).scale_milli),
            surface_alive(old(self).phase) && !(event is SurfaceDestroyed) ==> surface_alive(
                final(self).phase,
            ),
            surface_alive(old(self).phase) && !surface_alive(final(self).phase) ==> event
                is SurfaceDestroyed,
            context_alive(old(self).phase) && !(event is ContextDestroyed) ==> context_alive(
                final(self).phase,
            ),
            context_alive(old(self).phase) && !context_alive(final(self).phase) ==> event
                is ContextDestroyed,
            !surface_alive(old(self).phase) && surface_alive(final(self).phase) ==> ({
                &&& old(self).phase is SurfacePending
                &&& event matches RenderEvent::SurfaceCreated { created: true, .. }
            }),
            !context_alive(old(self).phase) && context_alive(final(self).phase) ==> ({
                &&& old(self).phase is ContextPending
                &&& event matches RenderEvent::ContextCreated { status }
                &&& status_ok(status)
            }),
            context_alive(final(self).phase) ==> surface_alive(final(self).phase),
            final(self).phase is Done && !(old(self).phase is Done) ==> !context_alive(
                old(self).phase,
            ) && (surface_alive(old(self).phase) ==> event is SurfaceDestroyed),
    {
        let mut phase = RenderPhase::Start;
        core::mem::swap(&mut phase, &mut self.phase);
        self.phase = Self::step_phase(phase, event, self.scale_milli);
    }

    /// The transition relation, executed: consumes the old phase and
    /// the event and builds the next phase, reading each native signal
    /// through the status bridge.
    fn step_phase(phase: RenderPhase, event: RenderEvent, scale_milli: u64) -> (p: RenderPhase)
        ensures
            p == spec_step(phase, event, scale_milli),
    {
        match (phase, event) {
            (RenderPhase::Start, RenderEvent::SizeQueried { width_milli, height_milli }) => {
                RenderPhase::SurfacePending {
                    width: scaled_pixels(width_milli, scale_milli),
                    height: scaled_pixels(height_milli, scale_milli),
                }
            },
            (
                RenderPhase::SurfacePending { .. },
                RenderEvent::SurfaceCreated { created, status },
            ) => {
                match surface_outcome(created, status) {
                    Ok(()) => RenderPhase::ContextPending,
                    Err(e) => {
                        if created {
                            RenderPhase::SurfaceTeardown { failure: Some(e) }
                        } else {
                            RenderPhase::Done { failure: Some(e) }
                        }
                    },
                }
            },
            (RenderPhase::ContextPending, RenderEvent::ContextCreated { status }) => {
                match context_outcome(status) {
                    Ok(()) => RenderPhase::PaintPending,
                    Err(e) => RenderPhase::SurfaceTeardown { failure: Some(e) },
                }
            },
            (RenderPhase::PaintPending, RenderEvent::Painted) => RenderPhase::EncodePending,
            (RenderPhase::EncodePending, RenderEvent::Encoded { status, status_message }) => {
                match encode_outcome(status, status_message) {
                    Ok(()) => RenderPhase::ContextTeardown { failure: None },
                    Err(e) => RenderPhase::ContextTeardown { failure: Some(e) },
                }
            },
            (RenderPhase::ContextTeardown { failure }, RenderEvent::ContextDestroyed) => {
                RenderPhase::SurfaceTeardown { failure }
            },
            (RenderPhase::SurfaceTeardown { failure }, RenderEvent::SurfaceDestroyed) => {
                RenderPhase::Done { failure }
            },
            (p, _) => p,
        }
    }

    /// Reads the whole render's outcome once the plan is done: `Ok`
    /// for a completed encode, otherwise the failure that ended it.
    pub fn finish(self) -> (r: Result<(), RenderError>)
        requires
            self.phase is Done,
        ensures
            self.phase matches RenderPhase::Done { failure: None } ==> r == Ok::<
                (),
                RenderError,
            >(()),
            self.phase matches RenderPhase::Done { failure: Some(e) } ==> r == Err::<
                (),
                RenderError,
            >(e),
    {
        match self.phase {
            RenderPhase::Done { failure: None } => Ok(()),
            RenderPhase::Done { failure: Some(e) } => Err(e),
            _ => unreached(),
        }
    }
}

/// A cleanly-answered pipeline runs to completion: whatever the page
/// size and the (positive or not) scale, the seven observations of an
/// untroubled run — size reported, surface returned with a clean
/// status, context with a clean status, paint done, encode clean,
/// context destroyed, surface destroyed — drive the plan from its
/// start to `Done` with no failure, in exactly that order.
pub proof fn lemma_clean_run_completes(width_milli: u64, height_milli: u64, scale_milli: u64)
    ensures
        ({
            let ok = cairo_status_t::CAIRO_STATUS_SUCCESS;
            let p1 = spec_step(
                RenderPhase::Start,
                RenderEvent::SizeQueried { width_milli, height_milli },
                scale_milli,
            );
            let p2 = spec_step(
                p1,
                RenderEvent::SurfaceCreated { created: true, status: ok },
                scale_milli,
            );
            let p3 = spec_step(p2, RenderEvent::ContextCreated { status: ok }, scale_milli);
            let p4 = spec_step(p3, RenderEvent::Painted, scale_milli);
            let p5 = spec_step(
                p4,
                RenderEvent::Encoded { status: ok, status_message: None },
                scale_milli,
            );
            let p6 = spec_step(p5, RenderEvent::ContextDestroyed, scale_milli);
            let p7 = spec_step(p6, RenderEvent::SurfaceDestroyed, scale_milli);
            p7 == (RenderPhase::Done { failure: None })
        }),
{
}

/// The rendering plan is blind to its encode destination: from equal
/// phases, the same event at the same scale yields equal phases and
/// equal actions whatever the two targets are. The file render and the
/// memory render of one page at one scale therefore hand the encoder
/// the same painted surface, differing only in where its PNG bytes go.
pub proof fn lemma_plan_independent_of_target(j1: RenderJob, j2: RenderJob, event: RenderEvent)
    requires
        j1.phase == j2.phase,
        j1.scale_milli == j2.scale_milli,
        j1.page_handle == j2.page_handle,
    ensures
        spec_step(j1.phase, event, j1.scale_milli) == spec_step(j2.phase, event, j2.scale_milli),
        spec_next_action(j1) == spec_next_action(j2),
{
}

} // verus!
