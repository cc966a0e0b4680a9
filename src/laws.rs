//! Properties of resizing and frame handling that hold across calls, proved
//! over the transitions that `State` and `FrameController` are specified by.
use vstd::prelude::*;

use crate::controller::{Action, FrameController, Phase, SurfaceFault, WindowEvent};
use crate::surface::{PixelSize, State};

verus! {

/// A resize to a size with a zero dimension leaves the configuration and the
/// `surface_configured` flag as they were, and asks for nothing.
pub proof fn lemma_zero_resize_is_ignored(c: FrameController, size: PixelSize)
    requires
        c.wf(),
        !size.is_positive(),
    ensures
        c.after_event(WindowEvent::Resized(size)) == (c, Action::Nothing),
        c.state matches Some(s) ==> s.resized(size) == s,
{
}

/// After a resize to a nonzero size while active, the surface is configured
/// at exactly that size, and the next redraw renders at that size.
pub proof fn lemma_resize_sets_frame_size(c: FrameController, size: PixelSize)
    requires
        c.wf(),
        c.phase == Phase::Active,
        size.is_positive(),
    ensures
        ({
            let (next, action) = c.after_event(WindowEvent::Resized(size));
            &&& action == Action::Configure(size)
            &&& next.wf()
            &&& next.state->0.size() == size
            &&& next.state->0.surface_configured
            &&& next.after_event(WindowEvent::RedrawRequested) == (next, Action::Render(size))
        }),
{
}

/// Every frame is rendered at the size the surface is currently configured
/// with, and only once the surface has been configured.
pub proof fn lemma_frames_use_configured_size(c: FrameController, event: WindowEvent)
    requires
        c.wf(),
    ensures
        c.after_event(event).1 matches Action::Render(size) ==> {
            &&& c.state is Some
            &&& c.state->0.surface_configured
            &&& size == c.state->0.size()
        },
{
}

/// Resizing twice to the same size gives what resizing once gives.
pub proof fn lemma_resize_idempotent(c: FrameController, size: PixelSize)
    requires
        c.wf(),
    ensures
        c.after_event(WindowEvent::Resized(size)).0.after_event(WindowEvent::Resized(size))
            == c.after_event(WindowEvent::Resized(size)),
        c.state matches Some(s) ==> s.resized(size).resized(size) == s.resized(size),
{
}

/// A redraw before the surface was first configured submits nothing and
/// changes nothing.
pub proof fn lemma_redraw_before_configuration_is_noop(c: FrameController)
    requires
        c.wf(),
        c.state matches Some(s) ==> !s.surface_configured,
    ensures
        c.after_event(WindowEvent::RedrawRequested) == (c, Action::Nothing),
{
}

/// A lost or outdated surface is reconfigured once, at its current size, and
/// the controller stays active.
pub proof fn lemma_lost_or_outdated_reconfigures_once(c: FrameController, fault: SurfaceFault)
    requires
        c.wf(),
        c.phase == Phase::Active,
        c.state->0.surface_configured,
        fault == SurfaceFault::Lost || fault == SurfaceFault::Outdated,
    ensures
        c.after_fault(fault) == (c, Action::Configure(c.state->0.size())),
{
}

/// Running out of memory while active ends the session.
pub proof fn lemma_out_of_memory_terminates(c: FrameController)
    requires
        c.wf(),
        c.phase == Phase::Active,
    ensures
        c.after_fault(SurfaceFault::OutOfMemory) == (c.terminated(), Action::Exit),
        c.terminated().phase == Phase::Terminating,
        c.terminated().wf(),
{
}

/// Once terminating, the controller stays so: no event, fault or context
/// changes it, and it never renders or asks for a frame again.
pub proof fn lemma_terminating_is_final(
    c: FrameController,
    event: WindowEvent,
    fault: SurfaceFault,
    s: State,
)
    requires
        c.wf(),
        c.phase == Phase::Terminating,
    ensures
        c.after_event(event) == (c, Action::Nothing),
        c.after_fault(fault) == (c, Action::Nothing),
        c.after_attach(s) == (c, Action::Nothing),
        c.idle_action() == Action::Nothing,
{
}

/// A timeout drops the frame: the configuration and the phase stay as they
/// were, and nothing is reconfigured.
pub proof fn lemma_timeout_changes_nothing(c: FrameController)
    requires
        c.wf(),
    ensures
        c.after_fault(SurfaceFault::Timeout) == (c, Action::Nothing),
{
}

/// Only the first context handed over is attached.
pub proof fn lemma_attach_once(c: FrameController, first: State, second: State)
    requires
        c.wf(),
        c.phase == Phase::Uninitialized,
        first.wf(),
    ensures
        c.after_attach(first).0.phase == Phase::Active,
        c.after_attach(first).0.state == Some(first),
        c.after_attach(first).0.after_attach(second) == (c.after_attach(first).0, Action::Nothing),
{
}

} // verus!
