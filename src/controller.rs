//! The frame controller: a state machine that reacts to window events and to
//! the outcome of presenting frames, and says what the host must do next.
use vstd::prelude::*;

use crate::surface::{PixelSize, State};

verus! {

/// Where the controller is in its life.
#[derive(Clone, Copy, Debug, PartialEq, Eq, Structural)]
pub enum Phase {
    /// No graphics context has been handed over yet.
    Uninitialized,
    /// A context is attached and frames are rendered on demand.
    Active,
    /// Shutdown was requested; the event loop is unwinding.
    Terminating,
}

/// The keys the controller tells apart.
#[derive(Clone, Copy, Debug, PartialEq, Eq, Structural)]
pub enum Key {
    Escape,
    Other,
}

/// A notification from the window system.
#[derive(Clone, Copy, Debug, PartialEq, Eq, Structural)]
pub enum WindowEvent {
    CloseRequested,
    KeyboardInput { key: Key, pressed: bool },
    Resized(PixelSize),
    RedrawRequested,
    Other,
}

/// Why a frame could not be acquired or presented.
#[derive(Clone, Copy, Debug, PartialEq, Eq, Structural)]
pub enum SurfaceFault {
    /// Acquiring the frame took too long.
    Timeout,
    /// The surface's configuration no longer matches it.
    Outdated,
    /// The surface became invalid.
    Lost,
    /// The GPU or driver ran out of memory.
    OutOfMemory,
}

impl SurfaceFault {
    /// The fault a wgpu surface error stands for.
    pub open spec fn of_error(e: wgpu::SurfaceError) -> SurfaceFault {
        match e {
            wgpu::SurfaceError::Timeout => SurfaceFault::Timeout,
            wgpu::SurfaceError::Outdated => SurfaceFault::Outdated,
            wgpu::SurfaceError::Lost => SurfaceFault::Lost,
            wgpu::SurfaceError::OutOfMemory => SurfaceFault::OutOfMemory,
        }
    }

    pub fn from_error(e: &wgpu::SurfaceError) -> (r: SurfaceFault)
        ensures
            r == SurfaceFault::of_error(*e),
    {
        match e {
            wgpu::SurfaceError::Timeout => SurfaceFault::Timeout,
            wgpu::SurfaceError::Outdated => SurfaceFault::Outdated,
            wgpu::SurfaceError::Lost => SurfaceFault::Lost,
            wgpu::SurfaceError::OutOfMemory => SurfaceFault::OutOfMemory,
        }
    }
}

/// What the host must do in answer to an event.
#[derive(Clone, Copy, Debug, PartialEq, Eq, Structural)]
pub enum Action {
    Nothing,
    /// Configure the surface with the current settings, at this size.
    Configure(PixelSize),
    /// Render and present one frame, at this size.
    Render(PixelSize),
    /// Ask the window for a redraw.
    RequestRedraw,
    /// Stop the event loop.
    Exit,
}

/// The frame controller: its phase, and the graphics context's state once one
/// has been attached.
#[derive(Clone, Copy, Debug)]
pub struct FrameController {
    pub phase: Phase,
    pub state: Option<State>,
}

impl FrameController {
    /// A context is attached exactly when the controller has left
    /// `Uninitialized`, and it is well formed.
    pub open spec fn wf(self) -> bool {
        &&& (self.phase == Phase::Uninitialized <==> self.state is None)
        &&& (self.state matches Some(s) ==> s.wf())
    }

    pub open spec fn terminated(self) -> FrameController {
        FrameController { phase: Phase::Terminating, ..self }
    }

    /// The controller after a context was handed over, and what to do then.
    pub open spec fn after_attach(self, s: State) -> (FrameController, Action) {
        if self.phase == Phase::Uninitialized {
            (
                FrameController { phase: Phase::Active, state: Some(s) },
                if s.surface_configured {
                    Action::Configure(s.size())
                } else {
                    Action::Nothing
                },
            )
        } else {
            (self, Action::Nothing)
        }
    }

    /// The controller after a window event, and what to do then.
    pub open spec fn after_event(self, event: WindowEvent) -> (FrameController, Action) {
        if self.phase != Phase::Active {
            (self, Action::Nothing)
        } else {
            let s = self.state->0;
            match event {
                WindowEvent::CloseRequested => (self.terminated(), Action::Exit),
                WindowEvent::KeyboardInput { key, pressed } => {
                    if pressed && key == Key::Escape {
                        (self.terminated(), Action::Exit)
                    } else {
                        (self, Action::Nothing)
                    }
                },
                WindowEvent::Resized(size) => {
                    if size.is_positive() {
                        (
                            FrameController {
                                state: Some(State { surface_configured: true, ..s }.resized(size)),
                                ..self
                            },
                            Action::Configure(size),
                        )
                    } else {
                        (self, Action::Nothing)
                    }
                },
                WindowEvent::RedrawRequested => {
                    if s.surface_configured {
                        (self, Action::Render(s.size()))
                    } else {
                        (self, Action::Nothing)
                    }
                },
                WindowEvent::Other => (self, Action::Nothing),
            }
        }
    }

    /// The controller after a frame failed with `fault`, and what to do then.
    pub open spec fn after_fault(self, fault: SurfaceFault) -> (FrameController, Action) {
        if self.phase != Phase::Active {
            (self, Action::Nothing)
        } else {
            let s = self.state->0;
            match fault {
                SurfaceFault::Lost | SurfaceFault::Outdated => {
                    if s.size().is_positive() {
                        (self, Action::Configure(s.size()))
                    } else {
                        (self, Action::Nothing)
                    }
                },
                SurfaceFault::OutOfMemory => (self.terminated(), Action::Exit),
                SurfaceFault::Timeout => (self, Action::Nothing),
            }
        }
    }

    /// What to do when the event loop has no events pending.
    pub open spec fn idle_action(self) -> Action {
        if self.phase == Phase::Active {
            Action::RequestRedraw
        } else {
            Action::Nothing
        }
    }

    pub fn new() -> (r: FrameController)
        ensures
            r.wf(),
            r.phase == Phase::Uninitialized,
    {
        FrameController { phase: Phase::Uninitialized, state: None }
    }

    /// Takes the graphics context once it is ready. Only the first one is
    /// kept; a context that came ready configured asks for the surface to be
    /// configured.
    pub fn attach(&mut self, s: State) -> (action: Action)
        requires
            old(self).wf(),
            s.wf(),
        ensures
            final(self).wf(),
            (*final(self), action) == old(self).after_attach(s),
    {
        if self.phase != Phase::Uninitialized {
            return Action::Nothing;
        }
        self.phase = Phase::Active;
        self.state = Some(s);
        if s.surface_configured {
            Action::Configure(s.size_now())
        } else {
            Action::Nothing
        }
    }

    /// Reacts to a window event. Until a context is attached, and once
    /// terminating, events are ignored.
    pub fn handle_event(&mut self, event: WindowEvent) -> (action: Action)
        requires
            old(self).wf(),
        ensures
            final(self).wf(),
            (*final(self), action) == old(self).after_event(event),
    {
        if self.phase != Phase::Active {
            return Action::Nothing;
        }
        let mut s = match self.state {
            Some(s) => s,
            None => {
                return Action::Nothing;
            },
        };
        match event {
            WindowEvent::CloseRequested => {
                self.phase = Phase::Terminating;
                Action::Exit
            },
            WindowEvent::KeyboardInput { key, pressed } => {
                if pressed && key == Key::Escape {
                    self.phase = Phase::Terminating;
                    Action::Exit
                } else {
                    Action::Nothing
                }
            },
            WindowEvent::Resized(size) => {
                if size.is_nonzero() {
                    s.resize(size);
                    s.surface_configured = true;
                    self.state = Some(s);
                    Action::Configure(size)
                } else {
                    Action::Nothing
                }
            },
            WindowEvent::RedrawRequested => {
                if s.surface_configured {
                    Action::Render(s.size_now())
                } else {
                    Action::Nothing
                }
            },
            WindowEvent::Other => Action::Nothing,
        }
    }

    /// Reacts to a frame that could not be acquired or presented: a lost or
    /// outdated surface is reconfigured at its current size, running out of
    /// memory ends the session, and a timeout drops the frame.
    pub fn handle_fault(&mut self, fault: SurfaceFault) -> (action: Action)
        requires
            old(self).wf(),
        ensures
            final(self).wf(),
            (*final(self), action) == old(self).after_fault(fault),
    {
        if self.phase != Phase::Active {
            return Action::Nothing;
        }
        let mut s = match self.state {
            Some(s) => s,
            None => {
                return Action::Nothing;
            },
        };
        match fault {
            SurfaceFault::Lost | SurfaceFault::Outdated => {
                let size = s.size_now();
                if s.resize(size) {
                    self.state = Some(s);
                    Action::Configure(size)
                } else {
                    Action::Nothing
                }
            },
            SurfaceFault::OutOfMemory => {
                self.phase = Phase::Terminating;
                Action::Exit
            },
            SurfaceFault::Timeout => Action::Nothing,
        }
    }

    /// Reacts to an error wgpu reported for the current frame.
    pub fn handle_surface_error(&mut self, error: &wgpu::SurfaceError) -> (action: Action)
        requires
            old(self).wf(),
        ensures
            final(self).wf(),
            (*final(self), action) == old(self).after_fault(SurfaceFault::of_error(*error)),
    {
        let fault = SurfaceFault::from_error(error);
        self.handle_fault(fault)
    }

    /// Asks for the next frame whenever the loop goes idle while active.
    pub fn about_to_wait(&self) -> (action: Action)
        ensures
            action == self.idle_action(),
    {
        if self.phase == Phase::Active {
            Action::RequestRedraw
        } else {
            Action::Nothing
        }
    }
}

} // verus!
