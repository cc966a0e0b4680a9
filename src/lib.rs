//! A real-time graphics host's core: the presentation configuration of a
//! window surface, and the state machine that drives rendering from window
//! events and recovers from presentation errors.
pub mod controller;
pub mod gpu;
pub mod laws;
pub mod surface;

pub use controller::{Action, FrameController, Key, Phase, SurfaceFault, WindowEvent};
pub use surface::{InitError, PixelSize, State, SurfaceSettings, FRAME_LATENCY};
