use spectrum::{Action, FrameController, Key, PixelSize, Phase, State, SurfaceFault, WindowEvent};
use wgpu::{CompositeAlphaMode, PresentMode, SurfaceError, TextureFormat};

fn context(width: u32, height: u32, now: bool) -> State {
    State::new(
        &vec![TextureFormat::Bgra8UnormSrgb],
        &vec![PresentMode::Fifo],
        &vec![CompositeAlphaMode::Opaque],
        PixelSize::new(width, height),
        now,
    )
    .unwrap()
}

fn active(width: u32, height: u32) -> FrameController {
    let mut c = FrameController::new();
    assert_eq!(c.attach(context(width, height, true)), Action::Configure(PixelSize::new(width, height)));
    c
}

fn size_of(c: &FrameController) -> PixelSize {
    c.state.unwrap().size_now()
}

#[test]
fn window_lifecycle_scenario() {
    let mut c = FrameController::new();
    assert_eq!(c.phase, Phase::Uninitialized);
    assert_eq!(c.attach(context(800, 600, true)), Action::Configure(PixelSize::new(800, 600)));
    assert_eq!(c.phase, Phase::Active);
    assert_eq!(size_of(&c), PixelSize::new(800, 600));
    assert_eq!(c.handle_event(WindowEvent::Resized(PixelSize::new(0, 0))), Action::Nothing);
    assert_eq!(size_of(&c), PixelSize::new(800, 600));
    assert_eq!(
        c.handle_event(WindowEvent::Resized(PixelSize::new(1024, 768))),
        Action::Configure(PixelSize::new(1024, 768))
    );
    assert_eq!(size_of(&c), PixelSize::new(1024, 768));
    assert_eq!(c.handle_event(WindowEvent::RedrawRequested), Action::Render(PixelSize::new(1024, 768)));
}

#[test]
fn zero_resize_keeps_configured_flag() {
    let mut c = FrameController::new();
    c.attach(context(450, 400, false));
    assert_eq!(c.handle_event(WindowEvent::Resized(PixelSize::new(0, 400))), Action::Nothing);
    assert!(!c.state.unwrap().surface_configured);
    assert_eq!(size_of(&c), PixelSize::new(450, 400));
    assert_eq!(c.handle_event(WindowEvent::RedrawRequested), Action::Nothing);
}

#[test]
fn first_resize_configures_deferred_surface() {
    let mut c = FrameController::new();
    assert_eq!(c.attach(context(450, 400, false)), Action::Nothing);
    assert_eq!(
        c.handle_event(WindowEvent::Resized(PixelSize::new(300, 200))),
        Action::Configure(PixelSize::new(300, 200))
    );
    assert!(c.state.unwrap().surface_configured);
    assert_eq!(c.handle_event(WindowEvent::RedrawRequested), Action::Render(PixelSize::new(300, 200)));
}

#[test]
fn resize_twice_same_as_once() {
    let mut once = active(800, 600);
    let mut twice = active(800, 600);
    let a = once.handle_event(WindowEvent::Resized(PixelSize::new(640, 480)));
    twice.handle_event(WindowEvent::Resized(PixelSize::new(640, 480)));
    let b = twice.handle_event(WindowEvent::Resized(PixelSize::new(640, 480)));
    assert_eq!(a, b);
    assert_eq!(size_of(&once), size_of(&twice));
    assert_eq!(once.phase, twice.phase);
    assert_eq!(once.state.unwrap().surface_configured, twice.state.unwrap().surface_configured);
}

#[test]
fn redraw_before_context_is_noop() {
    let mut c = FrameController::new();
    assert_eq!(c.handle_event(WindowEvent::RedrawRequested), Action::Nothing);
    assert_eq!(c.handle_event(WindowEvent::CloseRequested), Action::Nothing);
    assert_eq!(c.phase, Phase::Uninitialized);
    assert_eq!(c.about_to_wait(), Action::Nothing);
}

#[test]
fn redraw_before_configuration_is_noop() {
    let mut c = FrameController::new();
    c.attach(context(450, 400, false));
    assert_eq!(c.handle_event(WindowEvent::RedrawRequested), Action::Nothing);
    assert_eq!(c.phase, Phase::Active);
}

#[test]
fn lost_and_outdated_reconfigure_once() {
    let mut c = active(800, 600);
    assert_eq!(c.handle_fault(SurfaceFault::Lost), Action::Configure(PixelSize::new(800, 600)));
    assert_eq!(c.phase, Phase::Active);
    assert_eq!(c.handle_fault(SurfaceFault::Outdated), Action::Configure(PixelSize::new(800, 600)));
    assert_eq!(c.phase, Phase::Active);
    assert_eq!(size_of(&c), PixelSize::new(800, 600));
    assert_eq!(c.handle_event(WindowEvent::RedrawRequested), Action::Render(PixelSize::new(800, 600)));
}

#[test]
fn out_of_memory_terminates() {
    let mut c = active(800, 600);
    assert_eq!(c.handle_fault(SurfaceFault::OutOfMemory), Action::Exit);
    assert_eq!(c.phase, Phase::Terminating);
    assert_eq!(c.handle_event(WindowEvent::RedrawRequested), Action::Nothing);
    assert_eq!(c.about_to_wait(), Action::Nothing);
    assert_eq!(c.handle_fault(SurfaceFault::Lost), Action::Nothing);
    assert_eq!(c.attach(context(10, 10, true)), Action::Nothing);
    assert_eq!(c.phase, Phase::Terminating);
}

#[test]
fn timeout_changes_nothing() {
    let mut c = active(800, 600);
    assert_eq!(c.handle_fault(SurfaceFault::Timeout), Action::Nothing);
    assert_eq!(c.phase, Phase::Active);
    assert_eq!(size_of(&c), PixelSize::new(800, 600));
    assert!(c.state.unwrap().surface_configured);
}

#[test]
fn wgpu_errors_map_to_faults() {
    let mut c = active(800, 600);
    assert_eq!(c.handle_surface_error(&SurfaceError::Timeout), Action::Nothing);
    assert_eq!(c.handle_surface_error(&SurfaceError::Lost), Action::Configure(PixelSize::new(800, 600)));
    assert_eq!(c.handle_surface_error(&SurfaceError::Outdated), Action::Configure(PixelSize::new(800, 600)));
    assert_eq!(c.phase, Phase::Active);
    assert_eq!(c.handle_surface_error(&SurfaceError::OutOfMemory), Action::Exit);
    assert_eq!(c.phase, Phase::Terminating);
}

#[test]
fn close_and_escape_terminate() {
    let mut c = active(800, 600);
    assert_eq!(c.handle_event(WindowEvent::CloseRequested), Action::Exit);
    assert_eq!(c.phase, Phase::Terminating);

    let mut k = active(800, 600);
    assert_eq!(k.handle_event(WindowEvent::KeyboardInput { key: Key::Escape, pressed: false }), Action::Nothing);
    assert_eq!(k.handle_event(WindowEvent::KeyboardInput { key: Key::Other, pressed: true }), Action::Nothing);
    assert_eq!(k.phase, Phase::Active);
    assert_eq!(k.handle_event(WindowEvent::KeyboardInput { key: Key::Escape, pressed: true }), Action::Exit);
    assert_eq!(k.phase, Phase::Terminating);
}

#[test]
fn idle_requests_redraw_while_active() {
    let c = active(800, 600);
    assert_eq!(c.about_to_wait(), Action::RequestRedraw);
}

#[test]
fn second_context_is_ignored() {
    let mut c = active(800, 600);
    assert_eq!(c.attach(context(100, 100, true)), Action::Nothing);
    assert_eq!(size_of(&c), PixelSize::new(800, 600));
    assert_eq!(c.handle_event(WindowEvent::Other), Action::Nothing);
}
