//! End-to-end runs of the driver over the pure model, the way the platform
//! loop drives it: events in, effects out, frame outcomes fed back.

use render_host::driver::{Driver, Effect, Event, Mode, SurfaceError, WindowEvent};
use render_host::frame::{frame_commands, ClearColor, LoadOp};
use render_host::surface::{Extent, FormatInfo, SurfaceCaps, SurfaceConfig};

#[test]
fn startup_first_frame_and_poll() {
    // Startup: a 640x480 window at scale factor 1 and an adapter whose
    // second reported format is the first sRGB one.
    let caps = SurfaceCaps {
        formats: vec![FormatInfo { code: 0, srgb: false }, FormatInfo { code: 1, srgb: true }],
        present_modes: vec![0, 1],
        alpha_modes: vec![0],
    };
    let size = Extent { width: 640, height: 480 };
    let config = SurfaceConfig::configure(&caps, size);
    assert_eq!(config.width, 640);
    assert_eq!(config.height, 480);
    assert_eq!(config.format, FormatInfo { code: 1, srgb: true });
    let mut d = Driver::new(config, size);
    assert_eq!(d.mode, Mode::Running);

    // The batch ends; the driver asks for a redraw to keep polling.
    let fx = d.handle_event(Event::MainEventsCleared);
    assert_eq!(fx, vec![Effect::RequestRedraw]);

    // The redraw tick arrives; the driver asks for one frame.
    let fx = d.handle_event(Event::RedrawRequested { owned: true });
    assert_eq!(fx, vec![Effect::Render]);

    // The frame records one command buffer with a single clear-only pass.
    let cb = frame_commands();
    assert_eq!(cb.passes.len(), 1);
    assert_eq!(
        cb.passes[0].load,
        LoadOp::Clear(ClearColor { red: 100, green: 149, blue: 237 })
    );
    assert!(cb.passes[0].store);
    assert!(!cb.passes[0].has_depth_stencil);

    // Present succeeded; the loop keeps polling.
    let fx = d.handle_render_result(Ok(()));
    assert!(fx.is_empty());
    assert_eq!(d.mode, Mode::Running);
    let fx = d.handle_event(Event::MainEventsCleared);
    assert_eq!(fx, vec![Effect::RequestRedraw]);
}

#[test]
fn degenerate_then_real_resize() {
    let caps = SurfaceCaps {
        formats: vec![FormatInfo { code: 0, srgb: true }],
        present_modes: vec![0],
        alpha_modes: vec![0],
    };
    let size = Extent { width: 640, height: 480 };
    let mut d = Driver::new(SurfaceConfig::configure(&caps, size), size);
    let before = d.config;

    // A resize to (0, 300) leaves the configuration untouched.
    let fx = d.handle_event(Event::Window {
        owned: true,
        event: WindowEvent::Resized(Extent { width: 0, height: 300 }),
    });
    assert_eq!(d.config, before);
    assert!(fx.is_empty());

    // A subsequent resize to (800, 600) updates it and reconfigures before
    // the next acquire.
    let fx = d.handle_event(Event::Window {
        owned: true,
        event: WindowEvent::Resized(Extent { width: 800, height: 600 }),
    });
    assert_eq!(d.config.width, 800);
    assert_eq!(d.config.height, 600);
    assert_eq!(fx, vec![Effect::Reconfigure(d.config)]);

    // Only then does the next frame run.
    let fx = d.handle_event(Event::RedrawRequested { owned: true });
    assert_eq!(fx, vec![Effect::Render]);
}

#[test]
fn escape_exits_on_the_same_pass() {
    let caps = SurfaceCaps {
        formats: vec![FormatInfo { code: 0, srgb: true }],
        present_modes: vec![0],
        alpha_modes: vec![0],
    };
    let size = Extent { width: 640, height: 480 };
    let mut d = Driver::new(SurfaceConfig::configure(&caps, size), size);

    // A redraw has already been requested; Escape goes down while the
    // window is focused.
    let fx = d.handle_event(Event::Window {
        owned: true,
        event: WindowEvent::KeyboardInput { pressed: true, escape: true },
    });
    assert_eq!(d.mode, Mode::Exiting);
    assert!(fx.is_empty());

    // The rest of the pass requests no further redraw.
    let fx = d.handle_event(Event::MainEventsCleared);
    assert!(fx.is_empty());
}

#[test]
fn lost_frame_recovers_with_current_size() {
    let caps = SurfaceCaps {
        formats: vec![FormatInfo { code: 0, srgb: true }],
        present_modes: vec![0],
        alpha_modes: vec![0],
    };
    let size = Extent { width: 640, height: 480 };
    let mut d = Driver::new(SurfaceConfig::configure(&caps, size), size);

    let fx = d.handle_event(Event::RedrawRequested { owned: true });
    assert_eq!(fx, vec![Effect::Render]);
    // The acquire reports the surface lost: exactly one reconfiguration
    // with the current size, and the loop goes on.
    let fx = d.handle_render_result(Err(SurfaceError::Lost));
    assert_eq!(fx, vec![Effect::Reconfigure(d.config)]);
    assert_eq!(d.config.width, 640);
    assert_eq!(d.config.height, 480);
    assert_eq!(d.mode, Mode::Running);
    let fx = d.handle_event(Event::MainEventsCleared);
    assert_eq!(fx, vec![Effect::RequestRedraw]);
}
