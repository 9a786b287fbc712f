use chthonic_archive::device::InitError;
use chthonic_archive::frame_loop::{AfterFrame, FrameLoop, LoopAction, WindowEvent};
use chthonic_archive::frame_sync::{AcquireOutcome, Acquired, FrameError, FrameSync, PresentOutcome};
use chthonic_archive::surface::{
    negotiate, Extent2D, SurfaceCapabilities, SurfaceFormat, SurfaceSupport,
    COLOR_SPACE_SRGB_NONLINEAR, FORMAT_B8G8R8A8_SRGB, PRESENT_MODE_FIFO,
};

fn support() -> SurfaceSupport {
    SurfaceSupport {
        capabilities: SurfaceCapabilities {
            min_image_count: 2,
            max_image_count: 3,
            current_extent: Extent2D { width: u32::MAX, height: u32::MAX },
            min_image_extent: Extent2D { width: 1, height: 1 },
            max_image_extent: Extent2D { width: 4096, height: 4096 },
        },
        formats: vec![SurfaceFormat { format: FORMAT_B8G8R8A8_SRGB, color_space: COLOR_SPACE_SRGB_NONLINEAR }],
        present_modes: vec![PRESENT_MODE_FIFO],
    }
}

/// Renders one frame against the sync state, as the renderer does.
fn render(sync: &mut FrameSync) -> Result<bool, FrameError> {
    let image = (sync.current_frame() as u32 + 1) % 3;
    match sync.on_acquire(AcquireOutcome::Acquired { image_index: image, suboptimal: false })? {
        Acquired::ResizeNeeded => Ok(true),
        Acquired::Image { .. } => sync.on_present(PresentOutcome::Presented { suboptimal: false }),
    }
}

#[test]
fn resize_mid_loop_recreates_once() {
    let config = negotiate(&support(), 1280, 720).unwrap();
    let mut sync = FrameSync::new(config.image_count as usize);
    let mut lp = FrameLoop::new(config.extent);
    let mut recreations = 0;
    let mut rendered_after_resize = Vec::new();
    let events = vec![
        WindowEvent::RedrawRequested { width: 1280, height: 720 },
        WindowEvent::Resized { width: 640, height: 480 },
        WindowEvent::RedrawRequested { width: 640, height: 480 },
        WindowEvent::RedrawRequested { width: 640, height: 480 },
        WindowEvent::RedrawRequested { width: 640, height: 480 },
    ];
    for event in events {
        match lp.on_event(event) {
            LoopAction::Render => {
                let result = render(&mut sync);
                if recreations > 0 {
                    rendered_after_resize.push(result);
                }
                assert_eq!(lp.on_frame_result(result), AfterFrame::Continue);
            }
            LoopAction::Recreate { width, height } => {
                recreations += 1;
                let config = negotiate(&support(), width, height).unwrap();
                sync.recreate(config.image_count as usize);
                assert_eq!(lp.on_recreated(Ok(config.extent)), LoopAction::Nothing);
            }
            LoopAction::Nothing => {}
            LoopAction::Shutdown => panic!("unexpected shutdown"),
        }
    }
    assert_eq!(recreations, 1);
    assert_eq!(rendered_after_resize[0], Ok(false));
    assert!(!lp.needs_resize);
    assert_eq!(lp.extent, Extent2D { width: 640, height: 480 });
}

#[test]
fn resize_to_same_or_zero_size_is_ignored() {
    let mut lp = FrameLoop::new(Extent2D { width: 800, height: 600 });
    assert_eq!(lp.on_event(WindowEvent::Resized { width: 800, height: 600 }), LoopAction::Nothing);
    assert_eq!(lp.on_event(WindowEvent::Resized { width: 0, height: 600 }), LoopAction::Nothing);
    assert!(!lp.needs_resize);
    assert_eq!(lp.on_event(WindowEvent::RedrawRequested { width: 800, height: 600 }), LoopAction::Render);
}

#[test]
fn minimized_window_waits_for_drawable_size() {
    let mut lp = FrameLoop::new(Extent2D { width: 800, height: 600 });
    assert_eq!(lp.on_frame_result(Ok(true)), AfterFrame::RedrawForResize);
    assert!(lp.needs_resize);
    assert_eq!(lp.on_event(WindowEvent::RedrawRequested { width: 0, height: 0 }), LoopAction::Nothing);
    assert_eq!(
        lp.on_event(WindowEvent::RedrawRequested { width: 300, height: 200 }),
        LoopAction::Recreate { width: 300, height: 200 }
    );
}

#[test]
fn failed_frame_is_dropped_and_loop_goes_on() {
    let mut lp = FrameLoop::new(Extent2D { width: 800, height: 600 });
    let e = FrameError::AcquireFailed(-4);
    assert_eq!(lp.on_frame_result(Err(e)), AfterFrame::Dropped(e));
    assert!(!lp.closed);
    assert_eq!(lp.on_event(WindowEvent::RedrawRequested { width: 800, height: 600 }), LoopAction::Render);
}

#[test]
fn failed_recreation_is_fatal() {
    let mut lp = FrameLoop::new(Extent2D { width: 800, height: 600 });
    assert_eq!(lp.on_recreated(Err(InitError::ResourceCreationFailure)), LoopAction::Shutdown);
    assert!(lp.closed);
    assert_eq!(lp.on_event(WindowEvent::RedrawRequested { width: 800, height: 600 }), LoopAction::Nothing);
}

#[test]
fn close_shuts_down_once() {
    let mut lp = FrameLoop::new(Extent2D { width: 800, height: 600 });
    assert_eq!(lp.on_event(WindowEvent::CloseRequested), LoopAction::Shutdown);
    assert_eq!(lp.on_event(WindowEvent::CloseRequested), LoopAction::Nothing);
}
