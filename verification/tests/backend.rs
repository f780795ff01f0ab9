use x3::backend::{AcquireError, Acquisition, Backend, BackendError, FrameDecision, SetupOutcome};
use x3::config::{build_config, select_surface_format, SurfaceCaps};

fn caps() -> SurfaceCaps {
    SurfaceCaps {
        formats: vec![
            wgpu::TextureFormat::Bgra8Unorm,
            wgpu::TextureFormat::Bgra8UnormSrgb,
            wgpu::TextureFormat::Rgba8UnormSrgb,
        ],
        present_modes: vec![wgpu::PresentMode::Fifo, wgpu::PresentMode::Immediate],
        alpha_modes: vec![
            wgpu::CompositeAlphaMode::Opaque,
            wgpu::CompositeAlphaMode::Auto,
        ],
    }
}

fn healthy_backend(inner_size: (u32, u32)) -> Backend {
    Backend::new(SetupOutcome {
        window_size: Some(inner_size),
        surface_created: true,
        adapter_found: true,
        device_acquired: true,
        caps: Some(caps()),
    })
    .expect("construction with every step succeeded")
}

/// Drives one frame the way the application does: acquire, and on a refresh
/// decision reconfigure at the window's current size and re-acquire once.
/// Mock textures are numbered; `reconfigures` counts the refreshes.
fn drive_frame(
    backend: &mut Backend,
    outcomes: Vec<Acquisition<u32>>,
    window_size: (u32, u32),
    reconfigures: &mut u32,
) -> Result<(u32, (u32, u32)), BackendError> {
    let mut it = outcomes.into_iter();
    match backend.get_texture(it.next().expect("a first acquisition outcome")) {
        FrameDecision::Present(tex, size) => Ok((tex, size)),
        FrameDecision::Fail(e) => Err(e),
        FrameDecision::Refresh => {
            backend.refresh(window_size);
            *reconfigures += 1;
            backend.retry_texture(it.next().expect("a retried acquisition outcome"))
        }
    }
}

#[test]
fn resize_tracks_last_positive_request() {
    let mut b = healthy_backend((1280, 720));
    for req in [(800, 600), (1024, 768), (333, 77)] {
        let reconfigure = b.resize(req);
        assert!(reconfigure);
    }
    assert_eq!(b.config.width, 333);
    assert_eq!(b.config.height, 77);
    assert_eq!(b.size, (333, 77));
}

#[test]
fn resize_with_zero_dimension_is_ignored() {
    let mut b = healthy_backend((1280, 720));
    assert!(b.resize((640, 480)));
    let before = b;
    assert!(!b.resize((0, 480)));
    assert_eq!(b, before);
    assert!(!b.resize((640, 0)));
    assert_eq!(b, before);
    assert_eq!(b.config.width, 640);
    assert_eq!(b.config.height, 480);
}

#[test]
fn outdated_then_success_recovers() {
    let mut b = healthy_backend((1280, 720));
    let mut reconfigures = 0;
    let outcomes = vec![
        Acquisition::Failure(AcquireError::Outdated),
        Acquisition::Frame { texture: 2, suboptimal: false },
    ];
    let r = drive_frame(&mut b, outcomes, (1280, 720), &mut reconfigures);
    assert_eq!(r, Ok((2, (1280, 720))));
}

#[test]
fn lost_twice_is_fatal() {
    let mut b = healthy_backend((1280, 720));
    let mut reconfigures = 0;
    let outcomes = vec![
        Acquisition::Failure(AcquireError::Lost),
        Acquisition::Failure(AcquireError::Lost),
    ];
    let r = drive_frame(&mut b, outcomes, (1280, 720), &mut reconfigures);
    assert_eq!(r, Err(BackendError::Acquisition(AcquireError::Lost)));
}

#[test]
fn suboptimal_triggers_single_reconfigure() {
    let mut b = healthy_backend((1280, 720));
    let mut reconfigures = 0;
    let outcomes = vec![
        Acquisition::Frame { texture: 1, suboptimal: true },
        Acquisition::Frame { texture: 2, suboptimal: false },
    ];
    // The window has meanwhile taken another size; the refresh must adopt it.
    let r = drive_frame(&mut b, outcomes, (1920, 1080), &mut reconfigures);
    assert_eq!(reconfigures, 1);
    assert_eq!(r, Ok((2, (1920, 1080))));
    assert_eq!(b.config.width, 1920);
    assert_eq!(b.config.height, 1080);
}

#[test]
fn retried_suboptimal_frame_is_accepted() {
    let mut b = healthy_backend((1280, 720));
    let mut reconfigures = 0;
    let outcomes = vec![
        Acquisition::Failure(AcquireError::Outdated),
        Acquisition::Frame { texture: 2, suboptimal: true },
    ];
    let r = drive_frame(&mut b, outcomes, (1280, 720), &mut reconfigures);
    assert_eq!(r, Ok((2, (1280, 720))));
    assert_eq!(reconfigures, 1);
}

#[test]
fn timeout_is_fatal_without_retry() {
    let mut b = healthy_backend((1280, 720));
    let mut reconfigures = 0;
    let outcomes = vec![Acquisition::Failure(AcquireError::Timeout)];
    let r = drive_frame(&mut b, outcomes, (1280, 720), &mut reconfigures);
    assert_eq!(r, Err(BackendError::Acquisition(AcquireError::Timeout)));
    assert_eq!(reconfigures, 0);
}

#[test]
fn out_of_memory_is_fatal_without_retry() {
    let b = healthy_backend((1280, 720));
    let d = b.get_texture::<u32>(Acquisition::Failure(AcquireError::OutOfMemory));
    assert_eq!(
        d,
        FrameDecision::Fail(BackendError::Acquisition(AcquireError::OutOfMemory))
    );
}

#[test]
fn missing_adapter_fails_construction() {
    let r = Backend::new(SetupOutcome {
        window_size: Some((1280, 720)),
        surface_created: true,
        adapter_found: false,
        device_acquired: false,
        caps: None,
    });
    assert_eq!(r.unwrap_err(), BackendError::AdapterRequest);
}

#[test]
fn refused_window_fails_construction() {
    let r = Backend::new(SetupOutcome {
        window_size: None,
        surface_created: false,
        adapter_found: false,
        device_acquired: false,
        caps: None,
    });
    assert_eq!(r.unwrap_err(), BackendError::WindowCreation);
}

#[test]
fn unbound_surface_fails_construction() {
    let r = Backend::new(SetupOutcome {
        window_size: Some((1280, 720)),
        surface_created: false,
        adapter_found: false,
        device_acquired: false,
        caps: None,
    });
    assert_eq!(r.unwrap_err(), BackendError::SurfaceCreation);
}

#[test]
fn refused_device_fails_construction() {
    let r = Backend::new(SetupOutcome {
        window_size: Some((1280, 720)),
        surface_created: true,
        adapter_found: true,
        device_acquired: false,
        caps: None,
    });
    assert_eq!(r.unwrap_err(), BackendError::DeviceRequest);
}

#[test]
fn srgb_format_is_preferred() {
    let formats = vec![
        wgpu::TextureFormat::Bgra8Unorm,
        wgpu::TextureFormat::Rgba8Unorm,
        wgpu::TextureFormat::Bgra8UnormSrgb,
        wgpu::TextureFormat::Rgba8UnormSrgb,
    ];
    assert_eq!(
        select_surface_format(&formats),
        wgpu::TextureFormat::Bgra8UnormSrgb
    );
}

#[test]
fn first_format_is_fallback_without_srgb() {
    let formats = vec![
        wgpu::TextureFormat::Rgba16Float,
        wgpu::TextureFormat::Bgra8Unorm,
    ];
    assert_eq!(select_surface_format(&formats), wgpu::TextureFormat::Rgba16Float);
}

#[test]
fn config_is_built_from_capabilities() {
    let c = build_config(&caps(), (1024, 600));
    assert_eq!(c.format, wgpu::TextureFormat::Bgra8UnormSrgb);
    assert_eq!(c.width, 1024);
    assert_eq!(c.height, 600);
    assert_eq!(c.present_mode, wgpu::PresentMode::Fifo);
    assert_eq!(c.alpha_mode, wgpu::CompositeAlphaMode::Opaque);
    assert_eq!(c.desired_maximum_frame_latency, 2);
}

#[test]
fn end_to_end_resize_and_acquire() {
    // The window system scales the requested (1280, 720) window; the backend
    // must record the actual inner size, not the requested one.
    let actual_inner = (1600, 900);
    let mut b = healthy_backend(actual_inner);
    assert_eq!(b.size, actual_inner);
    assert_eq!(b.config.width, 1600);
    assert_eq!(b.config.height, 900);

    assert!(b.resize((640, 480)));
    assert_eq!(b.config.width, 640);
    assert_eq!(b.config.height, 480);

    let mut reconfigures = 0;
    let outcomes = vec![Acquisition::Frame { texture: 1, suboptimal: false }];
    let r = drive_frame(&mut b, outcomes, (640, 480), &mut reconfigures);
    assert_eq!(r, Ok((1, (640, 480))));
    assert_eq!(reconfigures, 0);
}

#[test]
fn errors_name_their_step() {
    assert_eq!(BackendError::WindowCreation.step(), "Creating window");
    assert_eq!(BackendError::SurfaceCreation.step(), "Creating surface");
    assert_eq!(BackendError::AdapterRequest.step(), "Requesting adapter");
    assert_eq!(BackendError::DeviceRequest.step(), "Requesting device");
    assert_eq!(
        BackendError::Acquisition(AcquireError::Lost).step(),
        "Getting current texture"
    );
}
