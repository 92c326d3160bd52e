use surface_lifecycle::negotiator::{
    initial_configuration, negotiate, negotiate_with, DeviceRequest, FeatureSet, LimitProfile,
    NegotiationError,
};
use surface_lifecycle::surface::{
    SurfaceCapabilities, SurfaceConfiguration, SurfaceUsage, WindowSize,
};
use wgpu::{CompositeAlphaMode, PresentMode, TextureFormat};

fn sample_capabilities() -> SurfaceCapabilities {
    SurfaceCapabilities {
        formats: vec![TextureFormat::Bgra8Unorm, TextureFormat::Bgra8UnormSrgb],
        present_modes: vec![PresentMode::Fifo, PresentMode::Mailbox],
        alpha_modes: vec![CompositeAlphaMode::Opaque, CompositeAlphaMode::PreMultiplied],
    }
}

#[test]
fn window_size_drawable() {
    assert!(WindowSize::new(800, 600).drawable());
    assert!(WindowSize::new(1, 1).drawable());
    assert!(!WindowSize::new(0, 600).drawable());
    assert!(!WindowSize::new(800, 0).drawable());
    assert!(!WindowSize::new(0, 0).drawable());
    assert_eq!(WindowSize::new(3, 4), WindowSize { width: 3, height: 4 });
}

#[test]
fn initial_configuration_from_capabilities() {
    let config = initial_configuration(WindowSize::new(800, 600), &sample_capabilities());
    assert_eq!(
        config,
        Ok(SurfaceConfiguration {
            usage: SurfaceUsage::RenderAttachment,
            format: TextureFormat::Bgra8UnormSrgb,
            width: 800,
            height: 600,
            present_mode: PresentMode::Fifo,
            alpha_mode: CompositeAlphaMode::Opaque,
        })
    );
    assert!(config.unwrap().applicable());
}

#[test]
fn initial_configuration_without_srgb_format() {
    let caps = SurfaceCapabilities {
        formats: vec![TextureFormat::Rgba8Unorm, TextureFormat::Bgra8Unorm],
        present_modes: vec![PresentMode::Immediate],
        alpha_modes: vec![CompositeAlphaMode::Auto],
    };
    let config = initial_configuration(WindowSize::new(1, 1), &caps).unwrap();
    assert_eq!(config.format, TextureFormat::Rgba8Unorm);
    assert_eq!(config.present_mode, PresentMode::Immediate);
    assert_eq!(config.alpha_mode, CompositeAlphaMode::Auto);
    assert_eq!((config.width, config.height), (1, 1));
}

#[test]
fn initial_configuration_rejects_zero_sized_window() {
    let caps = sample_capabilities();
    assert_eq!(
        initial_configuration(WindowSize::new(0, 600), &caps),
        Err(NegotiationError::ZeroSizedWindow)
    );
    assert_eq!(
        initial_configuration(WindowSize::new(800, 0), &caps),
        Err(NegotiationError::ZeroSizedWindow)
    );
}

#[test]
fn initial_configuration_rejects_empty_format_list() {
    let caps = SurfaceCapabilities {
        formats: Vec::new(),
        present_modes: vec![PresentMode::Fifo],
        alpha_modes: vec![CompositeAlphaMode::Opaque],
    };
    assert_eq!(
        initial_configuration(WindowSize::new(800, 600), &caps),
        Err(NegotiationError::NoSurfaceFormat)
    );
}

#[test]
fn initial_configuration_rejects_empty_present_modes() {
    let caps = SurfaceCapabilities {
        formats: vec![TextureFormat::Bgra8UnormSrgb],
        present_modes: Vec::new(),
        alpha_modes: vec![CompositeAlphaMode::Opaque],
    };
    assert_eq!(
        initial_configuration(WindowSize::new(800, 600), &caps),
        Err(NegotiationError::NoPresentMode)
    );
}

#[test]
fn initial_configuration_rejects_empty_alpha_modes() {
    let caps = SurfaceCapabilities {
        formats: vec![TextureFormat::Bgra8UnormSrgb],
        present_modes: vec![PresentMode::Fifo],
        alpha_modes: Vec::new(),
    };
    assert_eq!(
        initial_configuration(WindowSize::new(800, 600), &caps),
        Err(NegotiationError::NoAlphaMode)
    );
}

#[test]
fn initial_configuration_of_unsupported_surface() {
    let caps = SurfaceCapabilities {
        formats: Vec::new(),
        present_modes: Vec::new(),
        alpha_modes: Vec::new(),
    };
    assert_eq!(
        initial_configuration(WindowSize::new(800, 600), &caps),
        Err(NegotiationError::NoSurfaceFormat)
    );
    assert_eq!(
        initial_configuration(WindowSize::new(0, 0), &caps),
        Err(NegotiationError::ZeroSizedWindow)
    );
}

#[test]
fn negotiation_runs_to_a_configuration() {
    let selection = negotiate(WindowSize::new(800, 600), true).ok().unwrap();
    let grant = selection.select(&vec![false, true, true]).ok().unwrap();
    assert_eq!(
        grant.device_request(),
        DeviceRequest { adapter: 1, features: FeatureSet::Empty, limits: LimitProfile::Default }
    );
    let query = grant.resolve(true).ok().unwrap();
    assert_eq!(query.adapter_index(), 1);
    let config = query.configure(&sample_capabilities()).unwrap();
    assert_eq!(config.format, TextureFormat::Bgra8UnormSrgb);
    assert_eq!((config.width, config.height), (800, 600));
    assert_eq!(config.present_mode, PresentMode::Fifo);
    assert_eq!(config.alpha_mode, CompositeAlphaMode::Opaque);
    assert_eq!(config.usage, SurfaceUsage::RenderAttachment);
}

#[test]
fn negotiation_asks_reduced_limits_of_constrained_target() {
    let selection = negotiate(WindowSize::new(640, 480), false).ok().unwrap();
    let grant = selection.select(&vec![true]).ok().unwrap();
    assert_eq!(
        grant.device_request(),
        DeviceRequest { adapter: 0, features: FeatureSet::Empty, limits: LimitProfile::Constrained }
    );
}

#[test]
fn negotiation_refuses_zero_sized_window() {
    assert_eq!(negotiate(WindowSize::new(0, 600), true).err(), Some(NegotiationError::ZeroSizedWindow));
    assert_eq!(negotiate(WindowSize::new(800, 0), true).err(), Some(NegotiationError::ZeroSizedWindow));
    assert_eq!(negotiate(WindowSize::new(0, 0), false).err(), Some(NegotiationError::ZeroSizedWindow));
}

#[test]
fn negotiation_fails_without_supporting_adapter() {
    let selection = negotiate(WindowSize::new(800, 600), true).ok().unwrap();
    assert_eq!(
        selection.select(&vec![false, false]).err(),
        Some(NegotiationError::NoSupportedAdapter)
    );
    let selection = negotiate(WindowSize::new(800, 600), true).ok().unwrap();
    assert_eq!(selection.select(&Vec::new()).err(), Some(NegotiationError::NoSupportedAdapter));
}

#[test]
fn negotiation_fails_on_rejected_device_request() {
    let selection = negotiate(WindowSize::new(800, 600), true).ok().unwrap();
    let grant = selection.select(&vec![true]).ok().unwrap();
    assert_eq!(grant.resolve(false).err(), Some(NegotiationError::DeviceRequestRejected));
}

#[test]
fn negotiation_fails_on_empty_capabilities() {
    let selection = negotiate(WindowSize::new(800, 600), true).ok().unwrap();
    let grant = selection.select(&vec![true]).ok().unwrap();
    let query = grant.resolve(true).ok().unwrap();
    let caps = SurfaceCapabilities {
        formats: Vec::new(),
        present_modes: vec![PresentMode::Fifo],
        alpha_modes: vec![CompositeAlphaMode::Opaque],
    };
    assert_eq!(query.configure(&caps), Err(NegotiationError::NoSurfaceFormat));
}

#[test]
fn configuration_resized_keeps_the_rest() {
    let config = initial_configuration(WindowSize::new(800, 600), &sample_capabilities()).unwrap();
    let resized = config.with_size(WindowSize::new(1024, 768));
    assert_eq!(
        resized,
        SurfaceConfiguration { width: 1024, height: 768, ..config }
    );
    assert!(resized.applicable());
    assert!(!config.with_size(WindowSize::new(0, 5)).applicable());
}

#[test]
fn negotiate_with_known_answers() {
    let negotiated = negotiate_with(
        WindowSize::new(800, 600),
        true,
        &vec![false, true],
        true,
        &sample_capabilities(),
    )
    .unwrap();
    assert_eq!(
        negotiated.request,
        DeviceRequest { adapter: 1, features: FeatureSet::Empty, limits: LimitProfile::Default }
    );
    assert_eq!(
        negotiated.config,
        SurfaceConfiguration {
            usage: SurfaceUsage::RenderAttachment,
            format: TextureFormat::Bgra8UnormSrgb,
            width: 800,
            height: 600,
            present_mode: PresentMode::Fifo,
            alpha_mode: CompositeAlphaMode::Opaque,
        }
    );
}

#[test]
fn negotiate_with_failures_in_order_of_the_questions() {
    let empty = SurfaceCapabilities {
        formats: Vec::new(),
        present_modes: Vec::new(),
        alpha_modes: Vec::new(),
    };
    assert_eq!(
        negotiate_with(WindowSize::new(0, 0), true, &vec![false], false, &empty),
        Err(NegotiationError::ZeroSizedWindow)
    );
    assert_eq!(
        negotiate_with(WindowSize::new(8, 8), true, &vec![false], false, &empty),
        Err(NegotiationError::NoSupportedAdapter)
    );
    assert_eq!(
        negotiate_with(WindowSize::new(8, 8), true, &vec![true], false, &empty),
        Err(NegotiationError::DeviceRequestRejected)
    );
    assert_eq!(
        negotiate_with(WindowSize::new(8, 8), true, &vec![true], true, &empty),
        Err(NegotiationError::NoSurfaceFormat)
    );
    let no_present = SurfaceCapabilities {
        formats: vec![TextureFormat::Bgra8Unorm],
        present_modes: Vec::new(),
        alpha_modes: Vec::new(),
    };
    assert_eq!(
        negotiate_with(WindowSize::new(8, 8), true, &vec![true], true, &no_present),
        Err(NegotiationError::NoPresentMode)
    );
    let no_alpha = SurfaceCapabilities {
        formats: vec![TextureFormat::Bgra8Unorm],
        present_modes: vec![PresentMode::Fifo],
        alpha_modes: Vec::new(),
    };
    assert_eq!(
        negotiate_with(WindowSize::new(8, 8), false, &vec![true], true, &no_alpha),
        Err(NegotiationError::NoAlphaMode)
    );
}
