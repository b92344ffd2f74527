use gpu_shell::controller::Action;
use gpu_shell::controller::Controller;
use gpu_shell::controller::Event;
use gpu_shell::controller::Phase;
use gpu_shell::surface::derive_config;
use gpu_shell::surface::resized;
use gpu_shell::surface::NegotiateError;
use gpu_shell::formats::select_format;

#[test]
fn format_selection_prefers_the_first_srgb_entry() {
    let formats = vec![
        wgpu::TextureFormat::Rgba8Unorm,
        wgpu::TextureFormat::Rgba8UnormSrgb,
        wgpu::TextureFormat::Bgra8UnormSrgb,
    ];
    assert_eq!(select_format(&formats), Some(wgpu::TextureFormat::Rgba8UnormSrgb));
}

#[test]
fn format_selection_falls_back_to_the_first_entry() {
    let formats = vec![wgpu::TextureFormat::Rgba8Unorm, wgpu::TextureFormat::Bgra8Unorm];
    assert_eq!(select_format(&formats), Some(wgpu::TextureFormat::Rgba8Unorm));
}

#[test]
fn format_selection_reports_an_empty_list() {
    assert_eq!(select_format(&Vec::new()), None);
}

#[test]
fn derived_configuration_takes_policy_format_first_modes_and_size() {
    let formats = vec![wgpu::TextureFormat::Bgra8Unorm, wgpu::TextureFormat::Bgra8UnormSrgb];
    let present_modes = vec![wgpu::PresentMode::Mailbox, wgpu::PresentMode::Fifo];
    let alpha_modes = vec![
        wgpu::CompositeAlphaMode::PostMultiplied,
        wgpu::CompositeAlphaMode::Opaque,
    ];
    let cfg = derive_config(&formats, &present_modes, &alpha_modes, 1024, 768)
        .expect("non-empty capability lists negotiate");
    assert_eq!(cfg.format, wgpu::TextureFormat::Bgra8UnormSrgb);
    assert_eq!(cfg.width, 1024);
    assert_eq!(cfg.height, 768);
    assert_eq!(cfg.present_mode, wgpu::PresentMode::Mailbox);
    assert_eq!(cfg.alpha_mode, wgpu::CompositeAlphaMode::PostMultiplied);
    assert_eq!(cfg.desired_maximum_frame_latency, 2);
}

#[test]
fn empty_format_list_is_reported() {
    let r = derive_config(
        &Vec::new(),
        &vec![wgpu::PresentMode::Fifo],
        &vec![wgpu::CompositeAlphaMode::Auto],
        640,
        480,
    );
    assert_eq!(r.unwrap_err(), NegotiateError::NoFormats);
}

#[test]
fn empty_present_mode_list_is_reported() {
    let r = derive_config(
        &vec![wgpu::TextureFormat::Rgba8UnormSrgb],
        &Vec::new(),
        &vec![wgpu::CompositeAlphaMode::Auto],
        640,
        480,
    );
    assert_eq!(r.unwrap_err(), NegotiateError::NoPresentModes);
}

#[test]
fn empty_alpha_mode_list_is_reported() {
    let r = derive_config(
        &vec![wgpu::TextureFormat::Rgba8UnormSrgb],
        &vec![wgpu::PresentMode::Fifo],
        &Vec::new(),
        640,
        480,
    );
    assert_eq!(r.unwrap_err(), NegotiateError::NoAlphaModes);
}

#[test]
fn resizing_changes_only_the_pixel_size() {
    let formats = vec![wgpu::TextureFormat::Rgba8UnormSrgb];
    let present_modes = vec![wgpu::PresentMode::Fifo];
    let alpha_modes = vec![wgpu::CompositeAlphaMode::Auto];
    let cfg = derive_config(&formats, &present_modes, &alpha_modes, 640, 480).unwrap();
    let patched = resized(&cfg, 1920, 1080);
    assert_eq!(patched.width, 1920);
    assert_eq!(patched.height, 1080);
    assert_eq!(patched.format, cfg.format);
    assert_eq!(patched.present_mode, cfg.present_mode);
    assert_eq!(patched.alpha_mode, cfg.alpha_mode);
    assert_eq!(patched.desired_maximum_frame_latency, cfg.desired_maximum_frame_latency);
}

#[test]
fn cold_start_to_shutdown_scenario() {
    // Loop start: the init cause creates the window and blocks on negotiation.
    let mut c = Controller::new();
    assert_eq!(c.step(Event::InitCause), Action::CreateWindowAndNegotiate);
    // The handshake derives a configuration at the window's reported size.
    let cfg = derive_config(
        &vec![wgpu::TextureFormat::Rgba8Unorm, wgpu::TextureFormat::Bgra8UnormSrgb],
        &vec![wgpu::PresentMode::Fifo],
        &vec![wgpu::CompositeAlphaMode::Auto],
        800,
        600,
    )
    .expect("negotiation completes");
    assert_eq!(cfg.width, 800);
    assert_eq!(cfg.height, 600);
    c.complete_negotiation(cfg);
    assert_eq!(c.phase, Phase::Ready);
    // The loop services a close request and exits with success.
    assert_eq!(c.step(Event::CloseRequested), Action::SignalExit);
    assert_eq!(c.phase, Phase::Terminating);
}
