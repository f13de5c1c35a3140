use quad_renderer::surface::AcquireError;
use quad_renderer::surface::AcquiredFrame;
use quad_renderer::surface::PresentMode;
use quad_renderer::surface::SurfaceSession;
use quad_renderer::surface::SwapChainError;
use quad_renderer::surface::TextureFormat;
use quad_renderer::surface::Transient;
use quad_renderer::surface::TextureUsage;

#[test]
fn reports_fall_into_three_classes() {
    assert_eq!(SwapChainError::Lost.classify(), AcquireError::Lost);
    assert_eq!(SwapChainError::OutOfMemory.classify(), AcquireError::OutOfMemory);
    assert_eq!(SwapChainError::Timeout.classify(), AcquireError::Transient(Transient::Timeout));
    assert_eq!(
        SwapChainError::Outdated.classify(),
        AcquireError::Transient(Transient::Outdated)
    );
}

#[test]
fn new_session_is_configured_and_holds_no_frame() {
    let s = SurfaceSession::new(TextureFormat::Bgra8UnormSrgb, 800, 600);
    assert_eq!(s.desc.usage, TextureUsage::RenderAttachment);
    assert_eq!(s.desc.format, TextureFormat::Bgra8UnormSrgb);
    assert_eq!(s.desc.width, 800);
    assert_eq!(s.desc.height, 600);
    assert_eq!(s.desc.present_mode, PresentMode::Fifo);
    assert_eq!(s.current_target, None);
}

#[test]
fn acquire_holds_the_frame_until_release() {
    let mut s = SurfaceSession::new(TextureFormat::Bgra8UnormSrgb, 800, 600);
    let desc = s.desc;
    let frame = s.acquire(Ok(())).unwrap();
    assert_eq!(frame, AcquiredFrame { width: 800, height: 600 });
    assert_eq!(s.current_target, Some(frame));
    assert_eq!(s.desc, desc);
    s.release(frame);
    assert_eq!(s.current_target, None);
    assert_eq!(s.desc, desc);
    let again = s.acquire(Ok(())).unwrap();
    assert_eq!(s.current_target, Some(again));
}

#[test]
fn failed_acquire_holds_nothing_and_names_the_class() {
    for (report, class) in [
        (SwapChainError::Lost, AcquireError::Lost),
        (SwapChainError::OutOfMemory, AcquireError::OutOfMemory),
        (SwapChainError::Timeout, AcquireError::Transient(Transient::Timeout)),
        (SwapChainError::Outdated, AcquireError::Transient(Transient::Outdated)),
    ] {
        let mut s = SurfaceSession::new(TextureFormat::Bgra8UnormSrgb, 800, 600);
        let desc = s.desc;
        assert_eq!(s.acquire(Err(report)), Err(class));
        assert_eq!(s.current_target, None);
        assert_eq!(s.desc, desc);
    }
}

#[test]
fn configure_sets_the_size_and_invalidates_the_frame() {
    let mut s = SurfaceSession::new(TextureFormat::Bgra8Unorm, 800, 600);
    let _ = s.acquire(Ok(())).unwrap();
    let desc = s.configure(1024, 768);
    assert_eq!(desc, s.desc);
    assert_eq!(s.desc.width, 1024);
    assert_eq!(s.desc.height, 768);
    assert_eq!(s.desc.format, TextureFormat::Bgra8Unorm);
    assert_eq!(s.desc.present_mode, PresentMode::Fifo);
    assert_eq!(s.desc.usage, TextureUsage::RenderAttachment);
    assert_eq!(s.current_target, None);
    assert_eq!(s.acquire(Ok(())), Ok(AcquiredFrame { width: 1024, height: 768 }));
}
