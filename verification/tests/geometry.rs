use zbl::driver::Signal;
use zbl::error::{ApiFailure, BootstrapFailure, BootstrapStage, Error};
use zbl::geometry::{ClipRegion, ContentSize};
use zbl::texture::{FramePool, PixelFormat, StagingTexture};

#[test]
fn region_keeps_its_edges() {
    let region = ClipRegion::new(10, 20, 110, 220).unwrap();
    assert_eq!(region.left(), 10);
    assert_eq!(region.top(), 20);
    assert_eq!(region.right(), 110);
    assert_eq!(region.bottom(), 220);
}

#[test]
fn extent_of_a_region_is_the_distance_of_its_edges() {
    let region = ClipRegion::new(10, 20, 110, 220).unwrap();
    assert_eq!(region.width(), 100);
    assert_eq!(region.height(), 200);
    let whole = ClipRegion::new(0, 0, u32::MAX, u32::MAX).unwrap();
    assert_eq!(whole.width(), u32::MAX);
    assert_eq!(whole.height(), u32::MAX);
}

#[test]
fn empty_region_is_a_region() {
    let region = ClipRegion::new(7, 9, 7, 9).unwrap();
    assert_eq!(region.width(), 0);
    assert_eq!(region.height(), 0);
}

#[test]
fn inverted_region_is_refused() {
    assert_eq!(ClipRegion::new(11, 0, 10, 5), None);
    assert_eq!(ClipRegion::new(0, 6, 10, 5), None);
    assert_eq!(ClipRegion::new(1, 1, 0, 0), None);
}

#[test]
fn sizes_differ_in_either_dimension() {
    let size = ContentSize { width: 200, height: 150 };
    assert!(!size.differs_from(&ContentSize { width: 200, height: 150 }));
    assert!(size.differs_from(&ContentSize { width: 201, height: 150 }));
    assert!(size.differs_from(&ContentSize { width: 200, height: 149 }));
    assert_eq!(ContentSize::zero(), ContentSize { width: 0, height: 0 });
}

#[test]
fn staging_texture_covers_the_clip_region() {
    let region = ClipRegion::new(8, 31, 408, 331).unwrap();
    let format = PixelFormat { code: 87 };
    assert_eq!(
        StagingTexture::covering(region, format),
        StagingTexture { width: 400, height: 300, format }
    );
}

#[test]
fn frame_pool_is_one_deep_and_bgra() {
    let size = ContentSize { width: 1920, height: 1080 };
    assert_eq!(
        FramePool::sized(size),
        FramePool { format: PixelFormat { code: 87 }, depth: 1, size }
    );
}

#[test]
fn only_a_pending_signal_leaves_the_source_alive() {
    assert!(!Signal::Pending.source_gone());
    assert!(Signal::Fired.source_gone());
    assert!(Signal::Disconnected.source_gone());
}

#[test]
fn device_stages_come_first() {
    assert!(BootstrapStage::Device.concerns_device());
    assert!(BootstrapStage::Context.concerns_device());
    assert!(BootstrapStage::Interop.concerns_device());
    assert!(!BootstrapStage::CaptureTarget.concerns_device());
    assert!(!BootstrapStage::FramePool.concerns_device());
    assert!(!BootstrapStage::Session.concerns_device());
    assert!(!BootstrapStage::CursorCapture.concerns_device());
    assert!(!BootstrapStage::Subscription.concerns_device());
    assert!(!BootstrapStage::ClipRegion.concerns_device());
}

#[test]
fn failure_is_classified_by_its_stage() {
    let failure = ApiFailure { code: -2005270524 };
    assert_eq!(
        BootstrapFailure { stage: BootstrapStage::Interop, failure }.classify(),
        Error::DeviceInit(failure)
    );
    assert_eq!(
        BootstrapFailure { stage: BootstrapStage::Session, failure }.classify(),
        Error::SessionCreate(failure)
    );
    assert_eq!(Error::DeviceInit(failure).failure(), failure);
    assert_eq!(Error::SessionCreate(failure).failure(), failure);
    assert_eq!(Error::Session(failure).failure(), failure);
}
