use ban_shadow::capture::{
    dxgi_format_from_color, CaptureAction, CapturePhase, Capturer, ColorFormat, SharedTexture,
    TextureDesc, BIND_SHADER_RESOURCE, MISC_SHARED_KEYEDMUTEX, USAGE_DEFAULT,
};

fn shared_desc(width: u32, height: u32, format: i32) -> TextureDesc {
    TextureDesc {
        width,
        height,
        mip_levels: 1,
        array_size: 1,
        format,
        sample_count: 1,
        sample_quality: 0,
        usage: 0,
        bind_flags: 0x8,
        cpu_access_flags: 0,
        misc_flags: 0x100,
    }
}
use ban_shadow::keyed_mutex::{ACQUIRE_TIMEOUT_MS, CONSUMER_KEY, PRODUCER_KEY};
use ban_shadow::slot::{SharedData, SharedHandle, Transport};

#[test]
fn dxgi_formats_of_colour_formats() {
    assert_eq!(dxgi_format_from_color(ColorFormat::Rgba16F), 10);
    assert_eq!(dxgi_format_from_color(ColorFormat::Rgba8), 28);
    assert_eq!(dxgi_format_from_color(ColorFormat::Bgra8), 87);
}

#[test]
fn shared_texture_description() {
    assert_eq!(USAGE_DEFAULT, 0);
    assert_eq!(BIND_SHADER_RESOURCE, 8);
    assert_eq!(MISC_SHARED_KEYEDMUTEX, 256);
    assert_eq!(TextureDesc::shared(1920, 1080, ColorFormat::Bgra8), shared_desc(1920, 1080, 87));
    assert_eq!(TextureDesc::shared(0, 7, ColorFormat::Rgba16F), shared_desc(0, 7, 10));
    assert_eq!(
        TextureDesc::shared(u32::MAX, 1, ColorFormat::Rgba8),
        shared_desc(u32::MAX, 1, 28)
    );
}

#[test]
fn handshake_keys() {
    assert_eq!(PRODUCER_KEY, 0);
    assert_eq!(CONSUMER_KEY, 1);
    assert_eq!(ACQUIRE_TIMEOUT_MS, 0);
}

#[test]
fn new_capturer_is_idle() {
    let capturer = Capturer::new();
    assert_eq!(capturer.phase(), CapturePhase::Idle);
    assert_eq!(capturer.shared_texture(), None);
    assert_eq!(capturer.current_frame_id(), 0);
    assert!(capturer.scratch().is_empty());
}

#[test]
fn staged_frame_is_published_by_swap() {
    let mut slot = SharedData::new(Transport::ByteBuffer);
    let mut capturer = Capturer::new();
    let bytes: Vec<u8> = (0u8..16).collect();
    assert_eq!(capturer.stage_frame(Some(&bytes), 2, 2), CaptureAction::Publish);
    assert_eq!(capturer.scratch(), &bytes);
    assert_eq!(slot.version(), 0);
    assert!(capturer.publish_staged(&mut slot));
    assert_eq!(slot.version(), 1);
    assert_eq!(slot.pixels(), &bytes[..]);
    assert_eq!((slot.width(), slot.height()), (2, 2));
    assert!(capturer.scratch().is_empty());
    // nothing is staged any more
    assert!(!capturer.publish_staged(&mut slot));
    assert_eq!(slot.version(), 1);
}

#[test]
fn frame_without_bytes_is_skipped() {
    let mut slot = SharedData::new(Transport::ByteBuffer);
    let mut capturer = Capturer::new();
    let good: Vec<u8> = vec![5u8; 4];
    assert_eq!(capturer.stage_frame(Some(&good), 1, 1), CaptureAction::Publish);
    assert!(capturer.publish_staged(&mut slot));
    assert_eq!(capturer.stage_frame(None, 1, 1), CaptureAction::Skip);
    assert!(!capturer.publish_staged(&mut slot));
    assert_eq!(slot.version(), 1);
    assert_eq!(slot.pixels(), &good[..]);
}

#[test]
fn frame_without_bytes_clears_the_stage() {
    let mut slot = SharedData::new(Transport::ByteBuffer);
    let mut capturer = Capturer::new();
    let good: Vec<u8> = vec![5u8; 4];
    assert_eq!(capturer.stage_frame(Some(&good), 1, 1), CaptureAction::Publish);
    assert_eq!(capturer.stage_frame(None, 1, 1), CaptureAction::Skip);
    assert!(!capturer.publish_staged(&mut slot));
    assert_eq!(slot.version(), 0);
}

#[test]
fn frame_of_wrong_length_is_skipped() {
    let mut slot = SharedData::new(Transport::ByteBuffer);
    let mut capturer = Capturer::new();
    let padded: Vec<u8> = vec![5u8; 20];
    assert_eq!(capturer.stage_frame(Some(&padded), 2, 2), CaptureAction::Skip);
    assert!(!capturer.publish_staged(&mut slot));
    assert_eq!(slot.version(), 0);
    assert!(slot.try_consume().is_none());
}

#[test]
fn staged_frame_is_not_published_to_a_texture_slot() {
    let mut slot = SharedData::new(Transport::SharedTexture);
    let mut capturer = Capturer::new();
    let bytes: Vec<u8> = vec![5u8; 4];
    assert_eq!(capturer.stage_frame(Some(&bytes), 1, 1), CaptureAction::Publish);
    assert!(!capturer.publish_staged(&mut slot));
    assert_eq!(slot.version(), 0);
    assert_eq!(capturer.scratch(), &bytes);
}

#[test]
fn scratch_buffer_is_recycled() {
    let mut slot = SharedData::new(Transport::ByteBuffer);
    let mut capturer = Capturer::new();
    let a: Vec<u8> = vec![1u8; 400];
    let b: Vec<u8> = vec![2u8; 400];
    let c: Vec<u8> = vec![3u8; 400];
    capturer.stage_frame(Some(&a), 10, 10);
    let first = capturer.scratch().as_ptr();
    capturer.publish_staged(&mut slot);
    assert_eq!(slot.pixels().as_ptr(), first);
    capturer.stage_frame(Some(&b), 10, 10);
    let second = capturer.scratch().as_ptr();
    capturer.publish_staged(&mut slot);
    assert_eq!(slot.pixels().as_ptr(), second);
    assert_eq!(capturer.scratch().as_ptr(), first);
    // from here on the two buffers take turns and nothing is allocated
    capturer.stage_frame(Some(&c), 10, 10);
    assert_eq!(capturer.scratch().as_ptr(), first);
    capturer.publish_staged(&mut slot);
    assert_eq!(slot.pixels().as_ptr(), first);
    assert_eq!(slot.pixels(), &c[..]);
    assert_eq!(capturer.scratch().as_ptr(), second);
    assert_eq!(slot.version(), 3);
}

#[test]
fn first_texture_frame_creates_a_texture() {
    let mut slot = SharedData::new(Transport::SharedTexture);
    let mut capturer = Capturer::new();
    assert_eq!(
        capturer.on_frame_arrived(1920, 1080, ColorFormat::Bgra8),
        CaptureAction::CreateTexture { desc: shared_desc(1920, 1080, 87) }
    );
    assert_eq!(capturer.phase(), CapturePhase::Creating { width: 1920, height: 1080 });
    assert_eq!(
        capturer.texture_created(&mut slot, Some(SharedHandle(0xabc))),
        CaptureAction::Acquire { key: 0, timeout_ms: 0 }
    );
    assert_eq!(capturer.phase(), CapturePhase::Acquiring);
    assert_eq!(
        capturer.shared_texture(),
        Some(SharedTexture { handle: SharedHandle(0xabc), width: 1920, height: 1080 })
    );
    assert_eq!(slot.version(), 1);
    assert_eq!(slot.handle(), Some(SharedHandle(0xabc)));
    assert_eq!((slot.width(), slot.height()), (1920, 1080));
    assert_eq!(capturer.acquire_finished(true), CaptureAction::CopyAndRelease { key: 1 });
    assert_eq!(capturer.phase(), CapturePhase::Copying);
    capturer.copy_finished(&mut slot);
    assert_eq!(capturer.phase(), CapturePhase::Idle);
    assert_eq!(capturer.current_frame_id(), 1);
    assert_eq!(slot.version(), 1);
    assert_eq!(slot.handle(), Some(SharedHandle(0xabc)));
}

#[test]
fn later_texture_frames_reuse_the_texture() {
    let mut slot = SharedData::new(Transport::SharedTexture);
    let mut capturer = Capturer::new();
    capturer.on_frame_arrived(64, 32, ColorFormat::Rgba8);
    capturer.texture_created(&mut slot, Some(SharedHandle(1)));
    capturer.acquire_finished(true);
    capturer.copy_finished(&mut slot);
    assert_eq!(
        capturer.on_frame_arrived(64, 32, ColorFormat::Rgba8),
        CaptureAction::Acquire { key: 0, timeout_ms: 0 }
    );
    assert_eq!(capturer.acquire_finished(true), CaptureAction::CopyAndRelease { key: 1 });
    capturer.copy_finished(&mut slot);
    assert_eq!(capturer.current_frame_id(), 2);
    assert_eq!(slot.version(), 2);
    assert_eq!(slot.handle(), Some(SharedHandle(1)));
}

#[test]
fn refused_acquisition_drops_the_frame() {
    let mut slot = SharedData::new(Transport::SharedTexture);
    let mut capturer = Capturer::new();
    capturer.on_frame_arrived(64, 32, ColorFormat::Rgba8);
    capturer.texture_created(&mut slot, Some(SharedHandle(1)));
    assert_eq!(capturer.acquire_finished(false), CaptureAction::Skip);
    assert_eq!(capturer.phase(), CapturePhase::Idle);
    assert_eq!(capturer.current_frame_id(), 0);
    assert_eq!(slot.version(), 1);
    assert_eq!(slot.handle(), Some(SharedHandle(1)));
    assert_eq!((slot.width(), slot.height()), (64, 32));
    // the next frame tries again with the same texture
    assert_eq!(
        capturer.on_frame_arrived(64, 32, ColorFormat::Rgba8),
        CaptureAction::Acquire { key: 0, timeout_ms: 0 }
    );
}

#[test]
fn new_size_retires_the_texture() {
    let mut slot = SharedData::new(Transport::SharedTexture);
    let mut capturer = Capturer::new();
    capturer.on_frame_arrived(64, 32, ColorFormat::Rgba16F);
    capturer.texture_created(&mut slot, Some(SharedHandle(1)));
    capturer.acquire_finished(true);
    capturer.copy_finished(&mut slot);
    capturer.on_frame_arrived(64, 32, ColorFormat::Rgba16F);
    capturer.acquire_finished(true);
    capturer.copy_finished(&mut slot);
    assert_eq!(capturer.current_frame_id(), 2);
    assert_eq!(slot.version(), 2);

    assert_eq!(
        capturer.on_frame_arrived(128, 32, ColorFormat::Rgba16F),
        CaptureAction::CreateTexture { desc: shared_desc(128, 32, 10) }
    );
    assert_eq!(
        capturer.texture_created(&mut slot, Some(SharedHandle(2))),
        CaptureAction::Acquire { key: 0, timeout_ms: 0 }
    );
    assert_eq!(capturer.current_frame_id(), 0);
    assert_eq!(slot.version(), 3);
    assert_eq!(slot.handle(), Some(SharedHandle(2)));
    assert_eq!((slot.width(), slot.height()), (128, 32));
}

#[test]
fn every_copied_frame_raises_the_version_by_one() {
    let mut slot = SharedData::new(Transport::SharedTexture);
    let mut capturer = Capturer::new();
    // a 100 x 100 frame, which needs a texture
    capturer.on_frame_arrived(100, 100, ColorFormat::Bgra8);
    capturer.texture_created(&mut slot, Some(SharedHandle(1)));
    capturer.acquire_finished(true);
    capturer.copy_finished(&mut slot);
    assert_eq!(slot.version(), 1);
    assert_eq!((slot.width(), slot.height()), (100, 100));
    assert_eq!(slot.handle(), Some(SharedHandle(1)));
    // a 200 x 150 frame, which needs a new texture
    capturer.on_frame_arrived(200, 150, ColorFormat::Bgra8);
    capturer.texture_created(&mut slot, Some(SharedHandle(2)));
    assert_eq!(slot.version(), 2);
    capturer.acquire_finished(true);
    capturer.copy_finished(&mut slot);
    assert_eq!(slot.version(), 2);
    assert_eq!((slot.width(), slot.height()), (200, 150));
    assert_eq!(slot.handle(), Some(SharedHandle(2)));
    assert_eq!(capturer.current_frame_id(), 1);
    // a frame into the texture in use
    capturer.on_frame_arrived(200, 150, ColorFormat::Bgra8);
    capturer.acquire_finished(true);
    capturer.copy_finished(&mut slot);
    assert_eq!(slot.version(), 3);
    assert_eq!(capturer.current_frame_id(), 2);
}

#[test]
fn frame_after_a_refused_first_acquisition_raises_the_version() {
    let mut slot = SharedData::new(Transport::SharedTexture);
    let mut capturer = Capturer::new();
    capturer.on_frame_arrived(64, 32, ColorFormat::Bgra8);
    capturer.texture_created(&mut slot, Some(SharedHandle(1)));
    assert_eq!(slot.version(), 1);
    assert_eq!(capturer.acquire_finished(false), CaptureAction::Skip);
    // the next frame goes into the texture in use and is announced by itself
    capturer.on_frame_arrived(64, 32, ColorFormat::Bgra8);
    capturer.acquire_finished(true);
    capturer.copy_finished(&mut slot);
    assert_eq!(slot.version(), 2);
    assert_eq!(capturer.current_frame_id(), 1);
}

#[test]
fn failed_creation_changes_nothing() {
    let mut slot = SharedData::new(Transport::SharedTexture);
    let mut capturer = Capturer::new();
    capturer.on_frame_arrived(64, 32, ColorFormat::Bgra8);
    capturer.texture_created(&mut slot, Some(SharedHandle(1)));
    capturer.acquire_finished(true);
    capturer.copy_finished(&mut slot);

    capturer.on_frame_arrived(640, 320, ColorFormat::Bgra8);
    assert_eq!(capturer.texture_created(&mut slot, None), CaptureAction::Skip);
    assert_eq!(capturer.phase(), CapturePhase::Idle);
    assert_eq!(
        capturer.shared_texture(),
        Some(SharedTexture { handle: SharedHandle(1), width: 64, height: 32 })
    );
    assert_eq!(capturer.current_frame_id(), 1);
    assert_eq!(slot.version(), 1);
    assert_eq!(slot.handle(), Some(SharedHandle(1)));
    assert_eq!((slot.width(), slot.height()), (64, 32));
    // the next frame asks for the texture again
    assert_eq!(
        capturer.on_frame_arrived(640, 320, ColorFormat::Bgra8),
        CaptureAction::CreateTexture { desc: shared_desc(640, 320, 87) }
    );
}

#[test]
fn texture_is_not_published_to_a_byte_slot() {
    let mut slot = SharedData::new(Transport::ByteBuffer);
    let mut capturer = Capturer::new();
    capturer.on_frame_arrived(64, 32, ColorFormat::Bgra8);
    assert_eq!(capturer.texture_created(&mut slot, Some(SharedHandle(1))), CaptureAction::Skip);
    assert_eq!(capturer.phase(), CapturePhase::Idle);
    assert_eq!(capturer.shared_texture(), None);
    assert_eq!(slot.version(), 0);
}

#[test]
fn reports_out_of_turn_are_ignored() {
    let mut slot = SharedData::new(Transport::SharedTexture);
    let mut capturer = Capturer::new();
    assert_eq!(capturer.acquire_finished(true), CaptureAction::Skip);
    assert_eq!(capturer.texture_created(&mut slot, Some(SharedHandle(1))), CaptureAction::Skip);
    capturer.copy_finished(&mut slot);
    assert_eq!(capturer.phase(), CapturePhase::Idle);
    assert_eq!(capturer.shared_texture(), None);
    assert_eq!(capturer.current_frame_id(), 0);
    assert_eq!(slot.version(), 0);

    capturer.on_frame_arrived(4, 4, ColorFormat::Bgra8);
    // a second delivery while the first is in progress is dropped
    assert_eq!(capturer.on_frame_arrived(8, 8, ColorFormat::Bgra8), CaptureAction::Skip);
    assert_eq!(capturer.phase(), CapturePhase::Creating { width: 4, height: 4 });
    assert_eq!(capturer.acquire_finished(true), CaptureAction::Skip);
    assert_eq!(capturer.phase(), CapturePhase::Creating { width: 4, height: 4 });
}
