use ban_shadow::geometry::{holds_frame, row_bytes, BYTES_PER_PIXEL};
use ban_shadow::slot::{Payload, SharedData, SharedHandle, Transport};

fn frame(width: u32, height: u32, fill: u8) -> Vec<u8> {
    vec![fill; (width as usize) * (height as usize) * 4]
}

#[test]
fn holds_frame_is_exact() {
    assert!(holds_frame(40_000, 100, 100));
    assert!(!holds_frame(39_999, 100, 100));
    assert!(!holds_frame(40_001, 100, 100));
    assert!(holds_frame(120_000, 200, 150));
    assert!(holds_frame(0, 0, 7));
    assert!(holds_frame(0, 7, 0));
    assert!(!holds_frame(1, 0, 0));
}

#[test]
fn row_bytes_is_four_per_pixel() {
    assert_eq!(BYTES_PER_PIXEL, 4);
    assert_eq!(row_bytes(0), Some(0));
    assert_eq!(row_bytes(1), Some(4));
    assert_eq!(row_bytes(1920), Some(7680));
    assert_eq!(row_bytes(0x3fff_ffff), Some(0xffff_fffc));
    assert_eq!(row_bytes(0x4000_0000), None);
    assert_eq!(row_bytes(u32::MAX), None);
}

#[test]
fn holds_frame_does_not_wrap() {
    // 65536 * 65536 * 4 is 2^34: a product that wraps to 0 in 32 bits.
    assert!(!holds_frame(0, 65_536, 65_536));
    assert!(!holds_frame(usize::MAX, u32::MAX, u32::MAX));
    // 2^31 * 2^31 * 4 is 2^64: a product that wraps to 0 in 64 bits.
    assert!(!holds_frame(0, 0x8000_0000, 0x8000_0000));
}

#[test]
fn new_slot_is_empty() {
    let bytes = SharedData::new(Transport::ByteBuffer);
    assert_eq!(bytes.version(), 0);
    assert_eq!(bytes.width(), 0);
    assert_eq!(bytes.height(), 0);
    assert_eq!(bytes.transport(), Transport::ByteBuffer);
    assert!(bytes.try_consume().is_none());
    assert!(bytes.pixels().is_empty());
    assert_eq!(bytes.handle(), None);

    let texture = SharedData::new(Transport::SharedTexture);
    assert_eq!(texture.version(), 0);
    assert_eq!(texture.transport(), Transport::SharedTexture);
    assert!(texture.try_consume().is_none());
    assert_eq!(texture.handle(), None);
}

#[test]
fn default_slot_carries_a_texture() {
    let slot = SharedData::default();
    assert_eq!(slot.transport(), Transport::SharedTexture);
    assert_eq!(slot.version(), 0);
    assert!(slot.try_consume().is_none());
}

#[test]
fn publish_bytes_replaces_frame_and_bumps_version() {
    let mut slot = SharedData::new(Transport::ByteBuffer);
    let mut scratch = frame(2, 3, 9);
    assert!(slot.publish_bytes(&mut scratch, 2, 3));
    assert_eq!(slot.version(), 1);
    assert_eq!(slot.width(), 2);
    assert_eq!(slot.height(), 3);
    assert_eq!(slot.pixels(), &frame(2, 3, 9)[..]);
    assert!(scratch.is_empty());

    let seen = slot.try_consume().unwrap();
    assert_eq!(seen.version, 1);
    assert_eq!(seen.width, 2);
    assert_eq!(seen.height, 3);
    match seen.payload {
        Payload::Bytes(bytes) => assert_eq!(bytes.len(), 24),
        Payload::Texture(_) => panic!("a byte slot carries bytes"),
    }
}

#[test]
fn publish_bytes_rejects_wrong_length() {
    let mut slot = SharedData::new(Transport::ByteBuffer);
    let mut short = vec![1u8; 23];
    assert!(!slot.publish_bytes(&mut short, 2, 3));
    assert_eq!(slot.version(), 0);
    assert_eq!(short, vec![1u8; 23]);
    assert!(slot.try_consume().is_none());

    let mut good = frame(2, 3, 5);
    assert!(slot.publish_bytes(&mut good, 2, 3));
    let mut long = vec![2u8; 25];
    assert!(!slot.publish_bytes(&mut long, 2, 3));
    assert_eq!(slot.version(), 1);
    assert_eq!(slot.pixels(), &frame(2, 3, 5)[..]);
    assert_eq!(long, vec![2u8; 25]);
}

#[test]
fn publish_bytes_rejected_by_texture_slot() {
    let mut slot = SharedData::new(Transport::SharedTexture);
    let mut scratch = frame(1, 1, 3);
    assert!(!slot.publish_bytes(&mut scratch, 1, 1));
    assert_eq!(slot.version(), 0);
    assert_eq!(scratch, frame(1, 1, 3));
}

#[test]
fn publish_handle_replaces_handle_and_bumps_version() {
    let mut slot = SharedData::new(Transport::SharedTexture);
    assert!(slot.publish_handle(SharedHandle(0x1234), 1920, 1080));
    assert_eq!(slot.version(), 1);
    assert_eq!(slot.width(), 1920);
    assert_eq!(slot.height(), 1080);
    assert_eq!(slot.handle(), Some(SharedHandle(0x1234)));
    let seen = slot.try_consume().unwrap();
    assert_eq!(seen.version, 1);
    match seen.payload {
        Payload::Texture(handle) => assert_eq!(*handle, Some(SharedHandle(0x1234))),
        Payload::Bytes(_) => panic!("a texture slot carries a handle"),
    }

    assert!(slot.publish_handle(SharedHandle(0x5678), 1280, 720));
    assert_eq!(slot.version(), 2);
    assert_eq!(slot.handle(), Some(SharedHandle(0x5678)));
    assert_eq!((slot.width(), slot.height()), (1280, 720));
}

#[test]
fn publish_handle_rejected_by_byte_slot() {
    let mut slot = SharedData::new(Transport::ByteBuffer);
    assert!(!slot.publish_handle(SharedHandle(1), 4, 4));
    assert_eq!(slot.version(), 0);
    assert_eq!(slot.handle(), None);
}

#[test]
fn refresh_needs_a_published_texture() {
    let mut texture = SharedData::new(Transport::SharedTexture);
    assert!(!texture.refresh());
    assert_eq!(texture.version(), 0);
    assert!(texture.publish_handle(SharedHandle(7), 8, 8));
    assert!(texture.refresh());
    assert_eq!(texture.version(), 2);
    assert_eq!(texture.handle(), Some(SharedHandle(7)));
    assert_eq!((texture.width(), texture.height()), (8, 8));

    let mut bytes = SharedData::new(Transport::ByteBuffer);
    let mut scratch = frame(1, 1, 1);
    assert!(bytes.publish_bytes(&mut scratch, 1, 1));
    assert!(!bytes.refresh());
    assert_eq!(bytes.version(), 1);
}

#[test]
fn version_never_decreases() {
    let mut slot = SharedData::new(Transport::ByteBuffer);
    let mut seen: Vec<u64> = vec![slot.version()];
    let mut round: u32 = 1;
    while round <= 6 {
        let mut scratch = frame(round, 2, round as u8);
        slot.publish_bytes(&mut scratch, round, 2);
        seen.push(slot.version());
        let mut wrong = vec![0u8; 3];
        slot.publish_bytes(&mut wrong, round, 2);
        seen.push(slot.version());
        seen.push(slot.try_consume().unwrap().version);
        slot.refresh();
        seen.push(slot.version());
        round += 1;
    }
    assert!(seen.windows(2).all(|pair| pair[0] <= pair[1]));
    assert_eq!(slot.version(), 6);

    let mut texture = SharedData::new(Transport::SharedTexture);
    let mut seen: Vec<u64> = vec![texture.version()];
    let mut round: usize = 1;
    while round <= 6 {
        texture.refresh();
        seen.push(texture.version());
        texture.publish_handle(SharedHandle(round), 4, 4);
        seen.push(texture.try_consume().unwrap().version);
        texture.refresh();
        seen.push(texture.version());
        round += 1;
    }
    assert!(seen.windows(2).all(|pair| pair[0] <= pair[1]));
    // the first refresh finds nothing published and is refused
    assert_eq!(texture.version(), 17);
}

#[test]
fn consumed_bytes_always_fill_their_dimensions() {
    let mut slot = SharedData::new(Transport::ByteBuffer);
    let sizes: [(u32, u32); 5] = [(1, 1), (100, 100), (3, 7), (0, 4), (200, 150)];
    for (width, height) in sizes {
        let mut scratch = frame(width, height, 1);
        assert!(slot.publish_bytes(&mut scratch, width, height));
        let mut wrong = vec![2u8; 5];
        assert!(!slot.publish_bytes(&mut wrong, width, height));
        let seen = slot.try_consume().unwrap();
        assert_eq!((seen.width, seen.height), (width, height));
        match seen.payload {
            Payload::Bytes(bytes) => {
                assert_eq!(bytes.len(), (seen.width as usize) * (seen.height as usize) * 4)
            }
            Payload::Texture(_) => panic!("a byte slot carries bytes"),
        }
    }
}

#[test]
fn scratch_receives_what_was_published_before() {
    let mut slot = SharedData::new(Transport::ByteBuffer);
    let mut scratch = frame(2, 2, 1);
    assert!(slot.publish_bytes(&mut scratch, 2, 2));
    assert!(scratch.is_empty());
    scratch = frame(3, 1, 2);
    assert!(slot.publish_bytes(&mut scratch, 3, 1));
    assert_eq!(scratch, frame(2, 2, 1));
    assert_eq!(slot.pixels(), &frame(3, 1, 2)[..]);
    // reading does not disturb the slot
    assert_eq!(slot.try_consume().unwrap().version, 2);
    assert_eq!(slot.try_consume().unwrap().version, 2);
    assert_eq!(slot.pixels(), &frame(3, 1, 2)[..]);
    scratch = frame(1, 1, 3);
    assert!(slot.publish_bytes(&mut scratch, 1, 1));
    assert_eq!(scratch, frame(3, 1, 2));
}

#[test]
fn publish_swaps_buffers_without_copying() {
    let mut slot = SharedData::new(Transport::ByteBuffer);
    let mut scratch = frame(100, 100, 1);
    let first = scratch.as_ptr();
    assert!(slot.publish_bytes(&mut scratch, 100, 100));
    assert_eq!(slot.pixels().as_ptr(), first);

    scratch = frame(100, 100, 2);
    let second = scratch.as_ptr();
    assert!(slot.publish_bytes(&mut scratch, 100, 100));
    // the slot holds the very buffer that was handed in, and the scratch
    // buffer is the very buffer the slot held before
    assert_eq!(slot.pixels().as_ptr(), second);
    assert_eq!(scratch.as_ptr(), first);
    assert_eq!(scratch, frame(100, 100, 1));

    // steady state: the two buffers only change places
    let mut round: u8 = 3;
    while round < 20 {
        for byte in scratch.iter_mut() {
            *byte = round;
        }
        let handed_in = scratch.as_ptr();
        let held = slot.pixels().as_ptr();
        assert!(slot.publish_bytes(&mut scratch, 100, 100));
        assert_eq!(slot.pixels().as_ptr(), handed_in);
        assert_eq!(scratch.as_ptr(), held);
        assert_eq!(scratch.capacity() >= 40_000, true);
        round += 1;
    }
}
