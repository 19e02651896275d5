use dmx_udp::frame::FrameBuffer;
use dmx_udp::frame::CHANNEL_COUNT;
use dmx_udp::frame::FRAME_LEN;

#[test]
fn fresh_frame_is_zeroed() {
    let f = FrameBuffer::new();
    let bytes = f.as_slice();
    assert_eq!(bytes.len(), FRAME_LEN);
    for i in 0..FRAME_LEN {
        assert_eq!(bytes[i], 0);
    }
}

#[test]
fn datagram_lands_at_offset_one() {
    let mut f = FrameBuffer::new();
    f.apply_datagram(&[10, 20, 30]);
    assert_eq!(f.get(0), 0);
    assert_eq!(f.get(1), 10);
    assert_eq!(f.get(2), 20);
    assert_eq!(f.get(3), 30);
    assert_eq!(f.get(4), 0);
    assert_eq!(f.get(512), 0);
}

#[test]
fn short_datagram_leaves_trailing_channels() {
    let mut f = FrameBuffer::new();
    let first: Vec<u8> = (1..=10).collect();
    f.apply_datagram(&first);
    f.apply_datagram(&[9, 9, 9]);
    assert_eq!(f.get(1), 9);
    assert_eq!(f.get(2), 9);
    assert_eq!(f.get(3), 9);
    // Channels past the new payload keep the prior frame's values.
    assert_eq!(f.get(4), 4);
    assert_eq!(f.get(10), 10);
    assert_eq!(f.get(11), 0);
}

#[test]
fn oversized_datagram_is_truncated() {
    let mut f = FrameBuffer::new();
    let big = vec![7u8; 600];
    f.apply_datagram(&big);
    assert_eq!(f.get(0), 0);
    for i in 1..=CHANNEL_COUNT {
        assert_eq!(f.get(i), 7);
    }
}

#[test]
fn last_datagram_wins() {
    let mut f = FrameBuffer::new();
    f.apply_datagram(&[1, 1, 1, 1]);
    f.apply_datagram(&[2, 2, 2, 2]);
    f.apply_datagram(&[3, 3, 3]);
    assert_eq!(f.get(1), 3);
    assert_eq!(f.get(2), 3);
    assert_eq!(f.get(3), 3);
    assert_eq!(f.get(4), 2);
    assert_eq!(f.get(0), 0);
}

#[test]
fn full_frame_datagram_overwrites_everything() {
    let mut f = FrameBuffer::new();
    f.apply_datagram(&[1u8; 512]);
    f.apply_datagram(&[255u8; 512]);
    assert_eq!(f.get(0), 0);
    for i in 1..=CHANNEL_COUNT {
        assert_eq!(f.get(i), 255);
    }
}
