use frame_bridge::{
    Frame, Header, Kind, Plane, FRAME_LEN, HEADER_LEN, MAGIC, MAX_PLANES, VERSION,
};

#[test]
fn header_rejects_wrong_magic_version_and_kind() {
    let encoded = Header {
        kind: Kind::Frame,
        payload_len: FRAME_LEN as u32,
        sequence: 27,
    }
    .encode();
    assert_eq!(Header::decode(&encoded).unwrap().sequence, 27);
    for at in [0, 4, 6] {
        let mut corrupt = encoded;
        corrupt[at] ^= 0xff;
        assert!(Header::decode(&corrupt).is_none());
    }
}

#[test]
fn frame_round_trip_preserves_every_plane_and_sync_bit() {
    let frame = Frame {
        display_id: 3,
        width: 1920,
        height: 1080,
        drm_format: u32::from_le_bytes(*b"XR24"),
        modifier: 0x0300_0000_0060_6014,
        plane_count: 2,
        has_acquire_fence: true,
        slot_id: 2,
        planes: [
            Plane {
                offset: 11,
                stride: 7680,
            },
            Plane {
                offset: 99,
                stride: 3840,
            },
            Plane::default(),
            Plane::default(),
        ],
    };
    assert_eq!(Frame::decode(&frame.encode().unwrap()).unwrap(), frame);
}

#[test]
fn frame_rejects_impossible_plane_and_fence_counts() {
    let mut bytes = [0; FRAME_LEN];
    bytes[24] = 1;
    assert!(Frame::decode(&bytes).is_some());
    bytes[24] = 0;
    assert!(Frame::decode(&bytes).is_none());
    bytes[24] = MAX_PLANES + 1;
    assert!(Frame::decode(&bytes).is_none());
    bytes[24] = 1;
    bytes[25] = 2;
    assert!(Frame::decode(&bytes).is_none());
}

#[test]
fn header_bytes_are_little_endian_fields_behind_the_magic() {
    let header = Header {
        kind: Kind::Release,
        payload_len: 0x0102_0304,
        sequence: 0xa0b0_c0d0,
    };
    assert_eq!(
        header.encode(),
        [
            b'R', b'F', b'B', b'1', 1, 0, 4, 0, 0x04, 0x03, 0x02, 0x01, 0xd0, 0xc0, 0xb0, 0xa0,
        ]
    );
    assert_eq!(MAGIC, u32::from_le_bytes(*b"RFB1"));
    assert_eq!(VERSION, 1);
}

#[test]
fn header_round_trips_for_every_kind_and_ignores_the_payload() {
    let kinds = [
        (Kind::Hello, 1),
        (Kind::Ready, 2),
        (Kind::Frame, 3),
        (Kind::Release, 4),
        (Kind::Goodbye, 5),
    ];
    for (kind, code) in kinds {
        assert_eq!(kind.code(), code);
        assert_eq!(Kind::decode(code), Some(kind));
        let header = Header {
            kind,
            payload_len: u32::MAX,
            sequence: code as u32,
        };
        let mut packet = header.encode().to_vec();
        packet.extend([0xee; 5]);
        assert_eq!(Header::decode(&packet), Some(header));
    }
    assert_eq!(Kind::decode(0), None);
    assert_eq!(Kind::decode(6), None);
    assert_eq!(Kind::decode(0x0101), None);
}

#[test]
fn header_rejects_a_short_packet() {
    let encoded = Header {
        kind: Kind::Hello,
        payload_len: 0,
        sequence: 1,
    }
    .encode();
    assert!(Header::decode(&encoded[..HEADER_LEN - 1]).is_none());
    assert!(Header::decode(&[]).is_none());
}

fn numbered_frame() -> Frame {
    Frame {
        display_id: 0x0403_0201,
        width: 0x0807_0605,
        height: 0x0c0b_0a09,
        drm_format: 0x100f_0e0d,
        modifier: 0x1817_1615_1413_1211,
        plane_count: 4,
        has_acquire_fence: false,
        slot_id: 0x1c1b,
        planes: [
            Plane {
                offset: 0x2423_2221,
                stride: 0x2827_2625,
            },
            Plane {
                offset: 0x2c2b_2a29,
                stride: 0x302f_2e2d,
            },
            Plane {
                offset: 0x3433_3231,
                stride: 0x3837_3635,
            },
            Plane {
                offset: 0x3c3b_3a39,
                stride: 0x403f_3e3d,
            },
        ],
    }
}

#[test]
fn frame_bytes_stand_where_the_format_puts_them() {
    let bytes = numbered_frame().encode().unwrap();
    let mut expected: Vec<u8> = (1..=64).collect();
    expected[24] = 4;
    expected[25] = 0;
    for at in 28..32 {
        expected[at] = 0;
    }
    assert_eq!(bytes.to_vec(), expected);
    let mut fenced = numbered_frame();
    fenced.has_acquire_fence = true;
    assert_eq!(fenced.encode().unwrap()[25], 1);
}

#[test]
fn frame_rewrite_clears_only_the_unused_bytes() {
    let mut bytes: Vec<u8> = (1..=64).collect();
    bytes[24] = 2;
    bytes[25] = 1;
    let rewritten = Frame::decode(&bytes).unwrap().encode().unwrap();
    bytes[28..32].copy_from_slice(&[0; 4]);
    assert_eq!(rewritten.to_vec(), bytes);
}

#[test]
fn frame_with_an_impossible_plane_count_is_not_encoded() {
    let mut frame = numbered_frame();
    frame.plane_count = 0;
    assert!(frame.encode().is_none());
    frame.plane_count = MAX_PLANES + 1;
    assert!(frame.encode().is_none());
    frame.plane_count = MAX_PLANES;
    assert!(frame.encode().is_some());
}

#[test]
fn frame_of_another_length_is_not_decoded() {
    let bytes = numbered_frame().encode().unwrap();
    assert!(Frame::decode(&bytes[..FRAME_LEN - 1]).is_none());
    let mut longer = bytes.to_vec();
    longer.push(0);
    assert!(Frame::decode(&longer).is_none());
}

#[test]
fn default_plane_is_zero() {
    assert_eq!(
        Plane::default(),
        Plane {
            offset: 0,
            stride: 0
        }
    );
}
