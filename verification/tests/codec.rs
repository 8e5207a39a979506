use rust_sfp::codec::decode;
use rust_sfp::codec::decode_header;
use rust_sfp::codec::encode;
use rust_sfp::codec::encode_header;
use rust_sfp::codec::HEADER_LEN;
use rust_sfp::codec::MAX_FRAME_LEN;

#[test]
fn header_len_is_four_bytes() {
    assert_eq!(HEADER_LEN, 4);
    assert_eq!(MAX_FRAME_LEN, 4_294_967_295);
}

#[test]
fn encode_header_is_big_endian() {
    assert_eq!(encode_header(0), [0, 0, 0, 0]);
    assert_eq!(encode_header(1), [0, 0, 0, 1]);
    assert_eq!(encode_header(2), [0, 0, 0, 2]);
    assert_eq!(encode_header(255), [0, 0, 0, 255]);
    assert_eq!(encode_header(256), [0, 0, 1, 0]);
    assert_eq!(encode_header(65_535), [0, 0, 255, 255]);
    assert_eq!(encode_header(65_536), [0, 1, 0, 0]);
    assert_eq!(encode_header(16_777_216), [1, 0, 0, 0]);
    assert_eq!(encode_header(0x0102_0304), [1, 2, 3, 4]);
    assert_eq!(encode_header(0xDEAD_BEEF), [0xDE, 0xAD, 0xBE, 0xEF]);
    assert_eq!(encode_header(u32::MAX), [255, 255, 255, 255]);
}

#[test]
fn encode_header_agrees_with_std() {
    for len in [0u32, 1, 7, 255, 256, 257, 65_535, 65_536, 1 << 24, 0x7FFF_FFFF, u32::MAX] {
        assert_eq!(encode_header(len), len.to_be_bytes());
    }
}

#[test]
fn decode_header_is_big_endian() {
    assert_eq!(decode_header(&[0, 0, 0, 0]), 0);
    assert_eq!(decode_header(&[0, 0, 0, 2]), 2);
    assert_eq!(decode_header(&[0, 0, 1, 0]), 256);
    assert_eq!(decode_header(&[0, 1, 0, 0]), 65_536);
    assert_eq!(decode_header(&[1, 0, 0, 0]), 16_777_216);
    assert_eq!(decode_header(&[1, 2, 3, 4]), 0x0102_0304);
    assert_eq!(decode_header(&[0xDE, 0xAD, 0xBE, 0xEF]), 0xDEAD_BEEF);
    assert_eq!(decode_header(&[255, 255, 255, 255]), u32::MAX);
}

#[test]
fn decode_header_agrees_with_std() {
    for header in [[0u8, 0, 0, 0], [9, 8, 7, 6], [0, 0, 0, 255], [128, 0, 0, 1], [255, 255, 255, 254]] {
        assert_eq!(decode_header(&header), u32::from_be_bytes(header));
    }
}

#[test]
fn header_carries_the_length_written_into_it() {
    for len in [0u32, 1, 2, 3, 254, 255, 256, 1_000, 65_535, 65_536, 99_999, 0x00FF_FFFF, 0x0100_0000, 0xFFFF_FFFE, u32::MAX] {
        assert_eq!(decode_header(&encode_header(len)), len);
    }
}

#[test]
fn every_header_is_the_header_of_its_value() {
    for header in [[0u8, 0, 0, 0], [0, 0, 0, 1], [1, 0, 0, 0], [3, 1, 4, 1], [255, 0, 255, 0], [255, 255, 255, 255]] {
        assert_eq!(encode_header(decode_header(&header)), header);
    }
}

#[test]
fn encode_puts_the_length_before_the_payload() {
    let wire = encode(&[0x41, 0x42]).unwrap();
    assert_eq!(wire, vec![0, 0, 0, 2, 0x41, 0x42]);
}

#[test]
fn encode_of_empty_payload_is_a_bare_header() {
    let wire = encode(&[]).unwrap();
    assert_eq!(wire, vec![0, 0, 0, 0]);
}

#[test]
fn encode_adds_four_bytes() {
    for len in [0usize, 1, 2, 255, 256, 300, 70_000] {
        let payload: Vec<u8> = (0..len).map(|i| (i % 251) as u8).collect();
        let wire = encode(&payload).unwrap();
        assert_eq!(wire.len(), len + 4);
        assert_eq!(wire[..4], (len as u32).to_be_bytes());
        assert_eq!(decode_header(&[wire[0], wire[1], wire[2], wire[3]]) as usize, len);
        assert_eq!(wire[4..], payload[..]);
    }
}

#[test]
fn encode_of_300_bytes_has_header_0_0_1_44() {
    let payload = vec![0xEEu8; 300];
    let wire = encode(&payload).unwrap();
    assert_eq!(wire[..4], [0, 0, 1, 44]);
    assert_eq!(wire.len(), 304);
}

#[test]
fn encode_does_not_touch_the_payload() {
    let payload = vec![0u8, 0, 0, 9, 255, 1];
    let wire = encode(&payload).unwrap();
    assert_eq!(payload, vec![0u8, 0, 0, 9, 255, 1]);
    assert_eq!(wire, vec![0, 0, 0, 6, 0, 0, 0, 9, 255, 1]);
}

#[test]
fn decode_takes_the_first_frame() {
    assert_eq!(decode(&[0, 0, 0, 2, 0x41, 0x42]), Some((vec![0x41, 0x42], 6)));
}

#[test]
fn decode_leaves_what_follows_the_frame() {
    let wire = [0, 0, 0, 1, 7, 0, 0, 0, 2, 8, 9];
    let (frame, used) = decode(&wire).unwrap();
    assert_eq!(frame, vec![7]);
    assert_eq!(used, 5);
    assert_eq!(decode(&wire[used..]), Some((vec![8, 9], 6)));
}

#[test]
fn decode_of_bare_header_is_the_empty_frame() {
    assert_eq!(decode(&[0, 0, 0, 0]), Some((vec![], 4)));
    assert_eq!(decode(&[0, 0, 0, 0, 5]), Some((vec![], 4)));
}

#[test]
fn decode_of_nothing_is_no_frame() {
    assert_eq!(decode(&[]), None);
}

#[test]
fn decode_of_half_a_header_is_no_frame() {
    assert_eq!(decode(&[0]), None);
    assert_eq!(decode(&[0, 0]), None);
    assert_eq!(decode(&[0, 0, 0]), None);
    assert_eq!(decode(&[255, 255]), None);
}

#[test]
fn decode_of_cut_payload_is_no_frame() {
    assert_eq!(decode(&[0, 0, 0, 2, 0x41]), None);
    assert_eq!(decode(&[0, 0, 0, 1]), None);
    assert_eq!(decode(&[255, 255, 255, 255, 1, 2, 3]), None);
    assert_eq!(decode(&[0, 0, 1, 0, 1, 2, 3]), None);
}

#[test]
fn decode_undoes_encode() {
    let payloads: Vec<Vec<u8>> = vec![
        vec![],
        vec![0],
        vec![0x41, 0x42],
        vec![0, 0, 0, 0],
        vec![255; 255],
        vec![1; 256],
        (0..1000).map(|i| (i % 256) as u8).collect(),
        vec![0xA5; 65_536],
    ];
    for payload in payloads {
        let wire = encode(&payload).unwrap();
        let used = wire.len();
        assert_eq!(decode(&wire), Some((payload, used)));
    }
}

#[test]
fn empty_payload_round_trips() {
    let wire = encode(&[]).unwrap();
    assert_eq!(decode_header(&[wire[0], wire[1], wire[2], wire[3]]), 0);
    assert_eq!(wire.len(), 4);
    let (frame, used) = decode(&wire).unwrap();
    assert!(frame.is_empty());
    assert_eq!(used, 4);
}

#[test]
fn encode_undoes_decode() {
    let wire = [0, 0, 0, 3, 10, 20, 30, 99, 98];
    let (frame, used) = decode(&wire).unwrap();
    let mut again = encode(&frame).unwrap();
    again.extend_from_slice(&wire[used..]);
    assert_eq!(again, wire);
}

#[test]
fn frames_come_out_in_the_order_they_went_in() {
    let frames: Vec<Vec<u8>> = vec![
        vec![1],
        vec![],
        vec![2, 2],
        vec![0, 0, 0, 1],
        vec![3; 300],
        vec![],
        vec![4],
    ];
    let mut wire: Vec<u8> = Vec::new();
    for frame in &frames {
        wire.extend_from_slice(&encode(frame).unwrap());
    }
    let mut at = 0;
    let mut seen: Vec<Vec<u8>> = Vec::new();
    for _ in 0..frames.len() {
        let (frame, used) = decode(&wire[at..]).unwrap();
        seen.push(frame);
        at += used;
    }
    assert_eq!(seen, frames);
    assert_eq!(at, wire.len());
    assert_eq!(decode(&wire[at..]), None);
}
