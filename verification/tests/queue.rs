use core::marker::PhantomData;

use depthai::pipeline::queue::{split_packet, Header};
use depthai::pipeline::queue_state::Ready;
use depthai::pipeline::{CameraFrame, ImuData, OutputQueue, RnopDeserializer};

const MARKER: [u8; 16] = [
    0xAB, 0xCD, 0xEF, 0x01, 0x23, 0x45, 0x67, 0x89, 0x12, 0x34, 0x56, 0x78, 0x9A, 0xBC, 0xDE, 0xF0,
];

fn packet(buffer: &[u8], metadata: &[u8], ty: u32, size: u32) -> Vec<u8> {
    let mut bytes = buffer.to_vec();
    bytes.extend(metadata);
    bytes.extend(ty.to_le_bytes());
    bytes.extend(size.to_le_bytes());
    bytes.extend(MARKER);
    bytes
}

#[test]
fn messages_are_taken_apart() {
    let raw = split_packet(packet(&[1, 2, 3], &[4, 5], 19, 2)).unwrap();
    assert_eq!(raw.buffer, vec![1, 2, 3]);
    assert_eq!(raw.metadata, vec![4, 5]);
    let raw = split_packet(packet(&[], &[], 0, 0)).unwrap();
    assert!(raw.buffer.is_empty() && raw.metadata.is_empty());
    let raw = split_packet(packet(&[], &[7; 300], 0, 300)).unwrap();
    assert_eq!(raw.metadata, vec![7; 300]);
}

#[test]
fn what_is_no_message_is_refused() {
    assert!(split_packet(vec![]).is_none());
    assert!(split_packet(MARKER.to_vec()).is_none());
    assert!(split_packet(packet(&[1], &[2], 19, 3)).is_none());
    assert!(split_packet(packet(&[1], &[2], 19, u32::MAX)).is_none());
    for at in 0..16 {
        let mut bytes = packet(&[1, 2, 3], &[4, 5], 19, 2);
        let len = bytes.len();
        bytes[len - 16 + at] ^= 1;
        assert!(split_packet(bytes).is_none());
    }
}

#[test]
fn headers_stand_before_the_marker() {
    let header = Header::parse(&packet(&[1], &[2, 3], 0x01020304, 2)).ok().unwrap();
    assert_eq!((header.ty, header.metadata_size), (0x01020304, 2));
    assert!(Header::parse(&packet(&[], &[], 0, 0)[1..]).is_err());
}

#[test]
fn imu_messages_end_as_messages_do() {
    let mut data = vec![185u8; 161];
    data.extend([19, 0, 0, 0, 161, 0, 0, 0]);
    data.extend([171, 205, 239, 1, 35, 69, 103, 137, 18, 52, 86, 120, 154, 188, 222, 240]);
    let raw = split_packet(data).unwrap();
    assert_eq!(raw.metadata, vec![185; 161]);
    assert!(raw.buffer.is_empty());
}

#[test]
fn messages_are_handed_on_with_or_without_data() {
    let queue = OutputQueue::<ImuData, RnopDeserializer, _> { state: Ready(()), _pd: PhantomData };
    let failed = queue.read(packet(&[1], &[2, 3], 0, 2), |metadata| {
        assert_eq!(metadata, vec![2, 3]);
        Err(())
    });
    assert!(failed.is_err());
    let queue = OutputQueue::<CameraFrame, RnopDeserializer, _> { state: Ready(()), _pd: PhantomData };
    assert!(queue.read(packet(&[1], &[2, 3], 0, 2), |_| Err(())).is_err());
    assert_eq!(queue.read_raw(packet(&[1], &[2, 3], 0, 2)).unwrap().buffer, vec![1]);
}
