use std::io::{Read, Write};

use depthai::bootloader::request::{self, BootMemory};
use depthai::bootloader::response::{self, BootloaderTy, BootloaderType};
use depthai::bootloader::XLINK_MAX_PACKET_SIZE;
use depthai::connection::ConnectionStream;
use depthai::firmware::{device_firmware, is_device_firmware, unpack_tarball};
use depthai::io::{ReadStreamInfo, WriteStreamInfo};

#[test]
fn archives_are_unpacked() {
    let archive: Vec<u8> = (0..100_000u32).map(|i| (i % 251) as u8).collect();
    let mut encoder = xz::write::XzEncoder::new(vec![], 6);
    encoder.write_all(&archive).unwrap();
    let compressed = encoder.finish().unwrap();
    assert!(compressed.len() < archive.len());
    assert_eq!(unpack_tarball(&compressed).unwrap(), archive);
}

#[test]
fn failures_to_unpack_are_handed_on() {
    let mut encoder = xz::write::XzEncoder::new(vec![], 6);
    encoder.write_all(&[7; 1000]).unwrap();
    let compressed = encoder.finish().unwrap();
    let inputs = [&compressed[..compressed.len() / 2], b"not compressed at all", b""];
    for bytes in inputs {
        let expected = xz::read::XzDecoder::new(bytes).read_to_end(&mut vec![]).unwrap_err();
        let error = unpack_tarball(bytes).unwrap_err();
        assert_eq!(error.kind(), expected.kind());
        assert_eq!(error.to_string(), expected.to_string());
    }
}

#[test]
fn firmware_is_known_by_its_path() {
    assert!(is_device_firmware(b"depthai-device-openvino-universal-747b.cmd"));
    assert!(is_device_firmware(b"depthai-device-openvino-universal"));
    assert!(!is_device_firmware(b"depthai-device-openvino-universa"));
    assert!(!is_device_firmware(b"./depthai-device-openvino-universal.cmd"));
    assert!(!is_device_firmware(b""));
}

#[test]
fn the_last_firmware_is_taken() {
    let path = |text: &str| Some(text.as_bytes().to_vec());
    let paths = vec![
        path("depthai-device-openvino-universal-1.cmd"),
        None,
        path("depthai-device-openvino-universal-2.cmd"),
        path("depthai-device-kb-fwp.tar"),
    ];
    assert_eq!(device_firmware(&paths), Some(2));
    assert_eq!(device_firmware(&paths[3..]), None);
    assert_eq!(device_firmware(&[]), None);
}

#[test]
fn boot_requests_stand_on_the_wire() {
    let request = BootMemory::new(0x01020304, 5);
    assert_eq!(request.to_bytes(), vec![4, 0, 0, 0, 4, 3, 2, 1, 5, 0, 0, 0]);
    assert_eq!(request::get_bootloader_type(), vec![8, 0, 0, 0]);
    assert_eq!(request::Command::IsUserBootloader.code(), 17);
}

#[test]
fn bootloaders_tell_their_type() {
    let response = BootloaderType::parse(&[3, 0, 0, 0, 1, 0, 0, 0]);
    assert_eq!(response.command(), Ok(response::Command::BootloaderType));
    assert_eq!(response.ty(), Ok(BootloaderTy::Network));
    let response = BootloaderType::parse(&[99, 0, 0, 0, 0, 2, 0, 0]);
    assert_eq!(response.command(), Err(99));
    assert_eq!(response.ty(), Err(512));
    assert_eq!(BootloaderType::default().ty(), Ok(BootloaderTy::Usb));
    for code in 0..13 {
        assert_eq!(response::Command::try_from(code).unwrap().code(), code);
    }
    assert_eq!(response::Command::try_from(13), Err(13));
}

#[test]
fn as_many_packets_are_announced_as_are_sent() {
    let stream = ConnectionStream::new(
        ReadStreamInfo { read_size: 1, id: 2 },
        WriteStreamInfo { write_size: 3, id: 4 },
    );
    for (len, packets) in [(1, 1), (409_599, 1), (409_600, 1), (409_601, 2), (1_228_801, 4)] {
        let request = BootMemory::for_firmware(len);
        assert_eq!((request.val, request.total_size, request.num_packets), (4, len, packets));
        let mut writes = stream.bulk_write(vec![0; len as usize], XLINK_MAX_PACKET_SIZE);
        let mut sent = 0;
        while writes.next().is_some() {
            sent += 1;
        }
        assert_eq!(sent, packets);
    }
}
