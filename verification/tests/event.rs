use std::time::{Duration, SystemTime};

use depthai::clock::{Period, WallTime};
use depthai::event::{Event, EventHeader, EventType, HEADER_LEN};
use depthai::name::StreamName;

const NOW: WallTime = WallTime { secs: 0x1_0000_0002, nanos: 7 };

fn word(x: u32) -> Vec<u8> {
    x.to_le_bytes().to_vec()
}

#[test]
fn headers_stand_on_the_wire_field_by_field() {
    let event = Event::acknowledge_stream_at(0x01020304, b"abc", 0x05060708, 0x090a0b0c, NOW);
    let mut expected = vec![];
    expected.extend(word(0x090a0b0c));
    expected.extend(word(11));
    expected.extend(b"abc");
    expected.extend([0; 49]);
    expected.extend(word(7));
    expected.extend(word(2));
    expected.extend(word(1));
    expected.extend(word(0x01020304));
    expected.extend(word(0x05060708));
    expected.extend(word(1));
    assert_eq!(event.header.to_bytes(), expected);
    assert_eq!(expected.len(), HEADER_LEN);
    assert_eq!(event.header.seconds(), 0x1_0000_0002);
}

#[test]
fn headers_are_read_as_they_were_written() {
    let bytes: Vec<u8> = (0..84).map(|i| (i * 3 + 1) as u8).collect();
    let header = EventHeader::parse(&bytes);
    assert_eq!(header.to_bytes(), bytes);
    assert_eq!(header.id, 0x0a070401);
    assert_eq!(header.ty, 0x1613100d);
    assert_eq!(header.flags, u32::from_le_bytes([241, 244, 247, 250]));
}

#[test]
fn events_are_what_they_are_called() {
    let ping = Event::ping_at(NOW).header;
    assert_eq!((ping.id, ping.ty, ping.stream_id, ping.size, ping.flags), (0, 5, 0, 0, 0));
    assert_eq!(ping.name.as_bytes(), b"");

    let create = Event::create_stream_at(3, b"__log", 128, NOW).header;
    assert_eq!((create.id, create.ty, create.stream_id, create.size, create.flags), (0, 3, 3, 128, 0));
    assert_eq!(create.name.as_bytes(), b"__log");

    let write = Event::write_at(4, b"", &[1, 2, 3], NOW).header;
    assert_eq!((write.id, write.ty, write.stream_id, write.size, write.flags), (0, 0, 4, 3, 0));

    let ack = Event::acknowledge_write_at(5, b"x", 9, 8, NOW).header;
    assert_eq!((ack.id, ack.ty, ack.stream_id, ack.size, ack.flags), (8, 8, 5, 9, 1));

    let release = Event::read_release_at(5, b"x", 9, 8, NOW).header;
    assert_eq!((release.id, release.ty, release.stream_id, release.size, release.flags), (8, 2, 5, 9, 1));

    let released = Event::acknowledge_read_release_at(5, b"x", 9, 8, NOW).header;
    assert_eq!((released.id, released.ty, released.flags), (8, 10, 1));
}

#[test]
fn events_carry_the_current_time() {
    let before = WallTime::now();
    let event = Event::create_stream(1, b"s", 64);
    let after = WallTime::now();
    assert!(before.secs > 1_600_000_000);
    assert!(before.secs <= event.header.seconds() && event.header.seconds() <= after.secs);
    assert!(event.header.nsec < 1_000_000_000);
    assert_eq!(Event::ping().header.ty, 5);
    assert_eq!(Event::write(1, b"", &[0; 6]).header.size, 6);
    assert_eq!(Event::acknowledge_stream(1, b"s", 64, 2).header.id, 2);
    assert_eq!(Event::acknowledge_write(1, b"s", 64, 2).header.ty, 8);
    assert_eq!(Event::acknowledge_read_release(1, b"s", 64, 2).header.ty, 10);
    assert_eq!(Event::read_release(1, b"s", 64, 2).header.ty, 2);
    let plain = Event::new((), 5, b"n", 24, 1, 6);
    assert_eq!((plain.header.size, plain.header.ty, plain.header.flags), (5, 24, 6));
}

#[test]
fn event_types_have_numbers() {
    for code in 0..26 {
        let ty = EventType::try_from(code).unwrap();
        assert_eq!(ty.code(), code);
    }
    assert_eq!(EventType::try_from(26), Err(26));
    assert_eq!(EventType::try_from(u32::MAX), Err(u32::MAX));
    assert_eq!(EventType::try_from(0), Ok(EventType::WriteReq));
    assert_eq!(EventType::try_from(13), Ok(EventType::PingResp));
    assert_eq!(EventType::try_from(25), Ok(EventType::ReadRelSpecResp));
}

#[test]
fn names_end_at_the_first_zero() {
    let name = StreamName::new(b"__rpc_main").unwrap();
    assert_eq!(name.as_bytes(), b"__rpc_main");
    assert_eq!(name.borrow().len(), 52);
    assert_eq!(&name.borrow()[10..], &[0; 42]);
    let cut = StreamName::new(b"ab\0cd").unwrap();
    assert_eq!(cut.as_bytes(), b"ab");
    assert!(cut == StreamName::new(b"ab").unwrap());
    assert!(cut != StreamName::new(b"abc").unwrap());
    let full = StreamName::new(&[7; 52]).unwrap();
    assert_eq!(full.as_bytes(), &[7; 52]);
    assert_eq!(StreamName::new(b"").unwrap().as_bytes(), b"");
}

#[test]
fn periods_are_measured_in_milliseconds() {
    assert_eq!(Period::from_millis(2000), Period { secs: 2, nanos: 0 });
    assert_eq!(Period::from_millis(1234), Period { secs: 1, nanos: 234_000_000 });
    assert_eq!(Period { secs: 1, nanos: 999_999 }.as_millis(), 1000);
    assert_eq!(Period { secs: u64::MAX, nanos: 999_999_999 }.as_millis(), u64::MAX as u128 * 1000 + 999);
}

#[test]
fn clocks_show_the_time_since_the_epoch() {
    let shown = WallTime::shown(Ok(Duration::new(0x1_0000_0002, 7)));
    assert_eq!(shown, NOW);
    let early = SystemTime::UNIX_EPOCH.duration_since(SystemTime::now());
    assert!(early.is_err());
    assert_eq!(WallTime::shown(early), WallTime { secs: 0, nanos: 0 });
}
