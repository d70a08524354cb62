use depthai::clock::{Period, WallTime};
use depthai::event::{Event, EventHeader, EventType};
use depthai::io::{
    DeviceEvent, IoAction, IoError, IoInput, IoState, ReadStreamInfo, StreamEvent, WriteStreamInfo,
};
use depthai::name::StreamName;

const NOW: WallTime = WallTime { secs: 1, nanos: 2 };

fn header(id: u32, ty: u32, name: &[u8], stream_id: u32, size: u32) -> EventHeader {
    EventHeader {
        id,
        ty,
        name: StreamName::new(name).unwrap(),
        nsec: 0,
        sec_lsb: 0,
        sec_msb: 0,
        stream_id,
        size,
        flags: 0,
    }
}

fn receive(state: &mut IoState, header: EventHeader) -> Result<Vec<IoAction>, IoError> {
    state.step(IoInput::Read(header.to_bytes()), NOW)
}

fn ask(state: &mut IoState, name: &[u8], stream_id: u32) {
    let event = Event::create_stream_at(stream_id, name, 64, NOW);
    let actions = state.step(IoInput::Device(DeviceEvent::CreateStream(event.header)), NOW).unwrap();
    assert_eq!(actions.len(), 1);
}

/// The header that an action sends, which carries no data.
fn sent(action: &IoAction) -> EventHeader {
    match action {
        IoAction::Send(header, data) => {
            assert!(data.is_empty());
            *header
        }
        _ => panic!("nothing is sent"),
    }
}

fn created(action: &IoAction) -> (u32, Vec<u8>, ReadStreamInfo, WriteStreamInfo) {
    match action {
        IoAction::CreatedStream { key, name, read, write } => {
            (*key, name.as_bytes().to_vec(), *read, *write)
        }
        _ => panic!("no stream is created"),
    }
}

#[test]
fn messages_are_numbered() {
    let mut state = IoState::new();
    for id in 0..3 {
        let event = Event::ping_at(NOW);
        let actions = state.step(IoInput::Device(DeviceEvent::NormalEvent(event.header)), NOW).unwrap();
        assert_eq!(actions.len(), 1);
        assert_eq!(sent(&actions[0]).id, id);
    }
    let write = Event::write_at(4, b"", &[1, 2], NOW);
    let input = IoInput::Stream(StreamEvent::Write(write.header, vec![1, 2]));
    let actions = state.step(input, NOW).unwrap();
    match &actions[0] {
        IoAction::Send(header, data) => {
            assert_eq!(header.id, 3);
            assert_eq!(header.size, 2);
            assert_eq!(data, &vec![1, 2]);
        }
        _ => panic!(),
    }
    let release = header(9, 2, b"", 4, 2);
    let actions = state.step(IoInput::Stream(StreamEvent::ReadRelease(release)), NOW).unwrap();
    assert_eq!(sent(&actions[0]).id, 4);
}

#[test]
fn the_watchdog_writes_zeros() {
    let mut state = IoState::new();
    assert!(state.step(IoInput::WatchdogTick, NOW).unwrap().is_empty());
    let period = Period::from_millis(2000);
    let actions = state.step(IoInput::Device(DeviceEvent::CreateWatchDog(6, period)), NOW).unwrap();
    assert!(matches!(actions[0], IoAction::StartWatchdog(6, p) if p == period));
    let actions = state.step(IoInput::WatchdogTick, NOW).unwrap();
    match &actions[0] {
        IoAction::Send(header, data) => {
            assert_eq!((header.id, header.ty, header.stream_id, header.size), (0, 0, 6, 4));
            assert_eq!(header.seconds(), 1);
            assert_eq!(data, &vec![0, 0, 0, 0]);
        }
        _ => panic!(),
    }
}

#[test]
fn streams_are_created_whoever_asks_first() {
    let request = header(40, 3, b"s", 17, 512);
    let agreement = header(0, 11, b"s", 5, 64);
    let expected = (
        5,
        b"s".to_vec(),
        ReadStreamInfo { read_size: 512, id: 17 },
        WriteStreamInfo { write_size: 64, id: 5 },
    );

    let mut state = IoState::new();
    ask(&mut state, b"s", 5);
    let actions = receive(&mut state, request).unwrap();
    assert_eq!(actions.len(), 1);
    let ack = sent(&actions[0]);
    assert_eq!((ack.id, ack.ty, ack.stream_id, ack.size, ack.flags), (40, 11, 17, 512, 1));
    assert_eq!(ack.name.as_bytes(), b"s");
    let actions = receive(&mut state, agreement).unwrap();
    assert_eq!(actions.len(), 1);
    assert_eq!(created(&actions[0]), expected);

    let mut state = IoState::new();
    ask(&mut state, b"s", 5);
    assert!(receive(&mut state, agreement).unwrap().is_empty());
    let actions = receive(&mut state, request).unwrap();
    assert_eq!(actions.len(), 2);
    assert_eq!(sent(&actions[0]).ty, 11);
    assert_eq!(created(&actions[1]), expected);
}

#[test]
fn streams_that_nobody_asked_for_are_refused() {
    let mut state = IoState::new();
    assert_eq!(receive(&mut state, header(0, 11, b"s", 5, 64)).err(), Some(IoError::UnrequestedStream));
    receive(&mut state, header(0, 3, b"s", 5, 64)).unwrap();
    assert_eq!(receive(&mut state, header(0, 11, b"s", 5, 64)).err(), Some(IoError::UnrequestedStream));
}

/// A state with a stream under this number.
fn with_stream(stream_id: u32) -> IoState {
    let mut state = IoState::new();
    ask(&mut state, b"s", stream_id);
    receive(&mut state, header(0, 3, b"s", 17, 512)).unwrap();
    receive(&mut state, header(0, 11, b"s", stream_id, 64)).unwrap();
    state
}

#[test]
fn written_data_is_delivered_confirmed_and_released() {
    let mut state = with_stream(5);
    assert!(!state.awaits_payload());
    assert!(receive(&mut state, header(77, 0, b"s", 5, 6)).unwrap().is_empty());
    assert!(state.awaits_payload());
    assert_eq!(state.wanted(), 6);
    assert!(state.step(IoInput::Read(vec![1, 2]), NOW).unwrap().is_empty());
    assert_eq!(state.wanted(), 4);
    assert!(state.step(IoInput::Read(vec![]), NOW).unwrap().is_empty());
    let actions = state.step(IoInput::Read(vec![3, 4, 5, 6]), NOW).unwrap();
    assert_eq!(actions.len(), 3);
    assert!(matches!(&actions[0], IoAction::Deliver(5, data) if data == &vec![1, 2, 3, 4, 5, 6]));
    let ack = sent(&actions[1]);
    assert_eq!((ack.id, ack.ty, ack.stream_id, ack.size, ack.flags), (77, 8, 5, 6, 1));
    let release = sent(&actions[2]);
    assert_eq!((release.id, release.ty, release.stream_id, release.size, release.flags), (77, 2, 5, 6, 1));
    assert!(!state.awaits_payload());
    assert_eq!(state.wanted(), 84);
}

#[test]
fn empty_writes_are_delivered_too() {
    let mut state = with_stream(5);
    assert!(receive(&mut state, header(77, 0, b"s", 5, 0)).unwrap().is_empty());
    assert_eq!(state.wanted(), 0);
    let actions = state.step(IoInput::Read(vec![]), NOW).unwrap();
    assert!(matches!(&actions[0], IoAction::Deliver(5, data) if data.is_empty()));
}

#[test]
fn streams_that_are_not_there_are_not_served() {
    let mut state = with_stream(5);
    assert_eq!(receive(&mut state, header(0, 8, b"s", 6, 1)).err(), Some(IoError::UnknownStream(6)));
    receive(&mut state, header(0, 0, b"s", 6, 1)).unwrap();
    assert_eq!(state.step(IoInput::Read(vec![9]), NOW).err(), Some(IoError::UnknownStream(6)));
}

#[test]
fn confirmed_writes_release_the_writer() {
    let mut state = with_stream(5);
    let actions = receive(&mut state, header(0, 8, b"s", 5, 1)).unwrap();
    assert_eq!(actions.len(), 1);
    assert!(matches!(actions[0], IoAction::Notify(5)));
}

#[test]
fn headers_come_in_parts() {
    let request = header(40, 2, b"s", 17, 512).to_bytes();
    for cut in 1..84 {
        let mut state = IoState::new();
        assert_eq!(state.wanted(), 84);
        assert!(state.step(IoInput::Read(request[..cut].to_vec()), NOW).unwrap().is_empty());
        assert_eq!(state.wanted(), 84 - cut);
        let actions = state.step(IoInput::Read(request[cut..].to_vec()), NOW).unwrap();
        let ack = sent(&actions[0]);
        assert_eq!((ack.id, ack.ty, ack.stream_id, ack.size, ack.flags), (40, 10, 17, 512, 1));
    }
}

#[test]
fn other_events_are_passed_over() {
    let mut state = IoState::new();
    for ty in [EventType::ReadResp, EventType::ReadRelResp, EventType::ReadRelSpecResp, EventType::CloseStreamResp] {
        assert!(receive(&mut state, header(0, ty.code(), b"", 0, 0)).unwrap().is_empty());
    }
    let actions = receive(&mut state, header(0, EventType::ResetReq.code(), b"", 0, 0)).unwrap();
    assert!(matches!(actions[0], IoAction::Skip(EventType::ResetReq)));
    let actions = receive(&mut state, header(0, EventType::PingResp.code(), b"", 0, 0)).unwrap();
    assert!(matches!(actions[0], IoAction::Pong));
    assert_eq!(receive(&mut state, header(0, 99, b"", 0, 0)).err(), Some(IoError::UnknownEventType(99)));
}

#[test]
fn the_end_of_the_connection_is_reported() {
    let mut state = IoState::new();
    let actions = state.step(IoInput::Read(vec![]), NOW).unwrap();
    assert!(matches!(actions[0], IoAction::Shutdown));
    let actions = state.step(IoInput::ConnectionReset, NOW).unwrap();
    assert!(matches!(actions[0], IoAction::Shutdown));
}
