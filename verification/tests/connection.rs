use core::marker::PhantomData;

use depthai::clock::{Period, WallTime};
use depthai::connection::{Connection, ConnectionStream, IoEvent, QueueWait};
use depthai::event::Event;
use depthai::io::{DeviceEvent, ReadStreamInfo, StreamEvent, WriteStreamInfo};
use depthai::name::StreamName;
use depthai::pipeline::queue_state::Pending;
use depthai::pipeline::OutputQueue;

const NOW: WallTime = WallTime { secs: 1, nanos: 2 };

fn name(text: &str) -> StreamName {
    StreamName::new(text.as_bytes()).unwrap()
}

#[test]
fn streams_are_asked_for_under_numbers_of_their_own() {
    let mut connection = Connection::<u8>::new();
    for id in 0..3 {
        let DeviceEvent::CreateStream(header) = connection.create_stream("__log", 128) else {
            panic!();
        };
        assert_eq!((header.ty, header.stream_id, header.size), (3, id, 128));
        assert_eq!(header.name.as_bytes(), b"__log");
    }
    let DeviceEvent::CreateStream(header) = connection.create_stream_bytes_at(b"x", 1, NOW) else {
        panic!();
    };
    assert_eq!((header.stream_id, header.seconds(), header.nsec), (3, 1, 2));
    let request = connection.create_watchdog(1, Period::from_millis(2000));
    assert!(matches!(request, DeviceEvent::CreateWatchDog(1, period) if period.secs == 2));
    assert!(matches!(connection.send_event(Event::ping()), DeviceEvent::NormalEvent(h) if h.ty == 5));
}

#[test]
fn pongs_and_shutdowns_are_waited_for() {
    assert!(Connection::<u8>::wait_for_pong(IoEvent::Pong).is_ok());
    assert!(matches!(Connection::<u8>::wait_for_pong(IoEvent::Shutdown), Err(IoEvent::Shutdown)));
    assert!(Connection::<u8>::wait_for_shutdown(IoEvent::Shutdown).is_ok());
    assert!(matches!(Connection::<u8>::wait_for_shutdown(IoEvent::Pong), Err(IoEvent::Pong)));
}

#[test]
fn streams_are_kept_until_they_are_needed() {
    let mut connection = Connection::<u8>::new();
    let wanted = name("b");
    assert!(!connection.has_stream(&wanted));
    let done = connection.wait_for_stream(&wanted, IoEvent::CreatedStream(name("a"), 1));
    assert!(matches!(done, Ok(false)));
    let done = connection.wait_for_stream(&wanted, IoEvent::CreatedStream(name("b"), 2));
    assert!(matches!(done, Ok(true)));
    assert!(matches!(connection.wait_for_stream(&wanted, IoEvent::Pong), Err(IoEvent::Pong)));
    assert!(connection.has_stream(&wanted));
    assert!(connection.has_stream(&name("a")));
    assert_eq!(connection.created_streams.get(&wanted), Some(&2));
    assert_eq!(connection.created_streams.remove(&name("a")), Some(1));
    assert_eq!(connection.created_streams.remove(&name("a")), None);
    assert_eq!(connection.created_streams.len(), 1);
}

fn queue(text: &str) -> OutputQueue<u8, u8, Pending> {
    OutputQueue { state: Pending(name(text)), _pd: PhantomData }
}

#[test]
fn queues_take_their_streams() {
    let mut connection = Connection::<u8>::new();
    let _ = connection.wait_for_stream(&name("q"), IoEvent::CreatedStream(name("q"), 7));
    let ready = connection.take_output_queue(queue("q"));
    assert_eq!(ready.ok().unwrap().state.0, 7);
    assert!(!connection.has_stream(&name("q")));

    let waiting = connection.take_output_queue(queue("q")).err().unwrap();
    let DeviceEvent::CreateStream(header) = connection.request_output_queue_at(&waiting, NOW) else {
        panic!();
    };
    assert_eq!((header.name.as_bytes(), header.size), (b"q".as_slice(), 409600));
    let QueueWait::Waiting(waiting) =
        connection.wait_for_output_queue(waiting, IoEvent::CreatedStream(name("r"), 8))
    else {
        panic!();
    };
    assert!(connection.has_stream(&name("r")));
    let QueueWait::Ready(ready) =
        connection.wait_for_output_queue(waiting, IoEvent::CreatedStream(name("q"), 9))
    else {
        panic!();
    };
    assert_eq!(ready.state.0, 9);
    assert!(!connection.has_stream(&name("q")));
    let wait = connection.wait_for_output_queue(queue("q"), IoEvent::Shutdown);
    assert!(matches!(wait, QueueWait::Unexpected(IoEvent::Shutdown)));
}

#[test]
fn data_is_written_piece_by_piece() {
    let stream = ConnectionStream::new(
        ReadStreamInfo { read_size: 1, id: 2 },
        WriteStreamInfo { write_size: 3, id: 4 },
    );
    let mut writes = stream.bulk_write(vec![1, 2, 3, 4, 5], 2);
    let mut pieces = vec![];
    while let Some(request) = writes.next_at(NOW) {
        let StreamEvent::Write(header, data) = request else {
            panic!();
        };
        assert_eq!((header.ty, header.stream_id, header.size), (0, 4, data.len() as u32));
        assert_eq!(header.name.as_bytes(), b"");
        pieces.push(data);
    }
    assert_eq!(pieces, vec![vec![1, 2], vec![3, 4], vec![5]]);
    assert!(writes.next().is_none());
    let event = Event::write_at(4, b"n", &[9], NOW);
    let StreamEvent::Write(header, data) = stream.write(event, vec![9]) else {
        panic!();
    };
    assert_eq!((header.stream_id, data), (4, vec![9]));
}
