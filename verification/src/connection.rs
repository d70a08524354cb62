//! The host's side of a connection: its streams, and what it waits for.

use core::marker::PhantomData;

use vstd::prelude::*;
use vstd::string::StringSliceAdditionalSpecFns;

use crate::bootloader;
use crate::chunks::{self, Chunks};
use crate::clock::{Period, WallTime};
use crate::event::{self, Event, EventHeader, EventType};
use crate::io::{DeviceEvent, ReadStreamInfo, StreamEvent, WriteStreamInfo};
use crate::name::{self, StreamName};
use crate::pipeline::queue::OutputQueue;
use crate::pipeline::queue_state::{Pending, Ready};
use crate::table::{Key, NameTable};

verus! {

/// What the exchange with the device reports, with `S` to reach a stream by.
pub enum IoEvent<S> {
    Pong,
    CreatedStream(StreamName, S),
    Shutdown,
}

/// The two ends of a stream.
#[derive(Clone, Copy, Debug)]
pub struct ConnectionStream {
    pub read: ReadStreamInfo,
    pub write: WriteStreamInfo,
}

impl ConnectionStream {
    /// A stream with these ends.
    pub fn new(read: ReadStreamInfo, write: WriteStreamInfo) -> (stream: Self)
        ensures
            stream.read == read,
            stream.write == write,
    {
        ConnectionStream { read, write }
    }

    /// Has `data` sent as `ev` announces it.
    pub fn write<T>(&self, ev: Event<T>, data: Vec<u8>) -> (request: StreamEvent)
        ensures
            request == StreamEvent::Write(ev.header, data),
    {
        StreamEvent::Write(ev.header, data)
    }

    /// Has `data` sent in pieces of `split_by` bytes, each to be written once the one before has
    /// been confirmed.
    pub fn bulk_write(&self, data: Vec<u8>, split_by: usize) -> (writes: BulkWrite)
        ensures
            writes.stream_id() == self.write.id,
            writes.data() == data@,
            writes.split_by() == split_by,
            writes.offset() == 0,
    {
        BulkWrite { chunks: Chunks::new(data, split_by), stream_id: self.write.id }
    }
}

/// Writes data piece by piece.
pub struct BulkWrite {
    chunks: Chunks<u8>,
    stream_id: u32,
}

impl BulkWrite {
    /// The stream that is written to.
    pub closed spec fn stream_id(&self) -> u32 {
        self.stream_id
    }

    /// All that there is to write.
    pub closed spec fn data(&self) -> Seq<u8> {
        self.chunks.items()
    }

    /// How many bytes a piece has.
    pub closed spec fn split_by(&self) -> nat {
        self.chunks.split_by()
    }

    /// Where the next piece begins.
    pub closed spec fn offset(&self) -> nat {
        self.chunks.offset()
    }

    /// The next piece and its announcement at the time `now`, if anything is left to write.
    pub fn next_at(&mut self, now: WallTime) -> (request: Option<StreamEvent>)
        requires
            old(self).offset() < old(self).data().len() ==> old(self).offset()
                + old(self).split_by() <= usize::MAX,
        ensures
            final(self).stream_id() == old(self).stream_id(),
            final(self).data() == old(self).data(),
            final(self).split_by() == old(self).split_by(),
            match request {
                Some(StreamEvent::Write(header, data)) => {
                    &&& old(self).offset() < old(self).data().len()
                    &&& data@ == chunks::piece_at(
                        old(self).data(),
                        old(self).split_by(),
                        old(self).offset(),
                    )
                    &&& event::describes(
                        header,
                        0,
                        EventType::WriteReq,
                        name::padded(Seq::empty()),
                        old(self).stream_id(),
                        event::wire_size(data@),
                        0,
                        now,
                    )
                    &&& final(self).offset() == old(self).offset() + old(self).split_by()
                },
                Some(_) => false,
                None => {
                    &&& old(self).offset() >= old(self).data().len()
                    &&& final(self).offset() == old(self).offset()
                },
            },
    {
        match self.chunks.next() {
            Some(bytes) => {
                let name: [u8; 0] = [];
                assert(name@ =~= Seq::<u8>::empty());
                let event = Event::write_at(self.stream_id, name.as_slice(), bytes, now);
                Some(StreamEvent::Write(event.header, vstd::slice::slice_to_vec(bytes)))
            },
            None => None,
        }
    }

    /// The next piece and its announcement at the current time, if anything is left to write.
    pub fn next(&mut self) -> (request: Option<StreamEvent>)
        requires
            old(self).offset() < old(self).data().len() ==> old(self).offset()
                + old(self).split_by() <= usize::MAX,
        ensures
            final(self).stream_id() == old(self).stream_id(),
            final(self).data() == old(self).data(),
            final(self).split_by() == old(self).split_by(),
            match request {
                Some(StreamEvent::Write(header, data)) => {
                    &&& old(self).offset() < old(self).data().len()
                    &&& data@ == chunks::piece_at(
                        old(self).data(),
                        old(self).split_by(),
                        old(self).offset(),
                    )
                    &&& exists|now: WallTime|
                        now.is_shown() && #[trigger] event::describes(
                            header,
                            0,
                            EventType::WriteReq,
                            name::padded(Seq::empty()),
                            old(self).stream_id(),
                            event::wire_size(data@),
                            0,
                            now,
                        )
                    &&& final(self).offset() == old(self).offset() + old(self).split_by()
                },
                Some(_) => false,
                None => {
                    &&& old(self).offset() >= old(self).data().len()
                    &&& final(self).offset() == old(self).offset()
                },
            },
    {
        self.next_at(WallTime::now())
    }
}

/// The streams of a connection, with `S` to reach each by.
pub struct Connection<S> {
    pub created_streams: NameTable<S>,
    pub next_stream_id: u32,
}

/// What becomes of an output queue while its stream is waited for.
pub enum QueueWait<O, D, S> {
    /// The stream is there.
    Ready(OutputQueue<O, D, Ready<S>>),
    /// The stream is not there yet.
    Waiting(OutputQueue<O, D, Pending>),
    /// Something else came than a stream.
    Unexpected(IoEvent<S>),
}

impl<S> Connection<S> {
    /// Whether no stream is known by two names.
    pub open spec fn wf(&self) -> bool {
        self.created_streams.wf()
    }

    /// A connection without streams.
    pub fn new() -> (connection: Self)
        ensures
            connection.wf(),
            connection.created_streams@ == Map::<Seq<u8>, S>::empty(),
            connection.next_stream_id == 0,
    {
        Connection { created_streams: NameTable::new(), next_stream_id: 0 }
    }

    /// Asks for a stream that takes up to `write_size` bytes at once, as of the time `now`.
    pub fn create_stream_bytes_at(
        &mut self,
        name: &[u8],
        write_size: u32,
        now: WallTime,
    ) -> (request: DeviceEvent)
        requires
            name@.len() <= StreamName::MAX_LEN,
            old(self).next_stream_id < u32::MAX,
        ensures
            final(self).created_streams == old(self).created_streams,
            final(self).next_stream_id == old(self).next_stream_id + 1,
            request matches DeviceEvent::CreateStream(header) && event::describes(
                header,
                0,
                EventType::CreateStreamReq,
                name::padded(name@),
                old(self).next_stream_id,
                write_size as int,
                0,
                now,
            ),
    {
        let stream_id: u32 = self.next_stream_id;
        let ev = Event::create_stream_at(stream_id, name, write_size, now);
        self.next_stream_id = self.next_stream_id + 1;
        DeviceEvent::CreateStream(ev.header)
    }

    /// Asks for a stream that takes up to `write_size` bytes at once.
    pub fn create_stream_bytes(&mut self, name: &[u8], write_size: u32) -> (request: DeviceEvent)
        requires
            name@.len() <= StreamName::MAX_LEN,
            old(self).next_stream_id < u32::MAX,
        ensures
            final(self).created_streams == old(self).created_streams,
            final(self).next_stream_id == old(self).next_stream_id + 1,
            request matches DeviceEvent::CreateStream(header) && exists|now: WallTime|
                now.is_shown() && #[trigger] event::describes(
                    header,
                    0,
                    EventType::CreateStreamReq,
                    name::padded(name@),
                    old(self).next_stream_id,
                    write_size as int,
                    0,
                    now,
                ),
    {
        let now = WallTime::now();
        self.create_stream_bytes_at(name, write_size, now)
    }

    /// Asks for a stream that takes up to `write_size` bytes at once.
    pub fn create_stream(&mut self, name: &str, write_size: u32) -> (request: DeviceEvent)
        requires
            name.spec_bytes().len() <= StreamName::MAX_LEN,
            old(self).next_stream_id < u32::MAX,
        ensures
            final(self).created_streams == old(self).created_streams,
            final(self).next_stream_id == old(self).next_stream_id + 1,
            request matches DeviceEvent::CreateStream(header) && exists|now: WallTime|
                now.is_shown() && #[trigger] event::describes(
                    header,
                    0,
                    EventType::CreateStreamReq,
                    name::padded(name.spec_bytes()),
                    old(self).next_stream_id,
                    write_size as int,
                    0,
                    now,
                ),
    {
        self.create_stream_bytes(name.as_bytes(), write_size)
    }

    /// Has an event sent that carries no data.
    pub fn send_event<T>(&self, ev: Event<T>) -> (request: DeviceEvent)
        ensures
            request == DeviceEvent::NormalEvent(ev.header),
    {
        DeviceEvent::NormalEvent(ev.header)
    }

    /// Has the stream of this number written to once in every period.
    pub fn create_watchdog(&self, stream_id: u32, period: Period) -> (request: DeviceEvent)
        ensures
            request == DeviceEvent::CreateWatchDog(stream_id, period),
    {
        DeviceEvent::CreateWatchDog(stream_id, period)
    }

    /// Takes up what came while the answer to a ping is waited for. Anything else is handed
    /// back.
    pub fn wait_for_pong(event: IoEvent<S>) -> (done: Result<(), IoEvent<S>>)
        ensures
            match event {
                IoEvent::Pong => done == Ok::<(), IoEvent<S>>(()),
                _ => done == Err::<(), IoEvent<S>>(event),
            },
    {
        match event {
            IoEvent::Pong => Ok(()),
            o => Err(o),
        }
    }

    /// Takes up what came while the device is expected to go. Anything else is handed back.
    pub fn wait_for_shutdown(event: IoEvent<S>) -> (done: Result<(), IoEvent<S>>)
        ensures
            match event {
                IoEvent::Shutdown => done == Ok::<(), IoEvent<S>>(()),
                _ => done == Err::<(), IoEvent<S>>(event),
            },
    {
        match event {
            IoEvent::Shutdown => Ok(()),
            o => Err(o),
        }
    }

    /// Whether the stream is there, so that there is nothing to wait for.
    pub fn has_stream(&self, name: &StreamName) -> (has: bool)
        requires
            self.wf(),
        ensures
            has == self.created_streams@.dom().contains(name@),
    {
        self.created_streams.get(name).is_some()
    }

    /// Takes up what came while the stream `name` is waited for, and says whether it is there
    /// now. Anything but a stream is handed back.
    pub fn wait_for_stream(&mut self, name: &StreamName, event: IoEvent<S>) -> (done: Result<
        bool,
        IoEvent<S>,
    >)
        requires
            old(self).wf(),
        ensures
            final(self).wf(),
            final(self).next_stream_id == old(self).next_stream_id,
            match event {
                IoEvent::CreatedStream(created, stream) => {
                    &&& done == Ok::<bool, IoEvent<S>>(created@ == name@)
                    &&& final(self).created_streams@ == old(self).created_streams@.insert(
                        created@,
                        stream,
                    )
                },
                _ => {
                    &&& done == Err::<bool, IoEvent<S>>(event)
                    &&& final(self).created_streams@ == old(self).created_streams@
                },
            },
    {
        match event {
            IoEvent::CreatedStream(created_name, stream) => {
                self.created_streams.insert(created_name, stream);
                Ok(created_name.same(name))
            },
            o => Err(o),
        }
    }

    /// Takes the stream of an output queue if it is there. Else it has to be asked for.
    pub fn take_output_queue<O, D>(&mut self, queue: OutputQueue<O, D, Pending>) -> (taken: Result<
        OutputQueue<O, D, Ready<S>>,
        OutputQueue<O, D, Pending>,
    >)
        requires
            old(self).wf(),
        ensures
            final(self).wf(),
            final(self).next_stream_id == old(self).next_stream_id,
            final(self).created_streams@ == old(self).created_streams@.remove(queue.state.0@),
            match taken {
                Ok(ready) => {
                    &&& old(self).created_streams@.dom().contains(queue.state.0@)
                    &&& ready.state.0 == old(self).created_streams@[queue.state.0@]
                },
                Err(pending) => {
                    &&& !old(self).created_streams@.dom().contains(queue.state.0@)
                    &&& pending == queue
                },
            },
    {
        match self.created_streams.remove(&queue.state.0) {
            Some(stream) => Ok(OutputQueue { state: Ready(stream), _pd: PhantomData }),
            None => Err(queue),
        }
    }

    /// Asks for the stream of an output queue, as of the time `now`.
    pub fn request_output_queue_at<O, D>(
        &mut self,
        queue: &OutputQueue<O, D, Pending>,
        now: WallTime,
    ) -> (request: DeviceEvent)
        requires
            old(self).next_stream_id < u32::MAX,
        ensures
            final(self).created_streams == old(self).created_streams,
            final(self).next_stream_id == old(self).next_stream_id + 1,
            request matches DeviceEvent::CreateStream(header) && event::describes(
                header,
                0,
                EventType::CreateStreamReq,
                name::padded(queue.state.0@),
                old(self).next_stream_id,
                bootloader::MAX_PACKET_SIZE as int,
                0,
                now,
            ),
    {
        proof {
            name::find_byte_facts(0, queue.state.0.0@);
        }
        self.create_stream_bytes_at(queue.state.0.as_bytes(), bootloader::MAX_PACKET_SIZE, now)
    }

    /// Takes up what came while the stream of an output queue is waited for. Other streams are
    /// kept for later.
    pub fn wait_for_output_queue<O, D>(
        &mut self,
        queue: OutputQueue<O, D, Pending>,
        event: IoEvent<S>,
    ) -> (wait: QueueWait<O, D, S>)
        requires
            old(self).wf(),
        ensures
            final(self).wf(),
            final(self).next_stream_id == old(self).next_stream_id,
            match event {
                IoEvent::CreatedStream(created, stream) => if created@ == queue.state.0@ {
                    &&& wait matches QueueWait::Ready(ready) && ready.state.0 == stream
                    &&& final(self).created_streams@ == old(self).created_streams@
                } else {
                    &&& wait == QueueWait::<O, D, S>::Waiting(queue)
                    &&& final(self).created_streams@ == old(self).created_streams@.insert(
                        created@,
                        stream,
                    )
                },
                _ => {
                    &&& wait == QueueWait::<O, D, S>::Unexpected(event)
                    &&& final(self).created_streams@ == old(self).created_streams@
                },
            },
    {
        match event {
            IoEvent::CreatedStream(created_name, stream) => if created_name.same(&queue.state.0) {
                QueueWait::Ready(OutputQueue { state: Ready(stream), _pd: PhantomData })
            } else {
                self.created_streams.insert(created_name, stream);
                QueueWait::Waiting(queue)
            },
            o => QueueWait::Unexpected(o),
        }
    }
}

} // verus!
