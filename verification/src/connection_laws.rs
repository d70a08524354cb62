//! What a connection does with its streams, and what it leaves alone.

use vstd::prelude::*;

#[allow(unused_imports)]
use crate::chunks;
#[allow(unused_imports)]
use crate::clock::{Period, WallTime};
#[allow(unused_imports)]
use crate::connection::{BulkWrite, Connection, ConnectionStream, IoEvent, QueueWait};
#[allow(unused_imports)]
use crate::event::{self, Event};
#[allow(unused_imports)]
use crate::io::{DeviceEvent, ReadStreamInfo, StreamEvent, WriteStreamInfo};
#[allow(unused_imports)]
use crate::name::StreamName;
#[allow(unused_imports)]
use crate::pipeline::queue_state::{Pending, Ready};
#[allow(unused_imports)]
use crate::pipeline::OutputQueue;

verus! {

/// A connection starts without streams, and numbers them from zero.
pub proof fn connections_start_without_streams<S>(connection: Connection<S>)
    requires
        call_ensures(Connection::<S>::new, (), connection),
    ensures
        connection.wf(),
        connection.created_streams@.dom() == Set::<Seq<u8>>::empty(),
        connection.next_stream_id == 0,
{
    assert(connection.created_streams@.dom() =~= Set::empty());
}

/// Each stream that is asked for gets the next number, and is asked for by the name and with the
/// size that were given. The streams that are there stay as they are.
pub proof fn streams_are_numbered_in_order<S>(
    connection: &mut Connection<S>,
    name: &[u8],
    write_size: u32,
    now: WallTime,
    request: DeviceEvent,
)
    requires
        name@.len() <= 52,
        call_ensures(
            Connection::<S>::create_stream_bytes_at,
            (connection, name, write_size, now),
            request,
        ),
    ensures
        final(connection).next_stream_id == old(connection).next_stream_id + 1,
        final(connection).created_streams == old(connection).created_streams,
        request matches DeviceEvent::CreateStream(header) && {
            &&& header.id == 0
            &&& header.ty == 3
            &&& header.name.0@.take(name@.len() as int) == name@
            &&& forall|i: int| name@.len() <= i < 52 ==> #[trigger] header.name.0@[i] == 0
            &&& header.stream_id == old(connection).next_stream_id
            &&& header.size == write_size
            &&& header.flags == 0
            &&& header.nsec == now.nanos
            &&& header.sec_lsb + 0x1_0000_0000 * header.sec_msb == now.secs
        },
{
    if let DeviceEvent::CreateStream(header) = request {
        assert(header.name.0@.take(name@.len() as int) =~= name@);
    }
}

/// The stream of a queue is asked for by the queue's name and with the size of a large packet, and
/// gets the next number.
pub proof fn queues_are_asked_for_by_name<S, O, D>(
    connection: &mut Connection<S>,
    queue: &OutputQueue<O, D, Pending>,
    now: WallTime,
    request: DeviceEvent,
)
    requires
        queue.state.0@.len() <= 52,
        call_ensures(
            Connection::<S>::request_output_queue_at::<O, D>,
            (connection, queue, now),
            request,
        ),
    ensures
        final(connection).next_stream_id == old(connection).next_stream_id + 1,
        final(connection).created_streams == old(connection).created_streams,
        request matches DeviceEvent::CreateStream(header) && {
            &&& header.id == 0
            &&& header.ty == 3
            &&& header.name.0@.take(queue.state.0@.len() as int) == queue.state.0@
            &&& header.stream_id == old(connection).next_stream_id
            &&& header.size == 409600
            &&& header.flags == 0
        },
{
    if let DeviceEvent::CreateStream(header) = request {
        assert(header.name.0@.take(queue.state.0@.len() as int) =~= queue.state.0@);
    }
}

/// A stream that comes up is kept under its name, whether it is the one that is waited for or not.
/// The others stay as they are. The wait is over when the stream is the one.
pub proof fn streams_are_kept_by_name<S>(
    connection: &mut Connection<S>,
    name: &StreamName,
    created: StreamName,
    stream: S,
    done: Result<bool, IoEvent<S>>,
    other: Seq<u8>,
)
    requires
        call_ensures(
            Connection::<S>::wait_for_stream,
            (connection, name, IoEvent::CreatedStream(created, stream)),
            done,
        ),
    ensures
        final(connection).created_streams@.dom().contains(created@),
        final(connection).created_streams@[created@] == stream,
        other != created@ ==> final(connection).created_streams@.dom().contains(other)
            == old(connection).created_streams@.dom().contains(other),
        other != created@ ==> final(connection).created_streams@[other]
            == old(connection).created_streams@[other],
        final(connection).next_stream_id == old(connection).next_stream_id,
        done == Ok::<bool, IoEvent<S>>(created@ == name@),
{
}

/// What else happens while a stream is waited for is handed back, and changes nothing.
pub proof fn other_events_are_handed_back<S>(
    connection: &mut Connection<S>,
    name: &StreamName,
    event: IoEvent<S>,
    done: Result<bool, IoEvent<S>>,
)
    requires
        call_ensures(Connection::<S>::wait_for_stream, (connection, name, event), done),
        !(event is CreatedStream),
    ensures
        done == Err::<bool, IoEvent<S>>(event),
        final(connection).created_streams@ == old(connection).created_streams@,
        final(connection).next_stream_id == old(connection).next_stream_id,
{
}

/// A stream is there if and only if it is kept under that name.
pub proof fn kept_streams_are_there<S>(connection: &Connection<S>, name: &StreamName, has: bool)
    requires
        call_ensures(Connection::<S>::has_stream, (connection, name), has),
    ensures
        has <==> connection.created_streams@.dom().contains(name@),
{
}

/// A queue gets the stream of its name if that is there, which is then no longer kept. Else it is
/// handed back. The other streams stay as they are.
pub proof fn queues_take_their_stream<S, O, D>(
    connection: &mut Connection<S>,
    queue: OutputQueue<O, D, Pending>,
    taken: Result<OutputQueue<O, D, Ready<S>>, OutputQueue<O, D, Pending>>,
    other: Seq<u8>,
)
    requires
        call_ensures(
            Connection::<S>::take_output_queue::<O, D>,
            (connection, queue),
            taken,
        ),
    ensures
        taken is Ok <==> old(connection).created_streams@.dom().contains(queue.state.0@),
        taken matches Ok(ready) ==> ready.state.0
            == old(connection).created_streams@[queue.state.0@],
        taken matches Err(pending) ==> pending == queue,
        !final(connection).created_streams@.dom().contains(queue.state.0@),
        other != queue.state.0@ ==> final(connection).created_streams@.dom().contains(other)
            == old(connection).created_streams@.dom().contains(other),
        other != queue.state.0@ && old(connection).created_streams@.dom().contains(other)
            ==> final(connection).created_streams@[other]
            == old(connection).created_streams@[other],
        final(connection).next_stream_id == old(connection).next_stream_id,
{
}

/// A queue that waits gets the stream of its name as soon as it comes up, and no other: any other
/// is kept under its own name while the queue waits on.
pub proof fn queues_wait_for_their_stream<S, O, D>(
    connection: &mut Connection<S>,
    queue: OutputQueue<O, D, Pending>,
    created: StreamName,
    stream: S,
    wait: QueueWait<O, D, S>,
)
    requires
        call_ensures(
            Connection::<S>::wait_for_output_queue::<O, D>,
            (connection, queue, IoEvent::CreatedStream(created, stream)),
            wait,
        ),
    ensures
        created@ == queue.state.0@ ==> (wait matches QueueWait::Ready(ready) && ready.state.0
            == stream) && final(connection).created_streams@ == old(connection).created_streams@,
        created@ != queue.state.0@ ==> wait == QueueWait::<O, D, S>::Waiting(queue)
            && final(connection).created_streams@
            == old(connection).created_streams@.insert(created@, stream),
        final(connection).next_stream_id == old(connection).next_stream_id,
{
}

/// What else happens while a queue waits is unexpected, and changes nothing.
pub proof fn other_events_are_unexpected<S, O, D>(
    connection: &mut Connection<S>,
    queue: OutputQueue<O, D, Pending>,
    event: IoEvent<S>,
    wait: QueueWait<O, D, S>,
)
    requires
        call_ensures(
            Connection::<S>::wait_for_output_queue::<O, D>,
            (connection, queue, event),
            wait,
        ),
        !(event is CreatedStream),
    ensures
        wait == QueueWait::<O, D, S>::Unexpected(event),
        final(connection).created_streams@ == old(connection).created_streams@,
        final(connection).next_stream_id == old(connection).next_stream_id,
{
}

/// Who waits for the answer to a ping, or for the end, is done when that happens, and is handed
/// what happens instead.
pub proof fn waits_end_with_their_event<S>(
    event: IoEvent<S>,
    pong: Result<(), IoEvent<S>>,
    end: Result<(), IoEvent<S>>,
)
    requires
        call_ensures(Connection::<S>::wait_for_pong, (event,), pong),
        call_ensures(Connection::<S>::wait_for_shutdown, (event,), end),
    ensures
        pong is Ok <==> event is Pong,
        pong matches Err(other) ==> other == event,
        end is Ok <==> event is Shutdown,
        end matches Err(other) ==> other == event,
{
}

/// What is sent over a connection or a stream is handed on as it is.
pub proof fn messages_are_handed_on<S, T>(
    connection: &Connection<S>,
    stream: &ConnectionStream,
    message: Event<T>,
    data: Vec<u8>,
    stream_id: u32,
    period: Period,
    event: DeviceEvent,
    watchdog: DeviceEvent,
    write: StreamEvent,
)
    requires
        call_ensures(Connection::<S>::send_event::<T>, (connection, message), event),
        call_ensures(
            Connection::<S>::create_watchdog,
            (connection, stream_id, period),
            watchdog,
        ),
        call_ensures(ConnectionStream::write::<T>, (stream, message, data), write),
    ensures
        event == DeviceEvent::NormalEvent(message.header),
        watchdog == DeviceEvent::CreateWatchDog(stream_id, period),
        write == StreamEvent::Write(message.header, data),
{
}

/// A stream has what both sides asked for.
pub proof fn streams_have_both_sides(
    read: ReadStreamInfo,
    write: WriteStreamInfo,
    stream: ConnectionStream,
)
    requires
        call_ensures(ConnectionStream::new, (read, write), stream),
    ensures
        stream.read == read,
        stream.write == write,
{
}

/// A large write starts at the start of the data, and is to the number that the host writes to.
pub proof fn large_writes_start_at_the_start(
    stream: &ConnectionStream,
    data: Vec<u8>,
    split_by: usize,
    writes: BulkWrite,
)
    requires
        call_ensures(ConnectionStream::bulk_write, (stream, data, split_by), writes),
    ensures
        writes.stream_id() == stream.write.id,
        writes.data() == data@,
        writes.split_by() == split_by,
        writes.offset() == 0,
{
}

/// A large write goes out in pieces: each is what stands behind the one before it, of the length
/// of a piece or of what is left, and is written to the stream with its own length. It ends when
/// nothing is left, and not before.
pub proof fn large_writes_go_out_in_pieces(
    writes: &mut BulkWrite,
    now: WallTime,
    request: Option<StreamEvent>,
)
    requires
        call_ensures(BulkWrite::next_at, (writes, now), request),
    ensures
        final(writes).data() == old(writes).data(),
        final(writes).split_by() == old(writes).split_by(),
        final(writes).stream_id() == old(writes).stream_id(),
        request is Some <==> old(writes).offset() < old(writes).data().len(),
        request is None ==> final(writes).offset() == old(writes).offset(),
        request matches Some(sent) ==> {
            let left = old(writes).data().skip(old(writes).offset() as int);
            &&& final(writes).offset() == old(writes).offset() + old(writes).split_by()
            &&& sent matches StreamEvent::Write(header, data) && {
                &&& data@ == if old(writes).split_by() <= left.len() {
                    left.take(old(writes).split_by() as int)
                } else {
                    left
                }
                &&& header.id == 0
                &&& header.ty == 0
                &&& forall|i: int| 0 <= i < 52 ==> #[trigger] header.name.0@[i] == 0
                &&& header.stream_id == old(writes).stream_id()
                &&& data@.len() <= u32::MAX ==> header.size == data@.len()
                &&& header.flags == 0
                &&& header.nsec == now.nanos
                &&& header.sec_lsb + 0x1_0000_0000 * header.sec_msb == now.secs
            }
        },
{
    if let Some(StreamEvent::Write(header, data)) = request {
        let left = old(writes).data().skip(old(writes).offset() as int);
        if old(writes).split_by() <= left.len() {
            assert(data@ =~= left.take(old(writes).split_by() as int));
        } else {
            assert(data@ =~= left);
        }
    }
}

} // verus!
