//! What an exchange does about each event, and what it leaves alone.

use vstd::prelude::*;

#[allow(unused_imports)]
use crate::clock::{Period, WallTime};
#[allow(unused_imports)]
use crate::event::{self, EventHeader, EventType};
#[allow(unused_imports)]
use crate::io::{
    self, ActionView, DeviceEvent, InputView, IoAction, IoError, IoInput, IoState, IoView,
    PendingView, ReadStreamInfo, StreamEvent, WriteStreamInfo,
};
#[allow(unused_imports)]
use crate::io_laws;
#[allow(unused_imports)]
use crate::name::{self, StreamName};

verus! {

/// What is handed to a step is what happened, with nothing left out.
pub proof fn inputs_are_seen_in_full(input: IoInput)
    ensures
        input is WatchdogTick <==> input@ is WatchdogTick,
        input is ConnectionReset <==> input@ is ConnectionReset,
        input matches IoInput::Read(bytes) ==> input@ == InputView::Read(bytes@),
        input matches IoInput::Device(DeviceEvent::CreateStream(header)) ==> input@
            == InputView::CreateStream(header),
        input matches IoInput::Device(DeviceEvent::NormalEvent(header)) ==> input@
            == InputView::NormalEvent(header),
        input matches IoInput::Device(DeviceEvent::CreateWatchDog(id, period)) ==> input@
            == InputView::CreateWatchDog(id, period),
        input matches IoInput::Stream(StreamEvent::Write(header, data)) ==> input@
            == InputView::Write(header, data@),
        input matches IoInput::Stream(StreamEvent::ReadRelease(header)) ==> input@
            == InputView::ReadRelease(header),
{
}

/// What has to be done is what a step says, with nothing left out.
pub proof fn actions_are_seen_in_full(action: IoAction)
    ensures
        action is Pong <==> action@ is Pong,
        action is Shutdown <==> action@ is Shutdown,
        action@ is Send <==> action is Send,
        action matches IoAction::Send(header, data) ==> action@ == ActionView::Send(header, data@),
        action@ is CreatedStream <==> action is CreatedStream,
        action matches IoAction::CreatedStream { key, name, read, write } ==> action@
            == (ActionView::CreatedStream { key, name, read, write }),
        action@ is Deliver <==> action is Deliver,
        action matches IoAction::Deliver(id, data) ==> action@ == ActionView::Deliver(id, data@),
        action@ is Notify <==> action is Notify,
        action matches IoAction::Notify(id) ==> action@ == ActionView::Notify(id),
        action@ is StartWatchdog <==> action is StartWatchdog,
        action matches IoAction::StartWatchdog(id, period) ==> action@
            == ActionView::StartWatchdog(id, period),
        action@ is Skip <==> action is Skip,
        action matches IoAction::Skip(ty) ==> action@ == ActionView::Skip(ty),
{
}

/// A step that succeeds leads to the state and gives the actions, in their order, that it should;
/// one that fails gives the error that it should and changes nothing.
pub proof fn steps_do_what_they_should(
    before: IoView,
    outcome: io::Outcome,
    after: IoView,
    done: Result<Vec<IoAction>, IoError>,
)
    requires
        io::accords(before, outcome, after, done),
    ensures
        outcome matches Ok((state, actions)) ==> {
            &&& after == state
            &&& done matches Ok(list) && list@.len() == actions.len() && forall|i: int|
                0 <= i < actions.len() ==> (#[trigger] list@[i])@ == actions[i]
        },
        outcome matches Err(error) ==> {
            &&& after == before
            &&& done == Err::<Vec<IoAction>, IoError>(error)
        },
{
    if let Ok((state, actions)) = outcome {
        let list = done->Ok_0@;
        assert(io::action_views(list) == actions);
        assert forall|i: int| 0 <= i < actions.len() implies (#[trigger] list[i])@
            == actions[i] by {
            assert(io::action_views(list)[i] == list[i]@);
        }
    }
}

/// An exchange starts with nothing: no message has been sent, no stream was asked for or is
/// there, nothing is written to at intervals, and nothing of a header has come.
pub proof fn exchanges_start_with_nothing()
    ensures
        IoView::initial().next_id == 0,
        IoView::initial().watchdog is None,
        IoView::initial().requested.dom() == Set::<Seq<u8>>::empty(),
        IoView::initial().device_requested.dom() == Set::<Seq<u8>>::empty(),
        IoView::initial().created == Set::<u32>::empty(),
        IoView::initial().pending == PendingView::Header(Seq::empty()),
{
    assert(IoView::initial().requested.dom() =~= Set::empty());
    assert(IoView::initial().device_requested.dom() =~= Set::empty());
}

/// The rest of the header, or of the data behind one, is what is wanted, and no more.
pub proof fn the_rest_is_wanted(state: IoView)
    ensures
        state.pending matches PendingView::Header(got) ==> state.wanted() == 84 - got.len(),
        state.pending matches PendingView::Payload(header, got) ==> state.wanted() == header.size
            - got.len(),
{
}

/// An answer repeats the number, the name, the stream and the size of what it answers, and
/// carries the flag of an answer and the time.
proof fn answer_fields(ty: EventType, to: EventHeader, now: WallTime)
    ensures
        io::answer(ty, to, now).id == to.id,
        io::answer(ty, to, now).ty == ty.spec_code(),
        io::answer(ty, to, now).name.0@ == to.name.0@,
        io::answer(ty, to, now).name == to.name,
        io::answer(ty, to, now).stream_id == to.stream_id,
        io::answer(ty, to, now).size == to.size,
        io::answer(ty, to, now).flags == 1,
        io::answer(ty, to, now).nsec == now.nanos,
        io::answer(ty, to, now).sec_lsb + 0x1_0000_0000 * io::answer(ty, to, now).sec_msb
            == now.secs,
{
    io_laws::answers_repeat_what_they_answer(ty, to, now);
    assert(io::answer(ty, to, now).name.0 =~= to.name.0);
}

/// A header that is complete is taken up.
proof fn complete(
    state: IoView,
    got: Seq<u8>,
    bytes: Seq<u8>,
    header: EventHeader,
    now: WallTime,
)
    requires
        state.pending == PendingView::Header(got),
        bytes.len() > 0,
        got + bytes == header.bytes(),
    ensures
        state.step(InputView::Read(bytes), now) == (IoView {
            pending: PendingView::Header(Seq::empty()),
            ..state
        }).receives(header, now),
{
    io_laws::headers_are_received_as_they_were_sent(header);
    event::header_layout(header);
    assert((got + bytes).len() == 84);
}

/// Every release of the device is answered, whatever its stream, and nothing else comes of it.
pub proof fn read_releases_are_answered(
    state: IoView,
    got: Seq<u8>,
    bytes: Seq<u8>,
    header: EventHeader,
    now: WallTime,
)
    requires
        state.pending == PendingView::Header(got),
        bytes.len() > 0,
        got + bytes == header.bytes(),
        header.ty == 2,
    ensures
        state.step(InputView::Read(bytes), now) matches Ok((after, actions)) && {
            &&& after == (IoView { pending: PendingView::Header(Seq::empty()), ..state })
            &&& actions.len() == 1
            &&& actions[0] matches ActionView::Send(answer, data) && {
                &&& data.len() == 0
                &&& answer.id == header.id
                &&& answer.ty == 10
                &&& answer.name == header.name
                &&& answer.stream_id == header.stream_id
                &&& answer.size == header.size
                &&& answer.flags == 1
                &&& answer.nsec == now.nanos
                &&& answer.sec_lsb + 0x1_0000_0000 * answer.sec_msb == now.secs
            }
        },
{
    complete(state, got, bytes, header, now);
    event::event_type_round_trip(EventType::ReadRelReq);
    answer_fields(EventType::ReadRelResp, header, now);
}

/// Every stream that the device asks for is granted. Where the device has agreed to the host's
/// request for the same name, the stream is reported under the host's number, with the sizes and
/// numbers of both sides; else the device's request is remembered. Nothing else changes.
pub proof fn stream_requests_are_answered(
    state: IoView,
    got: Seq<u8>,
    bytes: Seq<u8>,
    header: EventHeader,
    now: WallTime,
)
    requires
        state.pending == PendingView::Header(got),
        bytes.len() > 0,
        got + bytes == header.bytes(),
        header.ty == 3,
    ensures
        state.step(InputView::Read(bytes), now) matches Ok((after, actions)) && {
            let name = header.name@;
            let agreed = state.requested.dom().contains(name) && state.requested[name].1;
            &&& after.next_id == state.next_id
            &&& after.watchdog == state.watchdog
            &&& after.pending == PendingView::Header(Seq::empty())
            &&& actions.len() == if agreed {
                2int
            } else {
                1
            }
            &&& actions[0] matches ActionView::Send(answer, data) && {
                &&& data.len() == 0
                &&& answer.id == header.id
                &&& answer.ty == 11
                &&& answer.name == header.name
                &&& answer.stream_id == header.stream_id
                &&& answer.size == header.size
                &&& answer.flags == 1
                &&& answer.nsec == now.nanos
                &&& answer.sec_lsb + 0x1_0000_0000 * answer.sec_msb == now.secs
            }
            &&& agreed ==> {
                &&& actions[1] matches ActionView::CreatedStream {
                    key,
                    name: reported,
                    read,
                    write,
                } && {
                    &&& key == state.requested[name].0.id
                    &&& reported == header.name
                    &&& read.read_size == header.size
                    &&& read.id == header.stream_id
                    &&& write == state.requested[name].0
                }
                &&& after.requested == state.requested.remove(name)
                &&& after.device_requested == state.device_requested
                &&& after.created == state.created.insert(state.requested[name].0.id)
            }
            &&& !agreed ==> {
                &&& after.requested == state.requested
                &&& after.device_requested.dom() == state.device_requested.dom().insert(name)
                &&& after.device_requested[name].read_size == header.size
                &&& after.device_requested[name].id == header.stream_id
                &&& forall|other: Seq<u8>|
                    other != name ==> after.device_requested[other]
                        == #[trigger] state.device_requested[other]
                &&& after.created == state.created
            }
        },
{
    complete(state, got, bytes, header, now);
    event::event_type_round_trip(EventType::CreateStreamReq);
    answer_fields(EventType::CreateStreamResp, header, now);
    let after = state.step(InputView::Read(bytes), now)->Ok_0.0;
    let name = header.name@;
    assert(!(state.requested.dom().contains(name) && state.requested[name].1)
        ==> after.device_requested.dom() =~= state.device_requested.dom().insert(name));
}

/// The device's agreement to a stream that was not asked for ends the exchange. To one that was,
/// it completes the stream if the device has asked for it too, which is then reported with what
/// each side asked for; else it is remembered. Nothing else changes.
pub proof fn agreements_are_taken_up(
    state: IoView,
    got: Seq<u8>,
    bytes: Seq<u8>,
    header: EventHeader,
    now: WallTime,
)
    requires
        state.pending == PendingView::Header(got),
        bytes.len() > 0,
        got + bytes == header.bytes(),
        header.ty == 11,
    ensures
        !state.requested.dom().contains(header.name@) ==> state.step(
            InputView::Read(bytes),
            now,
        ) == Err::<(IoView, Seq<ActionView>), IoError>(IoError::UnrequestedStream),
        state.requested.dom().contains(header.name@) ==> (state.step(
            InputView::Read(bytes),
            now,
        ) matches Ok((after, actions)) && {
            let name = header.name@;
            let asked = state.device_requested.dom().contains(name);
            &&& after.next_id == state.next_id
            &&& after.watchdog == state.watchdog
            &&& after.pending == PendingView::Header(Seq::empty())
            &&& asked ==> {
                &&& actions.len() == 1
                &&& actions[0] matches ActionView::CreatedStream {
                    key,
                    name: reported,
                    read,
                    write,
                } && {
                    &&& key == header.stream_id
                    &&& reported == header.name
                    &&& read == state.device_requested[name]
                    &&& write == state.requested[name].0
                }
                &&& after.requested == state.requested.remove(name)
                &&& after.device_requested == state.device_requested.remove(name)
                &&& after.created == state.created.insert(header.stream_id)
            }
            &&& !asked ==> {
                &&& actions.len() == 0
                &&& after.requested.dom() == state.requested.dom()
                &&& after.requested[name].0 == state.requested[name].0
                &&& after.requested[name].1
                &&& forall|other: Seq<u8>|
                    other != name ==> after.requested[other] == #[trigger] state.requested[other]
                &&& after.device_requested == state.device_requested
                &&& after.created == state.created
            }
        }),
{
    complete(state, got, bytes, header, now);
    event::event_type_round_trip(EventType::CreateStreamResp);
    let name = header.name@;
    if state.requested.dom().contains(name) {
        let after = state.step(InputView::Read(bytes), now)->Ok_0.0;
        assert(!state.device_requested.dom().contains(name) ==> after.requested.dom()
            =~= state.requested.dom());
    }
}

/// The answer to a ping is reported, and nothing else comes of it.
pub proof fn pongs_are_reported(
    state: IoView,
    got: Seq<u8>,
    bytes: Seq<u8>,
    header: EventHeader,
    now: WallTime,
)
    requires
        state.pending == PendingView::Header(got),
        bytes.len() > 0,
        got + bytes == header.bytes(),
        header.ty == 13,
    ensures
        state.step(InputView::Read(bytes), now) == Ok::<_, IoError>(
            (
                IoView { pending: PendingView::Header(Seq::empty()), ..state },
                seq![ActionView::Pong],
            ),
        ),
{
    complete(state, got, bytes, header, now);
    event::event_type_round_trip(EventType::PingResp);
}

/// What the device confirms as written lets the writer of that stream go on, and nothing else
/// comes of it. A stream that is not there ends the exchange.
pub proof fn confirmations_release_writers(
    state: IoView,
    got: Seq<u8>,
    bytes: Seq<u8>,
    header: EventHeader,
    now: WallTime,
)
    requires
        state.pending == PendingView::Header(got),
        bytes.len() > 0,
        got + bytes == header.bytes(),
        header.ty == 8,
    ensures
        state.step(InputView::Read(bytes), now) == if state.created.contains(header.stream_id) {
            Ok::<_, IoError>(
                (
                    IoView { pending: PendingView::Header(Seq::empty()), ..state },
                    seq![ActionView::Notify(header.stream_id)],
                ),
            )
        } else {
            Err(IoError::UnknownStream(header.stream_id))
        },
{
    complete(state, got, bytes, header, now);
    event::event_type_round_trip(EventType::WriteResp);
}

/// When the device announces a write, as much data as it announces is read next. Nothing is done
/// before all of it has come, whatever the stream.
pub proof fn announced_data_is_waited_for(
    state: IoView,
    got: Seq<u8>,
    bytes: Seq<u8>,
    header: EventHeader,
    now: WallTime,
)
    requires
        state.pending == PendingView::Header(got),
        bytes.len() > 0,
        got + bytes == header.bytes(),
        header.ty == 0,
    ensures
        state.step(InputView::Read(bytes), now) matches Ok((after, actions)) && {
            &&& actions.len() == 0
            &&& after == (IoView { pending: PendingView::Payload(header, Seq::empty()), ..state })
            &&& after.wanted() == header.size
        },
{
    complete(state, got, bytes, header, now);
    event::event_type_round_trip(EventType::WriteReq);
}

/// Data that has come in full is delivered to the reader of the stream as it came, however it
/// came, and then confirmed and released, each with the number, the name, the stream and the size
/// of the write. The next header is read then. A stream that is not there ends the exchange.
pub proof fn complete_data_is_delivered(
    state: IoView,
    header: EventHeader,
    got: Seq<u8>,
    bytes: Seq<u8>,
    now: WallTime,
)
    requires
        state.pending == PendingView::Payload(header, got),
        got.len() + bytes.len() == header.size,
    ensures
        !state.created.contains(header.stream_id) ==> state.step(InputView::Read(bytes), now)
            == Err::<(IoView, Seq<ActionView>), IoError>(
            IoError::UnknownStream(header.stream_id),
        ),
        state.created.contains(header.stream_id) ==> (state.step(
            InputView::Read(bytes),
            now,
        ) matches Ok((after, actions)) && {
            &&& after == (IoView { pending: PendingView::Header(Seq::empty()), ..state })
            &&& actions.len() == 3
            &&& actions[0] == ActionView::Deliver(header.stream_id, got + bytes)
            &&& forall|i: int|
                1 <= i <= 2 ==> (#[trigger] actions[i] matches ActionView::Send(answer, data) && {
                    &&& data.len() == 0
                    &&& answer.id == header.id
                    &&& answer.ty == if i == 1 {
                        8u32
                    } else {
                        2u32
                    }
                    &&& answer.name == header.name
                    &&& answer.stream_id == header.stream_id
                    &&& answer.size == header.size
                    &&& answer.flags == 1
                    &&& answer.nsec == now.nanos
                    &&& answer.sec_lsb + 0x1_0000_0000 * answer.sec_msb == now.secs
                })
        }),
{
    answer_fields(EventType::WriteResp, header, now);
    answer_fields(EventType::ReadRelReq, header, now);
}

/// Data that has not come in full is kept, with what had come before it, and nothing is done.
pub proof fn incomplete_data_is_kept(
    state: IoView,
    header: EventHeader,
    got: Seq<u8>,
    bytes: Seq<u8>,
    now: WallTime,
)
    requires
        state.pending == PendingView::Payload(header, got),
        got.len() + bytes.len() < header.size,
    ensures
        state.step(InputView::Read(bytes), now) == Ok::<_, IoError>(
            (
                IoView { pending: PendingView::Payload(header, got + bytes), ..state },
                Seq::<ActionView>::empty(),
            ),
        ),
{
}

/// A header that has not come in full is kept, with what had come before it, and nothing is done.
pub proof fn incomplete_headers_are_kept(
    state: IoView,
    got: Seq<u8>,
    bytes: Seq<u8>,
    now: WallTime,
)
    requires
        state.pending == PendingView::Header(got),
        bytes.len() > 0,
        got.len() + bytes.len() < 84,
    ensures
        state.step(InputView::Read(bytes), now) == Ok::<_, IoError>(
            (
                IoView { pending: PendingView::Header(got + bytes), ..state },
                Seq::<ActionView>::empty(),
            ),
        ),
{
}

/// Answers that call for nothing are passed over in silence.
pub proof fn settled_answers_are_passed_over(
    state: IoView,
    got: Seq<u8>,
    bytes: Seq<u8>,
    header: EventHeader,
    now: WallTime,
)
    requires
        state.pending == PendingView::Header(got),
        bytes.len() > 0,
        got + bytes == header.bytes(),
        header.ty == 9 || header.ty == 10 || header.ty == 12 || header.ty == 25,
    ensures
        state.step(InputView::Read(bytes), now) == Ok::<_, IoError>(
            (
                IoView { pending: PendingView::Header(Seq::empty()), ..state },
                Seq::<ActionView>::empty(),
            ),
        ),
{
    complete(state, got, bytes, header, now);
    event::event_type_round_trip(EventType::ReadResp);
    event::event_type_round_trip(EventType::ReadRelResp);
    event::event_type_round_trip(EventType::CloseStreamResp);
    event::event_type_round_trip(EventType::ReadRelSpecResp);
}

/// Events of any other known type are named and passed over.
pub proof fn other_events_are_named(
    state: IoView,
    got: Seq<u8>,
    bytes: Seq<u8>,
    header: EventHeader,
    now: WallTime,
)
    requires
        state.pending == PendingView::Header(got),
        bytes.len() > 0,
        got + bytes == header.bytes(),
        header.ty == 1 || 4 <= header.ty <= 7 || 14 <= header.ty <= 24,
    ensures
        state.step(InputView::Read(bytes), now) matches Ok((after, actions)) && {
            &&& after == (IoView { pending: PendingView::Header(Seq::empty()), ..state })
            &&& actions.len() == 1
            &&& actions[0] matches ActionView::Skip(ty) && ty.spec_code() == header.ty
        },
{
    complete(state, got, bytes, header, now);
    event::event_type_codes(header.ty);
}

/// Events of no known type end the exchange.
pub proof fn unknown_events_end_the_exchange(
    state: IoView,
    got: Seq<u8>,
    bytes: Seq<u8>,
    header: EventHeader,
    now: WallTime,
)
    requires
        state.pending == PendingView::Header(got),
        bytes.len() > 0,
        got + bytes == header.bytes(),
        header.ty > 25,
    ensures
        state.step(InputView::Read(bytes), now) == Err::<(IoView, Seq<ActionView>), IoError>(
            IoError::UnknownEventType(header.ty),
        ),
{
    complete(state, got, bytes, header, now);
    event::event_type_codes(header.ty);
}

/// Where a header is read next, the end of what there is to read is the end of the exchange, and
/// so is a reset of the connection at any time.
pub proof fn ends_are_reported(state: IoView, got: Seq<u8>, now: WallTime)
    ensures
        state.pending == PendingView::Header(got) ==> state.step(
            InputView::Read(Seq::empty()),
            now,
        ) == Ok::<_, IoError>((state, seq![ActionView::Shutdown])),
        state.step(InputView::ConnectionReset, now) == Ok::<_, IoError>(
            (state, seq![ActionView::Shutdown]),
        ),
{
}

/// A request for a stream is sent under the next number and remembered with its size and its
/// number, as one that the device has not agreed to. No other request is forgotten or changed,
/// and nothing else changes.
pub proof fn requests_are_sent_and_remembered(state: IoView, header: EventHeader, now: WallTime)
    requires
        state.next_id < u32::MAX,
    ensures
        state.step(InputView::CreateStream(header), now) matches Ok((after, actions)) && {
            let name = header.name@;
            &&& actions == seq![
                ActionView::Send(EventHeader { id: state.next_id, ..header }, Seq::empty()),
            ]
            &&& after.next_id == state.next_id + 1
            &&& after.requested.dom() == state.requested.dom().insert(name)
            &&& after.requested[name].0.write_size == header.size
            &&& after.requested[name].0.id == header.stream_id
            &&& !after.requested[name].1
            &&& forall|other: Seq<u8>|
                other != name ==> after.requested[other] == #[trigger] state.requested[other]
            &&& after.device_requested == state.device_requested
            &&& after.created == state.created
            &&& after.watchdog == state.watchdog
            &&& after.pending == state.pending
        },
{
    let after = state.step(InputView::CreateStream(header), now)->Ok_0.0;
    assert(after.requested.dom() =~= state.requested.dom().insert(header.name@));
}

/// To send a message takes a number and changes nothing else.
pub proof fn sending_takes_a_number(
    state: IoView,
    header: EventHeader,
    data: Seq<u8>,
    now: WallTime,
)
    requires
        state.next_id < u32::MAX,
    ensures
        state.step(InputView::Write(header, data), now)->Ok_0.0 == (IoView {
            next_id: (state.next_id + 1) as u32,
            ..state
        }),
        state.step(InputView::NormalEvent(header), now)->Ok_0.0 == (IoView {
            next_id: (state.next_id + 1) as u32,
            ..state
        }),
        state.step(InputView::ReadRelease(header), now)->Ok_0.0 == (IoView {
            next_id: (state.next_id + 1) as u32,
            ..state
        }),
        state.step(InputView::Write(header, data), now) is Ok,
        state.step(InputView::NormalEvent(header), now) is Ok,
        state.step(InputView::ReadRelease(header), now) is Ok,
{
}

/// A watchdog takes the place of any before it, and changes nothing else.
pub proof fn watchdogs_are_started(state: IoView, id: u32, period: Period, now: WallTime)
    ensures
        state.step(InputView::CreateWatchDog(id, period), now) == Ok::<_, IoError>(
            (
                IoView { watchdog: Some((id, period)), ..state },
                seq![ActionView::StartWatchdog(id, period)],
            ),
        ),
{
}

/// Whenever its period has passed, the watchdog writes four zeros to its stream under the next
/// number. Without a watchdog nothing is done.
pub proof fn watchdogs_write_zeros(state: IoView, now: WallTime)
    requires
        state.next_id < u32::MAX,
    ensures
        state.watchdog is None ==> state.step(InputView::WatchdogTick, now) == Ok::<_, IoError>(
            (state, Seq::<ActionView>::empty()),
        ),
        state.watchdog matches Some((id, _)) ==> (state.step(
            InputView::WatchdogTick,
            now,
        ) matches Ok((after, actions)) && {
            &&& after == (IoView { next_id: (state.next_id + 1) as u32, ..state })
            &&& actions.len() == 1
            &&& actions[0] matches ActionView::Send(header, data) && {
                &&& data == seq![0u8, 0u8, 0u8, 0u8]
                &&& header.id == state.next_id
                &&& header.ty == 0
                &&& forall|i: int| 0 <= i < 52 ==> #[trigger] header.name.0@[i] == 0
                &&& header.stream_id == id
                &&& header.size == 4
                &&& header.flags == 0
                &&& header.nsec == now.nanos
                &&& header.sec_lsb + 0x1_0000_0000 * header.sec_msb == now.secs
            }
        }),
{
    if let Some((stream_id, _)) = state.watchdog {
        let field = vstd::array::spec_array_fill_for_copy_type::<u8, 52>(0u8);
        assert(field@ =~= name::padded(Seq::empty()));
        let header = EventHeader {
            id: 0,
            ty: EventType::WriteReq.spec_code(),
            name: StreamName(field),
            nsec: now.nanos,
            sec_lsb: (now.secs % 0x1_0000_0000) as u32,
            sec_msb: (now.secs / 0x1_0000_0000) as u32,
            stream_id,
            size: 4,
            flags: 0,
        };
        let empty = name::padded(Seq::empty());
        assert(event::describes(header, 0, EventType::WriteReq, empty, stream_id, 4, 0, now));
        let sent = io::header_with(0, EventType::WriteReq, empty, stream_id, 4, 0, now);
        assert(event::describes(sent, 0, EventType::WriteReq, empty, stream_id, 4, 0, now));
        assert(sent.name.0@ == empty);
    }
}

/// Whether a header of type `ty` with this name is complete with what is read.
pub open spec fn completes(state: IoView, input: InputView, ty: u32, name: Seq<u8>) -> bool {
    &&& input matches InputView::Read(bytes)
    &&& state.pending matches PendingView::Header(got)
    &&& bytes.len() > 0
    &&& got.len() + bytes.len() >= 84
    &&& io::parsed(got + bytes).ty == ty
    &&& io::parsed(got + bytes).name@ == name
}

/// Whether a stream of this name is reported.
pub open spec fn reports(actions: Seq<ActionView>, name: Seq<u8>) -> bool {
    exists|at: int|
        0 <= at < actions.len() && (#[trigger] actions[at] matches ActionView::CreatedStream {
            key: _,
            name: reported,
            read: _,
            write: _,
        } && reported@ == name)
}

/// A stream that the host asked for stays asked for, with its size, its number and whether the
/// device has agreed, until it is reported: only a new request of the same name, the device's
/// agreement to it, and the report of it change anything.
pub proof fn requests_stay_until_reported(
    state: IoView,
    input: InputView,
    now: WallTime,
    name: Seq<u8>,
)
    requires
        state.step(input, now) is Ok,
        state.requested.dom().contains(name),
        !(input matches InputView::CreateStream(header) && header.name@ == name),
    ensures
        ({
            let (after, actions) = state.step(input, now)->Ok_0;
            if reports(actions, name) {
                !after.requested.dom().contains(name)
            } else {
                &&& after.requested.dom().contains(name)
                &&& after.requested[name].0 == state.requested[name].0
                &&& after.requested[name].1 == (state.requested[name].1 || completes(
                    state,
                    input,
                    11,
                    name,
                ))
            }
        }),
{
    taken_up(state, input, now);
    let (after, actions) = state.step(input, now)->Ok_0;
    if !after.requested.dom().contains(name) {
        assert(actions[actions.len() - 1] is CreatedStream);
    }
}

/// Nothing is asked for but what the host asks for.
pub proof fn requests_are_the_hosts(
    state: IoView,
    input: InputView,
    now: WallTime,
    name: Seq<u8>,
)
    requires
        state.step(input, now) is Ok,
        state.step(input, now)->Ok_0.0.requested.dom().contains(name),
    ensures
        state.requested.dom().contains(name) || (input matches InputView::CreateStream(header)
            && header.name@ == name),
{
}

/// A stream that the device asked for stays asked for, with its size and its number, until it is
/// reported or asked for anew.
pub proof fn device_requests_stay_until_reported(
    state: IoView,
    input: InputView,
    now: WallTime,
    name: Seq<u8>,
)
    requires
        state.step(input, now) is Ok,
        state.device_requested.dom().contains(name),
        !completes(state, input, 3, name),
    ensures
        ({
            let (after, actions) = state.step(input, now)->Ok_0;
            if reports(actions, name) {
                !after.device_requested.dom().contains(name)
            } else {
                &&& after.device_requested.dom().contains(name)
                &&& after.device_requested[name] == state.device_requested[name]
            }
        }),
{
    taken_up(state, input, now);
    let (after, actions) = state.step(input, now)->Ok_0;
    if after.device_requested.dom() != state.device_requested.dom() {
        assert(actions[actions.len() - 1] is CreatedStream || completes(
            state,
            input,
            3,
            io::parsed(state.pending->Header_0 + input->Read_0).name@,
        ));
    }
}

/// Nothing is remembered as asked for by the device but what the device asks for.
pub proof fn device_requests_are_the_devices(
    state: IoView,
    input: InputView,
    now: WallTime,
    name: Seq<u8>,
)
    requires
        state.step(input, now) is Ok,
        state.step(input, now)->Ok_0.0.device_requested.dom().contains(name),
    ensures
        state.device_requested.dom().contains(name) || completes(state, input, 3, name),
{
    taken_up(state, input, now);
}

/// A stream is there only once it is reported, and then under the number of the report.
pub proof fn streams_are_there_once_reported(
    state: IoView,
    input: InputView,
    now: WallTime,
    id: u32,
)
    requires
        state.step(input, now) is Ok,
        state.step(input, now)->Ok_0.0.created.contains(id),
    ensures
        state.created.contains(id) || exists|at: int|
            0 <= at < state.step(input, now)->Ok_0.1.len() && (#[trigger] state.step(
                input,
                now,
            )->Ok_0.1[at] matches ActionView::CreatedStream { key, name: _, read: _, write: _ }
                && key == id),
{
    let (after, actions) = state.step(input, now)->Ok_0;
    if !state.created.contains(id) {
        assert(actions[actions.len() - 1] is CreatedStream);
    }
}

/// The watchdog is what the host last set it to.
pub proof fn watchdogs_stay(state: IoView, input: InputView, now: WallTime)
    requires
        state.step(input, now) is Ok,
        !(input is CreateWatchDog),
    ensures
        state.step(input, now)->Ok_0.0.watchdog == state.watchdog,
{
}

/// What is being read changes by reading alone.
pub proof fn only_reading_reads(state: IoView, input: InputView, now: WallTime)
    requires
        state.step(input, now) is Ok,
        !(input is Read),
    ensures
        state.step(input, now)->Ok_0.0.pending == state.pending,
{
}

/// What the type of a header that is complete stands for.
proof fn taken_up(state: IoView, input: InputView, now: WallTime)
    ensures
        input matches InputView::Read(bytes) ==> (state.pending matches PendingView::Header(got)
            ==> {
            let header = io::parsed(got + bytes);
            &&& EventType::from_code(header.ty) == Ok::<_, u32>(EventType::CreateStreamReq)
                <==> header.ty == 3
            &&& EventType::from_code(header.ty) == Ok::<_, u32>(EventType::CreateStreamResp)
                <==> header.ty == 11
        }),
{
    if let InputView::Read(bytes) = input {
        if let PendingView::Header(got) = state.pending {
            let header = io::parsed(got + bytes);
            event::event_type_codes(header.ty);
            event::event_type_round_trip(EventType::CreateStreamReq);
            event::event_type_round_trip(EventType::CreateStreamResp);
        }
    }
}

/// The exchange breaks off only where the device sends an event of no known type, agrees to a
/// stream that was not asked for, or speaks of a stream that is not there, or where the numbers
/// for messages have run out.
pub proof fn failures_have_a_cause(state: IoView, input: InputView, now: WallTime)
    requires
        state.step(input, now) is Err,
    ensures
        match state.step(input, now)->Err_0 {
            IoError::UnknownEventType(code) => code > 25 && input is Read,
            IoError::UnrequestedStream => input is Read && state.pending is Header && ({
                let header = io::parsed(state.pending->Header_0 + input->Read_0);
                header.ty == 11 && !state.requested.dom().contains(header.name@)
            }),
            IoError::UnknownStream(id) => input is Read && !state.created.contains(id),
            IoError::IdsExhausted => state.next_id == u32::MAX && io_laws::speaks(state, input),
        },
{
    taken_up(state, input, now);
    if let InputView::Read(bytes) = input {
        if let PendingView::Header(got) = state.pending {
            event::event_type_codes(io::parsed(got + bytes).ty);
        }
    }
}

/// Where the numbers for messages have run out, nothing more can be sent.
pub proof fn numbers_run_out(state: IoView, input: InputView, now: WallTime)
    requires
        state.next_id == u32::MAX,
        io_laws::speaks(state, input),
    ensures
        state.step(input, now) == Err::<(IoView, Seq<ActionView>), IoError>(IoError::IdsExhausted),
{
}

/// Whatever happens, a stream that the host asked for stays asked for, with its size and its
/// number, and so does the device's agreement to it, unless the stream is reported, or is asked
/// for anew by the same name.
pub proof fn steps_forget_no_request(
    state: &mut IoState,
    input: IoInput,
    now: WallTime,
    done: Result<Vec<IoAction>, IoError>,
    name: Seq<u8>,
)
    requires
        call_ensures(IoState::step, (state, input, now), done),
        old(state)@.requested.dom().contains(name),
        !(input matches IoInput::Device(DeviceEvent::CreateStream(header)) && header.name@ == name),
        done matches Ok(actions) ==> forall|i: int|
            0 <= i < actions@.len() ==> !(#[trigger] actions@[i] matches IoAction::CreatedStream {
                key: _,
                name: reported,
                read: _,
                write: _,
            } && reported@ == name),
    ensures
        final(state)@.requested.dom().contains(name),
        final(state)@.requested[name].0 == old(state)@.requested[name].0,
        old(state)@.requested[name].1 ==> final(state)@.requested[name].1,
{
    let before = old(state)@;
    let outcome = before.step(input@, now);
    steps_do_what_they_should(before, outcome, final(state)@, done);
    inputs_are_seen_in_full(input);
    if let Ok((after, actions)) = outcome {
        requests_stay_until_reported(before, input@, now, name);
        if reports(actions, name) {
            let at = choose|at: int|
                0 <= at < actions.len() && (
                #[trigger] actions[at] matches ActionView::CreatedStream {
                    key: _,
                    name: reported,
                    read: _,
                    write: _,
                } && reported@ == name);
            assert(done->Ok_0@[at]@ == actions[at]);
            actions_are_seen_in_full(done->Ok_0@[at]);
        }
    }
}

/// A request for a stream is remembered beside all those that were made before it.
pub proof fn steps_remember_requests(
    state: &mut IoState,
    header: EventHeader,
    now: WallTime,
    done: Result<Vec<IoAction>, IoError>,
)
    requires
        call_ensures(
            IoState::step,
            (state, IoInput::Device(DeviceEvent::CreateStream(header)), now),
            done,
        ),
        old(state)@.next_id < u32::MAX,
    ensures
        final(state)@.requested.dom() == old(state)@.requested.dom().insert(header.name@),
        final(state)@.requested[header.name@].0.write_size == header.size,
        final(state)@.requested[header.name@].0.id == header.stream_id,
        !final(state)@.requested[header.name@].1,
        forall|other: Seq<u8>|
            other != header.name@ ==> final(state)@.requested[other]
                == #[trigger] old(state)@.requested[other],
{
    let input = IoInput::Device(DeviceEvent::CreateStream(header));
    inputs_are_seen_in_full(input);
    requests_are_sent_and_remembered(old(state)@, header, now);
    steps_do_what_they_should(
        old(state)@,
        old(state)@.step(input@, now),
        final(state)@,
        done,
    );
}

/// In every state, a release that comes in full is answered once, with its own number, name,
/// stream and size, and the exchange goes on as before.
pub proof fn steps_answer_releases(
    state: &mut IoState,
    got: Seq<u8>,
    bytes: Vec<u8>,
    header: EventHeader,
    now: WallTime,
    done: Result<Vec<IoAction>, IoError>,
)
    requires
        call_ensures(IoState::step, (state, IoInput::Read(bytes), now), done),
        old(state)@.pending == PendingView::Header(got),
        bytes@.len() > 0,
        got + bytes@ == header.bytes(),
        header.ty == 2,
    ensures
        final(state)@ == (IoView { pending: PendingView::Header(Seq::empty()), ..old(state)@ }),
        done matches Ok(actions) && {
            &&& actions@.len() == 1
            &&& actions@[0] matches IoAction::Send(answer, data) && {
                &&& data@.len() == 0
                &&& answer.id == header.id
                &&& answer.ty == 10
                &&& answer.name == header.name
                &&& answer.stream_id == header.stream_id
                &&& answer.size == header.size
                &&& answer.flags == 1
            }
        },
{
    let input = IoInput::Read(bytes);
    inputs_are_seen_in_full(input);
    read_releases_are_answered(old(state)@, got, bytes@, header, now);
    let outcome = old(state)@.step(input@, now);
    steps_do_what_they_should(old(state)@, outcome, final(state)@, done);
    let actions = outcome->Ok_0.1;
    assert(done->Ok_0@[0]@ == actions[0]);
    actions_are_seen_in_full(done->Ok_0@[0]);
}

/// A state is valid while less than a whole header has come, or no more data than was announced.
pub proof fn states_are_valid_while_reading(state: IoView)
    ensures
        state.pending matches PendingView::Header(got) ==> (state.wf() <==> got.len() < 84),
        state.pending matches PendingView::Payload(header, got) ==> (state.wf() <==> got.len()
            <= header.size),
{
}

/// An exchange that begins has nothing behind it.
pub proof fn new_exchanges_are_empty(state: IoState)
    requires
        call_ensures(IoState::new, (), state),
    ensures
        state.wf(),
        state@.next_id == 0,
        state@.watchdog is None,
        forall|name: Seq<u8>| !#[trigger] state@.requested.dom().contains(name),
        forall|name: Seq<u8>| !#[trigger] state@.device_requested.dom().contains(name),
        forall|id: u32| !#[trigger] state@.created.contains(id),
        state@.pending == PendingView::Header(Seq::empty()),
{
}

/// As much is wanted as is left of the header or of the data, and data is awaited between the
/// header that announces it and its end.
pub proof fn reading_is_told(state: &IoState, wanted: usize, awaits: bool)
    requires
        call_ensures(IoState::wanted, (state,), wanted),
        call_ensures(IoState::awaits_payload, (state,), awaits),
    ensures
        state@.pending matches PendingView::Header(got) ==> wanted + got.len() == 84 && !awaits,
        state@.pending matches PendingView::Payload(header, got) ==> wanted + got.len()
            == header.size && awaits,
{
}

} // verus!
