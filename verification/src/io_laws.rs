//! What holds of every exchange, whatever the device sends and the host asks for.

use vstd::prelude::*;

#[allow(unused_imports)]
use crate::clock::WallTime;
#[allow(unused_imports)]
use crate::event::{self, EventHeader, EventType};
#[allow(unused_imports)]
use crate::io::{self, ActionView, InputView, IoView, Outcome, PendingView};

verus! {

/// An answer repeats the number, the name, the stream and the size of what it answers, and
/// carries the flag of an answer and the time it is sent.
pub proof fn answers_repeat_what_they_answer(ty: EventType, to: EventHeader, now: WallTime)
    ensures
        event::describes(
            io::answer(ty, to, now),
            to.id,
            ty,
            to.name.0@,
            to.stream_id,
            to.size as int,
            1,
            now,
        ),
{
    let header = EventHeader {
        id: to.id,
        ty: ty.spec_code(),
        name: to.name,
        nsec: now.nanos,
        sec_lsb: (now.secs % 0x1_0000_0000) as u32,
        sec_msb: (now.secs / 0x1_0000_0000) as u32,
        stream_id: to.stream_id,
        size: to.size,
        flags: 1,
    };
    assert(event::describes(
        header,
        to.id,
        ty,
        to.name.0@,
        to.stream_id,
        to.size as int,
        1,
        now,
    ));
}

/// Whether the host sends a message of its own when `input` happens.
pub open spec fn speaks(state: IoView, input: InputView) -> bool {
    match input {
        InputView::WatchdogTick => state.watchdog is Some,
        InputView::CreateStream(_) => true,
        InputView::NormalEvent(_) => true,
        InputView::Write(_, _) => true,
        InputView::ReadRelease(_) => true,
        _ => false,
    }
}

/// The messages that a host sends of its own accord are numbered one after the other, and
/// nothing else takes a number.
pub proof fn messages_are_numbered_in_order(state: IoView, input: InputView, now: WallTime)
    requires
        state.step(input, now) is Ok,
    ensures
        speaks(state, input) ==> {
            let (after, actions) = state.step(input, now)->Ok_0;
            &&& after.next_id == state.next_id + 1
            &&& actions.len() == 1
            &&& actions[0] is Send
            &&& actions[0]->Send_0.id == state.next_id
        },
        !speaks(state, input) ==> state.step(input, now)->Ok_0.0.next_id == state.next_id,
{
}

/// What the host asked to have sent goes out as it is, but for its number.
pub proof fn messages_go_out_as_they_are(
    state: IoView,
    header: EventHeader,
    data: Seq<u8>,
    now: WallTime,
)
    requires
        state.next_id < u32::MAX,
    ensures
        state.step(InputView::Write(header, data), now)->Ok_0.1 == seq![
            ActionView::Send(EventHeader { id: state.next_id, ..header }, data),
        ],
        state.step(InputView::NormalEvent(header), now)->Ok_0.1 == seq![
            ActionView::Send(EventHeader { id: state.next_id, ..header }, Seq::empty()),
        ],
        state.step(InputView::ReadRelease(header), now)->Ok_0.1 == seq![
            ActionView::Send(EventHeader { id: state.next_id, ..header }, Seq::empty()),
        ],
        state.step(InputView::CreateStream(header), now)->Ok_0.1 == seq![
            ActionView::Send(EventHeader { id: state.next_id, ..header }, Seq::empty()),
        ],
{
}

/// The device may ask for a stream before or after it agrees to the host's request for the
/// same stream: either way the stream is there in the end, the same stream under the same
/// number, and nothing is left to wait for.
pub proof fn either_side_may_ask_first(
    state: IoView,
    request: EventHeader,
    agreement: EventHeader,
    now: WallTime,
    later: WallTime,
)
    requires
        request.ty == EventType::CreateStreamReq.spec_code(),
        agreement.ty == EventType::CreateStreamResp.spec_code(),
        request.name@ == agreement.name@,
        state.requested.dom().contains(request.name@),
        !state.requested[request.name@].1,
        !state.device_requested.dom().contains(request.name@),
        agreement.stream_id == state.requested[request.name@].0.id,
    ensures
        ({
            let name = request.name@;
            let write = state.requested[name].0;
            let read = io::ReadStreamInfo { read_size: request.size, id: request.stream_id };
            let end = IoView {
                requested: state.requested.remove(name),
                created: state.created.insert(write.id),
                ..state
            };
            let ack = ActionView::Send(
                io::answer(EventType::CreateStreamResp, request, now),
                Seq::empty(),
            );
            let late_ack = ActionView::Send(
                io::answer(EventType::CreateStreamResp, request, later),
                Seq::empty(),
            );
            &&& state.receives(request, now) matches Ok((asked, first)) && first == seq![ack]
                && asked.receives(agreement, later) == Ok::<_, io::IoError>(
                (
                    end,
                    seq![
                        ActionView::CreatedStream {
                            key: write.id,
                            name: agreement.name,
                            read,
                            write,
                        },
                    ],
                ),
            )
            &&& state.receives(agreement, now) matches Ok((agreed, first)) && first == Seq::<
                ActionView,
            >::empty() && agreed.receives(request, later) == Ok::<_, io::IoError>(
                (
                    end,
                    seq![
                        late_ack,
                        ActionView::CreatedStream {
                            key: write.id,
                            name: request.name,
                            read,
                            write,
                        },
                    ],
                ),
            )
        }),
{
    event::event_type_round_trip(EventType::CreateStreamReq);
    event::event_type_round_trip(EventType::CreateStreamResp);
    let name = request.name@;
    let write = state.requested[name].0;
    let end = IoView {
        requested: state.requested.remove(name),
        created: state.created.insert(write.id),
        ..state
    };
    let asked = state.receives(request, now)->Ok_0.0;
    let agreed = state.receives(agreement, now)->Ok_0.0;
    assert(asked.receives(agreement, later)->Ok_0.0.device_requested
        =~= state.device_requested);
    assert(asked.receives(agreement, later)->Ok_0.0 == end);
    assert(agreed.receives(request, later)->Ok_0.0.requested =~= end.requested);
    assert(agreed.receives(request, later)->Ok_0.0 == end);
}

/// A stream that the device asks for and one that it agrees to are never both waited for.
pub open spec fn waits_for_one_side(state: IoView) -> bool {
    forall|name: Seq<u8>|
        state.device_requested.dom().contains(name) && #[trigger] state.requested.dom().contains(
            name,
        ) ==> !state.requested[name].1
}

/// At the start of an exchange nothing is waited for.
pub proof fn nothing_is_waited_for_at_first()
    ensures
        IoView::initial().wf(),
        waits_for_one_side(IoView::initial()),
{
}

/// As soon as both sides have agreed to a stream it is there: no step leaves one that the
/// device has both asked for and agreed to among those still waited for.
pub proof fn agreed_streams_do_not_wait(state: IoView, input: InputView, now: WallTime)
    requires
        waits_for_one_side(state),
        state.step(input, now) is Ok,
    ensures
        waits_for_one_side(state.step(input, now)->Ok_0.0),
{
    let after = state.step(input, now)->Ok_0.0;
    assert forall|name: Seq<u8>|
        after.device_requested.dom().contains(name) && #[trigger] after.requested.dom().contains(
            name,
        ) implies !after.requested[name].1 by {
        assert(state.requested.dom().contains(name) || input is CreateStream);
    }
}

/// A stream is reported only when the host has asked for it, with what the host asked for; it
/// is then kept under the number that goes with the report and no longer waited for.
pub proof fn reported_streams_were_asked_for(
    state: IoView,
    input: InputView,
    now: WallTime,
    at: int,
)
    requires
        state.step(input, now) is Ok,
        0 <= at < state.step(input, now)->Ok_0.1.len(),
        state.step(input, now)->Ok_0.1[at] is CreatedStream,
    ensures
        ({
            let (after, actions) = state.step(input, now)->Ok_0;
            let name = actions[at]->CreatedStream_name@;
            &&& state.requested.dom().contains(name)
            &&& actions[at]->write == state.requested[name].0
            &&& after.created == state.created.insert(actions[at]->key)
            &&& !after.requested.dom().contains(name)
        }),
{
}

/// Streams that are there stay.
pub proof fn streams_stay(state: IoView, input: InputView, now: WallTime)
    requires
        state.step(input, now) is Ok,
    ensures
        state.created.subset_of(state.step(input, now)->Ok_0.0.created),
{
}

/// Data is handed only to streams that are there, and writers are released only on those.
pub proof fn only_known_streams_are_served(
    state: IoView,
    input: InputView,
    now: WallTime,
    at: int,
)
    requires
        state.step(input, now) is Ok,
        0 <= at < state.step(input, now)->Ok_0.1.len(),
    ensures
        state.step(input, now)->Ok_0.1[at] matches ActionView::Deliver(id, _)
            ==> state.created.contains(id),
        state.step(input, now)->Ok_0.1[at] matches ActionView::Notify(id)
            ==> state.created.contains(id),
{
}

/// A step keeps to the states that an exchange can be in.
pub proof fn steps_keep_the_state_valid(state: IoView, input: InputView, now: WallTime)
    requires
        state.wf(),
        input matches InputView::Read(bytes) ==> bytes.len() <= state.wanted(),
        state.step(input, now) is Ok,
    ensures
        state.step(input, now)->Ok_0.0.wf(),
{
}

/// A header is received as it was sent.
pub proof fn headers_are_received_as_they_were_sent(header: EventHeader)
    ensures
        io::parsed(header.bytes()) == header,
{
    event::header_bytes_determine_it(header, io::parsed(header.bytes()));
}

/// What the device writes to a stream that is there reaches its reader as it was written. It is
/// confirmed and released once, and the exchange goes on as before.
pub proof fn written_data_is_handed_on(
    state: IoView,
    header: EventHeader,
    data: Seq<u8>,
    now: WallTime,
    later: WallTime,
)
    requires
        state.pending == PendingView::Header(Seq::empty()),
        header.ty == EventType::WriteReq.spec_code(),
        data.len() == header.size,
        state.created.contains(header.stream_id),
    ensures
        ({
            let waiting = IoView {
                pending: PendingView::Payload(header, Seq::empty()),
                ..state
            };
            &&& state.step(InputView::Read(header.bytes()), now) == Ok::<_, io::IoError>(
                (waiting, Seq::<ActionView>::empty()),
            )
            &&& waiting.step(InputView::Read(data), later) == Ok::<_, io::IoError>(
                (
                    state,
                    seq![
                        ActionView::Deliver(header.stream_id, data),
                        ActionView::Send(
                            io::answer(EventType::WriteResp, header, later),
                            Seq::empty(),
                        ),
                        ActionView::Send(
                            io::answer(EventType::ReadRelReq, header, later),
                            Seq::empty(),
                        ),
                    ],
                ),
            )
        }),
{
    headers_are_received_as_they_were_sent(header);
    event::header_layout(header);
    event::event_type_round_trip(EventType::WriteReq);
    assert(Seq::<u8>::empty() + header.bytes() =~= header.bytes());
    assert(Seq::<u8>::empty() + data =~= data);
}

/// What comes of reading `parts` one after the other.
pub open spec fn reads(state: IoView, parts: Seq<Seq<u8>>, now: WallTime) -> Outcome
    decreases parts.len(),
{
    if parts.len() == 0 {
        Ok((state, Seq::empty()))
    } else {
        match state.step(InputView::Read(parts[0]), now) {
            Err(error) => Err(error),
            Ok((next, actions)) => match reads(next, parts.drop_first(), now) {
                Err(error) => Err(error),
                Ok((end, more)) => Ok((end, actions + more)),
            },
        }
    }
}

/// It makes no difference in how many parts the bytes of a header, or of the data behind one,
/// come in.
pub proof fn parts_do_not_matter(state: IoView, parts: Seq<Seq<u8>>, now: WallTime)
    requires
        state.wf(),
        parts.len() > 0,
        forall|i: int| 0 <= i < parts.len() ==> (#[trigger] parts[i]).len() > 0,
        parts.flatten().len() <= state.wanted(),
    ensures
        reads(state, parts, now) == state.step(InputView::Read(parts.flatten()), now),
    decreases parts.len(),
{
    let (first, rest) = (parts[0], parts.drop_first());
    assert(parts.flatten() == first + rest.flatten());
    if rest.len() == 0 {
        assert(rest.flatten() =~= Seq::empty());
        assert(parts.flatten() =~= first);
        assert(reads(state, parts, now) == state.step(InputView::Read(first), now)) by {
            match state.step(InputView::Read(first), now) {
                Ok((next, actions)) => {
                    assert(reads(next, rest, now) == Ok::<_, io::IoError>(
                        (next, Seq::<ActionView>::empty()),
                    ));
                    assert(actions + Seq::<ActionView>::empty() =~= actions);
                },
                Err(_) => {},
            }
        }
    } else {
        assert(rest[0].len() > 0) by {
            assert(rest[0] == parts[1]);
        }
        assert(rest.flatten().len() > 0) by {
            assert(rest.flatten() == rest[0] + rest.drop_first().flatten());
        }
        let next = match state.pending {
            PendingView::Header(got) => IoView {
                pending: PendingView::Header(got + first),
                ..state
            },
            PendingView::Payload(header, got) => IoView {
                pending: PendingView::Payload(header, got + first),
                ..state
            },
        };
        assert(state.step(InputView::Read(first), now) == Ok::<_, io::IoError>(
            (next, Seq::<ActionView>::empty()),
        ));
        assert forall|i: int| 0 <= i < rest.len() implies (#[trigger] rest[i]).len() > 0 by {
            assert(rest[i] == parts[i + 1]);
        }
        parts_do_not_matter(next, rest, now);
        match state.pending {
            PendingView::Header(got) => {
                assert((got + first) + rest.flatten() =~= got + parts.flatten());
            },
            PendingView::Payload(header, got) => {
                assert((got + first) + rest.flatten() =~= got + parts.flatten());
            },
        }
        match reads(next, rest, now) {
            Ok((end, more)) => {
                assert(Seq::<ActionView>::empty() + more =~= more);
            },
            Err(_) => {},
        }
        match state.pending {
            PendingView::Header(got) => {
                assert(IoView { pending: PendingView::Header(Seq::empty()), ..next } == IoView {
                    pending: PendingView::Header(Seq::empty()),
                    ..state
                });
            },
            PendingView::Payload(header, got) => {
                assert(IoView { pending: PendingView::Header(Seq::empty()), ..next } == IoView {
                    pending: PendingView::Header(Seq::empty()),
                    ..state
                });
            },
        }
    }
}

} // verus!
