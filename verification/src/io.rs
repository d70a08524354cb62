//! The exchange with a device: what to send, what to report and what to remember.
//!
//! [`IoState::step`] is the whole of the exchange apart from the waiting. Whoever drives it
//! hands over what happened on the connection or was asked for on the host, and carries out
//! the actions that come back, in their order.

use std::collections::HashSet;

use vstd::prelude::*;

use crate::clock::{Period, WallTime};
use crate::event::{self, Event, EventHeader, EventType, HEADER_LEN};
use crate::name::{self, StreamName};
use crate::table::NameTable;

verus! {

/// The device's end of a stream: how much it sends at once and its number for the stream.
#[derive(Clone, Copy, Debug, PartialEq, Eq, Structural)]
pub struct ReadStreamInfo {
    pub read_size: u32,
    pub id: u32,
}

/// The host's end of a stream: how much it sends at once and its number for the stream.
#[derive(Clone, Copy, Debug, PartialEq, Eq, Structural)]
pub struct WriteStreamInfo {
    pub write_size: u32,
    pub id: u32,
}

/// What the host asks of the exchange as a whole.
pub enum DeviceEvent {
    /// Ask the device for a stream.
    CreateStream(EventHeader),
    /// Send an event that carries no data.
    NormalEvent(EventHeader),
    /// From now on write to the stream of this number once in every period.
    CreateWatchDog(u32, Period),
}

/// What the host asks of one stream.
pub enum StreamEvent {
    Write(EventHeader, Vec<u8>),
    ReadRelease(EventHeader),
}

/// What can happen next.
pub enum IoInput {
    /// The watchdog's period has passed.
    WatchdogTick,
    Device(DeviceEvent),
    Stream(StreamEvent),
    /// These bytes were read from the connection. None means that the device closed it, unless
    /// the bytes of a write are being waited for.
    Read(Vec<u8>),
    /// The device reset the connection.
    ConnectionReset,
}

/// What has to be done.
pub enum IoAction {
    /// Send a header, and data behind it.
    Send(EventHeader, Vec<u8>),
    /// Report that the device answered a ping.
    Pong,
    /// Both sides have granted a stream: report it under its name, and keep it under `key`.
    CreatedStream { key: u32, name: StreamName, read: ReadStreamInfo, write: WriteStreamInfo },
    /// Hand bytes to the reader of the stream kept under this number.
    Deliver(u32, Vec<u8>),
    /// Let the writer of the stream kept under this number go on.
    Notify(u32),
    /// Start to count the watchdog's period.
    StartWatchdog(u32, Period),
    /// Report that the device is gone. The exchange is over.
    Shutdown,
    /// An event that nothing is done about.
    Skip(EventType),
}

/// What breaks off the exchange.
#[derive(Clone, Copy, Debug, PartialEq, Eq, Structural)]
pub enum IoError {
    /// The device sent an event of no known type.
    UnknownEventType(u32),
    /// The device granted a stream that was not asked for.
    UnrequestedStream,
    /// The device wrote to a stream that is not there, or confirmed a write to one.
    UnknownStream(u32),
    /// No number would be left for a message after this one.
    IdsExhausted,
}

enum Pending {
    Header(Vec<u8>),
    Payload(EventHeader, Vec<u8>),
}

/// What is being read.
pub enum PendingView {
    /// A header, of which these bytes have come.
    Header(Seq<u8>),
    /// The data behind a header, of which these bytes have come.
    Payload(EventHeader, Seq<u8>),
}

/// The state of an exchange.
pub struct IoState {
    next_id: u32,
    watchdog: Option<(u32, Period)>,
    requested: NameTable<(WriteStreamInfo, bool)>,
    device_requested: NameTable<ReadStreamInfo>,
    created: HashSet<u32>,
    pending: Pending,
}

/// What an exchange remembers.
pub struct IoView {
    /// The number of the next message that the host sends of its own accord.
    pub next_id: u32,
    /// The stream that the watchdog writes to, and how often.
    pub watchdog: Option<(u32, Period)>,
    /// The streams that the host asked for, each with whether the device has agreed.
    pub requested: Map<Seq<u8>, (WriteStreamInfo, bool)>,
    /// The streams that the device asked for and the host does not have yet.
    pub device_requested: Map<Seq<u8>, ReadStreamInfo>,
    /// The numbers that streams are kept under.
    pub created: Set<u32>,
    pub pending: PendingView,
}

/// [`IoAction`], with data as sequences.
pub enum ActionView {
    Send(EventHeader, Seq<u8>),
    Pong,
    CreatedStream { key: u32, name: StreamName, read: ReadStreamInfo, write: WriteStreamInfo },
    Deliver(u32, Seq<u8>),
    Notify(u32),
    StartWatchdog(u32, Period),
    Shutdown,
    Skip(EventType),
}

impl View for IoAction {
    type V = ActionView;

    open spec fn view(&self) -> ActionView {
        match *self {
            IoAction::Send(header, data) => ActionView::Send(header, data@),
            IoAction::Pong => ActionView::Pong,
            IoAction::CreatedStream { key, name, read, write } => ActionView::CreatedStream {
                key,
                name,
                read,
                write,
            },
            IoAction::Deliver(id, data) => ActionView::Deliver(id, data@),
            IoAction::Notify(id) => ActionView::Notify(id),
            IoAction::StartWatchdog(id, period) => ActionView::StartWatchdog(id, period),
            IoAction::Shutdown => ActionView::Shutdown,
            IoAction::Skip(ty) => ActionView::Skip(ty),
        }
    }
}

/// The views of a list of actions.
pub open spec fn action_views(actions: Seq<IoAction>) -> Seq<ActionView> {
    actions.map_values(|action: IoAction| action@)
}

/// [`IoInput`], with data as sequences.
pub enum InputView {
    WatchdogTick,
    CreateStream(EventHeader),
    NormalEvent(EventHeader),
    CreateWatchDog(u32, Period),
    Write(EventHeader, Seq<u8>),
    ReadRelease(EventHeader),
    Read(Seq<u8>),
    ConnectionReset,
}

impl View for IoInput {
    type V = InputView;

    open spec fn view(&self) -> InputView {
        match *self {
            IoInput::WatchdogTick => InputView::WatchdogTick,
            IoInput::Device(DeviceEvent::CreateStream(header)) => InputView::CreateStream(header),
            IoInput::Device(DeviceEvent::NormalEvent(header)) => InputView::NormalEvent(header),
            IoInput::Device(DeviceEvent::CreateWatchDog(id, period)) => InputView::CreateWatchDog(
                id,
                period,
            ),
            IoInput::Stream(StreamEvent::Write(header, data)) => InputView::Write(header, data@),
            IoInput::Stream(StreamEvent::ReadRelease(header)) => InputView::ReadRelease(header),
            IoInput::Read(bytes) => InputView::Read(bytes@),
            IoInput::ConnectionReset => InputView::ConnectionReset,
        }
    }
}

/// What one step leads to.
pub type Outcome = Result<(IoView, Seq<ActionView>), IoError>;

/// The header with the given contents, sent at `now`.
pub open spec fn header_with(
    id: u32,
    ty: EventType,
    field: Seq<u8>,
    stream_id: u32,
    size: int,
    flags: u32,
    now: WallTime,
) -> EventHeader {
    choose|header: EventHeader|
        event::describes(header, id, ty, field, stream_id, size, flags, now)
}

/// An answer of type `ty` to the event `to`: its number, stream and size, and the flag that
/// marks an answer.
pub open spec fn answer(ty: EventType, to: EventHeader, now: WallTime) -> EventHeader {
    header_with(to.id, ty, to.name.0@, to.stream_id, to.size as int, 1, now)
}

/// The header that stands as `bytes` on the wire.
pub open spec fn parsed(bytes: Seq<u8>) -> EventHeader {
    choose|header: EventHeader| header.bytes() == bytes
}

impl IoView {
    /// The state at the start of an exchange.
    pub open spec fn initial() -> Self {
        IoView {
            next_id: 0,
            watchdog: None,
            requested: Map::empty(),
            device_requested: Map::empty(),
            created: Set::empty(),
            pending: PendingView::Header(Seq::empty()),
        }
    }

    /// How many more bytes of what is being read there are to come.
    pub open spec fn wanted(self) -> int {
        match self.pending {
            PendingView::Header(got) => HEADER_LEN - got.len(),
            PendingView::Payload(header, got) => header.size - got.len(),
        }
    }

    /// A header is taken up as soon as it is complete, and no more is read than is wanted.
    pub open spec fn wf(self) -> bool {
        match self.pending {
            PendingView::Header(got) => got.len() < HEADER_LEN,
            PendingView::Payload(header, got) => got.len() <= header.size,
        }
    }

    /// Sends a message of the host's own: it gets the next number.
    pub open spec fn sends(self, header: EventHeader, data: Seq<u8>) -> Outcome {
        if self.next_id == u32::MAX {
            Err(IoError::IdsExhausted)
        } else {
            Ok(
                (
                    IoView { next_id: (self.next_id + 1) as u32, ..self },
                    seq![ActionView::Send(EventHeader { id: self.next_id, ..header }, data)],
                ),
            )
        }
    }

    /// The stream called `name` is granted by both sides and no longer waited for.
    pub open spec fn granted(self, key: u32, name: Seq<u8>) -> Self {
        IoView {
            requested: self.requested.remove(name),
            device_requested: self.device_requested.remove(name),
            created: self.created.insert(key),
            ..self
        }
    }

    /// The device asks for a stream. It is always granted. If the device has agreed to the
    /// stream of that name that the host asked for, the stream is there; else the request is
    /// remembered.
    pub open spec fn stream_requested(self, header: EventHeader, now: WallTime) -> Outcome {
        let name = header.name@;
        let read = ReadStreamInfo { read_size: header.size, id: header.stream_id };
        let ack = ActionView::Send(
            answer(EventType::CreateStreamResp, header, now),
            Seq::empty(),
        );
        if self.requested.dom().contains(name) && self.requested[name].1 {
            let write = self.requested[name].0;
            Ok(
                (
                    IoView {
                        requested: self.requested.remove(name),
                        created: self.created.insert(write.id),
                        ..self
                    },
                    seq![
                        ack,
                        ActionView::CreatedStream {
                            key: write.id,
                            name: header.name,
                            read,
                            write,
                        },
                    ],
                ),
            )
        } else {
            Ok(
                (
                    IoView { device_requested: self.device_requested.insert(name, read), ..self },
                    seq![ack],
                ),
            )
        }
    }

    /// The device agrees to a stream that the host asked for. If the device has asked for it
    /// too, the stream is there; else that is remembered.
    pub open spec fn stream_agreed(self, header: EventHeader) -> Outcome {
        let name = header.name@;
        if !self.requested.dom().contains(name) {
            Err(IoError::UnrequestedStream)
        } else if self.device_requested.dom().contains(name) {
            Ok(
                (
                    self.granted(header.stream_id, name),
                    seq![
                        ActionView::CreatedStream {
                            key: header.stream_id,
                            name: header.name,
                            read: self.device_requested[name],
                            write: self.requested[name].0,
                        },
                    ],
                ),
            )
        } else {
            Ok(
                (
                    IoView {
                        requested: self.requested.insert(name, (self.requested[name].0, true)),
                        ..self
                    },
                    Seq::empty(),
                ),
            )
        }
    }

    /// A header has come in full.
    pub open spec fn receives(self, header: EventHeader, now: WallTime) -> Outcome {
        match EventType::from_code(header.ty) {
            Err(code) => Err(IoError::UnknownEventType(code)),
            Ok(EventType::CreateStreamReq) => self.stream_requested(header, now),
            Ok(EventType::CreateStreamResp) => self.stream_agreed(header),
            Ok(EventType::ReadRelReq) => Ok(
                (
                    self,
                    seq![
                        ActionView::Send(
                            answer(EventType::ReadRelResp, header, now),
                            Seq::empty(),
                        ),
                    ],
                ),
            ),
            Ok(EventType::PingResp) => Ok((self, seq![ActionView::Pong])),
            Ok(EventType::WriteReq) => Ok(
                (
                    IoView { pending: PendingView::Payload(header, Seq::empty()), ..self },
                    Seq::empty(),
                ),
            ),
            Ok(EventType::WriteResp) => if self.created.contains(header.stream_id) {
                Ok((self, seq![ActionView::Notify(header.stream_id)]))
            } else {
                Err(IoError::UnknownStream(header.stream_id))
            },
            Ok(EventType::ReadResp)
            | Ok(EventType::ReadRelResp)
            | Ok(EventType::ReadRelSpecResp)
            | Ok(EventType::CloseStreamResp) => Ok((self, Seq::empty())),
            Ok(other) => Ok((self, seq![ActionView::Skip(other)])),
        }
    }

    /// The data that the device wrote has come in full: it is handed on, confirmed and
    /// released.
    pub open spec fn written(self, header: EventHeader, data: Seq<u8>, now: WallTime) -> Outcome {
        if self.created.contains(header.stream_id) {
            Ok(
                (
                    IoView { pending: PendingView::Header(Seq::empty()), ..self },
                    seq![
                        ActionView::Deliver(header.stream_id, data),
                        ActionView::Send(answer(EventType::WriteResp, header, now), Seq::empty()),
                        ActionView::Send(answer(EventType::ReadRelReq, header, now), Seq::empty()),
                    ],
                ),
            )
        } else {
            Err(IoError::UnknownStream(header.stream_id))
        }
    }

    /// What the exchange does when `input` happens at the time `now`.
    pub open spec fn step(self, input: InputView, now: WallTime) -> Outcome {
        match input {
            InputView::WatchdogTick => match self.watchdog {
                Some((stream_id, _)) => self.sends(
                    header_with(
                        0,
                        EventType::WriteReq,
                        name::padded(Seq::empty()),
                        stream_id,
                        4,
                        0,
                        now,
                    ),
                    seq![0u8, 0u8, 0u8, 0u8],
                ),
                None => Ok((self, Seq::empty())),
            },
            InputView::CreateStream(header) => IoView {
                requested: self.requested.insert(
                    header.name@,
                    (WriteStreamInfo { write_size: header.size, id: header.stream_id }, false),
                ),
                ..self
            }.sends(header, Seq::empty()),
            InputView::NormalEvent(header) => self.sends(header, Seq::empty()),
            InputView::CreateWatchDog(stream_id, period) => Ok(
                (
                    IoView { watchdog: Some((stream_id, period)), ..self },
                    seq![ActionView::StartWatchdog(stream_id, period)],
                ),
            ),
            InputView::Write(header, data) => self.sends(header, data),
            InputView::ReadRelease(header) => self.sends(header, Seq::empty()),
            InputView::Read(bytes) => match self.pending {
                PendingView::Header(got) => if bytes.len() == 0 {
                    Ok((self, seq![ActionView::Shutdown]))
                } else if got.len() + bytes.len() < HEADER_LEN {
                    Ok((IoView { pending: PendingView::Header(got + bytes), ..self }, Seq::empty()))
                } else {
                    IoView { pending: PendingView::Header(Seq::empty()), ..self }.receives(
                        parsed(got + bytes),
                        now,
                    )
                },
                PendingView::Payload(header, got) => if got.len() + bytes.len() == header.size {
                    self.written(header, got + bytes, now)
                } else {
                    Ok(
                        (
                            IoView { pending: PendingView::Payload(header, got + bytes), ..self },
                            Seq::empty(),
                        ),
                    )
                },
            },
            InputView::ConnectionReset => Ok((self, seq![ActionView::Shutdown])),
        }
    }
}

impl View for IoState {
    type V = IoView;

    closed spec fn view(&self) -> IoView {
        IoView {
            next_id: self.next_id,
            watchdog: self.watchdog,
            requested: self.requested@,
            device_requested: self.device_requested@,
            created: self.created@,
            pending: match self.pending {
                Pending::Header(got) => PendingView::Header(got@),
                Pending::Payload(header, got) => PendingView::Payload(header, got@),
            },
        }
    }
}

/// There is one header with the given contents.
proof fn header_with_is(
    header: EventHeader,
    id: u32,
    ty: EventType,
    field: Seq<u8>,
    stream_id: u32,
    size: int,
    flags: u32,
    now: WallTime,
)
    requires
        event::describes(header, id, ty, field, stream_id, size, flags, now),
    ensures
        header == header_with(id, ty, field, stream_id, size, flags, now),
{
    event::description_determines_header(
        header,
        header_with(id, ty, field, stream_id, size, flags, now),
        id,
        ty,
        field,
        stream_id,
        size,
        flags,
        now,
    );
}

/// Whether a step did what `outcome` says: on success the state and the actions are those of
/// the outcome, and on failure the state is as it was.
pub open spec fn accords(
    before: IoView,
    outcome: Outcome,
    after: IoView,
    done: Result<Vec<IoAction>, IoError>,
) -> bool {
    match outcome {
        Ok((state, actions)) => {
            &&& done is Ok
            &&& after == state
            &&& action_views(done->Ok_0@) == actions
        },
        Err(error) => {
            &&& done == Err::<Vec<IoAction>, IoError>(error)
            &&& after == before
        },
    }
}

fn one(action: IoAction) -> (actions: Vec<IoAction>)
    ensures
        action_views(actions@) == seq![action@],
{
    let mut actions = Vec::new();
    actions.push(action);
    assert(action_views(actions@) =~= seq![action@]);
    actions
}

fn none() -> (actions: Vec<IoAction>)
    ensures
        action_views(actions@) == Seq::<ActionView>::empty(),
{
    let actions = Vec::new();
    assert(action_views(actions@) =~= Seq::<ActionView>::empty());
    actions
}

impl IoState {
    pub closed spec fn tables_wf(&self) -> bool {
        self.requested.wf() && self.device_requested.wf()
    }

    /// Whether the state is one that an exchange can be in.
    pub open spec fn wf(&self) -> bool {
        self.tables_wf() && self@.wf()
    }

    /// The state at the start of an exchange.
    pub fn new() -> (state: Self)
        ensures
            state.wf(),
            state@ == IoView::initial(),
    {
        let state = IoState {
            next_id: 0,
            watchdog: None,
            requested: NameTable::new(),
            device_requested: NameTable::new(),
            created: HashSet::new(),
            pending: Pending::Header(Vec::new()),
        };
        assert(state@.created =~= IoView::initial().created);
        assert(state@.pending == IoView::initial().pending);
        state
    }

    /// How many bytes may be read from the connection next.
    pub fn wanted(&self) -> (wanted: usize)
        requires
            self.wf(),
        ensures
            wanted == self@.wanted(),
    {
        match &self.pending {
            Pending::Header(got) => HEADER_LEN - got.len(),
            Pending::Payload(header, got) => header.size as usize - got.len(),
        }
    }

    /// Whether the data behind a header is being read.
    pub fn awaits_payload(&self) -> (awaits: bool)
        ensures
            awaits == (self@.pending is Payload),
    {
        match &self.pending {
            Pending::Header(_) => false,
            Pending::Payload(_, _) => true,
        }
    }

    fn send(&mut self, header: EventHeader, data: Vec<u8>) -> (done: Result<
        Vec<IoAction>,
        IoError,
    >)
        requires
            old(self).wf(),
        ensures
            final(self).wf(),
            accords(old(self)@, old(self)@.sends(header, data@), final(self)@, done),
    {
        if self.next_id == u32::MAX {
            return Err(IoError::IdsExhausted);
        }
        let mut header = header;
        header.id = self.next_id;
        self.next_id = self.next_id + 1;
        Ok(one(IoAction::Send(header, data)))
    }

    /// An answer to the event `to`, sent with no data.
    fn answering(
        event: EventHeader,
        ty: Ghost<EventType>,
        to: &EventHeader,
        now: WallTime,
    ) -> (action: IoAction)
        requires
            event::describes(event, to.id, ty@, to.name.0@, to.stream_id, to.size as int, 1, now),
        ensures
            action@ == ActionView::Send(answer(ty@, *to, now), Seq::empty()),
    {
        proof {
            header_with_is(event, to.id, ty@, to.name.0@, to.stream_id, to.size as int, 1, now);
        }
        let data: Vec<u8> = Vec::new();
        assert(data@ =~= Seq::empty());
        IoAction::Send(event, data)
    }

    fn stream_requested(&mut self, header: &EventHeader, now: WallTime) -> (done: Result<
        Vec<IoAction>,
        IoError,
    >)
        requires
            old(self).wf(),
        ensures
            final(self).wf(),
            accords(old(self)@, old(self)@.stream_requested(*header, now), final(self)@, done),
    {
        broadcast use vstd::std_specs::hash::group_hash_axioms;

        let field = header.name.borrow();
        assert(name::padded(field@) =~= field@);
        let ack = Event::acknowledge_stream_at(
            header.stream_id,
            field,
            header.size,
            header.id,
            now,
        );
        let mut actions: Vec<IoAction> = Vec::new();
        actions.push(
            Self::answering(ack.header, Ghost(EventType::CreateStreamResp), header, now),
        );
        let read = ReadStreamInfo { read_size: header.size, id: header.stream_id };
        let agreed: Option<WriteStreamInfo> = match self.requested.get(&header.name) {
            Some(entry) => if entry.1 {
                Some(entry.0)
            } else {
                None
            },
            None => None,
        };
        match agreed {
            Some(write) => {
                self.requested.remove(&header.name);
                self.created.insert(write.id);
                actions.push(
                    IoAction::CreatedStream { key: write.id, name: header.name, read, write },
                );
            },
            None => {
                self.device_requested.insert(header.name, read);
            },
        }
        assert(action_views(actions@) =~= old(self)@.stream_requested(*header, now)->Ok_0.1);
        Ok(actions)
    }

    fn stream_agreed(&mut self, header: &EventHeader) -> (done: Result<Vec<IoAction>, IoError>)
        requires
            old(self).wf(),
        ensures
            final(self).wf(),
            accords(old(self)@, old(self)@.stream_agreed(*header), final(self)@, done),
    {
        broadcast use vstd::std_specs::hash::group_hash_axioms;

        let write: WriteStreamInfo = match self.requested.get(&header.name) {
            Some(entry) => entry.0,
            None => return Err(IoError::UnrequestedStream),
        };
        match self.device_requested.remove(&header.name) {
            Some(read) => {
                self.requested.remove(&header.name);
                self.created.insert(header.stream_id);
                Ok(
                    one(
                        IoAction::CreatedStream {
                            key: header.stream_id,
                            name: header.name,
                            read,
                            write,
                        },
                    ),
                )
            },
            None => {
                assert(self.device_requested@ =~= old(self).device_requested@);
                self.requested.insert(header.name, (write, true));
                Ok(none())
            },
        }
    }

    fn receive(&mut self, header: &EventHeader, now: WallTime) -> (done: Result<
        Vec<IoAction>,
        IoError,
    >)
        requires
            old(self).wf(),
        ensures
            final(self).wf(),
            accords(old(self)@, old(self)@.receives(*header, now), final(self)@, done),
    {
        broadcast use vstd::std_specs::hash::group_hash_axioms;

        match EventType::try_from(header.ty) {
            Err(code) => Err(IoError::UnknownEventType(code)),
            Ok(EventType::CreateStreamReq) => self.stream_requested(header, now),
            Ok(EventType::CreateStreamResp) => self.stream_agreed(header),
            Ok(EventType::ReadRelReq) => {
                let field = header.name.borrow();
                assert(name::padded(field@) =~= field@);
                let ack = Event::acknowledge_read_release_at(
                    header.stream_id,
                    field,
                    header.size,
                    header.id,
                    now,
                );
                Ok(one(Self::answering(ack.header, Ghost(EventType::ReadRelResp), header, now)))
            },
            Ok(EventType::PingResp) => Ok(one(IoAction::Pong)),
            Ok(EventType::WriteReq) => {
                self.pending = Pending::Payload(*header, Vec::new());
                assert(self@.pending == PendingView::Payload(*header, Seq::empty()));
                Ok(none())
            },
            Ok(EventType::WriteResp) => if self.created.contains(&header.stream_id) {
                Ok(one(IoAction::Notify(header.stream_id)))
            } else {
                Err(IoError::UnknownStream(header.stream_id))
            },
            Ok(EventType::ReadResp)
            | Ok(EventType::ReadRelResp)
            | Ok(EventType::ReadRelSpecResp)
            | Ok(EventType::CloseStreamResp) => Ok(none()),
            Ok(other) => Ok(one(IoAction::Skip(other))),
        }
    }

    /// Hands on, confirms and releases what the device wrote to a stream that is there.
    fn written(&self, header: &EventHeader, data: Vec<u8>, now: WallTime) -> (actions: Vec<
        IoAction,
    >)
        requires
            self@.created.contains(header.stream_id),
        ensures
            action_views(actions@) == self@.written(*header, data@, now)->Ok_0.1,
    {
        let field = header.name.borrow();
        assert(name::padded(field@) =~= field@);
        let ack = Event::acknowledge_write_at(
            header.stream_id,
            field,
            header.size,
            header.id,
            now,
        );
        let release = Event::read_release_at(
            header.stream_id,
            field,
            header.size,
            header.id,
            now,
        );
        let mut actions: Vec<IoAction> = Vec::new();
        actions.push(IoAction::Deliver(header.stream_id, data));
        actions.push(Self::answering(ack.header, Ghost(EventType::WriteResp), header, now));
        actions.push(Self::answering(release.header, Ghost(EventType::ReadRelReq), header, now));
        assert(action_views(actions@) =~= self@.written(*header, data@, now)->Ok_0.1);
        actions
    }

    fn read(&mut self, bytes: Vec<u8>, now: WallTime) -> (done: Result<Vec<IoAction>, IoError>)
        requires
            old(self).wf(),
            bytes@.len() <= old(self)@.wanted(),
        ensures
            final(self).wf(),
            accords(old(self)@, old(self)@.step(InputView::Read(bytes@), now), final(self)@, done),
    {
        broadcast use vstd::std_specs::hash::group_hash_axioms;

        let mut pending = Pending::Header(Vec::new());
        core::mem::swap(&mut pending, &mut self.pending);
        assert(self@.pending == PendingView::Header(Seq::empty()));
        match pending {
            Pending::Header(mut all) => {
                let ghost got = all@;
                let len: usize = all.len();
                if bytes.len() == 0 {
                    self.pending = Pending::Header(all);
                    return Ok(one(IoAction::Shutdown));
                }
                all.extend_from_slice(bytes.as_slice());
                assert(all@ =~= got + bytes@);
                if all.len() < HEADER_LEN {
                    self.pending = Pending::Header(all);
                    return Ok(none());
                }
                let header = EventHeader::parse(all.as_slice());
                proof {
                    event::header_bytes_determine_it(header, parsed(all@));
                }
                let done = self.receive(&header, now);
                if done.is_err() {
                    all.truncate(len);
                    assert(all@ =~= got);
                    self.pending = Pending::Header(all);
                }
                done
            },
            Pending::Payload(header, mut all) => {
                let ghost got = all@;
                let len: usize = all.len();
                all.extend_from_slice(bytes.as_slice());
                assert(all@ =~= got + bytes@);
                if all.len() < header.size as usize {
                    self.pending = Pending::Payload(header, all);
                    Ok(none())
                } else if self.created.contains(&header.stream_id) {
                    Ok(self.written(&header, all, now))
                } else {
                    all.truncate(len);
                    assert(all@ =~= got);
                    self.pending = Pending::Payload(header, all);
                    Err(IoError::UnknownStream(header.stream_id))
                }
            },
        }
    }

    /// Takes up what happened at the time `now`, and says what has to be done about it.
    pub fn step(&mut self, input: IoInput, now: WallTime) -> (done: Result<
        Vec<IoAction>,
        IoError,
    >)
        requires
            old(self).wf(),
            input@ matches InputView::Read(bytes) ==> bytes.len() <= old(self)@.wanted(),
        ensures
            final(self).wf(),
            accords(old(self)@, old(self)@.step(input@, now), final(self)@, done),
    {
        match input {
            IoInput::WatchdogTick => match self.watchdog {
                Some((stream_id, _)) => {
                    let name: [u8; 0] = [];
                    assert(name@ =~= Seq::<u8>::empty());
                    let mut data: Vec<u8> = Vec::new();
                    data.push(0);
                    data.push(0);
                    data.push(0);
                    data.push(0);
                    assert(data@ =~= seq![0u8, 0u8, 0u8, 0u8]);
                    let event = Event::write_at(
                        stream_id,
                        name.as_slice(),
                        data.as_slice(),
                        now,
                    );
                    proof {
                        header_with_is(
                            event.header,
                            0,
                            EventType::WriteReq,
                            name::padded(Seq::empty()),
                            stream_id,
                            4,
                            0,
                            now,
                        );
                    }
                    self.send(event.header, data)
                },
                None => Ok(none()),
            },
            IoInput::Device(DeviceEvent::CreateStream(header)) => {
                if self.next_id == u32::MAX {
                    return Err(IoError::IdsExhausted);
                }
                self.requested.insert(
                    header.name,
                    (WriteStreamInfo { write_size: header.size, id: header.stream_id }, false),
                );
                let data: Vec<u8> = Vec::new();
                assert(data@ =~= Seq::empty());
                self.send(header, data)
            },
            IoInput::Device(DeviceEvent::NormalEvent(header)) => {
                let data: Vec<u8> = Vec::new();
                assert(data@ =~= Seq::empty());
                self.send(header, data)
            },
            IoInput::Device(DeviceEvent::CreateWatchDog(stream_id, period)) => {
                self.watchdog = Some((stream_id, period));
                Ok(one(IoAction::StartWatchdog(stream_id, period)))
            },
            IoInput::Stream(StreamEvent::Write(header, data)) => self.send(header, data),
            IoInput::Stream(StreamEvent::ReadRelease(header)) => {
                let data: Vec<u8> = Vec::new();
                assert(data@ =~= Seq::empty());
                self.send(header, data)
            },
            IoInput::Read(bytes) => self.read(bytes, now),
            IoInput::ConnectionReset => Ok(one(IoAction::Shutdown)),
        }
    }
}

} // verus!
