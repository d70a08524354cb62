//! Event headers and the events that a host sends.

use vstd::prelude::*;
use vstd::std_specs::convert::TryFromSpecImpl;

use crate::clock::WallTime;
use crate::name::{self, StreamName};
use crate::wire;

verus! {

/// What an event asks for or answers.
#[derive(Clone, Copy, Debug, PartialEq, Eq, Structural)]
pub enum EventType {
    WriteReq,
    ReadReq,
    ReadRelReq,
    CreateStreamReq,
    CloseStreamReq,
    PingReq,
    ResetReq,
    RequestLast,
    WriteResp,
    ReadResp,
    ReadRelResp,
    CreateStreamResp,
    CloseStreamResp,
    PingResp,
    ResetResp,
    RespLast,
    IpcWriteReq,
    IpcReadReq,
    IpcCreateStreamReq,
    IpcCloseStreamReq,
    IpcWriteResp,
    IpcReadResp,
    IpcCreateStreamResp,
    IpcCloseStreamResp,
    ReadRelSpecReq,
    ReadRelSpecResp,
}

impl EventType {
    /// The number that stands for the type in a header.
    pub open spec fn spec_code(self) -> u32 {
        match self {
            EventType::WriteReq => 0,
            EventType::ReadReq => 1,
            EventType::ReadRelReq => 2,
            EventType::CreateStreamReq => 3,
            EventType::CloseStreamReq => 4,
            EventType::PingReq => 5,
            EventType::ResetReq => 6,
            EventType::RequestLast => 7,
            EventType::WriteResp => 8,
            EventType::ReadResp => 9,
            EventType::ReadRelResp => 10,
            EventType::CreateStreamResp => 11,
            EventType::CloseStreamResp => 12,
            EventType::PingResp => 13,
            EventType::ResetResp => 14,
            EventType::RespLast => 15,
            EventType::IpcWriteReq => 16,
            EventType::IpcReadReq => 17,
            EventType::IpcCreateStreamReq => 18,
            EventType::IpcCloseStreamReq => 19,
            EventType::IpcWriteResp => 20,
            EventType::IpcReadResp => 21,
            EventType::IpcCreateStreamResp => 22,
            EventType::IpcCloseStreamResp => 23,
            EventType::ReadRelSpecReq => 24,
            EventType::ReadRelSpecResp => 25,
        }
    }

    /// The number that stands for the type in a header.
    #[verifier::when_used_as_spec(spec_code)]
    pub fn code(self) -> (code: u32)
        ensures
            code == self.spec_code(),
    {
        match self {
            EventType::WriteReq => 0,
            EventType::ReadReq => 1,
            EventType::ReadRelReq => 2,
            EventType::CreateStreamReq => 3,
            EventType::CloseStreamReq => 4,
            EventType::PingReq => 5,
            EventType::ResetReq => 6,
            EventType::RequestLast => 7,
            EventType::WriteResp => 8,
            EventType::ReadResp => 9,
            EventType::ReadRelResp => 10,
            EventType::CreateStreamResp => 11,
            EventType::CloseStreamResp => 12,
            EventType::PingResp => 13,
            EventType::ResetResp => 14,
            EventType::RespLast => 15,
            EventType::IpcWriteReq => 16,
            EventType::IpcReadReq => 17,
            EventType::IpcCreateStreamReq => 18,
            EventType::IpcCloseStreamReq => 19,
            EventType::IpcWriteResp => 20,
            EventType::IpcReadResp => 21,
            EventType::IpcCreateStreamResp => 22,
            EventType::IpcCloseStreamResp => 23,
            EventType::ReadRelSpecReq => 24,
            EventType::ReadRelSpecResp => 25,
        }
    }

    /// The type that a number stands for, or the number itself when it stands for none.
    pub open spec fn from_code(code: u32) -> Result<EventType, u32> {
        if exists|ty: EventType| ty.spec_code() == code {
            Ok(choose|ty: EventType| ty.spec_code() == code)
        } else {
            Err(code)
        }
    }
}

impl TryFrom<u32> for EventType {
    type Error = u32;

    fn try_from(f: u32) -> (ty: Result<Self, Self::Error>) {
        let ty = match f {
            0 => EventType::WriteReq,
            1 => EventType::ReadReq,
            2 => EventType::ReadRelReq,
            3 => EventType::CreateStreamReq,
            4 => EventType::CloseStreamReq,
            5 => EventType::PingReq,
            6 => EventType::ResetReq,
            7 => EventType::RequestLast,
            8 => EventType::WriteResp,
            9 => EventType::ReadResp,
            10 => EventType::ReadRelResp,
            11 => EventType::CreateStreamResp,
            12 => EventType::CloseStreamResp,
            13 => EventType::PingResp,
            14 => EventType::ResetResp,
            15 => EventType::RespLast,
            16 => EventType::IpcWriteReq,
            17 => EventType::IpcReadReq,
            18 => EventType::IpcCreateStreamReq,
            19 => EventType::IpcCloseStreamReq,
            20 => EventType::IpcWriteResp,
            21 => EventType::IpcReadResp,
            22 => EventType::IpcCreateStreamResp,
            23 => EventType::IpcCloseStreamResp,
            24 => EventType::ReadRelSpecReq,
            25 => EventType::ReadRelSpecResp,
            o => return Err(o),
        };
        proof {
            event_type_round_trip(ty);
        }
        Ok(ty)
    }
}

impl TryFromSpecImpl<u32> for EventType {
    open spec fn obeys_try_from_spec() -> bool {
        true
    }

    open spec fn try_from_spec(f: u32) -> Result<Self, u32> {
        EventType::from_code(f)
    }
}

/// A type is recovered from the number that stands for it.
pub proof fn event_type_round_trip(ty: EventType)
    ensures
        EventType::from_code(ty.spec_code()) == Ok::<EventType, u32>(ty),
{
    let found = choose|t: EventType| t.spec_code() == ty.spec_code();
    assert(found.spec_code() == ty.spec_code());
    assert(found == ty);
}

/// The numbers up to 25 stand for a type, and the type found for one is that which has it;
/// the others are handed back.
pub proof fn event_type_codes(code: u32)
    ensures
        code <= 25 ==> EventType::from_code(code) is Ok,
        code > 25 ==> EventType::from_code(code) == Err::<EventType, u32>(code),
        EventType::from_code(code) matches Ok(ty) ==> ty.spec_code() == code,
{
    let ty = if code == 0 { EventType::WriteReq }
        else if code == 1 { EventType::ReadReq }
        else if code == 2 { EventType::ReadRelReq }
        else if code == 3 { EventType::CreateStreamReq }
        else if code == 4 { EventType::CloseStreamReq }
        else if code == 5 { EventType::PingReq }
        else if code == 6 { EventType::ResetReq }
        else if code == 7 { EventType::RequestLast }
        else if code == 8 { EventType::WriteResp }
        else if code == 9 { EventType::ReadResp }
        else if code == 10 { EventType::ReadRelResp }
        else if code == 11 { EventType::CreateStreamResp }
        else if code == 12 { EventType::CloseStreamResp }
        else if code == 13 { EventType::PingResp }
        else if code == 14 { EventType::ResetResp }
        else if code == 15 { EventType::RespLast }
        else if code == 16 { EventType::IpcWriteReq }
        else if code == 17 { EventType::IpcReadReq }
        else if code == 18 { EventType::IpcCreateStreamReq }
        else if code == 19 { EventType::IpcCloseStreamReq }
        else if code == 20 { EventType::IpcWriteResp }
        else if code == 21 { EventType::IpcReadResp }
        else if code == 22 { EventType::IpcCreateStreamResp }
        else if code == 23 { EventType::IpcCloseStreamResp }
        else if code == 24 { EventType::ReadRelSpecReq }
        else { EventType::ReadRelSpecResp };
    assert(code <= 25 ==> ty.spec_code() == code);
}

/// The fixed part of every message, in either direction.
#[derive(Clone, Copy)]
pub struct EventHeader {
    pub id: u32,
    pub ty: u32,
    pub name: StreamName,
    pub nsec: u32,
    pub sec_lsb: u32,
    pub sec_msb: u32,
    pub stream_id: u32,
    pub size: u32,
    pub flags: u32,
}

/// The number of bytes that a header takes.
pub const HEADER_LEN: usize = 84;

impl EventHeader {
    /// The header as it stands on the wire.
    pub open spec fn bytes(self) -> Seq<u8> {
        wire::le32(self.id) + wire::le32(self.ty) + self.name.0@ + wire::le32(self.nsec)
            + wire::le32(self.sec_lsb) + wire::le32(self.sec_msb) + wire::le32(self.stream_id)
            + wire::le32(self.size) + wire::le32(self.flags)
    }

    /// Whether the header carries the time `now`.
    pub open spec fn stamped(self, now: WallTime) -> bool {
        &&& self.nsec == now.nanos
        &&& self.sec_lsb + 0x1_0000_0000 * self.sec_msb == now.secs
    }

    /// The header as it stands on the wire.
    pub fn to_bytes(&self) -> (bytes: Vec<u8>)
        ensures
            bytes@ == self.bytes(),
            bytes@.len() == HEADER_LEN,
    {
        broadcast use wire::le32_round_trip;

        let mut bytes = wire::word_bytes(self.id);
        let mut part = wire::word_bytes(self.ty);
        bytes.append(&mut part);
        bytes.extend_from_slice(self.name.borrow());
        part = wire::word_bytes(self.nsec);
        bytes.append(&mut part);
        part = wire::word_bytes(self.sec_lsb);
        bytes.append(&mut part);
        part = wire::word_bytes(self.sec_msb);
        bytes.append(&mut part);
        part = wire::word_bytes(self.stream_id);
        bytes.append(&mut part);
        part = wire::word_bytes(self.size);
        bytes.append(&mut part);
        part = wire::word_bytes(self.flags);
        bytes.append(&mut part);
        assert(bytes@ =~= self.bytes());
        bytes
    }

    /// The header that stands as `bytes` on the wire.
    pub fn parse(bytes: &[u8]) -> (header: Self)
        requires
            bytes@.len() == HEADER_LEN,
        ensures
            header.bytes() == bytes@,
    {
        broadcast use wire::le32_round_trip;

        let header = EventHeader {
            id: wire::read_word(vstd::slice::slice_subrange(bytes, 0, 4)),
            ty: wire::read_word(vstd::slice::slice_subrange(bytes, 4, 8)),
            name: StreamName::from_field(vstd::slice::slice_subrange(bytes, 8, 60)),
            nsec: wire::read_word(vstd::slice::slice_subrange(bytes, 60, 64)),
            sec_lsb: wire::read_word(vstd::slice::slice_subrange(bytes, 64, 68)),
            sec_msb: wire::read_word(vstd::slice::slice_subrange(bytes, 68, 72)),
            stream_id: wire::read_word(vstd::slice::slice_subrange(bytes, 72, 76)),
            size: wire::read_word(vstd::slice::slice_subrange(bytes, 76, 80)),
            flags: wire::read_word(vstd::slice::slice_subrange(bytes, 80, 84)),
        };
        proof {
            wire::from_le32_round_trip(bytes@.subrange(0, 4));
            wire::from_le32_round_trip(bytes@.subrange(4, 8));
            wire::from_le32_round_trip(bytes@.subrange(60, 64));
            wire::from_le32_round_trip(bytes@.subrange(64, 68));
            wire::from_le32_round_trip(bytes@.subrange(68, 72));
            wire::from_le32_round_trip(bytes@.subrange(72, 76));
            wire::from_le32_round_trip(bytes@.subrange(76, 80));
            wire::from_le32_round_trip(bytes@.subrange(80, 84));
            assert(header.bytes() =~= bytes@);
        }
        header
    }

    /// The seconds that the header's two time words hold together.
    pub fn seconds(&self) -> (secs: u64)
        ensures
            secs == self.sec_lsb + 0x1_0000_0000 * self.sec_msb,
    {
        let (lsb, msb) = (self.sec_lsb, self.sec_msb);
        assert((lsb as u64) | ((msb as u64) << 32) == lsb + 0x1_0000_0000 * msb) by (bit_vector);
        (lsb as u64) | ((msb as u64) << 32)
    }
}

/// Where each field of a header stands on the wire.
pub proof fn header_layout(header: EventHeader)
    ensures
        header.bytes().len() == HEADER_LEN,
        wire::from_le32(header.bytes().subrange(0, 4)) == header.id,
        wire::from_le32(header.bytes().subrange(4, 8)) == header.ty,
        header.bytes().subrange(8, 60) == header.name.0@,
        wire::from_le32(header.bytes().subrange(60, 64)) == header.nsec,
        wire::from_le32(header.bytes().subrange(64, 68)) == header.sec_lsb,
        wire::from_le32(header.bytes().subrange(68, 72)) == header.sec_msb,
        wire::from_le32(header.bytes().subrange(72, 76)) == header.stream_id,
        wire::from_le32(header.bytes().subrange(76, 80)) == header.size,
        wire::from_le32(header.bytes().subrange(80, 84)) == header.flags,
{
    broadcast use wire::le32_round_trip;

    let bytes = header.bytes();
    assert(bytes.subrange(0, 4) =~= wire::le32(header.id));
    assert(bytes.subrange(4, 8) =~= wire::le32(header.ty));
    assert(bytes.subrange(8, 60) =~= header.name.0@);
    assert(bytes.subrange(60, 64) =~= wire::le32(header.nsec));
    assert(bytes.subrange(64, 68) =~= wire::le32(header.sec_lsb));
    assert(bytes.subrange(68, 72) =~= wire::le32(header.sec_msb));
    assert(bytes.subrange(72, 76) =~= wire::le32(header.stream_id));
    assert(bytes.subrange(76, 80) =~= wire::le32(header.size));
    assert(bytes.subrange(80, 84) =~= wire::le32(header.flags));
}

/// Two headers that stand as the same bytes on the wire are the same: reading a header gives
/// back the one that was written.
pub proof fn header_bytes_determine_it(a: EventHeader, b: EventHeader)
    requires
        a.bytes() == b.bytes(),
    ensures
        a == b,
{
    header_layout(a);
    header_layout(b);
    assert(a.name.0 =~= b.name.0);
}

/// Whether `header` is that of an event of type `ty` with the given contents, sent at `now`.
pub open spec fn describes(
    header: EventHeader,
    id: u32,
    ty: EventType,
    field: Seq<u8>,
    stream_id: u32,
    size: int,
    flags: u32,
    now: WallTime,
) -> bool {
    &&& header.id == id
    &&& header.ty == ty.spec_code()
    &&& header.name.0@ == field
    &&& header.stamped(now)
    &&& header.stream_id == stream_id
    &&& header.size == size
    &&& header.flags == flags
}

/// The contents of an event fix its header.
pub proof fn description_determines_header(
    a: EventHeader,
    b: EventHeader,
    id: u32,
    ty: EventType,
    field: Seq<u8>,
    stream_id: u32,
    size: int,
    flags: u32,
    now: WallTime,
)
    requires
        describes(a, id, ty, field, stream_id, size, flags, now),
        describes(b, id, ty, field, stream_id, size, flags, now),
    ensures
        a == b,
{
    assert(a.name.0 =~= b.name.0);
}

/// The length of `data` as the 32-bit size field of a header holds it.
pub open spec fn wire_size(data: Seq<u8>) -> int {
    data.len() as int % 0x1_0000_0000
}

/// The length of `data` as the 32-bit size field of a header holds it.
fn size_of(data: &[u8]) -> (size: u32)
    ensures
        size == wire_size(data@),
{
    let len: u64 = data.len() as u64;
    assert(len as u32 == len % 0x1_0000_0000) by (bit_vector);
    len as u32
}

/// A header together with what it announces.
pub struct Event<T> {
    pub header: EventHeader,
    pub data: T,
}

impl<T> Event<T> {
    /// An event that carries `data`, which takes `size` bytes, at the time `now`. It has not
    /// been numbered yet.
    pub fn at(
        data: T,
        size: u32,
        name: &[u8],
        ty: u32,
        stream_id: u32,
        flags: u32,
        now: WallTime,
    ) -> (event: Self)
        requires
            name@.len() <= StreamName::MAX_LEN,
        ensures
            event.data == data,
            event.header.id == 0,
            event.header.ty == ty,
            event.header.name.0@ == name::padded(name@),
            event.header.stamped(now),
            event.header.stream_id == stream_id,
            event.header.size == size,
            event.header.flags == flags,
    {
        let secs: u64 = now.secs;
        assert((secs as u32) + 0x1_0000_0000 * ((secs >> 32) as u32) == secs) by (bit_vector);
        let header = EventHeader {
            id: 0,
            ty,
            name: StreamName::new(name).unwrap(),
            nsec: now.nanos,
            sec_lsb: secs as u32,
            sec_msb: (secs >> 32) as u32,
            stream_id,
            size,
            flags,
        };
        Event { header, data }
    }

    /// An event that carries `data`, which takes `size` bytes, at the current time.
    pub fn new(
        data: T,
        size: u32,
        name: &[u8],
        ty: u32,
        stream_id: u32,
        flags: u32,
    ) -> (event: Self)
        requires
            name@.len() <= StreamName::MAX_LEN,
        ensures
            event.data == data,
            event.header.id == 0,
            event.header.ty == ty,
            event.header.name.0@ == name::padded(name@),
            exists|now: WallTime| now.is_shown() && #[trigger] event.header.stamped(now),
            event.header.stream_id == stream_id,
            event.header.size == size,
            event.header.flags == flags,
    {
        let now = WallTime::now();
        let event = Event::at(data, size, name, ty, stream_id, flags, now);
        assert(now.is_shown() && event.header.stamped(now));
        event
    }
}

/// Asks the device whether it is there.
#[derive(Clone, Copy, Default)]
pub struct Ping;

impl Event<Ping> {
    /// A ping, at the time `now`.
    pub fn ping_at(now: WallTime) -> (event: Self)
        ensures
            describes(
                event.header,
                0,
                EventType::PingReq,
                name::padded(Seq::empty()),
                0,
                0,
                0,
                now,
            ),
    {
        let name: [u8; 0] = [];
        let event = Event::at(Ping, 0, name.as_slice(), EventType::PingReq.code(), 0, 0, now);
        assert(event.header.name.0@ =~= name::padded(Seq::empty()));
        event
    }

    /// A ping, at the current time.
    pub fn ping() -> (event: Self)
        ensures
            exists|now: WallTime|
                now.is_shown() && #[trigger] describes(
                    event.header,
                    0,
                    EventType::PingReq,
                    name::padded(Seq::empty()),
                    0,
                    0,
                    0,
                    now,
                ),
    {
        let now = WallTime::now();
        let event = Self::ping_at(now);
        assert(now.is_shown() && describes(
            event.header,
            0,
            EventType::PingReq,
            name::padded(Seq::empty()),
            0,
            0,
            0,
            now,
        ));
        event
    }
}

/// Asks for a stream.
#[derive(Clone, Copy, Default)]
pub struct CreateStream;

impl Event<CreateStream> {
    /// A request for a stream that takes up to `write_size` bytes at once, at the time `now`.
    pub fn create_stream_at(
        stream_id: u32,
        name: &[u8],
        write_size: u32,
        now: WallTime,
    ) -> (event: Self)
        requires
            name@.len() <= StreamName::MAX_LEN,
        ensures
            describes(
                event.header,
                0,
                EventType::CreateStreamReq,
                name::padded(name@),
                stream_id,
                write_size as int,
                0,
                now,
            ),
    {
        let event = Event::at(
            CreateStream,
            write_size,
            name,
            EventType::CreateStreamReq.code(),
            stream_id,
            0,
            now,
        );
        event
    }

    /// A request for a stream that takes up to `write_size` bytes at once, at the current time.
    pub fn create_stream(stream_id: u32, name: &[u8], write_size: u32) -> (event: Self)
        requires
            name@.len() <= StreamName::MAX_LEN,
        ensures
            exists|now: WallTime|
                now.is_shown() && #[trigger] describes(
                    event.header,
                    0,
                    EventType::CreateStreamReq,
                    name::padded(name@),
                    stream_id,
                    write_size as int,
                    0,
                    now,
                ),
    {
        let now = WallTime::now();
        let event = Self::create_stream_at(stream_id, name, write_size, now);
        assert(now.is_shown() && describes(
            event.header,
            0,
            EventType::CreateStreamReq,
            name::padded(name@),
            stream_id,
            write_size as int,
            0,
            now,
        ));
        event
    }
}

/// Grants a stream that the device asked for.
#[derive(Clone, Copy, Default)]
pub struct AckStream;

impl Event<AckStream> {
    /// The answer to the request `id` for a stream, at the time `now`.
    pub fn acknowledge_stream_at(
        stream_id: u32,
        name: &[u8],
        write_size: u32,
        id: u32,
        now: WallTime,
    ) -> (event: Self)
        requires
            name@.len() <= StreamName::MAX_LEN,
        ensures
            describes(
                event.header,
                id,
                EventType::CreateStreamResp,
                name::padded(name@),
                stream_id,
                write_size as int,
                1,
                now,
            ),
    {
        let mut event = Event::at(
            AckStream,
            write_size,
            name,
            EventType::CreateStreamResp.code(),
            stream_id,
            1,
            now,
        );
        event.header.id = id;
        event
    }

    /// The answer to the request `id` for a stream, at the current time.
    pub fn acknowledge_stream(
        stream_id: u32,
        name: &[u8],
        write_size: u32,
        id: u32,
    ) -> (event: Self)
        requires
            name@.len() <= StreamName::MAX_LEN,
        ensures
            exists|now: WallTime|
                now.is_shown() && #[trigger] describes(
                    event.header,
                    id,
                    EventType::CreateStreamResp,
                    name::padded(name@),
                    stream_id,
                    write_size as int,
                    1,
                    now,
                ),
    {
        let now = WallTime::now();
        let event = Self::acknowledge_stream_at(stream_id, name, write_size, id, now);
        assert(now.is_shown() && describes(
            event.header,
            id,
            EventType::CreateStreamResp,
            name::padded(name@),
            stream_id,
            write_size as int,
            1,
            now,
        ));
        event
    }
}

/// Confirms that the device may reuse a buffer.
#[derive(Clone, Copy, Default)]
pub struct AckReadRel;

impl Event<AckReadRel> {
    /// The answer to the read release `id`, at the time `now`.
    pub fn acknowledge_read_release_at(
        stream_id: u32,
        name: &[u8],
        size: u32,
        id: u32,
        now: WallTime,
    ) -> (event: Self)
        requires
            name@.len() <= StreamName::MAX_LEN,
        ensures
            describes(
                event.header,
                id,
                EventType::ReadRelResp,
                name::padded(name@),
                stream_id,
                size as int,
                1,
                now,
            ),
    {
        let mut event = Event::at(
            AckReadRel,
            size,
            name,
            EventType::ReadRelResp.code(),
            stream_id,
            1,
            now,
        );
        event.header.id = id;
        event
    }

    /// The answer to the read release `id`, at the current time.
    pub fn acknowledge_read_release(
        stream_id: u32,
        name: &[u8],
        size: u32,
        id: u32,
    ) -> (event: Self)
        requires
            name@.len() <= StreamName::MAX_LEN,
        ensures
            exists|now: WallTime|
                now.is_shown() && #[trigger] describes(
                    event.header,
                    id,
                    EventType::ReadRelResp,
                    name::padded(name@),
                    stream_id,
                    size as int,
                    1,
                    now,
                ),
    {
        let now = WallTime::now();
        let event = Self::acknowledge_read_release_at(stream_id, name, size, id, now);
        assert(now.is_shown() && describes(
            event.header,
            id,
            EventType::ReadRelResp,
            name::padded(name@),
            stream_id,
            size as int,
            1,
            now,
        ));
        event
    }
}

/// Announces bytes for the device.
#[derive(Clone, Copy, Default)]
pub struct Write;

impl Event<Write> {
    /// The announcement of `data`, at the time `now`.
    pub fn write_at(stream_id: u32, name: &[u8], data: &[u8], now: WallTime) -> (event: Self)
        requires
            name@.len() <= StreamName::MAX_LEN,
        ensures
            describes(
                event.header,
                0,
                EventType::WriteReq,
                name::padded(name@),
                stream_id,
                wire_size(data@),
                0,
                now,
            ),
    {
        let event = Event::at(
            Write,
            size_of(data),
            name,
            EventType::WriteReq.code(),
            stream_id,
            0,
            now,
        );
        event
    }

    /// The announcement of `data`, at the current time.
    pub fn write(stream_id: u32, name: &[u8], data: &[u8]) -> (event: Self)
        requires
            name@.len() <= StreamName::MAX_LEN,
        ensures
            exists|now: WallTime|
                now.is_shown() && #[trigger] describes(
                    event.header,
                    0,
                    EventType::WriteReq,
                    name::padded(name@),
                    stream_id,
                    wire_size(data@),
                    0,
                    now,
                ),
    {
        let now = WallTime::now();
        let event = Self::write_at(stream_id, name, data, now);
        assert(now.is_shown() && describes(
            event.header,
            0,
            EventType::WriteReq,
            name::padded(name@),
            stream_id,
            wire_size(data@),
            0,
            now,
        ));
        event
    }
}

/// Confirms bytes that the device sent.
#[derive(Clone, Copy, Default)]
pub struct WriteAck;

impl Event<WriteAck> {
    /// The answer to the write `id` of `len` bytes, at the time `now`.
    pub fn acknowledge_write_at(
        stream_id: u32,
        name: &[u8],
        len: u32,
        id: u32,
        now: WallTime,
    ) -> (event: Self)
        requires
            name@.len() <= StreamName::MAX_LEN,
        ensures
            describes(
                event.header,
                id,
                EventType::WriteResp,
                name::padded(name@),
                stream_id,
                len as int,
                1,
                now,
            ),
    {
        let mut event = Event::at(
            WriteAck,
            len,
            name,
            EventType::WriteResp.code(),
            stream_id,
            1,
            now,
        );
        event.header.id = id;
        event
    }

    /// The answer to the write `id` of `len` bytes, at the current time.
    pub fn acknowledge_write(stream_id: u32, name: &[u8], len: u32, id: u32) -> (event: Self)
        requires
            name@.len() <= StreamName::MAX_LEN,
        ensures
            exists|now: WallTime|
                now.is_shown() && #[trigger] describes(
                    event.header,
                    id,
                    EventType::WriteResp,
                    name::padded(name@),
                    stream_id,
                    len as int,
                    1,
                    now,
                ),
    {
        let now = WallTime::now();
        let event = Self::acknowledge_write_at(stream_id, name, len, id, now);
        assert(now.is_shown() && describes(
            event.header,
            id,
            EventType::WriteResp,
            name::padded(name@),
            stream_id,
            len as int,
            1,
            now,
        ));
        event
    }
}

/// Tells the device that bytes it sent have been taken.
#[derive(Clone, Copy, Default)]
pub struct ReadRelease;

impl Event<ReadRelease> {
    /// The release of the `len` bytes of the write `id`, at the time `now`.
    pub fn read_release_at(
        stream_id: u32,
        name: &[u8],
        len: u32,
        id: u32,
        now: WallTime,
    ) -> (event: Self)
        requires
            name@.len() <= StreamName::MAX_LEN,
        ensures
            describes(
                event.header,
                id,
                EventType::ReadRelReq,
                name::padded(name@),
                stream_id,
                len as int,
                1,
                now,
            ),
    {
        let mut event = Event::at(
            ReadRelease,
            len,
            name,
            EventType::ReadRelReq.code(),
            stream_id,
            1,
            now,
        );
        event.header.id = id;
        event
    }

    /// The release of the `len` bytes of the write `id`, at the current time.
    pub fn read_release(stream_id: u32, name: &[u8], len: u32, id: u32) -> (event: Self)
        requires
            name@.len() <= StreamName::MAX_LEN,
        ensures
            exists|now: WallTime|
                now.is_shown() && #[trigger] describes(
                    event.header,
                    id,
                    EventType::ReadRelReq,
                    name::padded(name@),
                    stream_id,
                    len as int,
                    1,
                    now,
                ),
    {
        let now = WallTime::now();
        let event = Self::read_release_at(stream_id, name, len, id, now);
        assert(now.is_shown() && describes(
            event.header,
            id,
            EventType::ReadRelReq,
            name::padded(name@),
            stream_id,
            len as int,
            1,
            now,
        ));
        event
    }
}

/// The number that stands for each `EventType`.
pub proof fn event_types_by_code()
    ensures
        EventType::WriteReq.spec_code() == 0,
        EventType::ReadReq.spec_code() == 1,
        EventType::ReadRelReq.spec_code() == 2,
        EventType::CreateStreamReq.spec_code() == 3,
        EventType::CloseStreamReq.spec_code() == 4,
        EventType::PingReq.spec_code() == 5,
        EventType::ResetReq.spec_code() == 6,
        EventType::RequestLast.spec_code() == 7,
        EventType::WriteResp.spec_code() == 8,
        EventType::ReadResp.spec_code() == 9,
        EventType::ReadRelResp.spec_code() == 10,
        EventType::CreateStreamResp.spec_code() == 11,
        EventType::CloseStreamResp.spec_code() == 12,
        EventType::PingResp.spec_code() == 13,
        EventType::ResetResp.spec_code() == 14,
        EventType::RespLast.spec_code() == 15,
        EventType::IpcWriteReq.spec_code() == 16,
        EventType::IpcReadReq.spec_code() == 17,
        EventType::IpcCreateStreamReq.spec_code() == 18,
        EventType::IpcCloseStreamReq.spec_code() == 19,
        EventType::IpcWriteResp.spec_code() == 20,
        EventType::IpcReadResp.spec_code() == 21,
        EventType::IpcCreateStreamResp.spec_code() == 22,
        EventType::IpcCloseStreamResp.spec_code() == 23,
        EventType::ReadRelSpecReq.spec_code() == 24,
        EventType::ReadRelSpecResp.spec_code() == 25,
{
}

/// A ping is of type 5 and says nothing else but when it was made.
pub proof fn pings_say_nothing_else(
    now: WallTime,
    event: Event<Ping>,
)
    requires
        call_ensures(Event::<Ping>::ping_at, (now,), event),
    ensures
        event.header.id == 0,
        event.header.ty == 5,
        forall|i: int| 0 <= i < 52 ==> #[trigger] event.header.name.0@[i] == 0,
        event.header.nsec == now.nanos,
        event.header.sec_lsb + 0x1_0000_0000 * event.header.sec_msb == now.secs,
        event.header.stream_id == 0,
        event.header.size == 0,
        event.header.flags == 0,
{
}

/// A request for a stream is of type 3 and tells its number, its name and its size.
pub proof fn stream_requests_name_the_stream(
    stream_id: u32,
    name: &[u8],
    write_size: u32,
    now: WallTime,
    event: Event<CreateStream>,
)
    requires
        name@.len() <= 52,
        call_ensures(
            Event::<CreateStream>::create_stream_at,
            (stream_id, name, write_size, now),
            event,
        ),
    ensures
        event.header.id == 0,
        event.header.ty == 3,
        event.header.name.0@.len() == 52,
        event.header.name.0@.take(name@.len() as int) == name@,
        forall|i: int| name@.len() <= i < 52 ==> #[trigger] event.header.name.0@[i] == 0,
        event.header.nsec == now.nanos,
        event.header.sec_lsb + 0x1_0000_0000 * event.header.sec_msb == now.secs,
        event.header.stream_id == stream_id,
        event.header.size == write_size,
        event.header.flags == 0,
{
    assert(event.header.name.0@.take(name@.len() as int) =~= name@);
}

/// The answer to a request for a stream is of type 11 and tells what the request told.
pub proof fn stream_answers_repeat_the_request(
    stream_id: u32,
    name: &[u8],
    write_size: u32,
    id: u32,
    now: WallTime,
    event: Event<AckStream>,
)
    requires
        name@.len() <= 52,
        call_ensures(
            Event::<AckStream>::acknowledge_stream_at,
            (stream_id, name, write_size, id, now),
            event,
        ),
    ensures
        event.header.id == id,
        event.header.ty == 11,
        event.header.name.0@.len() == 52,
        event.header.name.0@.take(name@.len() as int) == name@,
        forall|i: int| name@.len() <= i < 52 ==> #[trigger] event.header.name.0@[i] == 0,
        event.header.nsec == now.nanos,
        event.header.sec_lsb + 0x1_0000_0000 * event.header.sec_msb == now.secs,
        event.header.stream_id == stream_id,
        event.header.size == write_size,
        event.header.flags == 1,
{
    assert(event.header.name.0@.take(name@.len() as int) =~= name@);
}

/// The answer to a release is of type 10 and tells what the release told.
pub proof fn release_answers_repeat_the_release(
    stream_id: u32,
    name: &[u8],
    size: u32,
    id: u32,
    now: WallTime,
    event: Event<AckReadRel>,
)
    requires
        name@.len() <= 52,
        call_ensures(
            Event::<AckReadRel>::acknowledge_read_release_at,
            (stream_id, name, size, id, now),
            event,
        ),
    ensures
        event.header.id == id,
        event.header.ty == 10,
        event.header.name.0@.len() == 52,
        event.header.name.0@.take(name@.len() as int) == name@,
        forall|i: int| name@.len() <= i < 52 ==> #[trigger] event.header.name.0@[i] == 0,
        event.header.nsec == now.nanos,
        event.header.sec_lsb + 0x1_0000_0000 * event.header.sec_msb == now.secs,
        event.header.stream_id == stream_id,
        event.header.size == size,
        event.header.flags == 1,
{
    assert(event.header.name.0@.take(name@.len() as int) =~= name@);
}

/// The answer to a write is of type 8 and tells what the write told.
pub proof fn write_answers_repeat_the_write(
    stream_id: u32,
    name: &[u8],
    len: u32,
    id: u32,
    now: WallTime,
    event: Event<WriteAck>,
)
    requires
        name@.len() <= 52,
        call_ensures(
            Event::<WriteAck>::acknowledge_write_at,
            (stream_id, name, len, id, now),
            event,
        ),
    ensures
        event.header.id == id,
        event.header.ty == 8,
        event.header.name.0@.len() == 52,
        event.header.name.0@.take(name@.len() as int) == name@,
        forall|i: int| name@.len() <= i < 52 ==> #[trigger] event.header.name.0@[i] == 0,
        event.header.nsec == now.nanos,
        event.header.sec_lsb + 0x1_0000_0000 * event.header.sec_msb == now.secs,
        event.header.stream_id == stream_id,
        event.header.size == len,
        event.header.flags == 1,
{
    assert(event.header.name.0@.take(name@.len() as int) =~= name@);
}

/// A release is of type 2 and tells what was read.
pub proof fn releases_tell_what_was_read(
    stream_id: u32,
    name: &[u8],
    len: u32,
    id: u32,
    now: WallTime,
    event: Event<ReadRelease>,
)
    requires
        name@.len() <= 52,
        call_ensures(Event::<ReadRelease>::read_release_at, (stream_id, name, len, id, now), event),
    ensures
        event.header.id == id,
        event.header.ty == 2,
        event.header.name.0@.len() == 52,
        event.header.name.0@.take(name@.len() as int) == name@,
        forall|i: int| name@.len() <= i < 52 ==> #[trigger] event.header.name.0@[i] == 0,
        event.header.nsec == now.nanos,
        event.header.sec_lsb + 0x1_0000_0000 * event.header.sec_msb == now.secs,
        event.header.stream_id == stream_id,
        event.header.size == len,
        event.header.flags == 1,
{
    assert(event.header.name.0@.take(name@.len() as int) =~= name@);
}

/// A write is of type 0 and tells the stream and how much is written to it.
pub proof fn writes_tell_how_much_is_written(
    stream_id: u32,
    name: &[u8],
    data: &[u8],
    now: WallTime,
    event: Event<Write>,
)
    requires
        name@.len() <= 52,
        call_ensures(Event::<Write>::write_at, (stream_id, name, data, now), event),
    ensures
        event.header.id == 0,
        event.header.ty == 0,
        event.header.name.0@.len() == 52,
        event.header.name.0@.take(name@.len() as int) == name@,
        forall|i: int| name@.len() <= i < 52 ==> #[trigger] event.header.name.0@[i] == 0,
        event.header.nsec == now.nanos,
        event.header.sec_lsb + 0x1_0000_0000 * event.header.sec_msb == now.secs,
        event.header.stream_id == stream_id,
        data@.len() <= u32::MAX ==> event.header.size == data@.len(),
        event.header.size == data@.len() as int % 0x1_0000_0000,
        event.header.flags == 0,
{
    assert(event.header.name.0@.take(name@.len() as int) =~= name@);
}

/// A header is described by each of its fields, and by nothing else.
pub proof fn headers_are_described_in_full(
    header: EventHeader,
    ty: EventType,
    id: u32,
    field: Seq<u8>,
    stream_id: u32,
    size: int,
    flags: u32,
    now: WallTime,
)
    ensures
        describes(header, id, ty, field, stream_id, size, flags, now) <==> {
            &&& header.id == id
            &&& EventType::from_code(header.ty) == Ok::<EventType, u32>(ty)
            &&& header.name.0@ == field
            &&& header.nsec == now.nanos
            &&& header.sec_lsb + 0x1_0000_0000 * header.sec_msb == now.secs
            &&& header.stream_id == stream_id
            &&& header.size == size
            &&& header.flags == flags
        },
{
    event_type_round_trip(ty);
    event_type_codes(header.ty);
}

/// A header carries a time by its nanoseconds and both halves of its seconds.
pub proof fn stamps_tell_the_time(header: EventHeader, now: WallTime)
    ensures
        header.stamped(now) <==> {
            &&& header.nsec == now.nanos
            &&& header.sec_lsb == now.secs % 0x1_0000_0000
            &&& header.sec_msb == now.secs / 0x1_0000_0000
        },
{
}

/// A header tells the length of data, as far as 32 bits hold it.
pub proof fn sizes_are_lengths(data: Seq<u8>)
    ensures
        0 <= wire_size(data) <= u32::MAX,
        data.len() <= u32::MAX ==> wire_size(data) == data.len(),
        wire_size(data) % 0x1_0000_0000 == data.len() as int % 0x1_0000_0000,
{
}

/// A header has 84 bytes.
pub proof fn headers_have_their_length(header: EventHeader)
    ensures
        header.bytes().len() == 84,
        HEADER_LEN == 84,
{
    header_layout(header);
}

/// What is written of a header is read as that header.
pub proof fn written_headers_are_read(
    header: EventHeader,
    bytes: Vec<u8>,
    same: &[u8],
    again: EventHeader,
)
    requires
        call_ensures(EventHeader::to_bytes, (&header,), bytes),
        same@ == bytes@,
        call_ensures(EventHeader::parse, (same,), again),
    ensures
        bytes@.len() == 84,
        again == header,
{
    header_bytes_determine_it(header, again);
}

/// The seconds of a header have a half of 32 bits in each of two words.
pub proof fn seconds_have_two_halves(header: &EventHeader, secs: u64)
    requires
        call_ensures(EventHeader::seconds, (header,), secs),
    ensures
        secs % 0x1_0000_0000 == header.sec_lsb,
        secs / 0x1_0000_0000 == header.sec_msb,
{
}

/// The type of an event is the one of its number, and every number up to 25 is one.
pub proof fn numbers_are_types(code: u32, found: Result<EventType, u32>)
    requires
        call_ensures(<EventType as TryFrom<u32>>::try_from, (code,), found),
    ensures
        found is Ok <==> code <= 25,
        found matches Ok(ty) ==> ty.spec_code() == code,
        found matches Err(unknown) ==> unknown == code,
{
    event_type_codes(code);
}

} // verus!
