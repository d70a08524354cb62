//! Queues of messages from the outputs of a pipeline.

use core::marker::PhantomData;

use vstd::prelude::*;

use super::desc::{Deserializer, IoDeserializeable};
use super::queue_state::Ready;
use crate::name;
use crate::wire;

verus! {

/// The messages of an output.
pub struct OutputQueue<T, D, S> {
    pub state: S,
    pub _pd: PhantomData<(T, D)>,
}

/// A message: what describes it, and what it holds.
#[derive(Debug)]
pub struct ReadRaw {
    pub metadata: Vec<u8>,
    pub buffer: Vec<u8>,
}

/// What a message ends with.
pub open spec fn end_of_packet() -> Seq<u8> {
    seq![
        0xABu8, 0xCDu8, 0xEFu8, 0x01u8, 0x23u8, 0x45u8, 0x67u8, 0x89u8,
        0x12u8, 0x34u8, 0x56u8, 0x78u8, 0x9Au8, 0xBCu8, 0xDEu8, 0xF0u8,
    ]
}

/// A message as it stands on the wire: what it holds, what describes it, its type, the length of
/// what describes it, and the marker at its end.
pub open spec fn packet(buffer: Seq<u8>, metadata: Seq<u8>, ty: u32) -> Seq<u8> {
    buffer + metadata + wire::le32(ty) + wire::le32(metadata.len() as u32) + end_of_packet()
}

/// Whether `bytes` are a message that holds `buffer` and is described by `metadata`.
pub open spec fn is_packet_of(bytes: Seq<u8>, buffer: Seq<u8>, metadata: Seq<u8>) -> bool {
    metadata.len() <= u32::MAX && exists|ty: u32| bytes == #[trigger] packet(buffer, metadata, ty)
}

/// The parts that a message of the bytes `bytes` must have.
proof fn packet_parts(bytes: Seq<u8>, buffer: Seq<u8>, metadata: Seq<u8>, ty: u32)
    requires
        metadata.len() <= u32::MAX,
        bytes == packet(buffer, metadata, ty),
    ensures
        bytes.len() == buffer.len() + metadata.len() + 24,
        bytes.subrange(bytes.len() - 16, bytes.len() as int) == end_of_packet(),
        wire::from_le32(bytes.subrange(bytes.len() - 20, bytes.len() - 16)) == metadata.len(),
        wire::from_le32(bytes.subrange(bytes.len() - 24, bytes.len() - 20)) == ty,
        bytes.subrange(0, bytes.len() - 24 - metadata.len()) == buffer,
        bytes.subrange(bytes.len() - 24 - metadata.len(), bytes.len() - 24) == metadata,
{
    broadcast use wire::le32_round_trip;

    let len = bytes.len() as int;
    assert(bytes.subrange(len - 16, len) =~= end_of_packet());
    assert(bytes.subrange(len - 20, len - 16) =~= wire::le32(metadata.len() as u32));
    assert(bytes.subrange(len - 24, len - 20) =~= wire::le32(ty));
    assert(bytes.subrange(0, len - 24 - metadata.len()) =~= buffer);
    assert(bytes.subrange(len - 24 - metadata.len(), len - 24) =~= metadata);
}

/// A message can be taken apart in one way only: reading gives back what was framed.
pub proof fn packets_are_unambiguous(
    buffer: Seq<u8>,
    metadata: Seq<u8>,
    ty: u32,
    other_buffer: Seq<u8>,
    other_metadata: Seq<u8>,
    other_ty: u32,
)
    requires
        metadata.len() <= u32::MAX,
        other_metadata.len() <= u32::MAX,
        packet(buffer, metadata, ty) == packet(other_buffer, other_metadata, other_ty),
    ensures
        buffer == other_buffer,
        metadata == other_metadata,
        ty == other_ty,
{
    packet_parts(packet(buffer, metadata, ty), buffer, metadata, ty);
    packet_parts(packet(buffer, metadata, ty), other_buffer, other_metadata, other_ty);
}

/// What stands between the contents of a message and the marker at its end.
pub struct Header {
    pub metadata_size: u32,
    pub ty: u32,
}

impl Header {
    /// The number of bytes that the header and the marker take.
    pub const SIZE: usize = 24;

    /// The marker at the end of a message.
    fn end_of_packet_marker() -> (marker: [u8; 16])
        ensures
            marker@ == end_of_packet(),
    {
        let marker: [u8; 16] = [
            0xAB, 0xCD, 0xEF, 0x01, 0x23, 0x45, 0x67, 0x89, 0x12, 0x34, 0x56, 0x78, 0x9A, 0xBC,
            0xDE, 0xF0,
        ];
        assert(marker@ =~= end_of_packet());
        marker
    }

    /// The header of the message `bytes`, if they end as a message does.
    pub fn parse(bytes: &[u8]) -> (header: Result<Self, ()>)
        ensures
            header is Ok <==> bytes@.len() >= Self::SIZE && bytes@.subrange(
                bytes@.len() - 16,
                bytes@.len() as int,
            ) == end_of_packet(),
            header matches Ok(header) ==> {
                &&& header.metadata_size == wire::from_le32(
                    bytes@.subrange(bytes@.len() - 20, bytes@.len() - 16),
                )
                &&& header.ty == wire::from_le32(
                    bytes@.subrange(bytes@.len() - 24, bytes@.len() - 20),
                )
            },
    {
        let len: usize = bytes.len();
        if len < 24 {
            return Err(());
        }
        let marker = Self::end_of_packet_marker();
        let end = vstd::slice::slice_subrange(bytes, len - 16, len);
        if !name::same_bytes(end, marker.as_slice()) {
            return Err(());
        }
        Ok(
            Header {
                metadata_size: wire::read_word(
                    vstd::slice::slice_subrange(bytes, len - 20, len - 16),
                ),
                ty: wire::read_word(vstd::slice::slice_subrange(bytes, len - 24, len - 20)),
            },
        )
    }
}

/// What a message is handed on as: its metadata alone, or with its data.
pub trait Simplify<D: Deserializer, T: IoDeserializeable<D>> {
    type Out;

    spec fn spec_simplify(this: T::Metadata, bytes: Vec<u8>) -> Self::Out;

    /// Hands on a message.
    fn simplify(this: T::Metadata, bytes: Vec<u8>) -> (out: Self::Out)
        ensures
            out == Self::spec_simplify(this, bytes),
    ;
}

impl<T: IoDeserializeable<D>, D: Deserializer> Simplify<D, T> for (
    <T as IoDeserializeable<D>>::Metadata,
    (),
) {
    type Out = <T as IoDeserializeable<D>>::Metadata;

    open spec fn spec_simplify(this: T::Metadata, bytes: Vec<u8>) -> Self::Out {
        this
    }

    fn simplify(this: T::Metadata, bytes: Vec<u8>) -> (out: Self::Out) {
        this
    }
}

impl<T: IoDeserializeable<D>, D: Deserializer> Simplify<D, T> for (
    <T as IoDeserializeable<D>>::Metadata,
    Vec<u8>,
) {
    type Out = (<T as IoDeserializeable<D>>::Metadata, Vec<u8>);

    open spec fn spec_simplify(this: T::Metadata, bytes: Vec<u8>) -> Self::Out {
        (this, bytes)
    }

    fn simplify(this: T::Metadata, bytes: Vec<u8>) -> (out: Self::Out) {
        (this, bytes)
    }
}

/// Takes a message apart, if it is one.
pub fn split_packet(bytes: Vec<u8>) -> (raw: Option<ReadRaw>)
    ensures
        match raw {
            Some(raw) => is_packet_of(bytes@, raw.buffer@, raw.metadata@),
            None => forall|buffer: Seq<u8>, metadata: Seq<u8>|
                !is_packet_of(bytes@, buffer, metadata),
        },
        raw is Some <==> bytes@.len() >= 24 && bytes@.skip(bytes@.len() - 16) == end_of_packet()
            && wire::from_le32(bytes@.subrange(bytes@.len() - 20, bytes@.len() - 16))
            <= bytes@.len() - 24,
{
    broadcast use wire::le32_round_trip;

    proof {
        if bytes@.len() >= 16 {
            assert(bytes@.skip(bytes@.len() - 16) =~= bytes@.subrange(
                bytes@.len() - 16,
                bytes@.len() as int,
            ));
        }
        assert forall|buffer: Seq<u8>, metadata: Seq<u8>|
            is_packet_of(bytes@, buffer, metadata) implies {
            &&& bytes@.len() >= 24
            &&& bytes@.subrange(bytes@.len() - 16, bytes@.len() as int) == end_of_packet()
            &&& wire::from_le32(bytes@.subrange(bytes@.len() - 20, bytes@.len() - 16))
                <= bytes@.len() - 24
        } by {
            let ty = choose|ty: u32| bytes@ == packet(buffer, metadata, ty);
            packet_parts(bytes@, buffer, metadata, ty);
        }
    }
    let ghost whole = bytes@;
    let mut bytes = bytes;
    let header = match Header::parse(bytes.as_slice()) {
        Ok(header) => header,
        Err(_) => return None,
    };
    let len: usize = bytes.len();
    bytes.truncate(len - Header::SIZE);
    let metadata_size: usize = header.metadata_size as usize;
    if bytes.len() < metadata_size {
        return None;
    }
    let kept: usize = bytes.len() - metadata_size;
    let metadata = bytes.split_off(kept);
    proof {
        wire::from_le32_round_trip(whole.subrange(len - 20, len - 16));
        wire::from_le32_round_trip(whole.subrange(len - 24, len - 20));
        assert(whole =~= packet(bytes@, metadata@, header.ty));
    }
    Some(ReadRaw { metadata, buffer: bytes })
}

impl<T, D, S> OutputQueue<T, D, Ready<S>> {
    /// The message that came on the queue's stream as `bytes`, if they are one.
    pub fn read_raw(&self, bytes: Vec<u8>) -> (raw: Option<ReadRaw>)
        ensures
            match raw {
                Some(raw) => is_packet_of(bytes@, raw.buffer@, raw.metadata@),
                None => forall|buffer: Seq<u8>, metadata: Seq<u8>|
                    !is_packet_of(bytes@, buffer, metadata),
            },
            raw is Some <==> bytes@.len() >= 24 && bytes@.skip(bytes@.len() - 16) == end_of_packet()
                && wire::from_le32(bytes@.subrange(bytes@.len() - 20, bytes@.len() - 16))
                <= bytes@.len() - 24,
    {
        split_packet(bytes)
    }
}

impl<T: IoDeserializeable<D>, D: Deserializer, S> OutputQueue<T, D, Ready<S>> {
    /// The message that came on the queue's stream as `bytes`, which have to be one. What
    /// describes it is read by `deserialize`; what that fails with is handed on.
    pub fn read<F: FnOnce(Vec<u8>) -> Result<T::Metadata, D::Error>>(
        &self,
        bytes: Vec<u8>,
        deserialize: F,
    ) -> (message: Result<<(T::Metadata, T::Output) as Simplify<D, T>>::Out, D::Error>) where
        (T::Metadata, T::Output): Simplify<D, T>,

        requires
            exists|buffer: Seq<u8>, metadata: Seq<u8>| is_packet_of(bytes@, buffer, metadata),
            forall|metadata: Vec<u8>| call_requires(deserialize, (metadata,)),
        ensures
            exists|raw: ReadRaw, read: Result<T::Metadata, D::Error>| #[trigger]
                is_packet_of(bytes@, raw.buffer@, raw.metadata@) && #[trigger] call_ensures(
                    deserialize,
                    (raw.metadata,),
                    read,
                ) && (match read {
                    Ok(metadata) => message == Ok::<_, D::Error>(
                        <(T::Metadata, T::Output) as Simplify<D, T>>::spec_simplify(
                            metadata,
                            raw.buffer,
                        ),
                    ),
                    Err(error) => message == Err::<
                        <(T::Metadata, T::Output) as Simplify<D, T>>::Out,
                        D::Error,
                    >(error),
                }),
    {
        let raw = self.read_raw(bytes).unwrap();
        let ghost taken = raw;
        let ReadRaw { metadata, buffer } = raw;
        let read = deserialize(metadata);
        assert(is_packet_of(bytes@, taken.buffer@, taken.metadata@));
        assert(call_ensures(deserialize, (taken.metadata,), read));
        match read {
            Ok(metadata) => Ok(
                <(T::Metadata, T::Output) as Simplify<D, T>>::simplify(metadata, buffer),
            ),
            Err(error) => Err(error),
        }
    }
}

/// A packet holds its buffer, its metadata, a number for what it is, the length of the metadata,
/// and sixteen bytes that end every packet, in this order and nothing between them.
pub proof fn packets_have_five_parts(buffer: Seq<u8>, metadata: Seq<u8>, ty: u32)
    requires
        metadata.len() <= u32::MAX,
    ensures
        ({
            let bytes = packet(buffer, metadata, ty);
            let trailer = bytes.skip((buffer.len() + metadata.len()) as int);
            &&& bytes.take(buffer.len() as int) == buffer
            &&& bytes.subrange(buffer.len() as int, (buffer.len() + metadata.len()) as int)
                == metadata
            &&& trailer.len() == 24
            &&& wire::from_le32(trailer.take(4)) == ty
            &&& wire::from_le32(trailer.subrange(4, 8)) == metadata.len()
            &&& trailer.skip(8) == seq![
                0xABu8, 0xCDu8, 0xEFu8, 0x01u8, 0x23u8, 0x45u8, 0x67u8, 0x89u8,
                0x12u8, 0x34u8, 0x56u8, 0x78u8, 0x9Au8, 0xBCu8, 0xDEu8, 0xF0u8,
            ]
        }),
{
    let bytes = packet(buffer, metadata, ty);
    let at = (buffer.len() + metadata.len()) as int;
    let trailer = bytes.skip(at);
    packet_parts(bytes, buffer, metadata, ty);
    assert(bytes.take(buffer.len() as int) =~= buffer);
    assert(bytes.subrange(buffer.len() as int, at) =~= metadata);
    assert(trailer.take(4) =~= bytes.subrange(at, at + 4));
    assert(trailer.subrange(4, 8) =~= bytes.subrange(at + 4, at + 8));
    assert(trailer.skip(8) =~= bytes.subrange(at + 8, at + 24));
    assert(end_of_packet() =~= seq![
        0xABu8, 0xCDu8, 0xEFu8, 0x01u8, 0x23u8, 0x45u8, 0x67u8, 0x89u8,
        0x12u8, 0x34u8, 0x56u8, 0x78u8, 0x9Au8, 0xBCu8, 0xDEu8, 0xF0u8,
    ]);
}

/// A packet is one of its buffer and its metadata, whatever it is numbered.
pub proof fn packets_are_of_their_parts(
    bytes: Seq<u8>,
    buffer: Seq<u8>,
    metadata: Seq<u8>,
    ty: u32,
)
    requires
        metadata.len() <= u32::MAX,
    ensures
        is_packet_of(packet(buffer, metadata, ty), buffer, metadata),
        is_packet_of(bytes, buffer, metadata) ==> bytes.len() == buffer.len() + metadata.len() + 24
            && (buffer + metadata).is_prefix_of(bytes),
{
    if is_packet_of(bytes, buffer, metadata) {
        let ty = choose|ty: u32| bytes == #[trigger] packet(buffer, metadata, ty);
        packet_parts(bytes, buffer, metadata, ty);
        assert((buffer + metadata) =~= bytes.take((buffer.len() + metadata.len()) as int));
    }
}

/// What is taken apart as a packet is what it was put together from: the buffer and the metadata
/// as they were, whatever the packet is numbered.
pub proof fn packets_are_taken_apart(
    bytes: Vec<u8>,
    buffer: Seq<u8>,
    metadata: Seq<u8>,
    ty: u32,
    raw: Option<ReadRaw>,
)
    requires
        call_ensures(split_packet, (bytes,), raw),
        bytes@ == packet(buffer, metadata, ty),
        metadata.len() <= u32::MAX,
    ensures
        raw matches Some(raw) && raw.buffer@ == buffer && raw.metadata@ == metadata,
{
    packet_parts(bytes@, buffer, metadata, ty);
    assert(bytes@.skip(bytes@.len() - 16) =~= bytes@.subrange(
        bytes@.len() - 16,
        bytes@.len() as int,
    ));
    if let Some(raw) = raw {
        let other = choose|other: u32|
            bytes@ == #[trigger] packet(raw.buffer@, raw.metadata@, other);
        packets_are_unambiguous(buffer, metadata, ty, raw.buffer@, raw.metadata@, other);
    }
}

/// A packet is known by its last sixteen bytes, and by metadata that is no longer than what stands
/// before its last 24. Nothing else is taken for one.
pub proof fn packets_are_known_by_their_end(bytes: Vec<u8>, raw: Option<ReadRaw>)
    requires
        call_ensures(split_packet, (bytes,), raw),
    ensures
        raw is Some <==> bytes@.len() >= 24 && bytes@.skip(bytes@.len() - 16) == seq![
            0xABu8, 0xCDu8, 0xEFu8, 0x01u8, 0x23u8, 0x45u8, 0x67u8, 0x89u8,
            0x12u8, 0x34u8, 0x56u8, 0x78u8, 0x9Au8, 0xBCu8, 0xDEu8, 0xF0u8,
        ] && wire::from_le32(bytes@.subrange(bytes@.len() - 20, bytes@.len() - 16)) <= bytes@.len()
            - 24,
        raw matches Some(raw) ==> raw.metadata@.len() == wire::from_le32(
            bytes@.subrange(bytes@.len() - 20, bytes@.len() - 16),
        ) && raw.buffer@ + raw.metadata@ == bytes@.take(bytes@.len() - 24),
{
    assert(end_of_packet() =~= seq![
        0xABu8, 0xCDu8, 0xEFu8, 0x01u8, 0x23u8, 0x45u8, 0x67u8, 0x89u8,
        0x12u8, 0x34u8, 0x56u8, 0x78u8, 0x9Au8, 0xBCu8, 0xDEu8, 0xF0u8,
    ]);
    if let Some(raw) = raw {
        let ty = choose|ty: u32| bytes@ == #[trigger] packet(raw.buffer@, raw.metadata@, ty);
        packet_parts(bytes@, raw.buffer@, raw.metadata@, ty);
        assert(raw.buffer@ + raw.metadata@ =~= bytes@.take(bytes@.len() - 24));
    }
}

/// What has no bytes beside its metadata is handed on as the metadata alone, and what has is
/// handed on as both.
pub proof fn messages_are_handed_on<T: IoDeserializeable<D>, D: Deserializer>(
    metadata: T::Metadata,
    bytes: Vec<u8>,
)
    ensures
        <(T::Metadata, ()) as Simplify<D, T>>::spec_simplify(metadata, bytes) == metadata,
        <(T::Metadata, Vec<u8>) as Simplify<D, T>>::spec_simplify(metadata, bytes) == (
            metadata,
            bytes,
        ),
{
}

} // verus!
