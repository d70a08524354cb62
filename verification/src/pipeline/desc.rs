//! Inputs and outputs of nodes, and what is known of them.

use core::marker::PhantomData;

use vstd::prelude::*;

use crate::rpc::{LogLevel, NodeType};
use crate::table::{Key, Table};
use crate::text;

verus! {

/// A format that messages to a device are written in.
pub trait Serializer {
    type Error;
}

/// A format that messages from a device are written in.
pub trait Deserializer {
    type Error;
}

/// A format of one kind, as opposed to one that stands for all.
pub trait NotAnySerializer {}

pub struct ProtobufDeserializer;

pub struct ProtobufSerializer;

pub struct RnopDeserializer;

pub struct RnopSerializer;

/// Takes messages in any format.
pub struct AnySerializer;

/// Gives messages in any format.
pub struct AnyDeserializer;

pub struct MsgpackDeserializer;

pub struct MsgpackSerializer;

impl NotAnySerializer for ProtobufDeserializer {}

impl NotAnySerializer for ProtobufSerializer {}

impl NotAnySerializer for RnopDeserializer {}

impl NotAnySerializer for RnopSerializer {}

impl NotAnySerializer for MsgpackDeserializer {}

impl NotAnySerializer for MsgpackSerializer {}

impl Serializer for AnySerializer {
    type Error = ();
}

impl Serializer for RnopSerializer {
    type Error = ();
}

impl Serializer for MsgpackSerializer {
    type Error = ();
}

impl Deserializer for RnopDeserializer {
    type Error = ();
}

/// A message of one kind, as opposed to any.
pub trait NotAny {}

/// A message that is all metadata, with no data behind it.
pub trait MetadataOnly {}

/// A message that an output gives: what describes it, and what follows.
pub trait IoDeserializeable<D: Deserializer> {
    type Metadata;

    type Output;
}

/// A message that an input takes: what describes it, and what follows.
pub trait IoSerializeable<S: Serializer> {
    type Metadata;

    type Output;
}

impl<S: Serializer, T: MetadataOnly + NotAny> IoSerializeable<S> for T {
    type Metadata = Self;

    type Output = ();
}

impl<D: Deserializer, T: MetadataOnly + NotAny> IoDeserializeable<D> for T {
    type Metadata = Self;

    type Output = ();
}

/// An input and an output, by their messages, that can be linked. The unit type stands for any
/// message.
pub trait CompatibleLink {}

impl<T: NotAny> CompatibleLink for (T, T) {}

impl<T: NotAny> CompatibleLink for ((), T) {}

impl<T: NotAny> CompatibleLink for (T, ()) {}

impl CompatibleLink for ((), ()) {}

/// An input and an output, by their formats, that can be linked.
pub trait CompatibleSerialization {}

impl<T: NotAnySerializer> CompatibleSerialization for (AnySerializer, T) {}

impl<T: NotAnySerializer> CompatibleSerialization for (T, AnyDeserializer) {}

impl CompatibleSerialization for (AnySerializer, AnyDeserializer) {}

impl CompatibleSerialization for (RnopSerializer, RnopDeserializer) {}

impl CompatibleSerialization for (MsgpackSerializer, MsgpackDeserializer) {}

impl CompatibleSerialization for (ProtobufSerializer, ProtobufDeserializer) {}

/// How an input or output queues messages.
#[derive(Clone, Copy, Debug, PartialEq, Eq, Structural)]
pub struct IoDescConf {
    pub blocking: bool,
    pub queue_size: Option<i32>,
    pub wait_for_message: bool,
}

impl IoDescConf {
    /// How messages are queued unless set.
    pub open spec fn spec_default() -> Self {
        IoDescConf { blocking: false, queue_size: Some(8), wait_for_message: false }
    }
}

impl Default for IoDescConf {
    fn default() -> (conf: Self)
        ensures
            conf == IoDescConf::spec_default(),
    {
        IoDescConf { blocking: false, queue_size: Some(8), wait_for_message: false }
    }
}

/// The group of an input or output, if it has one, and its name: what it is found by.
pub type PortName = (Option<Seq<char>>, Seq<char>);

/// What is registered of an input or output.
pub struct PortDesc {
    pub name: PortName,
    pub ty: NodeType,
    pub conf: IoDescConf,
}

/// What is known of an input or output that has been registered.
pub struct PortInfo {
    pub ty: NodeType,
    pub conf: IoDescConf,
    pub id: nat,
}

/// What an input or output is found by.
#[derive(Clone, Copy, Debug)]
pub struct PortKey<'a> {
    pub group: Option<&'a str>,
    pub name: &'a str,
}

impl<'a> View for PortKey<'a> {
    type V = PortName;

    open spec fn view(&self) -> PortName {
        (text::optional(self.group), self.name@)
    }
}

impl<'a> Key for PortKey<'a> {
    fn same(&self, other: &Self) -> (same: bool) {
        text::same_optional(self.group, other.group) && text::same_text(self.name, other.name)
    }
}

/// What is known of an input or output that has been registered.
#[derive(Clone, Copy, Debug)]
pub struct InternalIoInfo<'a> {
    pub ty: NodeType,
    pub conf: &'a IoDescConf,
    pub id: u32,
}

impl<'a> View for InternalIoInfo<'a> {
    type V = PortInfo;

    open spec fn view(&self) -> PortInfo {
        PortInfo { ty: self.ty, conf: *self.conf, id: self.id as nat }
    }
}

/// The inputs and outputs of a node as they are registered, each under the next number.
pub struct IoInfo<'a> {
    pub current_id: u32,
    pub inner: Table<PortKey<'a>, InternalIoInfo<'a>>,
}

/// The inputs and outputs that have been registered, and the number of the next.
pub struct IoInfoView {
    pub next_id: nat,
    pub ports: Map<PortName, PortInfo>,
}

/// The registered inputs and outputs of a node.
pub open spec fn port_infos<'a>(
    inner: Table<PortKey<'a>, InternalIoInfo<'a>>,
) -> Map<PortName, PortInfo> {
    inner@.map_values(|info: InternalIoInfo<'a>| info@)
}

impl<'a> View for IoInfo<'a> {
    type V = IoInfoView;

    open spec fn view(&self) -> IoInfoView {
        IoInfoView { next_id: self.current_id as nat, ports: port_infos(self.inner) }
    }
}

impl IoInfoView {
    /// Nothing is registered, and the first number is `next_id`.
    pub open spec fn starting_at(next_id: nat) -> Self {
        IoInfoView { next_id, ports: Map::empty() }
    }

    /// Registers an input or output under the next number, in place of any of the same name.
    pub open spec fn push(self, port: PortDesc) -> Self {
        IoInfoView {
            next_id: self.next_id + 1,
            ports: self.ports.insert(
                port.name,
                PortInfo { ty: port.ty, conf: port.conf, id: self.next_id },
            ),
        }
    }

    /// Registers inputs and outputs one after the other.
    pub open spec fn registered(self, ports: Seq<PortDesc>) -> Self
        decreases ports.len(),
    {
        if ports.len() == 0 {
            self
        } else {
            self.registered(ports.drop_last()).push(ports.last())
        }
    }

    /// To register two lists one after the other is to register both at once.
    pub proof fn registered_in_turn(self, first: Seq<PortDesc>, second: Seq<PortDesc>)
        ensures
            self.registered(first + second) == self.registered(first).registered(second),
        decreases second.len(),
    {
        if second.len() == 0 {
            assert(first + second =~= first);
        } else {
            self.registered_in_turn(first, second.drop_last());
            assert((first + second).drop_last() =~= first + second.drop_last());
            assert((first + second).last() == second.last());
        }
    }

    /// To register one input or output is to push it.
    pub proof fn registered_one(self, port: PortDesc)
        ensures
            self.registered(seq![port]) == self.push(port),
    {
        let one = seq![port];
        assert(one.drop_last() =~= Seq::empty());
        assert(self.registered(one.drop_last()) == self);
        assert(self.registered(one) == self.registered(one.drop_last()).push(one.last()));
    }

    /// Every input and output takes a number.
    pub proof fn registered_count(self, ports: Seq<PortDesc>)
        ensures
            self.registered(ports).next_id == self.next_id + ports.len(),
        decreases ports.len(),
    {
        if ports.len() > 0 {
            self.registered_count(ports.drop_last());
        }
    }

    /// The numbers of inputs and outputs registered from here on differ, and lie below the next
    /// one to be given.
    pub proof fn registered_ids_differ(self, ports: Seq<PortDesc>, a: PortName, b: PortName)
        requires
            self.ports == Map::<PortName, PortInfo>::empty(),
            self.registered(ports).ports.dom().contains(a),
        ensures
            self.next_id <= self.registered(ports).ports[a].id < self.registered(ports).next_id,
            self.registered(ports).ports.dom().contains(b) && a != b
                ==> self.registered(ports).ports[a].id != self.registered(ports).ports[b].id,
        decreases ports.len(),
    {
        self.registered_count(ports);
        if ports.len() > 0 {
            let before = self.registered(ports.drop_last());
            self.registered_count(ports.drop_last());
            if before.ports.dom().contains(a) {
                self.registered_ids_differ(ports.drop_last(), a, b);
            }
            if before.ports.dom().contains(b) {
                self.registered_ids_differ(ports.drop_last(), b, a);
            }
        }
    }
}

impl<'a> IoInfo<'a> {
    /// Whether no name is registered twice.
    pub open spec fn wf(&self) -> bool {
        self.inner.wf()
    }

    /// Nothing is registered, and the first number is `id`.
    pub fn new(id: u32) -> (info: Self)
        ensures
            info.wf(),
            info@ == IoInfoView::starting_at(id as nat),
    {
        let info = IoInfo { current_id: id, inner: Table::new() };
        assert(info@.ports =~= Map::empty());
        info
    }

    /// Registers an input or output under the next number, in place of any of the same name.
    pub fn push(
        &mut self,
        group: Option<&'a str>,
        name: &'a str,
        ty: NodeType,
        conf: &'a IoDescConf,
    )
        requires
            old(self).wf(),
            old(self).current_id < u32::MAX,
        ensures
            final(self).wf(),
            final(self)@ == old(self)@.push(
                PortDesc { name: (text::optional(group), name@), ty, conf: *conf },
            ),
    {
        let info = InternalIoInfo { ty, conf, id: self.current_id };
        self.current_id = self.current_id + 1;
        self.inner.insert(PortKey { group, name }, info);
        assert(self@.ports =~= old(self)@.push(
            PortDesc { name: (text::optional(group), name@), ty, conf: *conf },
        ).ports);
    }
}

/// Inputs or outputs that can be registered.
pub trait IoRegister {
    /// What there is to register.
    spec fn ports(&self) -> Seq<PortDesc>;

    /// Registers every input or output, in order.
    fn register<'a>(&'a self, info: &mut IoInfo<'a>)
        requires
            old(info).wf(),
            old(info)@.next_id + self.ports().len() <= u32::MAX,
        ensures
            final(info).wf(),
            final(info)@ == old(info)@.registered(self.ports()),
    ;
}

impl<R1: IoRegister, R2: IoRegister> IoRegister for (R1, R2) {
    open spec fn ports(&self) -> Seq<PortDesc> {
        self.0.ports() + self.1.ports()
    }

    fn register<'a>(&'a self, info: &mut IoInfo<'a>) {
        proof {
            old(info)@.registered_in_turn(self.0.ports(), self.1.ports());
            old(info)@.registered_count(self.0.ports());
        }
        self.0.register(info);
        self.1.register(info);
    }
}

/// What there is to register of each of `items`, in order.
pub open spec fn ports_of<T: IoRegister>(items: Seq<T>) -> Seq<PortDesc>
    decreases items.len(),
{
    if items.len() == 0 {
        Seq::empty()
    } else {
        ports_of(items.drop_last()) + items.last().ports()
    }
}

/// More items have no less to register.
proof fn ports_of_grow<T: IoRegister>(items: Seq<T>, n: int)
    requires
        0 <= n <= items.len(),
    ensures
        ports_of(items.take(n)).len() <= ports_of(items).len(),
    decreases items.len(),
{
    if n < items.len() {
        assert(items.drop_last().take(n) =~= items.take(n));
        ports_of_grow(items.drop_last(), n);
    } else {
        assert(items.take(n) =~= items);
    }
}

impl<T: IoRegister> IoRegister for Vec<T> {
    open spec fn ports(&self) -> Seq<PortDesc> {
        ports_of(self@)
    }

    fn register<'a>(&'a self, info: &mut IoInfo<'a>) {
        let mut i: usize = 0;
        assert(self@.take(0) =~= Seq::empty());
        while i < self.len()
            invariant
                i <= self@.len(),
                info.wf(),
                info@ == old(info)@.registered(ports_of(self@.take(i as int))),
                old(info)@.next_id + ports_of(self@).len() <= u32::MAX,
            decreases self@.len() - i,
        {
            proof {
                let done = self@.take(i as int);
                let more = self@.take(i + 1);
                assert(more.drop_last() =~= done);
                assert(more.last() == self@[i as int]);
                ports_of_grow(self@, i + 1);
                old(info)@.registered_count(ports_of(done));
                old(info)@.registered_in_turn(ports_of(done), self@[i as int].ports());
            }
            self[i].register(info);
            i = i + 1;
        }
        assert(self@.take(i as int) =~= self@);
    }
}

} // verus!
