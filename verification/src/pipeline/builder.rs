//! Putting a pipeline together.

use core::marker::PhantomData;

use vstd::prelude::*;

use super::desc::{
    self, AnySerializer, CompatibleLink, CompatibleSerialization, Deserializer, InternalIoInfo,
    IoDeserializeable, IoInfo, IoInfoView, IoRegister, IoSerializeable, PortDesc, PortInfo, PortKey,
    PortName, Serializer,
};
use super::node::{Inputs, InputRef, IoDesc, Node, NodeT, OutputRef};
use super::queue::OutputQueue;
use super::queue_state::Pending;
use super::xlink::{XLinkOut, XLinkOutProperties};
use crate::name::{self, StreamName};
use crate::rpc::{
    GlobalProperties, LogLevel, NodeConnectionSchema, NodeIoInfo, NodeObjInfo, PipelineSchema,
};
use crate::table::{Key, Table};
use crate::text;

verus! {

/// What is registered of a node.
pub struct NodeDesc {
    pub name: Seq<char>,
    pub alias: Option<Seq<char>>,
    pub properties: Seq<u8>,
    pub log_level: LogLevel,
    pub ports: Seq<PortDesc>,
}

/// What is known of a node that has been registered.
pub struct NodeInfo {
    pub name: Seq<char>,
    pub alias: Option<Seq<char>>,
    pub properties: Seq<u8>,
    pub log_level: LogLevel,
    pub ports: Map<PortName, PortInfo>,
}

/// What is known of a node that has been registered.
#[derive(Debug)]
pub struct InternalNodeInfo<'a> {
    pub name: &'a str,
    pub alias: Option<&'a str>,
    pub properties: Vec<u8>,
    pub log_level: LogLevel,
    pub io_info: Table<PortKey<'a>, InternalIoInfo<'a>>,
}

impl<'a> View for InternalNodeInfo<'a> {
    type V = NodeInfo;

    open spec fn view(&self) -> NodeInfo {
        NodeInfo {
            name: self.name@,
            alias: text::optional(self.alias),
            properties: self.properties@,
            log_level: self.log_level,
            ports: desc::port_infos(self.io_info),
        }
    }
}

/// The nodes that have been registered.
pub open spec fn node_infos<'a>(nodes: Table<u32, InternalNodeInfo<'a>>) -> Map<u32, NodeInfo> {
    nodes@.map_values(|info: InternalNodeInfo<'a>| info@)
}

/// What is registered of `node`, whose properties are written as `properties`.
pub open spec fn node_desc<N: Node>(node: NodeT<N>, properties: Seq<u8>) -> NodeDesc {
    NodeDesc {
        name: N::spec_name(),
        alias: N::spec_alias(),
        properties,
        log_level: node.log_level,
        ports: node.input.ports() + node.output.ports(),
    }
}

/// What is known of a node once it has been registered, its inputs and outputs numbered from
/// `next_io` on.
pub open spec fn registered_node(desc: NodeDesc, next_io: nat) -> NodeInfo {
    NodeInfo {
        name: desc.name,
        alias: desc.alias,
        properties: desc.properties,
        log_level: desc.log_level,
        ports: IoInfoView::starting_at(next_io).registered(desc.ports).ports,
    }
}

/// Whether no node, and no input or output of one, is registered twice.
pub open spec fn nodes_wf<'a>(nodes: Table<u32, InternalNodeInfo<'a>>) -> bool {
    &&& nodes.wf()
    &&& forall|id: u32| nodes@.dom().contains(id) ==> (#[trigger] nodes@[id]).io_info.wf()
}

/// Registers `n`, whose properties are written by `serialize`, in place of what was known of it.
/// Its inputs and outputs are numbered anew.
fn register_node<'a, N: Node, W: FnOnce(&N::Properties) -> Vec<u8>>(
    n: &'a NodeT<N>,
    serialize: W,
    map: &mut Table<u32, InternalNodeInfo<'a>>,
    io_idx: &mut u32,
)
    requires
        call_requires(serialize, (&n.properties,)),
        nodes_wf(*old(map)),
        *old(io_idx) + n.input.ports().len() + n.output.ports().len() <= u32::MAX,
    ensures
        nodes_wf(*final(map)),
        exists|w: Vec<u8>| #[trigger]
            call_ensures(serialize, (&n.properties,), w) && node_infos(*final(map)) == node_infos(
                *old(map),
            ).insert(n.id, registered_node(node_desc(*n, w@), *old(io_idx) as nat)),
        *final(io_idx) == *old(io_idx) + n.input.ports().len() + n.output.ports().len(),
{
    let w = serialize(&n.properties);
    let ghost written = w;
    let ghost start = IoInfoView::starting_at(*io_idx as nat);
    proof {
        start.registered_count(n.input.ports());
        start.registered(n.input.ports()).registered_count(n.output.ports());
        start.registered_in_turn(n.input.ports(), n.output.ports());
    }
    let mut io_info = IoInfo::new(*io_idx);
    n.input.register(&mut io_info);
    n.output.register(&mut io_info);
    *io_idx = io_info.current_id;
    let info = InternalNodeInfo {
        name: N::name(),
        alias: N::alias(),
        properties: w,
        log_level: n.log_level,
        io_info: io_info.inner,
    };
    assert(info@ == registered_node(node_desc(*n, written@), *old(io_idx) as nat));
    map.insert(n.id, info);
    assert(node_infos(*map) =~= node_infos(*old(map)).insert(n.id, info@));
    assert(call_ensures(serialize, (&n.properties,), written));
}

/// A connection from an output to an input.
pub struct ConnectionView {
    pub input_id: u32,
    pub input: PortName,
    pub output_id: u32,
    pub output: PortName,
}

/// A connection from an output to an input.
#[derive(Debug, PartialEq, Eq, Hash)]
pub struct NodeConnection<'a> {
    pub input_id: u32,
    pub input_name: &'a str,
    pub input_group: Option<&'a str>,
    pub output_id: u32,
    pub output_name: &'a str,
    pub output_group: Option<&'a str>,
}

impl<'a> View for NodeConnection<'a> {
    type V = ConnectionView;

    open spec fn view(&self) -> ConnectionView {
        ConnectionView {
            input_id: self.input_id,
            input: (text::optional(self.input_group), self.input_name@),
            output_id: self.output_id,
            output: (text::optional(self.output_group), self.output_name@),
        }
    }
}

impl<'a> Key for NodeConnection<'a> {
    fn same(&self, other: &Self) -> (same: bool) {
        self.input_id == other.input_id && self.output_id == other.output_id && text::same_text(
            self.input_name,
            other.input_name,
        ) && text::same_optional(self.input_group, other.input_group) && text::same_text(
            self.output_name,
            other.output_name,
        ) && text::same_optional(self.output_group, other.output_group)
    }
}

/// A pipeline in the making.
#[derive(Debug)]
pub struct Pipeline<'a> {
    pub current_node_id: u32,
    pub connections: Table<NodeConnection<'a>, ()>,
    pub nodes: Table<u32, InternalNodeInfo<'a>>,
    pub current_io_id: u32,
    pub current_xlink_out_id: u32,
    pub properties: GlobalProperties,
}

/// What a pipeline in the making is made of.
pub struct PipelineView {
    /// The number of the next node.
    pub next_node: nat,
    pub connections: Set<ConnectionView>,
    pub nodes: Map<u32, NodeInfo>,
    /// The number of the next input or output to be registered.
    pub next_io: nat,
    /// The number of the next output queue.
    pub next_xlink: nat,
}

impl<'a> View for Pipeline<'a> {
    type V = PipelineView;

    open spec fn view(&self) -> PipelineView {
        PipelineView {
            next_node: self.current_node_id as nat,
            connections: self.connections@.dom(),
            nodes: node_infos(self.nodes),
            next_io: self.current_io_id as nat,
            next_xlink: self.current_xlink_out_id as nat,
        }
    }
}

impl PipelineView {
    /// A pipeline of nothing.
    pub open spec fn initial() -> Self {
        PipelineView {
            next_node: 0,
            connections: Set::empty(),
            nodes: Map::empty(),
            next_io: 0,
            next_xlink: 0,
        }
    }

    /// Registers a node in place of what was known of it, with its inputs and outputs numbered
    /// from the next number on.
    pub open spec fn inserted(self, id: u32, node: NodeDesc) -> Self {
        PipelineView {
            nodes: self.nodes.insert(id, registered_node(node, self.next_io)),
            next_io: self.next_io + node.ports.len(),
            ..self
        }
    }

    /// Makes a connection and registers its ends, that of the input first.
    pub open spec fn linked(
        self,
        connection: ConnectionView,
        output: NodeDesc,
        input: NodeDesc,
    ) -> Self {
        PipelineView { connections: self.connections.insert(connection), ..self }.inserted(
            connection.input_id,
            input,
        ).inserted(connection.output_id, output)
    }
}

/// The connection from `output` to `input`.
pub open spec fn connection_of<
    'a,
    I: IoSerializeable<S> + IoDesc,
    S: Serializer,
    O: IoDeserializeable<D> + IoDesc,
    D: Deserializer,
    N1: Node,
    N2: Node,
>(output: OutputRef<'a, N1, O, D>, input: InputRef<'a, N2, I, S>) -> ConnectionView {
    ConnectionView {
        input_id: input.node.id,
        input: input.input.port().name,
        output_id: output.node.id,
        output: output.output.port().name,
    }
}

/// The name of the stream that the output queue of this number is read from.
pub open spec fn queue_name(id: nat) -> Seq<char> {
    "__x_"@ + text::decimal(id) + "_out"@
}

/// The name of the stream that the output queue of this number is read from.
pub fn to_queue_name(id: u32) -> (name: String)
    ensures
        name@ == queue_name(id as nat),
        name@.len() <= 18,
        vstd::utf8::is_ascii_chars(name@),
        vstd::utf8::encode_utf8(name@).len() == name@.len(),
{
    proof {
        reveal_strlit("__x_");
        reveal_strlit("_out");
        text::decimal_of_word_is_short(id);
        text::decimal_has_digits(id as nat);
    }
    let mut name = "__x_".to_owned();
    name.append(text::to_decimal(id as usize).as_str());
    name.append("_out");
    proof {
        vstd::utf8::is_ascii_chars_encode_utf8(name@);
    }
    name
}

/// The name of a queue's stream can be held in full.
proof fn queue_name_has_no_nul(id: u32)
    ensures
        name::before_nul(vstd::utf8::encode_utf8(queue_name(id as nat)))
            == vstd::utf8::encode_utf8(queue_name(id as nat)),
{
    let chars = queue_name(id as nat);
    let bytes = vstd::utf8::encode_utf8(chars);
    reveal_strlit("__x_");
    reveal_strlit("_out");
    text::decimal_has_digits(id as nat);
    digits_are_not_nul(id as nat);
    vstd::utf8::is_ascii_chars_encode_utf8(chars);
    assert forall|i: int| 0 <= i < bytes.len() implies bytes[i] != 0 by {
        assert(bytes[i] == chars[i] as u8);
        assert(chars[i] as u32 != 0 && (chars[i] as u32) < 128);
    }
    name::find_byte_at(0, bytes, bytes.len() as int);
    assert(name::before_nul(bytes) =~= bytes);
}

proof fn digits_are_not_nul(n: nat)
    ensures
        forall|i: int|
            0 <= i < text::decimal(n).len() ==> (#[trigger] text::decimal(n)[i]) as u32 >= 48,
    decreases n,
{
    let all = text::decimal(n);
    if n >= 10 {
        digits_are_not_nul(n / 10);
        let before = text::decimal(n / 10);
        assert forall|i: int| 0 <= i < all.len() implies (#[trigger] all[i]) as u32 >= 48 by {
            if i < before.len() {
                assert(all[i] == before[i]);
            } else {
                assert(all[i] == text::digit(n % 10));
            }
        }
    } else {
        assert(all[0] == text::digit(n));
    }
}

/// Queues of different numbers are read from streams of different names.
pub proof fn queue_names_differ(a: nat, b: nat)
    requires
        queue_name(a) == queue_name(b),
    ensures
        a == b,
{
    reveal_strlit("__x_");
    reveal_strlit("_out");
    let name = queue_name(a);
    assert(name.subrange(4, name.len() - 4) =~= text::decimal(a));
    assert(name.subrange(4, name.len() - 4) =~= text::decimal(b));
    text::decimals_differ(a, b);
}

/// Whether `schema` describes an input or output of this name.
pub open spec fn is_port_schema(
    schema: ((String, String), NodeIoInfo),
    name: PortName,
    info: PortInfo,
) -> bool {
    let ((group, key), io) = schema;
    &&& group@ == text::or_empty(name.0)
    &&& key@ == name.1
    &&& io.group@ == text::or_empty(name.0)
    &&& io.name@ == name.1
    &&& io.ty == info.ty
    &&& io.blocking == info.conf.blocking
    &&& io.queue_size == (match info.conf.queue_size {
        Some(size) => size,
        None => 8,
    })
    &&& io.wait_for_message == info.conf.wait_for_message
    &&& io.id == info.id
}

/// Whether `schemas` describe the inputs and outputs of the names in `order`.
pub open spec fn is_port_list(
    schemas: Seq<((String, String), NodeIoInfo)>,
    ports: Map<PortName, PortInfo>,
    order: Seq<PortName>,
) -> bool {
    &&& schemas.len() == order.len()
    &&& forall|i: int|
        0 <= i < order.len() ==> is_port_schema(
            #[trigger] schemas[i],
            order[i],
            ports[order[i]],
        )
}

/// Whether `schemas` describe each of `ports` once, in some order.
pub open spec fn lists_ports(
    schemas: Seq<((String, String), NodeIoInfo)>,
    ports: Map<PortName, PortInfo>,
) -> bool {
    exists|order: Seq<PortName>|
        order.no_duplicates() && order.to_set() == ports.dom() && #[trigger] is_port_list(
            schemas,
            ports,
            order,
        )
}

/// Whether `schema` describes this connection.
pub open spec fn is_connection_schema(
    schema: NodeConnectionSchema,
    connection: ConnectionView,
) -> bool {
    &&& schema.output_id == connection.output_id
    &&& schema.output_group@ == text::or_empty(connection.output.0)
    &&& schema.output@ == connection.output.1
    &&& schema.input_id == connection.input_id
    &&& schema.input_group@ == text::or_empty(connection.input.0)
    &&& schema.input@ == connection.input.1
}

/// Whether `schemas` describe the connections in `order`.
pub open spec fn is_connection_list(
    schemas: Seq<NodeConnectionSchema>,
    order: Seq<ConnectionView>,
) -> bool {
    &&& schemas.len() == order.len()
    &&& forall|i: int|
        0 <= i < order.len() ==> is_connection_schema(#[trigger] schemas[i], order[i])
}

/// Whether `schemas` describe each of `connections` once, in some order.
pub open spec fn lists_connections(
    schemas: Seq<NodeConnectionSchema>,
    connections: Set<ConnectionView>,
) -> bool {
    exists|order: Seq<ConnectionView>|
        order.no_duplicates() && order.to_set() == connections && #[trigger] is_connection_list(
            schemas,
            order,
        )
}

/// Whether `schema` describes the node `id` on the device.
pub open spec fn is_node_schema(
    schema: (i64, NodeObjInfo),
    id: u32,
    info: NodeInfo,
    device_id: Seq<char>,
) -> bool {
    let (key, node) = schema;
    &&& key == id
    &&& node.id == id
    &&& node.parent_id == -1
    &&& node.name@ == info.name
    &&& node.alias@ == text::or_empty(info.alias)
    &&& node.device_id@ == device_id
    &&& node.device_node
    &&& node.properties@ == info.properties
    &&& node.log_level == info.log_level
    &&& lists_ports(node.io_info@, info.ports)
}

/// Whether `schemas` describe the nodes in `order`.
pub open spec fn is_node_list(
    schemas: Seq<(i64, NodeObjInfo)>,
    nodes: Map<u32, NodeInfo>,
    order: Seq<u32>,
    device_id: Seq<char>,
) -> bool {
    &&& schemas.len() == order.len()
    &&& forall|i: int|
        0 <= i < order.len() ==> is_node_schema(
            #[trigger] schemas[i],
            order[i],
            nodes[order[i]],
            device_id,
        )
}

/// Whether `schemas` describe each of `nodes` once, in some order.
pub open spec fn lists_nodes(
    schemas: Seq<(i64, NodeObjInfo)>,
    nodes: Map<u32, NodeInfo>,
    device_id: Seq<char>,
) -> bool {
    exists|order: Seq<u32>|
        order.no_duplicates() && order.to_set() == nodes.dom() && #[trigger] is_node_list(
            schemas,
            nodes,
            order,
            device_id,
        )
}

/// The keys of a table's entries are each key of the table once.
proof fn lists_all<K: Key, V>(order: Seq<K::V>, table: Table<K, V>)
    requires
        table.wf(),
        order.len() == table.entries().len(),
        forall|i: int| 0 <= i < order.len() ==> order[i] == (#[trigger] table.entries()[i]).0@,
    ensures
        order.no_duplicates(),
        order.to_set() == table@.dom(),
{
    table.entries_make_the_table();
    assert forall|i: int, j: int| 0 <= i < order.len() && 0 <= j < order.len() && i
        != j implies order[i] != order[j] by {
        assert(table.entries()[i].0@ == order[i]);
        assert(table.entries()[j].0@ == order[j]);
    }
    assert forall|key: K::V| order.to_set().contains(key) <==> table@.dom().contains(key) by {
        if order.to_set().contains(key) {
            let i = choose|i: int| 0 <= i < order.len() && order[i] == key;
            assert(table.entries()[i].0@ == key);
        }
        if table@.dom().contains(key) {
            assert(crate::table::holds(table.entries(), key));
            let i = choose|i: int| crate::table::at(table.entries(), key, i);
            assert(crate::table::at(table.entries(), key, i));
            assert(table.entries()[i].0@ == key);
            assert(order[i] == key);
        }
    }
    assert(order.to_set() =~= table@.dom());
}

impl<'a> Pipeline<'a> {
    /// Whether nothing is registered or connected twice.
    pub open spec fn wf(&self) -> bool {
        self.connections.wf() && nodes_wf(self.nodes)
    }

    /// A pipeline of nothing.
    pub fn new() -> (pipeline: Self)
        ensures
            pipeline.wf(),
            pipeline@ == PipelineView::initial(),
            pipeline.properties.is_default(),
    {
        let pipeline = Pipeline {
            current_node_id: 0,
            connections: Table::new(),
            nodes: Table::new(),
            current_io_id: 0,
            current_xlink_out_id: 0,
            properties: GlobalProperties::default(),
        };
        assert(pipeline@.connections =~= Set::empty());
        assert(pipeline@.nodes =~= Map::empty());
        pipeline
    }

    /// A new node with the properties that it has unless set.
    pub fn create_node<T: Node>(&mut self) -> (node: NodeT<T>)
        requires
            old(self).wf(),
            old(self).current_node_id < u32::MAX,
        ensures
            final(self).wf(),
            final(self)@ == (PipelineView { next_node: old(self)@.next_node + 1, ..old(self)@ }),
            final(self).properties == old(self).properties,
            node.id == old(self)@.next_node,
            node.log_level == LogLevel::Off,
            call_ensures(<T::Properties as Default>::default, (), node.properties),
            call_ensures(<T::Input as Default>::default, (), node.input),
            call_ensures(<T::Output as Default>::default, (), node.output),
    {
        self.create_node_with_properties(Default::default())
    }

    /// A new node with the given properties.
    pub fn create_node_with_properties<T: Node>(&mut self, properties: T::Properties) -> (node:
        NodeT<T>)
        requires
            old(self).wf(),
            old(self).current_node_id < u32::MAX,
        ensures
            final(self).wf(),
            final(self)@ == (PipelineView { next_node: old(self)@.next_node + 1, ..old(self)@ }),
            final(self).properties == old(self).properties,
            node.id == old(self)@.next_node,
            node.log_level == LogLevel::Off,
            node.properties == properties,
            call_ensures(<T::Input as Default>::default, (), node.input),
            call_ensures(<T::Output as Default>::default, (), node.output),
    {
        let id: u32 = self.current_node_id;
        self.current_node_id = self.current_node_id + 1;
        NodeT {
            log_level: LogLevel::Off,
            properties,
            _m: PhantomData,
            input: Default::default(),
            output: Default::default(),
            id,
        }
    }

    fn insert_node<N: Node, W: FnOnce(&N::Properties) -> Vec<u8>>(
        &mut self,
        node: &'a NodeT<N>,
        serialize: W,
    )
        requires
            call_requires(serialize, (&node.properties,)),
            old(self).wf(),
            old(self)@.next_io + node.input.ports().len() + node.output.ports().len()
                <= u32::MAX,
        ensures
            final(self).wf(),
            exists|w: Vec<u8>| #[trigger]
                call_ensures(serialize, (&node.properties,), w) && final(self)@
                    == old(self)@.inserted(node.id, node_desc(*node, w@)),
            final(self).properties == old(self).properties,
    {
        register_node(node, serialize, &mut self.nodes, &mut self.current_io_id);
        proof {
            let w = choose|w: Vec<u8>| #[trigger]
                call_ensures(serialize, (&node.properties,), w) && node_infos(self.nodes)
                    == node_infos(old(self).nodes).insert(
                    node.id,
                    registered_node(node_desc(*node, w@), old(self).current_io_id as nat),
                );
            assert(self@ == old(self)@.inserted(node.id, node_desc(*node, w@)));
        }
    }

    /// Connects `output` to `input`. The properties of the output's node are written by
    /// `serialize_output`, those of the input's node by `serialize_input`.
    pub fn link<
        I: IoSerializeable<S> + IoDesc,
        S: Serializer,
        O: IoDeserializeable<D> + IoDesc,
        D: Deserializer,
        N1: Node,
        N2: Node,
        W1: FnOnce(&N1::Properties) -> Vec<u8>,
        W2: FnOnce(&N2::Properties) -> Vec<u8>,
    >(
        &mut self,
        output: OutputRef<'a, N1, O, D>,
        serialize_output: W1,
        input: InputRef<'a, N2, I, S>,
        serialize_input: W2,
    ) where (I::Metadata, O::Metadata): CompatibleLink, (S, D): CompatibleSerialization
        requires
            call_requires(serialize_output, (&output.node.properties,)),
            call_requires(serialize_input, (&input.node.properties,)),
            old(self).wf(),
            old(self)@.next_io + input.node.input.ports().len() + input.node.output.ports().len()
                + output.node.input.ports().len() + output.node.output.ports().len() <= u32::MAX,
        ensures
            final(self).wf(),
            exists|w1: Vec<u8>, w2: Vec<u8>| #[trigger]
                call_ensures(serialize_output, (&output.node.properties,), w1) && #[trigger]
                call_ensures(serialize_input, (&input.node.properties,), w2) && final(self)@
                    == old(self)@.linked(
                    connection_of(output, input),
                    node_desc(*output.node, w1@),
                    node_desc(*input.node, w2@),
                ),
            final(self).properties == old(self).properties,
    {
        let connection = NodeConnection {
            input_id: input.node.id,
            input_name: input.input.name(),
            input_group: input.input.group(),
            output_id: output.node.id,
            output_name: output.output.name(),
            output_group: output.output.group(),
        };
        assert(connection@ == connection_of(output, input));
        self.connections.insert(connection, ());
        let ghost connected = self@;
        assert(self@.connections =~= old(self)@.connections.insert(connection@));
        self.insert_node(input.node, serialize_input);
        let ghost halfway = self@;
        self.insert_node(output.node, serialize_output);
        proof {
            let w2 = choose|w: Vec<u8>| #[trigger]
                call_ensures(serialize_input, (&input.node.properties,), w) && halfway
                    == connected.inserted(input.node.id, node_desc(*input.node, w@));
            let w1 = choose|w: Vec<u8>| #[trigger]
                call_ensures(serialize_output, (&output.node.properties,), w) && self@
                    == halfway.inserted(output.node.id, node_desc(*output.node, w@));
            assert(call_ensures(serialize_output, (&output.node.properties,), w1));
            assert(call_ensures(serialize_input, (&input.node.properties,), w2));
        }
    }

    /// Connects `output` to `xlink`, which streams it to the host under a name of its own. The
    /// properties of the output's node are written by `serialize_output`, those of `xlink` by
    /// `serialize_xlink` once the name is set.
    pub fn create_output_queue<
        O: IoDeserializeable<D> + IoDesc,
        D: Deserializer,
        N1: Node,
        W1: FnOnce(&N1::Properties) -> Vec<u8>,
        W2: FnOnce(&XLinkOutProperties) -> Vec<u8>,
    >(
        &mut self,
        output: OutputRef<'a, N1, O, D>,
        serialize_output: W1,
        xlink: &'a mut NodeT<XLinkOut>,
        serialize_xlink: W2,
    ) -> (queue: OutputQueue<O::Metadata, D, Pending>) where
        ((), O::Metadata): CompatibleLink,
        (AnySerializer, D): CompatibleSerialization,

        requires
            call_requires(serialize_output, (&output.node.properties,)),
            forall|properties: &XLinkOutProperties| call_requires(serialize_xlink, (properties,)),
            old(self).wf(),
            old(self)@.next_io + 1 + output.node.input.ports().len()
                + output.node.output.ports().len() <= u32::MAX,
            old(self)@.next_xlink < u32::MAX,
        ensures
            final(self).wf(),
            final(self).properties == old(self).properties,
            queue.state.0@ == vstd::utf8::encode_utf8(queue_name(old(self)@.next_xlink)),
            final(xlink).properties.stream_name@ == queue_name(old(self)@.next_xlink),
            final(xlink).properties.max_fps_limit == old(xlink).properties.max_fps_limit,
            final(xlink).properties.metadata_only == old(xlink).properties.metadata_only,
            final(xlink).properties.packet_size == old(xlink).properties.packet_size,
            final(xlink).properties.bytes_per_second == old(xlink).properties.bytes_per_second,
            final(xlink).log_level == old(xlink).log_level,
            final(xlink).input == old(xlink).input,
            final(xlink).output == old(xlink).output,
            final(xlink).id == old(xlink).id,
            exists|w1: Vec<u8>, w2: Vec<u8>| #[trigger]
                call_ensures(serialize_output, (&output.node.properties,), w1) && #[trigger]
                call_ensures(serialize_xlink, (&final(xlink).properties,), w2) && final(self)@
                    == (PipelineView {
                    next_xlink: old(self)@.next_xlink + 1,
                    ..old(self)@
                }).linked(
                    ConnectionView {
                        input_id: old(xlink).id,
                        input: old(xlink).input.port().name,
                        output_id: output.node.id,
                        output: output.output.port().name,
                    },
                    node_desc(*output.node, w1@),
                    node_desc(*final(xlink), w2@),
                ),
    {
        let id: u32 = self.current_xlink_out_id;
        self.current_xlink_out_id = self.current_xlink_out_id + 1;
        let name = to_queue_name(id);
        let stream_name = StreamName::new(name.as_str().as_bytes()).unwrap();
        proof {
            queue_name_has_no_nul(id);
        }
        xlink.properties.stream_name = name;
        let node: &'a NodeT<XLinkOut> = &*xlink;
        self.link(output, serialize_output, node.input(), serialize_xlink);
        OutputQueue { state: Pending(stream_name), _pd: PhantomData }
    }

    fn port_schemas(
        io_info: &Table<PortKey<'a>, InternalIoInfo<'a>>,
    ) -> (schemas: Vec<((String, String), NodeIoInfo)>)
        requires
            io_info.wf(),
        ensures
            lists_ports(schemas@, desc::port_infos(*io_info)),
    {
        let ghost ports = desc::port_infos(*io_info);
        let ghost order = Seq::new(
            io_info.entries().len(),
            |i: int| io_info.entries()[i].0@,
        );
        let mut schemas: Vec<((String, String), NodeIoInfo)> = Vec::new();
        let mut i: usize = 0;
        proof {
            io_info.entries_make_the_table();
        }
        while i < io_info.len()
            invariant
                i <= io_info.entries().len(),
                schemas@.len() == i,
                io_info.wf(),
                ports == desc::port_infos(*io_info),
                forall|j: int|
                    0 <= j < i ==> is_port_schema(
                        #[trigger] schemas@[j],
                        io_info.entries()[j].0@,
                        ports[io_info.entries()[j].0@],
                    ),
            decreases io_info.entries().len() - i,
        {
            let (key, io) = io_info.entry(i);
            let queue_size: i32 = io.conf.queue_size.unwrap_or(8);
            let schema = NodeIoInfo {
                group: text::owned_or_empty(key.group),
                name: key.name.to_owned(),
                ty: io.ty,
                blocking: io.conf.blocking,
                queue_size,
                wait_for_message: io.conf.wait_for_message,
                id: io.id,
            };
            proof {
                io_info.entries_make_the_table();
                assert(ports[key@] == io@);
            }
            schemas.push(((text::owned_or_empty(key.group), key.name.to_owned()), schema));
            i = i + 1;
        }
        proof {
            lists_all(order, *io_info);
            assert(ports.dom() =~= io_info@.dom());
            assert(is_port_list(schemas@, ports, order));
        }
        schemas
    }

    /// The pipeline as the device with this serial number takes it. Connections, nodes and the
    /// inputs and outputs of nodes come in no particular order.
    pub fn build(self, device_id: &str) -> (schema: PipelineSchema)
        requires
            self.wf(),
        ensures
            schema.global_properties == self.properties,
            schema.bridges@.len() == 0,
            lists_connections(schema.connections@, self@.connections),
            lists_nodes(schema.nodes@, self@.nodes, device_id@),
    {
        let mut connections: Vec<NodeConnectionSchema> = Vec::new();
        let mut i: usize = 0;
        while i < self.connections.len()
            invariant
                i <= self.connections.entries().len(),
                connections@.len() == i,
                forall|j: int|
                    0 <= j < i ==> is_connection_schema(
                        #[trigger] connections@[j],
                        self.connections.entries()[j].0@,
                    ),
            decreases self.connections.entries().len() - i,
        {
            let (connection, _) = self.connections.entry(i);
            connections.push(
                NodeConnectionSchema {
                    output_id: connection.output_id as i64,
                    output_group: text::owned_or_empty(connection.output_group),
                    output: connection.output_name.to_owned(),
                    input_id: connection.input_id as i64,
                    input_group: text::owned_or_empty(connection.input_group),
                    input: connection.input_name.to_owned(),
                },
            );
            i = i + 1;
        }
        let mut nodes: Vec<(i64, NodeObjInfo)> = Vec::new();
        i = 0;
        while i < self.nodes.len()
            invariant
                self.wf(),
                i <= self.nodes.entries().len(),
                nodes@.len() == i,
                forall|j: int|
                    0 <= j < i ==> is_node_schema(
                        #[trigger] nodes@[j],
                        self.nodes.entries()[j].0,
                        self@.nodes[self.nodes.entries()[j].0],
                        device_id@,
                    ),
            decreases self.nodes.entries().len() - i,
        {
            let (id, node) = self.nodes.entry(i);
            proof {
                self.nodes.entries_make_the_table();
                assert(self.nodes@.dom().contains(id@));
                assert(self@.nodes[*id] == node@);
            }
            let io_info = Self::port_schemas(&node.io_info);
            nodes.push(
                (
                    *id as i64,
                    NodeObjInfo {
                        id: *id as i64,
                        parent_id: -1,
                        name: node.name.to_owned(),
                        alias: text::owned_or_empty(node.alias),
                        device_id: device_id.to_owned(),
                        device_node: true,
                        properties: node.properties.clone(),
                        log_level: node.log_level,
                        io_info,
                    },
                ),
            );
            i = i + 1;
        }
        proof {
            let links = Seq::new(
                self.connections.entries().len(),
                |i: int| self.connections.entries()[i].0@,
            );
            lists_all(links, self.connections);
            assert(is_connection_list(connections@, links));
            let ids = Seq::new(self.nodes.entries().len(), |i: int| self.nodes.entries()[i].0@);
            lists_all(ids, self.nodes);
            assert(self@.nodes.dom() =~= self.nodes@.dom());
            assert(is_node_list(nodes@, self@.nodes, ids, device_id@));
        }
        PipelineSchema {
            connections,
            global_properties: self.properties,
            nodes,
            bridges: Vec::new(),
        }
    }
}

} // verus!
