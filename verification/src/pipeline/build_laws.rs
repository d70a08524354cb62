//! What linking does to a pipeline, and what a built pipeline says of it.

use vstd::prelude::*;

#[allow(unused_imports)]
use super::builder::{self, ConnectionView, NodeDesc, NodeInfo, Pipeline, PipelineView};
#[allow(unused_imports)]
use super::desc::{
    self, AnySerializer, CompatibleLink, CompatibleSerialization, Deserializer, IoDeserializeable,
    IoInfoView, IoRegister, IoSerializeable, PortDesc, PortInfo, PortName, Serializer,
};
#[allow(unused_imports)]
use super::node::{InputRef, IoDesc, Node, NodeT, OutputRef};
#[allow(unused_imports)]
use super::port_laws;
#[allow(unused_imports)]
use super::queue::OutputQueue;
#[allow(unused_imports)]
use super::queue_state::Pending;
#[allow(unused_imports)]
use super::xlink::{XLinkOut, XLinkOutProperties};
#[allow(unused_imports)]
use crate::rpc::{LogLevel, NodeConnectionSchema, NodeIoInfo, NodeObjInfo, PipelineSchema};
#[allow(unused_imports)]
use crate::text;

verus! {

/// A pipeline starts with nothing in it, and its numbers with zero.
pub proof fn pipelines_start_with_nothing()
    ensures
        PipelineView::initial().next_node == 0,
        PipelineView::initial().next_io == 0,
        PipelineView::initial().next_xlink == 0,
        PipelineView::initial().connections == Set::<ConnectionView>::empty(),
        PipelineView::initial().nodes.dom() == Set::<u32>::empty(),
{
    assert(PipelineView::initial().nodes.dom() =~= Set::empty());
}

/// A node is described by what its kind is called, its properties as they are written, its level
/// of logging, and all its inputs and then all its outputs.
pub proof fn nodes_are_described_in_full<N: Node>(node: NodeT<N>, properties: Seq<u8>)
    ensures
        builder::node_desc(node, properties).name == N::spec_name(),
        builder::node_desc(node, properties).alias == N::spec_alias(),
        builder::node_desc(node, properties).properties == properties,
        builder::node_desc(node, properties).log_level == node.log_level,
        builder::node_desc(node, properties).ports == node.input.ports() + node.output.ports(),
{
}

/// What is registered of a node is what it is described by, with a number for each of its inputs
/// and outputs from the next one on.
pub proof fn nodes_are_registered_in_full(desc: NodeDesc, next_io: nat, i: int)
    requires
        0 <= i < desc.ports.len(),
        forall|j: int|
            i < j < desc.ports.len() ==> (#[trigger] desc.ports[j]).name != desc.ports[i].name,
    ensures
        builder::registered_node(desc, next_io).name == desc.name,
        builder::registered_node(desc, next_io).alias == desc.alias,
        builder::registered_node(desc, next_io).properties == desc.properties,
        builder::registered_node(desc, next_io).log_level == desc.log_level,
        builder::registered_node(desc, next_io).ports.dom().contains(desc.ports[i].name),
        builder::registered_node(desc, next_io).ports[desc.ports[i].name] == (PortInfo {
            ty: desc.ports[i].ty,
            conf: desc.ports[i].conf,
            id: (next_io + i) as nat,
        }),
{
    port_laws::ports_are_numbered_in_order(IoInfoView::starting_at(next_io), desc.ports, i);
}

/// A node without inputs and outputs is registered like any other.
pub proof fn bare_nodes_are_registered_in_full(desc: NodeDesc, next_io: nat, name: PortName)
    requires
        forall|j: int| 0 <= j < desc.ports.len() ==> (#[trigger] desc.ports[j]).name != name,
    ensures
        builder::registered_node(desc, next_io).name == desc.name,
        builder::registered_node(desc, next_io).alias == desc.alias,
        builder::registered_node(desc, next_io).properties == desc.properties,
        builder::registered_node(desc, next_io).log_level == desc.log_level,
        !builder::registered_node(desc, next_io).ports.dom().contains(name),
{
    port_laws::only_ports_are_registered(IoInfoView::starting_at(next_io), desc.ports, name);
}

/// Linking adds the connection to those that are there. It registers the node of the input and
/// then that of the output, under their own numbers, and gives a number to each of their inputs
/// and outputs. No other node is registered or changed.
pub proof fn linking_adds_a_connection(
    pipeline: PipelineView,
    connection: ConnectionView,
    output: NodeDesc,
    input: NodeDesc,
)
    ensures
        ({
            let after = pipeline.linked(connection, output, input);
            &&& forall|other: ConnectionView| #[trigger]
                after.connections.contains(other) <==> other == connection
                    || pipeline.connections.contains(other)
            &&& forall|id: u32| #[trigger]
                after.nodes.dom().contains(id) <==> id == connection.input_id || id
                    == connection.output_id || pipeline.nodes.dom().contains(id)
            &&& after.nodes[connection.output_id] == builder::registered_node(
                output,
                pipeline.next_io + input.ports.len(),
            )
            &&& connection.input_id != connection.output_id ==> after.nodes[connection.input_id]
                == builder::registered_node(input, pipeline.next_io)
            &&& forall|id: u32|
                id != connection.input_id && id != connection.output_id
                    ==> #[trigger] after.nodes[id] == pipeline.nodes[id]
            &&& after.next_io == pipeline.next_io + input.ports.len() + output.ports.len()
            &&& after.next_node == pipeline.next_node
            &&& after.next_xlink == pipeline.next_xlink
        }),
{
}

/// A connection leads from the output to the input, and tells the node and the name of both.
pub proof fn connections_lead_from_output_to_input<
    'a,
    I: IoSerializeable<S> + IoDesc,
    S: Serializer,
    O: IoDeserializeable<D> + IoDesc,
    D: Deserializer,
    N1: Node,
    N2: Node,
>(output: OutputRef<'a, N1, O, D>, input: InputRef<'a, N2, I, S>)
    ensures
        builder::connection_of(output, input).output_id == output.node.id,
        builder::connection_of(output, input).output == (
            O::spec_group(),
            O::spec_name(&output.output.output),
        ),
        builder::connection_of(output, input).input_id == input.node.id,
        builder::connection_of(output, input).input == (
            I::spec_group(),
            I::spec_name(&input.input.input),
        ),
{
}

/// A queue is called by its number, in digits, between two fixed words.
pub proof fn queues_are_called_by_number(id: u32, name: String)
    requires
        call_ensures(builder::to_queue_name, (id,), name),
    ensures
        name@ == "__x_"@ + text::decimal(id as nat) + "_out"@,
{
}

/// Every connection that was made is in the built pipeline, from the same output of the same node
/// to the same input of the same node.
pub proof fn every_connection_is_built(
    schemas: Seq<NodeConnectionSchema>,
    connections: Set<ConnectionView>,
    connection: ConnectionView,
)
    requires
        builder::lists_connections(schemas, connections),
        connections.contains(connection),
    ensures
        exists|i: int|
            0 <= i < schemas.len() && {
                &&& (#[trigger] schemas[i]).output_id == connection.output_id
                &&& schemas[i].output@ == connection.output.1
                &&& schemas[i].output_group@ == match connection.output.0 {
                    Some(group) => group,
                    None => Seq::empty(),
                }
                &&& schemas[i].input_id == connection.input_id
                &&& schemas[i].input@ == connection.input.1
                &&& schemas[i].input_group@ == match connection.input.0 {
                    Some(group) => group,
                    None => Seq::empty(),
                }
            },
{
    let order = choose|order: Seq<ConnectionView>|
        order.no_duplicates() && order.to_set() == connections
            && #[trigger] builder::is_connection_list(schemas, order);
    assert(order.to_set().contains(connection));
    let i = choose|i: int| 0 <= i < order.len() && order[i] == connection;
    assert(builder::is_connection_schema(schemas[i], order[i]));
}

/// Every connection of the built pipeline was made, and there are as many as were made.
pub proof fn only_connections_are_built(
    schemas: Seq<NodeConnectionSchema>,
    connections: Set<ConnectionView>,
    i: int,
)
    requires
        builder::lists_connections(schemas, connections),
        0 <= i < schemas.len(),
    ensures
        schemas.len() == connections.len(),
        exists|connection: ConnectionView| #[trigger]
            connections.contains(connection) && {
                &&& schemas[i].output_id == connection.output_id
                &&& schemas[i].output@ == connection.output.1
                &&& schemas[i].output_group@ == match connection.output.0 {
                    Some(group) => group,
                    None => Seq::empty(),
                }
                &&& schemas[i].input_id == connection.input_id
                &&& schemas[i].input@ == connection.input.1
                &&& schemas[i].input_group@ == match connection.input.0 {
                    Some(group) => group,
                    None => Seq::empty(),
                }
            },
{
    let order = choose|order: Seq<ConnectionView>|
        order.no_duplicates() && order.to_set() == connections
            && #[trigger] builder::is_connection_list(schemas, order);
    order.unique_seq_to_set();
    assert(builder::is_connection_schema(schemas[i], order[i]));
    assert(order.to_set().contains(order[i]));
}

/// Every node that was registered is in the built pipeline under its number, as a node of the
/// device without a parent, with its name, its properties and its level of logging.
pub proof fn every_node_is_built(
    schemas: Seq<(i64, NodeObjInfo)>,
    nodes: Map<u32, NodeInfo>,
    device_id: Seq<char>,
    id: u32,
)
    requires
        builder::lists_nodes(schemas, nodes, device_id),
        nodes.dom().contains(id),
    ensures
        exists|i: int|
            0 <= i < schemas.len() && {
                &&& (#[trigger] schemas[i]).0 == id
                &&& schemas[i].1.id == id
                &&& schemas[i].1.parent_id == -1
                &&& schemas[i].1.name@ == nodes[id].name
                &&& schemas[i].1.alias@ == match nodes[id].alias {
                    Some(alias) => alias,
                    None => Seq::empty(),
                }
                &&& schemas[i].1.device_id@ == device_id
                &&& schemas[i].1.device_node
                &&& schemas[i].1.properties@ == nodes[id].properties
                &&& schemas[i].1.log_level == nodes[id].log_level
                &&& builder::lists_ports(schemas[i].1.io_info@, nodes[id].ports)
            },
{
    let order = choose|order: Seq<u32>|
        order.no_duplicates() && order.to_set() == nodes.dom() && #[trigger] builder::is_node_list(
            schemas,
            nodes,
            order,
            device_id,
        );
    assert(order.to_set().contains(id));
    let i = choose|i: int| 0 <= i < order.len() && order[i] == id;
    assert(builder::is_node_schema(schemas[i], order[i], nodes[order[i]], device_id));
}

/// Every node of the built pipeline was registered under its number, and there are as many as
/// were registered.
pub proof fn only_nodes_are_built(
    schemas: Seq<(i64, NodeObjInfo)>,
    nodes: Map<u32, NodeInfo>,
    device_id: Seq<char>,
    i: int,
)
    requires
        builder::lists_nodes(schemas, nodes, device_id),
        0 <= i < schemas.len(),
    ensures
        schemas.len() == nodes.dom().len(),
        0 <= schemas[i].0 <= u32::MAX,
        nodes.dom().contains(schemas[i].0 as u32),
        schemas[i].1.id == schemas[i].0,
        schemas[i].1.name@ == nodes[schemas[i].0 as u32].name,
        schemas[i].1.properties@ == nodes[schemas[i].0 as u32].properties,
{
    let order = choose|order: Seq<u32>|
        order.no_duplicates() && order.to_set() == nodes.dom() && #[trigger] builder::is_node_list(
            schemas,
            nodes,
            order,
            device_id,
        );
    order.unique_seq_to_set();
    assert(builder::is_node_schema(schemas[i], order[i], nodes[order[i]], device_id));
    assert(order.to_set().contains(order[i]));
}

/// Every input and output that was registered of a node is in the built pipeline, under its name
/// and group, with its type, its number and what it is set to. Where no size is set for its queue
/// it holds eight messages.
pub proof fn every_port_is_built(
    schemas: Seq<((String, String), NodeIoInfo)>,
    ports: Map<PortName, PortInfo>,
    name: PortName,
)
    requires
        builder::lists_ports(schemas, ports),
        ports.dom().contains(name),
    ensures
        exists|i: int|
            0 <= i < schemas.len() && {
                let ((group, key), io) = #[trigger] schemas[i];
                &&& io.group@ == match name.0 {
                    Some(group) => group,
                    None => Seq::empty(),
                }
                &&& io.name@ == name.1
                &&& group@ == io.group@
                &&& key@ == io.name@
                &&& io.ty == ports[name].ty
                &&& io.blocking == ports[name].conf.blocking
                &&& io.queue_size == match ports[name].conf.queue_size {
                    Some(size) => size,
                    None => 8,
                }
                &&& io.wait_for_message == ports[name].conf.wait_for_message
                &&& io.id == ports[name].id
            },
{
    let order = choose|order: Seq<PortName>|
        order.no_duplicates() && order.to_set() == ports.dom() && #[trigger] builder::is_port_list(
            schemas,
            ports,
            order,
        );
    assert(order.to_set().contains(name));
    let i = choose|i: int| 0 <= i < order.len() && order[i] == name;
    assert(builder::is_port_schema(schemas[i], order[i], ports[order[i]]));
}

/// Every input and output of a node in the built pipeline was registered of it, and there are as
/// many as were registered.
pub proof fn only_ports_are_built(
    schemas: Seq<((String, String), NodeIoInfo)>,
    ports: Map<PortName, PortInfo>,
    i: int,
)
    requires
        builder::lists_ports(schemas, ports),
        0 <= i < schemas.len(),
    ensures
        schemas.len() == ports.dom().len(),
        exists|name: PortName| #[trigger]
            ports.dom().contains(name) && {
                &&& schemas[i].1.group@ == match name.0 {
                    Some(group) => group,
                    None => Seq::empty(),
                }
                &&& schemas[i].1.name@ == name.1
                &&& schemas[i].1.id == ports[name].id
            },
{
    let order = choose|order: Seq<PortName>|
        order.no_duplicates() && order.to_set() == ports.dom() && #[trigger] builder::is_port_list(
            schemas,
            ports,
            order,
        );
    order.unique_seq_to_set();
    assert(builder::is_port_schema(schemas[i], order[i], ports[order[i]]));
    assert(order.to_set().contains(order[i]));
}

/// What is built of a pipeline is what was put into it: as many connections as were made, as many
/// nodes as were registered, what holds for it as a whole, and nothing that crosses over.
pub proof fn what_is_built_was_put_in<'a>(
    pipeline: Pipeline<'a>,
    device_id: &str,
    schema: PipelineSchema,
)
    requires
        call_ensures(Pipeline::build, (pipeline, device_id), schema),
    ensures
        schema.global_properties == pipeline.properties,
        schema.bridges@.len() == 0,
        schema.connections@.len() == pipeline@.connections.len(),
        schema.nodes@.len() == pipeline@.nodes.dom().len(),
{
    let order = choose|order: Seq<ConnectionView>|
        order.no_duplicates() && order.to_set() == pipeline@.connections
            && #[trigger] builder::is_connection_list(schema.connections@, order);
    order.unique_seq_to_set();
    let ids = choose|order: Seq<u32>|
        order.no_duplicates() && order.to_set() == pipeline@.nodes.dom()
            && #[trigger] builder::is_node_list(
            schema.nodes@,
            pipeline@.nodes,
            order,
            device_id@,
        );
    ids.unique_seq_to_set();
}

/// A pipeline that begins has nothing in it, and what holds for it as a whole is as it is unless
/// set.
pub proof fn new_pipelines_are_empty<'a>(pipeline: Pipeline<'a>)
    requires
        call_ensures(Pipeline::<'a>::new, (), pipeline),
    ensures
        forall|id: u32| !#[trigger] pipeline@.nodes.dom().contains(id),
        forall|connection: ConnectionView| !#[trigger] pipeline@.connections.contains(connection),
        pipeline@.next_node == 0,
        pipeline@.next_io == 0,
        pipeline@.next_xlink == 0,
        pipeline.properties.is_default(),
{
}

/// Nodes are numbered as they are made, log nothing, and are not in the pipeline before they are
/// linked.
pub proof fn nodes_are_numbered_in_order<'a, T: Node>(pipeline: &mut Pipeline<'a>, node: NodeT<T>)
    requires
        call_ensures(Pipeline::<'a>::create_node::<T>, (pipeline,), node),
    ensures
        node.id == old(pipeline)@.next_node,
        final(pipeline)@.next_node == old(pipeline)@.next_node + 1,
        node.log_level == LogLevel::Off,
        final(pipeline)@.nodes == old(pipeline)@.nodes,
        final(pipeline)@.connections == old(pipeline)@.connections,
        final(pipeline)@.next_io == old(pipeline)@.next_io,
        final(pipeline)@.next_xlink == old(pipeline)@.next_xlink,
        final(pipeline).properties == old(pipeline).properties,
{
}

/// Nodes that are made with properties are numbered like the others, and have those.
pub proof fn nodes_have_their_properties<'a, T: Node>(
    pipeline: &mut Pipeline<'a>,
    properties: T::Properties,
    node: NodeT<T>,
)
    requires
        call_ensures(
            Pipeline::<'a>::create_node_with_properties::<T>,
            (pipeline, properties),
            node,
        ),
    ensures
        node.properties == properties,
        node.id == old(pipeline)@.next_node,
        final(pipeline)@.next_node == old(pipeline)@.next_node + 1,
        node.log_level == LogLevel::Off,
        final(pipeline)@.nodes == old(pipeline)@.nodes,
        final(pipeline)@.connections == old(pipeline)@.connections,
        final(pipeline)@.next_io == old(pipeline)@.next_io,
        final(pipeline)@.next_xlink == old(pipeline)@.next_xlink,
        final(pipeline).properties == old(pipeline).properties,
{
}

/// A link makes one connection, from the output to the input, and leaves the others. It registers
/// both nodes and leaves the others.
pub proof fn links_make_one_connection<
    'a,
    I: IoSerializeable<S> + IoDesc,
    S: Serializer,
    O: IoDeserializeable<D> + IoDesc,
    D: Deserializer,
    N1: Node,
    N2: Node,
    W1: FnOnce(&N1::Properties) -> Vec<u8>,
    W2: FnOnce(&N2::Properties) -> Vec<u8>,
>(
    pipeline: &mut Pipeline<'a>,
    output: OutputRef<'a, N1, O, D>,
    serialize_output: W1,
    input: InputRef<'a, N2, I, S>,
    serialize_input: W2,
    id: u32,
) where (I::Metadata, O::Metadata): CompatibleLink, (S, D): CompatibleSerialization
    requires
        call_ensures(
            Pipeline::<'a>::link::<I, S, O, D, N1, N2, W1, W2>,
            (pipeline, output, serialize_output, input, serialize_input),
            (),
        ),
    ensures
        final(pipeline)@.connections == old(pipeline)@.connections.insert(
            ConnectionView {
                input_id: input.node.id,
                input: (I::spec_group(), I::spec_name(&input.input.input)),
                output_id: output.node.id,
                output: (O::spec_group(), O::spec_name(&output.output.output)),
            },
        ),
        final(pipeline)@.nodes.dom().contains(id) <==> id == input.node.id || id == output.node.id
            || old(pipeline)@.nodes.dom().contains(id),
        final(pipeline)@.nodes[output.node.id].name == N1::spec_name(),
        final(pipeline)@.nodes[output.node.id].log_level == output.node.log_level,
        exists|written: Vec<u8>| #[trigger]
            call_ensures(serialize_output, (&output.node.properties,), written)
                && final(pipeline)@.nodes[output.node.id].properties == written@,
        input.node.id != output.node.id ==> final(pipeline)@.nodes[input.node.id].name
            == N2::spec_name(),
        input.node.id != output.node.id ==> exists|written: Vec<u8>| #[trigger]
            call_ensures(serialize_input, (&input.node.properties,), written)
                && final(pipeline)@.nodes[input.node.id].properties == written@,
        id != input.node.id && id != output.node.id ==> final(pipeline)@.nodes[id]
            == old(pipeline)@.nodes[id],
        final(pipeline)@.next_io == old(pipeline)@.next_io + input.node.input.ports().len()
            + input.node.output.ports().len() + output.node.input.ports().len()
            + output.node.output.ports().len(),
        final(pipeline)@.next_node == old(pipeline)@.next_node,
        final(pipeline)@.next_xlink == old(pipeline)@.next_xlink,
        final(pipeline).properties == old(pipeline).properties,
{
    let (w1, w2) = choose|w1: Vec<u8>, w2: Vec<u8>| #[trigger]
        call_ensures(serialize_output, (&output.node.properties,), w1) && #[trigger]
        call_ensures(serialize_input, (&input.node.properties,), w2) && final(pipeline)@
            == old(pipeline)@.linked(
            builder::connection_of(output, input),
            builder::node_desc(*output.node, w1@),
            builder::node_desc(*input.node, w2@),
        );
    linking_adds_a_connection(
        old(pipeline)@,
        builder::connection_of(output, input),
        builder::node_desc(*output.node, w1@),
        builder::node_desc(*input.node, w2@),
    );
}

/// A queue is made by a link to a node that streams to the host. The queue and that node have the
/// name of the next queue, and no other has; the rest of what the node is set to stays.
pub proof fn queues_are_linked_to_streams<
    'a,
    O: IoDeserializeable<D> + IoDesc,
    D: Deserializer,
    N1: Node,
    W1: FnOnce(&N1::Properties) -> Vec<u8>,
    W2: FnOnce(&XLinkOutProperties) -> Vec<u8>,
>(
    pipeline: &mut Pipeline<'a>,
    output: OutputRef<'a, N1, O, D>,
    serialize_output: W1,
    xlink: &'a mut NodeT<XLinkOut>,
    serialize_xlink: W2,
    queue: OutputQueue<O::Metadata, D, Pending>,
) where
    ((), O::Metadata): CompatibleLink,
    (AnySerializer, D): CompatibleSerialization,

    requires
        call_ensures(
            Pipeline::<'a>::create_output_queue::<O, D, N1, W1, W2>,
            (pipeline, output, serialize_output, xlink, serialize_xlink),
            queue,
        ),
    ensures
        queue.state.0@ == vstd::utf8::encode_utf8(final(xlink).properties.stream_name@),
        final(xlink).properties.stream_name@ == "__x_"@ + text::decimal(
            old(pipeline)@.next_xlink,
        ) + "_out"@,
        final(pipeline)@.next_xlink == old(pipeline)@.next_xlink + 1,
        final(pipeline)@.next_node == old(pipeline)@.next_node,
        final(xlink).id == old(xlink).id,
        final(xlink).log_level == old(xlink).log_level,
        final(xlink).properties.max_fps_limit == old(xlink).properties.max_fps_limit,
        final(xlink).properties.metadata_only == old(xlink).properties.metadata_only,
        final(xlink).properties.packet_size == old(xlink).properties.packet_size,
        final(xlink).properties.bytes_per_second == old(xlink).properties.bytes_per_second,
        final(pipeline)@.connections == old(pipeline)@.connections.insert(
            ConnectionView {
                input_id: old(xlink).id,
                input: (None, "in"@),
                output_id: output.node.id,
                output: (O::spec_group(), O::spec_name(&output.output.output)),
            },
        ),
        final(pipeline)@.nodes.dom() == old(pipeline)@.nodes.dom().insert(old(xlink).id).insert(
            output.node.id,
        ),
{
    let (w1, w2) = choose|w1: Vec<u8>, w2: Vec<u8>| #[trigger]
        call_ensures(serialize_output, (&output.node.properties,), w1) && #[trigger]
        call_ensures(serialize_xlink, (&final(xlink).properties,), w2) && final(pipeline)@
            == (PipelineView {
            next_xlink: old(pipeline)@.next_xlink + 1,
            ..old(pipeline)@
        }).linked(
            ConnectionView {
                input_id: old(xlink).id,
                input: old(xlink).input.port().name,
                output_id: output.node.id,
                output: output.output.port().name,
            },
            builder::node_desc(*output.node, w1@),
            builder::node_desc(*final(xlink), w2@),
        );
    assert(final(pipeline)@.nodes.dom() =~= old(pipeline)@.nodes.dom().insert(
        old(xlink).id,
    ).insert(output.node.id));
}

} // verus!
