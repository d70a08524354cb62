//! What holds of every pipeline, however it is put together.

use vstd::prelude::*;

#[allow(unused_imports)]
use super::builder::{self, ConnectionView, NodeDesc, NodeInfo, PipelineView};
#[allow(unused_imports)]
use super::desc::{
    self, Deserializer, IoDeserializeable, IoInfoView, IoRegister, IoSerializeable, PortDesc,
    PortInfo, PortName, Serializer,
};
#[allow(unused_imports)]
use super::node::{Input, IoDesc, Output};
#[allow(unused_imports)]
use super::stereo::{StereoDepthInputs, StereoDepthOutputs};
#[allow(unused_imports)]
use crate::rpc::{NodeConnectionSchema, NodeObjInfo};
#[allow(unused_imports)]
use crate::text;

verus! {

/// Whether both ends of every connection are registered.
pub open spec fn ends_are_registered(pipeline: PipelineView) -> bool {
    forall|connection: ConnectionView| #[trigger]
        pipeline.connections.contains(connection) ==> pipeline.nodes.dom().contains(
            connection.input_id,
        ) && pipeline.nodes.dom().contains(connection.output_id)
}

/// Whether `id` is an end of a connection.
pub open spec fn is_end(connections: Set<ConnectionView>, id: u32) -> bool {
    exists|connection: ConnectionView| #[trigger]
        connections.contains(connection) && (connection.input_id == id || connection.output_id
            == id)
}

/// Whether every node that is registered is an end of a connection.
pub open spec fn nodes_are_ends(pipeline: PipelineView) -> bool {
    forall|id: u32| #[trigger]
        pipeline.nodes.dom().contains(id) ==> is_end(pipeline.connections, id)
}

/// Whether one of `ports` has this name.
pub open spec fn names_port(ports: Seq<PortDesc>, name: PortName) -> bool {
    exists|i: int| 0 <= i < ports.len() && (#[trigger] ports[i]).name == name
}

/// Whether every connection leads from an output to an input that its ends have.
pub open spec fn connected_ports_are_registered(pipeline: PipelineView) -> bool {
    forall|connection: ConnectionView| #[trigger]
        pipeline.connections.contains(connection) ==> has_port(
            pipeline,
            connection.input_id,
            connection.input,
        ) && has_port(pipeline, connection.output_id, connection.output)
}

/// Whether every node is registered with the inputs and outputs that `ports` gives for it.
pub open spec fn nodes_have_ports(
    pipeline: PipelineView,
    ports: Map<u32, Seq<PortDesc>>,
) -> bool {
    forall|id: u32, name: PortName|
        #![trigger pipeline.nodes[id].ports.dom().contains(name)]
        pipeline.nodes.dom().contains(id) ==> (pipeline.nodes[id].ports.dom().contains(name)
            <==> names_port(ports[id], name))
}

/// Whether a group, where there is one, is called something.
pub open spec fn group_has_name(port: PortName) -> bool {
    port.0 matches Some(group) ==> group.len() > 0
}

/// Whether every group that a connection leads from or to is called something.
pub open spec fn groups_have_names(pipeline: PipelineView) -> bool {
    forall|connection: ConnectionView| #[trigger]
        pipeline.connections.contains(connection) ==> group_has_name(connection.input)
            && group_has_name(connection.output)
}

/// Whether the numbers of inputs and outputs all differ, and lie below the next to be given.
pub open spec fn port_numbers_differ(pipeline: PipelineView) -> bool {
    &&& forall|node: u32, port: PortName|
        #![trigger pipeline.nodes[node].ports[port]]
        has_port(pipeline, node, port) ==> pipeline.nodes[node].ports[port].id < pipeline.next_io
    &&& forall|a: u32, p: PortName, b: u32, q: PortName|
        #![trigger pipeline.nodes[a].ports[p], pipeline.nodes[b].ports[q]]
        has_port(pipeline, a, p) && has_port(pipeline, b, q) && pipeline.nodes[a].ports[p].id
            == pipeline.nodes[b].ports[q].id ==> a == b && p == q
}

/// Whether the node has an input or output of this name.
pub open spec fn has_port(pipeline: PipelineView, node: u32, port: PortName) -> bool {
    pipeline.nodes.dom().contains(node) && pipeline.nodes[node].ports.dom().contains(port)
}

/// A pipeline of nothing has all that holds of every pipeline.
pub proof fn empty_pipeline_is_sound(ports: Map<u32, Seq<PortDesc>>)
    ensures
        ends_are_registered(PipelineView::initial()),
        nodes_are_ends(PipelineView::initial()),
        nodes_have_ports(PipelineView::initial(), ports),
        connected_ports_are_registered(PipelineView::initial()),
        groups_have_names(PipelineView::initial()),
        port_numbers_differ(PipelineView::initial()),
{
}

/// To make a node, or to give a queue its number, keeps all that holds of every pipeline.
pub proof fn numbering_keeps_pipelines_sound(
    pipeline: PipelineView,
    next_node: nat,
    next_xlink: nat,
    ports: Map<u32, Seq<PortDesc>>,
)
    requires
        ends_are_registered(pipeline),
        nodes_are_ends(pipeline),
        nodes_have_ports(pipeline, ports),
        connected_ports_are_registered(pipeline),
        groups_have_names(pipeline),
        port_numbers_differ(pipeline),
    ensures
        ends_are_registered(PipelineView { next_node, next_xlink, ..pipeline }),
        nodes_are_ends(PipelineView { next_node, next_xlink, ..pipeline }),
        nodes_have_ports(PipelineView { next_node, next_xlink, ..pipeline }, ports),
        connected_ports_are_registered(PipelineView { next_node, next_xlink, ..pipeline }),
        groups_have_names(PipelineView { next_node, next_xlink, ..pipeline }),
        port_numbers_differ(PipelineView { next_node, next_xlink, ..pipeline }),
{
    let after = PipelineView { next_node, next_xlink, ..pipeline };
    assert forall|n: u32, p: PortName| #![trigger after.nodes[n].ports[p]]
        has_port(after, n, p) implies after.nodes[n].ports[p].id < after.next_io by {
        assert(has_port(pipeline, n, p));
        assert(pipeline.nodes[n].ports[p].id < pipeline.next_io);
    }
    assert forall|a: u32, p: PortName, b: u32, q: PortName|
        #![trigger after.nodes[a].ports[p], after.nodes[b].ports[q]]
        has_port(after, a, p) && has_port(after, b, q) && after.nodes[a].ports[p].id
            == after.nodes[b].ports[q].id implies a == b && p == q by {
        assert(has_port(pipeline, a, p) && has_port(pipeline, b, q));
        assert(pipeline.nodes[a].ports[p].id == pipeline.nodes[b].ports[q].id);
    }
}

/// To connect an output to an input keeps both ends of every connection registered.
pub proof fn linking_registers_ends(
    pipeline: PipelineView,
    connection: ConnectionView,
    output: NodeDesc,
    input: NodeDesc,
)
    requires
        ends_are_registered(pipeline),
    ensures
        ends_are_registered(pipeline.linked(connection, output, input)),
{
}

/// To connect an output to an input registers no node but the two ends.
pub proof fn linking_registers_only_ends(
    pipeline: PipelineView,
    connection: ConnectionView,
    output: NodeDesc,
    input: NodeDesc,
)
    requires
        nodes_are_ends(pipeline),
    ensures
        nodes_are_ends(pipeline.linked(connection, output, input)),
{
    let after = pipeline.linked(connection, output, input);
    assert(after.connections.contains(connection));
    assert forall|id: u32| #[trigger] after.nodes.dom().contains(id) implies is_end(
        after.connections,
        id,
    ) by {
        if id != connection.input_id && id != connection.output_id {
            assert(pipeline.nodes.dom().contains(id));
            let old_end = choose|old_end: ConnectionView| #[trigger]
                pipeline.connections.contains(old_end) && (old_end.input_id == id
                    || old_end.output_id == id);
            assert(after.connections.contains(old_end));
        }
    }
}

/// What is registered of a list of inputs and outputs is found by their names.
proof fn registered_names(start: IoInfoView, ports: Seq<PortDesc>, name: PortName)
    ensures
        start.registered(ports).ports.dom().contains(name) <==> start.ports.dom().contains(name)
            || names_port(ports, name),
    decreases ports.len(),
{
    if ports.len() > 0 {
        let before = ports.drop_last();
        registered_names(start, before, name);
        if names_port(before, name) {
            let i = choose|i: int| 0 <= i < before.len() && (#[trigger] before[i]).name == name;
            assert(ports[i].name == name);
        }
        if names_port(ports, name) {
            let i = choose|i: int| 0 <= i < ports.len() && (#[trigger] ports[i]).name == name;
            if i < before.len() {
                assert(before[i].name == name);
            }
        }
        if ports.last().name == name {
            assert(ports[ports.len() - 1].name == name);
        }
    }
}

/// Where nodes keep the inputs and outputs that they have, to connect an output to an input
/// keeps them, and keeps every connection among what its ends have.
pub proof fn linking_connects_registered_ports(
    pipeline: PipelineView,
    connection: ConnectionView,
    output: NodeDesc,
    input: NodeDesc,
    ports: Map<u32, Seq<PortDesc>>,
)
    requires
        ends_are_registered(pipeline),
        nodes_have_ports(pipeline, ports),
        connected_ports_are_registered(pipeline),
        input.ports == ports[connection.input_id],
        output.ports == ports[connection.output_id],
        names_port(input.ports, connection.input),
        names_port(output.ports, connection.output),
    ensures
        nodes_have_ports(pipeline.linked(connection, output, input), ports),
        connected_ports_are_registered(pipeline.linked(connection, output, input)),
{
    let after = pipeline.linked(connection, output, input);
    assert forall|id: u32, name: PortName|
        #![trigger after.nodes[id].ports.dom().contains(name)]
        after.nodes.dom().contains(id) implies (after.nodes[id].ports.dom().contains(name)
        <==> names_port(ports[id], name)) by {
        if id == connection.output_id {
            let start = IoInfoView::starting_at(pipeline.next_io + input.ports.len());
            registered_names(start, output.ports, name);
        } else if id == connection.input_id {
            registered_names(IoInfoView::starting_at(pipeline.next_io), input.ports, name);
        } else {
            assert(pipeline.nodes.dom().contains(id));
            assert(pipeline.nodes[id].ports.dom().contains(name) <==> names_port(
                ports[id],
                name,
            ));
        }
    }
    assert forall|made: ConnectionView| #[trigger] after.connections.contains(made) implies {
        &&& has_port(after, made.input_id, made.input)
        &&& has_port(after, made.output_id, made.output)
    } by {
        if made != connection {
            assert(pipeline.connections.contains(made));
            assert(has_port(pipeline, made.input_id, made.input));
            assert(has_port(pipeline, made.output_id, made.output));
            assert(pipeline.nodes[made.input_id].ports.dom().contains(made.input));
            assert(pipeline.nodes[made.output_id].ports.dom().contains(made.output));
        }
        assert(after.nodes[made.input_id].ports.dom().contains(made.input) <==> names_port(
            ports[made.input_id],
            made.input,
        ));
        assert(after.nodes[made.output_id].ports.dom().contains(made.output) <==> names_port(
            ports[made.output_id],
            made.output,
        ));
    }
}

/// To connect an output to an input of groups that are called something, if they have any,
/// keeps the groups of every connection called something.
pub proof fn linking_keeps_groups_named(
    pipeline: PipelineView,
    connection: ConnectionView,
    output: NodeDesc,
    input: NodeDesc,
)
    requires
        groups_have_names(pipeline),
        group_has_name(connection.input),
        group_has_name(connection.output),
    ensures
        groups_have_names(pipeline.linked(connection, output, input)),
{
}

/// To register a node keeps the numbers of inputs and outputs apart.
pub proof fn registering_keeps_numbers_apart(pipeline: PipelineView, id: u32, node: NodeDesc)
    requires
        port_numbers_differ(pipeline),
    ensures
        port_numbers_differ(pipeline.inserted(id, node)),
{
    let after = pipeline.inserted(id, node);
    let start = IoInfoView::starting_at(pipeline.next_io);
    start.registered_count(node.ports);
    let ports = after.nodes[id].ports;
    assert forall|p: PortName, q: PortName| ports.dom().contains(p) implies {
        &&& pipeline.next_io <= (#[trigger] ports[p]).id < after.next_io
        &&& ports.dom().contains(q) && (#[trigger] ports[q]).id == ports[p].id ==> p == q
    } by {
        start.registered_ids_differ(node.ports, p, q);
    }
    assert forall|n: u32, p: PortName| #![trigger after.nodes[n].ports[p]]
        has_port(after, n, p) implies after.nodes[n].ports[p].id < after.next_io by {
        if n == id {
            assert(ports[p].id < after.next_io) by {
                assert(ports[p] == ports[p]);
            }
        } else {
            assert(has_port(pipeline, n, p));
            assert(pipeline.nodes[n].ports[p].id < pipeline.next_io);
        }
    }
    assert forall|a: u32, p: PortName, b: u32, q: PortName|
        #![trigger after.nodes[a].ports[p], after.nodes[b].ports[q]]
        has_port(after, a, p) && has_port(after, b, q) && after.nodes[a].ports[p].id
            == after.nodes[b].ports[q].id implies a == b && p == q by {
        if a != id {
            assert(has_port(pipeline, a, p));
            assert(pipeline.nodes[a].ports[p].id < pipeline.next_io);
        }
        if b != id {
            assert(has_port(pipeline, b, q));
            assert(pipeline.nodes[b].ports[q].id < pipeline.next_io);
        }
        if a == id {
            assert(ports[p].id >= pipeline.next_io);
        }
        if b == id {
            assert(ports[q].id >= pipeline.next_io);
        }
    }
}

/// To connect an output to an input keeps the numbers of inputs and outputs apart.
pub proof fn linking_keeps_numbers_apart(
    pipeline: PipelineView,
    connection: ConnectionView,
    output: NodeDesc,
    input: NodeDesc,
)
    requires
        port_numbers_differ(pipeline),
    ensures
        port_numbers_differ(pipeline.linked(connection, output, input)),
{
    let connected = PipelineView {
        connections: pipeline.connections.insert(connection),
        ..pipeline
    };
    assert(port_numbers_differ(connected)) by {
        assert forall|n: u32, p: PortName| #![trigger connected.nodes[n].ports[p]]
            has_port(connected, n, p) implies connected.nodes[n].ports[p].id
            < connected.next_io by {
            assert(has_port(pipeline, n, p));
            assert(pipeline.nodes[n].ports[p].id < pipeline.next_io);
        }
        assert forall|a: u32, p: PortName, b: u32, q: PortName|
            #![trigger connected.nodes[a].ports[p], connected.nodes[b].ports[q]]
            has_port(connected, a, p) && has_port(connected, b, q)
                && connected.nodes[a].ports[p].id
                == connected.nodes[b].ports[q].id implies a == b && p == q by {
            assert(has_port(pipeline, a, p) && has_port(pipeline, b, q));
            assert(pipeline.nodes[a].ports[p].id == pipeline.nodes[b].ports[q].id);
        }
    }
    registering_keeps_numbers_apart(connected, connection.input_id, input);
    registering_keeps_numbers_apart(
        connected.inserted(connection.input_id, input),
        connection.output_id,
        output,
    );
}

/// To connect the same output and input again makes no second connection, and no other node.
pub proof fn linking_again_connects_nothing_new(
    pipeline: PipelineView,
    connection: ConnectionView,
    output: NodeDesc,
    input: NodeDesc,
    later_output: NodeDesc,
    later_input: NodeDesc,
)
    ensures
        ({
            let once = pipeline.linked(connection, output, input);
            let twice = once.linked(connection, later_output, later_input);
            &&& twice.connections == once.connections
            &&& twice.nodes.dom() == once.nodes.dom()
        }),
{
    let once = pipeline.linked(connection, output, input);
    let twice = once.linked(connection, later_output, later_input);
    assert(twice.connections =~= once.connections);
    assert(twice.nodes.dom() =~= once.nodes.dom());
}

/// To connect two nodes leaves what is known of every other as it was.
pub proof fn linking_leaves_other_nodes_alone(
    pipeline: PipelineView,
    connection: ConnectionView,
    output: NodeDesc,
    input: NodeDesc,
    other: u32,
)
    requires
        other != connection.input_id,
        other != connection.output_id,
    ensures
        pipeline.linked(connection, output, input).nodes.dom().contains(other)
            <==> pipeline.nodes.dom().contains(other),
        pipeline.linked(connection, output, input).nodes[other] == pipeline.nodes[other],
{
}

/// Every connection of a built pipeline leads from one of its nodes to one of its nodes.
pub proof fn built_connections_lead_to_built_nodes(
    pipeline: PipelineView,
    connections: Seq<NodeConnectionSchema>,
    nodes: Seq<(i64, NodeObjInfo)>,
    device_id: Seq<char>,
    at: int,
)
    requires
        ends_are_registered(pipeline),
        builder::lists_connections(connections, pipeline.connections),
        builder::lists_nodes(nodes, pipeline.nodes, device_id),
        0 <= at < connections.len(),
    ensures
        exists|i: int| 0 <= i < nodes.len() && (#[trigger] nodes[i]).0 == connections[at].output_id,
        exists|i: int| 0 <= i < nodes.len() && (#[trigger] nodes[i]).0 == connections[at].input_id,
{
    let links = choose|order: Seq<ConnectionView>|
        order.no_duplicates() && order.to_set() == pipeline.connections
            && #[trigger] builder::is_connection_list(connections, order);
    let ids = choose|order: Seq<u32>|
        order.no_duplicates() && order.to_set() == pipeline.nodes.dom()
            && #[trigger] builder::is_node_list(nodes, pipeline.nodes, order, device_id);
    let link = links[at];
    assert(builder::is_connection_schema(connections[at], link));
    assert(links.to_set().contains(link));
    assert(pipeline.connections.contains(link));
    assert(ids.to_set().contains(link.output_id));
    assert(ids.to_set().contains(link.input_id));
    let i = choose|i: int| 0 <= i < ids.len() && ids[i] == link.output_id;
    let j = choose|j: int| 0 <= j < ids.len() && ids[j] == link.input_id;
    assert(builder::is_node_schema(nodes[i], ids[i], pipeline.nodes[ids[i]], device_id));
    assert(builder::is_node_schema(nodes[j], ids[j], pipeline.nodes[ids[j]], device_id));
}

/// Whether a built pipeline has the node `id`.
pub open spec fn is_listed(nodes: Seq<(i64, NodeObjInfo)>, id: i64) -> bool {
    exists|i: int| 0 <= i < nodes.len() && (#[trigger] nodes[i]).0 == id
}

/// Whether the node `id` is an end of a connection of a built pipeline.
pub open spec fn is_listed_end(connections: Seq<NodeConnectionSchema>, id: i64) -> bool {
    exists|j: int|
        0 <= j < connections.len() && ((#[trigger] connections[j]).output_id == id
            || connections[j].input_id == id)
}

/// The nodes of a built pipeline are the ends of its connections and no others: nodes that were
/// made and never connected are not among them.
pub proof fn built_nodes_are_ends(
    pipeline: PipelineView,
    connections: Seq<NodeConnectionSchema>,
    nodes: Seq<(i64, NodeObjInfo)>,
    device_id: Seq<char>,
    id: i64,
)
    requires
        ends_are_registered(pipeline),
        nodes_are_ends(pipeline),
        builder::lists_connections(connections, pipeline.connections),
        builder::lists_nodes(nodes, pipeline.nodes, device_id),
    ensures
        is_listed(nodes, id) <==> is_listed_end(connections, id),
{
    let links = choose|order: Seq<ConnectionView>|
        order.no_duplicates() && order.to_set() == pipeline.connections
            && #[trigger] builder::is_connection_list(connections, order);
    let ids = choose|order: Seq<u32>|
        order.no_duplicates() && order.to_set() == pipeline.nodes.dom()
            && #[trigger] builder::is_node_list(nodes, pipeline.nodes, order, device_id);
    if is_listed(nodes, id) {
        let i = choose|i: int| 0 <= i < nodes.len() && (#[trigger] nodes[i]).0 == id;
        assert(builder::is_node_schema(nodes[i], ids[i], pipeline.nodes[ids[i]], device_id));
        assert(ids.to_set().contains(ids[i]));
        assert(pipeline.nodes.dom().contains(ids[i]));
        let link = choose|link: ConnectionView| #[trigger]
            pipeline.connections.contains(link) && (link.input_id == ids[i] || link.output_id
                == ids[i]);
        assert(links.to_set().contains(link));
        let j = choose|j: int| 0 <= j < links.len() && links[j] == link;
        assert(builder::is_connection_schema(connections[j], links[j]));
    }
    if is_listed_end(connections, id) {
        let j = choose|j: int|
            0 <= j < connections.len() && ((#[trigger] connections[j]).output_id == id
                || connections[j].input_id == id);
        built_connections_lead_to_built_nodes(pipeline, connections, nodes, device_id, j);
    }
}

/// No node of a built pipeline comes twice.
pub proof fn built_nodes_differ(
    pipeline: PipelineView,
    nodes: Seq<(i64, NodeObjInfo)>,
    device_id: Seq<char>,
    i: int,
    j: int,
)
    requires
        builder::lists_nodes(nodes, pipeline.nodes, device_id),
        0 <= i < nodes.len(),
        0 <= j < nodes.len(),
        nodes[i].0 == nodes[j].0,
    ensures
        i == j,
{
    let ids = choose|order: Seq<u32>|
        order.no_duplicates() && order.to_set() == pipeline.nodes.dom()
            && #[trigger] builder::is_node_list(nodes, pipeline.nodes, order, device_id);
    assert(builder::is_node_schema(nodes[i], ids[i], pipeline.nodes[ids[i]], device_id));
    assert(builder::is_node_schema(nodes[j], ids[j], pipeline.nodes[ids[j]], device_id));
}

/// Whether `connection` is the same as `other`.
pub open spec fn is_same_connection(
    connection: NodeConnectionSchema,
    other: NodeConnectionSchema,
) -> bool {
    &&& connection.output_id == other.output_id
    &&& connection.output_group@ == other.output_group@
    &&& connection.output@ == other.output@
    &&& connection.input_id == other.input_id
    &&& connection.input_group@ == other.input_group@
    &&& connection.input@ == other.input@
}

/// No connection of a built pipeline comes twice.
pub proof fn built_connections_differ(
    pipeline: PipelineView,
    connections: Seq<NodeConnectionSchema>,
    i: int,
    j: int,
)
    requires
        groups_have_names(pipeline),
        builder::lists_connections(connections, pipeline.connections),
        0 <= i < connections.len(),
        0 <= j < connections.len(),
        is_same_connection(connections[i], connections[j]),
    ensures
        i == j,
{
    let links = choose|order: Seq<ConnectionView>|
        order.no_duplicates() && order.to_set() == pipeline.connections
            && #[trigger] builder::is_connection_list(connections, order);
    let (a, b) = (links[i], links[j]);
    assert(builder::is_connection_schema(connections[i], a));
    assert(builder::is_connection_schema(connections[j], b));
    assert(links.to_set().contains(a) && links.to_set().contains(b));
    assert(pipeline.connections.contains(a) && pipeline.connections.contains(b));
    assert(a.input.0 == b.input.0 && a.output.0 == b.output.0);
    assert(a.input == b.input && a.output == b.output);
    assert(a == b);
}

/// Whether a built node has an input or output of this group and name.
pub open spec fn lists_port(node: NodeObjInfo, group: Seq<char>, name: Seq<char>) -> bool {
    exists|k: int|
        0 <= k < node.io_info@.len() && (#[trigger] node.io_info@[k]).0.0@ == group
            && node.io_info@[k].0.1@ == name
}

/// Whether a connection leads from an output that its node lists to an input that its node
/// lists.
pub open spec fn leads_to_ports(
    nodes: Seq<(i64, NodeObjInfo)>,
    connection: NodeConnectionSchema,
) -> bool {
    &&& exists|i: int|
        0 <= i < nodes.len() && (#[trigger] nodes[i]).0 == connection.output_id && lists_port(
            nodes[i].1,
            connection.output_group@,
            connection.output@,
        )
    &&& exists|i: int|
        0 <= i < nodes.len() && (#[trigger] nodes[i]).0 == connection.input_id && lists_port(
            nodes[i].1,
            connection.input_group@,
            connection.input@,
        )
}

/// A port that is registered of a node is listed by it.
proof fn registered_ports_are_listed(
    node: NodeObjInfo,
    ports: Map<PortName, PortInfo>,
    name: PortName,
)
    requires
        builder::lists_ports(node.io_info@, ports),
        ports.dom().contains(name),
    ensures
        lists_port(node, text::or_empty(name.0), name.1),
{
    let order = choose|order: Seq<PortName>|
        order.no_duplicates() && order.to_set() == ports.dom() && #[trigger] builder::is_port_list(
            node.io_info@,
            ports,
            order,
        );
    assert(order.to_set().contains(name));
    let k = choose|k: int| 0 <= k < order.len() && order[k] == name;
    assert(builder::is_port_schema(node.io_info@[k], order[k], ports[order[k]]));
}

/// Every connection of a built pipeline leads from an output that its node lists to an input
/// that its node lists.
pub proof fn built_connections_lead_to_built_ports(
    pipeline: PipelineView,
    connections: Seq<NodeConnectionSchema>,
    nodes: Seq<(i64, NodeObjInfo)>,
    device_id: Seq<char>,
    at: int,
)
    requires
        connected_ports_are_registered(pipeline),
        builder::lists_connections(connections, pipeline.connections),
        builder::lists_nodes(nodes, pipeline.nodes, device_id),
        0 <= at < connections.len(),
    ensures
        leads_to_ports(nodes, connections[at]),
{
    let links = choose|order: Seq<ConnectionView>|
        order.no_duplicates() && order.to_set() == pipeline.connections
            && #[trigger] builder::is_connection_list(connections, order);
    let ids = choose|order: Seq<u32>|
        order.no_duplicates() && order.to_set() == pipeline.nodes.dom()
            && #[trigger] builder::is_node_list(nodes, pipeline.nodes, order, device_id);
    let link = links[at];
    assert(builder::is_connection_schema(connections[at], link));
    assert(links.to_set().contains(link));
    assert(pipeline.connections.contains(link));
    assert(has_port(pipeline, link.output_id, link.output));
    assert(has_port(pipeline, link.input_id, link.input));
    assert(ids.to_set().contains(link.output_id));
    assert(ids.to_set().contains(link.input_id));
    let i = choose|i: int| 0 <= i < ids.len() && ids[i] == link.output_id;
    let j = choose|j: int| 0 <= j < ids.len() && ids[j] == link.input_id;
    assert(builder::is_node_schema(nodes[i], ids[i], pipeline.nodes[ids[i]], device_id));
    assert(builder::is_node_schema(nodes[j], ids[j], pipeline.nodes[ids[j]], device_id));
    registered_ports_are_listed(nodes[i].1, pipeline.nodes[ids[i]].ports, link.output);
    registered_ports_are_listed(nodes[j].1, pipeline.nodes[ids[j]].ports, link.input);
}

/// How many nodes and queues were made makes no difference to what a link does.
pub proof fn linking_does_not_depend_on_counts(
    pipeline: PipelineView,
    next_node: nat,
    next_xlink: nat,
    connection: ConnectionView,
    output: NodeDesc,
    input: NodeDesc,
)
    ensures
        (PipelineView { next_node, next_xlink, ..pipeline }).linked(connection, output, input) == (
        PipelineView { next_node, next_xlink, ..pipeline.linked(connection, output, input) }),
{
}

/// An output and an input that are connected, with what is registered of their nodes.
pub struct Link {
    pub connection: ConnectionView,
    pub output: NodeDesc,
    pub input: NodeDesc,
}

/// The pipeline that comes of connecting `links` one after the other.
pub open spec fn linked_in_turn(links: Seq<Link>) -> PipelineView
    decreases links.len(),
{
    if links.len() == 0 {
        PipelineView::initial()
    } else {
        linked_in_turn(links.drop_last()).linked(
            links.last().connection,
            links.last().output,
            links.last().input,
        )
    }
}

/// Whether a link is between nodes that have the inputs and outputs that `ports` gives for them,
/// and leads from one of the first node's to one of the second's.
pub open spec fn is_proper(link: Link, ports: Map<u32, Seq<PortDesc>>) -> bool {
    &&& link.input.ports == ports[link.connection.input_id]
    &&& link.output.ports == ports[link.connection.output_id]
    &&& names_port(link.input.ports, link.connection.input)
    &&& names_port(link.output.ports, link.connection.output)
    &&& group_has_name(link.connection.input)
    &&& group_has_name(link.connection.output)
}

/// However many proper links are made, all that holds of every pipeline holds in the end.
pub proof fn linking_in_turn_is_sound(links: Seq<Link>, ports: Map<u32, Seq<PortDesc>>)
    requires
        forall|i: int| 0 <= i < links.len() ==> is_proper(#[trigger] links[i], ports),
    ensures
        ends_are_registered(linked_in_turn(links)),
        nodes_are_ends(linked_in_turn(links)),
        nodes_have_ports(linked_in_turn(links), ports),
        connected_ports_are_registered(linked_in_turn(links)),
        groups_have_names(linked_in_turn(links)),
        port_numbers_differ(linked_in_turn(links)),
    decreases links.len(),
{
    if links.len() == 0 {
        empty_pipeline_is_sound(ports);
    } else {
        let rest = links.drop_last();
        assert forall|i: int| 0 <= i < rest.len() implies is_proper(#[trigger] rest[i], ports) by {
            assert(rest[i] == links[i]);
        }
        linking_in_turn_is_sound(rest, ports);
        let before = linked_in_turn(rest);
        let Link { connection, output, input } = links.last();
        assert(is_proper(links[links.len() - 1], ports));
        linking_registers_ends(before, connection, output, input);
        linking_registers_only_ends(before, connection, output, input);
        linking_connects_registered_ports(before, connection, output, input, ports);
        linking_keeps_groups_named(before, connection, output, input);
        linking_keeps_numbers_apart(before, connection, output, input);
    }
}

/// Of a pipeline that comes of proper links and is built: its nodes are the ends of its
/// connections and no others, each once; no connection comes twice; and every connection leads
/// from an output that its node lists to an input that its node lists.
pub proof fn built_pipelines_are_whole(
    links: Seq<Link>,
    ports: Map<u32, Seq<PortDesc>>,
    connections: Seq<NodeConnectionSchema>,
    nodes: Seq<(i64, NodeObjInfo)>,
    device_id: Seq<char>,
)
    requires
        forall|i: int| 0 <= i < links.len() ==> is_proper(#[trigger] links[i], ports),
        builder::lists_connections(connections, linked_in_turn(links).connections),
        builder::lists_nodes(nodes, linked_in_turn(links).nodes, device_id),
    ensures
        forall|id: i64|
            #![trigger is_listed(nodes, id)]
            is_listed(nodes, id) <==> is_listed_end(connections, id),
        forall|i: int, j: int|
            0 <= i < nodes.len() && 0 <= j < nodes.len() && (#[trigger] nodes[i]).0 == (
            #[trigger] nodes[j]).0 ==> i == j,
        forall|i: int, j: int|
            0 <= i < connections.len() && 0 <= j < connections.len()
                && #[trigger] is_same_connection(connections[i], connections[j]) ==> i == j,
        forall|at: int|
            0 <= at < connections.len() ==> leads_to_ports(nodes, #[trigger] connections[at]),
{
    let pipeline = linked_in_turn(links);
    linking_in_turn_is_sound(links, ports);
    assert forall|id: i64| #![trigger is_listed(nodes, id)]
        is_listed(nodes, id) <==> is_listed_end(connections, id) by {
        built_nodes_are_ends(pipeline, connections, nodes, device_id, id);
    }
    assert forall|i: int, j: int|
        0 <= i < nodes.len() && 0 <= j < nodes.len() && (#[trigger] nodes[i]).0 == (
        #[trigger] nodes[j]).0 implies i == j by {
        built_nodes_differ(pipeline, nodes, device_id, i, j);
    }
    assert forall|i: int, j: int|
        0 <= i < connections.len() && 0 <= j < connections.len()
            && #[trigger] is_same_connection(connections[i], connections[j]) implies i == j by {
        built_connections_differ(pipeline, connections, i, j);
    }
    assert forall|at: int| 0 <= at < connections.len() implies leads_to_ports(
        nodes,
        #[trigger] connections[at],
    ) by {
        built_connections_lead_to_built_ports(pipeline, connections, nodes, device_id, at);
    }
}

/// What an input refers to is among what is registered of it.
pub proof fn inputs_are_registered<T: IoDesc + IoSerializeable<S>, S: Serializer>(
    input: Input<T, S>,
)
    ensures
        names_port(input.ports(), input.port().name),
{
    assert(input.ports()[0] == input.port());
}

/// What an output refers to is among what is registered of it.
pub proof fn outputs_are_registered<T: IoDesc + IoDeserializeable<D>, D: Deserializer>(
    output: Output<T, D>,
)
    ensures
        names_port(output.ports(), output.port().name),
{
    assert(output.ports()[0] == output.port());
}

/// What is among the one or the other of two lists is among both.
pub proof fn both_are_registered(first: Seq<PortDesc>, second: Seq<PortDesc>, name: PortName)
    ensures
        names_port(first + second, name) <==> names_port(first, name) || names_port(second, name),
{
    let both = first + second;
    if names_port(first, name) {
        let i = choose|i: int| 0 <= i < first.len() && (#[trigger] first[i]).name == name;
        assert(both[i] == first[i]);
    }
    if names_port(second, name) {
        let i = choose|i: int| 0 <= i < second.len() && (#[trigger] second[i]).name == name;
        assert(both[first.len() + i] == second[i]);
    }
    if names_port(both, name) {
        let i = choose|i: int| 0 <= i < both.len() && (#[trigger] both[i]).name == name;
        if i < first.len() {
            assert(first[i] == both[i]);
        } else {
            assert(second[i - first.len()] == both[i]);
        }
    }
}

/// What each of a list of outputs refers to is among what is registered of the list.
pub proof fn listed_outputs_are_registered<T: IoDesc + IoDeserializeable<D>, D: Deserializer>(
    outputs: Seq<Output<T, D>>,
    at: int,
)
    requires
        0 <= at < outputs.len(),
    ensures
        names_port(desc::ports_of(outputs), outputs[at].port().name),
    decreases outputs.len(),
{
    let before = outputs.drop_last();
    let name = outputs[at].port().name;
    if at < before.len() {
        listed_outputs_are_registered(before, at);
        assert(before[at] == outputs[at]);
    } else {
        outputs_are_registered(outputs.last());
    }
    both_are_registered(desc::ports_of(before), outputs.last().ports(), name);
}

/// What each input of a node that computes depth refers to is among what is registered of them.
pub proof fn stereo_inputs_are_registered(inputs: StereoDepthInputs)
    ensures
        names_port(inputs.ports(), inputs.input_config.port().name),
        names_port(inputs.ports(), inputs.input_align_to.port().name),
        names_port(inputs.ports(), inputs.left.port().name),
        names_port(inputs.ports(), inputs.right.port().name),
{
    let ports = inputs.ports();
    assert(ports[0] == inputs.input_config.port());
    assert(ports[1] == inputs.input_align_to.port());
    assert(ports[2] == inputs.left.port());
    assert(ports[3] == inputs.right.port());
}

/// What each output of a node that computes depth refers to is among what is registered of them.
pub proof fn stereo_outputs_are_registered(outputs: StereoDepthOutputs)
    ensures
        names_port(outputs.ports(), outputs.depth.port().name),
        names_port(outputs.ports(), outputs.disparity.port().name),
        names_port(outputs.ports(), outputs.snyced_left.port().name),
        names_port(outputs.ports(), outputs.synced_right.port().name),
        names_port(outputs.ports(), outputs.rectified_left.port().name),
        names_port(outputs.ports(), outputs.rectified_right.port().name),
        names_port(outputs.ports(), outputs.config.port().name),
        names_port(outputs.ports(), outputs.debug_lr_check_i1.port().name),
        names_port(outputs.ports(), outputs.debug_lr_check_i2.port().name),
        names_port(outputs.ports(), outputs.debug_ext_lr_check_i1.port().name),
        names_port(outputs.ports(), outputs.debug_ext_lr_check_i2.port().name),
        names_port(outputs.ports(), outputs.debug_cost_dump.port().name),
        names_port(outputs.ports(), outputs.confidence_map.port().name),
{
    let ports = outputs.ports();
    assert(ports[0] == outputs.depth.port());
    assert(ports[1] == outputs.disparity.port());
    assert(ports[2] == outputs.snyced_left.port());
    assert(ports[3] == outputs.synced_right.port());
    assert(ports[4] == outputs.rectified_left.port());
    assert(ports[5] == outputs.rectified_right.port());
    assert(ports[6] == outputs.config.port());
    assert(ports[7] == outputs.debug_lr_check_i1.port());
    assert(ports[8] == outputs.debug_lr_check_i2.port());
    assert(ports[9] == outputs.debug_ext_lr_check_i1.port());
    assert(ports[10] == outputs.debug_ext_lr_check_i2.port());
    assert(ports[11] == outputs.debug_cost_dump.port());
    assert(ports[12] == outputs.confidence_map.port());
}

/// The inputs and outputs of a built pipeline have numbers of their own: no two of them, of the
/// same node or of different ones, share one.
pub proof fn built_numbers_differ(
    pipeline: PipelineView,
    nodes: Seq<(i64, NodeObjInfo)>,
    device_id: Seq<char>,
    i: int,
    k: int,
    j: int,
    l: int,
)
    requires
        port_numbers_differ(pipeline),
        builder::lists_nodes(nodes, pipeline.nodes, device_id),
        0 <= i < nodes.len(),
        0 <= k < nodes[i].1.io_info@.len(),
        0 <= j < nodes.len(),
        0 <= l < nodes[j].1.io_info@.len(),
        nodes[i].1.io_info@[k].1.id == nodes[j].1.io_info@[l].1.id,
    ensures
        i == j,
        k == l,
{
    let ids = choose|order: Seq<u32>|
        order.no_duplicates() && order.to_set() == pipeline.nodes.dom()
            && #[trigger] builder::is_node_list(nodes, pipeline.nodes, order, device_id);
    assert(builder::is_node_schema(nodes[i], ids[i], pipeline.nodes[ids[i]], device_id));
    assert(builder::is_node_schema(nodes[j], ids[j], pipeline.nodes[ids[j]], device_id));
    assert(ids.to_set().contains(ids[i]) && ids.to_set().contains(ids[j]));
    let (a, b) = (pipeline.nodes[ids[i]].ports, pipeline.nodes[ids[j]].ports);
    let first = choose|order: Seq<PortName>|
        order.no_duplicates() && order.to_set() == a.dom() && #[trigger] builder::is_port_list(
            nodes[i].1.io_info@,
            a,
            order,
        );
    let second = choose|order: Seq<PortName>|
        order.no_duplicates() && order.to_set() == b.dom() && #[trigger] builder::is_port_list(
            nodes[j].1.io_info@,
            b,
            order,
        );
    assert(builder::is_port_schema(nodes[i].1.io_info@[k], first[k], a[first[k]]));
    assert(builder::is_port_schema(nodes[j].1.io_info@[l], second[l], b[second[l]]));
    assert(first.to_set().contains(first[k]) && second.to_set().contains(second[l]));
    assert(has_port(pipeline, ids[i], first[k]) && has_port(pipeline, ids[j], second[l]));
    assert(pipeline.nodes[ids[i]].ports[first[k]].id == pipeline.nodes[ids[j]].ports[second[l]].id);
    assert(ids[i] == ids[j] && first[k] == second[l]);
}

} // verus!
