//! What the inputs and outputs of nodes are called, and how they are numbered.

use vstd::prelude::*;

#[allow(unused_imports)]
use super::desc::{
    self, Deserializer, IoDescConf, IoDeserializeable, IoInfo, IoInfoView, IoRegister,
    IoSerializeable, PortDesc, PortInfo, PortName, RnopDeserializer, Serializer,
};
#[allow(unused_imports)]
use super::node::{Dynamic, Input, IoDesc, Node, NodeT, Out, Output, OutputRef, OutputRefIter};
#[allow(unused_imports)]
use super::{
    Camera, CameraCapability, CameraFrame, Imu, ImuProperties, ImuSensorKind, StereoDepth,
    StereoDepthInputRef, StereoDepthInputs, StereoDepthOutputRef, StereoDepthOutputs, SystemLogger,
    XLinkOut,
};
#[allow(unused_imports)]
use crate::rpc::NodeType;
#[allow(unused_imports)]
use crate::text;

verus! {

/// The device knows each kind of node by its name. None has another.
pub proof fn nodes_by_name()
    ensures
        Camera::spec_name() == "Camera"@,
        Imu::spec_name() == "IMU"@,
        SystemLogger::spec_name() == "SystemLogger"@,
        XLinkOut::spec_name() == "XLinkOut"@,
        StereoDepth::spec_name() == "StereoDepth"@,
        Camera::spec_alias() is None,
        Imu::spec_alias() is None,
        SystemLogger::spec_alias() is None,
        XLinkOut::spec_alias() is None,
        StereoDepth::spec_alias() is None,
{
}

/// Each input of a node that computes depth is the one that the device knows by that name.
pub proof fn stereo_inputs_by_name(inputs: StereoDepthInputs)
    ensures
        inputs.input_config.port().name == (None::<Seq<char>>, "inputConfig"@),
        inputs.input_align_to.port().name == (None::<Seq<char>>, "inputAlignTo"@),
        inputs.left.port().name == (None::<Seq<char>>, "left"@),
        inputs.right.port().name == (None::<Seq<char>>, "right"@),
        inputs.input_config.port().ty == NodeType::SReceiver,
        inputs.input_align_to.port().ty == NodeType::SReceiver,
        inputs.left.port().ty == NodeType::SReceiver,
        inputs.right.port().ty == NodeType::SReceiver,
{
}

/// Each output of a node that computes depth is the one that the device knows by that name.
pub proof fn stereo_outputs_by_name(outputs: StereoDepthOutputs)
    ensures
        outputs.depth.port().name == (None::<Seq<char>>, "depth"@),
        outputs.disparity.port().name == (None::<Seq<char>>, "disparity"@),
        outputs.snyced_left.port().name == (None::<Seq<char>>, "syncedLeft"@),
        outputs.synced_right.port().name == (None::<Seq<char>>, "syncedRight"@),
        outputs.rectified_left.port().name == (None::<Seq<char>>, "rectifiedLeft"@),
        outputs.rectified_right.port().name == (None::<Seq<char>>, "rectifiedRight"@),
        outputs.config.port().name == (None::<Seq<char>>, "outConfig"@),
        outputs.debug_lr_check_i1.port().name == (None::<Seq<char>>, "debugDispLrCheckIt1"@),
        outputs.debug_lr_check_i2.port().name == (None::<Seq<char>>, "debugDispLrCheckIt2"@),
        outputs.debug_ext_lr_check_i1.port().name == (
            None::<Seq<char>>,
            "debugExtDispLrCheckIt1"@,
        ),
        outputs.debug_ext_lr_check_i2.port().name == (
            None::<Seq<char>>,
            "debugExtDispLrCheckIt2"@,
        ),
        outputs.debug_cost_dump.port().name == (None::<Seq<char>>, "debugDispCostDump"@),
        outputs.confidence_map.port().name == (None::<Seq<char>>, "confidenceMap"@),
{
}

/// Any number of connections can start at each output of a node that computes depth.
pub proof fn stereo_outputs_send(outputs: StereoDepthOutputs)
    ensures
        outputs.depth.port().ty == NodeType::MSender,
        outputs.disparity.port().ty == NodeType::MSender,
        outputs.snyced_left.port().ty == NodeType::MSender,
        outputs.synced_right.port().ty == NodeType::MSender,
        outputs.rectified_left.port().ty == NodeType::MSender,
        outputs.rectified_right.port().ty == NodeType::MSender,
        outputs.config.port().ty == NodeType::MSender,
        outputs.debug_lr_check_i1.port().ty == NodeType::MSender,
        outputs.debug_lr_check_i2.port().ty == NodeType::MSender,
        outputs.debug_ext_lr_check_i1.port().ty == NodeType::MSender,
        outputs.debug_ext_lr_check_i2.port().ty == NodeType::MSender,
        outputs.debug_cost_dump.port().ty == NodeType::MSender,
        outputs.confidence_map.port().ty == NodeType::MSender,
{
}

/// The inputs and the outputs of a node that computes depth are registered one after the other,
/// each once.
pub proof fn stereo_ports_in_order(inputs: StereoDepthInputs, outputs: StereoDepthOutputs)
    ensures
        inputs.ports() == seq![
            inputs.input_config.port(),
            inputs.input_align_to.port(),
            inputs.left.port(),
            inputs.right.port(),
        ],
        outputs.ports() == seq![
            outputs.depth.port(),
            outputs.disparity.port(),
            outputs.snyced_left.port(),
            outputs.synced_right.port(),
            outputs.rectified_left.port(),
            outputs.rectified_right.port(),
            outputs.config.port(),
            outputs.debug_lr_check_i1.port(),
            outputs.debug_lr_check_i2.port(),
            outputs.debug_ext_lr_check_i1.port(),
            outputs.debug_ext_lr_check_i2.port(),
            outputs.debug_cost_dump.port(),
            outputs.confidence_map.port(),
        ],
{
}

/// Each input and output of a camera is the one that the device knows by that name. Those that
/// are made on request stand in a group and are called by the name that they are given.
pub proof fn camera_ports_by_name(camera: NodeT<Camera>)
    ensures
        camera.input.0.port().name == (None::<Seq<char>>, "inputControl"@),
        camera.input.0.port().ty == NodeType::SReceiver,
        camera.input.1.port().name == (None::<Seq<char>>, "mockIsp"@),
        camera.input.1.port().ty == NodeType::SReceiver,
        camera.output.0.port().name == (None::<Seq<char>>, "raw"@),
        camera.output.0.port().ty == NodeType::MSender,
        forall|i: int|
            0 <= i < camera.output.1@.len() ==> {
                let port = (#[trigger] camera.output.1@[i]).port();
                &&& port.name == (Some("dynamicOutputs"@), camera.output.1@[i].output.name@)
                &&& port.ty == NodeType::MSender
            },
{
}

/// Each input and output of the other nodes is the one that the device knows by that name.
pub proof fn other_ports_by_name(
    imu: NodeT<Imu>,
    logger: NodeT<SystemLogger>,
    xlink: NodeT<XLinkOut>,
)
    ensures
        imu.input.port().name == (None::<Seq<char>>, "mockIn"@),
        imu.input.port().ty == NodeType::SReceiver,
        imu.output.port().name == (None::<Seq<char>>, "out"@),
        imu.output.port().ty == NodeType::MSender,
        logger.output.port().name == (None::<Seq<char>>, "out"@),
        logger.output.port().ty == NodeType::MSender,
        logger.input.ports().len() == 0,
        xlink.input.port().name == (None::<Seq<char>>, "in"@),
        xlink.input.port().ty == NodeType::SReceiver,
        xlink.output.ports().len() == 0,
{
}

/// What an input or an output is set to is what is registered of it.
pub proof fn ports_are_set_as_they_are<
    I: IoDesc + IoSerializeable<S>,
    S: Serializer,
    O: IoDesc + IoDeserializeable<D>,
    D: Deserializer,
>(input: Input<I, S>, output: Output<O, D>)
    ensures
        input.port().conf == input.conf,
        input.port().name == (I::spec_group(), I::spec_name(&input.input)),
        input.port().ty == I::spec_node_type(&input.input),
        input.ports() == seq![input.port()],
        output.port().conf == output.conf,
        output.port().name == (O::spec_group(), O::spec_name(&output.output)),
        output.port().ty == O::spec_node_type(&output.output),
        output.ports() == seq![output.port()],
{
}

/// Inputs and outputs do not block and do not wait, and hold eight messages, unless set.
pub proof fn ports_unless_set(conf: IoDescConf)
    requires
        call_ensures(IoDescConf::default, (), conf),
    ensures
        !conf.blocking,
        conf.queue_size == Some(8i32),
        !conf.wait_for_message,
{
}

/// Of two things that are registered together, those of the first come first.
pub proof fn both_in_order<A: IoRegister, B: IoRegister>(both: (A, B))
    ensures
        both.ports() == both.0.ports() + both.1.ports(),
{
}

/// Of a list of things that are registered, each comes in its place: those of a first part come
/// first, and those of the rest come after.
pub proof fn lists_in_order<T: IoRegister>(first: Seq<T>, rest: Seq<T>)
    ensures
        desc::ports_of(first + rest) == desc::ports_of(first) + desc::ports_of(rest),
    decreases rest.len(),
{
    if rest.len() == 0 {
        assert(first + rest =~= first);
        assert(desc::ports_of(first) + desc::ports_of(rest) =~= desc::ports_of(first));
    } else {
        lists_in_order(first, rest.drop_last());
        assert((first + rest).drop_last() =~= first + rest.drop_last());
        assert(desc::ports_of(first + rest) =~= desc::ports_of(first) + desc::ports_of(rest));
    }
}

/// Of a list, what is registered is what is registered of its items, and nothing of an empty one.
pub proof fn lists_of_one<T: IoRegister>(one: Vec<T>)
    ensures
        one@.len() == 0 ==> one.ports().len() == 0,
        one@.len() == 1 ==> one.ports() == one@[0].ports(),
        one.ports() == desc::ports_of(one@),
{
    if one@.len() == 1 {
        assert(one@.drop_last().len() == 0);
        assert(desc::ports_of(one@.drop_last()).len() == 0);
        assert(one.ports() =~= one@[0].ports());
    }
}

/// Inputs and outputs are numbered as they come, from the number that is next, and each keeps its
/// type and what it is set to. Of several of one name the last counts.
pub proof fn ports_are_numbered_in_order(
    start: IoInfoView,
    ports: Seq<PortDesc>,
    i: int,
)
    requires
        0 <= i < ports.len(),
        forall|j: int| i < j < ports.len() ==> (#[trigger] ports[j]).name != ports[i].name,
    ensures
        start.registered(ports).next_id == start.next_id + ports.len(),
        start.registered(ports).ports.dom().contains(ports[i].name),
        start.registered(ports).ports[ports[i].name] == (PortInfo {
            ty: ports[i].ty,
            conf: ports[i].conf,
            id: (start.next_id + i) as nat,
        }),
    decreases ports.len(),
{
    start.registered_count(ports);
    let before = ports.drop_last();
    start.registered_count(before);
    if i < before.len() {
        assert forall|j: int| i < j < before.len() implies (#[trigger] before[j]).name
            != before[i].name by {
            assert(ports[j].name != ports[i].name);
        }
        ports_are_numbered_in_order(start, before, i);
        assert(ports[ports.len() - 1].name != ports[i].name);
    }
}

/// Nothing is registered but what was before and what comes.
pub proof fn only_ports_are_registered(start: IoInfoView, ports: Seq<PortDesc>, name: PortName)
    requires
        forall|j: int| 0 <= j < ports.len() ==> (#[trigger] ports[j]).name != name,
    ensures
        start.registered(ports).ports.dom().contains(name) == start.ports.dom().contains(name),
        start.ports.dom().contains(name) ==> start.registered(ports).ports[name]
            == start.ports[name],
    decreases ports.len(),
{
    if ports.len() > 0 {
        let before = ports.drop_last();
        assert forall|j: int| 0 <= j < before.len() implies (#[trigger] before[j]).name != name by {
            assert(ports[j].name != name);
        }
        only_ports_are_registered(start, before, name);
        assert(ports[ports.len() - 1].name != name);
    }
}

/// Where nothing is registered yet, nothing has a number, and the first will have the next.
pub proof fn registering_starts_with_nothing(next_id: nat)
    ensures
        IoInfoView::starting_at(next_id).next_id == next_id,
        IoInfoView::starting_at(next_id).ports.dom() == Set::<PortName>::empty(),
{
    assert(IoInfoView::starting_at(next_id).ports.dom() =~= Set::empty());
}

/// An input or output that is registered gets the next number, under its group and name, with its
/// type and what it is set to. The others stay as they are.
pub proof fn registered_ports_get_the_next_number<'a>(
    info: &mut IoInfo<'a>,
    group: Option<&'a str>,
    name: &'a str,
    ty: NodeType,
    conf: &'a IoDescConf,
    other: PortName,
)
    requires
        call_ensures(IoInfo::<'a>::push, (info, group, name, ty, conf), ()),
    ensures
        ({
            let key = (
                match group {
                    Some(group) => Some(group@),
                    None => None,
                },
                name@,
            );
            &&& final(info)@.next_id == old(info)@.next_id + 1
            &&& final(info)@.ports.dom().contains(key)
            &&& final(info)@.ports[key].id == old(info)@.next_id
            &&& final(info)@.ports[key].ty == ty
            &&& final(info)@.ports[key].conf == *conf
            &&& other != key ==> final(info)@.ports.dom().contains(other)
                == old(info)@.ports.dom().contains(other)
            &&& other != key ==> final(info)@.ports[other] == old(info)@.ports[other]
        }),
{
}

/// Each output of a camera that is asked for is added behind those that are there, and called by
/// its number among them. What is asked of it is added to what is asked of the camera. Nothing
/// else changes.
pub proof fn requested_outputs_are_added(
    camera: &mut NodeT<Camera>,
    capability: CameraCapability,
    number: usize,
    i: int,
)
    requires
        call_ensures(NodeT::<Camera>::request_output, (camera, capability), number),
    ensures
        number == old(camera).output.1@.len(),
        final(camera).output.1@.len() == old(camera).output.1@.len() + 1,
        0 <= i < number ==> final(camera).output.1@[i] == old(camera).output.1@[i],
        final(camera).output.1@.last().port().name == (
            Some("dynamicOutputs"@),
            text::decimal(number as nat),
        ),
        final(camera).output.0 == old(camera).output.0,
        final(camera).properties.output_requests@
            == old(camera).properties.output_requests@.push(capability),
        final(camera).properties.board_socket == old(camera).properties.board_socket,
        final(camera).properties.initial_control == old(camera).properties.initial_control,
        final(camera).log_level == old(camera).log_level,
        final(camera).input == old(camera).input,
        final(camera).id == old(camera).id,
{
    if 0 <= i < number {
        assert(final(camera).output.1@.drop_last()[i] == final(camera).output.1@[i]);
    }
}

/// The raw output of a camera is the one called raw, and those asked for come in their order.
pub proof fn camera_outputs_are_those_of_the_camera(
    camera: &NodeT<Camera>,
    raw: OutputRef<'_, Camera, Out<CameraFrame>, RnopDeserializer>,
    requested: OutputRefIter<'_, Dynamic<CameraFrame>, RnopDeserializer, Camera>,
)
    requires
        call_ensures(NodeT::<Camera>::raw_camera_output, (camera,), raw),
        call_ensures(NodeT::<Camera>::requested_camera_outputs, (camera,), requested),
    ensures
        raw.node == camera,
        raw.output.port().name == (None::<Seq<char>>, "raw"@),
        requested.node == camera,
        requested.items == camera.output.1,
        requested.next == 0,
{
}

/// A sensor that is enabled is added behind those that are, and reports as often as is asked.
pub proof fn enabled_sensors_are_added(
    imu: &mut ImuProperties,
    sensor: ImuSensorKind,
    rate: u32,
    i: int,
)
    requires
        call_ensures(ImuProperties::enable_sensor, (imu, sensor, rate), ()),
    ensures
        final(imu).imu_sensors@.len() == old(imu).imu_sensors@.len() + 1,
        0 <= i < old(imu).imu_sensors@.len() ==> final(imu).imu_sensors@[i]
            == old(imu).imu_sensors@[i],
        final(imu).imu_sensors@.last().sensor_id == sensor,
        final(imu).imu_sensors@.last().report_rate == rate,
        final(imu).imu_sensors@.last().change_sensitivity == 0,
        !final(imu).imu_sensors@.last().sensitivity_enabled,
        !final(imu).imu_sensors@.last().sensitivity_relative,
        final(imu).batch_report_threshold == old(imu).batch_report_threshold,
        final(imu).max_batch_reports == old(imu).max_batch_reports,
        final(imu).enable_firmware_update == old(imu).enable_firmware_update,
{
}

/// What is referred to of a node that computes depth is its own input or output, by the name that
/// the device knows.
pub proof fn stereo_references_by_name(
    stereo: &NodeT<StereoDepth>,
    inputs: StereoDepthInputRef<'_, StereoDepth>,
    outputs: StereoDepthOutputRef<'_, StereoDepth>,
)
    requires
        call_ensures(NodeT::<StereoDepth>::input, (stereo,), inputs),
        call_ensures(NodeT::<StereoDepth>::output, (stereo,), outputs),
    ensures
        inputs.input_config.node == stereo,
        inputs.input_config.input == stereo.input.input_config,
        inputs.input_config.input.port().name.1 == "inputConfig"@,
        inputs.input_align_to.node == stereo,
        inputs.input_align_to.input == stereo.input.input_align_to,
        inputs.input_align_to.input.port().name.1 == "inputAlignTo"@,
        inputs.left.node == stereo,
        inputs.left.input == stereo.input.left,
        inputs.left.input.port().name.1 == "left"@,
        inputs.right.node == stereo,
        inputs.right.input == stereo.input.right,
        inputs.right.input.port().name.1 == "right"@,
        outputs.depth.node == stereo,
        outputs.depth.output == stereo.output.depth,
        outputs.depth.output.port().name.1 == "depth"@,
        outputs.disparity.node == stereo,
        outputs.disparity.output == stereo.output.disparity,
        outputs.disparity.output.port().name.1 == "disparity"@,
        outputs.snyced_left.node == stereo,
        outputs.snyced_left.output == stereo.output.snyced_left,
        outputs.snyced_left.output.port().name.1 == "syncedLeft"@,
        outputs.synced_right.node == stereo,
        outputs.synced_right.output == stereo.output.synced_right,
        outputs.synced_right.output.port().name.1 == "syncedRight"@,
        outputs.rectified_left.node == stereo,
        outputs.rectified_left.output == stereo.output.rectified_left,
        outputs.rectified_left.output.port().name.1 == "rectifiedLeft"@,
        outputs.rectified_right.node == stereo,
        outputs.rectified_right.output == stereo.output.rectified_right,
        outputs.rectified_right.output.port().name.1 == "rectifiedRight"@,
        outputs.config.node == stereo,
        outputs.config.output == stereo.output.config,
        outputs.config.output.port().name.1 == "outConfig"@,
        outputs.debug_lr_check_i1.node == stereo,
        outputs.debug_lr_check_i1.output == stereo.output.debug_lr_check_i1,
        outputs.debug_lr_check_i1.output.port().name.1 == "debugDispLrCheckIt1"@,
        outputs.debug_lr_check_i2.node == stereo,
        outputs.debug_lr_check_i2.output == stereo.output.debug_lr_check_i2,
        outputs.debug_lr_check_i2.output.port().name.1 == "debugDispLrCheckIt2"@,
        outputs.debug_ext_lr_check_i1.node == stereo,
        outputs.debug_ext_lr_check_i1.output == stereo.output.debug_ext_lr_check_i1,
        outputs.debug_ext_lr_check_i1.output.port().name.1 == "debugExtDispLrCheckIt1"@,
        outputs.debug_ext_lr_check_i2.node == stereo,
        outputs.debug_ext_lr_check_i2.output == stereo.output.debug_ext_lr_check_i2,
        outputs.debug_ext_lr_check_i2.output.port().name.1 == "debugExtDispLrCheckIt2"@,
        outputs.debug_cost_dump.node == stereo,
        outputs.debug_cost_dump.output == stereo.output.debug_cost_dump,
        outputs.debug_cost_dump.output.port().name.1 == "debugDispCostDump"@,
        outputs.confidence_map.node == stereo,
        outputs.confidence_map.output == stereo.output.confidence_map,
        outputs.confidence_map.output.port().name.1 == "confidenceMap"@,
{
}

/// The outputs that were asked for come one after the other, each once, and those of the node.
pub proof fn requested_outputs_come_in_order<
    'a,
    T: IoDeserializeable<D> + IoDesc,
    D: Deserializer,
    N: Node,
>(outputs: &mut OutputRefIter<'a, T, D, N>, output: Option<OutputRef<'a, N, T, D>>)
    requires
        call_ensures(OutputRefIter::<'a, T, D, N>::next, (outputs,), output),
    ensures
        output is Some <==> old(outputs).next < old(outputs).items@.len(),
        output matches Some(output) ==> {
            &&& output.node == old(outputs).node
            &&& output.output == old(outputs).items@[old(outputs).next as int]
            &&& final(outputs).next == old(outputs).next + 1
        },
        output is None ==> final(outputs).next == old(outputs).next,
        final(outputs).items == old(outputs).items,
        final(outputs).node == old(outputs).node,
{
}

} // verus!
