//! What the pipelines for the common uses of a device are made of.

use vstd::prelude::*;

#[allow(unused_imports)]
use crate::pipeline::build_laws;
#[allow(unused_imports)]
use crate::pipeline::builder::{self, ConnectionView, NodeDesc, PipelineView};
#[allow(unused_imports)]
use crate::pipeline::desc::{IoDescConf, PortDesc};
#[allow(unused_imports)]
use crate::pipeline::queue_state::Pending;
#[allow(unused_imports)]
use crate::pipeline::{
    AutoFocusMode, CameraFrame, CameraInputControl, CameraProperties, CapabilityRange, FrameResize,
    ImuData, ImuProperties, ImuSensorKind, OutputQueue, RnopDeserializer, StereoDepthProperties,
    SystemInfo, SystemLoggerProperties, XLinkOutProperties,
};
#[allow(unused_imports)]
use crate::pipelines;
#[allow(unused_imports)]
use crate::rpc::{CameraBoardSocket, CameraSensorType, LogLevel, NodeType, PipelineSchema};
#[allow(unused_imports)]
use crate::text;

verus! {

/// Whether a connection leads from this output of the node `from`, which may stand in a group, to
/// this input of the node `to`, which stands in none.
pub open spec fn connects(
    schema: PipelineSchema,
    from: int,
    group: Seq<char>,
    output: Seq<char>,
    to: int,
    input: Seq<char>,
) -> bool {
    exists|i: int|
        0 <= i < schema.connections@.len() && {
            &&& (#[trigger] schema.connections@[i]).output_id == from
            &&& schema.connections@[i].output_group@ == group
            &&& schema.connections@[i].output@ == output
            &&& schema.connections@[i].input_id == to
            &&& schema.connections@[i].input_group@ == Seq::<char>::empty()
            &&& schema.connections@[i].input@ == input
        }
}

/// Whether the node of this number is of this kind and has these properties, and logs nothing.
pub open spec fn has_node(
    schema: PipelineSchema,
    id: int,
    kind: Seq<char>,
    properties: Seq<u8>,
) -> bool {
    exists|i: int|
        0 <= i < schema.nodes@.len() && {
            &&& (#[trigger] schema.nodes@[i]).0 == id
            &&& schema.nodes@[i].1.id == id
            &&& schema.nodes@[i].1.name@ == kind
            &&& schema.nodes@[i].1.properties@ == properties
            &&& schema.nodes@[i].1.log_level == LogLevel::Off
        }
}

/// A connection that was made is one of the built pipeline.
proof fn connection_is_built(
    schema: PipelineSchema,
    pipeline: PipelineView,
    device_id: Seq<char>,
    connection: ConnectionView,
)
    requires
        pipelines::is_built(schema, pipeline, device_id),
        pipeline.connections.contains(connection),
        connection.input.0 is None,
    ensures
        connects(
            schema,
            connection.output_id as int,
            match connection.output.0 {
                Some(group) => group,
                None => Seq::empty(),
            },
            connection.output.1,
            connection.input_id as int,
            connection.input.1,
        ),
{
    build_laws::every_connection_is_built(
        schema.connections@,
        pipeline.connections,
        connection,
    );
}

/// A node that was registered is one of the built pipeline.
proof fn node_is_built(
    schema: PipelineSchema,
    pipeline: PipelineView,
    device_id: Seq<char>,
    id: u32,
)
    requires
        pipelines::is_built(schema, pipeline, device_id),
        pipeline.nodes.dom().contains(id),
        pipeline.nodes[id].log_level == LogLevel::Off,
    ensures
        has_node(schema, id as int, pipeline.nodes[id].name, pipeline.nodes[id].properties),
{
    build_laws::every_node_is_built(schema.nodes@, pipeline.nodes, device_id, id);
}

/// The numbers of connections and of nodes are those that were made.
proof fn counts_are_built(
    schema: PipelineSchema,
    pipeline: PipelineView,
    device_id: Seq<char>,
)
    requires
        pipelines::is_built(schema, pipeline, device_id),
    ensures
        schema.connections@.len() == pipeline.connections.len(),
        schema.nodes@.len() == pipeline.nodes.dom().len(),
{
    let order = choose|order: Seq<ConnectionView>|
        order.no_duplicates() && order.to_set() == pipeline.connections
            && #[trigger] builder::is_connection_list(schema.connections@, order);
    order.unique_seq_to_set();
    let ids = choose|order: Seq<u32>|
        order.no_duplicates() && order.to_set() == pipeline.nodes.dom()
            && #[trigger] builder::is_node_list(schema.nodes@, pipeline.nodes, order, device_id);
    ids.unique_seq_to_set();
}

/// The number of the first output that is made on request, and the names of the first queues.
proof fn first_names()
    ensures
        text::decimal(0) == "0"@,
        builder::queue_name(0) == "__x_0_out"@,
        builder::queue_name(1) == "__x_1_out"@,
{
    reveal_strlit("0");
    reveal_strlit("__x_");
    reveal_strlit("_out");
    reveal_strlit("__x_0_out");
    reveal_strlit("__x_1_out");
    assert(text::decimal(0) =~= "0"@);
    assert(builder::queue_name(0) =~= "__x_0_out"@);
    assert(builder::queue_name(1) =~= "__x_1_out"@);
}

/// Depth is computed from two cameras: the images of the camera on socket B go to the left input,
/// those of the camera on socket C to the right one, and the disparity goes to the host, where it
/// is read from the first queue. There are no other nodes and connections.
pub proof fn depth_comes_from_both_cameras<
    W1: Fn(&CameraProperties) -> Vec<u8>,
    W2: Fn(&StereoDepthProperties) -> Vec<u8>,
    W3: Fn(&XLinkOutProperties) -> Vec<u8>,
>(
    device_id: &str,
    serialize_camera: W1,
    serialize_stereo: W2,
    serialize_xlink: W3,
    built: (PipelineSchema, OutputQueue<CameraFrame, RnopDeserializer, Pending>),
)
    requires
        call_ensures(
            pipelines::stereo_pipeline::<W1, W2, W3>,
            (device_id, serialize_camera, serialize_stereo, serialize_xlink),
            built,
        ),
    ensures
        built.1.state.0@ == vstd::utf8::encode_utf8("__x_0_out"@),
        built.0.connections@.len() == 3,
        connects(built.0, 0, "dynamicOutputs"@, "0"@, 2, "left"@),
        connects(built.0, 1, "dynamicOutputs"@, "0"@, 2, "right"@),
        connects(built.0, 2, Seq::empty(), "disparity"@, 3, "in"@),
        built.0.nodes@.len() == 4,
        exists|camera: CameraProperties, written: Vec<u8>|
            camera.board_socket == CameraBoardSocket::B && #[trigger] call_ensures(
                serialize_camera,
                (&camera,),
                written,
            ) && has_node(built.0, 0, "Camera"@, written@),
        exists|camera: CameraProperties, written: Vec<u8>|
            camera.board_socket == CameraBoardSocket::C && #[trigger] call_ensures(
                serialize_camera,
                (&camera,),
                written,
            ) && has_node(built.0, 1, "Camera"@, written@),
        exists|stereo: StereoDepthProperties, written: Vec<u8>|
            stereo.is_default() && #[trigger] call_ensures(
                serialize_stereo,
                (&stereo,),
                written,
            ) && has_node(built.0, 2, "StereoDepth"@, written@),
        exists|out: XLinkOutProperties, written: Vec<u8>|
            out.stream_name@ == "__x_0_out"@ && #[trigger] call_ensures(
                serialize_xlink,
                (&out,),
                written,
            ) && has_node(built.0, 3, "XLinkOut"@, written@),
{
    let (left, right, stereo, out, w1, w2, w3, w4, w5, w6) = choose|
        left: CameraProperties,
        right: CameraProperties,
        stereo: StereoDepthProperties,
        out: XLinkOutProperties,
        w1: Vec<u8>,
        w2: Vec<u8>,
        w3: Vec<u8>,
        w4: Vec<u8>,
        w5: Vec<u8>,
        w6: Vec<u8>,
    |
        pipelines::is_left_camera(left) && pipelines::is_right_camera(right) && stereo.is_default()
            && pipelines::streams_to_queue(out, 0)
            && #[trigger] call_ensures(serialize_camera, (&left,), w1)
            && #[trigger] call_ensures(serialize_stereo, (&stereo,), w2)
            && #[trigger] call_ensures(serialize_camera, (&right,), w3)
            && #[trigger] call_ensures(serialize_stereo, (&stereo,), w4)
            && #[trigger] call_ensures(serialize_stereo, (&stereo,), w5)
            && #[trigger] call_ensures(serialize_xlink, (&out,), w6) && pipelines::is_built(
            built.0,
            pipelines::unconnected(4, 1).linked(
                pipelines::images_to(0, 2, "left"@),
                pipelines::requesting_camera_node(w1@),
                pipelines::stereo_node(w2@),
            ).linked(
                pipelines::images_to(1, 2, "right"@),
                pipelines::requesting_camera_node(w3@),
                pipelines::stereo_node(w4@),
            ).linked(
                pipelines::streamed(2, (None, "disparity"@), 3),
                pipelines::stereo_node(w5@),
                pipelines::xlink_node(w6@),
            ),
            device_id@,
        );
    let pipeline = pipelines::unconnected(4, 1).linked(
        pipelines::images_to(0, 2, "left"@),
        pipelines::requesting_camera_node(w1@),
        pipelines::stereo_node(w2@),
    ).linked(
        pipelines::images_to(1, 2, "right"@),
        pipelines::requesting_camera_node(w3@),
        pipelines::stereo_node(w4@),
    ).linked(
        pipelines::streamed(2, (None, "disparity"@), 3),
        pipelines::stereo_node(w5@),
        pipelines::xlink_node(w6@),
    );
    first_names();
    let a = pipelines::images_to(0, 2, "left"@);
    let b = pipelines::images_to(1, 2, "right"@);
    let c = pipelines::streamed(2, (None, "disparity"@), 3);
    connection_is_built(built.0, pipeline, device_id@, a);
    connection_is_built(built.0, pipeline, device_id@, b);
    connection_is_built(built.0, pipeline, device_id@, c);
    node_is_built(built.0, pipeline, device_id@, 0);
    node_is_built(built.0, pipeline, device_id@, 1);
    node_is_built(built.0, pipeline, device_id@, 2);
    node_is_built(built.0, pipeline, device_id@, 3);
    counts_are_built(built.0, pipeline, device_id@);
    assert(pipeline.connections =~= set![a, b, c]);
    assert(pipeline.nodes.dom() =~= set![0u32, 1u32, 2u32, 3u32]);
}

/// Reports on the device go from the node that makes them to the host, where they are read from the
/// first queue. There are no other nodes and connections.
pub proof fn reports_go_to_the_host<
    W1: Fn(&SystemLoggerProperties) -> Vec<u8>,
    W2: Fn(&XLinkOutProperties) -> Vec<u8>,
>(
    device_id: &str,
    serialize_logger: W1,
    serialize_xlink: W2,
    built: (PipelineSchema, OutputQueue<SystemInfo, RnopDeserializer, Pending>),
)
    requires
        call_ensures(
            pipelines::systeminfo_pipeline::<W1, W2>,
            (device_id, serialize_logger, serialize_xlink),
            built,
        ),
    ensures
        built.1.state.0@ == vstd::utf8::encode_utf8("__x_0_out"@),
        built.0.connections@.len() == 1,
        connects(built.0, 0, Seq::empty(), "out"@, 1, "in"@),
        built.0.nodes@.len() == 2,
        exists|logger: SystemLoggerProperties, written: Vec<u8>|
            logger.rate_hz.bits == 0x3f80_0000 && #[trigger] call_ensures(
                serialize_logger,
                (&logger,),
                written,
            ) && has_node(built.0, 0, "SystemLogger"@, written@),
        exists|out: XLinkOutProperties, written: Vec<u8>|
            out.stream_name@ == "__x_0_out"@ && #[trigger] call_ensures(
                serialize_xlink,
                (&out,),
                written,
            ) && has_node(built.0, 1, "XLinkOut"@, written@),
{
    let (logger, out, w1, w2) = choose|
        logger: SystemLoggerProperties,
        out: XLinkOutProperties,
        w1: Vec<u8>,
        w2: Vec<u8>,
    |
        logger.is_default() && pipelines::streams_to_queue(out, 0) && #[trigger] call_ensures(
            serialize_logger,
            (&logger,),
            w1,
        ) && #[trigger] call_ensures(serialize_xlink, (&out,), w2) && pipelines::is_built(
            built.0,
            pipelines::unconnected(2, 1).linked(
                pipelines::streamed(0, (None, "out"@), 1),
                pipelines::logger_node(w1@),
                pipelines::xlink_node(w2@),
            ),
            device_id@,
        );
    let only = pipelines::streamed(0, (None, "out"@), 1);
    let pipeline = pipelines::unconnected(2, 1).linked(
        only,
        pipelines::logger_node(w1@),
        pipelines::xlink_node(w2@),
    );
    first_names();
    connection_is_built(built.0, pipeline, device_id@, only);
    node_is_built(built.0, pipeline, device_id@, 0);
    node_is_built(built.0, pipeline, device_id@, 1);
    counts_are_built(built.0, pipeline, device_id@);
    assert(pipeline.connections =~= set![only]);
    assert(pipeline.nodes.dom() =~= set![0u32, 1u32]);
}

/// Motion goes from the sensors, of which the accelerometer and the gyroscope report 400 times a
/// second each, to the host, where it is read from the first queue. There are no other nodes and
/// connections.
pub proof fn motion_goes_to_the_host<
    W1: Fn(&ImuProperties) -> Vec<u8>,
    W2: Fn(&XLinkOutProperties) -> Vec<u8>,
>(
    device_id: &str,
    serialize_imu: W1,
    serialize_xlink: W2,
    built: (PipelineSchema, OutputQueue<ImuData, RnopDeserializer, Pending>),
)
    requires
        call_ensures(
            pipelines::imu_pipeline::<W1, W2>,
            (device_id, serialize_imu, serialize_xlink),
            built,
        ),
    ensures
        built.1.state.0@ == vstd::utf8::encode_utf8("__x_0_out"@),
        built.0.connections@.len() == 1,
        connects(built.0, 0, Seq::empty(), "out"@, 1, "in"@),
        built.0.nodes@.len() == 2,
        exists|imu: ImuProperties, written: Vec<u8>|
            imu.imu_sensors@.len() == 2 && imu.imu_sensors@[0].sensor_id
                == ImuSensorKind::Accelerometer && imu.imu_sensors@[0].report_rate == 400
                && imu.imu_sensors@[1].sensor_id == ImuSensorKind::GyroscopeCalibrated
                && imu.imu_sensors@[1].report_rate == 400 && #[trigger] call_ensures(
                serialize_imu,
                (&imu,),
                written,
            ) && has_node(built.0, 0, "IMU"@, written@),
        exists|out: XLinkOutProperties, written: Vec<u8>|
            out.stream_name@ == "__x_0_out"@ && #[trigger] call_ensures(
                serialize_xlink,
                (&out,),
                written,
            ) && has_node(built.0, 1, "XLinkOut"@, written@),
{
    let (imu, out, w1, w2) = choose|
        imu: ImuProperties,
        out: XLinkOutProperties,
        w1: Vec<u8>,
        w2: Vec<u8>,
    |
        pipelines::reports_motion(imu) && pipelines::streams_to_queue(out, 0)
            && #[trigger] call_ensures(serialize_imu, (&imu,), w1)
            && #[trigger] call_ensures(serialize_xlink, (&out,), w2) && pipelines::is_built(
            built.0,
            pipelines::unconnected(2, 1).linked(
                pipelines::streamed(0, (None, "out"@), 1),
                pipelines::imu_node(w1@),
                pipelines::xlink_node(w2@),
            ),
            device_id@,
        );
    let only = pipelines::streamed(0, (None, "out"@), 1);
    let pipeline = pipelines::unconnected(2, 1).linked(
        only,
        pipelines::imu_node(w1@),
        pipelines::xlink_node(w2@),
    );
    first_names();
    connection_is_built(built.0, pipeline, device_id@, only);
    node_is_built(built.0, pipeline, device_id@, 0);
    node_is_built(built.0, pipeline, device_id@, 1);
    counts_are_built(built.0, pipeline, device_id@);
    assert(pipeline.connections =~= set![only]);
    assert(pipeline.nodes.dom() =~= set![0u32, 1u32]);
}

/// Images go from the camera, as the sensor gives them, to the host, where they are read from the
/// first queue. There are no other nodes and connections.
pub proof fn images_go_to_the_host<
    W1: Fn(&CameraProperties) -> Vec<u8>,
    W2: Fn(&XLinkOutProperties) -> Vec<u8>,
>(
    device_id: &str,
    serialize_camera: W1,
    serialize_xlink: W2,
    built: (PipelineSchema, OutputQueue<CameraFrame, RnopDeserializer, Pending>),
)
    requires
        call_ensures(
            pipelines::camera_pipeline::<W1, W2>,
            (device_id, serialize_camera, serialize_xlink),
            built,
        ),
    ensures
        built.1.state.0@ == vstd::utf8::encode_utf8("__x_0_out"@),
        built.0.connections@.len() == 1,
        connects(built.0, 0, Seq::empty(), "raw"@, 1, "in"@),
        built.0.nodes@.len() == 2,
        exists|camera: CameraProperties, written: Vec<u8>|
            camera.is_default() && #[trigger] call_ensures(
                serialize_camera,
                (&camera,),
                written,
            ) && has_node(built.0, 0, "Camera"@, written@),
        exists|out: XLinkOutProperties, written: Vec<u8>|
            out.stream_name@ == "__x_0_out"@ && #[trigger] call_ensures(
                serialize_xlink,
                (&out,),
                written,
            ) && has_node(built.0, 1, "XLinkOut"@, written@),
{
    let (camera, out, w1, w2) = choose|
        camera: CameraProperties,
        out: XLinkOutProperties,
        w1: Vec<u8>,
        w2: Vec<u8>,
    |
        camera.is_default() && pipelines::streams_to_queue(out, 0) && #[trigger] call_ensures(
            serialize_camera,
            (&camera,),
            w1,
        ) && #[trigger] call_ensures(serialize_xlink, (&out,), w2) && pipelines::is_built(
            built.0,
            pipelines::unconnected(2, 1).linked(
                pipelines::streamed(0, (None, "raw"@), 1),
                pipelines::camera_node(w1@),
                pipelines::xlink_node(w2@),
            ),
            device_id@,
        );
    let only = pipelines::streamed(0, (None, "raw"@), 1);
    let pipeline = pipelines::unconnected(2, 1).linked(
        only,
        pipelines::camera_node(w1@),
        pipelines::xlink_node(w2@),
    );
    first_names();
    connection_is_built(built.0, pipeline, device_id@, only);
    node_is_built(built.0, pipeline, device_id@, 0);
    node_is_built(built.0, pipeline, device_id@, 1);
    counts_are_built(built.0, pipeline, device_id@);
    assert(pipeline.connections =~= set![only]);
    assert(pipeline.nodes.dom() =~= set![0u32, 1u32]);
}

/// Images that were asked for and images as the sensor gives them go from one camera to the host,
/// where they are read from the first queue and from the second. There are no other nodes and
/// connections.
pub proof fn both_kinds_of_images_go_to_the_host<
    W1: Fn(&CameraProperties) -> Vec<u8>,
    W2: Fn(&XLinkOutProperties) -> Vec<u8>,
>(
    device_id: &str,
    serialize_camera: W1,
    serialize_xlink: W2,
    built: (
        PipelineSchema,
        OutputQueue<CameraFrame, RnopDeserializer, Pending>,
        OutputQueue<CameraFrame, RnopDeserializer, Pending>,
    ),
)
    requires
        call_ensures(
            pipelines::camera_pipeline_dynamic::<W1, W2>,
            (device_id, serialize_camera, serialize_xlink),
            built,
        ),
    ensures
        built.1.state.0@ == vstd::utf8::encode_utf8("__x_0_out"@),
        built.2.state.0@ == vstd::utf8::encode_utf8("__x_1_out"@),
        built.0.connections@.len() == 2,
        connects(built.0, 0, "dynamicOutputs"@, "0"@, 1, "in"@),
        connects(built.0, 0, Seq::empty(), "raw"@, 2, "in"@),
        built.0.nodes@.len() == 3,
        exists|camera: CameraProperties, written: Vec<u8>|
            camera.output_requests@.len() == 1 && camera.output_requests@[0].size.range == Some(
                CapabilityRange::Single((1920u32, 1200u32)),
            ) && #[trigger] call_ensures(serialize_camera, (&camera,), written) && has_node(
                built.0,
                0,
                "Camera"@,
                written@,
            ),
        exists|out: XLinkOutProperties, written: Vec<u8>|
            out.stream_name@ == "__x_0_out"@ && #[trigger] call_ensures(
                serialize_xlink,
                (&out,),
                written,
            ) && has_node(built.0, 1, "XLinkOut"@, written@),
        exists|out: XLinkOutProperties, written: Vec<u8>|
            out.stream_name@ == "__x_1_out"@ && #[trigger] call_ensures(
                serialize_xlink,
                (&out,),
                written,
            ) && has_node(built.0, 2, "XLinkOut"@, written@),
{
    let (camera, out_1, out_2, w1, w2, w3, w4) = choose|
        camera: CameraProperties,
        out_1: XLinkOutProperties,
        out_2: XLinkOutProperties,
        w1: Vec<u8>,
        w2: Vec<u8>,
        w3: Vec<u8>,
        w4: Vec<u8>,
    |
        pipelines::takes_wide_images(camera) && pipelines::streams_to_queue(out_1, 0)
            && pipelines::streams_to_queue(out_2, 1)
            && #[trigger] call_ensures(serialize_camera, (&camera,), w1)
            && #[trigger] call_ensures(serialize_xlink, (&out_1,), w2)
            && #[trigger] call_ensures(serialize_camera, (&camera,), w3)
            && #[trigger] call_ensures(serialize_xlink, (&out_2,), w4) && pipelines::is_built(
            built.0,
            pipelines::unconnected(3, 2).linked(
                pipelines::streamed(0, pipelines::first_requested(), 1),
                pipelines::requesting_camera_node(w1@),
                pipelines::xlink_node(w2@),
            ).linked(
                pipelines::streamed(0, (None, "raw"@), 2),
                pipelines::requesting_camera_node(w3@),
                pipelines::xlink_node(w4@),
            ),
            device_id@,
        );
    let a = pipelines::streamed(0, pipelines::first_requested(), 1);
    let b = pipelines::streamed(0, (None, "raw"@), 2);
    let pipeline = pipelines::unconnected(3, 2).linked(
        a,
        pipelines::requesting_camera_node(w1@),
        pipelines::xlink_node(w2@),
    ).linked(b, pipelines::requesting_camera_node(w3@), pipelines::xlink_node(w4@));
    first_names();
    connection_is_built(built.0, pipeline, device_id@, a);
    connection_is_built(built.0, pipeline, device_id@, b);
    node_is_built(built.0, pipeline, device_id@, 0);
    node_is_built(built.0, pipeline, device_id@, 1);
    node_is_built(built.0, pipeline, device_id@, 2);
    counts_are_built(built.0, pipeline, device_id@);
    assert(pipeline.connections =~= set![a, b]);
    assert(pipeline.nodes.dom() =~= set![0u32, 1u32, 2u32]);
}

/// Images of the asked for kind have 1920 by 1200 points and are cut to that size; nothing else is
/// asked of them.
pub proof fn wide_images_are_cut_to_size(isp_output: bool)
    ensures
        ({
            let images = pipelines::wide_images(isp_output);
            &&& images.size.range == Some(CapabilityRange::Single((1920u32, 1200u32)))
            &&& images.fps.range is None
            &&& images.ty is None
            &&& images.resize_mode == FrameResize::Crop
            &&& images.enable_undistortion is None
            &&& images.isp_output == isp_output
        }),
{
}

/// What the left camera of a stereo pair is set to.
pub proof fn left_cameras_are_set(camera: CameraProperties)
    requires
        pipelines::is_left_camera(camera),
    ensures
        camera.board_socket == CameraBoardSocket::B,
        camera.output_requests@.len() == 1,
        camera.output_requests@[0].size.range == Some(CapabilityRange::Single((1920u32, 1200u32))),
        !camera.output_requests@[0].isp_output,
        camera.initial_control.af_region.x == 4909,
        camera.initial_control.af_region.y == 0,
        camera.initial_control.af_region.width == 0,
        camera.initial_control.af_region.height == 0,
        camera.initial_control.af_region.priority == 4909,
        camera.initial_control.ae_region.is_default(),
        camera.initial_control.ae_lock_mode,
        camera.initial_control.awb_lock_mode,
        camera.initial_control.strobe_config.enable,
        camera.initial_control.strobe_config.active_level == 0,
        camera.initial_control.strobe_config.gpio_number == 0,
        camera.initial_control.contrast == 0,
        camera.initial_control.saturation == 0,
        camera.initial_control.low_power_frame_burst == 0,
        camera.initial_control.low_power_frame_discard == 0,
        !camera.initial_control.enable_hdr,
        camera.initial_control.exp_manual.is_default(),
        camera.initial_control.auto_focus_mode == AutoFocusMode::ContinuousVideo,
        camera.sensor_type == CameraSensorType::Auto,
        camera.resolution_width == -1,
        camera.resolution_height == -1,
{
}

/// What the right camera of a stereo pair is set to.
pub proof fn right_cameras_are_set(camera: CameraProperties)
    requires
        pipelines::is_right_camera(camera),
    ensures
        camera.board_socket == CameraBoardSocket::C,
        camera.output_requests@.len() == 1,
        camera.output_requests@[0].size.range == Some(CapabilityRange::Single((1920u32, 1200u32))),
        camera.output_requests@[0].isp_output,
        camera.initial_control.ae_region.x == 3856,
        camera.initial_control.ae_region.y == 32228,
        camera.initial_control.ae_region.width == 23382,
        camera.initial_control.ae_region.height == 0,
        camera.initial_control.ae_region.priority == 3,
        camera.initial_control.af_region.x == 0,
        camera.initial_control.af_region.y == 0,
        camera.initial_control.af_region.width == 28518,
        camera.initial_control.af_region.height == 118,
        camera.initial_control.af_region.priority == 0,
        camera.initial_control.ae_lock_mode,
        camera.initial_control.awb_lock_mode,
        camera.initial_control.strobe_config.enable,
        camera.initial_control.strobe_config.active_level == 0,
        camera.initial_control.strobe_config.gpio_number == 0,
        camera.initial_control.contrast == -127,
        camera.initial_control.saturation == 2,
        camera.initial_control.low_power_frame_burst == 80,
        camera.initial_control.low_power_frame_discard == 84,
        camera.initial_control.enable_hdr,
        camera.initial_control.exp_manual.is_default(),
        camera.initial_control.auto_focus_mode == AutoFocusMode::ContinuousVideo,
        camera.sensor_type == CameraSensorType::Auto,
        camera.resolution_width == -1,
        camera.resolution_height == -1,
{
}

/// What a camera is set to of which wide images are asked.
pub proof fn wide_images_are_asked_for(camera: CameraProperties)
    requires
        pipelines::takes_wide_images(camera),
    ensures
        camera.output_requests@.len() == 1,
        camera.output_requests@[0].size.range == Some(CapabilityRange::Single((1920u32, 1200u32))),
        camera.output_requests@[0].isp_output,
        camera.initial_control.is_default(),
        camera.board_socket == CameraBoardSocket::Auto,
        camera.sensor_type == CameraSensorType::Auto,
        camera.resolution_width == -1,
        camera.resolution_height == -1,
{
}

/// What a node that streams to a queue is set to: to the name of that queue, without a limit to
/// how often or in how large packets, and of whole messages.
pub proof fn streams_have_the_name_of_their_queue(out: XLinkOutProperties, queue: nat)
    requires
        pipelines::streams_to_queue(out, queue),
    ensures
        out.stream_name@ == "__x_"@ + text::decimal(queue) + "_out"@,
        out.max_fps_limit.bits == 0xbf80_0000,
        !out.metadata_only,
        out.packet_size == -1,
        out.bytes_per_second == -1,
{
}

/// What the sensors of motion are set to.
pub proof fn motion_is_reported(imu: ImuProperties, i: int)
    requires
        pipelines::reports_motion(imu),
        0 <= i < imu.imu_sensors@.len(),
    ensures
        imu.imu_sensors@.len() == 2,
        imu.imu_sensors@[0].sensor_id == ImuSensorKind::Accelerometer,
        imu.imu_sensors@[1].sensor_id == ImuSensorKind::GyroscopeCalibrated,
        imu.imu_sensors@[i].report_rate == 400,
        imu.imu_sensors@[i].change_sensitivity == 0,
        !imu.imu_sensors@[i].sensitivity_enabled,
        !imu.imu_sensors@[i].sensitivity_relative,
        imu.batch_report_threshold == 1,
        imu.max_batch_reports == 5,
        imu.enable_firmware_update == Some(false),
{
}

} // verus!
