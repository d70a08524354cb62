//! Pipelines for the common uses of a device.

use vstd::prelude::*;

#[allow(unused_imports)]
use crate::pipeline::builder::{self, ConnectionView, NodeDesc, PipelineView};
#[allow(unused_imports)]
use crate::pipeline::desc::{self, IoDescConf, IoRegister, PortDesc, PortName};
use crate::pipeline::queue_state::Pending;
#[allow(unused_imports)]
use crate::pipeline::{
    Camera, CameraCapability, CameraFrame, CameraInputControl, CameraProperties, Capability,
    CapabilityRange, FrameResize, Imu, ImuData, ImuProperties, ImuSensorConfig, ImuSensorKind,
    NodeT, OutputQueue, Pipeline, RegionParams, RnopDeserializer, StereoDepth, StereoDepthProperties,
    StrobeConfig, SystemInfo, SystemLogger, SystemLoggerProperties, XLinkOut, XLinkOutProperties,
};
#[allow(unused_imports)]
use crate::rpc::{CameraBoardSocket, LogLevel, NodeType, PipelineSchema};
use crate::text;

verus! {

/// An input of this name, set as inputs are unless set.
pub open spec fn receiver(name: Seq<char>) -> PortDesc {
    PortDesc {
        name: (None, name),
        ty: NodeType::SReceiver,
        conf: IoDescConf::spec_default(),
    }
}

/// An output of this group and name, set as outputs are unless set.
pub open spec fn sender(group: Option<Seq<char>>, name: Seq<char>) -> PortDesc {
    PortDesc {
        name: (group, name),
        ty: NodeType::MSender,
        conf: IoDescConf::spec_default(),
    }
}

/// A node of the kind `name` that logs nothing.
pub open spec fn node(name: Seq<char>, properties: Seq<u8>, ports: Seq<PortDesc>) -> NodeDesc {
    NodeDesc { name, alias: None, properties, log_level: LogLevel::Off, ports }
}

/// A node that streams to the host.
pub open spec fn xlink_node(properties: Seq<u8>) -> NodeDesc {
    node("XLinkOut"@, properties, seq![receiver("in"@)])
}

/// A node that reports on the device itself.
pub open spec fn logger_node(properties: Seq<u8>) -> NodeDesc {
    node("SystemLogger"@, properties, seq![sender(None, "out"@)])
}

/// A node that measures motion.
pub open spec fn imu_node(properties: Seq<u8>) -> NodeDesc {
    node("IMU"@, properties, seq![receiver("mockIn"@), sender(None, "out"@)])
}

/// The name of the output of a camera that was made on request as the first.
pub open spec fn first_requested() -> PortName {
    (Some("dynamicOutputs"@), text::decimal(0))
}

/// A node that takes images, all of which go out as the sensor gives them.
pub open spec fn camera_node(properties: Seq<u8>) -> NodeDesc {
    node(
        "Camera"@,
        properties,
        seq![receiver("inputControl"@), receiver("mockIsp"@), sender(None, "raw"@)],
    )
}

/// A node that takes images, with one output that was made on request.
pub open spec fn requesting_camera_node(properties: Seq<u8>) -> NodeDesc {
    node(
        "Camera"@,
        properties,
        seq![
            receiver("inputControl"@),
            receiver("mockIsp"@),
            sender(None, "raw"@),
            sender(first_requested().0, first_requested().1),
        ],
    )
}

/// A node that computes depth.
pub open spec fn stereo_node(properties: Seq<u8>) -> NodeDesc {
    node(
        "StereoDepth"@,
        properties,
        seq![
            receiver("inputConfig"@),
            receiver("inputAlignTo"@),
            receiver("left"@),
            receiver("right"@),
            sender(None, "depth"@),
            sender(None, "disparity"@),
            sender(None, "syncedLeft"@),
            sender(None, "syncedRight"@),
            sender(None, "rectifiedLeft"@),
            sender(None, "rectifiedRight"@),
            sender(None, "outConfig"@),
            sender(None, "debugDispLrCheckIt1"@),
            sender(None, "debugDispLrCheckIt2"@),
            sender(None, "debugExtDispLrCheckIt1"@),
            sender(None, "debugExtDispLrCheckIt2"@),
            sender(None, "debugDispCostDump"@),
            sender(None, "confidenceMap"@),
        ],
    )
}

/// The connection that streams `output` of the node `from` over the node `to`.
pub open spec fn streamed(from: u32, output: PortName, to: u32) -> ConnectionView {
    ConnectionView { input_id: to, input: (None, "in"@), output_id: from, output }
}

/// Whether everything but the name of the stream, which is that of the queue of this number, is
/// as it is unless set.
pub open spec fn streams_to_queue(properties: XLinkOutProperties, queue: nat) -> bool {
    &&& properties.stream_name@ == builder::queue_name(queue)
    &&& properties.max_fps_limit.bits == 0xbf80_0000
    &&& !properties.metadata_only
    &&& properties.packet_size == -1
    &&& properties.bytes_per_second == -1
}

/// A pipeline for which so many nodes and queues were made, of which none are connected yet.
pub open spec fn unconnected(nodes: nat, queues: nat) -> PipelineView {
    PipelineView { next_node: nodes, next_xlink: queues, ..PipelineView::initial() }
}

/// Whether `schema` is what `pipeline` is built to.
pub open spec fn is_built(
    schema: PipelineSchema,
    pipeline: PipelineView,
    device_id: Seq<char>,
) -> bool {
    &&& schema.global_properties.is_default()
    &&& schema.bridges@.len() == 0
    &&& builder::lists_connections(schema.connections@, pipeline.connections)
    &&& builder::lists_nodes(schema.nodes@, pipeline.nodes, device_id)
}

/// What is read from the queue of this number.
pub open spec fn reads_queue<O, D>(queue: OutputQueue<O, D, Pending>, number: nat) -> bool {
    queue.state.0@ == vstd::utf8::encode_utf8(builder::queue_name(number))
}

/// Reports on the device itself.
pub fn systeminfo_pipeline<
    W1: Fn(&SystemLoggerProperties) -> Vec<u8>,
    W2: Fn(&XLinkOutProperties) -> Vec<u8>,
>(device_id: &str, serialize_logger: W1, serialize_xlink: W2) -> (built: (
    PipelineSchema,
    OutputQueue<SystemInfo, RnopDeserializer, Pending>,
))
    requires
        forall|properties: &SystemLoggerProperties|
            call_requires(serialize_logger, (properties,)),
        forall|properties: &XLinkOutProperties| call_requires(serialize_xlink, (properties,)),
    ensures
        reads_queue(built.1, 0),
        exists|
            logger: SystemLoggerProperties,
            out: XLinkOutProperties,
            w1: Vec<u8>,
            w2: Vec<u8>,
        |
            logger.is_default() && streams_to_queue(out, 0) && #[trigger] call_ensures(
                serialize_logger,
                (&logger,),
                w1,
            ) && #[trigger] call_ensures(serialize_xlink, (&out,), w2) && is_built(
                built.0,
                unconnected(2, 1).linked(
                    streamed(0, (None, "out"@), 1),
                    logger_node(w1@),
                    xlink_node(w2@),
                ),
                device_id@,
            ),
{
    let mut pipe = Pipeline::new();
    let log = pipe.create_node::<SystemLogger>();
    let mut out = pipe.create_node::<XLinkOut>();
    let queue = pipe.create_output_queue(log.output(), serialize_logger, &mut out, serialize_xlink);
    (pipe.build(device_id), queue)
}

/// A sensor that reports 400 times a second, and is else as it is unless set.
pub open spec fn fast_sensor(kind: ImuSensorKind) -> ImuSensorConfig {
    ImuSensorConfig {
        sensitivity_enabled: false,
        sensitivity_relative: false,
        change_sensitivity: 0,
        report_rate: 400,
        sensor_id: kind,
    }
}

/// Whether the accelerometer and the gyroscope report 400 times a second each, and everything
/// else is as it is unless set.
pub open spec fn reports_motion(properties: ImuProperties) -> bool {
    &&& properties.imu_sensors@ == seq![
        fast_sensor(ImuSensorKind::Accelerometer),
        fast_sensor(ImuSensorKind::GyroscopeCalibrated),
    ]
    &&& properties.batch_report_threshold == 1
    &&& properties.max_batch_reports == 5
    &&& properties.enable_firmware_update == Some(false)
}

/// Measures acceleration and rotation.
pub fn imu_pipeline<
    W1: Fn(&ImuProperties) -> Vec<u8>,
    W2: Fn(&XLinkOutProperties) -> Vec<u8>,
>(device_id: &str, serialize_imu: W1, serialize_xlink: W2) -> (built: (
    PipelineSchema,
    OutputQueue<ImuData, RnopDeserializer, Pending>,
))
    requires
        forall|properties: &ImuProperties| call_requires(serialize_imu, (properties,)),
        forall|properties: &XLinkOutProperties| call_requires(serialize_xlink, (properties,)),
    ensures
        reads_queue(built.1, 0),
        exists|imu: ImuProperties, out: XLinkOutProperties, w1: Vec<u8>, w2: Vec<u8>|
            reports_motion(imu) && streams_to_queue(out, 0) && #[trigger] call_ensures(
                serialize_imu,
                (&imu,),
                w1,
            ) && #[trigger] call_ensures(serialize_xlink, (&out,), w2) && is_built(
                built.0,
                unconnected(2, 1).linked(
                    streamed(0, (None, "out"@), 1),
                    imu_node(w1@),
                    xlink_node(w2@),
                ),
                device_id@,
            ),
{
    let mut pipe = Pipeline::new();
    let mut imu = pipe.create_node::<Imu>();
    imu.properties_mut().enable_sensor(ImuSensorKind::Accelerometer, 400);
    imu.properties_mut().enable_sensor(ImuSensorKind::GyroscopeCalibrated, 400);
    let mut out = pipe.create_node::<XLinkOut>();
    proof {
        assert(imu.properties.imu_sensors@ =~= seq![
            fast_sensor(ImuSensorKind::Accelerometer),
            fast_sensor(ImuSensorKind::GyroscopeCalibrated),
        ]);
        assert(imu.input.ports() + imu.output.ports() =~= imu_node(Seq::empty()).ports);
    }
    let queue = pipe.create_output_queue(imu.output(), serialize_imu, &mut out, serialize_xlink);
    (pipe.build(device_id), queue)
}

/// Takes images as the sensor gives them.
pub fn camera_pipeline<
    W1: Fn(&CameraProperties) -> Vec<u8>,
    W2: Fn(&XLinkOutProperties) -> Vec<u8>,
>(device_id: &str, serialize_camera: W1, serialize_xlink: W2) -> (built: (
    PipelineSchema,
    OutputQueue<CameraFrame, RnopDeserializer, Pending>,
))
    requires
        forall|properties: &CameraProperties| call_requires(serialize_camera, (properties,)),
        forall|properties: &XLinkOutProperties| call_requires(serialize_xlink, (properties,)),
    ensures
        reads_queue(built.1, 0),
        exists|camera: CameraProperties, out: XLinkOutProperties, w1: Vec<u8>, w2: Vec<u8>|
            camera.is_default() && streams_to_queue(out, 0) && #[trigger] call_ensures(
                serialize_camera,
                (&camera,),
                w1,
            ) && #[trigger] call_ensures(serialize_xlink, (&out,), w2) && is_built(
                built.0,
                unconnected(2, 1).linked(
                    streamed(0, (None, "raw"@), 1),
                    camera_node(w1@),
                    xlink_node(w2@),
                ),
                device_id@,
            ),
{
    let mut pipe = Pipeline::new();
    let camera = pipe.create_node::<Camera>();
    let mut out = pipe.create_node::<XLinkOut>();
    proof {
        assert(camera.input.ports() + camera.output.ports() =~= camera_node(Seq::empty()).ports);
    }
    let queue = pipe.create_output_queue(
        camera.raw_camera_output(),
        serialize_camera,
        &mut out,
        serialize_xlink,
    );
    (pipe.build(device_id), queue)
}

/// Images of 1920 by 1200 points, cut to size.
pub open spec fn wide_images(isp_output: bool) -> CameraCapability {
    CameraCapability {
        size: Capability { range: Some(CapabilityRange::Single((1920, 1200))) },
        fps: Capability { range: None },
        ty: None,
        resize_mode: FrameResize::Crop,
        enable_undistortion: None,
        isp_output,
    }
}

/// What is asked of an output for images of 1920 by 1200 points, cut to size.
fn wide(isp_output: bool) -> (capability: CameraCapability)
    ensures
        capability == wide_images(isp_output),
{
    CameraCapability {
        size: Capability::new_single((1920, 1200)),
        fps: Capability::new_none(),
        ty: None,
        enable_undistortion: None,
        isp_output,
        resize_mode: FrameResize::Crop,
    }
}

/// Whether an output is requested for wide images, and everything else is as it is unless set.
pub open spec fn takes_wide_images(properties: CameraProperties) -> bool {
    &&& properties.output_requests@ == seq![wide_images(true)]
    &&& exists|unset: CameraProperties| #[trigger]
        unset.is_default() && properties == (CameraProperties {
            output_requests: properties.output_requests,
            ..unset
        })
}

/// Takes images as the sensor gives them and others as they are asked for.
pub fn camera_pipeline_dynamic<
    W1: Fn(&CameraProperties) -> Vec<u8>,
    W2: Fn(&XLinkOutProperties) -> Vec<u8>,
>(device_id: &str, serialize_camera: W1, serialize_xlink: W2) -> (built: (
    PipelineSchema,
    OutputQueue<CameraFrame, RnopDeserializer, Pending>,
    OutputQueue<CameraFrame, RnopDeserializer, Pending>,
))
    requires
        forall|properties: &CameraProperties| call_requires(serialize_camera, (properties,)),
        forall|properties: &XLinkOutProperties| call_requires(serialize_xlink, (properties,)),
    ensures
        reads_queue(built.1, 0),
        reads_queue(built.2, 1),
        exists|
            camera: CameraProperties,
            out_1: XLinkOutProperties,
            out_2: XLinkOutProperties,
            w1: Vec<u8>,
            w2: Vec<u8>,
            w3: Vec<u8>,
            w4: Vec<u8>,
        |
            takes_wide_images(camera) && streams_to_queue(out_1, 0) && streams_to_queue(out_2, 1)
                && #[trigger] call_ensures(serialize_camera, (&camera,), w1)
                && #[trigger] call_ensures(serialize_xlink, (&out_1,), w2)
                && #[trigger] call_ensures(serialize_camera, (&camera,), w3)
                && #[trigger] call_ensures(serialize_xlink, (&out_2,), w4) && is_built(
                built.0,
                unconnected(3, 2).linked(
                    streamed(0, first_requested(), 1),
                    requesting_camera_node(w1@),
                    xlink_node(w2@),
                ).linked(
                    streamed(0, (None, "raw"@), 2),
                    requesting_camera_node(w3@),
                    xlink_node(w4@),
                ),
                device_id@,
            ),
{
    let mut pipe = Pipeline::new();
    let mut camera = pipe.create_node::<Camera>();
    let ghost unset = camera.properties;
    let mut out_1 = pipe.create_node::<XLinkOut>();
    let mut out_2 = pipe.create_node::<XLinkOut>();
    camera.request_output(wide(true));
    proof {
        assert(unset.is_default());
        assert(camera.properties.output_requests@ =~= seq![wide_images(true)]);
        assert(takes_wide_images(camera.properties));
        one_output_is_requested(camera);
        assert((camera.input.ports() + camera.output.ports()).len() == 4);
    }
    let output = camera.requested_camera_outputs().next().unwrap();
    let queue_1 = pipe.create_output_queue(
        output,
        &serialize_camera,
        &mut out_1,
        &serialize_xlink,
    );
    let queue_2 = pipe.create_output_queue(
        camera.raw_camera_output(),
        &serialize_camera,
        &mut out_2,
        &serialize_xlink,
    );
    (pipe.build(device_id), queue_1, queue_2)
}

/// A camera of which one output was requested has that one besides its own.
proof fn one_output_is_requested(camera: NodeT<Camera>)
    requires
        camera.input.0.conf == IoDescConf::spec_default(),
        camera.input.1.conf == IoDescConf::spec_default(),
        camera.output.0.conf == IoDescConf::spec_default(),
        camera.output.1@.len() == 1,
        camera.output.1@[0].output.name@ == text::decimal(0),
        camera.output.1@[0].conf == IoDescConf::spec_default(),
    ensures
        camera.input.ports() + camera.output.ports() == requesting_camera_node(Seq::empty()).ports,
{
    let made = camera.output.1@;
    assert(made.drop_last() =~= Seq::empty());
    assert(desc::ports_of(made.drop_last()) == Seq::<PortDesc>::empty());
    assert(desc::ports_of(made) == desc::ports_of(made.drop_last()) + made.last().ports());
    assert(camera.input.ports() + camera.output.ports() =~= requesting_camera_node(
        Seq::empty(),
    ).ports);
}

/// The controls of the left camera of a stereo pair.
pub open spec fn left_control(unset: CameraInputControl) -> CameraInputControl {
    CameraInputControl {
        af_region: RegionParams { x: 4909, priority: 4909, ..unset.af_region },
        ae_lock_mode: true,
        awb_lock_mode: true,
        strobe_config: StrobeConfig { enable: true, ..unset.strobe_config },
        ..unset
    }
}

/// The controls of the right camera of a stereo pair.
pub open spec fn right_control(unset: CameraInputControl) -> CameraInputControl {
    CameraInputControl {
        ae_region: RegionParams { x: 3856, y: 32228, width: 23382, height: 0, priority: 3 },
        af_region: RegionParams { width: 28518, height: 118, ..unset.af_region },
        ae_lock_mode: true,
        awb_lock_mode: true,
        strobe_config: StrobeConfig { enable: true, ..unset.strobe_config },
        contrast: (-127) as i8,
        saturation: 2,
        low_power_frame_burst: 80,
        low_power_frame_discard: 84,
        enable_hdr: true,
        ..unset
    }
}

/// Whether a camera is set as the left one of a stereo pair.
pub open spec fn is_left_camera(properties: CameraProperties) -> bool {
    &&& properties.output_requests@ == seq![wide_images(false)]
    &&& exists|unset: CameraProperties| #[trigger]
        unset.is_default() && properties == (CameraProperties {
            initial_control: left_control(unset.initial_control),
            board_socket: CameraBoardSocket::B,
            output_requests: properties.output_requests,
            ..unset
        })
}

/// Whether a camera is set as the right one of a stereo pair.
pub open spec fn is_right_camera(properties: CameraProperties) -> bool {
    &&& properties.output_requests@ == seq![wide_images(true)]
    &&& exists|unset: CameraProperties| #[trigger]
        unset.is_default() && properties == (CameraProperties {
            initial_control: right_control(unset.initial_control),
            board_socket: CameraBoardSocket::C,
            output_requests: properties.output_requests,
            ..unset
        })
}

/// The connection from the output that was requested first of the camera `from` to an input of
/// the node `to`.
pub open spec fn images_to(from: u32, to: u32, input: Seq<char>) -> ConnectionView {
    ConnectionView {
        input_id: to,
        input: (None, input),
        output_id: from,
        output: first_requested(),
    }
}

/// Sets a camera as the left one of a stereo pair.
fn set_left_camera(camera: &mut NodeT<Camera>)
    requires
        old(camera).properties.is_default(),
        old(camera).output.1@.len() == 0,
    ensures
        is_left_camera(final(camera).properties),
        requests_first(*old(camera), *final(camera)),
{
    let ghost unset = camera.properties;
    let cam_l = camera.properties_mut();
    cam_l.initial_control.af_region.x = 4909;
    cam_l.initial_control.af_region.priority = 4909;
    cam_l.initial_control.ae_lock_mode = true;
    cam_l.initial_control.awb_lock_mode = true;
    cam_l.initial_control.strobe_config.enable = true;
    cam_l.board_socket = CameraBoardSocket::B;
    camera.request_output(wide(false));
    proof {
        assert(unset.is_default());
        assert(camera.properties.output_requests@ =~= seq![wide_images(false)]);
        assert(camera.output.1@ =~= seq![camera.output.1@[0]]);
    }
}

/// Sets a camera as the right one of a stereo pair.
fn set_right_camera(camera: &mut NodeT<Camera>)
    requires
        old(camera).properties.is_default(),
        old(camera).output.1@.len() == 0,
    ensures
        is_right_camera(final(camera).properties),
        requests_first(*old(camera), *final(camera)),
{
    let ghost unset = camera.properties;
    let cam_r = camera.properties_mut();
    cam_r.initial_control.ae_region.x = 3856;
    cam_r.initial_control.ae_region.y = 32228;
    cam_r.initial_control.ae_region.width = 23382;
    cam_r.initial_control.ae_region.height = 0;
    cam_r.initial_control.ae_region.priority = 3;
    cam_r.initial_control.af_region.width = 28518;
    cam_r.initial_control.af_region.height = 118;
    cam_r.initial_control.ae_lock_mode = true;
    cam_r.initial_control.awb_lock_mode = true;
    cam_r.initial_control.strobe_config.enable = true;
    cam_r.initial_control.contrast = -127;
    cam_r.initial_control.saturation = 2;
    cam_r.initial_control.low_power_frame_burst = 80;
    cam_r.initial_control.low_power_frame_discard = 84;
    cam_r.initial_control.enable_hdr = true;
    cam_r.board_socket = CameraBoardSocket::C;
    camera.request_output(wide(true));
    proof {
        assert(unset.is_default());
        assert(camera.properties.output_requests@ =~= seq![wide_images(true)]);
        assert(camera.output.1@ =~= seq![camera.output.1@[0]]);
    }
}

/// Whether the one thing that was done to the outputs of a camera is to request a first.
pub open spec fn requests_first(before: NodeT<Camera>, after: NodeT<Camera>) -> bool {
    &&& after.id == before.id
    &&& after.log_level == before.log_level
    &&& after.input == before.input
    &&& after.output.0 == before.output.0
    &&& after.output.1@.len() == 1
    &&& after.output.1@[0].output.name@ == text::decimal(0)
    &&& after.output.1@[0].conf == IoDescConf::spec_default()
}

/// Computes depth from a stereo pair.
pub fn stereo_pipeline<
    W1: Fn(&CameraProperties) -> Vec<u8>,
    W2: Fn(&StereoDepthProperties) -> Vec<u8>,
    W3: Fn(&XLinkOutProperties) -> Vec<u8>,
>(device_id: &str, serialize_camera: W1, serialize_stereo: W2, serialize_xlink: W3) -> (built: (
    PipelineSchema,
    OutputQueue<CameraFrame, RnopDeserializer, Pending>,
))
    requires
        forall|properties: &CameraProperties| call_requires(serialize_camera, (properties,)),
        forall|properties: &StereoDepthProperties|
            call_requires(serialize_stereo, (properties,)),
        forall|properties: &XLinkOutProperties| call_requires(serialize_xlink, (properties,)),
    ensures
        reads_queue(built.1, 0),
        exists|
            left: CameraProperties,
            right: CameraProperties,
            stereo: StereoDepthProperties,
            out: XLinkOutProperties,
            w1: Vec<u8>,
            w2: Vec<u8>,
            w3: Vec<u8>,
            w4: Vec<u8>,
            w5: Vec<u8>,
            w6: Vec<u8>,
        |
            is_left_camera(left) && is_right_camera(right) && stereo.is_default()
                && streams_to_queue(out, 0)
                && #[trigger] call_ensures(serialize_camera, (&left,), w1)
                && #[trigger] call_ensures(serialize_stereo, (&stereo,), w2)
                && #[trigger] call_ensures(serialize_camera, (&right,), w3)
                && #[trigger] call_ensures(serialize_stereo, (&stereo,), w4)
                && #[trigger] call_ensures(serialize_stereo, (&stereo,), w5)
                && #[trigger] call_ensures(serialize_xlink, (&out,), w6) && is_built(
                built.0,
                unconnected(4, 1).linked(
                    images_to(0, 2, "left"@),
                    requesting_camera_node(w1@),
                    stereo_node(w2@),
                ).linked(
                    images_to(1, 2, "right"@),
                    requesting_camera_node(w3@),
                    stereo_node(w4@),
                ).linked(
                    streamed(2, (None, "disparity"@), 3),
                    stereo_node(w5@),
                    xlink_node(w6@),
                ),
                device_id@,
            ),
{
    let mut pipe = Pipeline::new();
    let mut camera_left = pipe.create_node::<Camera>();
    set_left_camera(&mut camera_left);
    let mut camera_right = pipe.create_node::<Camera>();
    set_right_camera(&mut camera_right);
    let stereo = pipe.create_node::<StereoDepth>();
    let mut out = pipe.create_node::<XLinkOut>();
    proof {
        one_output_is_requested(camera_left);
        one_output_is_requested(camera_right);
        assert((camera_left.input.ports() + camera_left.output.ports()).len() == 4);
        assert((camera_right.input.ports() + camera_right.output.ports()).len() == 4);
        assert(stereo.input.ports() + stereo.output.ports() =~= stereo_node(Seq::empty()).ports);
    }
    let cam_left = camera_left.requested_camera_outputs().next().unwrap();
    let cam_right = camera_right.requested_camera_outputs().next().unwrap();
    pipe.link(cam_left, &serialize_camera, stereo.input().left, &serialize_stereo);
    pipe.link(cam_right, &serialize_camera, stereo.input().right, &serialize_stereo);
    let queue = pipe.create_output_queue(
        stereo.output().disparity,
        &serialize_stereo,
        &mut out,
        &serialize_xlink,
    );
    (pipe.build(device_id), queue)
}

} // verus!
