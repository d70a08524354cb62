use depthai::float::Float32;
use depthai::pipeline::{
    Camera, CameraCapability, Capability, FrameResize, Imu, ImuProperties, ImuSensorKind, Pipeline,
    StereoDepth, SystemLogger, XLinkOut,
};
use depthai::rpc::{CameraBoardSocket, LogLevel, NodeType};

fn capability(width: u32, height: u32) -> CameraCapability {
    CameraCapability {
        size: Capability::new_single((width, height)),
        fps: Capability::<Float32>::new_none(),
        ty: None,
        enable_undistortion: None,
        isp_output: true,
        resize_mode: FrameResize::Crop,
    }
}

#[test]
fn pipeline_link() {
    let mut pipe = Pipeline::new();
    let logger = pipe.create_node::<SystemLogger>();
    let out = pipe.create_node::<XLinkOut>();

    pipe.link(logger.output(), |_| vec![], out.input(), |_| vec![]);

    assert_eq!(pipe.connections.len(), 1);
    assert_eq!(pipe.nodes.len(), 2);
}

#[test]
fn pipeline_schema() {
    let mut pipe = Pipeline::new();
    let logger = pipe.create_node::<SystemLogger>();
    let mut out = pipe.create_node::<XLinkOut>();

    pipe.create_output_queue(logger.output(), |_| vec![7], &mut out, |_| vec![8, 9]);

    const DEVICE_ID: &str = "device_id";

    let schema = pipe.build(DEVICE_ID);
    assert_eq!(schema.nodes.len(), 2);
    for (id, node) in &schema.nodes {
        assert_eq!(*id, node.id);
        assert_eq!(node.parent_id, -1);
        assert_eq!(node.device_id, "device_id");
        assert_eq!(node.alias, "");
        assert!(node.device_node);
        assert_eq!(node.log_level, LogLevel::Off);
        assert_eq!(node.io_info.len(), 1);
        let (key, io) = &node.io_info[0];
        assert_eq!(key.0, "");
        assert_eq!(key.1, io.name);
        assert!(!io.blocking);
        assert_eq!(io.queue_size, 8);
        match node.name.as_str() {
            "SystemLogger" => {
                assert_eq!(*id, 0);
                assert_eq!(node.properties, vec![7]);
                assert_eq!(io.name, "out");
                assert_eq!(io.ty, NodeType::MSender);
                assert_eq!(io.id, 1);
            }
            "XLinkOut" => {
                assert_eq!(*id, 1);
                assert_eq!(node.properties, vec![8, 9]);
                assert_eq!(io.name, "in");
                assert_eq!(io.ty, NodeType::SReceiver);
                assert_eq!(io.id, 0);
            }
            other => panic!("{other}"),
        }
    }
    assert_eq!(schema.connections.len(), 1);
    let connection = &schema.connections[0];
    assert_eq!(connection.output_id, 0);
    assert_eq!(connection.output, "out");
    assert_eq!(connection.output_group, "");
    assert_eq!(connection.input_id, 1);
    assert_eq!(connection.input, "in");
    assert_eq!(connection.input_group, "");
    assert!(schema.bridges.is_empty());
    assert_eq!(schema.global_properties.sipp_buffer_size, 18432);
    assert_eq!(schema.global_properties.sipp_dma_buffer_size, 16384);
    assert_eq!(
        f32::from_bits(schema.global_properties.leon_css_frequency_hz.bits),
        700. * 1000. * 1000.
    );
}

#[test]
fn pipeline_schema_dynamic() {
    let mut pipe = Pipeline::new();
    let mut camera = pipe.create_node::<Camera>();
    let mut out = pipe.create_node::<XLinkOut>();

    let id = camera.request_output(capability(640, 400));
    assert_eq!(id, 0);

    let output = camera.requested_camera_outputs().next().unwrap();
    assert_eq!(output.output.name(), "0");
    assert_eq!(output.output.group(), Some("dynamicOutputs"));

    pipe.create_output_queue(output, |_| vec![], &mut out, |_| vec![]);

    assert_eq!(pipe.connections.len(), 1);
    assert_eq!(pipe.nodes.len(), 2);
}

#[test]
fn pipeline_schema_stereo() {
    let mut pipe = Pipeline::new();
    let mut camera_left = pipe.create_node::<Camera>();
    camera_left.properties_mut().board_socket = CameraBoardSocket::B;

    camera_left.request_output(capability(1920, 1200));

    let cam_left = camera_left.requested_camera_outputs().next().unwrap();

    let mut camera_right = pipe.create_node::<Camera>();
    camera_right.properties_mut().board_socket = CameraBoardSocket::C;

    camera_right.request_output(capability(1920, 1200));

    let cam_right = camera_right.requested_camera_outputs().next().unwrap();

    let stereo = pipe.create_node::<StereoDepth>();

    pipe.link(cam_left, |_| vec![], stereo.input().left, |_| vec![]);
    pipe.link(cam_right, |_| vec![], stereo.input().right, |_| vec![]);

    let mut out = pipe.create_node::<XLinkOut>();

    let _xlink_out =
        pipe.create_output_queue(stereo.output().disparity, |_| vec![], &mut out, |_| vec![]);

    assert_eq!(pipe.connections.len(), 3);
    assert_eq!(pipe.nodes.len(), 4);
    let schema = pipe.build("DEVICE");

    let stereo = &schema.nodes.iter().find(|(_, n)| n.name == "StereoDepth").unwrap().1;
    assert_eq!(stereo.io_info.len(), 17);
    let mut names: Vec<&str> = stereo.io_info.iter().map(|(_, io)| io.name.as_str()).collect();
    names.sort();
    assert_eq!(
        names,
        vec![
            "confidenceMap",
            "debugDispCostDump",
            "debugDispLrCheckIt1",
            "debugDispLrCheckIt2",
            "debugExtDispLrCheckIt1",
            "debugExtDispLrCheckIt2",
            "depth",
            "disparity",
            "inputAlignTo",
            "inputConfig",
            "left",
            "outConfig",
            "rectifiedLeft",
            "rectifiedRight",
            "right",
            "syncedLeft",
            "syncedRight",
        ]
    );
    for (_, io) in &stereo.io_info {
        let receives = ["inputAlignTo", "inputConfig", "left", "right"].contains(&io.name.as_str());
        assert_eq!(io.ty, if receives { NodeType::SReceiver } else { NodeType::MSender });
    }
    let mut ids: Vec<u32> =
        schema.nodes.iter().flat_map(|(_, n)| n.io_info.iter().map(|(_, io)| io.id)).collect();
    let count = ids.len();
    ids.sort();
    ids.dedup();
    assert_eq!(ids.len(), count);
    for connection in &schema.connections {
        assert!(schema.nodes.iter().any(|(id, _)| *id == connection.output_id));
        assert!(schema.nodes.iter().any(|(id, _)| *id == connection.input_id));
    }
}

#[test]
fn pipeline_queue() {
    let mut pipe = Pipeline::new();
    let logger = pipe.create_node::<SystemLogger>();
    let mut out = pipe.create_node::<XLinkOut>();
    let _out2 = pipe.create_node::<XLinkOut>();

    pipe.create_output_queue(logger.output(), |_| vec![], &mut out, |_| vec![]);

    assert_eq!(pipe.connections.len(), 1);
    assert_eq!(pipe.nodes.len(), 2);
}

#[test]
fn linking_twice_makes_one_connection() {
    let mut pipe = Pipeline::new();
    let logger = pipe.create_node::<SystemLogger>();
    let out = pipe.create_node::<XLinkOut>();

    pipe.link(logger.output(), |_| vec![1], out.input(), |_| vec![2]);
    pipe.link(logger.output(), |_| vec![3], out.input(), |_| vec![4]);

    assert_eq!(pipe.connections.len(), 1);
    assert_eq!(pipe.nodes.len(), 2);
    assert_eq!(pipe.current_io_id, 4);
    let schema = pipe.build("d");
    let logger = &schema.nodes.iter().find(|(id, _)| *id == 0).unwrap().1;
    assert_eq!(logger.properties, vec![3]);
    assert_eq!(logger.io_info[0].1.id, 3);
}

#[test]
fn queues_have_streams_of_their_own() {
    let mut pipe = Pipeline::new();
    let logger = pipe.create_node::<SystemLogger>();
    let camera = pipe.create_node::<Camera>();
    let mut first = pipe.create_node::<XLinkOut>();
    let mut second = pipe.create_node::<XLinkOut>();

    let q0 = pipe.create_output_queue(logger.output(), |_| vec![], &mut first, |p| {
        assert_eq!(p.stream_name, "__x_0_out");
        p.stream_name.as_bytes().to_vec()
    });
    let q1 = pipe.create_output_queue(camera.raw_camera_output(), |_| vec![], &mut second, |p| {
        p.stream_name.as_bytes().to_vec()
    });
    assert_eq!(q0.state.0.as_bytes(), b"__x_0_out");
    assert_eq!(q1.state.0.as_bytes(), b"__x_1_out");
    let schema = pipe.build("d");
    let written: Vec<&[u8]> = schema
        .nodes
        .iter()
        .filter(|(_, n)| n.name == "XLinkOut")
        .map(|(_, n)| n.properties.as_slice())
        .collect();
    assert_eq!(written, vec![b"__x_0_out".as_slice(), b"__x_1_out".as_slice()]);
}

#[test]
fn requested_outputs_are_numbered() {
    let mut pipe = Pipeline::new();
    let mut camera = pipe.create_node::<Camera>();
    for i in 0..12 {
        assert_eq!(camera.request_output(capability(1, 1)), i);
    }
    assert_eq!(camera.properties().output_requests.len(), 12);
    let mut outputs = camera.requested_camera_outputs();
    let mut names = vec![];
    while let Some(output) = outputs.next() {
        names.push(output.output.name().to_string());
    }
    assert_eq!(names[0], "0");
    assert_eq!(names[9], "9");
    assert_eq!(names[10], "10");
    assert_eq!(names[11], "11");
    assert_eq!(names.len(), 12);
}

#[test]
fn nodes_are_numbered() {
    let mut pipe = Pipeline::new();
    assert_eq!(pipe.create_node::<SystemLogger>().id, 0);
    assert_eq!(pipe.create_node::<Imu>().id, 1);
    let properties = ImuProperties {
        imu_sensors: vec![],
        batch_report_threshold: 9,
        max_batch_reports: 9,
        enable_firmware_update: None,
    };
    let node = pipe.create_node_with_properties::<Imu>(properties);
    assert_eq!(node.id, 2);
    assert_eq!(node.properties().batch_report_threshold, 9);
    assert_eq!(node.input().input.name(), "mockIn");
    assert_eq!(node.output().output.name(), "out");
}

#[test]
fn sensors_are_enabled_in_order() {
    let mut properties = ImuProperties::default();
    assert_eq!(properties.batch_report_threshold, 1);
    assert_eq!(properties.max_batch_reports, 5);
    assert_eq!(properties.enable_firmware_update, Some(false));
    properties.enable_sensor(ImuSensorKind::Accelerometer, 480);
    properties.enable_sensor(ImuSensorKind::GyroscopeCalibrated, 400);
    assert_eq!(properties.imu_sensors.len(), 2);
    assert_eq!(properties.imu_sensors[0].sensor_id, ImuSensorKind::Accelerometer);
    assert_eq!(properties.imu_sensors[0].report_rate, 480);
    assert_eq!(properties.imu_sensors[1].sensor_id, ImuSensorKind::GyroscopeCalibrated);
    assert_eq!(properties.imu_sensors[1].report_rate, 400);
    assert!(!properties.imu_sensors[1].sensitivity_enabled);
}
