use depthai::pipeline::builder::to_queue_name;
use depthai::pipeline::{
    Camera, CameraProperties, CapabilityRange, ImuProperties, Pipeline, StereoDepthProperties,
    SystemLogger, SystemLoggerProperties, XLinkOut, XLinkOutProperties,
};
use depthai::pipelines::{
    camera_pipeline, camera_pipeline_dynamic, imu_pipeline, stereo_pipeline, systeminfo_pipeline,
};
use depthai::rpc::{CameraBoardSocket, NodeObjInfo, NodeType, PipelineSchema};

const DEVICE: &str = "DEVICE";

fn logger(properties: &SystemLoggerProperties) -> Vec<u8> {
    properties.rate_hz.bits.to_le_bytes().to_vec()
}

fn imu(properties: &ImuProperties) -> Vec<u8> {
    properties.imu_sensors.iter().map(|sensor| sensor.sensor_id.code() as u8).collect()
}

fn camera(properties: &CameraProperties) -> Vec<u8> {
    vec![properties.board_socket.code() as u8, properties.output_requests.len() as u8]
}

fn stereo(properties: &StereoDepthProperties) -> Vec<u8> {
    vec![properties.frame_pool as u8]
}

fn xlink(properties: &XLinkOutProperties) -> Vec<u8> {
    properties.stream_name.as_bytes().to_vec()
}

fn node(schema: &PipelineSchema, id: i64) -> &NodeObjInfo {
    let found: Vec<_> = schema.nodes.iter().filter(|(key, _)| *key == id).collect();
    assert_eq!(found.len(), 1);
    assert_eq!(found[0].1.id, id);
    assert_eq!(found[0].1.device_id, DEVICE);
    &found[0].1
}

/// The connections of a pipeline, as the two ends of each.
fn connections(schema: &PipelineSchema) -> Vec<(i64, &str, &str, i64, &str)> {
    let mut connections: Vec<_> = schema
        .connections
        .iter()
        .map(|c| {
            assert_eq!(c.input_group, "");
            (c.output_id, c.output_group.as_str(), c.output.as_str(), c.input_id, c.input.as_str())
        })
        .collect();
    connections.sort();
    connections
}

#[test]
fn the_device_reports_on_itself() {
    let (schema, queue) = systeminfo_pipeline(DEVICE, logger, xlink);
    assert_eq!(queue.state.0.as_bytes(), b"__x_0_out");
    assert_eq!(connections(&schema), vec![(0, "", "out", 1, "in")]);
    assert_eq!(schema.nodes.len(), 2);
    assert_eq!(node(&schema, 0).name, "SystemLogger");
    assert_eq!(node(&schema, 0).properties, 1f32.to_bits().to_le_bytes());
    assert_eq!(node(&schema, 1).name, "XLinkOut");
    assert_eq!(node(&schema, 1).properties, b"__x_0_out");
}

#[test]
fn motion_is_measured() {
    let (schema, queue) = imu_pipeline(DEVICE, imu, xlink);
    assert_eq!(queue.state.0.as_bytes(), b"__x_0_out");
    assert_eq!(connections(&schema), vec![(0, "", "out", 1, "in")]);
    assert_eq!(node(&schema, 0).name, "IMU");
    assert_eq!(node(&schema, 0).properties, vec![1, 2]);
    let mut ports: Vec<_> = node(&schema, 0).io_info.iter().map(|(_, io)| (io.id, io.name.as_str())).collect();
    ports.sort();
    assert_eq!(ports, vec![(1, "mockIn"), (2, "out")]);
}

#[test]
fn images_are_taken() {
    let (schema, queue) = camera_pipeline(DEVICE, camera, xlink);
    assert_eq!(queue.state.0.as_bytes(), b"__x_0_out");
    assert_eq!(connections(&schema), vec![(0, "", "raw", 1, "in")]);
    assert_eq!(node(&schema, 0).properties, vec![255, 0]);
    assert_eq!(node(&schema, 0).io_info.len(), 3);
}

#[test]
fn images_are_taken_as_they_are_asked_for() {
    let check = |properties: &CameraProperties| {
        assert_eq!(properties.output_requests.len(), 1);
        let request = &properties.output_requests[0];
        assert_eq!(request.size.range, Some(CapabilityRange::Single((1920, 1200))));
        assert_eq!(request.fps.range, None);
        assert!(request.isp_output);
        camera(properties)
    };
    let (schema, queue_1, queue_2) = camera_pipeline_dynamic(DEVICE, check, xlink);
    assert_eq!(queue_1.state.0.as_bytes(), b"__x_0_out");
    assert_eq!(queue_2.state.0.as_bytes(), b"__x_1_out");
    assert_eq!(
        connections(&schema),
        vec![(0, "", "raw", 2, "in"), (0, "dynamicOutputs", "0", 1, "in")]
    );
    assert_eq!(node(&schema, 0).io_info.len(), 4);
    assert_eq!(node(&schema, 1).properties, b"__x_0_out");
    assert_eq!(node(&schema, 2).properties, b"__x_1_out");
}

#[test]
fn depth_is_computed() {
    let check = |properties: &CameraProperties| {
        let control = &properties.initial_control;
        assert!(control.ae_lock_mode && control.awb_lock_mode && control.strobe_config.enable);
        assert_eq!(properties.output_requests.len(), 1);
        match properties.board_socket {
            CameraBoardSocket::B => {
                assert_eq!((control.af_region.x, control.af_region.priority), (4909, 4909));
                assert_eq!((control.ae_region.x, control.contrast), (0, 0));
                assert!(!properties.output_requests[0].isp_output && !control.enable_hdr);
            }
            CameraBoardSocket::C => {
                let region = &control.ae_region;
                assert_eq!((region.x, region.y, region.width, region.height), (3856, 32228, 23382, 0));
                assert_eq!(region.priority, 3);
                assert_eq!((control.af_region.width, control.af_region.height), (28518, 118));
                assert_eq!((control.contrast, control.saturation), (-127, 2));
                assert_eq!((control.low_power_frame_burst, control.low_power_frame_discard), (80, 84));
                assert!(properties.output_requests[0].isp_output && control.enable_hdr);
            }
            other => panic!("{other:?}"),
        }
        camera(properties)
    };
    let (schema, queue) = stereo_pipeline(DEVICE, check, stereo, xlink);
    assert_eq!(queue.state.0.as_bytes(), b"__x_0_out");
    assert_eq!(
        connections(&schema),
        vec![
            (0, "dynamicOutputs", "0", 2, "left"),
            (1, "dynamicOutputs", "0", 2, "right"),
            (2, "", "disparity", 3, "in"),
        ]
    );
    assert_eq!(schema.nodes.len(), 4);
    assert_eq!(node(&schema, 0).properties, vec![1, 1]);
    assert_eq!(node(&schema, 1).properties, vec![2, 1]);
    assert_eq!(node(&schema, 2).properties, vec![3]);
    assert_eq!(node(&schema, 2).io_info.len(), 17);
    let mut numbers: Vec<u32> = vec![];
    for (_, node) in &schema.nodes {
        numbers.extend(node.io_info.iter().map(|(_, io)| io.id));
    }
    numbers.sort();
    numbers.dedup();
    assert_eq!(numbers.len(), 4 + 4 + 17 + 1);
    let senders = node(&schema, 2).io_info.iter().filter(|(_, io)| io.ty == NodeType::MSender);
    assert_eq!(senders.count(), 13);
}

#[test]
fn queues_have_names_of_their_own() {
    assert_eq!(to_queue_name(0), "__x_0_out");
    assert_eq!(to_queue_name(10), "__x_10_out");
    assert_eq!(to_queue_name(u32::MAX), "__x_4294967295_out");
}

/// Checks that the nodes are the ends of the connections, each once, and that every connection
/// leads from a port of its node to a port of its node.
fn check_whole(schema: &PipelineSchema) {
    let mut ids: Vec<i64> = schema.nodes.iter().map(|(id, _)| *id).collect();
    let mut ends: Vec<i64> =
        schema.connections.iter().flat_map(|c| [c.output_id, c.input_id]).collect();
    ids.sort();
    ends.sort();
    ends.dedup();
    assert_eq!(ids, ends);
    for (i, c) in schema.connections.iter().enumerate() {
        assert!(schema.connections[..i].iter().all(|other| other != c));
        let output = (c.output_group.clone(), c.output.clone());
        let input = (c.input_group.clone(), c.input.clone());
        assert!(node(schema, c.output_id).io_info.iter().any(|(key, _)| *key == output));
        assert!(node(schema, c.input_id).io_info.iter().any(|(key, _)| *key == input));
    }
}

#[test]
fn built_pipelines_are_whole() {
    check_whole(&systeminfo_pipeline(DEVICE, logger, xlink).0);
    check_whole(&imu_pipeline(DEVICE, imu, xlink).0);
    check_whole(&camera_pipeline(DEVICE, camera, xlink).0);
    check_whole(&camera_pipeline_dynamic(DEVICE, camera, xlink).0);
    check_whole(&stereo_pipeline(DEVICE, camera, stereo, xlink).0);
}

#[test]
fn nodes_that_are_not_connected_are_left_out() {
    let mut pipe = Pipeline::new();
    let _alone = pipe.create_node::<Camera>();
    let log = pipe.create_node::<SystemLogger>();
    let mut out = pipe.create_node::<XLinkOut>();
    pipe.create_output_queue(log.output(), logger, &mut out, xlink);
    let schema = pipe.build(DEVICE);
    check_whole(&schema);
    let mut ids: Vec<i64> = schema.nodes.iter().map(|(id, _)| *id).collect();
    ids.sort();
    assert_eq!(ids, vec![1, 2]);
}
