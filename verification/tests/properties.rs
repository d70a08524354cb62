use depthai::float::Float32;
use depthai::pipeline::{
    AutoFocusMode, CameraProperties, Capability, CapabilityRange, Filter, FrameType, ImuAccuracy,
    ImuSensorConfig, ImuSensorKind, KernelSize, MedianFilter, PersistencyMode, SceneMode,
    StereoDepthProperties, SystemLoggerProperties, XLinkOutProperties,
};
use depthai::rpc::{
    CameraBoardSocket, CameraImageOrientation, CameraModel, CameraSensorType, GlobalProperties,
    LogLevel, NodeType, ProcessorType, UsbSpeed,
};

fn value(float: Float32) -> f32 {
    f32::from_bits(float.bits)
}

#[test]
fn streaming_is_unlimited_unless_set() {
    let properties = XLinkOutProperties::default();
    assert_eq!(value(properties.max_fps_limit), -1.);
    assert_eq!(properties.stream_name, "");
    assert!(!properties.metadata_only);
    assert_eq!(properties.packet_size, -1);
    assert_eq!(properties.bytes_per_second, -1);
    assert_eq!(value(SystemLoggerProperties::default().rate_hz), 1.);
    let sensor = ImuSensorConfig::default();
    assert_eq!((sensor.report_rate, sensor.sensor_id), (100, ImuSensorKind::Accelerometer));
}

#[test]
fn cameras_decide_for_themselves_unless_set() {
    let properties = CameraProperties::default();
    assert_eq!(properties.board_socket, CameraBoardSocket::Auto);
    assert_eq!(properties.sensor_type, CameraSensorType::Auto);
    assert_eq!(properties.image_orientation, CameraImageOrientation::Auto);
    assert_eq!(properties.resolution_width, -1);
    assert_eq!(value(properties.mock_isp_fps), -1.);
    assert_eq!(value(properties.fps), -1.);
    assert_eq!(properties.isp_3a_fps, 0);
    assert_eq!(properties.frames_pool_raw, 3);
    assert_eq!(properties.pool_raw_max_size, 10485760);
    assert_eq!(properties.pool_isp_max_size, 10485760);
    assert_eq!(properties.pool_still_frames, 4);
    assert_eq!(properties.pool_outputs_frames, None);
    assert!(properties.output_requests.is_empty());
    assert_eq!(properties.initial_control.auto_focus_mode, AutoFocusMode::ContinuousVideo);
    assert_eq!(properties.initial_control.scene_mode, SceneMode::Unsupported);
    assert_eq!(properties.initial_control.ae_region.priority, 0);
    assert!(!properties.initial_control.enable_hdr);
    assert_eq!(CameraProperties::default(), CameraProperties::default());
    let mut other = CameraProperties::default();
    other.initial_control.contrast = -127;
    assert_ne!(CameraProperties::default(), other);
}

#[test]
fn stereo_is_set_up_unless_set() {
    let properties = StereoDepthProperties::default();
    let config = &properties.initial_config;
    assert_eq!(value(config.algorithm_control.custom_depth_unit_multiplier), 1000.);
    assert!(config.algorithm_control.enable_left_right_check);
    assert!(config.algorithm_control.enable_subpixel);
    assert_eq!(config.algorithm_control.left_right_check_threshold, 10);
    assert_eq!(
        config.post_processing.filtering_order,
        [Filter::Median, Filter::Decimation, Filter::Speckle, Filter::Spatial, Filter::Temporal]
    );
    assert_eq!(config.post_processing.median, MedianFilter::Off);
    assert_eq!(value(config.post_processing.spacial_filter.alpha), 0.5);
    assert_eq!(value(config.post_processing.temporal_filter.alpha), 0.4);
    assert_eq!(config.post_processing.threshold_filter.max_range, 65535);
    assert_eq!(config.post_processing.brightness_filter.max_brightness, 256);
    assert_eq!(config.post_processing.hole_filling.high_confidence_threshold, 210);
    assert_eq!(config.census_transorm.kernel_size, KernelSize::Auto);
    assert_eq!(config.cost_matching.confidence_threshold, 55);
    assert_eq!(config.cost_matching.linear_equation_parameters.threshold, 127);
    assert_eq!(config.cost_aggregation.p1_config.smooth_value, 22);
    assert_eq!(config.cost_aggregation.p2_config.smooth_value, 63);
    assert_eq!(config.confidence_metrics.occlusion_confidence_weight, 20);
    assert_eq!(config.filters_backend, ProcessorType::Cpu);
    assert_eq!(properties.mesh.step_width, 16);
    assert_eq!(properties.frame_pool, 3);
    assert_eq!(properties.post_processing_shaves, -1);
    assert!(properties.enable_frame_sync && properties.keep_aspect_ratio);
}

#[test]
fn pipelines_run_at_full_speed_unless_set() {
    let properties = GlobalProperties::default();
    assert_eq!(value(properties.leon_css_frequency_hz), 700. * 1000. * 1000.);
    assert_eq!(value(properties.leon_mss_frequency_hz), 700. * 1000. * 1000.);
    assert_eq!(properties.eeprom_id, Some(0));
    assert_eq!(properties.xlink_chunk_size, -1);
    assert!(properties.calibration.is_none());
}

#[test]
fn numbers_stand_for_what_they_stand_for() {
    assert_eq!(CameraBoardSocket::from_code(-1), Some(CameraBoardSocket::Auto));
    assert_eq!(CameraBoardSocket::from_code(9), Some(CameraBoardSocket::J));
    assert_eq!(CameraBoardSocket::from_code(10), None);
    assert_eq!(ImuSensorKind::from_code(0x14), Some(ImuSensorKind::AccelerometerRaw));
    assert_eq!(ImuSensorKind::ArvrStabilizedGameRotationVector.code(), 0x29);
    assert_eq!(ImuSensorKind::from_code(0), None);
    assert_eq!(ImuAccuracy::from_code(3), Some(ImuAccuracy::High));
    assert_eq!(FrameType::from_code(33), Some(FrameType::NoFormat));
    assert_eq!(FrameType::from_code(34), None);
    assert_eq!(FrameType::Nv12.code(), 22);
    assert_eq!(Filter::from_code(0), Some(Filter::NoFilter));
    assert_eq!(MedianFilter::from_code(7), Some(MedianFilter::Kernel7x7));
    assert_eq!(MedianFilter::from_code(1), None);
    assert_eq!(KernelSize::from_code(-1), Some(KernelSize::Auto));
    assert_eq!(PersistencyMode::Indefinitely.code(), 8);
    assert_eq!(LogLevel::from_code(6), Some(LogLevel::Off));
    assert_eq!(NodeType::SReceiver.code(), 3);
    assert_eq!(UsbSpeed::from_code(5), Some(UsbSpeed::SuperPlus));
    assert_eq!(CameraModel::from_code(-1), None);
}

#[test]
fn capabilities_hold_what_is_asked_for() {
    assert_eq!(Capability::<u32>::new_none().range, None);
    assert_eq!(Capability::new_single((1920, 1200)).range, Some(CapabilityRange::Single((1920, 1200))));
}

#[test]
fn floats_compare_as_numbers() {
    let float = |x: f32| Float32 { bits: x.to_bits() };
    let all = [0., -0., 1., -1., f32::INFINITY, f32::NEG_INFINITY, f32::NAN, -f32::NAN, 1e-45, 0.1];
    for a in all {
        for b in all {
            assert_eq!(float(a) == float(b), a == b);
        }
    }
}
