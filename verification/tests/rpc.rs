use depthai::clock::{Period, WallTime};
use depthai::connection::ConnectionStream;
use depthai::float::{Float32, Float64};
use depthai::io::{ReadStreamInfo, StreamEvent, WriteStreamInfo};
use depthai::rpc::{Datum, LogLevel, Request, Rpc, RpcError};

const NOW: WallTime = WallTime { secs: 1, nanos: 2 };

/// The parts of a message as an independent reader sees them.
fn parts(request: Request) -> Vec<rmpv::Value> {
    let bytes = Rpc::encode(request);
    let value = rmpv::decode::read_value(&mut bytes.as_slice()).unwrap();
    let rmpv::Value::Array(parts) = value else {
        panic!();
    };
    parts
}

#[test]
fn methods_are_called_by_their_hashes() {
    assert_eq!(Rpc::hash_method(""), 1125899906842597);
    assert_eq!(Rpc::hash_method("a"), 1125899906842597u64.wrapping_mul(31).wrapping_add(97));
    let mut h: u64 = 1125899906842597;
    for b in b"getConnectedCameraFeatures" {
        h = h.wrapping_mul(31).wrapping_add(*b as u64);
    }
    assert_eq!(Rpc::hash_method("getConnectedCameraFeatures"), h);
}

#[test]
fn calls_stand_on_the_wire() {
    let message = parts(Rpc::is_running());
    assert_eq!(
        message,
        vec![1.into(), 1.into(), Rpc::hash_method("isRunning").into(), rmpv::Value::Array(vec![])]
    );
    let message = parts(Rpc::set_node_log_level(-3, LogLevel::Warn));
    assert_eq!(message[2], Rpc::hash_method("setNodeLogLevel").into());
    assert_eq!(message[3], rmpv::Value::Array(vec![(-3).into(), 3.into()]));
    let message = parts(Rpc::set_ir_floodlight_intensity(Float32 { bits: 0.5f32.to_bits() }, 7));
    assert_eq!(message[3], rmpv::Value::Array(vec![rmpv::Value::F32(0.5), 7.into(), true.into()]));
    let bytes = Rpc::encode(Rpc::mxid());
    assert_eq!(bytes[..3], [0x94, 1, 1]);
    assert_eq!(bytes[3], 0xcf);
    assert_eq!(bytes[4..12], Rpc::hash_method("getMxId").to_be_bytes());
    assert_eq!(bytes[12..], [0x90]);
}

#[test]
fn calls_are_written_to_the_stream() {
    let stream = ConnectionStream::new(
        ReadStreamInfo { read_size: 1, id: 2 },
        WriteStreamInfo { write_size: 3, id: 4 },
    );
    let rpc = Rpc::new(&stream);
    let StreamEvent::Write(header, data) = rpc.call_untyped_at(Rpc::mxid(), NOW) else {
        panic!();
    };
    assert_eq!((header.ty, header.stream_id, header.size, header.id), (0, 4, 13, 0));
    assert_eq!(data, Rpc::encode(Rpc::mxid()));
    let StreamEvent::Write(header, _) = rpc.call_untyped(Rpc::start_pipeline()) else {
        panic!();
    };
    assert_eq!(header.stream_id, 4);
}

#[test]
fn methods_have_the_names_of_the_device() {
    let plain = [
        (Rpc::is_running(), "isRunning"),
        (Rpc::mxid(), "getMxId"),
        (Rpc::connected_cameras(), "getConnectedCameras"),
        (Rpc::connection_interfaces(), "getConnectionInterfaces"),
        (Rpc::connected_camera_features(), "getConnectedCameraFeatures"),
        (Rpc::stereo_pairs(), "getStereoPairs"),
        (Rpc::camera_sensor_names(), "getCameraSensorNames"),
        (Rpc::connected_imu(), "getConnectedIMU"),
        (Rpc::crash_device(), "crashDevice"),
        (Rpc::imu_firmware_version(), "getIMUFirmwareVersion"),
        (Rpc::embedded_imu_firmware_version(), "getEmbeddedIMUFirmwareVersion"),
        (Rpc::ddr_memory_usage(), "getDdrUsage"),
        (Rpc::cmx_memory_usage(), "getCmxUsage"),
        (Rpc::leon_css_heap_usage(), "getLeonCssHeapUsage"),
        (Rpc::leon_mss_heap_usage(), "getLeonMssHeapUsage"),
        (Rpc::chip_temperature(), "getChipTemperature"),
        (Rpc::leon_css_cpu_usage(), "getLeonCssCpuUsage"),
        (Rpc::leon_mss_cpu_usage(), "getLeonMssCpuUsage"),
        (Rpc::process_memory_usage(), "getProcessMemoryUsage"),
        (Rpc::usb_speed(), "getUsbSpeed"),
        (Rpc::is_neural_depth_supported(), "isNeuralDepthSupported"),
        (Rpc::is_pipeline_running(), "isPipelineRunning"),
        (Rpc::log_level(), "getLogLevel"),
        (Rpc::xlink_chunk_size(), "getXLinkChunkSize"),
        (Rpc::ir_drivers(), "getIrDrivers"),
        (Rpc::has_crash_dump(), "hasCrashDump"),
        (Rpc::system_information_logging_rate(), "getSystemInformationLoggingRate"),
        (Rpc::is_eeprom_available(), "isEepromAvailable"),
        (Rpc::calibration(), "getCalibration"),
        (Rpc::calibration2(), "readFromEeprom"),
        (Rpc::wait_for_device_ready(), "waitForDeviceReady"),
        (Rpc::build_pipeline(), "buildPipeline"),
        (Rpc::start_pipeline(), "startPipeline"),
    ];
    for (request, method) in plain {
        assert_eq!(request.method, method);
        assert!(request.params.is_empty());
    }
    let half = Float32 { bits: 0.5f32.to_bits() };
    assert_eq!(Rpc::enable_crash_dump(true).method, "enableCrashDump");
    assert!(matches!(Rpc::enable_crash_dump(true).params[0], Datum::Boolean(true)));
    assert_eq!(Rpc::external_strobe_enable(false).method, "setExternalStrobeEnable");
    assert!(matches!(Rpc::external_strobe_enable(false).params[0], Datum::Boolean(false)));
    assert_eq!(Rpc::set_log_level(LogLevel::Off).method, "setLogLevel");
    assert!(matches!(Rpc::set_log_level(LogLevel::Off).params[0], Datum::Unsigned(6)));
    assert_eq!(Rpc::node_log_level(5).method, "getNodeLogLevel");
    assert!(matches!(Rpc::node_log_level(5).params[0], Datum::Unsigned(5)));
    assert_eq!(
        Rpc::set_ir_laser_dot_projector_intensity(half, -1).method,
        "setIrLaserDotProjectorBrightness"
    );
    assert!(matches!(
        Rpc::set_ir_laser_dot_projector_intensity(half, -1).params[1],
        Datum::Negative(-1)
    ));
    assert_eq!(Rpc::set_ir_floodlight_intensity(half, 1).method, "setIrFloodLightBrightness");
    assert_eq!(Rpc::crash_dump(true).method, "getCrashDump");
    assert_eq!(
        Rpc::set_system_information_logging_rate(half).method,
        "setSystemInformationLoggingRate"
    );
    let request = Rpc::set_pipeline_schema(Datum::Nil);
    assert_eq!((request.method, request.params.len()), ("setPipelineSchema", 1));
}

fn timesync(request: Request) -> Vec<rmpv::Value> {
    assert_eq!(request.method, "setTimesync");
    match parts(request).pop() {
        Some(rmpv::Value::Array(params)) => params,
        _ => panic!(),
    }
}

#[test]
fn time_is_synchronised_as_asked() {
    assert_eq!(
        timesync(Rpc::set_timesync(None, None, None, true)),
        vec![1000.into(), 1000.into(), false.into()]
    );
    assert_eq!(
        timesync(Rpc::set_timesync(Some(Period::from_millis(10)), Some(4), Some(true), true)),
        vec![10.into(), 4.into(), true.into()]
    );
    assert_eq!(
        timesync(Rpc::set_timesync(Some(Period::from_millis(1)), Some(4), Some(true), false)),
        vec![1000.into(), 0.into(), false.into()]
    );
    let longest = Period::from_millis(u32::MAX as u64);
    assert_eq!(timesync(Rpc::set_timesync(Some(longest), None, None, true))[0], u32::MAX.into());
}

fn reply(items: Vec<rmpv::Value>) -> Result<Result<Datum, Datum>, RpcError> {
    let mut bytes = vec![];
    rmpv::encode::write_value(&mut bytes, &rmpv::Value::Array(items)).unwrap();
    Rpc::reply(&bytes)
}

#[test]
fn replies_say_whether_calls_succeeded() {
    assert!(matches!(reply(vec![1.into(), 2.into(), 1.into(), 7.into()]), Ok(Ok(Datum::Unsigned(7)))));
    assert!(matches!(reply(vec![1.into(), 2.into(), 0.into(), 7.into()]), Ok(Err(Datum::Unsigned(7)))));
    assert!(matches!(reply(vec![1.into(), 2.into(), 1.into()]), Ok(Ok(Datum::Nil))));
    assert!(matches!(reply(vec![1.into(), 2.into(), 0.into()]), Ok(Err(Datum::Nil))));
}

#[test]
fn bad_replies_are_refused() {
    assert_eq!(Rpc::reply(&[]).err(), Some(RpcError::Unreadable));
    assert_eq!(Rpc::reply(&[0x94, 1]).err(), Some(RpcError::Unreadable));
    assert_eq!(Rpc::reply(&[1]).err(), Some(RpcError::NotAnArray));
    assert_eq!(reply(vec![1.into(), 2.into()]).err(), Some(RpcError::WrongLength));
    assert_eq!(reply(vec![1.into(); 5]).err(), Some(RpcError::WrongLength));
    assert_eq!(reply(vec![2.into(), 2.into(), 1.into()]).err(), Some(RpcError::WrongVersion));
    assert_eq!(reply(vec![1.into(), 1.into(), 1.into()]).err(), Some(RpcError::NotAResponse));
    assert_eq!(reply(vec![1.into(), 2.into(), 2.into()]).err(), Some(RpcError::UnknownStatus));
    assert_eq!(reply(vec![1.into(), 2.into(), true.into()]).err(), Some(RpcError::UnknownStatus));
}

#[test]
fn infrared_drivers_are_listed() {
    let drivers = Rpc::parse_ir_drivers(Datum::Array(vec![
        Datum::Text("LM3644".to_string()),
        Datum::Unsigned(3),
        Datum::Unsigned(99),
    ]));
    let Ok(Some((Datum::Text(name), Datum::Unsigned(3), Datum::Unsigned(99)))) = drivers else {
        panic!();
    };
    assert_eq!(name, "LM3644");
    assert!(matches!(Rpc::parse_ir_drivers(Datum::Array(vec![])), Ok(None)));
    let short = Datum::Array(vec![Datum::Nil]);
    assert_eq!(Rpc::parse_ir_drivers(short).err(), Some(RpcError::WrongLength));
    assert_eq!(Rpc::parse_ir_drivers(Datum::Nil).err(), Some(RpcError::NotAnArray));
}

#[test]
fn sensor_names_come_in_pairs() {
    let pair = |socket, name: &str| Datum::Array(vec![Datum::number(socket), Datum::Text(name.to_string())]);
    let names = Rpc::parse_camera_sensor_names(Datum::Array(vec![pair(0, "IMX"), pair(-1, "OV")])).unwrap();
    assert_eq!(names.len(), 2);
    assert!(matches!(names[0].0, Datum::Unsigned(0)));
    assert!(matches!(&names[1], (Datum::Negative(-1), Datum::Text(name)) if name == "OV"));
    let bad = Datum::Array(vec![pair(0, "IMX"), Datum::Array(vec![Datum::Nil]), Datum::Nil]);
    assert_eq!(Rpc::parse_camera_sensor_names(bad).err(), Some(RpcError::WrongLength));
    let bad = Datum::Array(vec![pair(0, "IMX"), Datum::Nil]);
    assert_eq!(Rpc::parse_camera_sensor_names(bad).err(), Some(RpcError::NotAnArray));
    assert_eq!(Rpc::parse_camera_sensor_names(Datum::Nil).err(), Some(RpcError::NotAnArray));
}

#[test]
fn calibrations_come_third() {
    let data = Datum::Array(vec![Datum::Nil, Datum::Nil, Datum::Unsigned(5)]);
    assert!(matches!(Rpc::parse_calibration(data), Ok(Datum::Unsigned(5))));
    let short = Datum::Array(vec![Datum::Nil, Datum::Unsigned(5)]);
    assert_eq!(Rpc::parse_calibration(short).err(), Some(RpcError::WrongLength));
    assert_eq!(Rpc::parse_calibration(Datum::Boolean(true)).err(), Some(RpcError::NotAnArray));
}

#[test]
fn values_are_read_as_they_were_written() {
    let value = Datum::Array(vec![
        Datum::Nil,
        Datum::Boolean(true),
        Datum::Unsigned(u64::MAX),
        Datum::Negative(i64::MIN),
        Datum::Single(Float32 { bits: 0x3f80_0001 }),
        Datum::Double(Float64 { bits: 0xbff0_0000_0000_0001 }),
        Datum::Text("grün".to_string()),
        Datum::Binary(vec![0, 255]),
        Datum::Pairs(vec![(Datum::Text("k".to_string()), Datum::Array(vec![]))]),
        Datum::Extension(-5, vec![1, 2, 3]),
    ]);
    let bytes = value.to_bytes();
    let read = Datum::from_bytes(&bytes).unwrap();
    assert_eq!(format!("{value:?}"), format!("{read:?}"));
    let mut more = bytes.clone();
    more.push(0xc1);
    assert_eq!(format!("{value:?}"), format!("{:?}", Datum::from_bytes(&more).unwrap()));
}

#[test]
fn what_is_sent_as_text_may_be_none() {
    let Some(Datum::NoText(bytes)) = Datum::from_bytes(&[0xa2, 0xff, 0xfe]) else {
        panic!();
    };
    assert_eq!(bytes, vec![0xff, 0xfe]);
    assert!(Datum::from_bytes(&[0xa2, 0xff]).is_none());
    assert!(matches!(Datum::from_bytes(&[0xd0, 0x05]), Some(Datum::Unsigned(5))));
    assert!(matches!(Datum::from_bytes(&[0xe0]), Some(Datum::Negative(-32))));
}

#[test]
fn some_values_cannot_be_written() {
    let nested = |datum| Datum::Array(vec![Datum::Nil, Datum::Pairs(vec![(Datum::Nil, datum)])]);
    assert!(nested(Datum::Negative(-1)).writable());
    assert!(!nested(Datum::Negative(0)).writable());
    assert!(!nested(Datum::NoText(vec![])).writable());
    assert!(nested(Datum::Extension(0, vec![])).writable());
    assert!(!Datum::Pairs(vec![(Datum::NoText(vec![]), Datum::Nil)]).writable());
}

#[test]
fn deep_values_are_read_back() {
    let mut value = Datum::Text("deep".to_string());
    for _ in 0..510 {
        value = Datum::Array(vec![value]);
    }
    let read = Datum::from_bytes(&value.to_bytes()).unwrap();
    assert_eq!(format!("{value:?}"), format!("{read:?}"));
    assert!(Datum::from_bytes(&Datum::Array(vec![value]).to_bytes()).is_none());
}
