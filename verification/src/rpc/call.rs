//! Calls to a device and its replies.

use vstd::prelude::*;
use vstd::string::StringSliceAdditionalSpecFns;

use super::types::LogLevel;
use super::value::{self, Datum, Tree};
use crate::clock::{Period, WallTime};
use crate::connection::ConnectionStream;
use crate::event::{self, Event, EventType};
use crate::float::Float32;
use crate::io::{StreamEvent, WriteStreamInfo};
use crate::name;

verus! {

/// What a method is called by: its name's bytes, one after the other added to 31 times what
/// came before, in 64 bits.
pub open spec fn hash(name: Seq<u8>) -> u64
    decreases name.len(),
{
    if name.len() == 0 {
        1125899906842597
    } else {
        ((hash(name.drop_last()) * 31 + name.last()) % 0x1_0000_0000_0000_0000) as u64
    }
}

/// A number of either sign.
pub open spec fn number(n: i64) -> Tree {
    if n < 0 {
        Tree::Negative(n)
    } else {
        Tree::Unsigned(n as u64)
    }
}

/// A call: a method and what it is called with.
#[derive(Debug)]
pub struct Request {
    pub method: &'static str,
    pub params: Vec<Datum>,
}

impl Request {
    /// Whether this calls `method` with `params`.
    pub open spec fn calls(&self, method: &str, params: Seq<Tree>) -> bool {
        &&& self.method@ == method@
        &&& value::trees(self.params@) == params
    }
}

/// The message that calls `method` with `params`: the version of the protocol, what kind of
/// message it is, what the method is called by, and the parameters.
pub open spec fn request_message(method: Seq<char>, params: Seq<Tree>) -> Tree {
    Tree::Array(
        seq![
            Tree::Unsigned(Rpc::VERSION),
            Tree::Unsigned(Rpc::REQUEST),
            Tree::Unsigned(hash(vstd::utf8::encode_utf8(method))),
            Tree::Array(params),
        ],
    )
}

/// What is wrong with a reply.
#[derive(Clone, Copy, Debug, PartialEq, Eq, Structural)]
pub enum RpcError {
    /// The reply is not in the format of messages.
    Unreadable,
    /// The reply, or a part of it, is no list where it should be one.
    NotAnArray,
    /// A list has too few or too many items.
    WrongLength,
    /// The reply is of another version of the protocol.
    WrongVersion,
    /// The message is not a reply.
    NotAResponse,
    /// The reply says neither that the call succeeded nor that it failed.
    UnknownStatus,
}

/// What a reply says: what a call that succeeded gave, or what one that failed did, or what is
/// wrong with the reply. Where there is nothing to say it may be left out.
pub open spec fn reply_of(message: Tree) -> Result<Result<Tree, Tree>, RpcError> {
    match message {
        Tree::Array(items) => if items.len() != 3 && items.len() != 4 {
            Err(RpcError::WrongLength)
        } else if items[0] != Tree::Unsigned(Rpc::VERSION) {
            Err(RpcError::WrongVersion)
        } else if items[1] != Tree::Unsigned(Rpc::RESPONSE) {
            Err(RpcError::NotAResponse)
        } else {
            let result = if items.len() == 3 {
                Tree::Nil
            } else {
                items[3]
            };
            if items[2] == Tree::Unsigned(1) {
                Ok(Ok(result))
            } else if items[2] == Tree::Unsigned(0) {
                Ok(Err(result))
            } else {
                Err(RpcError::UnknownStatus)
            }
        },
        _ => Err(RpcError::NotAnArray),
    }
}

/// Whether `reply` says what `said` says.
pub open spec fn says(
    reply: Result<Result<Datum, Datum>, RpcError>,
    said: Result<Result<Tree, Tree>, RpcError>,
) -> bool {
    match said {
        Ok(Ok(tree)) => reply matches Ok(Ok(datum)) && datum@ == tree,
        Ok(Err(tree)) => reply matches Ok(Err(datum)) && datum@ == tree,
        Err(error) => reply == Err::<Result<Datum, Datum>, RpcError>(error),
    }
}

/// Calls on the device at the other end of a stream.
#[derive(Clone, Copy, Debug)]
pub struct Rpc {
    pub write: WriteStreamInfo,
}

impl Rpc {
    /// The version of the protocol.
    pub const VERSION: u64 = 1;

    /// The kind of message that is a call.
    pub const REQUEST: u64 = 1;

    /// The kind of message that is a reply.
    pub const RESPONSE: u64 = 2;

    /// How often time is synchronised unless set, in milliseconds.
    pub const DEFAULT_TIMESYNC_PERIOD_MS: u64 = 1000;

    /// How many samples a synchronisation takes unless set.
    pub const DEFAULT_TIMESYNC_SAMPLE_COUNT: u32 = 1000;

    /// Whether samples are taken at random times unless set.
    pub const DEFAULT_TIMESYNC_RANDOM: bool = false;

    /// Calls over `stream`.
    pub fn new(stream: &ConnectionStream) -> (rpc: Self)
        ensures
            rpc.write == stream.write,
    {
        Rpc { write: stream.write }
    }

    /// What a method is called by.
    pub fn hash_method(method_name: &str) -> (h: u64)
        ensures
            h == hash(method_name.spec_bytes()),
    {
        let bytes: &[u8] = method_name.as_bytes();
        let mut h: u64 = 1125899906842597;
        let mut i: usize = 0;
        assert(bytes@.take(0) =~= Seq::empty());
        while i < bytes.len()
            invariant
                i <= bytes@.len(),
                h == hash(bytes@.take(i as int)),
            decreases bytes@.len() - i,
        {
            assert(bytes@.take(i + 1).drop_last() =~= bytes@.take(i as int));
            h = h.wrapping_mul(31).wrapping_add(bytes[i] as u64);
            i = i + 1;
        }
        assert(bytes@.take(i as int) =~= bytes@);
        h
    }

    /// The message of a call.
    pub fn message(request: Request) -> (message: Datum)
        ensures
            message@ == request_message(request.method@, value::trees(request.params@)),
    {
        let Request { method, params } = request;
        let mut items: Vec<Datum> = Vec::new();
        items.push(Datum::Unsigned(Self::VERSION));
        items.push(Datum::Unsigned(Self::REQUEST));
        items.push(Datum::Unsigned(Self::hash_method(method)));
        items.push(Datum::Array(params));
        assert(items@[3]@ == Tree::Array(value::trees(params@)));
        assert(value::trees(items@) =~= request_message(method@, value::trees(params@))->Array_0);
        Datum::Array(items)
    }

    /// The message of a call as it stands on the wire.
    pub fn encode(request: Request) -> (data: Vec<u8>)
        requires
            value::can_be_written(Tree::Array(value::trees(request.params@))),
        ensures
            data@ == value::written(
                request_message(request.method@, value::trees(request.params@)),
            ),
            value::can_be_read_back(
                request_message(request.method@, value::trees(request.params@)),
                510,
            ) ==> value::read(data@) == Some(
                request_message(request.method@, value::trees(request.params@)),
            ),
    {
        let ghost tree = request_message(request.method@, value::trees(request.params@));
        let message = Self::message(request);
        assert(value::can_be_written(message@)) by {
            let items = tree->Array_0;
            assert forall|i: int| 0 <= i < items.len() implies value::can_be_written(
                items[i],
            ) by {
                assert(i == 0 || i == 1 || i == 2 || i == 3);
            }
        }
        message.to_bytes()
    }

    /// Has a call sent, as of the time `now`.
    pub fn call_untyped_at(&self, request: Request, now: WallTime) -> (sent: StreamEvent)
        requires
            value::can_be_written(Tree::Array(value::trees(request.params@))),
        ensures
            sent matches StreamEvent::Write(header, data) && data@ == value::written(
                request_message(request.method@, value::trees(request.params@)),
            ) && event::describes(
                header,
                0,
                EventType::WriteReq,
                name::padded(Seq::empty()),
                self.write.id,
                event::wire_size(data@),
                0,
                now,
            ),
    {
        let data = Self::encode(request);
        let name: [u8; 0] = [];
        assert(name@ =~= Seq::<u8>::empty());
        let ev = Event::write_at(self.write.id, name.as_slice(), data.as_slice(), now);
        StreamEvent::Write(ev.header, data)
    }

    /// Has a call sent.
    pub fn call_untyped(&self, request: Request) -> (sent: StreamEvent)
        requires
            value::can_be_written(Tree::Array(value::trees(request.params@))),
        ensures
            sent matches StreamEvent::Write(header, data) && data@ == value::written(
                request_message(request.method@, value::trees(request.params@)),
            ) && exists|now: WallTime|
                now.is_shown() && #[trigger] event::describes(
                    header,
                    0,
                    EventType::WriteReq,
                    name::padded(Seq::empty()),
                    self.write.id,
                    event::wire_size(data@),
                    0,
                    now,
                ),
    {
        self.call_untyped_at(request, WallTime::now())
    }

    /// What the message of a reply says.
    pub fn interpret(message: Datum) -> (reply: Result<Result<Datum, Datum>, RpcError>)
        ensures
            says(reply, reply_of(message@)),
    {
        let mut items = match message {
            Datum::Array(items) => items,
            _ => return Err(RpcError::NotAnArray),
        };
        let ghost before = items@;
        assert(message@ == Tree::Array(value::trees(before)));
        if items.len() == 3 {
            items.push(Datum::Nil);
        }
        if items.len() != 4 {
            return Err(RpcError::WrongLength);
        }
        proof {
            assert(value::trees(before)[0] == items@[0]@);
            assert(value::trees(before)[1] == items@[1]@);
            assert(value::trees(before)[2] == items@[2]@);
            if before.len() == 4 {
                assert(value::trees(before)[3] == items@[3]@);
            }
        }
        match &items[0] {
            Datum::Unsigned(version) if *version == Self::VERSION => {},
            _ => return Err(RpcError::WrongVersion),
        }
        match &items[1] {
            Datum::Unsigned(msg_ty) if *msg_ty == Self::RESPONSE => {},
            _ => return Err(RpcError::NotAResponse),
        }
        let succeeded: bool = match &items[2] {
            Datum::Unsigned(1) => true,
            Datum::Unsigned(0) => false,
            _ => return Err(RpcError::UnknownStatus),
        };
        let res = items.swap_remove(3);
        if succeeded {
            Ok(Ok(res))
        } else {
            Ok(Err(res))
        }
    }

    /// What the reply that came as `bytes` says.
    pub fn reply(bytes: &[u8]) -> (reply: Result<Result<Datum, Datum>, RpcError>)
        ensures
            match value::read(bytes@) {
                Some(message) => says(reply, reply_of(message)),
                None => reply == Err::<Result<Datum, Datum>, RpcError>(RpcError::Unreadable),
            },
    {
        match Datum::from_bytes(bytes) {
            Some(message) => Self::interpret(message),
            None => Err(RpcError::Unreadable),
        }
    }

    /// Whether the device is running.
    pub fn is_running() -> (request: Request)
        ensures
            request.calls("isRunning", Seq::empty()),
    {
        Self::plain("isRunning")
    }

    /// The serial number of the device.
    pub fn mxid() -> (request: Request)
        ensures
            request.calls("getMxId", Seq::empty()),
    {
        Self::plain("getMxId")
    }

    /// The sockets that cameras are plugged into.
    pub fn connected_cameras() -> (request: Request)
        ensures
            request.calls("getConnectedCameras", Seq::empty()),
    {
        Self::plain("getConnectedCameras")
    }

    /// How the device is connected.
    pub fn connection_interfaces() -> (request: Request)
        ensures
            request.calls("getConnectionInterfaces", Seq::empty()),
    {
        Self::plain("getConnectionInterfaces")
    }

    /// What the connected cameras can do.
    pub fn connected_camera_features() -> (request: Request)
        ensures
            request.calls("getConnectedCameraFeatures", Seq::empty()),
    {
        Self::plain("getConnectedCameraFeatures")
    }

    /// The cameras that see the same scene.
    pub fn stereo_pairs() -> (request: Request)
        ensures
            request.calls("getStereoPairs", Seq::empty()),
    {
        Self::plain("getStereoPairs")
    }

    /// The sensors of the connected cameras.
    pub fn camera_sensor_names() -> (request: Request)
        ensures
            request.calls("getCameraSensorNames", Seq::empty()),
    {
        Self::plain("getCameraSensorNames")
    }

    /// The inertial sensor that is connected.
    pub fn connected_imu() -> (request: Request)
        ensures
            request.calls("getConnectedIMU", Seq::empty()),
    {
        Self::plain("getConnectedIMU")
    }

    /// Has the device crash.
    pub fn crash_device() -> (request: Request)
        ensures
            request.calls("crashDevice", Seq::empty()),
    {
        Self::plain("crashDevice")
    }

    /// The version of the inertial sensor's firmware.
    pub fn imu_firmware_version() -> (request: Request)
        ensures
            request.calls("getIMUFirmwareVersion", Seq::empty()),
    {
        Self::plain("getIMUFirmwareVersion")
    }

    /// The version of the firmware that the device holds for the inertial sensor.
    pub fn embedded_imu_firmware_version() -> (request: Request)
        ensures
            request.calls("getEmbeddedIMUFirmwareVersion", Seq::empty()),
    {
        Self::plain("getEmbeddedIMUFirmwareVersion")
    }

    /// How much of the main memory is in use.
    pub fn ddr_memory_usage() -> (request: Request)
        ensures
            request.calls("getDdrUsage", Seq::empty()),
    {
        Self::plain("getDdrUsage")
    }

    /// How much of the fast memory is in use.
    pub fn cmx_memory_usage() -> (request: Request)
        ensures
            request.calls("getCmxUsage", Seq::empty()),
    {
        Self::plain("getCmxUsage")
    }

    /// How much of the heap of the first processor is in use.
    pub fn leon_css_heap_usage() -> (request: Request)
        ensures
            request.calls("getLeonCssHeapUsage", Seq::empty()),
    {
        Self::plain("getLeonCssHeapUsage")
    }

    /// How much of the heap of the second processor is in use.
    pub fn leon_mss_heap_usage() -> (request: Request)
        ensures
            request.calls("getLeonMssHeapUsage", Seq::empty()),
    {
        Self::plain("getLeonMssHeapUsage")
    }

    /// How warm the chip is.
    pub fn chip_temperature() -> (request: Request)
        ensures
            request.calls("getChipTemperature", Seq::empty()),
    {
        Self::plain("getChipTemperature")
    }

    /// How busy the first processor is.
    pub fn leon_css_cpu_usage() -> (request: Request)
        ensures
            request.calls("getLeonCssCpuUsage", Seq::empty()),
    {
        Self::plain("getLeonCssCpuUsage")
    }

    /// How busy the second processor is.
    pub fn leon_mss_cpu_usage() -> (request: Request)
        ensures
            request.calls("getLeonMssCpuUsage", Seq::empty()),
    {
        Self::plain("getLeonMssCpuUsage")
    }

    /// How much memory the process on the device takes.
    pub fn process_memory_usage() -> (request: Request)
        ensures
            request.calls("getProcessMemoryUsage", Seq::empty()),
    {
        Self::plain("getProcessMemoryUsage")
    }

    /// The speed of the USB connection.
    pub fn usb_speed() -> (request: Request)
        ensures
            request.calls("getUsbSpeed", Seq::empty()),
    {
        Self::plain("getUsbSpeed")
    }

    /// Whether depth can be inferred by a network.
    pub fn is_neural_depth_supported() -> (request: Request)
        ensures
            request.calls("isNeuralDepthSupported", Seq::empty()),
    {
        Self::plain("isNeuralDepthSupported")
    }

    /// Whether a pipeline is running.
    pub fn is_pipeline_running() -> (request: Request)
        ensures
            request.calls("isPipelineRunning", Seq::empty()),
    {
        Self::plain("isPipelineRunning")
    }

    /// How much is logged.
    pub fn log_level() -> (request: Request)
        ensures
            request.calls("getLogLevel", Seq::empty()),
    {
        Self::plain("getLogLevel")
    }

    /// How large the pieces of a message are.
    pub fn xlink_chunk_size() -> (request: Request)
        ensures
            request.calls("getXLinkChunkSize", Seq::empty()),
    {
        Self::plain("getXLinkChunkSize")
    }

    /// The driver of the infrared lights.
    pub fn ir_drivers() -> (request: Request)
        ensures
            request.calls("getIrDrivers", Seq::empty()),
    {
        Self::plain("getIrDrivers")
    }

    /// Whether the device kept anything of a crash.
    pub fn has_crash_dump() -> (request: Request)
        ensures
            request.calls("hasCrashDump", Seq::empty()),
    {
        Self::plain("hasCrashDump")
    }

    /// How often system information is logged.
    pub fn system_information_logging_rate() -> (request: Request)
        ensures
            request.calls("getSystemInformationLoggingRate", Seq::empty()),
    {
        Self::plain("getSystemInformationLoggingRate")
    }

    /// Whether the device stores its calibration.
    pub fn is_eeprom_available() -> (request: Request)
        ensures
            request.calls("isEepromAvailable", Seq::empty()),
    {
        Self::plain("isEepromAvailable")
    }

    /// The calibration in use.
    pub fn calibration() -> (request: Request)
        ensures
            request.calls("getCalibration", Seq::empty()),
    {
        Self::plain("getCalibration")
    }

    /// The calibration that is stored.
    pub fn calibration2() -> (request: Request)
        ensures
            request.calls("readFromEeprom", Seq::empty()),
    {
        Self::plain("readFromEeprom")
    }

    /// Waits until the device is ready.
    pub fn wait_for_device_ready() -> (request: Request)
        ensures
            request.calls("waitForDeviceReady", Seq::empty()),
    {
        Self::plain("waitForDeviceReady")
    }

    /// Has the pipeline built.
    pub fn build_pipeline() -> (request: Request)
        ensures
            request.calls("buildPipeline", Seq::empty()),
    {
        Self::plain("buildPipeline")
    }

    /// Has the pipeline started.
    pub fn start_pipeline() -> (request: Request)
        ensures
            request.calls("startPipeline", Seq::empty()),
    {
        Self::plain("startPipeline")
    }

    /// Whether the device keeps something of a crash.
    pub fn enable_crash_dump(enable: bool) -> (request: Request)
        ensures
            request.calls(
                "enableCrashDump",
                seq![Tree::Boolean(enable)],
            ),
    {
        let mut params: Vec<Datum> = Vec::new();
        params.push(Datum::Boolean(enable));
        let ghost given = seq![Tree::Boolean(enable)];
        assert(value::trees(params@) =~= given);
        Request { method: "enableCrashDump", params }
    }

    /// Whether an external strobe is driven.
    pub fn external_strobe_enable(enable: bool) -> (request: Request)
        ensures
            request.calls(
                "setExternalStrobeEnable",
                seq![Tree::Boolean(enable)],
            ),
    {
        let mut params: Vec<Datum> = Vec::new();
        params.push(Datum::Boolean(enable));
        let ghost given = seq![Tree::Boolean(enable)];
        assert(value::trees(params@) =~= given);
        Request { method: "setExternalStrobeEnable", params }
    }

    /// Sets how much is logged.
    pub fn set_log_level(log_level: LogLevel) -> (request: Request)
        ensures
            request.calls(
                "setLogLevel",
                seq![Tree::Unsigned(log_level.spec_code() as u64)],
            ),
    {
        let mut params: Vec<Datum> = Vec::new();
        params.push(Datum::Unsigned(log_level.code() as u64));
        let ghost given = seq![Tree::Unsigned(log_level.spec_code() as u64)];
        assert(value::trees(params@) =~= given);
        Request { method: "setLogLevel", params }
    }

    /// Sets how much a node logs.
    pub fn set_node_log_level(node_id: i64, log_level: LogLevel) -> (request: Request)
        ensures
            request.calls(
                "setNodeLogLevel",
                seq![number(node_id), Tree::Unsigned(log_level.spec_code() as u64)],
            ),
    {
        let mut params: Vec<Datum> = Vec::new();
        params.push(Datum::number(node_id));
        params.push(Datum::Unsigned(log_level.code() as u64));
        let ghost given = seq![number(node_id), Tree::Unsigned(log_level.spec_code() as u64)];
        assert(value::trees(params@) =~= given);
        Request { method: "setNodeLogLevel", params }
    }

    /// How much a node logs.
    pub fn node_log_level(node_id: u64) -> (request: Request)
        ensures
            request.calls(
                "getNodeLogLevel",
                seq![Tree::Unsigned(node_id)],
            ),
    {
        let mut params: Vec<Datum> = Vec::new();
        params.push(Datum::Unsigned(node_id));
        let ghost given = seq![Tree::Unsigned(node_id)];
        assert(value::trees(params@) =~= given);
        Request { method: "getNodeLogLevel", params }
    }

    /// Sets how bright the dot projectors of the mask are.
    pub fn set_ir_laser_dot_projector_intensity(intensity: Float32, mask: i32) -> (request: Request)
        ensures
            request.calls(
                "setIrLaserDotProjectorBrightness",
                seq![Tree::Single(intensity), number(mask as i64), Tree::Boolean(true)],
            ),
    {
        let mut params: Vec<Datum> = Vec::new();
        params.push(Datum::Single(intensity));
        params.push(Datum::number(mask as i64));
        params.push(Datum::Boolean(true));
        let ghost given = seq![Tree::Single(intensity), number(mask as i64), Tree::Boolean(true)];
        assert(value::trees(params@) =~= given);
        Request { method: "setIrLaserDotProjectorBrightness", params }
    }

    /// Sets how bright the flood lights of the mask are.
    pub fn set_ir_floodlight_intensity(intensity: Float32, mask: i32) -> (request: Request)
        ensures
            request.calls(
                "setIrFloodLightBrightness",
                seq![Tree::Single(intensity), number(mask as i64), Tree::Boolean(true)],
            ),
    {
        let mut params: Vec<Datum> = Vec::new();
        params.push(Datum::Single(intensity));
        params.push(Datum::number(mask as i64));
        params.push(Datum::Boolean(true));
        let ghost given = seq![Tree::Single(intensity), number(mask as i64), Tree::Boolean(true)];
        assert(value::trees(params@) =~= given);
        Request { method: "setIrFloodLightBrightness", params }
    }

    /// What the device kept of its crashes, to be cleared or not.
    pub fn crash_dump(clear: bool) -> (request: Request)
        ensures
            request.calls(
                "getCrashDump",
                seq![Tree::Boolean(clear)],
            ),
    {
        let mut params: Vec<Datum> = Vec::new();
        params.push(Datum::Boolean(clear));
        let ghost given = seq![Tree::Boolean(clear)];
        assert(value::trees(params@) =~= given);
        Request { method: "getCrashDump", params }
    }

    /// Sets how often system information is logged.
    pub fn set_system_information_logging_rate(hz: Float32) -> (request: Request)
        ensures
            request.calls(
                "setSystemInformationLoggingRate",
                seq![Tree::Single(hz)],
            ),
    {
        let mut params: Vec<Datum> = Vec::new();
        params.push(Datum::Single(hz));
        let ghost given = seq![Tree::Single(hz)];
        assert(value::trees(params@) =~= given);
        Request { method: "setSystemInformationLoggingRate", params }
    }

    /// A call without parameters.
    fn plain(method: &'static str) -> (request: Request)
        ensures
            request.calls(method, Seq::empty()),
    {
        let params: Vec<Datum> = Vec::new();
        assert(value::trees(params@) =~= Seq::empty());
        Request { method, params }
    }

    /// Sets how the device synchronises its time with the host, from 10 milliseconds to what 32
    /// bits hold apart. What is not given is as it is unless set.
    pub fn set_timesync(
        period: Option<Period>,
        sample_count: Option<u32>,
        random: Option<bool>,
        enable: bool,
    ) -> (request: Request)
        requires
            enable ==> (period matches Some(period) ==> 10 <= period.millis() <= u32::MAX),
        ensures
            request.calls(
                "setTimesync",
                timesync_params(period, sample_count, random, enable),
            ),
    {
        let (every, count, at_random): (Period, u32, bool) = if !enable {
            (Period::from_millis(1000), 0, false)
        } else {
            (
                match period {
                    Some(period) => period,
                    None => Period::from_millis(Self::DEFAULT_TIMESYNC_PERIOD_MS),
                },
                match sample_count {
                    Some(count) => count,
                    None => Self::DEFAULT_TIMESYNC_SAMPLE_COUNT,
                },
                match random {
                    Some(random) => random,
                    None => Self::DEFAULT_TIMESYNC_RANDOM,
                },
            )
        };
        let millis: u128 = every.as_millis();
        let mut params: Vec<Datum> = Vec::new();
        params.push(Datum::Unsigned(millis as u64));
        params.push(Datum::Unsigned(count as u64));
        params.push(Datum::Boolean(at_random));
        assert(value::trees(params@) =~= timesync_params(period, sample_count, random, enable));
        Request { method: "setTimesync", params }
    }

    /// Has the device take a pipeline, which is given as a value.
    pub fn set_pipeline_schema(schema: Datum) -> (request: Request)
        ensures
            request.calls("setPipelineSchema", seq![schema@]),
    {
        let mut params: Vec<Datum> = Vec::new();
        params.push(schema);
        let ghost given = seq![schema@];
        assert(value::trees(params@) =~= given);
        Request { method: "setPipelineSchema", params }
    }

    /// The driver of the infrared lights and its two numbers, as a reply gives them. Without
    /// lights the reply is empty.
    pub fn parse_ir_drivers(reply: Datum) -> (drivers: Result<
        Option<(Datum, Datum, Datum)>,
        RpcError,
    >)
        ensures
            match reply@ {
                Tree::Array(items) => if items.len() == 0 {
                    drivers == Ok::<Option<(Datum, Datum, Datum)>, RpcError>(None)
                } else if items.len() == 3 {
                    drivers matches Ok(Some((name, v1, v2))) && name@ == items[0] && v1@
                        == items[1] && v2@ == items[2]
                } else {
                    drivers == Err::<Option<(Datum, Datum, Datum)>, RpcError>(
                        RpcError::WrongLength,
                    )
                },
                _ => drivers == Err::<Option<(Datum, Datum, Datum)>, RpcError>(
                    RpcError::NotAnArray,
                ),
            },
    {
        let mut items = match reply {
            Datum::Array(items) => items,
            _ => return Err(RpcError::NotAnArray),
        };
        let ghost before = items@;
        assert(reply@ == Tree::Array(value::trees(before)));
        if items.len() == 0 {
            return Ok(None);
        }
        if items.len() != 3 {
            return Err(RpcError::WrongLength);
        }
        let v2 = items.pop().unwrap();
        let v1 = items.pop().unwrap();
        let name = items.pop().unwrap();
        assert(value::trees(before)[0] == name@);
        assert(value::trees(before)[1] == v1@);
        assert(value::trees(before)[2] == v2@);
        Ok(Some((name, v1, v2)))
    }

    /// The sockets of cameras and the names of their sensors, as a reply gives them.
    pub fn parse_camera_sensor_names(reply: Datum) -> (names: Result<
        Vec<(Datum, Datum)>,
        RpcError,
    >)
        ensures
            match sensor_names(reply@) {
                Ok(pairs) => names is Ok && value::pair_trees(names->Ok_0@) == pairs,
                Err(error) => names == Err::<Vec<(Datum, Datum)>, RpcError>(error),
            },
    {
        let items = match reply {
            Datum::Array(items) => items,
            _ => return Err(RpcError::NotAnArray),
        };
        let ghost all = items@;
        let ghost trees = value::trees(items@);
        assert(reply@ == Tree::Array(trees));
        let mut names: Vec<(Datum, Datum)> = Vec::new();
        proof {
            assert(trees.take(0) =~= Seq::empty());
            assert(value::pair_trees(names@) =~= Seq::empty());
        }
        for pair in it: items
            invariant
                it.seq() == all,
                trees == value::trees(all),
                reply@ == Tree::Array(trees),
                sensor_pairs(trees.take(it.index() as int)) == Ok::<_, RpcError>(
                    value::pair_trees(names@),
                ),
        {
            proof {
                let at = it.index() as int;
                assert(pair == all[at]);
                assert(trees[at] == pair@);
                assert(trees.take(at + 1).drop_last() =~= trees.take(at));
                assert(trees.take(at + 1).last() == pair@);
            }
            let mut vals = match pair {
                Datum::Array(vals) => vals,
                _ => {
                    proof {
                        sensor_pairs_stop(trees, it.index() + 1);
                    }
                    return Err(RpcError::NotAnArray);
                },
            };
            assert(pair@ == Tree::Array(value::trees(vals@)));
            if vals.len() != 2 {
                proof {
                    sensor_pairs_stop(trees, it.index() + 1);
                }
                return Err(RpcError::WrongLength);
            }
            let ghost both = vals@;
            let ghost before = names@;
            let name = vals.pop().unwrap();
            let sock = vals.pop().unwrap();
            assert(value::trees(both)[0] == sock@);
            assert(value::trees(both)[1] == name@);
            names.push((sock, name));
            assert(value::pair_trees(names@) =~= value::pair_trees(before).push(
                (sock@, name@),
            ));
        }
        assert(trees.take(trees.len() as int) =~= trees);
        Ok(names)
    }

    /// The calibration in a reply, which comes third of three.
    pub fn parse_calibration(reply: Datum) -> (calibration: Result<Datum, RpcError>)
        ensures
            match reply@ {
                Tree::Array(items) => if items.len() == 3 {
                    calibration matches Ok(data) && data@ == items[2]
                } else {
                    calibration == Err::<Datum, RpcError>(RpcError::WrongLength)
                },
                _ => calibration == Err::<Datum, RpcError>(RpcError::NotAnArray),
            },
    {
        let mut items = match reply {
            Datum::Array(items) => items,
            _ => return Err(RpcError::NotAnArray),
        };
        let ghost before = items@;
        assert(reply@ == Tree::Array(value::trees(before)));
        if items.len() != 3 {
            return Err(RpcError::WrongLength);
        }
        let data = items.pop().unwrap();
        assert(value::trees(before)[2] == data@);
        Ok(data)
    }
}

/// What the synchronisation of time is set to: how many milliseconds apart, of how many samples
/// and whether at random. Where nothing is to be synchronised, nothing that is given matters.
pub open spec fn timesync_params(
    period: Option<Period>,
    sample_count: Option<u32>,
    random: Option<bool>,
    enable: bool,
) -> Seq<Tree> {
    if !enable {
        seq![Tree::Unsigned(1000), Tree::Unsigned(0), Tree::Boolean(false)]
    } else {
        seq![
            Tree::Unsigned(
                match period {
                    Some(period) => period.millis() as u64,
                    None => Rpc::DEFAULT_TIMESYNC_PERIOD_MS,
                },
            ),
            Tree::Unsigned(
                match sample_count {
                    Some(count) => count as u64,
                    None => Rpc::DEFAULT_TIMESYNC_SAMPLE_COUNT as u64,
                },
            ),
            Tree::Boolean(
                match random {
                    Some(random) => random,
                    None => Rpc::DEFAULT_TIMESYNC_RANDOM,
                },
            ),
        ]
    }
}

/// The pairs that a list of lists of two holds, or what is wrong with the first that is none.
pub open spec fn sensor_pairs(items: Seq<Tree>) -> Result<Seq<(Tree, Tree)>, RpcError>
    decreases items.len(),
{
    if items.len() == 0 {
        Ok(Seq::empty())
    } else {
        match sensor_pairs(items.drop_last()) {
            Err(error) => Err(error),
            Ok(before) => match items.last() {
                Tree::Array(pair) => if pair.len() == 2 {
                    Ok(before.push((pair[0], pair[1])))
                } else {
                    Err(RpcError::WrongLength)
                },
                _ => Err(RpcError::NotAnArray),
            },
        }
    }
}

/// The pairs of sockets and names that a reply holds, or what is wrong with it.
pub open spec fn sensor_names(reply: Tree) -> Result<Seq<(Tree, Tree)>, RpcError> {
    match reply {
        Tree::Array(items) => sensor_pairs(items),
        _ => Err(RpcError::NotAnArray),
    }
}

/// The message of a call whose parameters are read back as they are written is read back as it
/// is written.
pub proof fn requests_can_be_read_back(method: Seq<char>, params: Seq<Tree>)
    requires
        value::can_be_read_back(Tree::Array(params), 509),
    ensures
        value::can_be_read_back(request_message(method, params), 510),
{
    let items = request_message(method, params)->Array_0;
    assert forall|i: int| 0 <= i < items.len() implies value::can_be_read_back(items[i], 509) by {
        assert(i == 0 || i == 1 || i == 2 || i == 3);
    }
}

/// A reply that is made as replies are is understood: what it says is what was put into it,
/// whether the call succeeded or failed.
pub proof fn replies_are_understood(result: Tree)
    ensures
        ({
            let reply = |status: u64|
                Tree::Array(
                    seq![
                        Tree::Unsigned(Rpc::VERSION),
                        Tree::Unsigned(Rpc::RESPONSE),
                        Tree::Unsigned(status),
                        result,
                    ],
                );
            &&& reply_of(reply(1)) == Ok::<_, RpcError>(Ok::<Tree, Tree>(result))
            &&& reply_of(reply(0)) == Ok::<_, RpcError>(Err::<Tree, Tree>(result))
        }),
{
}

/// A reply without a result is one with nothing for a result.
pub proof fn missing_results_are_nothing(status: Tree)
    ensures
        ({
            let items = seq![
                Tree::Unsigned(Rpc::VERSION),
                Tree::Unsigned(Rpc::RESPONSE),
                status,
            ];
            reply_of(Tree::Array(items)) == reply_of(Tree::Array(items.push(Tree::Nil)))
        }),
{
}

/// What is wrong with the beginning of a list is wrong with all of it.
proof fn sensor_pairs_stop(items: Seq<Tree>, n: int)
    requires
        0 <= n <= items.len(),
        sensor_pairs(items.take(n)) is Err,
    ensures
        sensor_pairs(items) == sensor_pairs(items.take(n)),
    decreases items.len(),
{
    if n < items.len() {
        assert(items.drop_last().take(n) =~= items.take(n));
        sensor_pairs_stop(items.drop_last(), n);
    } else {
        assert(items.take(n) =~= items);
    }
}

/// Every byte of a name counts, whatever comes before it: it is added to 31 times what the name
/// before it is called by. A method without a name is called by the number that this starts from.
pub proof fn every_byte_of_a_name_counts(name: Seq<u8>, byte: u8)
    ensures
        hash(Seq::empty()) == 1125899906842597,
        hash(name.push(byte)) == (31 * hash(name) + byte) % 0x1_0000_0000_0000_0000,
{
    assert(name.push(byte).drop_last() =~= name);
}

/// A method whose name is another's with one character of one byte behind it is called by 31
/// times what the other is called by, and that byte, in 64 bits.
pub proof fn longer_names_are_called_by_more(
    short: &str,
    long: &str,
    byte: u8,
    of_short: u64,
    of_long: u64,
)
    requires
        call_ensures(Rpc::hash_method, (short,), of_short),
        call_ensures(Rpc::hash_method, (long,), of_long),
        long.spec_bytes() == short.spec_bytes().push(byte),
    ensures
        of_long == (31 * of_short + byte) % 0x1_0000_0000_0000_0000,
{
    every_byte_of_a_name_counts(short.spec_bytes(), byte);
}

/// What two names are called by tells their last bytes apart.
pub proof fn last_bytes_are_told_apart(name: Seq<u8>, a: u8, b: u8)
    requires
        hash(name.push(a)) == hash(name.push(b)),
    ensures
        a == b,
{
    every_byte_of_a_name_counts(name, a);
    every_byte_of_a_name_counts(name, b);
}

/// The message of a call has four parts: twice the number 1, for the version and for a call, what
/// the method is called by, and all parameters in their order.
pub proof fn calls_have_four_parts(request: Request, message: Datum)
    requires
        call_ensures(Rpc::message, (request,), message),
    ensures
        message@ matches Tree::Array(parts) && {
            &&& parts.len() == 4
            &&& parts[0] == Tree::Unsigned(1)
            &&& parts[1] == Tree::Unsigned(1)
            &&& parts[2] == Tree::Unsigned(hash(vstd::utf8::encode_utf8(request.method@)))
            &&& parts[3] matches Tree::Array(params) && params.len() == request.params@.len()
                && forall|i: int|
                0 <= i < params.len() ==> params[i] == (#[trigger] request.params@[i])@
        },
{
}

/// A message by its parts.
pub proof fn messages_by_their_parts(method: Seq<char>, params: Seq<Tree>)
    ensures
        request_message(method, params) == Tree::Array(
            seq![
                Tree::Unsigned(1),
                Tree::Unsigned(1),
                Tree::Unsigned(hash(vstd::utf8::encode_utf8(method))),
                Tree::Array(params),
            ],
        ),
{
}

/// A reply of three parts or four is told from other messages by the number 1, for the version,
/// and the number 2, for a reply. What it says is its fourth part, or nothing where there is none:
/// what came of the call if the third part is 1, why it failed if that is 0.
pub proof fn replies_say_what_came_of_the_call(
    message: Datum,
    parts: Seq<Tree>,
    reply: Result<Result<Datum, Datum>, RpcError>,
)
    requires
        call_ensures(Rpc::interpret, (message,), reply),
        message@ == Tree::Array(parts),
        parts.len() == 3 || parts.len() == 4,
        parts[0] == Tree::Unsigned(1),
        parts[1] == Tree::Unsigned(2),
    ensures
        parts[2] == Tree::Unsigned(1) <==> reply matches Ok(Ok(_)),
        parts[2] == Tree::Unsigned(0) <==> reply matches Ok(Err(_)),
        parts[2] != Tree::Unsigned(0) && parts[2] != Tree::Unsigned(1) <==> reply == Err::<
            Result<Datum, Datum>,
            RpcError,
        >(RpcError::UnknownStatus),
        reply matches Ok(Ok(result)) ==> result@ == if parts.len() == 4 {
            parts[3]
        } else {
            Tree::Nil
        },
        reply matches Ok(Err(reason)) ==> reason@ == if parts.len() == 4 {
            parts[3]
        } else {
            Tree::Nil
        },
{
}

/// What is no reply is refused: what is no list, what has not three parts or four, what is not of
/// version 1, and what is not of the kind 2, in this order.
pub proof fn what_is_no_reply_is_refused(
    message: Datum,
    reply: Result<Result<Datum, Datum>, RpcError>,
)
    requires
        call_ensures(Rpc::interpret, (message,), reply),
    ensures
        !(message@ is Array) <==> reply == Err::<Result<Datum, Datum>, RpcError>(
            RpcError::NotAnArray,
        ),
        message@ matches Tree::Array(parts) ==> {
            &&& parts.len() != 3 && parts.len() != 4 <==> reply == Err::<
                Result<Datum, Datum>,
                RpcError,
            >(RpcError::WrongLength)
            &&& parts.len() == 3 || parts.len() == 4 ==> {
                &&& parts[0] != Tree::Unsigned(1) <==> reply == Err::<
                    Result<Datum, Datum>,
                    RpcError,
                >(RpcError::WrongVersion)
                &&& parts[0] == Tree::Unsigned(1) && parts[1] != Tree::Unsigned(2)
                    <==> reply == Err::<Result<Datum, Datum>, RpcError>(RpcError::NotAResponse)
            }
        },
{
}

/// What bytes say is what the message in them says.
pub proof fn bytes_say_what_their_message_says(
    bytes: &[u8],
    message: Datum,
    whole: Result<Result<Datum, Datum>, RpcError>,
    part: Result<Result<Datum, Datum>, RpcError>,
)
    requires
        call_ensures(Rpc::reply, (bytes,), whole),
        call_ensures(Rpc::interpret, (message,), part),
        value::read(bytes@) == Some(message@),
    ensures
        part matches Ok(Ok(result)) ==> whole matches Ok(Ok(same)) && same@ == result@,
        part matches Ok(Err(reason)) ==> whole matches Ok(Err(same)) && same@ == reason@,
        part matches Err(error) ==> whole == Err::<Result<Datum, Datum>, RpcError>(error),
{
}

/// A number is one below zero or one that is not, and holds its value.
pub proof fn numbers_hold_their_value(n: i64)
    ensures
        match number(n) {
            Tree::Negative(value) => value == n && n < 0,
            Tree::Unsigned(value) => value == n,
            _ => false,
        },
{
}

/// A list of pairs is read only as a whole, and then as what it holds: a first and a second of
/// each, in their order.
pub proof fn pairs_are_read_as_they_are(items: Seq<Tree>)
    ensures
        sensor_pairs(items) is Ok <==> forall|i: int|
            0 <= i < items.len() ==> (#[trigger] items[i] matches Tree::Array(pair) && pair.len()
                == 2),
        sensor_pairs(items) matches Ok(pairs) ==> {
            &&& pairs.len() == items.len()
            &&& forall|i: int|
                0 <= i < items.len() ==> (#[trigger] items[i] matches Tree::Array(pair) && pair
                    == seq![pairs[i].0, pairs[i].1])
        },
    decreases items.len(),
{
    if items.len() > 0 {
        let before = items.drop_last();
        pairs_are_read_as_they_are(before);
        assert forall|i: int| 0 <= i < before.len() implies #[trigger] items[i] == before[i] by {}
        if sensor_pairs(items) is Ok {
            let pairs = sensor_pairs(items)->Ok_0;
            assert forall|i: int| 0 <= i < items.len() implies (
            #[trigger] items[i] matches Tree::Array(pair) && pair == seq![
                pairs[i].0,
                pairs[i].1,
            ]) by {
                if i < before.len() {
                    assert(items[i] == before[i]);
                    assert(before[i]->Array_0 =~= seq![pairs[i].0, pairs[i].1]);
                } else {
                    assert(items.last()->Array_0 =~= seq![pairs[i].0, pairs[i].1]);
                }
            }
        } else if sensor_pairs(before) is Err {
            let at = choose|i: int|
                0 <= i < before.len() && !(#[trigger] before[i] matches Tree::Array(pair)
                    && pair.len() == 2);
            assert(items[at] == before[at]);
        } else {
            assert(items[items.len() - 1] == items.last());
        }
    }
}

/// Where a list is no list of pairs, the first item that is no pair is what is wrong with it.
pub proof fn the_first_fault_is_named(items: Seq<Tree>, at: int)
    requires
        0 <= at < items.len(),
        forall|i: int|
            0 <= i < at ==> (#[trigger] items[i] matches Tree::Array(pair) && pair.len() == 2),
        !(items[at] matches Tree::Array(pair) && pair.len() == 2),
    ensures
        sensor_pairs(items) == if items[at] is Array {
            Err::<Seq<(Tree, Tree)>, RpcError>(RpcError::WrongLength)
        } else {
            Err(RpcError::NotAnArray)
        },
{
    let before = items.take(at);
    assert forall|i: int| 0 <= i < before.len() implies (#[trigger] before[i] matches Tree::Array(
        pair,
    ) && pair.len() == 2) by {
        assert(items[i] == before[i]);
    }
    pairs_are_read_as_they_are(before);
    assert(items.take(at + 1).drop_last() =~= before);
    sensor_pairs_stop(items, at + 1);
}

/// The sensors are those that the reply lists, and only a list lists any.
pub proof fn sensors_are_those_listed(reply: Tree)
    ensures
        !(reply is Array) ==> sensor_names(reply) == Err::<Seq<(Tree, Tree)>, RpcError>(
            RpcError::NotAnArray,
        ),
        reply matches Tree::Array(items) ==> sensor_names(reply) == sensor_pairs(items),
{
}

/// Time is synchronised every so many milliseconds, by so many samples and at random or not, as
/// given: else every second, by 1000 samples, and not at random. To stop it takes no samples.
pub proof fn timesync_is_as_given(
    period: Option<Period>,
    sample_count: Option<u32>,
    random: Option<bool>,
)
    requires
        period matches Some(period) ==> period.secs * 1000 + period.nanos / 1_000_000 <= u64::MAX,
    ensures
        timesync_params(period, sample_count, random, false) == seq![
            Tree::Unsigned(1000),
            Tree::Unsigned(0),
            Tree::Boolean(false),
        ],
        timesync_params(period, sample_count, random, true).len() == 3,
        match timesync_params(period, sample_count, random, true)[0] {
            Tree::Unsigned(millis) => match period {
                Some(period) => millis == period.secs * 1000 + period.nanos / 1_000_000,
                None => millis == 1000,
            },
            _ => false,
        },
        match timesync_params(period, sample_count, random, true)[1] {
            Tree::Unsigned(samples) => match sample_count {
                Some(count) => samples == count,
                None => samples == 1000,
            },
            _ => false,
        },
        timesync_params(period, sample_count, random, true)[2] == match random {
            Some(random) => Tree::Boolean(random),
            None => Tree::Boolean(false),
        },
{
}

/// A call is one of its method, by the whole name, with its parameters, one for one.
pub proof fn calls_are_of_their_method(request: Request, method: &str, params: Seq<Tree>)
    ensures
        request.calls(method, params) <==> {
            &&& request.method@ == method@
            &&& request.params@.len() == params.len()
            &&& forall|i: int|
                0 <= i < params.len() ==> (#[trigger] request.params@[i])@ == params[i]
        },
{
    if request.method@ == method@ && request.params@.len() == params.len() && (forall|i: int|
        0 <= i < params.len() ==> (#[trigger] request.params@[i])@ == params[i]) {
        assert(value::trees(request.params@) =~= params);
    }
    if request.calls(method, params) {
        assert forall|i: int| 0 <= i < params.len() implies (#[trigger] request.params@[i])@
            == params[i] by {
            assert(value::trees(request.params@)[i] == request.params@[i]@);
        }
    }
}

/// The device knows each method that takes no parameters by its name.
pub proof fn methods_without_parameters(request: Request)
    ensures
        call_ensures(Rpc::is_running, (), request) ==> request.method@
            == "isRunning"@ && request.params@.len() == 0,
        call_ensures(Rpc::mxid, (), request) ==> request.method@
            == "getMxId"@ && request.params@.len() == 0,
        call_ensures(Rpc::connected_cameras, (), request) ==> request.method@
            == "getConnectedCameras"@ && request.params@.len() == 0,
        call_ensures(Rpc::connection_interfaces, (), request) ==> request.method@
            == "getConnectionInterfaces"@ && request.params@.len() == 0,
        call_ensures(Rpc::connected_camera_features, (), request) ==> request.method@
            == "getConnectedCameraFeatures"@ && request.params@.len() == 0,
        call_ensures(Rpc::stereo_pairs, (), request) ==> request.method@
            == "getStereoPairs"@ && request.params@.len() == 0,
        call_ensures(Rpc::camera_sensor_names, (), request) ==> request.method@
            == "getCameraSensorNames"@ && request.params@.len() == 0,
        call_ensures(Rpc::connected_imu, (), request) ==> request.method@
            == "getConnectedIMU"@ && request.params@.len() == 0,
        call_ensures(Rpc::crash_device, (), request) ==> request.method@
            == "crashDevice"@ && request.params@.len() == 0,
        call_ensures(Rpc::imu_firmware_version, (), request) ==> request.method@
            == "getIMUFirmwareVersion"@ && request.params@.len() == 0,
        call_ensures(Rpc::embedded_imu_firmware_version, (), request) ==> request.method@
            == "getEmbeddedIMUFirmwareVersion"@ && request.params@.len() == 0,
        call_ensures(Rpc::ddr_memory_usage, (), request) ==> request.method@
            == "getDdrUsage"@ && request.params@.len() == 0,
        call_ensures(Rpc::cmx_memory_usage, (), request) ==> request.method@
            == "getCmxUsage"@ && request.params@.len() == 0,
        call_ensures(Rpc::leon_css_heap_usage, (), request) ==> request.method@
            == "getLeonCssHeapUsage"@ && request.params@.len() == 0,
        call_ensures(Rpc::leon_mss_heap_usage, (), request) ==> request.method@
            == "getLeonMssHeapUsage"@ && request.params@.len() == 0,
        call_ensures(Rpc::chip_temperature, (), request) ==> request.method@
            == "getChipTemperature"@ && request.params@.len() == 0,
        call_ensures(Rpc::leon_css_cpu_usage, (), request) ==> request.method@
            == "getLeonCssCpuUsage"@ && request.params@.len() == 0,
        call_ensures(Rpc::leon_mss_cpu_usage, (), request) ==> request.method@
            == "getLeonMssCpuUsage"@ && request.params@.len() == 0,
        call_ensures(Rpc::process_memory_usage, (), request) ==> request.method@
            == "getProcessMemoryUsage"@ && request.params@.len() == 0,
        call_ensures(Rpc::usb_speed, (), request) ==> request.method@
            == "getUsbSpeed"@ && request.params@.len() == 0,
        call_ensures(Rpc::is_neural_depth_supported, (), request) ==> request.method@
            == "isNeuralDepthSupported"@ && request.params@.len() == 0,
        call_ensures(Rpc::is_pipeline_running, (), request) ==> request.method@
            == "isPipelineRunning"@ && request.params@.len() == 0,
        call_ensures(Rpc::log_level, (), request) ==> request.method@
            == "getLogLevel"@ && request.params@.len() == 0,
        call_ensures(Rpc::xlink_chunk_size, (), request) ==> request.method@
            == "getXLinkChunkSize"@ && request.params@.len() == 0,
        call_ensures(Rpc::ir_drivers, (), request) ==> request.method@
            == "getIrDrivers"@ && request.params@.len() == 0,
        call_ensures(Rpc::has_crash_dump, (), request) ==> request.method@
            == "hasCrashDump"@ && request.params@.len() == 0,
        call_ensures(Rpc::system_information_logging_rate, (), request) ==> request.method@
            == "getSystemInformationLoggingRate"@ && request.params@.len() == 0,
        call_ensures(Rpc::is_eeprom_available, (), request) ==> request.method@
            == "isEepromAvailable"@ && request.params@.len() == 0,
        call_ensures(Rpc::calibration, (), request) ==> request.method@
            == "getCalibration"@ && request.params@.len() == 0,
        call_ensures(Rpc::calibration2, (), request) ==> request.method@
            == "readFromEeprom"@ && request.params@.len() == 0,
        call_ensures(Rpc::wait_for_device_ready, (), request) ==> request.method@
            == "waitForDeviceReady"@ && request.params@.len() == 0,
        call_ensures(Rpc::build_pipeline, (), request) ==> request.method@
            == "buildPipeline"@ && request.params@.len() == 0,
        call_ensures(Rpc::start_pipeline, (), request) ==> request.method@
            == "startPipeline"@ && request.params@.len() == 0,
{
    assert(value::trees(request.params@).len() == request.params@.len());
}

/// The device knows each method that takes one parameter by its name, and is given that one.
pub proof fn methods_with_one_parameter(
    request: Request,
    flag: bool,
    level: LogLevel,
    node_id: u64,
    rate: Float32,
    schema: Datum,
)
    ensures
        call_ensures(Rpc::enable_crash_dump, (flag,), request) ==> request.method@
            == "enableCrashDump"@ && request.params@.len() == 1 && request.params@[0]@
            == Tree::Boolean(flag),
        call_ensures(Rpc::external_strobe_enable, (flag,), request) ==> request.method@
            == "setExternalStrobeEnable"@ && request.params@.len() == 1 && request.params@[0]@
            == Tree::Boolean(flag),
        call_ensures(Rpc::crash_dump, (flag,), request) ==> request.method@ == "getCrashDump"@
            && request.params@.len() == 1 && request.params@[0]@ == Tree::Boolean(flag),
        call_ensures(Rpc::set_log_level, (level,), request) ==> request.method@ == "setLogLevel"@
            && request.params@.len() == 1 && request.params@[0]@ == Tree::Unsigned(
            level.spec_code() as u64,
        ),
        call_ensures(Rpc::node_log_level, (node_id,), request) ==> request.method@
            == "getNodeLogLevel"@ && request.params@.len() == 1 && request.params@[0]@
            == Tree::Unsigned(node_id),
        call_ensures(Rpc::set_system_information_logging_rate, (rate,), request)
            ==> request.method@ == "setSystemInformationLoggingRate"@ && request.params@.len() == 1
            && request.params@[0]@ == Tree::Single(rate),
        call_ensures(Rpc::set_pipeline_schema, (schema,), request) ==> request.method@
            == "setPipelineSchema"@ && request.params@.len() == 1 && request.params@[0]@
            == schema@,
{
    assert(value::trees(request.params@).len() == request.params@.len());
    if request.params@.len() == 1 {
        assert(value::trees(request.params@)[0] == request.params@[0]@);
    }
}

/// The device knows each method that takes more parameters by its name, and is given those in
/// their order.
pub proof fn methods_with_more_parameters(
    request: Request,
    node_id: i64,
    level: LogLevel,
    intensity: Float32,
    mask: i32,
)
    ensures
        call_ensures(Rpc::set_node_log_level, (node_id, level), request) ==> request.method@
            == "setNodeLogLevel"@ && request.params@.len() == 2 && request.params@[0]@ == number(
            node_id,
        ) && request.params@[1]@ == Tree::Unsigned(level.spec_code() as u64),
        call_ensures(Rpc::set_ir_laser_dot_projector_intensity, (intensity, mask), request)
            ==> request.method@ == "setIrLaserDotProjectorBrightness"@ && request.params@.len()
            == 3 && request.params@[0]@ == Tree::Single(intensity) && request.params@[1]@
            == number(mask as i64) && request.params@[2]@ == Tree::Boolean(true),
        call_ensures(Rpc::set_ir_floodlight_intensity, (intensity, mask), request)
            ==> request.method@ == "setIrFloodLightBrightness"@ && request.params@.len() == 3
            && request.params@[0]@ == Tree::Single(intensity) && request.params@[1]@ == number(
            mask as i64,
        ) && request.params@[2]@ == Tree::Boolean(true),
{
    let trees = value::trees(request.params@);
    assert(trees.len() == request.params@.len());
    assert forall|i: int| 0 <= i < trees.len() implies trees[i] == (
    #[trigger] request.params@[i])@ by {}
}

/// The device is told how to synchronise its time by this method, with what was given.
pub proof fn timesync_is_told(
    period: Option<Period>,
    sample_count: Option<u32>,
    random: Option<bool>,
    enable: bool,
    request: Request,
)
    requires
        call_ensures(Rpc::set_timesync, (period, sample_count, random, enable), request),
    ensures
        request.method@ == "setTimesync"@,
        request.params@.len() == 3,
        !enable ==> request.params@[0]@ == Tree::Unsigned(1000) && request.params@[1]@
            == Tree::Unsigned(0) && request.params@[2]@ == Tree::Boolean(false),
        enable ==> request.params@[1]@ == Tree::Unsigned(
            match sample_count {
                Some(count) => count as u64,
                None => 1000,
            },
        ),
        enable ==> request.params@[2]@ == Tree::Boolean(random == Some(true)),
{
    let trees = value::trees(request.params@);
    assert(trees.len() == request.params@.len());
    assert forall|i: int| 0 <= i < trees.len() implies trees[i] == (
    #[trigger] request.params@[i])@ by {}
}

/// The driver of the infrared lights is three values, of which none is left out or moved. Nothing
/// in a reply tells that there is none.
pub proof fn drivers_are_three_values(
    reply: Datum,
    parts: Seq<Tree>,
    drivers: Result<Option<(Datum, Datum, Datum)>, RpcError>,
)
    requires
        call_ensures(Rpc::parse_ir_drivers, (reply,), drivers),
        reply@ == Tree::Array(parts),
    ensures
        parts.len() == 0 ==> drivers matches Ok(None),
        parts.len() == 3 ==> (drivers matches Ok(Some(found)) && parts == seq![
            found.0@,
            found.1@,
            found.2@,
        ]),
        parts.len() != 0 && parts.len() != 3 ==> drivers matches Err(RpcError::WrongLength),
{
    if parts.len() == 3 {
        let found = drivers->Ok_0->Some_0;
        assert(parts =~= seq![found.0@, found.1@, found.2@]);
    }
}

/// The calibration is the third of three values.
pub proof fn calibration_comes_third(
    reply: Datum,
    first: Tree,
    second: Tree,
    third: Tree,
    calibration: Result<Datum, RpcError>,
)
    requires
        call_ensures(Rpc::parse_calibration, (reply,), calibration),
        reply@ == Tree::Array(seq![first, second, third]),
    ensures
        calibration matches Ok(data) && data@ == third,
{
}

/// A call is written to the stream that the host writes to, as the message of its four parts, and
/// the header tells the length of that.
pub proof fn calls_are_written_to_their_stream(
    rpc: &Rpc,
    request: Request,
    now: WallTime,
    sent: StreamEvent,
)
    requires
        call_ensures(Rpc::call_untyped_at, (rpc, request, now), sent),
    ensures
        sent matches StreamEvent::Write(header, data) && {
            &&& data@ == value::written(
                Tree::Array(
                    seq![
                        Tree::Unsigned(1),
                        Tree::Unsigned(1),
                        Tree::Unsigned(hash(vstd::utf8::encode_utf8(request.method@))),
                        Tree::Array(value::trees(request.params@)),
                    ],
                ),
            )
            &&& header.id == 0
            &&& header.ty == 0
            &&& forall|i: int| 0 <= i < 52 ==> #[trigger] header.name.0@[i] == 0
            &&& header.stream_id == rpc.write.id
            &&& data@.len() <= u32::MAX ==> header.size == data@.len()
            &&& header.flags == 0
            &&& header.nsec == now.nanos
            &&& header.sec_lsb + 0x1_0000_0000 * header.sec_msb == now.secs
        },
{
    messages_by_their_parts(request.method@, value::trees(request.params@));
}

/// Calls go over the stream that they are given.
pub proof fn calls_go_over_their_stream(stream: &ConnectionStream, rpc: Rpc)
    requires
        call_ensures(Rpc::new, (stream,), rpc),
    ensures
        rpc.write == stream.write,
{
}

/// The lists of parameters are seen item by item.
pub proof fn parameters_are_seen_in_order(params: Seq<Datum>, i: int)
    requires
        0 <= i < params.len(),
    ensures
        value::trees(params).len() == params.len(),
        value::trees(params)[i] == params[i]@,
{
}

/// What is no list holds no drivers, no sensors and no calibration.
pub proof fn what_is_no_list_holds_nothing(
    reply: Datum,
    drivers: Result<Option<(Datum, Datum, Datum)>, RpcError>,
    names: Result<Vec<(Datum, Datum)>, RpcError>,
    calibration: Result<Datum, RpcError>,
)
    requires
        call_ensures(Rpc::parse_ir_drivers, (reply,), drivers),
        call_ensures(Rpc::parse_camera_sensor_names, (reply,), names),
        call_ensures(Rpc::parse_calibration, (reply,), calibration),
    ensures
        !(reply@ is Array) <==> drivers matches Err(RpcError::NotAnArray),
        !(reply@ is Array) ==> names matches Err(RpcError::NotAnArray),
        !(reply@ is Array) <==> calibration matches Err(RpcError::NotAnArray),
        calibration matches Err(RpcError::WrongLength) <==> (reply@ matches Tree::Array(parts)
            && parts.len() != 3),
{
}

/// The sensors are read from a reply one for one: the socket and the name of each.
pub proof fn sensors_are_read_one_for_one(
    reply: Datum,
    items: Seq<Tree>,
    names: Result<Vec<(Datum, Datum)>, RpcError>,
)
    requires
        call_ensures(Rpc::parse_camera_sensor_names, (reply,), names),
        reply@ == Tree::Array(items),
        forall|i: int|
            0 <= i < items.len() ==> (#[trigger] items[i] matches Tree::Array(pair) && pair.len()
                == 2),
    ensures
        names matches Ok(names) && {
            &&& names@.len() == items.len()
            &&& forall|i: int|
                0 <= i < items.len() ==> (#[trigger] items[i] matches Tree::Array(pair) && pair
                    == seq![names@[i].0@, names@[i].1@])
        },
{
    pairs_are_read_as_they_are(items);
    let pairs = sensor_pairs(items)->Ok_0;
    let found = names->Ok_0@;
    assert(value::pair_trees(found).len() == found.len());
    assert forall|i: int| 0 <= i < items.len() implies (#[trigger] items[i] matches Tree::Array(
        pair,
    ) && pair == seq![found[i].0@, found[i].1@]) by {
        assert(value::pair_trees(found)[i] == (found[i].0@, found[i].1@));
        assert(items[i]->Array_0 == seq![pairs[i].0, pairs[i].1]);
    }
}

} // verus!
