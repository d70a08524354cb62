//! Calls to a device.

pub mod call;
pub mod crash;
pub mod eeprom;
pub mod schema;
pub mod types;
pub mod value;

pub use call::{Request, Rpc, RpcError};
pub use crash::{
    AssertContext, CallstackContext, CrashDump, CrashReport, ErrorSourceInfo, ThreadCallstack,
    TrapContext,
};
pub use eeprom::{CameraInfo, EepromData, Extrinsics, Point3f, StereoRectification};
pub use schema::{
    GlobalProperties, NodeConnectionSchema, NodeIoInfo, NodeObjInfo, NodeType, PipelineSchema,
};
pub use types::{
    CameraBoardSocket, CameraFeatures, CameraImageOrientation, CameraModel, CameraSensorConfig,
    CameraSensorType, ChipTemperature, ConnectionInterface, CpuUsage, LogLevel, MemoryInfo,
    ProcessorType, Rect, StereoPair, UsbSpeed,
};
pub use value::Datum;
