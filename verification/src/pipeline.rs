//! Pipelines: nodes, their inputs and outputs, and how they are connected.

pub mod build_laws;
pub mod builder;
pub mod camera;
pub mod desc;
pub mod imu;
pub mod laws;
pub mod logger;
pub mod node;
pub mod port_laws;
pub mod queue;
pub mod queue_state;
pub mod stereo;
pub mod stereo_config;
pub mod xlink;

pub use builder::{InternalNodeInfo, NodeConnection, Pipeline};
pub use camera::{
    AntiBandingMode, AutoFocusMode, AutoWhiteBalanceMode, Camera, CameraCapability, CameraFrame,
    CameraInputControl, CameraProperties, CameraSettings, CameraSpecs, Capability, CapabilityRange,
    CaptureIntent, ControlMode, EffectMode, FrameResize, FrameSyncMode, FrameType,
    ImageTransformation, ManualExposureParams, RegionParams, RotatedRect, SceneMode, StrobeConfig,
    StrobeTimings, Vec2,
};
pub use desc::{
    AnyDeserializer, AnySerializer, CompatibleLink, CompatibleSerialization, Deserializer,
    InternalIoInfo, IoDescConf, IoDeserializeable, IoInfo, IoRegister, IoSerializeable,
    MetadataOnly, MsgpackDeserializer, MsgpackSerializer, NotAny, NotAnySerializer,
    ProtobufDeserializer, ProtobufSerializer, RnopDeserializer, RnopSerializer, Serializer,
};
pub use imu::{
    Imu, ImuAccelerometer, ImuAccuracy, ImuData, ImuGyroscope, ImuMagneticField, ImuPacket,
    ImuProperties, ImuRotationVector, ImuSensorConfig, ImuSensorKind, Timestamp,
};
pub use logger::{SystemInfo, SystemLogger, SystemLoggerProperties};
pub use node::{
    Any, Dynamic, DynamicGroup, DynamicStorage, Empty, In, Input, InputRef, Inputs, IoDesc, Node,
    NodeT, Numbered, Out, Output, OutputRef, OutputRefIter, Outputs, StaticIoDesc,
};
pub use queue::{OutputQueue, ReadRaw, Simplify};
pub use stereo::{
    StereoDepth, StereoDepthInputRef, StereoDepthInputs, StereoDepthOutputRef, StereoDepthOutputs,
};
pub use stereo_config::{
    AdaptiveMedianFilter, AlgorithmControl, BrightnessFilter, CensusTransform, ConfidenceMetrics,
    CostAggregation, CostMatching, DecimationFilter, DecimationMode, DepthAlign, DepthUnit,
    DisparityWidth, Filter, HoleFilling, KernelSize, LengthUnit, LinearEquationParameters,
    MedianFilter, P1Config, P2Config, PersistencyMode, PostProcessing, RectificationMesh,
    SpatialFilter, SpeckleFilter, StereoDepthConfig, StereoDepthProperties, TemporalFilter,
    ThresholdFilter,
};
pub use xlink::{XLinkOut, XLinkOutProperties, XLI};
