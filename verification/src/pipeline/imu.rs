//! Inertial sensors.

use vstd::prelude::*;

use super::desc::{MetadataOnly, NotAny, RnopDeserializer, RnopSerializer};
use super::node::{In, Input, Node, Out, Output, StaticIoDesc};
use crate::float::Float32;
use crate::rpc::NodeType;

verus! {

/// Which inertial sensors report, and how.
#[derive(Debug)]
pub struct ImuProperties {
    pub imu_sensors: Vec<ImuSensorConfig>,
    pub batch_report_threshold: i32,
    pub max_batch_reports: i32,
    pub enable_firmware_update: Option<bool>,
}

impl ImuProperties {
    /// Whether everything is as it is unless set.
    pub open spec fn is_default(&self) -> bool {
        &&& self.imu_sensors@.len() == 0
        &&& self.batch_report_threshold == 1
        &&& self.max_batch_reports == 5
        &&& self.enable_firmware_update == Some(false)
    }
}

impl Default for ImuProperties {
    fn default() -> (it: Self)
        ensures
            it.is_default(),
    {
        ImuProperties {
            imu_sensors: Vec::new(),
            batch_report_threshold: 1,
            max_batch_reports: 5,
            enable_firmware_update: Some(false),
        }
    }
}

/// How an inertial sensor reports.
#[derive(Debug)]
pub struct ImuSensorConfig {
    pub sensitivity_enabled: bool,
    pub sensitivity_relative: bool,
    pub change_sensitivity: u16,
    pub report_rate: u32,
    pub sensor_id: ImuSensorKind,
}

impl ImuSensorConfig {
    /// Whether everything is as it is unless set.
    pub open spec fn is_default(&self) -> bool {
        &&& !self.sensitivity_enabled
        &&& !self.sensitivity_relative
        &&& self.change_sensitivity == 0
        &&& self.report_rate == 100
        &&& self.sensor_id == ImuSensorKind::Accelerometer
    }
}

impl Default for ImuSensorConfig {
    fn default() -> (it: Self)
        ensures
            it.is_default(),
    {
        ImuSensorConfig {
            sensitivity_enabled: false,
            sensitivity_relative: false,
            change_sensitivity: 0,
            report_rate: 100,
            sensor_id: ImuSensorKind::Accelerometer,
        }
    }
}

/// What an inertial sensor measures.
#[derive(Clone, Copy, Debug, PartialEq, Eq, Structural)]
pub enum ImuSensorKind {
    /// raw acceleration without preprocessing
    AccelerometerRaw,
    /// acceleration including gravity
    Accelerometer,
    /// acceleration without gravity
    LinearAcceleration,
    Gravity,
    /// raw angular velocity without preprocessing
    GyroscopeRaw,
    /// angular velocity
    GyroscopeCalibrated,
    /// angular velocity without bias compensation
    GyroscopeUncalibrated,
    MagnetometerRaw,
    MagnetometerCalibrated,
    MagnetometerUncalibrated,
    RotationVector,
    GameRotationVector,
    GeomagneticRotationVector,
    ArvrStabilizedRotationVector,
    ArvrStabilizedGameRotationVector,
}

impl ImuSensorKind {
    /// The number that stands for it on the wire.
    pub open spec fn spec_code(self) -> i32 {
        match self {
            ImuSensorKind::AccelerometerRaw => 20,
            ImuSensorKind::Accelerometer => 1,
            ImuSensorKind::LinearAcceleration => 4,
            ImuSensorKind::Gravity => 6,
            ImuSensorKind::GyroscopeRaw => 21,
            ImuSensorKind::GyroscopeCalibrated => 2,
            ImuSensorKind::GyroscopeUncalibrated => 7,
            ImuSensorKind::MagnetometerRaw => 22,
            ImuSensorKind::MagnetometerCalibrated => 3,
            ImuSensorKind::MagnetometerUncalibrated => 15,
            ImuSensorKind::RotationVector => 5,
            ImuSensorKind::GameRotationVector => 8,
            ImuSensorKind::GeomagneticRotationVector => 9,
            ImuSensorKind::ArvrStabilizedRotationVector => 40,
            ImuSensorKind::ArvrStabilizedGameRotationVector => 41,
        }
    }

    /// The number that stands for it on the wire.
    #[verifier::when_used_as_spec(spec_code)]
    pub fn code(self) -> (code: i32)
        ensures
            code == self.spec_code(),
    {
        match self {
            ImuSensorKind::AccelerometerRaw => 20,
            ImuSensorKind::Accelerometer => 1,
            ImuSensorKind::LinearAcceleration => 4,
            ImuSensorKind::Gravity => 6,
            ImuSensorKind::GyroscopeRaw => 21,
            ImuSensorKind::GyroscopeCalibrated => 2,
            ImuSensorKind::GyroscopeUncalibrated => 7,
            ImuSensorKind::MagnetometerRaw => 22,
            ImuSensorKind::MagnetometerCalibrated => 3,
            ImuSensorKind::MagnetometerUncalibrated => 15,
            ImuSensorKind::RotationVector => 5,
            ImuSensorKind::GameRotationVector => 8,
            ImuSensorKind::GeomagneticRotationVector => 9,
            ImuSensorKind::ArvrStabilizedRotationVector => 40,
            ImuSensorKind::ArvrStabilizedGameRotationVector => 41,
        }
    }

    /// What a number on the wire stands for, if anything.
    pub fn from_code(code: i32) -> (found: Option<Self>)
        ensures
            match found {
                Some(it) => it.spec_code() == code,
                None => forall|it: Self| it.spec_code() != code,
            },
    {
        match code {
            20 => Some(ImuSensorKind::AccelerometerRaw),
            1 => Some(ImuSensorKind::Accelerometer),
            4 => Some(ImuSensorKind::LinearAcceleration),
            6 => Some(ImuSensorKind::Gravity),
            21 => Some(ImuSensorKind::GyroscopeRaw),
            2 => Some(ImuSensorKind::GyroscopeCalibrated),
            7 => Some(ImuSensorKind::GyroscopeUncalibrated),
            22 => Some(ImuSensorKind::MagnetometerRaw),
            3 => Some(ImuSensorKind::MagnetometerCalibrated),
            15 => Some(ImuSensorKind::MagnetometerUncalibrated),
            5 => Some(ImuSensorKind::RotationVector),
            8 => Some(ImuSensorKind::GameRotationVector),
            9 => Some(ImuSensorKind::GeomagneticRotationVector),
            40 => Some(ImuSensorKind::ArvrStabilizedRotationVector),
            41 => Some(ImuSensorKind::ArvrStabilizedGameRotationVector),
            _ => None,
        }
    }
}

/// What the inertial sensors measured.
#[derive(Debug)]
pub struct ImuData {
    pub timestamp: Timestamp,
    pub device_timestamp: Timestamp,
    pub sequence: i32,
    pub packets: Vec<ImuPacket>,
}

/// What each inertial sensor measured at a time.
#[derive(Debug)]
pub struct ImuPacket {
    pub accelerometer: ImuAccelerometer,
    pub gyroscope: ImuGyroscope,
    pub magnetic_field: ImuMagneticField,
    pub rotation_vector: ImuRotationVector,
}

/// A measured acceleration.
#[derive(Debug)]
pub struct ImuAccelerometer {
    pub x: Float32,
    pub y: Float32,
    pub z: Float32,
    pub sequence: i32,
    pub accuracy: ImuAccuracy,
    pub timestamp: Timestamp,
    pub device_timestamp: Timestamp,
}

/// A measured angular velocity.
#[derive(Debug)]
pub struct ImuGyroscope {
    pub x: Float32,
    pub y: Float32,
    pub z: Float32,
    pub sequence: i32,
    pub accuracy: ImuAccuracy,
    pub timestamp: Timestamp,
    pub device_timestamp: Timestamp,
}

/// A measured magnetic field.
#[derive(Debug)]
pub struct ImuMagneticField {
    pub x: Float32,
    pub y: Float32,
    pub z: Float32,
    pub sequence: i32,
    pub accuracy: ImuAccuracy,
    pub timestamp: Timestamp,
    pub device_timestamp: Timestamp,
}

/// A measured rotation.
#[derive(Debug)]
pub struct ImuRotationVector {
    pub i: Float32,
    pub j: Float32,
    pub k: Float32,
    pub real: Float32,
    pub rvec_accuracy: Float32,
    pub sequence: i32,
    pub accuracy: ImuAccuracy,
    pub timestamp: Timestamp,
    pub device_timestamp: Timestamp,
}

/// How far a measurement can be relied on.
#[derive(Clone, Copy, Debug, PartialEq, Eq, Structural)]
pub enum ImuAccuracy {
    Unreliable,
    Low,
    Medium,
    High,
}

impl ImuAccuracy {
    /// The number that stands for it on the wire.
    pub open spec fn spec_code(self) -> u8 {
        match self {
            ImuAccuracy::Unreliable => 0,
            ImuAccuracy::Low => 1,
            ImuAccuracy::Medium => 2,
            ImuAccuracy::High => 3,
        }
    }

    /// The number that stands for it on the wire.
    #[verifier::when_used_as_spec(spec_code)]
    pub fn code(self) -> (code: u8)
        ensures
            code == self.spec_code(),
    {
        match self {
            ImuAccuracy::Unreliable => 0,
            ImuAccuracy::Low => 1,
            ImuAccuracy::Medium => 2,
            ImuAccuracy::High => 3,
        }
    }

    /// What a number on the wire stands for, if anything.
    pub fn from_code(code: u8) -> (found: Option<Self>)
        ensures
            match found {
                Some(it) => it.spec_code() == code,
                None => forall|it: Self| it.spec_code() != code,
            },
    {
        match code {
            0 => Some(ImuAccuracy::Unreliable),
            1 => Some(ImuAccuracy::Low),
            2 => Some(ImuAccuracy::Medium),
            3 => Some(ImuAccuracy::High),
            _ => None,
        }
    }
}

/// When a message was made.
#[derive(Debug, PartialEq)]
pub struct Timestamp {
    pub sec: i64,
    pub nsec: i64,
}

impl ImuProperties {
    /// Has `sensor` report `rate` times a second.
    pub fn enable_sensor(&mut self, sensor: ImuSensorKind, rate: u32)
        ensures
            final(self).imu_sensors@ == old(self).imu_sensors@.push(
                ImuSensorConfig {
                    sensitivity_enabled: false,
                    sensitivity_relative: false,
                    change_sensitivity: 0,
                    report_rate: rate,
                    sensor_id: sensor,
                },
            ),
            final(self).batch_report_threshold == old(self).batch_report_threshold,
            final(self).max_batch_reports == old(self).max_batch_reports,
            final(self).enable_firmware_update == old(self).enable_firmware_update,
    {
        let mut config = ImuSensorConfig::default();
        config.sensor_id = sensor;
        config.report_rate = rate;
        self.imu_sensors.push(config);
    }
}

impl NotAny for ImuData {}

impl MetadataOnly for ImuData {}

impl StaticIoDesc for In<ImuData> {
    open spec fn spec_static_name() -> Seq<char> {
        "mockIn"@
    }

    open spec fn spec_static_type() -> NodeType {
        NodeType::SReceiver
    }

    fn static_name() -> (name: &'static str) {
        "mockIn"
    }

    fn static_type() -> (ty: NodeType) {
        NodeType::SReceiver
    }
}

impl StaticIoDesc for Out<ImuData> {
    open spec fn spec_static_name() -> Seq<char> {
        "out"@
    }

    open spec fn spec_static_type() -> NodeType {
        NodeType::MSender
    }

    fn static_name() -> (name: &'static str) {
        "out"
    }

    fn static_type() -> (ty: NodeType) {
        NodeType::MSender
    }
}

/// The node that reads the inertial sensors.
pub struct Imu;

impl Node for Imu {
    type Input = Input<In<ImuData>, RnopSerializer>;

    type Output = Output<Out<ImuData>, RnopDeserializer>;

    type Properties = ImuProperties;

    open spec fn spec_name() -> Seq<char> {
        "IMU"@
    }

    open spec fn spec_alias() -> Option<Seq<char>> {
        None
    }

    fn name() -> (name: &'static str) {
        "IMU"
    }

    fn alias() -> (alias: Option<&'static str>) {
        None
    }
}

/// The number that stands for each `ImuSensorKind`.
pub proof fn imu_sensor_kind_codes()
    ensures
        ImuSensorKind::AccelerometerRaw.spec_code() == 20,
        ImuSensorKind::Accelerometer.spec_code() == 1,
        ImuSensorKind::LinearAcceleration.spec_code() == 4,
        ImuSensorKind::Gravity.spec_code() == 6,
        ImuSensorKind::GyroscopeRaw.spec_code() == 21,
        ImuSensorKind::GyroscopeCalibrated.spec_code() == 2,
        ImuSensorKind::GyroscopeUncalibrated.spec_code() == 7,
        ImuSensorKind::MagnetometerRaw.spec_code() == 22,
        ImuSensorKind::MagnetometerCalibrated.spec_code() == 3,
        ImuSensorKind::MagnetometerUncalibrated.spec_code() == 15,
        ImuSensorKind::RotationVector.spec_code() == 5,
        ImuSensorKind::GameRotationVector.spec_code() == 8,
        ImuSensorKind::GeomagneticRotationVector.spec_code() == 9,
        ImuSensorKind::ArvrStabilizedRotationVector.spec_code() == 40,
        ImuSensorKind::ArvrStabilizedGameRotationVector.spec_code() == 41,
{
}

/// The number that stands for each `ImuAccuracy`.
pub proof fn imu_accuracy_codes()
    ensures
        ImuAccuracy::Unreliable.spec_code() == 0,
        ImuAccuracy::Low.spec_code() == 1,
        ImuAccuracy::Medium.spec_code() == 2,
        ImuAccuracy::High.spec_code() == 3,
{
}

/// What is in a default `ImuProperties`, field by field.
pub proof fn imu_properties_defaults(it: ImuProperties)
    requires
        call_ensures(ImuProperties::default, (), it),
    ensures
        it.imu_sensors@.len() == 0,
        it.batch_report_threshold == 1,
        it.max_batch_reports == 5,
        it.enable_firmware_update == Some(false),
{
}

/// What is in a default `ImuSensorConfig`, field by field.
pub proof fn imu_sensor_config_defaults(it: ImuSensorConfig)
    requires
        call_ensures(ImuSensorConfig::default, (), it),
    ensures
        !it.sensitivity_enabled,
        !it.sensitivity_relative,
        it.change_sensitivity == 0,
        it.report_rate == 100,
        it.sensor_id == ImuSensorKind::Accelerometer,
{
}

} // verus!
