//! What a device tells of itself.

use vstd::prelude::*;

use crate::float::Float32;

verus! {

/// The socket that a camera is plugged into.
#[derive(Clone, Copy, Debug, PartialEq, Eq, Hash, Structural)]
pub enum CameraBoardSocket {
    Auto,
    A,
    B,
    C,
    D,
    E,
    F,
    G,
    H,
    I,
    J,
}

impl CameraBoardSocket {
    /// The number that stands for it on the wire.
    pub open spec fn spec_code(self) -> i32 {
        match self {
            CameraBoardSocket::Auto => (-1) as i32,
            CameraBoardSocket::A => 0,
            CameraBoardSocket::B => 1,
            CameraBoardSocket::C => 2,
            CameraBoardSocket::D => 3,
            CameraBoardSocket::E => 4,
            CameraBoardSocket::F => 5,
            CameraBoardSocket::G => 6,
            CameraBoardSocket::H => 7,
            CameraBoardSocket::I => 8,
            CameraBoardSocket::J => 9,
        }
    }

    /// The number that stands for it on the wire.
    #[verifier::when_used_as_spec(spec_code)]
    pub fn code(self) -> (code: i32)
        ensures
            code == self.spec_code(),
    {
        match self {
            CameraBoardSocket::Auto => -1,
            CameraBoardSocket::A => 0,
            CameraBoardSocket::B => 1,
            CameraBoardSocket::C => 2,
            CameraBoardSocket::D => 3,
            CameraBoardSocket::E => 4,
            CameraBoardSocket::F => 5,
            CameraBoardSocket::G => 6,
            CameraBoardSocket::H => 7,
            CameraBoardSocket::I => 8,
            CameraBoardSocket::J => 9,
        }
    }

    /// What a number on the wire stands for, if anything.
    pub fn from_code(code: i32) -> (found: Option<Self>)
        ensures
            match found {
                Some(it) => it.spec_code() == code,
                None => forall|it: Self| it.spec_code() != code,
            },
    {
        match code {
            -1 => Some(CameraBoardSocket::Auto),
            0 => Some(CameraBoardSocket::A),
            1 => Some(CameraBoardSocket::B),
            2 => Some(CameraBoardSocket::C),
            3 => Some(CameraBoardSocket::D),
            4 => Some(CameraBoardSocket::E),
            5 => Some(CameraBoardSocket::F),
            6 => Some(CameraBoardSocket::G),
            7 => Some(CameraBoardSocket::H),
            8 => Some(CameraBoardSocket::I),
            9 => Some(CameraBoardSocket::J),
            _ => None,
        }
    }
}

impl Default for CameraBoardSocket {
    fn default() -> (it: Self)
        ensures
            it == CameraBoardSocket::Auto,
    {
        CameraBoardSocket::Auto
    }
}

/// How a device is connected.
#[derive(Clone, Copy, Debug, PartialEq, Eq, Structural)]
pub enum ConnectionInterface {
    Usb,
    Ethernet,
    Wifi,
}

impl ConnectionInterface {
    /// The number that stands for it on the wire.
    pub open spec fn spec_code(self) -> i32 {
        match self {
            ConnectionInterface::Usb => 0,
            ConnectionInterface::Ethernet => 1,
            ConnectionInterface::Wifi => 2,
        }
    }

    /// The number that stands for it on the wire.
    #[verifier::when_used_as_spec(spec_code)]
    pub fn code(self) -> (code: i32)
        ensures
            code == self.spec_code(),
    {
        match self {
            ConnectionInterface::Usb => 0,
            ConnectionInterface::Ethernet => 1,
            ConnectionInterface::Wifi => 2,
        }
    }

    /// What a number on the wire stands for, if anything.
    pub fn from_code(code: i32) -> (found: Option<Self>)
        ensures
            match found {
                Some(it) => it.spec_code() == code,
                None => forall|it: Self| it.spec_code() != code,
            },
    {
        match code {
            0 => Some(ConnectionInterface::Usb),
            1 => Some(ConnectionInterface::Ethernet),
            2 => Some(ConnectionInterface::Wifi),
            _ => None,
        }
    }
}

/// What a connected camera can do.
#[derive(Debug)]
pub struct CameraFeatures {
    pub socket: CameraBoardSocket,
    pub sensor_name: String,
    pub width: i32,
    pub height: i32,
    pub orientation: CameraImageOrientation,
    pub supported_types: Vec<CameraSensorType>,
    pub has_autofocus_ic: bool,
    pub has_autofocus: bool,
    pub name: String,
    pub additional_names: Vec<String>,
    pub configs: Vec<CameraSensorConfig>,
    pub calibration_resolution: Option<CameraSensorConfig>,
}

/// What a sensor captures.
#[derive(Clone, Copy, Debug, PartialEq, Eq, Structural)]
pub enum CameraSensorType {
    Auto,
    Color,
    Mono,
    Tof,
    Thermal,
}

impl CameraSensorType {
    /// The number that stands for it on the wire.
    pub open spec fn spec_code(self) -> i32 {
        match self {
            CameraSensorType::Auto => (-1) as i32,
            CameraSensorType::Color => 0,
            CameraSensorType::Mono => 1,
            CameraSensorType::Tof => 2,
            CameraSensorType::Thermal => 3,
        }
    }

    /// The number that stands for it on the wire.
    #[verifier::when_used_as_spec(spec_code)]
    pub fn code(self) -> (code: i32)
        ensures
            code == self.spec_code(),
    {
        match self {
            CameraSensorType::Auto => -1,
            CameraSensorType::Color => 0,
            CameraSensorType::Mono => 1,
            CameraSensorType::Tof => 2,
            CameraSensorType::Thermal => 3,
        }
    }

    /// What a number on the wire stands for, if anything.
    pub fn from_code(code: i32) -> (found: Option<Self>)
        ensures
            match found {
                Some(it) => it.spec_code() == code,
                None => forall|it: Self| it.spec_code() != code,
            },
    {
        match code {
            -1 => Some(CameraSensorType::Auto),
            0 => Some(CameraSensorType::Color),
            1 => Some(CameraSensorType::Mono),
            2 => Some(CameraSensorType::Tof),
            3 => Some(CameraSensorType::Thermal),
            _ => None,
        }
    }
}

impl Default for CameraSensorType {
    fn default() -> (it: Self)
        ensures
            it == CameraSensorType::Auto,
    {
        CameraSensorType::Auto
    }
}

/// A mode that a sensor can run in.
#[derive(Debug)]
pub struct CameraSensorConfig {
    pub width: i32,
    pub height: i32,
    pub min_fps: Float32,
    pub max_fps: Float32,
    pub fov: Rect,
    pub ty: CameraSensorType,
}

/// A rectangle in an image.
#[derive(Debug)]
pub struct Rect {
    pub x: Float32,
    pub y: Float32,
    pub width: Float32,
    pub height: Float32,
    pub normalized: bool,
    pub has_normalized: bool,
}

/// How the image of a camera is turned.
#[derive(Clone, Copy, Debug, PartialEq, Eq, Structural)]
pub enum CameraImageOrientation {
    Auto,
    Normal,
    HorizontalMirror,
    VerticalFlip,
    Rotate180,
}

impl CameraImageOrientation {
    /// The number that stands for it on the wire.
    pub open spec fn spec_code(self) -> i32 {
        match self {
            CameraImageOrientation::Auto => (-1) as i32,
            CameraImageOrientation::Normal => 0,
            CameraImageOrientation::HorizontalMirror => 1,
            CameraImageOrientation::VerticalFlip => 2,
            CameraImageOrientation::Rotate180 => 3,
        }
    }

    /// The number that stands for it on the wire.
    #[verifier::when_used_as_spec(spec_code)]
    pub fn code(self) -> (code: i32)
        ensures
            code == self.spec_code(),
    {
        match self {
            CameraImageOrientation::Auto => -1,
            CameraImageOrientation::Normal => 0,
            CameraImageOrientation::HorizontalMirror => 1,
            CameraImageOrientation::VerticalFlip => 2,
            CameraImageOrientation::Rotate180 => 3,
        }
    }

    /// What a number on the wire stands for, if anything.
    pub fn from_code(code: i32) -> (found: Option<Self>)
        ensures
            match found {
                Some(it) => it.spec_code() == code,
                None => forall|it: Self| it.spec_code() != code,
            },
    {
        match code {
            -1 => Some(CameraImageOrientation::Auto),
            0 => Some(CameraImageOrientation::Normal),
            1 => Some(CameraImageOrientation::HorizontalMirror),
            2 => Some(CameraImageOrientation::VerticalFlip),
            3 => Some(CameraImageOrientation::Rotate180),
            _ => None,
        }
    }
}

impl Default for CameraImageOrientation {
    fn default() -> (it: Self)
        ensures
            it == CameraImageOrientation::Auto,
    {
        CameraImageOrientation::Auto
    }
}

/// Two cameras that see the same scene.
#[derive(Debug)]
pub struct StereoPair {
    pub left: CameraBoardSocket,
    pub right: CameraBoardSocket,
    pub baseline: Float32,
    pub is_vertical: bool,
}

/// How much of a memory is in use, in bytes.
#[derive(Debug)]
pub struct MemoryInfo {
    pub remaining: i64,
    pub used: i64,
    pub total: i64,
}

/// The temperatures of a chip.
#[derive(Debug)]
pub struct ChipTemperature {
    pub css: Float32,
    pub mss: Float32,
    pub upa: Float32,
    pub dss: Float32,
    pub average: Float32,
}

/// How busy a processor is.
#[derive(Debug)]
pub struct CpuUsage {
    pub average: Float32,
    pub ms_time: i32,
}

/// The speed of a USB connection.
#[derive(Clone, Copy, Debug, PartialEq, Eq, Structural)]
pub enum UsbSpeed {
    Unknown,
    Low,
    Full,
    High,
    Super,
    SuperPlus,
}

impl UsbSpeed {
    /// The number that stands for it on the wire.
    pub open spec fn spec_code(self) -> u32 {
        match self {
            UsbSpeed::Unknown => 0,
            UsbSpeed::Low => 1,
            UsbSpeed::Full => 2,
            UsbSpeed::High => 3,
            UsbSpeed::Super => 4,
            UsbSpeed::SuperPlus => 5,
        }
    }

    /// The number that stands for it on the wire.
    #[verifier::when_used_as_spec(spec_code)]
    pub fn code(self) -> (code: u32)
        ensures
            code == self.spec_code(),
    {
        match self {
            UsbSpeed::Unknown => 0,
            UsbSpeed::Low => 1,
            UsbSpeed::Full => 2,
            UsbSpeed::High => 3,
            UsbSpeed::Super => 4,
            UsbSpeed::SuperPlus => 5,
        }
    }

    /// What a number on the wire stands for, if anything.
    pub fn from_code(code: u32) -> (found: Option<Self>)
        ensures
            match found {
                Some(it) => it.spec_code() == code,
                None => forall|it: Self| it.spec_code() != code,
            },
    {
        match code {
            0 => Some(UsbSpeed::Unknown),
            1 => Some(UsbSpeed::Low),
            2 => Some(UsbSpeed::Full),
            3 => Some(UsbSpeed::High),
            4 => Some(UsbSpeed::Super),
            5 => Some(UsbSpeed::SuperPlus),
            _ => None,
        }
    }
}

/// How much is logged.
#[derive(Clone, Copy, Debug, PartialEq, Eq, Structural)]
pub enum LogLevel {
    Trace,
    Debug,
    Info,
    Warn,
    Error,
    Critical,
    Off,
}

impl LogLevel {
    /// The number that stands for it on the wire.
    pub open spec fn spec_code(self) -> u8 {
        match self {
            LogLevel::Trace => 0,
            LogLevel::Debug => 1,
            LogLevel::Info => 2,
            LogLevel::Warn => 3,
            LogLevel::Error => 4,
            LogLevel::Critical => 5,
            LogLevel::Off => 6,
        }
    }

    /// The number that stands for it on the wire.
    #[verifier::when_used_as_spec(spec_code)]
    pub fn code(self) -> (code: u8)
        ensures
            code == self.spec_code(),
    {
        match self {
            LogLevel::Trace => 0,
            LogLevel::Debug => 1,
            LogLevel::Info => 2,
            LogLevel::Warn => 3,
            LogLevel::Error => 4,
            LogLevel::Critical => 5,
            LogLevel::Off => 6,
        }
    }

    /// What a number on the wire stands for, if anything.
    pub fn from_code(code: u8) -> (found: Option<Self>)
        ensures
            match found {
                Some(it) => it.spec_code() == code,
                None => forall|it: Self| it.spec_code() != code,
            },
    {
        match code {
            0 => Some(LogLevel::Trace),
            1 => Some(LogLevel::Debug),
            2 => Some(LogLevel::Info),
            3 => Some(LogLevel::Warn),
            4 => Some(LogLevel::Error),
            5 => Some(LogLevel::Critical),
            6 => Some(LogLevel::Off),
            _ => None,
        }
    }
}

/// How a lens distorts.
#[derive(Clone, Copy, Debug, PartialEq, Eq, Structural)]
pub enum CameraModel {
    Perspective,
    Fisheye,
    Equirectangular,
    RadialDivision,
}

impl CameraModel {
    /// The number that stands for it on the wire.
    pub open spec fn spec_code(self) -> i8 {
        match self {
            CameraModel::Perspective => 0,
            CameraModel::Fisheye => 1,
            CameraModel::Equirectangular => 2,
            CameraModel::RadialDivision => 3,
        }
    }

    /// The number that stands for it on the wire.
    #[verifier::when_used_as_spec(spec_code)]
    pub fn code(self) -> (code: i8)
        ensures
            code == self.spec_code(),
    {
        match self {
            CameraModel::Perspective => 0,
            CameraModel::Fisheye => 1,
            CameraModel::Equirectangular => 2,
            CameraModel::RadialDivision => 3,
        }
    }

    /// What a number on the wire stands for, if anything.
    pub fn from_code(code: i8) -> (found: Option<Self>)
        ensures
            match found {
                Some(it) => it.spec_code() == code,
                None => forall|it: Self| it.spec_code() != code,
            },
    {
        match code {
            0 => Some(CameraModel::Perspective),
            1 => Some(CameraModel::Fisheye),
            2 => Some(CameraModel::Equirectangular),
            3 => Some(CameraModel::RadialDivision),
            _ => None,
        }
    }
}

/// A processor of the device.
#[derive(Clone, Copy, Debug, PartialEq, Eq, Structural)]
pub enum ProcessorType {
    LeonCss,
    LeonMss,
    Cpu,
    Dsp,
}

impl ProcessorType {
    /// The number that stands for it on the wire.
    pub open spec fn spec_code(self) -> i32 {
        match self {
            ProcessorType::LeonCss => 0,
            ProcessorType::LeonMss => 1,
            ProcessorType::Cpu => 2,
            ProcessorType::Dsp => 3,
        }
    }

    /// The number that stands for it on the wire.
    #[verifier::when_used_as_spec(spec_code)]
    pub fn code(self) -> (code: i32)
        ensures
            code == self.spec_code(),
    {
        match self {
            ProcessorType::LeonCss => 0,
            ProcessorType::LeonMss => 1,
            ProcessorType::Cpu => 2,
            ProcessorType::Dsp => 3,
        }
    }

    /// What a number on the wire stands for, if anything.
    pub fn from_code(code: i32) -> (found: Option<Self>)
        ensures
            match found {
                Some(it) => it.spec_code() == code,
                None => forall|it: Self| it.spec_code() != code,
            },
    {
        match code {
            0 => Some(ProcessorType::LeonCss),
            1 => Some(ProcessorType::LeonMss),
            2 => Some(ProcessorType::Cpu),
            3 => Some(ProcessorType::Dsp),
            _ => None,
        }
    }
}

/// The number that stands for each `CameraBoardSocket`.
pub proof fn camera_board_socket_codes()
    ensures
        CameraBoardSocket::Auto.spec_code() == -1,
        CameraBoardSocket::A.spec_code() == 0,
        CameraBoardSocket::B.spec_code() == 1,
        CameraBoardSocket::C.spec_code() == 2,
        CameraBoardSocket::D.spec_code() == 3,
        CameraBoardSocket::E.spec_code() == 4,
        CameraBoardSocket::F.spec_code() == 5,
        CameraBoardSocket::G.spec_code() == 6,
        CameraBoardSocket::H.spec_code() == 7,
        CameraBoardSocket::I.spec_code() == 8,
        CameraBoardSocket::J.spec_code() == 9,
{
}

/// The number that stands for each `ConnectionInterface`.
pub proof fn connection_interface_codes()
    ensures
        ConnectionInterface::Usb.spec_code() == 0,
        ConnectionInterface::Ethernet.spec_code() == 1,
        ConnectionInterface::Wifi.spec_code() == 2,
{
}

/// The number that stands for each `CameraSensorType`.
pub proof fn camera_sensor_type_codes()
    ensures
        CameraSensorType::Auto.spec_code() == -1,
        CameraSensorType::Color.spec_code() == 0,
        CameraSensorType::Mono.spec_code() == 1,
        CameraSensorType::Tof.spec_code() == 2,
        CameraSensorType::Thermal.spec_code() == 3,
{
}

/// The number that stands for each `CameraImageOrientation`.
pub proof fn camera_image_orientation_codes()
    ensures
        CameraImageOrientation::Auto.spec_code() == -1,
        CameraImageOrientation::Normal.spec_code() == 0,
        CameraImageOrientation::HorizontalMirror.spec_code() == 1,
        CameraImageOrientation::VerticalFlip.spec_code() == 2,
        CameraImageOrientation::Rotate180.spec_code() == 3,
{
}

/// The number that stands for each `UsbSpeed`.
pub proof fn usb_speed_codes()
    ensures
        UsbSpeed::Unknown.spec_code() == 0,
        UsbSpeed::Low.spec_code() == 1,
        UsbSpeed::Full.spec_code() == 2,
        UsbSpeed::High.spec_code() == 3,
        UsbSpeed::Super.spec_code() == 4,
        UsbSpeed::SuperPlus.spec_code() == 5,
{
}

/// The number that stands for each `LogLevel`.
pub proof fn log_level_codes()
    ensures
        LogLevel::Trace.spec_code() == 0,
        LogLevel::Debug.spec_code() == 1,
        LogLevel::Info.spec_code() == 2,
        LogLevel::Warn.spec_code() == 3,
        LogLevel::Error.spec_code() == 4,
        LogLevel::Critical.spec_code() == 5,
        LogLevel::Off.spec_code() == 6,
{
}

/// The number that stands for each `CameraModel`.
pub proof fn camera_model_codes()
    ensures
        CameraModel::Perspective.spec_code() == 0,
        CameraModel::Fisheye.spec_code() == 1,
        CameraModel::Equirectangular.spec_code() == 2,
        CameraModel::RadialDivision.spec_code() == 3,
{
}

/// The number that stands for each `ProcessorType`.
pub proof fn processor_type_codes()
    ensures
        ProcessorType::LeonCss.spec_code() == 0,
        ProcessorType::LeonMss.spec_code() == 1,
        ProcessorType::Cpu.spec_code() == 2,
        ProcessorType::Dsp.spec_code() == 3,
{
}

/// What is chosen unless set.
pub proof fn choices_unless_set(
    camera_board_socket: CameraBoardSocket,
    camera_sensor_type: CameraSensorType,
    orientation: CameraImageOrientation,
)
    ensures
        call_ensures(CameraBoardSocket::default, (), camera_board_socket) ==> camera_board_socket
            == CameraBoardSocket::Auto,
        call_ensures(CameraSensorType::default, (), camera_sensor_type) ==> camera_sensor_type
            == CameraSensorType::Auto,
        call_ensures(CameraImageOrientation::default, (), orientation) ==> orientation
            == CameraImageOrientation::Auto,
{
}

} // verus!
