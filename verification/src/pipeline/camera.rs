//! Cameras.

use core::marker::PhantomData;

use vstd::prelude::*;

use super::desc::{
    Deserializer, IoDescConf, IoDeserializeable, IoSerializeable, MetadataOnly, NotAny,
    RnopDeserializer, RnopSerializer, Serializer,
};
use super::imu::Timestamp;
use super::node::{
    Dynamic, DynamicGroup, DynamicStorage, In, Input, Node, NodeT, Out, Output, OutputRef,
    OutputRefIter, StaticIoDesc,
};
use crate::float::Float32;
use crate::rpc::{
    CameraBoardSocket, CameraImageOrientation, CameraModel, CameraSensorType, NodeType,
};
use crate::text;

verus! {

/// The controls of a camera.
#[derive(Debug, PartialEq)]
pub struct CameraInputControl {
    pub cmd_mask: u64,
    pub auto_focus_mode: AutoFocusMode,
    pub lens_position: u8,
    pub lens_position_raw: Float32,
    pub lens_pos_auto_infinity: u8,
    pub lens_pos_auto_macro: u8,
    pub exp_manual: ManualExposureParams,
    pub ae_region: RegionParams,
    pub af_region: RegionParams,
    pub awb_mode: AutoWhiteBalanceMode,
    pub scene_mode: SceneMode,
    pub anti_banding_mode: AntiBandingMode,
    pub ae_lock_mode: bool,
    pub awb_lock_mode: bool,
    pub capture_intent: CaptureIntent,
    pub control_mode: ControlMode,
    pub effect_mode: EffectMode,
    pub frame_sync_mode: FrameSyncMode,
    pub strobe_config: StrobeConfig,
    pub strobe_timings: StrobeTimings,
    pub ae_max_exposure_time_us: u32,
    pub exp_compensation: i8,
    pub brightness: i8,
    pub contrast: i8,
    pub saturation: i8,
    pub sharpness: u8,
    pub luma_denoise: u8,
    pub chroma_denoise: u8,
    pub wb_color_temp: u16,
    pub low_power_frame_burst: u8,
    pub low_power_frame_discard: u8,
    pub enable_hdr: bool,
    pub misc_controls: Vec<(String, String)>,
}

impl CameraInputControl {
    /// Whether everything is as it is unless set.
    pub open spec fn is_default(&self) -> bool {
        &&& self.cmd_mask == 0
        &&& self.auto_focus_mode == AutoFocusMode::ContinuousVideo
        &&& self.lens_position == 0
        &&& self.lens_position_raw.bits == 0
        &&& self.lens_pos_auto_infinity == 0
        &&& self.lens_pos_auto_macro == 0
        &&& self.exp_manual.is_default()
        &&& self.ae_region.is_default()
        &&& self.af_region.is_default()
        &&& self.awb_mode == AutoWhiteBalanceMode::Off
        &&& self.scene_mode == SceneMode::Unsupported
        &&& self.anti_banding_mode == AntiBandingMode::Off
        &&& !self.ae_lock_mode
        &&& !self.awb_lock_mode
        &&& self.capture_intent == CaptureIntent::Custom
        &&& self.control_mode == ControlMode::Off
        &&& self.effect_mode == EffectMode::Off
        &&& self.frame_sync_mode == FrameSyncMode::Off
        &&& self.strobe_config.is_default()
        &&& self.strobe_timings.is_default()
        &&& self.ae_max_exposure_time_us == 0
        &&& self.exp_compensation == 0
        &&& self.brightness == 0
        &&& self.contrast == 0
        &&& self.saturation == 0
        &&& self.sharpness == 0
        &&& self.luma_denoise == 0
        &&& self.chroma_denoise == 0
        &&& self.wb_color_temp == 0
        &&& self.low_power_frame_burst == 0
        &&& self.low_power_frame_discard == 0
        &&& !self.enable_hdr
        &&& self.misc_controls@.len() == 0
    }
}

impl Default for CameraInputControl {
    fn default() -> (it: Self)
        ensures
            it.is_default(),
    {
        CameraInputControl {
            cmd_mask: 0,
            auto_focus_mode: AutoFocusMode::ContinuousVideo,
            lens_position: 0,
            lens_position_raw: Float32 { bits: 0 },
            lens_pos_auto_infinity: 0,
            lens_pos_auto_macro: 0,
            exp_manual: ManualExposureParams::default(),
            ae_region: RegionParams::default(),
            af_region: RegionParams::default(),
            awb_mode: AutoWhiteBalanceMode::Off,
            scene_mode: SceneMode::Unsupported,
            anti_banding_mode: AntiBandingMode::Off,
            ae_lock_mode: false,
            awb_lock_mode: false,
            capture_intent: CaptureIntent::Custom,
            control_mode: ControlMode::Off,
            effect_mode: EffectMode::Off,
            frame_sync_mode: FrameSyncMode::Off,
            strobe_config: StrobeConfig::default(),
            strobe_timings: StrobeTimings::default(),
            ae_max_exposure_time_us: 0,
            exp_compensation: 0,
            brightness: 0,
            contrast: 0,
            saturation: 0,
            sharpness: 0,
            luma_denoise: 0,
            chroma_denoise: 0,
            wb_color_temp: 0,
            low_power_frame_burst: 0,
            low_power_frame_discard: 0,
            enable_hdr: false,
            misc_controls: Vec::new(),
        }
    }
}

/// How a camera focuses.
#[derive(Clone, Copy, Debug, PartialEq, Eq, Structural)]
pub enum AutoFocusMode {
    Off,
    Auto,
    Macro,
    ContinuousVideo,
    ContinuousPicture,
    Edof,
}

impl AutoFocusMode {
    /// The number that stands for it on the wire.
    pub open spec fn spec_code(self) -> u8 {
        match self {
            AutoFocusMode::Off => 0,
            AutoFocusMode::Auto => 1,
            AutoFocusMode::Macro => 2,
            AutoFocusMode::ContinuousVideo => 3,
            AutoFocusMode::ContinuousPicture => 4,
            AutoFocusMode::Edof => 5,
        }
    }

    /// The number that stands for it on the wire.
    #[verifier::when_used_as_spec(spec_code)]
    pub fn code(self) -> (code: u8)
        ensures
            code == self.spec_code(),
    {
        match self {
            AutoFocusMode::Off => 0,
            AutoFocusMode::Auto => 1,
            AutoFocusMode::Macro => 2,
            AutoFocusMode::ContinuousVideo => 3,
            AutoFocusMode::ContinuousPicture => 4,
            AutoFocusMode::Edof => 5,
        }
    }

    /// What a number on the wire stands for, if anything.
    pub fn from_code(code: u8) -> (found: Option<Self>)
        ensures
            match found {
                Some(it) => it.spec_code() == code,
                None => forall|it: Self| it.spec_code() != code,
            },
    {
        match code {
            0 => Some(AutoFocusMode::Off),
            1 => Some(AutoFocusMode::Auto),
            2 => Some(AutoFocusMode::Macro),
            3 => Some(AutoFocusMode::ContinuousVideo),
            4 => Some(AutoFocusMode::ContinuousPicture),
            5 => Some(AutoFocusMode::Edof),
            _ => None,
        }
    }
}

impl Default for AutoFocusMode {
    fn default() -> (it: Self)
        ensures
            it == AutoFocusMode::ContinuousVideo,
    {
        AutoFocusMode::ContinuousVideo
    }
}

/// An exposure that is set by hand.
#[derive(Debug, PartialEq)]
pub struct ManualExposureParams {
    pub exposure_time_us: u32,
    pub sensitivity_iso: u32,
    pub frame_duration_us: u32,
}

impl ManualExposureParams {
    /// Whether everything is as it is unless set.
    pub open spec fn is_default(&self) -> bool {
        &&& self.exposure_time_us == 0
        &&& self.sensitivity_iso == 0
        &&& self.frame_duration_us == 0
    }
}

impl Default for ManualExposureParams {
    fn default() -> (it: Self)
        ensures
            it.is_default(),
    {
        ManualExposureParams {
            exposure_time_us: 0,
            sensitivity_iso: 0,
            frame_duration_us: 0,
        }
    }
}

/// A region of an image, and how much it matters.
#[derive(Debug, PartialEq)]
pub struct RegionParams {
    pub x: u16,
    pub y: u16,
    pub width: u16,
    pub height: u16,
    pub priority: u16,
}

impl RegionParams {
    /// Whether everything is as it is unless set.
    pub open spec fn is_default(&self) -> bool {
        &&& self.x == 0
        &&& self.y == 0
        &&& self.width == 0
        &&& self.height == 0
        &&& self.priority == 0
    }
}

impl Default for RegionParams {
    fn default() -> (it: Self)
        ensures
            it.is_default(),
    {
        RegionParams {
            x: 0,
            y: 0,
            width: 0,
            height: 0,
            priority: 0,
        }
    }
}

/// The light that white is balanced for.
#[derive(Clone, Copy, Debug, PartialEq, Eq, Structural)]
pub enum AutoWhiteBalanceMode {
    Off,
    Auto,
    Incandescent,
    Flourescent,
    WarmFlourescent,
    Daylight,
    CloudyDaylight,
    Twilight,
    Shade,
}

impl AutoWhiteBalanceMode {
    /// The number that stands for it on the wire.
    pub open spec fn spec_code(self) -> u8 {
        match self {
            AutoWhiteBalanceMode::Off => 0,
            AutoWhiteBalanceMode::Auto => 1,
            AutoWhiteBalanceMode::Incandescent => 2,
            AutoWhiteBalanceMode::Flourescent => 3,
            AutoWhiteBalanceMode::WarmFlourescent => 4,
            AutoWhiteBalanceMode::Daylight => 5,
            AutoWhiteBalanceMode::CloudyDaylight => 6,
            AutoWhiteBalanceMode::Twilight => 7,
            AutoWhiteBalanceMode::Shade => 8,
        }
    }

    /// The number that stands for it on the wire.
    #[verifier::when_used_as_spec(spec_code)]
    pub fn code(self) -> (code: u8)
        ensures
            code == self.spec_code(),
    {
        match self {
            AutoWhiteBalanceMode::Off => 0,
            AutoWhiteBalanceMode::Auto => 1,
            AutoWhiteBalanceMode::Incandescent => 2,
            AutoWhiteBalanceMode::Flourescent => 3,
            AutoWhiteBalanceMode::WarmFlourescent => 4,
            AutoWhiteBalanceMode::Daylight => 5,
            AutoWhiteBalanceMode::CloudyDaylight => 6,
            AutoWhiteBalanceMode::Twilight => 7,
            AutoWhiteBalanceMode::Shade => 8,
        }
    }

    /// What a number on the wire stands for, if anything.
    pub fn from_code(code: u8) -> (found: Option<Self>)
        ensures
            match found {
                Some(it) => it.spec_code() == code,
                None => forall|it: Self| it.spec_code() != code,
            },
    {
        match code {
            0 => Some(AutoWhiteBalanceMode::Off),
            1 => Some(AutoWhiteBalanceMode::Auto),
            2 => Some(AutoWhiteBalanceMode::Incandescent),
            3 => Some(AutoWhiteBalanceMode::Flourescent),
            4 => Some(AutoWhiteBalanceMode::WarmFlourescent),
            5 => Some(AutoWhiteBalanceMode::Daylight),
            6 => Some(AutoWhiteBalanceMode::CloudyDaylight),
            7 => Some(AutoWhiteBalanceMode::Twilight),
            8 => Some(AutoWhiteBalanceMode::Shade),
            _ => None,
        }
    }
}

impl Default for AutoWhiteBalanceMode {
    fn default() -> (it: Self)
        ensures
            it == AutoWhiteBalanceMode::Off,
    {
        AutoWhiteBalanceMode::Off
    }
}

/// The kind of scene that a camera looks at.
#[derive(Clone, Copy, Debug, PartialEq, Eq, Structural)]
pub enum SceneMode {
    Unsupported,
    FacePriority,
    Action,
    Portrait,
    Landscape,
    Night,
    NightPortrait,
    Theatre,
    Beach,
    Snow,
    Sunset,
    SteadyPhoto,
    Fireworks,
    Sports,
    Party,
    Candlelight,
    Barcode,
}

impl SceneMode {
    /// The number that stands for it on the wire.
    pub open spec fn spec_code(self) -> u8 {
        match self {
            SceneMode::Unsupported => 0,
            SceneMode::FacePriority => 1,
            SceneMode::Action => 2,
            SceneMode::Portrait => 3,
            SceneMode::Landscape => 4,
            SceneMode::Night => 5,
            SceneMode::NightPortrait => 6,
            SceneMode::Theatre => 7,
            SceneMode::Beach => 8,
            SceneMode::Snow => 9,
            SceneMode::Sunset => 10,
            SceneMode::SteadyPhoto => 11,
            SceneMode::Fireworks => 12,
            SceneMode::Sports => 13,
            SceneMode::Party => 14,
            SceneMode::Candlelight => 15,
            SceneMode::Barcode => 16,
        }
    }

    /// The number that stands for it on the wire.
    #[verifier::when_used_as_spec(spec_code)]
    pub fn code(self) -> (code: u8)
        ensures
            code == self.spec_code(),
    {
        match self {
            SceneMode::Unsupported => 0,
            SceneMode::FacePriority => 1,
            SceneMode::Action => 2,
            SceneMode::Portrait => 3,
            SceneMode::Landscape => 4,
            SceneMode::Night => 5,
            SceneMode::NightPortrait => 6,
            SceneMode::Theatre => 7,
            SceneMode::Beach => 8,
            SceneMode::Snow => 9,
            SceneMode::Sunset => 10,
            SceneMode::SteadyPhoto => 11,
            SceneMode::Fireworks => 12,
            SceneMode::Sports => 13,
            SceneMode::Party => 14,
            SceneMode::Candlelight => 15,
            SceneMode::Barcode => 16,
        }
    }

    /// What a number on the wire stands for, if anything.
    pub fn from_code(code: u8) -> (found: Option<Self>)
        ensures
            match found {
                Some(it) => it.spec_code() == code,
                None => forall|it: Self| it.spec_code() != code,
            },
    {
        match code {
            0 => Some(SceneMode::Unsupported),
            1 => Some(SceneMode::FacePriority),
            2 => Some(SceneMode::Action),
            3 => Some(SceneMode::Portrait),
            4 => Some(SceneMode::Landscape),
            5 => Some(SceneMode::Night),
            6 => Some(SceneMode::NightPortrait),
            7 => Some(SceneMode::Theatre),
            8 => Some(SceneMode::Beach),
            9 => Some(SceneMode::Snow),
            10 => Some(SceneMode::Sunset),
            11 => Some(SceneMode::SteadyPhoto),
            12 => Some(SceneMode::Fireworks),
            13 => Some(SceneMode::Sports),
            14 => Some(SceneMode::Party),
            15 => Some(SceneMode::Candlelight),
            16 => Some(SceneMode::Barcode),
            _ => None,
        }
    }
}

impl Default for SceneMode {
    fn default() -> (it: Self)
        ensures
            it == SceneMode::Unsupported,
    {
        SceneMode::Unsupported
    }
}

/// The flicker that is kept out of images.
#[derive(Clone, Copy, Debug, PartialEq, Eq, Structural)]
pub enum AntiBandingMode {
    Off,
    Mains50Hz,
    Mains60Hz,
    Auto,
}

impl AntiBandingMode {
    /// The number that stands for it on the wire.
    pub open spec fn spec_code(self) -> u8 {
        match self {
            AntiBandingMode::Off => 0,
            AntiBandingMode::Mains50Hz => 1,
            AntiBandingMode::Mains60Hz => 2,
            AntiBandingMode::Auto => 3,
        }
    }

    /// The number that stands for it on the wire.
    #[verifier::when_used_as_spec(spec_code)]
    pub fn code(self) -> (code: u8)
        ensures
            code == self.spec_code(),
    {
        match self {
            AntiBandingMode::Off => 0,
            AntiBandingMode::Mains50Hz => 1,
            AntiBandingMode::Mains60Hz => 2,
            AntiBandingMode::Auto => 3,
        }
    }

    /// What a number on the wire stands for, if anything.
    pub fn from_code(code: u8) -> (found: Option<Self>)
        ensures
            match found {
                Some(it) => it.spec_code() == code,
                None => forall|it: Self| it.spec_code() != code,
            },
    {
        match code {
            0 => Some(AntiBandingMode::Off),
            1 => Some(AntiBandingMode::Mains50Hz),
            2 => Some(AntiBandingMode::Mains60Hz),
            3 => Some(AntiBandingMode::Auto),
            _ => None,
        }
    }
}

impl Default for AntiBandingMode {
    fn default() -> (it: Self)
        ensures
            it == AntiBandingMode::Off,
    {
        AntiBandingMode::Off
    }
}

/// What images are taken for.
#[derive(Clone, Copy, Debug, PartialEq, Eq, Structural)]
pub enum CaptureIntent {
    Custom,
    Preview,
    StillCapture,
    VideoRecord,
    VideoSnapshot,
    ZeroShutterLag,
}

impl CaptureIntent {
    /// The number that stands for it on the wire.
    pub open spec fn spec_code(self) -> u8 {
        match self {
            CaptureIntent::Custom => 0,
            CaptureIntent::Preview => 1,
            CaptureIntent::StillCapture => 2,
            CaptureIntent::VideoRecord => 3,
            CaptureIntent::VideoSnapshot => 4,
            CaptureIntent::ZeroShutterLag => 5,
        }
    }

    /// The number that stands for it on the wire.
    #[verifier::when_used_as_spec(spec_code)]
    pub fn code(self) -> (code: u8)
        ensures
            code == self.spec_code(),
    {
        match self {
            CaptureIntent::Custom => 0,
            CaptureIntent::Preview => 1,
            CaptureIntent::StillCapture => 2,
            CaptureIntent::VideoRecord => 3,
            CaptureIntent::VideoSnapshot => 4,
            CaptureIntent::ZeroShutterLag => 5,
        }
    }

    /// What a number on the wire stands for, if anything.
    pub fn from_code(code: u8) -> (found: Option<Self>)
        ensures
            match found {
                Some(it) => it.spec_code() == code,
                None => forall|it: Self| it.spec_code() != code,
            },
    {
        match code {
            0 => Some(CaptureIntent::Custom),
            1 => Some(CaptureIntent::Preview),
            2 => Some(CaptureIntent::StillCapture),
            3 => Some(CaptureIntent::VideoRecord),
            4 => Some(CaptureIntent::VideoSnapshot),
            5 => Some(CaptureIntent::ZeroShutterLag),
            _ => None,
        }
    }
}

impl Default for CaptureIntent {
    fn default() -> (it: Self)
        ensures
            it == CaptureIntent::Custom,
    {
        CaptureIntent::Custom
    }
}

/// What decides about the controls.
#[derive(Clone, Copy, Debug, PartialEq, Eq, Structural)]
pub enum ControlMode {
    Off,
    Auto,
    UseSceneMode,
}

impl ControlMode {
    /// The number that stands for it on the wire.
    pub open spec fn spec_code(self) -> u8 {
        match self {
            ControlMode::Off => 0,
            ControlMode::Auto => 1,
            ControlMode::UseSceneMode => 2,
        }
    }

    /// The number that stands for it on the wire.
    #[verifier::when_used_as_spec(spec_code)]
    pub fn code(self) -> (code: u8)
        ensures
            code == self.spec_code(),
    {
        match self {
            ControlMode::Off => 0,
            ControlMode::Auto => 1,
            ControlMode::UseSceneMode => 2,
        }
    }

    /// What a number on the wire stands for, if anything.
    pub fn from_code(code: u8) -> (found: Option<Self>)
        ensures
            match found {
                Some(it) => it.spec_code() == code,
                None => forall|it: Self| it.spec_code() != code,
            },
    {
        match code {
            0 => Some(ControlMode::Off),
            1 => Some(ControlMode::Auto),
            2 => Some(ControlMode::UseSceneMode),
            _ => None,
        }
    }
}

impl Default for ControlMode {
    fn default() -> (it: Self)
        ensures
            it == ControlMode::Off,
    {
        ControlMode::Off
    }
}

/// An effect that is put on images.
#[derive(Clone, Copy, Debug, PartialEq, Eq, Structural)]
pub enum EffectMode {
    Off,
    Mono,
    Negative,
    Solarize,
    Sepia,
    Posterize,
    Whiteboard,
    Blackboard,
    Aqua,
}

impl EffectMode {
    /// The number that stands for it on the wire.
    pub open spec fn spec_code(self) -> u8 {
        match self {
            EffectMode::Off => 0,
            EffectMode::Mono => 1,
            EffectMode::Negative => 2,
            EffectMode::Solarize => 3,
            EffectMode::Sepia => 4,
            EffectMode::Posterize => 5,
            EffectMode::Whiteboard => 6,
            EffectMode::Blackboard => 7,
            EffectMode::Aqua => 8,
        }
    }

    /// The number that stands for it on the wire.
    #[verifier::when_used_as_spec(spec_code)]
    pub fn code(self) -> (code: u8)
        ensures
            code == self.spec_code(),
    {
        match self {
            EffectMode::Off => 0,
            EffectMode::Mono => 1,
            EffectMode::Negative => 2,
            EffectMode::Solarize => 3,
            EffectMode::Sepia => 4,
            EffectMode::Posterize => 5,
            EffectMode::Whiteboard => 6,
            EffectMode::Blackboard => 7,
            EffectMode::Aqua => 8,
        }
    }

    /// What a number on the wire stands for, if anything.
    pub fn from_code(code: u8) -> (found: Option<Self>)
        ensures
            match found {
                Some(it) => it.spec_code() == code,
                None => forall|it: Self| it.spec_code() != code,
            },
    {
        match code {
            0 => Some(EffectMode::Off),
            1 => Some(EffectMode::Mono),
            2 => Some(EffectMode::Negative),
            3 => Some(EffectMode::Solarize),
            4 => Some(EffectMode::Sepia),
            5 => Some(EffectMode::Posterize),
            6 => Some(EffectMode::Whiteboard),
            7 => Some(EffectMode::Blackboard),
            8 => Some(EffectMode::Aqua),
            _ => None,
        }
    }
}

impl Default for EffectMode {
    fn default() -> (it: Self)
        ensures
            it == EffectMode::Off,
    {
        EffectMode::Off
    }
}

/// Whether frames are synchronised with another camera.
#[derive(Clone, Copy, Debug, PartialEq, Eq, Structural)]
pub enum FrameSyncMode {
    Off,
    Output,
    Input,
}

impl FrameSyncMode {
    /// The number that stands for it on the wire.
    pub open spec fn spec_code(self) -> u8 {
        match self {
            FrameSyncMode::Off => 0,
            FrameSyncMode::Output => 1,
            FrameSyncMode::Input => 2,
        }
    }

    /// The number that stands for it on the wire.
    #[verifier::when_used_as_spec(spec_code)]
    pub fn code(self) -> (code: u8)
        ensures
            code == self.spec_code(),
    {
        match self {
            FrameSyncMode::Off => 0,
            FrameSyncMode::Output => 1,
            FrameSyncMode::Input => 2,
        }
    }

    /// What a number on the wire stands for, if anything.
    pub fn from_code(code: u8) -> (found: Option<Self>)
        ensures
            match found {
                Some(it) => it.spec_code() == code,
                None => forall|it: Self| it.spec_code() != code,
            },
    {
        match code {
            0 => Some(FrameSyncMode::Off),
            1 => Some(FrameSyncMode::Output),
            2 => Some(FrameSyncMode::Input),
            _ => None,
        }
    }
}

impl Default for FrameSyncMode {
    fn default() -> (it: Self)
        ensures
            it == FrameSyncMode::Off,
    {
        FrameSyncMode::Off
    }
}

/// How a strobe is driven.
#[derive(Debug, PartialEq)]
pub struct StrobeConfig {
    pub enable: bool,
    pub active_level: u8,
    pub gpio_number: i8,
}

impl StrobeConfig {
    /// Whether everything is as it is unless set.
    pub open spec fn is_default(&self) -> bool {
        &&& !self.enable
        &&& self.active_level == 0
        &&& self.gpio_number == 0
    }
}

impl Default for StrobeConfig {
    fn default() -> (it: Self)
        ensures
            it.is_default(),
    {
        StrobeConfig {
            enable: false,
            active_level: 0,
            gpio_number: 0,
        }
    }
}

/// When a strobe is lit.
#[derive(Debug, PartialEq)]
pub struct StrobeTimings {
    pub exposure_begin_offset_us: i32,
    pub exposure_end_offset_us: i32,
    pub duration_us: u32,
}

impl StrobeTimings {
    /// Whether everything is as it is unless set.
    pub open spec fn is_default(&self) -> bool {
        &&& self.exposure_begin_offset_us == 0
        &&& self.exposure_end_offset_us == 0
        &&& self.duration_us == 0
    }
}

impl Default for StrobeTimings {
    fn default() -> (it: Self)
        ensures
            it.is_default(),
    {
        StrobeTimings {
            exposure_begin_offset_us: 0,
            exposure_end_offset_us: 0,
            duration_us: 0,
        }
    }
}

/// A description of an image.
#[derive(Debug, PartialEq)]
pub struct CameraFrame {
    pub timestamp: Timestamp,
    pub device_timestamp: Timestamp,
    pub sequence: i32,
    pub fb: CameraSpecs,
    pub source_fb: CameraSpecs,
    pub settings: CameraSettings,
    pub category: u32,
    pub instance: u32,
    pub transformation: ImageTransformation,
}

/// How an image was made from that of the sensor.
#[derive(Debug, PartialEq)]
pub struct ImageTransformation {
    pub transformation_mtx: [[Float32; 3]; 3],
    pub transformation_mtx_inv: [[Float32; 3]; 3],
    pub source_intrinsic_mtx: [[Float32; 3]; 3],
    pub source_intrinsic_mtx_inv: [[Float32; 3]; 3],
    pub distortion_model: CameraModel,
    pub distortion_coefficients: Vec<Float32>,
    pub src_width: u32,
    pub src_height: u32,
    pub width: u32,
    pub height: u32,
    pub src_crops: Vec<RotatedRect>,
}

/// A point or a size in an image.
#[derive(Debug, PartialEq)]
pub struct Vec2 {
    pub x: Float32,
    pub y: Float32,
    pub normalized: bool,
    pub has_normalized: bool,
}

/// A rectangle that is turned by an angle.
#[derive(Debug, PartialEq)]
pub struct RotatedRect {
    pub center: Vec2,
    pub size: Vec2,
    pub angle: Float32,
}

/// The settings that an image was taken with.
#[derive(Debug, PartialEq)]
pub struct CameraSettings {
    pub exposure_time_us: i32,
    pub sensitivity_iso: i32,
    pub lens_position: i32,
    pub wb_color_temp: i32,
    pub lens_position_raw: Float32,
}

/// How the bytes of an image are laid out.
#[derive(Debug, PartialEq)]
pub struct CameraSpecs {
    pub ty: FrameType,
    pub width: u32,
    pub height: u32,
    pub stride: u32,
    pub bytes_pp: u32,
    pub p1_offset: u32,
    pub p2_offset: u32,
    pub p3_offset: u32,
}

/// How a camera is set up.
#[derive(Debug, PartialEq)]
pub struct CameraProperties {
    pub initial_control: CameraInputControl,
    pub board_socket: CameraBoardSocket,
    pub sensor_type: CameraSensorType,
    pub camera_name: String,
    pub image_orientation: CameraImageOrientation,
    pub resolution_width: i32,
    pub resolution_height: i32,
    pub mock_isp_width: i32,
    pub mock_isp_height: i32,
    pub mock_isp_fps: Float32,
    pub fps: Float32,
    pub isp_3a_fps: i32,
    pub frames_pool_raw: i32,
    pub pool_raw_max_size: i32,
    pub frames_pool_isp: i32,
    pub pool_isp_max_size: i32,
    pub pool_video_frames: i32,
    pub pool_preview_frames: i32,
    pub pool_still_frames: i32,
    pub pool_outputs_frames: Option<i32>,
    pub pool_outputs_max_size: Option<i32>,
    pub output_requests: Vec<CameraCapability>,
}

impl CameraProperties {
    /// Whether everything is as it is unless set.
    pub open spec fn is_default(&self) -> bool {
        &&& self.initial_control.is_default()
        &&& self.board_socket == CameraBoardSocket::Auto
        &&& self.sensor_type == CameraSensorType::Auto
        &&& self.camera_name@ == Seq::<char>::empty()
        &&& self.image_orientation == CameraImageOrientation::Auto
        &&& self.resolution_width == -1
        &&& self.resolution_height == -1
        &&& self.mock_isp_width == -1
        &&& self.mock_isp_height == -1
        &&& self.mock_isp_fps.bits == 0xbf80_0000
        &&& self.fps.bits == 0xbf80_0000
        &&& self.isp_3a_fps == 0
        &&& self.frames_pool_raw == 3
        &&& self.pool_raw_max_size == 1024 * 1024 * 10
        &&& self.frames_pool_isp == 3
        &&& self.pool_isp_max_size == 1024 * 1024 * 10
        &&& self.pool_video_frames == 4
        &&& self.pool_preview_frames == 4
        &&& self.pool_still_frames == 4
        &&& self.pool_outputs_frames is None
        &&& self.pool_outputs_max_size is None
        &&& self.output_requests@.len() == 0
    }
}

impl Default for CameraProperties {
    fn default() -> (it: Self)
        ensures
            it.is_default(),
    {
        CameraProperties {
            initial_control: CameraInputControl::default(),
            board_socket: CameraBoardSocket::Auto,
            sensor_type: CameraSensorType::Auto,
            camera_name: String::new(),
            image_orientation: CameraImageOrientation::Auto,
            resolution_width: -1,
            resolution_height: -1,
            mock_isp_width: -1,
            mock_isp_height: -1,
            mock_isp_fps: Float32 { bits: 0xbf80_0000 },
            fps: Float32 { bits: 0xbf80_0000 },
            isp_3a_fps: 0,
            frames_pool_raw: 3,
            pool_raw_max_size: 1024 * 1024 * 10,
            frames_pool_isp: 3,
            pool_isp_max_size: 1024 * 1024 * 10,
            pool_video_frames: 4,
            pool_preview_frames: 4,
            pool_still_frames: 4,
            pool_outputs_frames: None,
            pool_outputs_max_size: None,
            output_requests: Vec::new(),
        }
    }
}

/// What is asked of an output, or nothing in particular.
#[derive(Debug, PartialEq)]
pub struct Capability<T> {
    pub range: Option<CapabilityRange<T>>,
}

/// What is asked of an output: one value, anything between two, or any of a list.
#[derive(Debug, PartialEq)]
pub enum CapabilityRange<T> {
    Single(T),
    Pair(T, T),
    Collection(Vec<T>),
}

impl<T> Capability<T> {
    /// Nothing is asked for.
    pub fn new_none() -> (capability: Self)
        ensures
            capability.range is None,
    {
        Capability { range: None }
    }

    /// This and nothing else is asked for.
    pub fn new_single(t: T) -> (capability: Self)
        ensures
            capability.range == Some(CapabilityRange::Single(t)),
    {
        Capability { range: Some(CapabilityRange::Single(t)) }
    }
}

/// What is asked of an output of a camera.
#[derive(Debug, PartialEq)]
pub struct CameraCapability {
    pub size: Capability<(u32, u32)>,
    pub fps: Capability<Float32>,
    pub ty: Option<FrameType>,
    pub resize_mode: FrameResize,
    pub enable_undistortion: Option<bool>,
    pub isp_output: bool,
}

/// The format of an image.
#[derive(Clone, Copy, Debug, PartialEq, Eq, Structural)]
pub enum FrameType {
    Yuv422i,
    Yuv444p,
    Yuv420p,
    Yuv422p,
    Yuv400p,
    Rgba4444,
    Rgb161616,
    Rgb888p,
    Bgr888p,
    Rgb888i,
    Bgr888i,
    Lut2,
    Lut4,
    Lut16,
    Raw16,
    Raw14,
    Raw12,
    Raw10,
    Raw8,
    Pack10,
    Pack12,
    Yuv444i,
    Nv12,
    Nv21,
    Bitstream,
    Hdr,
    RgbF16F16F16p,
    BgrF16F16F16p,
    RgbF16F16F16i,
    BgrF16F16F16i,
    Gray8,
    GrayF16,
    Raw32,
    NoFormat,
}

impl FrameType {
    /// The number that stands for it on the wire.
    pub open spec fn spec_code(self) -> u8 {
        match self {
            FrameType::Yuv422i => 0,
            FrameType::Yuv444p => 1,
            FrameType::Yuv420p => 2,
            FrameType::Yuv422p => 3,
            FrameType::Yuv400p => 4,
            FrameType::Rgba4444 => 5,
            FrameType::Rgb161616 => 6,
            FrameType::Rgb888p => 7,
            FrameType::Bgr888p => 8,
            FrameType::Rgb888i => 9,
            FrameType::Bgr888i => 10,
            FrameType::Lut2 => 11,
            FrameType::Lut4 => 12,
            FrameType::Lut16 => 13,
            FrameType::Raw16 => 14,
            FrameType::Raw14 => 15,
            FrameType::Raw12 => 16,
            FrameType::Raw10 => 17,
            FrameType::Raw8 => 18,
            FrameType::Pack10 => 19,
            FrameType::Pack12 => 20,
            FrameType::Yuv444i => 21,
            FrameType::Nv12 => 22,
            FrameType::Nv21 => 23,
            FrameType::Bitstream => 24,
            FrameType::Hdr => 25,
            FrameType::RgbF16F16F16p => 26,
            FrameType::BgrF16F16F16p => 27,
            FrameType::RgbF16F16F16i => 28,
            FrameType::BgrF16F16F16i => 29,
            FrameType::Gray8 => 30,
            FrameType::GrayF16 => 31,
            FrameType::Raw32 => 32,
            FrameType::NoFormat => 33,
        }
    }

    /// The number that stands for it on the wire.
    #[verifier::when_used_as_spec(spec_code)]
    pub fn code(self) -> (code: u8)
        ensures
            code == self.spec_code(),
    {
        match self {
            FrameType::Yuv422i => 0,
            FrameType::Yuv444p => 1,
            FrameType::Yuv420p => 2,
            FrameType::Yuv422p => 3,
            FrameType::Yuv400p => 4,
            FrameType::Rgba4444 => 5,
            FrameType::Rgb161616 => 6,
            FrameType::Rgb888p => 7,
            FrameType::Bgr888p => 8,
            FrameType::Rgb888i => 9,
            FrameType::Bgr888i => 10,
            FrameType::Lut2 => 11,
            FrameType::Lut4 => 12,
            FrameType::Lut16 => 13,
            FrameType::Raw16 => 14,
            FrameType::Raw14 => 15,
            FrameType::Raw12 => 16,
            FrameType::Raw10 => 17,
            FrameType::Raw8 => 18,
            FrameType::Pack10 => 19,
            FrameType::Pack12 => 20,
            FrameType::Yuv444i => 21,
            FrameType::Nv12 => 22,
            FrameType::Nv21 => 23,
            FrameType::Bitstream => 24,
            FrameType::Hdr => 25,
            FrameType::RgbF16F16F16p => 26,
            FrameType::BgrF16F16F16p => 27,
            FrameType::RgbF16F16F16i => 28,
            FrameType::BgrF16F16F16i => 29,
            FrameType::Gray8 => 30,
            FrameType::GrayF16 => 31,
            FrameType::Raw32 => 32,
            FrameType::NoFormat => 33,
        }
    }

    /// What a number on the wire stands for, if anything.
    pub fn from_code(code: u8) -> (found: Option<Self>)
        ensures
            match found {
                Some(it) => it.spec_code() == code,
                None => forall|it: Self| it.spec_code() != code,
            },
    {
        match code {
            0 => Some(FrameType::Yuv422i),
            1 => Some(FrameType::Yuv444p),
            2 => Some(FrameType::Yuv420p),
            3 => Some(FrameType::Yuv422p),
            4 => Some(FrameType::Yuv400p),
            5 => Some(FrameType::Rgba4444),
            6 => Some(FrameType::Rgb161616),
            7 => Some(FrameType::Rgb888p),
            8 => Some(FrameType::Bgr888p),
            9 => Some(FrameType::Rgb888i),
            10 => Some(FrameType::Bgr888i),
            11 => Some(FrameType::Lut2),
            12 => Some(FrameType::Lut4),
            13 => Some(FrameType::Lut16),
            14 => Some(FrameType::Raw16),
            15 => Some(FrameType::Raw14),
            16 => Some(FrameType::Raw12),
            17 => Some(FrameType::Raw10),
            18 => Some(FrameType::Raw8),
            19 => Some(FrameType::Pack10),
            20 => Some(FrameType::Pack12),
            21 => Some(FrameType::Yuv444i),
            22 => Some(FrameType::Nv12),
            23 => Some(FrameType::Nv21),
            24 => Some(FrameType::Bitstream),
            25 => Some(FrameType::Hdr),
            26 => Some(FrameType::RgbF16F16F16p),
            27 => Some(FrameType::BgrF16F16F16p),
            28 => Some(FrameType::RgbF16F16F16i),
            29 => Some(FrameType::BgrF16F16F16i),
            30 => Some(FrameType::Gray8),
            31 => Some(FrameType::GrayF16),
            32 => Some(FrameType::Raw32),
            33 => Some(FrameType::NoFormat),
            _ => None,
        }
    }
}

/// How an image is brought to size.
#[derive(Clone, Copy, Debug, PartialEq, Eq, Structural)]
pub enum FrameResize {
    Crop,
    Stretch,
    Letterbox,
}

impl FrameResize {
    /// The number that stands for it on the wire.
    pub open spec fn spec_code(self) -> u8 {
        match self {
            FrameResize::Crop => 0,
            FrameResize::Stretch => 1,
            FrameResize::Letterbox => 2,
        }
    }

    /// The number that stands for it on the wire.
    #[verifier::when_used_as_spec(spec_code)]
    pub fn code(self) -> (code: u8)
        ensures
            code == self.spec_code(),
    {
        match self {
            FrameResize::Crop => 0,
            FrameResize::Stretch => 1,
            FrameResize::Letterbox => 2,
        }
    }

    /// What a number on the wire stands for, if anything.
    pub fn from_code(code: u8) -> (found: Option<Self>)
        ensures
            match found {
                Some(it) => it.spec_code() == code,
                None => forall|it: Self| it.spec_code() != code,
            },
    {
        match code {
            0 => Some(FrameResize::Crop),
            1 => Some(FrameResize::Stretch),
            2 => Some(FrameResize::Letterbox),
            _ => None,
        }
    }
}

impl NotAny for CameraInputControl {}

impl MetadataOnly for CameraInputControl {}

impl StaticIoDesc for CameraInputControl {
    open spec fn spec_static_name() -> Seq<char> {
        "inputControl"@
    }

    open spec fn spec_static_type() -> NodeType {
        NodeType::SReceiver
    }

    fn static_name() -> (name: &'static str) {
        "inputControl"
    }

    fn static_type() -> (ty: NodeType) {
        NodeType::SReceiver
    }
}

impl NotAny for CameraFrame {}

impl<D: Deserializer> IoDeserializeable<D> for CameraFrame {
    type Metadata = Self;

    type Output = Vec<u8>;
}

impl<S: Serializer> IoSerializeable<S> for CameraFrame {
    type Metadata = Self;

    type Output = Vec<u8>;
}

impl StaticIoDesc for In<CameraFrame> {
    open spec fn spec_static_name() -> Seq<char> {
        "mockIsp"@
    }

    open spec fn spec_static_type() -> NodeType {
        NodeType::SReceiver
    }

    fn static_name() -> (name: &'static str) {
        "mockIsp"
    }

    fn static_type() -> (ty: NodeType) {
        NodeType::SReceiver
    }
}

impl StaticIoDesc for Out<CameraFrame> {
    open spec fn spec_static_name() -> Seq<char> {
        "raw"@
    }

    open spec fn spec_static_type() -> NodeType {
        NodeType::MSender
    }

    fn static_name() -> (name: &'static str) {
        "raw"
    }

    fn static_type() -> (ty: NodeType) {
        NodeType::MSender
    }
}

/// Images go out in several places, each of which has a name of its own.
impl StaticIoDesc for CameraFrame {
    open spec fn spec_static_name() -> Seq<char> {
        ""@
    }

    open spec fn spec_static_type() -> NodeType {
        NodeType::MSender
    }

    fn static_name() -> (name: &'static str) {
        ""
    }

    fn static_type() -> (ty: NodeType) {
        NodeType::MSender
    }
}

impl DynamicGroup for CameraFrame {
    open spec fn spec_dynamic_group() -> Option<Seq<char>> {
        Some("dynamicOutputs"@)
    }

    fn dynamic_group() -> (group: Option<&'static str>) {
        Some("dynamicOutputs")
    }
}

/// The node that takes images.
pub struct Camera;

impl Node for Camera {
    type Input = (
        Input<CameraInputControl, RnopSerializer>,
        Input<In<CameraFrame>, RnopSerializer>,
    );

    type Output = (
        Output<Out<CameraFrame>, RnopDeserializer>,
        Vec<Output<Dynamic<CameraFrame>, RnopDeserializer>>,
    );

    type Properties = CameraProperties;

    open spec fn spec_name() -> Seq<char> {
        "Camera"@
    }

    open spec fn spec_alias() -> Option<Seq<char>> {
        None
    }

    fn name() -> (name: &'static str) {
        "Camera"
    }

    fn alias() -> (alias: Option<&'static str>) {
        None
    }
}

impl NodeT<Camera> {
    /// The output of images as the sensor gives them.
    pub fn raw_camera_output(&self) -> (output: OutputRef<
        '_,
        Camera,
        Out<CameraFrame>,
        RnopDeserializer,
    >)
        ensures
            output.node == self,
            output.output == self.output.0,
    {
        self.output().0
    }

    /// The outputs that were made on request, in the order in which they were.
    pub fn requested_camera_outputs(&self) -> (outputs: OutputRefIter<
        '_,
        Dynamic<CameraFrame>,
        RnopDeserializer,
        Camera,
    >)
        ensures
            outputs.node == self,
            outputs.items == self.output.1,
            outputs.next == 0,
    {
        self.output().1
    }

    /// Makes an output of images as they are asked for, named by its number.
    pub fn request_output(&mut self, capability: CameraCapability) -> (number: usize)
        ensures
            number == old(self).output.1@.len(),
            final(self).output.1@.len() == number + 1,
            final(self).output.1@.drop_last() == old(self).output.1@,
            final(self).output.1@.last().output.name@ == text::decimal(number as nat),
            final(self).output.1@.last().conf == IoDescConf::spec_default(),
            final(self).output.0 == old(self).output.0,
            final(self).properties.output_requests@ == old(self).properties.output_requests@.push(
                capability,
            ),
            final(self).properties == (CameraProperties {
                output_requests: final(self).properties.output_requests,
                ..old(self).properties
            }),
            final(self).log_level == old(self).log_level,
            final(self).input == old(self).input,
            final(self).id == old(self).id,
    {
        let len: usize = self.output.1.len();
        let storage = DynamicStorage { name: text::to_decimal(len) };
        let new_output = Output {
            output: storage,
            conf: IoDescConf::default(),
            _pd: PhantomData,
        };
        self.output.1.push(new_output);
        self.properties.output_requests.push(capability);
        assert(self.output.1@.drop_last() =~= old(self).output.1@);
        len
    }
}

/// The number that stands for each `AutoFocusMode`.
pub proof fn auto_focus_mode_codes()
    ensures
        AutoFocusMode::Off.spec_code() == 0,
        AutoFocusMode::Auto.spec_code() == 1,
        AutoFocusMode::Macro.spec_code() == 2,
        AutoFocusMode::ContinuousVideo.spec_code() == 3,
        AutoFocusMode::ContinuousPicture.spec_code() == 4,
        AutoFocusMode::Edof.spec_code() == 5,
{
}

/// The number that stands for each `AutoWhiteBalanceMode`.
pub proof fn auto_white_balance_mode_codes()
    ensures
        AutoWhiteBalanceMode::Off.spec_code() == 0,
        AutoWhiteBalanceMode::Auto.spec_code() == 1,
        AutoWhiteBalanceMode::Incandescent.spec_code() == 2,
        AutoWhiteBalanceMode::Flourescent.spec_code() == 3,
        AutoWhiteBalanceMode::WarmFlourescent.spec_code() == 4,
        AutoWhiteBalanceMode::Daylight.spec_code() == 5,
        AutoWhiteBalanceMode::CloudyDaylight.spec_code() == 6,
        AutoWhiteBalanceMode::Twilight.spec_code() == 7,
        AutoWhiteBalanceMode::Shade.spec_code() == 8,
{
}

/// The number that stands for each `SceneMode`.
pub proof fn scene_mode_codes()
    ensures
        SceneMode::Unsupported.spec_code() == 0,
        SceneMode::FacePriority.spec_code() == 1,
        SceneMode::Action.spec_code() == 2,
        SceneMode::Portrait.spec_code() == 3,
        SceneMode::Landscape.spec_code() == 4,
        SceneMode::Night.spec_code() == 5,
        SceneMode::NightPortrait.spec_code() == 6,
        SceneMode::Theatre.spec_code() == 7,
        SceneMode::Beach.spec_code() == 8,
        SceneMode::Snow.spec_code() == 9,
        SceneMode::Sunset.spec_code() == 10,
        SceneMode::SteadyPhoto.spec_code() == 11,
        SceneMode::Fireworks.spec_code() == 12,
        SceneMode::Sports.spec_code() == 13,
        SceneMode::Party.spec_code() == 14,
        SceneMode::Candlelight.spec_code() == 15,
        SceneMode::Barcode.spec_code() == 16,
{
}

/// The number that stands for each `AntiBandingMode`.
pub proof fn anti_banding_mode_codes()
    ensures
        AntiBandingMode::Off.spec_code() == 0,
        AntiBandingMode::Mains50Hz.spec_code() == 1,
        AntiBandingMode::Mains60Hz.spec_code() == 2,
        AntiBandingMode::Auto.spec_code() == 3,
{
}

/// The number that stands for each `CaptureIntent`.
pub proof fn capture_intent_codes()
    ensures
        CaptureIntent::Custom.spec_code() == 0,
        CaptureIntent::Preview.spec_code() == 1,
        CaptureIntent::StillCapture.spec_code() == 2,
        CaptureIntent::VideoRecord.spec_code() == 3,
        CaptureIntent::VideoSnapshot.spec_code() == 4,
        CaptureIntent::ZeroShutterLag.spec_code() == 5,
{
}

/// The number that stands for each `ControlMode`.
pub proof fn control_mode_codes()
    ensures
        ControlMode::Off.spec_code() == 0,
        ControlMode::Auto.spec_code() == 1,
        ControlMode::UseSceneMode.spec_code() == 2,
{
}

/// The number that stands for each `EffectMode`.
pub proof fn effect_mode_codes()
    ensures
        EffectMode::Off.spec_code() == 0,
        EffectMode::Mono.spec_code() == 1,
        EffectMode::Negative.spec_code() == 2,
        EffectMode::Solarize.spec_code() == 3,
        EffectMode::Sepia.spec_code() == 4,
        EffectMode::Posterize.spec_code() == 5,
        EffectMode::Whiteboard.spec_code() == 6,
        EffectMode::Blackboard.spec_code() == 7,
        EffectMode::Aqua.spec_code() == 8,
{
}

/// The number that stands for each `FrameSyncMode`.
pub proof fn frame_sync_mode_codes()
    ensures
        FrameSyncMode::Off.spec_code() == 0,
        FrameSyncMode::Output.spec_code() == 1,
        FrameSyncMode::Input.spec_code() == 2,
{
}

/// The number that stands for each `FrameType`.
pub proof fn frame_type_codes()
    ensures
        FrameType::Yuv422i.spec_code() == 0,
        FrameType::Yuv444p.spec_code() == 1,
        FrameType::Yuv420p.spec_code() == 2,
        FrameType::Yuv422p.spec_code() == 3,
        FrameType::Yuv400p.spec_code() == 4,
        FrameType::Rgba4444.spec_code() == 5,
        FrameType::Rgb161616.spec_code() == 6,
        FrameType::Rgb888p.spec_code() == 7,
        FrameType::Bgr888p.spec_code() == 8,
        FrameType::Rgb888i.spec_code() == 9,
        FrameType::Bgr888i.spec_code() == 10,
        FrameType::Lut2.spec_code() == 11,
        FrameType::Lut4.spec_code() == 12,
        FrameType::Lut16.spec_code() == 13,
        FrameType::Raw16.spec_code() == 14,
        FrameType::Raw14.spec_code() == 15,
        FrameType::Raw12.spec_code() == 16,
        FrameType::Raw10.spec_code() == 17,
        FrameType::Raw8.spec_code() == 18,
        FrameType::Pack10.spec_code() == 19,
        FrameType::Pack12.spec_code() == 20,
        FrameType::Yuv444i.spec_code() == 21,
        FrameType::Nv12.spec_code() == 22,
        FrameType::Nv21.spec_code() == 23,
        FrameType::Bitstream.spec_code() == 24,
        FrameType::Hdr.spec_code() == 25,
        FrameType::RgbF16F16F16p.spec_code() == 26,
        FrameType::BgrF16F16F16p.spec_code() == 27,
        FrameType::RgbF16F16F16i.spec_code() == 28,
        FrameType::BgrF16F16F16i.spec_code() == 29,
        FrameType::Gray8.spec_code() == 30,
        FrameType::GrayF16.spec_code() == 31,
        FrameType::Raw32.spec_code() == 32,
        FrameType::NoFormat.spec_code() == 33,
{
}

/// The number that stands for each `FrameResize`.
pub proof fn frame_resize_codes()
    ensures
        FrameResize::Crop.spec_code() == 0,
        FrameResize::Stretch.spec_code() == 1,
        FrameResize::Letterbox.spec_code() == 2,
{
}

/// What is in a default `CameraInputControl`, field by field.
pub proof fn camera_input_control_defaults(it: CameraInputControl)
    requires
        call_ensures(CameraInputControl::default, (), it),
    ensures
        it.cmd_mask == 0,
        it.auto_focus_mode == AutoFocusMode::ContinuousVideo,
        it.lens_position == 0,
        it.lens_position_raw.bits == 0,
        it.lens_pos_auto_infinity == 0,
        it.lens_pos_auto_macro == 0,
        it.exp_manual.is_default(),
        it.ae_region.is_default(),
        it.af_region.is_default(),
        it.awb_mode == AutoWhiteBalanceMode::Off,
        it.scene_mode == SceneMode::Unsupported,
        it.anti_banding_mode == AntiBandingMode::Off,
        !it.ae_lock_mode,
        !it.awb_lock_mode,
        it.capture_intent == CaptureIntent::Custom,
        it.control_mode == ControlMode::Off,
        it.effect_mode == EffectMode::Off,
        it.frame_sync_mode == FrameSyncMode::Off,
        it.strobe_config.is_default(),
        it.strobe_timings.is_default(),
        it.ae_max_exposure_time_us == 0,
        it.exp_compensation == 0,
        it.brightness == 0,
        it.contrast == 0,
        it.saturation == 0,
        it.sharpness == 0,
        it.luma_denoise == 0,
        it.chroma_denoise == 0,
        it.wb_color_temp == 0,
        it.low_power_frame_burst == 0,
        it.low_power_frame_discard == 0,
        !it.enable_hdr,
        it.misc_controls@.len() == 0,
{
}

/// What is in a default `ManualExposureParams`, field by field.
pub proof fn manual_exposure_params_defaults(it: ManualExposureParams)
    requires
        call_ensures(ManualExposureParams::default, (), it),
    ensures
        it.exposure_time_us == 0,
        it.sensitivity_iso == 0,
        it.frame_duration_us == 0,
{
}

/// What is in a default `RegionParams`, field by field.
pub proof fn region_params_defaults(it: RegionParams)
    requires
        call_ensures(RegionParams::default, (), it),
    ensures
        it.x == 0,
        it.y == 0,
        it.width == 0,
        it.height == 0,
        it.priority == 0,
{
}

/// What is in a default `StrobeConfig`, field by field.
pub proof fn strobe_config_defaults(it: StrobeConfig)
    requires
        call_ensures(StrobeConfig::default, (), it),
    ensures
        !it.enable,
        it.active_level == 0,
        it.gpio_number == 0,
{
}

/// What is in a default `StrobeTimings`, field by field.
pub proof fn strobe_timings_defaults(it: StrobeTimings)
    requires
        call_ensures(StrobeTimings::default, (), it),
    ensures
        it.exposure_begin_offset_us == 0,
        it.exposure_end_offset_us == 0,
        it.duration_us == 0,
{
}

/// What is in a default `CameraProperties`, field by field.
pub proof fn camera_properties_defaults(it: CameraProperties)
    requires
        call_ensures(CameraProperties::default, (), it),
    ensures
        it.initial_control.is_default(),
        it.board_socket == CameraBoardSocket::Auto,
        it.sensor_type == CameraSensorType::Auto,
        it.camera_name@ == Seq::<char>::empty(),
        it.image_orientation == CameraImageOrientation::Auto,
        it.resolution_width == -1,
        it.resolution_height == -1,
        it.mock_isp_width == -1,
        it.mock_isp_height == -1,
        it.mock_isp_fps.bits == 0xbf80_0000,
        it.fps.bits == 0xbf80_0000,
        it.isp_3a_fps == 0,
        it.frames_pool_raw == 3,
        it.pool_raw_max_size == 1024 * 1024 * 10,
        it.frames_pool_isp == 3,
        it.pool_isp_max_size == 1024 * 1024 * 10,
        it.pool_video_frames == 4,
        it.pool_preview_frames == 4,
        it.pool_still_frames == 4,
        it.pool_outputs_frames is None,
        it.pool_outputs_max_size is None,
        it.output_requests@.len() == 0,
{
}

/// What is chosen unless set.
pub proof fn choices_unless_set(
    auto_focus_mode: AutoFocusMode,
    white_balance: AutoWhiteBalanceMode,
    scene_mode: SceneMode,
    anti_banding_mode: AntiBandingMode,
    capture_intent: CaptureIntent,
    control_mode: ControlMode,
    effect_mode: EffectMode,
    frame_sync_mode: FrameSyncMode,
)
    ensures
        call_ensures(AutoFocusMode::default, (), auto_focus_mode) ==> auto_focus_mode
            == AutoFocusMode::ContinuousVideo,
        call_ensures(AutoWhiteBalanceMode::default, (), white_balance) ==> white_balance
            == AutoWhiteBalanceMode::Off,
        call_ensures(SceneMode::default, (), scene_mode) ==> scene_mode
            == SceneMode::Unsupported,
        call_ensures(AntiBandingMode::default, (), anti_banding_mode) ==> anti_banding_mode
            == AntiBandingMode::Off,
        call_ensures(CaptureIntent::default, (), capture_intent) ==> capture_intent
            == CaptureIntent::Custom,
        call_ensures(ControlMode::default, (), control_mode) ==> control_mode
            == ControlMode::Off,
        call_ensures(EffectMode::default, (), effect_mode) ==> effect_mode
            == EffectMode::Off,
        call_ensures(FrameSyncMode::default, (), frame_sync_mode) ==> frame_sync_mode
            == FrameSyncMode::Off,
{
}

} // verus!
