//! How depth is computed from stereo.

use vstd::prelude::*;

use crate::float::Float32;
use crate::rpc::{CameraBoardSocket, ProcessorType};

verus! {

/// How depth is computed from a stereo pair.
#[derive(Debug, PartialEq)]
pub struct StereoDepthProperties {
    pub initial_config: StereoDepthConfig,
    pub depth_align_camera: CameraBoardSocket,
    pub enable_rectification: bool,
    pub rectify_edge_fill_color: i32,
    pub width: Option<i32>,
    pub height: Option<i32>,
    pub out_width: Option<i32>,
    pub out_height: Option<i32>,
    pub keep_aspect_ratio: bool,
    pub mesh: RectificationMesh,
    pub enable_runtime_stereo_mode_switch: bool,
    pub frame_pool: i32,
    pub post_processing_shaves: i32,
    pub post_processing_memory_slices: i32,
    pub focal_length_from_calibration: bool,
    pub use_homography_rectification: Option<bool>,
    pub enable_frame_sync: bool,
    pub baseline: Option<Float32>,
    pub focal_length: Option<Float32>,
    pub disparity_to_depth_use_spec_translation: Option<bool>,
    pub rectification_use_spec_translation: Option<bool>,
    pub depth_alignment_use_spec_translation: Option<bool>,
    pub alpha_scaling: Option<Float32>,
}

impl StereoDepthProperties {
    /// Whether everything is as it is unless set.
    pub open spec fn is_default(&self) -> bool {
        &&& self.initial_config.is_default()
        &&& self.depth_align_camera == CameraBoardSocket::Auto
        &&& self.enable_rectification
        &&& self.rectify_edge_fill_color == 0
        &&& self.width is None
        &&& self.height is None
        &&& self.out_width is None
        &&& self.out_height is None
        &&& self.keep_aspect_ratio
        &&& self.mesh.is_default()
        &&& !self.enable_runtime_stereo_mode_switch
        &&& self.frame_pool == 3
        &&& self.post_processing_shaves == -1
        &&& self.post_processing_memory_slices == -1
        &&& self.focal_length_from_calibration
        &&& self.use_homography_rectification is None
        &&& self.enable_frame_sync
        &&& self.baseline is None
        &&& self.focal_length is None
        &&& self.disparity_to_depth_use_spec_translation is None
        &&& self.rectification_use_spec_translation is None
        &&& self.depth_alignment_use_spec_translation is None
        &&& self.alpha_scaling is None
    }
}

impl Default for StereoDepthProperties {
    fn default() -> (it: Self)
        ensures
            it.is_default(),
    {
        StereoDepthProperties {
            initial_config: StereoDepthConfig::default(),
            depth_align_camera: CameraBoardSocket::Auto,
            enable_rectification: true,
            rectify_edge_fill_color: 0,
            width: None,
            height: None,
            out_width: None,
            out_height: None,
            keep_aspect_ratio: true,
            mesh: RectificationMesh::default(),
            enable_runtime_stereo_mode_switch: false,
            frame_pool: 3,
            post_processing_shaves: -1,
            post_processing_memory_slices: -1,
            focal_length_from_calibration: true,
            use_homography_rectification: None,
            enable_frame_sync: true,
            baseline: None,
            focal_length: None,
            disparity_to_depth_use_spec_translation: None,
            rectification_use_spec_translation: None,
            depth_alignment_use_spec_translation: None,
            alpha_scaling: None,
        }
    }
}

/// The meshes that images are rectified with.
#[derive(Debug, PartialEq)]
pub struct RectificationMesh {
    pub left_mesh_uri: String,
    pub right_mesh_uri: String,
    pub mesh_size: Option<u32>,
    pub step_width: u16,
    pub step_height: u16,
}

impl RectificationMesh {
    /// Whether everything is as it is unless set.
    pub open spec fn is_default(&self) -> bool {
        &&& self.left_mesh_uri@ == Seq::<char>::empty()
        &&& self.right_mesh_uri@ == Seq::<char>::empty()
        &&& self.mesh_size is None
        &&& self.step_width == 16
        &&& self.step_height == 16
    }
}

impl Default for RectificationMesh {
    fn default() -> (it: Self)
        ensures
            it.is_default(),
    {
        RectificationMesh {
            left_mesh_uri: String::new(),
            right_mesh_uri: String::new(),
            mesh_size: None,
            step_width: 16,
            step_height: 16,
        }
    }
}

/// The configuration of depth from stereo.
#[derive(Debug, PartialEq)]
pub struct StereoDepthConfig {
    pub algorithm_control: AlgorithmControl,
    pub post_processing: PostProcessing,
    pub census_transorm: CensusTransform,
    pub cost_matching: CostMatching,
    pub cost_aggregation: CostAggregation,
    pub confidence_metrics: ConfidenceMetrics,
    pub filters_backend: ProcessorType,
}

impl StereoDepthConfig {
    /// Whether everything is as it is unless set.
    pub open spec fn is_default(&self) -> bool {
        &&& self.algorithm_control.is_default()
        &&& self.post_processing.is_default()
        &&& self.census_transorm.is_default()
        &&& self.cost_matching.is_default()
        &&& self.cost_aggregation.is_default()
        &&& self.confidence_metrics.is_default()
        &&& self.filters_backend == ProcessorType::Cpu
    }
}

impl Default for StereoDepthConfig {
    fn default() -> (it: Self)
        ensures
            it.is_default(),
    {
        StereoDepthConfig {
            algorithm_control: AlgorithmControl::default(),
            post_processing: PostProcessing::default(),
            census_transorm: CensusTransform::default(),
            cost_matching: CostMatching::default(),
            cost_aggregation: CostAggregation::default(),
            confidence_metrics: ConfidenceMetrics::default(),
            filters_backend: ProcessorType::Cpu,
        }
    }
}

/// How confidence in a disparity is computed.
#[derive(Debug, PartialEq)]
pub struct ConfidenceMetrics {
    pub occlusion_confidence_weight: u8,
    pub motion_vector_confidence_weight: u8,
    pub motion_vector_confidence_threshold: u8,
    pub flatness_confidence_weight: u8,
    pub flatness_confidence_threshold: u8,
    pub flatness_override: bool,
}

impl ConfidenceMetrics {
    /// Whether everything is as it is unless set.
    pub open spec fn is_default(&self) -> bool {
        &&& self.occlusion_confidence_weight == 20
        &&& self.motion_vector_confidence_weight == 4
        &&& self.motion_vector_confidence_threshold == 1
        &&& self.flatness_confidence_weight == 8
        &&& self.flatness_confidence_threshold == 2
        &&& !self.flatness_override
    }
}

impl Default for ConfidenceMetrics {
    fn default() -> (it: Self)
        ensures
            it.is_default(),
    {
        ConfidenceMetrics {
            occlusion_confidence_weight: 20,
            motion_vector_confidence_weight: 4,
            motion_vector_confidence_threshold: 1,
            flatness_confidence_weight: 8,
            flatness_confidence_threshold: 2,
            flatness_override: false,
        }
    }
}

/// How costs are aggregated.
#[derive(Debug, PartialEq)]
pub struct CostAggregation {
    pub division_factor: u8,
    pub horizontal_penalty_cost_p1: u16,
    pub horizontal_penalty_cost_p2: u16,
    pub vertical_penalty_cost_p1: u16,
    pub vertical_penalty_cost_p2: u16,
    pub p1_config: P1Config,
    pub p2_config: P2Config,
}

impl CostAggregation {
    /// Whether everything is as it is unless set.
    pub open spec fn is_default(&self) -> bool {
        &&& self.division_factor == 1
        &&& self.horizontal_penalty_cost_p1 == 250
        &&& self.horizontal_penalty_cost_p2 == 500
        &&& self.vertical_penalty_cost_p1 == 250
        &&& self.vertical_penalty_cost_p2 == 500
        &&& self.p1_config.is_default()
        &&& self.p2_config.is_default()
    }
}

impl Default for CostAggregation {
    fn default() -> (it: Self)
        ensures
            it.is_default(),
    {
        CostAggregation {
            division_factor: 1,
            horizontal_penalty_cost_p1: 250,
            horizontal_penalty_cost_p2: 500,
            vertical_penalty_cost_p1: 250,
            vertical_penalty_cost_p2: 500,
            p1_config: P1Config::default(),
            p2_config: P2Config::default(),
        }
    }
}

/// The penalty for small jumps in disparity.
#[derive(Debug, PartialEq)]
pub struct P1Config {
    pub enable_adaptive: bool,
    pub default_value: u8,
    pub edge_value: u8,
    pub smooth_value: u8,
    pub edge_threshold: u8,
    pub smooth_threshold: u8,
}

impl P1Config {
    /// Whether everything is as it is unless set.
    pub open spec fn is_default(&self) -> bool {
        &&& self.enable_adaptive
        &&& self.default_value == 11
        &&& self.edge_value == 10
        &&& self.smooth_value == 22
        &&& self.edge_threshold == 15
        &&& self.smooth_threshold == 5
    }
}

impl Default for P1Config {
    fn default() -> (it: Self)
        ensures
            it.is_default(),
    {
        P1Config {
            enable_adaptive: true,
            default_value: 11,
            edge_value: 10,
            smooth_value: 22,
            edge_threshold: 15,
            smooth_threshold: 5,
        }
    }
}

/// The penalty for large jumps in disparity.
#[derive(Debug, PartialEq)]
pub struct P2Config {
    pub enable_adaptive: bool,
    pub default_value: u8,
    pub edge_value: u8,
    pub smooth_value: u8,
}

impl P2Config {
    /// Whether everything is as it is unless set.
    pub open spec fn is_default(&self) -> bool {
        &&& self.enable_adaptive
        &&& self.default_value == 33
        &&& self.edge_value == 22
        &&& self.smooth_value == 63
    }
}

impl Default for P2Config {
    fn default() -> (it: Self)
        ensures
            it.is_default(),
    {
        P2Config {
            enable_adaptive: true,
            default_value: 33,
            edge_value: 22,
            smooth_value: 63,
        }
    }
}

/// How pixels are compared.
#[derive(Debug, PartialEq)]
pub struct CensusTransform {
    pub kernel_size: KernelSize,
    pub kernel_mask: u64,
    pub enable_mean_mode: bool,
    pub threshold: u32,
    pub noise_threshold_offset: i8,
    pub noise_threshold_scale: i8,
}

impl CensusTransform {
    /// Whether everything is as it is unless set.
    pub open spec fn is_default(&self) -> bool {
        &&& self.kernel_size == KernelSize::Auto
        &&& self.kernel_mask == 0
        &&& self.enable_mean_mode
        &&& self.threshold == 0
        &&& self.noise_threshold_offset == 1
        &&& self.noise_threshold_scale == 1
    }
}

impl Default for CensusTransform {
    fn default() -> (it: Self)
        ensures
            it.is_default(),
    {
        CensusTransform {
            kernel_size: KernelSize::Auto,
            kernel_mask: 0,
            enable_mean_mode: true,
            threshold: 0,
            noise_threshold_offset: 1,
            noise_threshold_scale: 1,
        }
    }
}

/// The size of the census kernel.
#[derive(Clone, Copy, Debug, PartialEq, Eq, Structural)]
pub enum KernelSize {
    Auto,
    Kernel5x5,
    Kernel7x7,
    Kernel7x9,
}

impl KernelSize {
    /// The number that stands for it on the wire.
    pub open spec fn spec_code(self) -> i32 {
        match self {
            KernelSize::Auto => (-1) as i32,
            KernelSize::Kernel5x5 => 0,
            KernelSize::Kernel7x7 => 1,
            KernelSize::Kernel7x9 => 2,
        }
    }

    /// The number that stands for it on the wire.
    #[verifier::when_used_as_spec(spec_code)]
    pub fn code(self) -> (code: i32)
        ensures
            code == self.spec_code(),
    {
        match self {
            KernelSize::Auto => -1,
            KernelSize::Kernel5x5 => 0,
            KernelSize::Kernel7x7 => 1,
            KernelSize::Kernel7x9 => 2,
        }
    }

    /// What a number on the wire stands for, if anything.
    pub fn from_code(code: i32) -> (found: Option<Self>)
        ensures
            match found {
                Some(it) => it.spec_code() == code,
                None => forall|it: Self| it.spec_code() != code,
            },
    {
        match code {
            -1 => Some(KernelSize::Auto),
            0 => Some(KernelSize::Kernel5x5),
            1 => Some(KernelSize::Kernel7x7),
            2 => Some(KernelSize::Kernel7x9),
            _ => None,
        }
    }
}

/// How costs are matched.
#[derive(Debug, PartialEq)]
pub struct CostMatching {
    pub disparity_width: DisparityWidth,
    pub enable_companding: bool,
    pub invalid_disparity_value: u8,
    pub confidence_threshold: u8,
    pub enable_software_confidence_thresholding: bool,
    pub linear_equation_parameters: LinearEquationParameters,
}

impl CostMatching {
    /// Whether everything is as it is unless set.
    pub open spec fn is_default(&self) -> bool {
        &&& self.disparity_width == DisparityWidth::Disparity96
        &&& !self.enable_companding
        &&& self.invalid_disparity_value == 0
        &&& self.confidence_threshold == 55
        &&& !self.enable_software_confidence_thresholding
        &&& self.linear_equation_parameters.is_default()
    }
}

impl Default for CostMatching {
    fn default() -> (it: Self)
        ensures
            it.is_default(),
    {
        CostMatching {
            disparity_width: DisparityWidth::Disparity96,
            enable_companding: false,
            invalid_disparity_value: 0,
            confidence_threshold: 55,
            enable_software_confidence_thresholding: false,
            linear_equation_parameters: LinearEquationParameters::default(),
        }
    }
}

/// How matching costs are mapped.
#[derive(Debug, PartialEq)]
pub struct LinearEquationParameters {
    pub alpha: u8,
    pub beta: u8,
    pub threshold: u8,
}

impl LinearEquationParameters {
    /// Whether everything is as it is unless set.
    pub open spec fn is_default(&self) -> bool {
        &&& self.alpha == 0
        &&& self.beta == 0
        &&& self.threshold == 127
    }
}

impl Default for LinearEquationParameters {
    fn default() -> (it: Self)
        ensures
            it.is_default(),
    {
        LinearEquationParameters {
            alpha: 0,
            beta: 0,
            threshold: 127,
        }
    }
}

/// How many disparities are searched.
#[derive(Clone, Copy, Debug, PartialEq, Eq, Structural)]
pub enum DisparityWidth {
    Disparity64,
    Disparity96,
}

impl DisparityWidth {
    /// The number that stands for it on the wire.
    pub open spec fn spec_code(self) -> u32 {
        match self {
            DisparityWidth::Disparity64 => 0,
            DisparityWidth::Disparity96 => 1,
        }
    }

    /// The number that stands for it on the wire.
    #[verifier::when_used_as_spec(spec_code)]
    pub fn code(self) -> (code: u32)
        ensures
            code == self.spec_code(),
    {
        match self {
            DisparityWidth::Disparity64 => 0,
            DisparityWidth::Disparity96 => 1,
        }
    }

    /// What a number on the wire stands for, if anything.
    pub fn from_code(code: u32) -> (found: Option<Self>)
        ensures
            match found {
                Some(it) => it.spec_code() == code,
                None => forall|it: Self| it.spec_code() != code,
            },
    {
        match code {
            0 => Some(DisparityWidth::Disparity64),
            1 => Some(DisparityWidth::Disparity96),
            _ => None,
        }
    }
}

/// What the stereo algorithm does.
#[derive(Debug, PartialEq)]
pub struct AlgorithmControl {
    pub depth_align: DepthAlign,
    pub depth_unit: DepthUnit,
    pub custom_depth_unit_multiplier: Float32,
    pub enable_left_right_check: bool,
    pub enable_software_left_right_check: bool,
    pub enable_extended: bool,
    pub enable_subpixel: bool,
    pub left_right_check_threshold: i32,
    pub subpixel_fractional_bits: i32,
    pub disparity_shift: i32,
    pub center_alignment_shift_factor: Option<Float32>,
    pub invalidate_edge_pixel_count: i32,
}

impl AlgorithmControl {
    /// Whether everything is as it is unless set.
    pub open spec fn is_default(&self) -> bool {
        &&& self.depth_align == DepthAlign::RectifiedLeft
        &&& self.depth_unit == DepthUnit::Millimeter
        &&& self.custom_depth_unit_multiplier.bits == 0x447a_0000
        &&& self.enable_left_right_check
        &&& !self.enable_software_left_right_check
        &&& !self.enable_extended
        &&& self.enable_subpixel
        &&& self.left_right_check_threshold == 10
        &&& self.subpixel_fractional_bits == 5
        &&& self.disparity_shift == 0
        &&& self.center_alignment_shift_factor is None
        &&& self.invalidate_edge_pixel_count == 0
    }
}

impl Default for AlgorithmControl {
    fn default() -> (it: Self)
        ensures
            it.is_default(),
    {
        AlgorithmControl {
            depth_align: DepthAlign::RectifiedLeft,
            depth_unit: DepthUnit::Millimeter,
            custom_depth_unit_multiplier: Float32 { bits: 0x447a_0000 },
            enable_left_right_check: true,
            enable_software_left_right_check: false,
            enable_extended: false,
            enable_subpixel: true,
            left_right_check_threshold: 10,
            subpixel_fractional_bits: 5,
            disparity_shift: 0,
            center_alignment_shift_factor: None,
            invalidate_edge_pixel_count: 0,
        }
    }
}

/// The view that depth is aligned to.
#[derive(Clone, Copy, Debug, PartialEq, Eq, Structural)]
pub enum DepthAlign {
    RectifiedRight,
    RectifiedLeft,
    Center,
}

impl DepthAlign {
    /// The number that stands for it on the wire.
    pub open spec fn spec_code(self) -> i32 {
        match self {
            DepthAlign::RectifiedRight => 0,
            DepthAlign::RectifiedLeft => 1,
            DepthAlign::Center => 2,
        }
    }

    /// The number that stands for it on the wire.
    #[verifier::when_used_as_spec(spec_code)]
    pub fn code(self) -> (code: i32)
        ensures
            code == self.spec_code(),
    {
        match self {
            DepthAlign::RectifiedRight => 0,
            DepthAlign::RectifiedLeft => 1,
            DepthAlign::Center => 2,
        }
    }

    /// What a number on the wire stands for, if anything.
    pub fn from_code(code: i32) -> (found: Option<Self>)
        ensures
            match found {
                Some(it) => it.spec_code() == code,
                None => forall|it: Self| it.spec_code() != code,
            },
    {
        match code {
            0 => Some(DepthAlign::RectifiedRight),
            1 => Some(DepthAlign::RectifiedLeft),
            2 => Some(DepthAlign::Center),
            _ => None,
        }
    }
}

/// A unit of length.
#[derive(Clone, Copy, Debug, PartialEq, Eq, Structural)]
pub enum LengthUnit {
    Meter,
    Centimeter,
    Millimeter,
    Inch,
    Foot,
    Custom,
}

impl LengthUnit {
    /// The number that stands for it on the wire.
    pub open spec fn spec_code(self) -> i32 {
        match self {
            LengthUnit::Meter => 0,
            LengthUnit::Centimeter => 1,
            LengthUnit::Millimeter => 2,
            LengthUnit::Inch => 3,
            LengthUnit::Foot => 4,
            LengthUnit::Custom => 5,
        }
    }

    /// The number that stands for it on the wire.
    #[verifier::when_used_as_spec(spec_code)]
    pub fn code(self) -> (code: i32)
        ensures
            code == self.spec_code(),
    {
        match self {
            LengthUnit::Meter => 0,
            LengthUnit::Centimeter => 1,
            LengthUnit::Millimeter => 2,
            LengthUnit::Inch => 3,
            LengthUnit::Foot => 4,
            LengthUnit::Custom => 5,
        }
    }

    /// What a number on the wire stands for, if anything.
    pub fn from_code(code: i32) -> (found: Option<Self>)
        ensures
            match found {
                Some(it) => it.spec_code() == code,
                None => forall|it: Self| it.spec_code() != code,
            },
    {
        match code {
            0 => Some(LengthUnit::Meter),
            1 => Some(LengthUnit::Centimeter),
            2 => Some(LengthUnit::Millimeter),
            3 => Some(LengthUnit::Inch),
            4 => Some(LengthUnit::Foot),
            5 => Some(LengthUnit::Custom),
            _ => None,
        }
    }
}

/// What is done to disparities after they are found.
#[derive(Debug, PartialEq)]
pub struct PostProcessing {
    pub filtering_order: [Filter; 5],
    pub median: MedianFilter,
    pub bilateral_sigma_value: i16,
    pub spacial_filter: SpatialFilter,
    pub temporal_filter: TemporalFilter,
    pub threshold_filter: ThresholdFilter,
    pub brightness_filter: BrightnessFilter,
    pub speckle_filter: SpeckleFilter,
    pub decimation_filter: DecimationFilter,
    pub hole_filling: HoleFilling,
    pub adaptive_median_filter: AdaptiveMedianFilter,
}

impl PostProcessing {
    /// Whether everything is as it is unless set.
    pub open spec fn is_default(&self) -> bool {
        &&& self.filtering_order@ == seq![
            Filter::Median,
            Filter::Decimation,
            Filter::Speckle,
            Filter::Spatial,
            Filter::Temporal,
        ]
        &&& self.median == MedianFilter::Off
        &&& self.bilateral_sigma_value == 0
        &&& self.spacial_filter.is_default()
        &&& self.temporal_filter.is_default()
        &&& self.threshold_filter.is_default()
        &&& self.brightness_filter.is_default()
        &&& self.speckle_filter.is_default()
        &&& self.decimation_filter.is_default()
        &&& self.hole_filling.is_default()
        &&& self.adaptive_median_filter.is_default()
    }
}

impl Default for PostProcessing {
    fn default() -> (it: Self)
        ensures
            it.is_default(),
    {
        PostProcessing {
            filtering_order: [
                Filter::Median,
                Filter::Decimation,
                Filter::Speckle,
                Filter::Spatial,
                Filter::Temporal,
            ],
            median: MedianFilter::Off,
            bilateral_sigma_value: 0,
            spacial_filter: SpatialFilter::default(),
            temporal_filter: TemporalFilter::default(),
            threshold_filter: ThresholdFilter::default(),
            brightness_filter: BrightnessFilter::default(),
            speckle_filter: SpeckleFilter::default(),
            decimation_filter: DecimationFilter::default(),
            hole_filling: HoleFilling::default(),
            adaptive_median_filter: AdaptiveMedianFilter::default(),
        }
    }
}

/// A filter on disparities.
#[derive(Clone, Copy, Debug, PartialEq, Eq, Structural)]
pub enum Filter {
    NoFilter,
    Decimation,
    Speckle,
    Median,
    Spatial,
    Temporal,
}

impl Filter {
    /// The number that stands for it on the wire.
    pub open spec fn spec_code(self) -> i32 {
        match self {
            Filter::NoFilter => 0,
            Filter::Decimation => 1,
            Filter::Speckle => 2,
            Filter::Median => 3,
            Filter::Spatial => 4,
            Filter::Temporal => 5,
        }
    }

    /// The number that stands for it on the wire.
    #[verifier::when_used_as_spec(spec_code)]
    pub fn code(self) -> (code: i32)
        ensures
            code == self.spec_code(),
    {
        match self {
            Filter::NoFilter => 0,
            Filter::Decimation => 1,
            Filter::Speckle => 2,
            Filter::Median => 3,
            Filter::Spatial => 4,
            Filter::Temporal => 5,
        }
    }

    /// What a number on the wire stands for, if anything.
    pub fn from_code(code: i32) -> (found: Option<Self>)
        ensures
            match found {
                Some(it) => it.spec_code() == code,
                None => forall|it: Self| it.spec_code() != code,
            },
    {
        match code {
            0 => Some(Filter::NoFilter),
            1 => Some(Filter::Decimation),
            2 => Some(Filter::Speckle),
            3 => Some(Filter::Median),
            4 => Some(Filter::Spatial),
            5 => Some(Filter::Temporal),
            _ => None,
        }
    }
}

/// The size of the median filter.
#[derive(Clone, Copy, Debug, PartialEq, Eq, Structural)]
pub enum MedianFilter {
    Off,
    Kernel3x3,
    Kernel5x5,
    Kernel7x7,
}

impl MedianFilter {
    /// The number that stands for it on the wire.
    pub open spec fn spec_code(self) -> i32 {
        match self {
            MedianFilter::Off => 0,
            MedianFilter::Kernel3x3 => 3,
            MedianFilter::Kernel5x5 => 5,
            MedianFilter::Kernel7x7 => 7,
        }
    }

    /// The number that stands for it on the wire.
    #[verifier::when_used_as_spec(spec_code)]
    pub fn code(self) -> (code: i32)
        ensures
            code == self.spec_code(),
    {
        match self {
            MedianFilter::Off => 0,
            MedianFilter::Kernel3x3 => 3,
            MedianFilter::Kernel5x5 => 5,
            MedianFilter::Kernel7x7 => 7,
        }
    }

    /// What a number on the wire stands for, if anything.
    pub fn from_code(code: i32) -> (found: Option<Self>)
        ensures
            match found {
                Some(it) => it.spec_code() == code,
                None => forall|it: Self| it.spec_code() != code,
            },
    {
        match code {
            0 => Some(MedianFilter::Off),
            3 => Some(MedianFilter::Kernel3x3),
            5 => Some(MedianFilter::Kernel5x5),
            7 => Some(MedianFilter::Kernel7x7),
            _ => None,
        }
    }
}

/// The range of depths that are kept.
#[derive(Debug, PartialEq)]
pub struct ThresholdFilter {
    pub min_range: i32,
    pub max_range: i32,
}

impl ThresholdFilter {
    /// Whether everything is as it is unless set.
    pub open spec fn is_default(&self) -> bool {
        &&& self.min_range == 0
        &&& self.max_range == 65535
    }
}

impl Default for ThresholdFilter {
    fn default() -> (it: Self)
        ensures
            it.is_default(),
    {
        ThresholdFilter {
            min_range: 0,
            max_range: 65535,
        }
    }
}

/// The range of brightness that is kept.
#[derive(Debug, PartialEq)]
pub struct BrightnessFilter {
    pub min_brightness: i32,
    pub max_brightness: i32,
}

impl BrightnessFilter {
    /// Whether everything is as it is unless set.
    pub open spec fn is_default(&self) -> bool {
        &&& self.min_brightness == 0
        &&& self.max_brightness == 256
    }
}

impl Default for BrightnessFilter {
    fn default() -> (it: Self)
        ensures
            it.is_default(),
    {
        BrightnessFilter {
            min_brightness: 0,
            max_brightness: 256,
        }
    }
}

/// How speckles are removed.
#[derive(Debug, PartialEq)]
pub struct SpeckleFilter {
    pub enable: bool,
    pub range: u32,
    pub difference_threshold: u32,
}

impl SpeckleFilter {
    /// Whether everything is as it is unless set.
    pub open spec fn is_default(&self) -> bool {
        &&& !self.enable
        &&& self.range == 50
        &&& self.difference_threshold == 2
    }
}

impl Default for SpeckleFilter {
    fn default() -> (it: Self)
        ensures
            it.is_default(),
    {
        SpeckleFilter {
            enable: false,
            range: 50,
            difference_threshold: 2,
        }
    }
}

/// How disparities are thinned out.
#[derive(Debug, PartialEq)]
pub struct DecimationFilter {
    pub decimation_factor: u32,
    pub decimation_mode: DecimationMode,
}

impl DecimationFilter {
    /// Whether everything is as it is unless set.
    pub open spec fn is_default(&self) -> bool {
        &&& self.decimation_factor == 1
        &&& self.decimation_mode == DecimationMode::PixelSkipping
    }
}

impl Default for DecimationFilter {
    fn default() -> (it: Self)
        ensures
            it.is_default(),
    {
        DecimationFilter {
            decimation_factor: 1,
            decimation_mode: DecimationMode::PixelSkipping,
        }
    }
}

/// How holes are filled.
#[derive(Debug, PartialEq)]
pub struct HoleFilling {
    pub enable: bool,
    pub high_confidence_threshold: u8,
    pub fill_confidence_threshold: u8,
    pub min_valid_disparity: u8,
    pub invalidate_disparities: bool,
}

impl HoleFilling {
    /// Whether everything is as it is unless set.
    pub open spec fn is_default(&self) -> bool {
        &&& self.enable
        &&& self.high_confidence_threshold == 210
        &&& self.fill_confidence_threshold == 200
        &&& self.min_valid_disparity == 1
        &&& self.invalidate_disparities
    }
}

impl Default for HoleFilling {
    fn default() -> (it: Self)
        ensures
            it.is_default(),
    {
        HoleFilling {
            enable: true,
            high_confidence_threshold: 210,
            fill_confidence_threshold: 200,
            min_valid_disparity: 1,
            invalidate_disparities: true,
        }
    }
}

/// A median filter that depends on confidence.
#[derive(Debug, PartialEq)]
pub struct AdaptiveMedianFilter {
    pub enable: bool,
    pub confidence_threshold: u8,
}

impl AdaptiveMedianFilter {
    /// Whether everything is as it is unless set.
    pub open spec fn is_default(&self) -> bool {
        &&& self.enable
        &&& self.confidence_threshold == 200
    }
}

impl Default for AdaptiveMedianFilter {
    fn default() -> (it: Self)
        ensures
            it.is_default(),
    {
        AdaptiveMedianFilter {
            enable: true,
            confidence_threshold: 200,
        }
    }
}

/// How pixels are thinned out.
#[derive(Clone, Copy, Debug, PartialEq, Eq, Structural)]
pub enum DecimationMode {
    PixelSkipping,
    NonZeroMedian,
    NonZeroMean,
}

impl DecimationMode {
    /// The number that stands for it on the wire.
    pub open spec fn spec_code(self) -> i32 {
        match self {
            DecimationMode::PixelSkipping => 0,
            DecimationMode::NonZeroMedian => 1,
            DecimationMode::NonZeroMean => 2,
        }
    }

    /// The number that stands for it on the wire.
    #[verifier::when_used_as_spec(spec_code)]
    pub fn code(self) -> (code: i32)
        ensures
            code == self.spec_code(),
    {
        match self {
            DecimationMode::PixelSkipping => 0,
            DecimationMode::NonZeroMedian => 1,
            DecimationMode::NonZeroMean => 2,
        }
    }

    /// What a number on the wire stands for, if anything.
    pub fn from_code(code: i32) -> (found: Option<Self>)
        ensures
            match found {
                Some(it) => it.spec_code() == code,
                None => forall|it: Self| it.spec_code() != code,
            },
    {
        match code {
            0 => Some(DecimationMode::PixelSkipping),
            1 => Some(DecimationMode::NonZeroMedian),
            2 => Some(DecimationMode::NonZeroMean),
            _ => None,
        }
    }
}

/// How disparities are smoothed over time.
#[derive(Debug, PartialEq)]
pub struct TemporalFilter {
    pub enable: bool,
    pub persistency_mode: PersistencyMode,
    pub alpha: Float32,
    pub delta: i32,
}

impl TemporalFilter {
    /// Whether everything is as it is unless set.
    pub open spec fn is_default(&self) -> bool {
        &&& !self.enable
        &&& self.persistency_mode == PersistencyMode::Valid2InLast4
        &&& self.alpha.bits == 0x3ecc_cccd
        &&& self.delta == 3
    }
}

impl Default for TemporalFilter {
    fn default() -> (it: Self)
        ensures
            it.is_default(),
    {
        TemporalFilter {
            enable: false,
            persistency_mode: PersistencyMode::Valid2InLast4,
            alpha: Float32 { bits: 0x3ecc_cccd },
            delta: 3,
        }
    }
}

/// How long a disparity persists.
#[derive(Clone, Copy, Debug, PartialEq, Eq, Structural)]
pub enum PersistencyMode {
    Off,
    Valid8OutOf8,
    Valid2InLast3,
    Valid2InLast4,
    Valid2OutOf8,
    Valid1InLast2,
    Valid1InLast5,
    Valid1InLast8,
    Indefinitely,
}

impl PersistencyMode {
    /// The number that stands for it on the wire.
    pub open spec fn spec_code(self) -> i32 {
        match self {
            PersistencyMode::Off => 0,
            PersistencyMode::Valid8OutOf8 => 1,
            PersistencyMode::Valid2InLast3 => 2,
            PersistencyMode::Valid2InLast4 => 3,
            PersistencyMode::Valid2OutOf8 => 4,
            PersistencyMode::Valid1InLast2 => 5,
            PersistencyMode::Valid1InLast5 => 6,
            PersistencyMode::Valid1InLast8 => 7,
            PersistencyMode::Indefinitely => 8,
        }
    }

    /// The number that stands for it on the wire.
    #[verifier::when_used_as_spec(spec_code)]
    pub fn code(self) -> (code: i32)
        ensures
            code == self.spec_code(),
    {
        match self {
            PersistencyMode::Off => 0,
            PersistencyMode::Valid8OutOf8 => 1,
            PersistencyMode::Valid2InLast3 => 2,
            PersistencyMode::Valid2InLast4 => 3,
            PersistencyMode::Valid2OutOf8 => 4,
            PersistencyMode::Valid1InLast2 => 5,
            PersistencyMode::Valid1InLast5 => 6,
            PersistencyMode::Valid1InLast8 => 7,
            PersistencyMode::Indefinitely => 8,
        }
    }

    /// What a number on the wire stands for, if anything.
    pub fn from_code(code: i32) -> (found: Option<Self>)
        ensures
            match found {
                Some(it) => it.spec_code() == code,
                None => forall|it: Self| it.spec_code() != code,
            },
    {
        match code {
            0 => Some(PersistencyMode::Off),
            1 => Some(PersistencyMode::Valid8OutOf8),
            2 => Some(PersistencyMode::Valid2InLast3),
            3 => Some(PersistencyMode::Valid2InLast4),
            4 => Some(PersistencyMode::Valid2OutOf8),
            5 => Some(PersistencyMode::Valid1InLast2),
            6 => Some(PersistencyMode::Valid1InLast5),
            7 => Some(PersistencyMode::Valid1InLast8),
            8 => Some(PersistencyMode::Indefinitely),
            _ => None,
        }
    }
}

/// How disparities are smoothed over the image.
#[derive(Debug, PartialEq)]
pub struct SpatialFilter {
    pub enable: bool,
    pub hole_filling_radius: u8,
    pub alpha: Float32,
    pub delta: i32,
    pub num_iterations: i32,
}

impl SpatialFilter {
    /// Whether everything is as it is unless set.
    pub open spec fn is_default(&self) -> bool {
        &&& !self.enable
        &&& self.hole_filling_radius == 2
        &&& self.alpha.bits == 0x3f00_0000
        &&& self.delta == 3
        &&& self.num_iterations == 1
    }
}

impl Default for SpatialFilter {
    fn default() -> (it: Self)
        ensures
            it.is_default(),
    {
        SpatialFilter {
            enable: false,
            hole_filling_radius: 2,
            alpha: Float32 { bits: 0x3f00_0000 },
            delta: 3,
            num_iterations: 1,
        }
    }
}

/// The unit that depth is given in.
pub type DepthUnit = LengthUnit;

/// The number that stands for each `KernelSize`.
pub proof fn kernel_size_codes()
    ensures
        KernelSize::Auto.spec_code() == -1,
        KernelSize::Kernel5x5.spec_code() == 0,
        KernelSize::Kernel7x7.spec_code() == 1,
        KernelSize::Kernel7x9.spec_code() == 2,
{
}

/// The number that stands for each `DisparityWidth`.
pub proof fn disparity_width_codes()
    ensures
        DisparityWidth::Disparity64.spec_code() == 0,
        DisparityWidth::Disparity96.spec_code() == 1,
{
}

/// The number that stands for each `DepthAlign`.
pub proof fn depth_align_codes()
    ensures
        DepthAlign::RectifiedRight.spec_code() == 0,
        DepthAlign::RectifiedLeft.spec_code() == 1,
        DepthAlign::Center.spec_code() == 2,
{
}

/// The number that stands for each `LengthUnit`.
pub proof fn length_unit_codes()
    ensures
        LengthUnit::Meter.spec_code() == 0,
        LengthUnit::Centimeter.spec_code() == 1,
        LengthUnit::Millimeter.spec_code() == 2,
        LengthUnit::Inch.spec_code() == 3,
        LengthUnit::Foot.spec_code() == 4,
        LengthUnit::Custom.spec_code() == 5,
{
}

/// The number that stands for each `Filter`.
pub proof fn filter_codes()
    ensures
        Filter::NoFilter.spec_code() == 0,
        Filter::Decimation.spec_code() == 1,
        Filter::Speckle.spec_code() == 2,
        Filter::Median.spec_code() == 3,
        Filter::Spatial.spec_code() == 4,
        Filter::Temporal.spec_code() == 5,
{
}

/// The number that stands for each `MedianFilter`.
pub proof fn median_filter_codes()
    ensures
        MedianFilter::Off.spec_code() == 0,
        MedianFilter::Kernel3x3.spec_code() == 3,
        MedianFilter::Kernel5x5.spec_code() == 5,
        MedianFilter::Kernel7x7.spec_code() == 7,
{
}

/// The number that stands for each `DecimationMode`.
pub proof fn decimation_mode_codes()
    ensures
        DecimationMode::PixelSkipping.spec_code() == 0,
        DecimationMode::NonZeroMedian.spec_code() == 1,
        DecimationMode::NonZeroMean.spec_code() == 2,
{
}

/// The number that stands for each `PersistencyMode`.
pub proof fn persistency_mode_codes()
    ensures
        PersistencyMode::Off.spec_code() == 0,
        PersistencyMode::Valid8OutOf8.spec_code() == 1,
        PersistencyMode::Valid2InLast3.spec_code() == 2,
        PersistencyMode::Valid2InLast4.spec_code() == 3,
        PersistencyMode::Valid2OutOf8.spec_code() == 4,
        PersistencyMode::Valid1InLast2.spec_code() == 5,
        PersistencyMode::Valid1InLast5.spec_code() == 6,
        PersistencyMode::Valid1InLast8.spec_code() == 7,
        PersistencyMode::Indefinitely.spec_code() == 8,
{
}

/// What is in a default `StereoDepthProperties`, field by field.
pub proof fn stereo_depth_properties_defaults(it: StereoDepthProperties)
    requires
        call_ensures(StereoDepthProperties::default, (), it),
    ensures
        it.initial_config.is_default(),
        it.depth_align_camera == CameraBoardSocket::Auto,
        it.enable_rectification,
        it.rectify_edge_fill_color == 0,
        it.width is None,
        it.height is None,
        it.out_width is None,
        it.out_height is None,
        it.keep_aspect_ratio,
        it.mesh.is_default(),
        !it.enable_runtime_stereo_mode_switch,
        it.frame_pool == 3,
        it.post_processing_shaves == -1,
        it.post_processing_memory_slices == -1,
        it.focal_length_from_calibration,
        it.use_homography_rectification is None,
        it.enable_frame_sync,
        it.baseline is None,
        it.focal_length is None,
        it.disparity_to_depth_use_spec_translation is None,
        it.rectification_use_spec_translation is None,
        it.depth_alignment_use_spec_translation is None,
        it.alpha_scaling is None,
{
}

/// What is in a default `RectificationMesh`, field by field.
pub proof fn rectification_mesh_defaults(it: RectificationMesh)
    requires
        call_ensures(RectificationMesh::default, (), it),
    ensures
        it.left_mesh_uri@ == Seq::<char>::empty(),
        it.right_mesh_uri@ == Seq::<char>::empty(),
        it.mesh_size is None,
        it.step_width == 16,
        it.step_height == 16,
{
}

/// What is in a default `StereoDepthConfig`, field by field.
pub proof fn stereo_depth_config_defaults(it: StereoDepthConfig)
    requires
        call_ensures(StereoDepthConfig::default, (), it),
    ensures
        it.algorithm_control.is_default(),
        it.post_processing.is_default(),
        it.census_transorm.is_default(),
        it.cost_matching.is_default(),
        it.cost_aggregation.is_default(),
        it.confidence_metrics.is_default(),
        it.filters_backend == ProcessorType::Cpu,
{
}

/// What is in a default `ConfidenceMetrics`, field by field.
pub proof fn confidence_metrics_defaults(it: ConfidenceMetrics)
    requires
        call_ensures(ConfidenceMetrics::default, (), it),
    ensures
        it.occlusion_confidence_weight == 20,
        it.motion_vector_confidence_weight == 4,
        it.motion_vector_confidence_threshold == 1,
        it.flatness_confidence_weight == 8,
        it.flatness_confidence_threshold == 2,
        !it.flatness_override,
{
}

/// What is in a default `CostAggregation`, field by field.
pub proof fn cost_aggregation_defaults(it: CostAggregation)
    requires
        call_ensures(CostAggregation::default, (), it),
    ensures
        it.division_factor == 1,
        it.horizontal_penalty_cost_p1 == 250,
        it.horizontal_penalty_cost_p2 == 500,
        it.vertical_penalty_cost_p1 == 250,
        it.vertical_penalty_cost_p2 == 500,
        it.p1_config.is_default(),
        it.p2_config.is_default(),
{
}

/// What is in a default `P1Config`, field by field.
pub proof fn p1_config_defaults(it: P1Config)
    requires
        call_ensures(P1Config::default, (), it),
    ensures
        it.enable_adaptive,
        it.default_value == 11,
        it.edge_value == 10,
        it.smooth_value == 22,
        it.edge_threshold == 15,
        it.smooth_threshold == 5,
{
}

/// What is in a default `P2Config`, field by field.
pub proof fn p2_config_defaults(it: P2Config)
    requires
        call_ensures(P2Config::default, (), it),
    ensures
        it.enable_adaptive,
        it.default_value == 33,
        it.edge_value == 22,
        it.smooth_value == 63,
{
}

/// What is in a default `CensusTransform`, field by field.
pub proof fn census_transform_defaults(it: CensusTransform)
    requires
        call_ensures(CensusTransform::default, (), it),
    ensures
        it.kernel_size == KernelSize::Auto,
        it.kernel_mask == 0,
        it.enable_mean_mode,
        it.threshold == 0,
        it.noise_threshold_offset == 1,
        it.noise_threshold_scale == 1,
{
}

/// What is in a default `CostMatching`, field by field.
pub proof fn cost_matching_defaults(it: CostMatching)
    requires
        call_ensures(CostMatching::default, (), it),
    ensures
        it.disparity_width == DisparityWidth::Disparity96,
        !it.enable_companding,
        it.invalid_disparity_value == 0,
        it.confidence_threshold == 55,
        !it.enable_software_confidence_thresholding,
        it.linear_equation_parameters.is_default(),
{
}

/// What is in a default `LinearEquationParameters`, field by field.
pub proof fn linear_equation_parameters_defaults(it: LinearEquationParameters)
    requires
        call_ensures(LinearEquationParameters::default, (), it),
    ensures
        it.alpha == 0,
        it.beta == 0,
        it.threshold == 127,
{
}

/// What is in a default `AlgorithmControl`, field by field.
pub proof fn algorithm_control_defaults(it: AlgorithmControl)
    requires
        call_ensures(AlgorithmControl::default, (), it),
    ensures
        it.depth_align == DepthAlign::RectifiedLeft,
        it.depth_unit == DepthUnit::Millimeter,
        it.custom_depth_unit_multiplier.bits == 0x447a_0000,
        it.enable_left_right_check,
        !it.enable_software_left_right_check,
        !it.enable_extended,
        it.enable_subpixel,
        it.left_right_check_threshold == 10,
        it.subpixel_fractional_bits == 5,
        it.disparity_shift == 0,
        it.center_alignment_shift_factor is None,
        it.invalidate_edge_pixel_count == 0,
{
}

/// What is in a default `PostProcessing`, field by field.
pub proof fn post_processing_defaults(it: PostProcessing)
    requires
        call_ensures(PostProcessing::default, (), it),
    ensures
        it.filtering_order@ == seq![
        Filter::Median,
        Filter::Decimation,
        Filter::Speckle,
        Filter::Spatial,
        Filter::Temporal,
    ],
        it.median == MedianFilter::Off,
        it.bilateral_sigma_value == 0,
        it.spacial_filter.is_default(),
        it.temporal_filter.is_default(),
        it.threshold_filter.is_default(),
        it.brightness_filter.is_default(),
        it.speckle_filter.is_default(),
        it.decimation_filter.is_default(),
        it.hole_filling.is_default(),
        it.adaptive_median_filter.is_default(),
{
}

/// What is in a default `ThresholdFilter`, field by field.
pub proof fn threshold_filter_defaults(it: ThresholdFilter)
    requires
        call_ensures(ThresholdFilter::default, (), it),
    ensures
        it.min_range == 0,
        it.max_range == 65535,
{
}

/// What is in a default `BrightnessFilter`, field by field.
pub proof fn brightness_filter_defaults(it: BrightnessFilter)
    requires
        call_ensures(BrightnessFilter::default, (), it),
    ensures
        it.min_brightness == 0,
        it.max_brightness == 256,
{
}

/// What is in a default `SpeckleFilter`, field by field.
pub proof fn speckle_filter_defaults(it: SpeckleFilter)
    requires
        call_ensures(SpeckleFilter::default, (), it),
    ensures
        !it.enable,
        it.range == 50,
        it.difference_threshold == 2,
{
}

/// What is in a default `DecimationFilter`, field by field.
pub proof fn decimation_filter_defaults(it: DecimationFilter)
    requires
        call_ensures(DecimationFilter::default, (), it),
    ensures
        it.decimation_factor == 1,
        it.decimation_mode == DecimationMode::PixelSkipping,
{
}

/// What is in a default `HoleFilling`, field by field.
pub proof fn hole_filling_defaults(it: HoleFilling)
    requires
        call_ensures(HoleFilling::default, (), it),
    ensures
        it.enable,
        it.high_confidence_threshold == 210,
        it.fill_confidence_threshold == 200,
        it.min_valid_disparity == 1,
        it.invalidate_disparities,
{
}

/// What is in a default `AdaptiveMedianFilter`, field by field.
pub proof fn adaptive_median_filter_defaults(it: AdaptiveMedianFilter)
    requires
        call_ensures(AdaptiveMedianFilter::default, (), it),
    ensures
        it.enable,
        it.confidence_threshold == 200,
{
}

/// What is in a default `TemporalFilter`, field by field.
pub proof fn temporal_filter_defaults(it: TemporalFilter)
    requires
        call_ensures(TemporalFilter::default, (), it),
    ensures
        !it.enable,
        it.persistency_mode == PersistencyMode::Valid2InLast4,
        it.alpha.bits == 0x3ecc_cccd,
        it.delta == 3,
{
}

/// What is in a default `SpatialFilter`, field by field.
pub proof fn spatial_filter_defaults(it: SpatialFilter)
    requires
        call_ensures(SpatialFilter::default, (), it),
    ensures
        !it.enable,
        it.hole_filling_radius == 2,
        it.alpha.bits == 0x3f00_0000,
        it.delta == 3,
        it.num_iterations == 1,
{
}

} // verus!
