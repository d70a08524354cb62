//! The calibration of a device.

use vstd::prelude::*;

use super::types::{CameraBoardSocket, CameraModel};
use crate::float::Float32;

verus! {

/// The calibration that a device stores.
#[derive(Debug)]
pub struct EepromData {
    pub version: u32,
    pub product_name: String,
    pub board_custom: String,
    pub board_name: String,
    pub board_rev: String,
    pub board_conf: String,
    pub hardware_conf: String,
    pub device_name: String,
    pub batch_name: Option<String>,
    pub batch_time: u64,
    pub board_options: u32,
    pub camera_data: Vec<(CameraBoardSocket, CameraInfo)>,
    pub stereo_rectification: StereoRectification,
    pub imu_extrinsics: Extrinsics,
    pub housing_extrinsisc: Extrinsics,
    pub misc_data: Vec<u8>,
    pub stereo_use_spec_translation: bool,
    pub stereo_enable_distortion_correction: bool,
    pub vertical_camera_socket: CameraBoardSocket,
}

/// How the images of a stereo pair are aligned.
#[derive(Debug)]
pub struct StereoRectification {
    pub rectified_rotation_left: Vec<Vec<Float32>>,
    pub rectified_rotation_right: Vec<Vec<Float32>>,
    pub left_camera_socket: CameraBoardSocket,
    pub right_camera_socket: CameraBoardSocket,
}

/// The calibration of a camera.
#[derive(Debug)]
pub struct CameraInfo {
    pub width: u16,
    pub height: u16,
    pub lens_position: u8,
    pub intrinsic_matrix: Vec<Vec<Float32>>,
    pub distortion_coef: Vec<Float32>,
    pub extrinsics: Extrinsics,
    pub fov_deg: Float32,
    pub ty: CameraModel,
}

/// Where a camera stands relative to another.
#[derive(Debug)]
pub struct Extrinsics {
    pub rotation_mtx: Vec<Vec<Float32>>,
    pub translation: Point3f,
    pub spec_translation: Point3f,
    pub to_camera_socket: CameraBoardSocket,
}

/// A point in space.
#[derive(Debug)]
pub struct Point3f {
    pub x: Float32,
    pub y: Float32,
    pub z: Float32,
}

} // verus!
