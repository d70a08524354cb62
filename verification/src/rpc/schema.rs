//! A pipeline as a device takes it.

use vstd::prelude::*;

use super::eeprom::EepromData;
use super::types::{CameraBoardSocket, LogLevel};
use crate::float::Float32;

verus! {

/// A pipeline as a device takes it.
#[derive(Debug)]
pub struct PipelineSchema {
    pub connections: Vec<NodeConnectionSchema>,
    pub global_properties: GlobalProperties,
    pub nodes: Vec<(i64, NodeObjInfo)>,
    pub bridges: Vec<(i64, i64)>,
}

/// A connection from the output of a node to the input of another.
#[derive(Debug, PartialEq, Eq)]
pub struct NodeConnectionSchema {
    pub output_id: i64,
    pub output_group: String,
    pub output: String,
    pub input_id: i64,
    pub input_group: String,
    pub input: String,
}

/// What holds for a pipeline as a whole.
#[derive(Debug)]
pub struct GlobalProperties {
    pub leon_css_frequency_hz: Float32,
    pub leon_mss_frequency_hz: Float32,
    pub pipeline_name: Option<String>,
    pub pipeline_version: Option<String>,
    pub calibration: Option<EepromData>,
    pub eeprom_id: Option<u32>,
    pub camera_tuning_blob_size: Option<u32>,
    pub camera_tuning_blob_uri: String,
    pub camera_socket_tuning_blob_size: Vec<(CameraBoardSocket, u32)>,
    pub camera_socket_tuning_blob_uri: Vec<(CameraBoardSocket, String)>,
    pub xlink_chunk_size: i32,
    pub sipp_buffer_size: u32,
    pub sipp_dma_buffer_size: u32,
}

impl GlobalProperties {
    /// Whether everything is as it is unless set.
    pub open spec fn is_default(&self) -> bool {
        &&& self.leon_css_frequency_hz.bits == 0x4e26_e49c
        &&& self.leon_mss_frequency_hz.bits == 0x4e26_e49c
        &&& self.pipeline_name is None
        &&& self.pipeline_version is None
        &&& self.calibration is None
        &&& self.eeprom_id == Some(0u32)
        &&& self.camera_tuning_blob_size is None
        &&& self.camera_tuning_blob_uri@ == Seq::<char>::empty()
        &&& self.camera_socket_tuning_blob_size@.len() == 0
        &&& self.camera_socket_tuning_blob_uri@.len() == 0
        &&& self.xlink_chunk_size == -1
        &&& self.sipp_buffer_size == Self::SIPP_BUFFER_DEFAULT_SIZE
        &&& self.sipp_dma_buffer_size == Self::SIPP_DMA_BUFFER_DEFAULT_SIZE
    }
}

impl Default for GlobalProperties {
    fn default() -> (it: Self)
        ensures
            it.is_default(),
    {
        GlobalProperties {
            leon_css_frequency_hz: Float32 { bits: 0x4e26_e49c },
            leon_mss_frequency_hz: Float32 { bits: 0x4e26_e49c },
            pipeline_name: None,
            pipeline_version: None,
            calibration: None,
            eeprom_id: Some(0),
            camera_tuning_blob_size: None,
            camera_tuning_blob_uri: String::new(),
            camera_socket_tuning_blob_size: Vec::new(),
            camera_socket_tuning_blob_uri: Vec::new(),
            xlink_chunk_size: -1,
            sipp_buffer_size: Self::SIPP_BUFFER_DEFAULT_SIZE,
            sipp_dma_buffer_size: Self::SIPP_DMA_BUFFER_DEFAULT_SIZE,
        }
    }
}

/// A node of a pipeline.
#[derive(Debug)]
pub struct NodeObjInfo {
    pub id: i64,
    pub parent_id: i64,
    pub name: String,
    pub alias: String,
    pub device_id: String,
    pub device_node: bool,
    pub properties: Vec<u8>,
    pub log_level: LogLevel,
    pub io_info: Vec<((String, String), NodeIoInfo)>,
}

/// An input or output of a node.
#[derive(Debug)]
pub struct NodeIoInfo {
    pub group: String,
    pub name: String,
    pub ty: NodeType,
    pub blocking: bool,
    pub queue_size: i32,
    pub wait_for_message: bool,
    pub id: u32,
}

/// Which way an input or output of a node goes, and to how many.
#[derive(Clone, Copy, Debug, PartialEq, Eq, Structural)]
pub enum NodeType {
    MSender,
    SSender,
    MReceiver,
    SReceiver,
}

impl NodeType {
    /// The number that stands for it on the wire.
    pub open spec fn spec_code(self) -> u8 {
        match self {
            NodeType::MSender => 0,
            NodeType::SSender => 1,
            NodeType::MReceiver => 2,
            NodeType::SReceiver => 3,
        }
    }

    /// The number that stands for it on the wire.
    #[verifier::when_used_as_spec(spec_code)]
    pub fn code(self) -> (code: u8)
        ensures
            code == self.spec_code(),
    {
        match self {
            NodeType::MSender => 0,
            NodeType::SSender => 1,
            NodeType::MReceiver => 2,
            NodeType::SReceiver => 3,
        }
    }

    /// What a number on the wire stands for, if anything.
    pub fn from_code(code: u8) -> (found: Option<Self>)
        ensures
            match found {
                Some(it) => it.spec_code() == code,
                None => forall|it: Self| it.spec_code() != code,
            },
    {
        match code {
            0 => Some(NodeType::MSender),
            1 => Some(NodeType::SSender),
            2 => Some(NodeType::MReceiver),
            3 => Some(NodeType::SReceiver),
            _ => None,
        }
    }
}

impl GlobalProperties {
    /// The size of a buffer of the image pipeline.
    pub const SIPP_BUFFER_DEFAULT_SIZE: u32 = 18 * 1024;

    /// The size of a buffer for transfers of the image pipeline.
    pub const SIPP_DMA_BUFFER_DEFAULT_SIZE: u32 = 16 * 1024;
}

/// The number that stands for each `NodeType`.
pub proof fn node_type_codes()
    ensures
        NodeType::MSender.spec_code() == 0,
        NodeType::SSender.spec_code() == 1,
        NodeType::MReceiver.spec_code() == 2,
        NodeType::SReceiver.spec_code() == 3,
{
}

/// What is in a default `GlobalProperties`, field by field.
pub proof fn global_properties_defaults(it: GlobalProperties)
    requires
        call_ensures(GlobalProperties::default, (), it),
    ensures
        it.leon_css_frequency_hz.bits == 0x4e26_e49c,
        it.leon_mss_frequency_hz.bits == 0x4e26_e49c,
        it.pipeline_name is None,
        it.pipeline_version is None,
        it.calibration is None,
        it.eeprom_id == Some(0u32),
        it.camera_tuning_blob_size is None,
        it.camera_tuning_blob_uri@ == Seq::<char>::empty(),
        it.camera_socket_tuning_blob_size@.len() == 0,
        it.camera_socket_tuning_blob_uri@.len() == 0,
        it.xlink_chunk_size == -1,
        it.sipp_buffer_size == 18432,
        it.sipp_dma_buffer_size == 16384,
{
}

} // verus!
