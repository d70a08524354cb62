//! Reporting how the device is doing.

use vstd::prelude::*;

use super::desc::{MetadataOnly, NotAny, RnopDeserializer};
use super::node::{Empty, Node, Output, StaticIoDesc};
use crate::float::Float32;
use crate::rpc::{ChipTemperature, CpuUsage, MemoryInfo, NodeType};

verus! {

/// How often system information is reported.
#[derive(Debug)]
pub struct SystemLoggerProperties {
    pub rate_hz: Float32,
}

impl SystemLoggerProperties {
    /// Whether everything is as it is unless set.
    pub open spec fn is_default(&self) -> bool {
        &&& self.rate_hz.bits == 0x3f80_0000
    }
}

impl Default for SystemLoggerProperties {
    fn default() -> (it: Self)
        ensures
            it.is_default(),
    {
        SystemLoggerProperties {
            rate_hz: Float32 { bits: 0x3f80_0000 },
        }
    }
}

/// What a device reports of itself.
#[derive(Debug)]
pub struct SystemInfo {
    pub ddr_memory_usage: MemoryInfo,
    pub cmx_memory_usage: MemoryInfo,
    pub leon_css_memory_usage: MemoryInfo,
    pub leon_mss_memory_usage: MemoryInfo,
    pub leon_css_cpu_usage: CpuUsage,
    pub leon_mss_cpu_usage: CpuUsage,
    pub chip_temperature: ChipTemperature,
}

impl NotAny for SystemInfo {}

impl MetadataOnly for SystemInfo {}

impl StaticIoDesc for SystemInfo {
    open spec fn spec_static_name() -> Seq<char> {
        "out"@
    }

    open spec fn spec_static_type() -> NodeType {
        NodeType::MSender
    }

    fn static_name() -> (name: &'static str) {
        "out"
    }

    fn static_type() -> (ty: NodeType) {
        NodeType::MSender
    }
}

/// The node that reports how the device is doing.
pub struct SystemLogger;

impl Node for SystemLogger {
    type Input = Empty;

    type Output = Output<SystemInfo, RnopDeserializer>;

    type Properties = SystemLoggerProperties;

    open spec fn spec_name() -> Seq<char> {
        "SystemLogger"@
    }

    open spec fn spec_alias() -> Option<Seq<char>> {
        None
    }

    fn name() -> (name: &'static str) {
        "SystemLogger"
    }

    fn alias() -> (alias: Option<&'static str>) {
        None
    }
}

/// What is in a default `SystemLoggerProperties`, field by field.
pub proof fn system_logger_properties_defaults(it: SystemLoggerProperties)
    requires
        call_ensures(SystemLoggerProperties::default, (), it),
    ensures
        it.rate_hz.bits == 0x3f80_0000,
{
}

} // verus!
