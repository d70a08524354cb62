//! Streaming an output to the host.

use vstd::prelude::*;

use super::desc::AnySerializer;
use super::node::{Any, Empty, Input, Node, StaticIoDesc};
use crate::float::Float32;
use crate::rpc::NodeType;

verus! {

/// How an output is streamed to the host.
#[derive(Debug)]
pub struct XLinkOutProperties {
    pub max_fps_limit: Float32,
    pub stream_name: String,
    pub metadata_only: bool,
    pub packet_size: i32,
    pub bytes_per_second: i32,
}

impl XLinkOutProperties {
    /// Whether everything is as it is unless set.
    pub open spec fn is_default(&self) -> bool {
        &&& self.max_fps_limit.bits == 0xbf80_0000
        &&& self.stream_name@ == Seq::<char>::empty()
        &&& !self.metadata_only
        &&& self.packet_size == -1
        &&& self.bytes_per_second == -1
    }
}

impl Default for XLinkOutProperties {
    fn default() -> (it: Self)
        ensures
            it.is_default(),
    {
        XLinkOutProperties {
            max_fps_limit: Float32 { bits: 0xbf80_0000 },
            stream_name: String::new(),
            metadata_only: false,
            packet_size: -1,
            bytes_per_second: -1,
        }
    }
}

/// What is streamed.
pub struct XLI;

impl StaticIoDesc for XLI {
    open spec fn spec_static_name() -> Seq<char> {
        "in"@
    }

    open spec fn spec_static_type() -> NodeType {
        NodeType::SReceiver
    }

    fn static_name() -> (name: &'static str) {
        "in"
    }

    fn static_type() -> (ty: NodeType) {
        NodeType::SReceiver
    }
}

/// The node that streams an output to the host.
pub struct XLinkOut;

impl Node for XLinkOut {
    type Input = Input<Any<XLI>, AnySerializer>;

    type Output = Empty;

    type Properties = XLinkOutProperties;

    open spec fn spec_name() -> Seq<char> {
        "XLinkOut"@
    }

    open spec fn spec_alias() -> Option<Seq<char>> {
        None
    }

    fn name() -> (name: &'static str) {
        "XLinkOut"
    }

    fn alias() -> (alias: Option<&'static str>) {
        None
    }
}

/// What is in a default `XLinkOutProperties`, field by field.
pub proof fn x_link_out_properties_defaults(it: XLinkOutProperties)
    requires
        call_ensures(XLinkOutProperties::default, (), it),
    ensures
        it.max_fps_limit.bits == 0xbf80_0000,
        it.stream_name@ == Seq::<char>::empty(),
        !it.metadata_only,
        it.packet_size == -1,
        it.bytes_per_second == -1,
{
}

} // verus!
