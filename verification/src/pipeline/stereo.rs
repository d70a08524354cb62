//! Depth from stereo.

use vstd::prelude::*;

use super::camera::CameraFrame;
use super::desc::{
    IoDescConf, IoInfo, IoInfoView, IoRegister, MetadataOnly, NotAny, PortDesc, RnopDeserializer,
    RnopSerializer,
};
use super::node::{
    In, Input, InputRef, Inputs, Node, NodeT, Numbered, Out, Output, OutputRef, Outputs,
    StaticIoDesc,
};
use super::stereo_config::{StereoDepthConfig, StereoDepthProperties};
use crate::rpc::NodeType;

verus! {

impl NotAny for StereoDepthConfig {}

impl MetadataOnly for StereoDepthConfig {}

impl StaticIoDesc for In<StereoDepthConfig> {
    open spec fn spec_static_name() -> Seq<char> {
        "inputConfig"@
    }

    open spec fn spec_static_type() -> NodeType {
        NodeType::SReceiver
    }

    fn static_name() -> (name: &'static str) {
        "inputConfig"
    }

    fn static_type() -> (ty: NodeType) {
        NodeType::SReceiver
    }
}

impl StaticIoDesc for Out<StereoDepthConfig> {
    open spec fn spec_static_name() -> Seq<char> {
        "outConfig"@
    }

    open spec fn spec_static_type() -> NodeType {
        NodeType::MSender
    }

    fn static_name() -> (name: &'static str) {
        "outConfig"
    }

    fn static_type() -> (ty: NodeType) {
        NodeType::MSender
    }
}

impl StaticIoDesc for Numbered<CameraFrame, 0> {
    open spec fn spec_static_name() -> Seq<char> {
        "inputAlignTo"@
    }

    open spec fn spec_static_type() -> NodeType {
        NodeType::SReceiver
    }

    fn static_name() -> (name: &'static str) {
        "inputAlignTo"
    }

    fn static_type() -> (ty: NodeType) {
        NodeType::SReceiver
    }
}

impl StaticIoDesc for Numbered<CameraFrame, 1> {
    open spec fn spec_static_name() -> Seq<char> {
        "left"@
    }

    open spec fn spec_static_type() -> NodeType {
        NodeType::SReceiver
    }

    fn static_name() -> (name: &'static str) {
        "left"
    }

    fn static_type() -> (ty: NodeType) {
        NodeType::SReceiver
    }
}

impl StaticIoDesc for Numbered<CameraFrame, 2> {
    open spec fn spec_static_name() -> Seq<char> {
        "right"@
    }

    open spec fn spec_static_type() -> NodeType {
        NodeType::SReceiver
    }

    fn static_name() -> (name: &'static str) {
        "right"
    }

    fn static_type() -> (ty: NodeType) {
        NodeType::SReceiver
    }
}

impl StaticIoDesc for Numbered<CameraFrame, 3> {
    open spec fn spec_static_name() -> Seq<char> {
        "depth"@
    }

    open spec fn spec_static_type() -> NodeType {
        NodeType::MSender
    }

    fn static_name() -> (name: &'static str) {
        "depth"
    }

    fn static_type() -> (ty: NodeType) {
        NodeType::MSender
    }
}

impl StaticIoDesc for Numbered<CameraFrame, 4> {
    open spec fn spec_static_name() -> Seq<char> {
        "disparity"@
    }

    open spec fn spec_static_type() -> NodeType {
        NodeType::MSender
    }

    fn static_name() -> (name: &'static str) {
        "disparity"
    }

    fn static_type() -> (ty: NodeType) {
        NodeType::MSender
    }
}

impl StaticIoDesc for Numbered<CameraFrame, 5> {
    open spec fn spec_static_name() -> Seq<char> {
        "syncedLeft"@
    }

    open spec fn spec_static_type() -> NodeType {
        NodeType::MSender
    }

    fn static_name() -> (name: &'static str) {
        "syncedLeft"
    }

    fn static_type() -> (ty: NodeType) {
        NodeType::MSender
    }
}

impl StaticIoDesc for Numbered<CameraFrame, 6> {
    open spec fn spec_static_name() -> Seq<char> {
        "syncedRight"@
    }

    open spec fn spec_static_type() -> NodeType {
        NodeType::MSender
    }

    fn static_name() -> (name: &'static str) {
        "syncedRight"
    }

    fn static_type() -> (ty: NodeType) {
        NodeType::MSender
    }
}

impl StaticIoDesc for Numbered<CameraFrame, 7> {
    open spec fn spec_static_name() -> Seq<char> {
        "rectifiedLeft"@
    }

    open spec fn spec_static_type() -> NodeType {
        NodeType::MSender
    }

    fn static_name() -> (name: &'static str) {
        "rectifiedLeft"
    }

    fn static_type() -> (ty: NodeType) {
        NodeType::MSender
    }
}

impl StaticIoDesc for Numbered<CameraFrame, 8> {
    open spec fn spec_static_name() -> Seq<char> {
        "rectifiedRight"@
    }

    open spec fn spec_static_type() -> NodeType {
        NodeType::MSender
    }

    fn static_name() -> (name: &'static str) {
        "rectifiedRight"
    }

    fn static_type() -> (ty: NodeType) {
        NodeType::MSender
    }
}

impl StaticIoDesc for Numbered<CameraFrame, 9> {
    open spec fn spec_static_name() -> Seq<char> {
        "debugDispLrCheckIt1"@
    }

    open spec fn spec_static_type() -> NodeType {
        NodeType::MSender
    }

    fn static_name() -> (name: &'static str) {
        "debugDispLrCheckIt1"
    }

    fn static_type() -> (ty: NodeType) {
        NodeType::MSender
    }
}

impl StaticIoDesc for Numbered<CameraFrame, 10> {
    open spec fn spec_static_name() -> Seq<char> {
        "debugDispLrCheckIt2"@
    }

    open spec fn spec_static_type() -> NodeType {
        NodeType::MSender
    }

    fn static_name() -> (name: &'static str) {
        "debugDispLrCheckIt2"
    }

    fn static_type() -> (ty: NodeType) {
        NodeType::MSender
    }
}

impl StaticIoDesc for Numbered<CameraFrame, 11> {
    open spec fn spec_static_name() -> Seq<char> {
        "debugExtDispLrCheckIt1"@
    }

    open spec fn spec_static_type() -> NodeType {
        NodeType::MSender
    }

    fn static_name() -> (name: &'static str) {
        "debugExtDispLrCheckIt1"
    }

    fn static_type() -> (ty: NodeType) {
        NodeType::MSender
    }
}

impl StaticIoDesc for Numbered<CameraFrame, 12> {
    open spec fn spec_static_name() -> Seq<char> {
        "debugExtDispLrCheckIt2"@
    }

    open spec fn spec_static_type() -> NodeType {
        NodeType::MSender
    }

    fn static_name() -> (name: &'static str) {
        "debugExtDispLrCheckIt2"
    }

    fn static_type() -> (ty: NodeType) {
        NodeType::MSender
    }
}

impl StaticIoDesc for Numbered<CameraFrame, 13> {
    open spec fn spec_static_name() -> Seq<char> {
        "debugDispCostDump"@
    }

    open spec fn spec_static_type() -> NodeType {
        NodeType::MSender
    }

    fn static_name() -> (name: &'static str) {
        "debugDispCostDump"
    }

    fn static_type() -> (ty: NodeType) {
        NodeType::MSender
    }
}

impl StaticIoDesc for Numbered<CameraFrame, 14> {
    open spec fn spec_static_name() -> Seq<char> {
        "confidenceMap"@
    }

    open spec fn spec_static_type() -> NodeType {
        NodeType::MSender
    }

    fn static_name() -> (name: &'static str) {
        "confidenceMap"
    }

    fn static_type() -> (ty: NodeType) {
        NodeType::MSender
    }
}

/// To register one more of a list is to push it.
proof fn registered_prefix(start: IoInfoView, ports: Seq<PortDesc>, n: int)
    requires
        0 <= n < ports.len(),
    ensures
        start.registered(ports.take(n + 1)) == start.registered(ports.take(n)).registered(
            seq![ports[n]],
        ),
{
    assert(ports.take(n + 1) =~= ports.take(n) + seq![ports[n]]);
    start.registered_in_turn(ports.take(n), seq![ports[n]]);
}

/// What depth is computed from.
pub struct StereoDepthInputs {
    pub input_config: Input<In<StereoDepthConfig>, RnopSerializer>,
    pub input_align_to: Input<Numbered<CameraFrame, 0>, RnopSerializer>,
    pub left: Input<Numbered<CameraFrame, 1>, RnopSerializer>,
    pub right: Input<Numbered<CameraFrame, 2>, RnopSerializer>,
}

impl Default for StereoDepthInputs {
    fn default() -> (it: Self)
        ensures
            it.input_config.conf == IoDescConf::spec_default(),
            it.input_align_to.conf == IoDescConf::spec_default(),
            it.left.conf == IoDescConf::spec_default(),
            it.right.conf == IoDescConf::spec_default(),
    {
        StereoDepthInputs {
            input_config: Input::default(),
            input_align_to: Input::default(),
            left: Input::default(),
            right: Input::default(),
        }
    }
}

impl IoRegister for StereoDepthInputs {
    open spec fn ports(&self) -> Seq<PortDesc> {
        seq![
            self.input_config.port(),
            self.input_align_to.port(),
            self.left.port(),
            self.right.port(),
        ]
    }

    fn register<'a>(&'a self, info: &mut IoInfo<'a>) {
        proof {
            registered_prefix(old(info)@, self.ports(), 0);
            registered_prefix(old(info)@, self.ports(), 1);
            registered_prefix(old(info)@, self.ports(), 2);
            registered_prefix(old(info)@, self.ports(), 3);
            assert(self.ports().take(4) =~= self.ports());
            assert(self.ports().take(0) =~= Seq::empty());
            old(info)@.registered_count(self.ports().take(0));
            old(info)@.registered_count(self.ports().take(1));
            old(info)@.registered_count(self.ports().take(2));
            old(info)@.registered_count(self.ports().take(3));
            assert(self.input_config.ports() == seq![self.ports()[0]]);
            assert(self.input_align_to.ports() == seq![self.ports()[1]]);
            assert(self.left.ports() == seq![self.ports()[2]]);
            assert(self.right.ports() == seq![self.ports()[3]]);
        }
        self.input_config.register(info);
        self.input_align_to.register(info);
        self.left.register(info);
        self.right.register(info);
    }
}

/// The inputs of a node that computes depth.
pub struct StereoDepthInputRef<'a, N: Node> {
    pub input_config: InputRef<'a, N, In<StereoDepthConfig>, RnopSerializer>,
    pub input_align_to: InputRef<'a, N, Numbered<CameraFrame, 0>, RnopSerializer>,
    pub left: InputRef<'a, N, Numbered<CameraFrame, 1>, RnopSerializer>,
    pub right: InputRef<'a, N, Numbered<CameraFrame, 2>, RnopSerializer>,
}

impl<'a, N: Node + 'a> Inputs<'a, N> for StereoDepthInputs {
    type Inputs = StereoDepthInputRef<'a, N>;

    open spec fn spec_inputs(&'a self, node: &'a NodeT<N>) -> Self::Inputs {
        StereoDepthInputRef {
            input_config: self.input_config.spec_inputs(node),
            input_align_to: self.input_align_to.spec_inputs(node),
            left: self.left.spec_inputs(node),
            right: self.right.spec_inputs(node),
        }
    }

    fn inputs(&'a self, node: &'a NodeT<N>) -> (refs: Self::Inputs) {
        StereoDepthInputRef {
            input_config: self.input_config.inputs(node),
            input_align_to: self.input_align_to.inputs(node),
            left: self.left.inputs(node),
            right: self.right.inputs(node),
        }
    }
}

/// What comes of computing depth.
pub struct StereoDepthOutputs {
    pub depth: Output<Numbered<CameraFrame, 3>, RnopDeserializer>,
    pub disparity: Output<Numbered<CameraFrame, 4>, RnopDeserializer>,
    pub snyced_left: Output<Numbered<CameraFrame, 5>, RnopDeserializer>,
    pub synced_right: Output<Numbered<CameraFrame, 6>, RnopDeserializer>,
    pub rectified_left: Output<Numbered<CameraFrame, 7>, RnopDeserializer>,
    pub rectified_right: Output<Numbered<CameraFrame, 8>, RnopDeserializer>,
    pub config: Output<Out<StereoDepthConfig>, RnopDeserializer>,
    pub debug_lr_check_i1: Output<Numbered<CameraFrame, 9>, RnopDeserializer>,
    pub debug_lr_check_i2: Output<Numbered<CameraFrame, 10>, RnopDeserializer>,
    pub debug_ext_lr_check_i1: Output<Numbered<CameraFrame, 11>, RnopDeserializer>,
    pub debug_ext_lr_check_i2: Output<Numbered<CameraFrame, 12>, RnopDeserializer>,
    pub debug_cost_dump: Output<Numbered<CameraFrame, 13>, RnopDeserializer>,
    pub confidence_map: Output<Numbered<CameraFrame, 14>, RnopDeserializer>,
}

impl Default for StereoDepthOutputs {
    fn default() -> (it: Self)
        ensures
            it.depth.conf == IoDescConf::spec_default(),
            it.disparity.conf == IoDescConf::spec_default(),
            it.snyced_left.conf == IoDescConf::spec_default(),
            it.synced_right.conf == IoDescConf::spec_default(),
            it.rectified_left.conf == IoDescConf::spec_default(),
            it.rectified_right.conf == IoDescConf::spec_default(),
            it.config.conf == IoDescConf::spec_default(),
            it.debug_lr_check_i1.conf == IoDescConf::spec_default(),
            it.debug_lr_check_i2.conf == IoDescConf::spec_default(),
            it.debug_ext_lr_check_i1.conf == IoDescConf::spec_default(),
            it.debug_ext_lr_check_i2.conf == IoDescConf::spec_default(),
            it.debug_cost_dump.conf == IoDescConf::spec_default(),
            it.confidence_map.conf == IoDescConf::spec_default(),
    {
        StereoDepthOutputs {
            depth: Output::default(),
            disparity: Output::default(),
            snyced_left: Output::default(),
            synced_right: Output::default(),
            rectified_left: Output::default(),
            rectified_right: Output::default(),
            config: Output::default(),
            debug_lr_check_i1: Output::default(),
            debug_lr_check_i2: Output::default(),
            debug_ext_lr_check_i1: Output::default(),
            debug_ext_lr_check_i2: Output::default(),
            debug_cost_dump: Output::default(),
            confidence_map: Output::default(),
        }
    }
}

impl IoRegister for StereoDepthOutputs {
    open spec fn ports(&self) -> Seq<PortDesc> {
        seq![
            self.depth.port(),
            self.disparity.port(),
            self.snyced_left.port(),
            self.synced_right.port(),
            self.rectified_left.port(),
            self.rectified_right.port(),
            self.config.port(),
            self.debug_lr_check_i1.port(),
            self.debug_lr_check_i2.port(),
            self.debug_ext_lr_check_i1.port(),
            self.debug_ext_lr_check_i2.port(),
            self.debug_cost_dump.port(),
            self.confidence_map.port(),
        ]
    }

    fn register<'a>(&'a self, info: &mut IoInfo<'a>) {
        proof {
            registered_prefix(old(info)@, self.ports(), 0);
            registered_prefix(old(info)@, self.ports(), 1);
            registered_prefix(old(info)@, self.ports(), 2);
            registered_prefix(old(info)@, self.ports(), 3);
            registered_prefix(old(info)@, self.ports(), 4);
            registered_prefix(old(info)@, self.ports(), 5);
            registered_prefix(old(info)@, self.ports(), 6);
            registered_prefix(old(info)@, self.ports(), 7);
            registered_prefix(old(info)@, self.ports(), 8);
            registered_prefix(old(info)@, self.ports(), 9);
            registered_prefix(old(info)@, self.ports(), 10);
            registered_prefix(old(info)@, self.ports(), 11);
            registered_prefix(old(info)@, self.ports(), 12);
            assert(self.ports().take(13) =~= self.ports());
            assert(self.ports().take(0) =~= Seq::empty());
            old(info)@.registered_count(self.ports().take(0));
            old(info)@.registered_count(self.ports().take(1));
            old(info)@.registered_count(self.ports().take(2));
            old(info)@.registered_count(self.ports().take(3));
            old(info)@.registered_count(self.ports().take(4));
            old(info)@.registered_count(self.ports().take(5));
            old(info)@.registered_count(self.ports().take(6));
            old(info)@.registered_count(self.ports().take(7));
            old(info)@.registered_count(self.ports().take(8));
            old(info)@.registered_count(self.ports().take(9));
            old(info)@.registered_count(self.ports().take(10));
            old(info)@.registered_count(self.ports().take(11));
            old(info)@.registered_count(self.ports().take(12));
            assert(self.depth.ports() == seq![self.ports()[0]]);
            assert(self.disparity.ports() == seq![self.ports()[1]]);
            assert(self.snyced_left.ports() == seq![self.ports()[2]]);
            assert(self.synced_right.ports() == seq![self.ports()[3]]);
            assert(self.rectified_left.ports() == seq![self.ports()[4]]);
            assert(self.rectified_right.ports() == seq![self.ports()[5]]);
            assert(self.config.ports() == seq![self.ports()[6]]);
            assert(self.debug_lr_check_i1.ports() == seq![self.ports()[7]]);
            assert(self.debug_lr_check_i2.ports() == seq![self.ports()[8]]);
            assert(self.debug_ext_lr_check_i1.ports() == seq![self.ports()[9]]);
            assert(self.debug_ext_lr_check_i2.ports() == seq![self.ports()[10]]);
            assert(self.debug_cost_dump.ports() == seq![self.ports()[11]]);
            assert(self.confidence_map.ports() == seq![self.ports()[12]]);
        }
        self.depth.register(info);
        self.disparity.register(info);
        self.snyced_left.register(info);
        self.synced_right.register(info);
        self.rectified_left.register(info);
        self.rectified_right.register(info);
        self.config.register(info);
        self.debug_lr_check_i1.register(info);
        self.debug_lr_check_i2.register(info);
        self.debug_ext_lr_check_i1.register(info);
        self.debug_ext_lr_check_i2.register(info);
        self.debug_cost_dump.register(info);
        self.confidence_map.register(info);
    }
}

/// The outputs of a node that computes depth.
pub struct StereoDepthOutputRef<'a, N: Node> {
    pub depth: OutputRef<'a, N, Numbered<CameraFrame, 3>, RnopDeserializer>,
    pub disparity: OutputRef<'a, N, Numbered<CameraFrame, 4>, RnopDeserializer>,
    pub snyced_left: OutputRef<'a, N, Numbered<CameraFrame, 5>, RnopDeserializer>,
    pub synced_right: OutputRef<'a, N, Numbered<CameraFrame, 6>, RnopDeserializer>,
    pub rectified_left: OutputRef<'a, N, Numbered<CameraFrame, 7>, RnopDeserializer>,
    pub rectified_right: OutputRef<'a, N, Numbered<CameraFrame, 8>, RnopDeserializer>,
    pub config: OutputRef<'a, N, Out<StereoDepthConfig>, RnopDeserializer>,
    pub debug_lr_check_i1: OutputRef<'a, N, Numbered<CameraFrame, 9>, RnopDeserializer>,
    pub debug_lr_check_i2: OutputRef<'a, N, Numbered<CameraFrame, 10>, RnopDeserializer>,
    pub debug_ext_lr_check_i1: OutputRef<'a, N, Numbered<CameraFrame, 11>, RnopDeserializer>,
    pub debug_ext_lr_check_i2: OutputRef<'a, N, Numbered<CameraFrame, 12>, RnopDeserializer>,
    pub debug_cost_dump: OutputRef<'a, N, Numbered<CameraFrame, 13>, RnopDeserializer>,
    pub confidence_map: OutputRef<'a, N, Numbered<CameraFrame, 14>, RnopDeserializer>,
}

impl<'a, N: Node + 'a> Outputs<'a, N> for StereoDepthOutputs {
    type Outputs = StereoDepthOutputRef<'a, N>;

    open spec fn spec_outputs(&'a self, node: &'a NodeT<N>) -> Self::Outputs {
        StereoDepthOutputRef {
            depth: self.depth.spec_outputs(node),
            disparity: self.disparity.spec_outputs(node),
            snyced_left: self.snyced_left.spec_outputs(node),
            synced_right: self.synced_right.spec_outputs(node),
            rectified_left: self.rectified_left.spec_outputs(node),
            rectified_right: self.rectified_right.spec_outputs(node),
            config: self.config.spec_outputs(node),
            debug_lr_check_i1: self.debug_lr_check_i1.spec_outputs(node),
            debug_lr_check_i2: self.debug_lr_check_i2.spec_outputs(node),
            debug_ext_lr_check_i1: self.debug_ext_lr_check_i1.spec_outputs(node),
            debug_ext_lr_check_i2: self.debug_ext_lr_check_i2.spec_outputs(node),
            debug_cost_dump: self.debug_cost_dump.spec_outputs(node),
            confidence_map: self.confidence_map.spec_outputs(node),
        }
    }

    fn outputs(&'a self, node: &'a NodeT<N>) -> (refs: Self::Outputs) {
        StereoDepthOutputRef {
            depth: self.depth.outputs(node),
            disparity: self.disparity.outputs(node),
            snyced_left: self.snyced_left.outputs(node),
            synced_right: self.synced_right.outputs(node),
            rectified_left: self.rectified_left.outputs(node),
            rectified_right: self.rectified_right.outputs(node),
            config: self.config.outputs(node),
            debug_lr_check_i1: self.debug_lr_check_i1.outputs(node),
            debug_lr_check_i2: self.debug_lr_check_i2.outputs(node),
            debug_ext_lr_check_i1: self.debug_ext_lr_check_i1.outputs(node),
            debug_ext_lr_check_i2: self.debug_ext_lr_check_i2.outputs(node),
            debug_cost_dump: self.debug_cost_dump.outputs(node),
            confidence_map: self.confidence_map.outputs(node),
        }
    }
}

/// The node that computes depth from a stereo pair.
pub struct StereoDepth;

impl Node for StereoDepth {
    type Input = StereoDepthInputs;

    type Output = StereoDepthOutputs;

    type Properties = StereoDepthProperties;

    open spec fn spec_name() -> Seq<char> {
        "StereoDepth"@
    }

    open spec fn spec_alias() -> Option<Seq<char>> {
        None
    }

    fn name() -> (name: &'static str) {
        "StereoDepth"
    }

    fn alias() -> (alias: Option<&'static str>) {
        None
    }
}

} // verus!
