//! Nodes, and references to their inputs and outputs.

use core::marker::PhantomData;

use vstd::prelude::*;

use super::desc::{
    Deserializer, IoDescConf, IoDeserializeable, IoInfo, IoRegister, IoSerializeable, PortDesc,
    Serializer,
};
use crate::rpc::{LogLevel, NodeType};
use crate::text;

verus! {

/// What is known of a kind of input or output.
pub trait IoDesc {
    /// What has to be stored with an input or output to know it.
    type InfoStorage: Default;

    spec fn spec_name(this: &Self::InfoStorage) -> Seq<char>;

    spec fn spec_group() -> Option<Seq<char>>;

    spec fn spec_node_type(this: &Self::InfoStorage) -> NodeType;

    /// The name.
    fn name(this: &Self::InfoStorage) -> (name: &str)
        ensures
            name@ == Self::spec_name(this),
    ;

    /// The group, if there is one.
    fn group() -> (group: Option<&'static str>)
        ensures
            text::optional(group) == Self::spec_group(),
    ;

    /// Which way it goes, and to how many.
    fn node_type(this: &Self::InfoStorage) -> (ty: NodeType)
        ensures
            ty == Self::spec_node_type(this),
    ;
}

/// A kind of input or output of which everything is fixed. It has no group.
pub trait StaticIoDesc {
    spec fn spec_static_name() -> Seq<char>;

    spec fn spec_static_type() -> NodeType;

    /// The name.
    fn static_name() -> (name: &'static str)
        ensures
            name@ == Self::spec_static_name(),
    ;

    /// Which way it goes, and to how many.
    fn static_type() -> (ty: NodeType)
        ensures
            ty == Self::spec_static_type(),
    ;
}

impl<T: StaticIoDesc> IoDesc for T {
    type InfoStorage = ();

    open spec fn spec_name(this: &Self::InfoStorage) -> Seq<char> {
        T::spec_static_name()
    }

    open spec fn spec_group() -> Option<Seq<char>> {
        None
    }

    open spec fn spec_node_type(this: &Self::InfoStorage) -> NodeType {
        T::spec_static_type()
    }

    fn name(this: &Self::InfoStorage) -> (name: &str) {
        T::static_name()
    }

    fn group() -> (group: Option<&'static str>) {
        None
    }

    fn node_type(this: &Self::InfoStorage) -> (ty: NodeType) {
        T::static_type()
    }
}

/// An input that takes any message.
pub struct Any<I> {
    pub inner: I,
}

impl<S: Serializer, I> IoSerializeable<S> for Any<I> {
    type Metadata = ();

    type Output = Vec<u8>;
}

impl<T: IoDesc> IoDesc for Any<T> {
    type InfoStorage = T::InfoStorage;

    open spec fn spec_name(this: &Self::InfoStorage) -> Seq<char> {
        T::spec_name(this)
    }

    open spec fn spec_group() -> Option<Seq<char>> {
        T::spec_group()
    }

    open spec fn spec_node_type(this: &Self::InfoStorage) -> NodeType {
        T::spec_node_type(this)
    }

    fn name(this: &Self::InfoStorage) -> (name: &str) {
        T::name(this)
    }

    fn group() -> (group: Option<&'static str>) {
        T::group()
    }

    fn node_type(this: &Self::InfoStorage) -> (ty: NodeType) {
        T::node_type(this)
    }
}

/// A message that a node both takes and gives, as an input.
#[derive(Debug)]
pub struct In<T>(pub T);

/// A message that a node both takes and gives, as an output.
#[derive(Debug)]
pub struct Out<T>(pub T);

/// A message that a node takes or gives in several places, as the one of this number.
pub struct Numbered<T, const N: usize> {
    pub inner: T,
}

impl<S: Serializer, T: IoSerializeable<S>> IoSerializeable<S> for In<T> {
    type Metadata = T::Metadata;

    type Output = T::Output;
}

impl<D: Deserializer, T: IoDeserializeable<D>> IoDeserializeable<D> for Out<T> {
    type Metadata = T::Metadata;

    type Output = T::Output;
}

impl<D: Deserializer, T: IoDeserializeable<D>, const N: usize> IoDeserializeable<D> for Numbered<
    T,
    N,
> {
    type Metadata = T::Metadata;

    type Output = T::Output;
}

impl<S: Serializer, T: IoSerializeable<S>, const N: usize> IoSerializeable<S> for Numbered<T, N> {
    type Metadata = T::Metadata;

    type Output = T::Output;
}

/// A message of outputs that are made on request.
pub struct Dynamic<T> {
    pub _inner: PhantomData<T>,
}

impl<D: Deserializer, T: IoDeserializeable<D>> IoDeserializeable<D> for Dynamic<T> {
    type Metadata = T::Metadata;

    type Output = T::Output;
}

/// The name of an output that was made on request.
pub struct DynamicStorage {
    pub name: String,
}

impl Default for DynamicStorage {
    fn default() -> (storage: Self)
        ensures
            storage.name@ == Seq::<char>::empty(),
    {
        DynamicStorage { name: String::new() }
    }
}

/// A message whose outputs, where they are made on request, form a group.
pub trait DynamicGroup {
    spec fn spec_dynamic_group() -> Option<Seq<char>>;

    /// The group of the outputs.
    fn dynamic_group() -> (group: Option<&'static str>)
        ensures
            text::optional(group) == Self::spec_dynamic_group(),
    ;
}

impl<T: StaticIoDesc + DynamicGroup> IoDesc for Dynamic<T> {
    type InfoStorage = DynamicStorage;

    open spec fn spec_name(this: &Self::InfoStorage) -> Seq<char> {
        this.name@
    }

    open spec fn spec_group() -> Option<Seq<char>> {
        T::spec_dynamic_group()
    }

    open spec fn spec_node_type(this: &Self::InfoStorage) -> NodeType {
        T::spec_static_type()
    }

    fn name(this: &Self::InfoStorage) -> (name: &str) {
        this.name.as_str()
    }

    fn group() -> (group: Option<&'static str>) {
        T::dynamic_group()
    }

    fn node_type(this: &Self::InfoStorage) -> (ty: NodeType) {
        T::static_type()
    }
}

/// An input of a node.
pub struct Input<T: IoDesc + IoSerializeable<S>, S: Serializer> {
    pub input: T::InfoStorage,
    pub conf: IoDescConf,
    pub _pd: PhantomData<S>,
}

/// An output of a node.
pub struct Output<T: IoDesc + IoDeserializeable<D>, D: Deserializer> {
    pub output: T::InfoStorage,
    pub conf: IoDescConf,
    pub _pd: PhantomData<D>,
}

impl<T: IoDesc + IoSerializeable<S>, S: Serializer> Default for Input<T, S> {
    fn default() -> (input: Self)
        ensures
            call_ensures(<T::InfoStorage as Default>::default, (), input.input),
            input.conf == IoDescConf::spec_default(),
    {
        Input { input: Default::default(), conf: IoDescConf::default(), _pd: PhantomData }
    }
}

impl<T: IoDesc + IoDeserializeable<D>, D: Deserializer> Default for Output<T, D> {
    fn default() -> (output: Self)
        ensures
            call_ensures(<T::InfoStorage as Default>::default, (), output.output),
            output.conf == IoDescConf::spec_default(),
    {
        Output { output: Default::default(), conf: IoDescConf::default(), _pd: PhantomData }
    }
}

impl<T: StaticIoDesc + IoSerializeable<S>, S: Serializer> StaticIoDesc for Input<T, S> {
    open spec fn spec_static_name() -> Seq<char> {
        T::spec_static_name()
    }

    open spec fn spec_static_type() -> NodeType {
        T::spec_static_type()
    }

    fn static_name() -> (name: &'static str) {
        T::static_name()
    }

    fn static_type() -> (ty: NodeType) {
        T::static_type()
    }
}

impl<T: StaticIoDesc + IoDeserializeable<D>, D: Deserializer> StaticIoDesc for Output<T, D> {
    open spec fn spec_static_name() -> Seq<char> {
        T::spec_static_name()
    }

    open spec fn spec_static_type() -> NodeType {
        T::spec_static_type()
    }

    fn static_name() -> (name: &'static str) {
        T::static_name()
    }

    fn static_type() -> (ty: NodeType) {
        T::static_type()
    }
}

impl<T: IoDesc + IoSerializeable<S>, S: Serializer> Input<T, S> {
    /// What is registered of the input.
    pub open spec fn port(&self) -> PortDesc {
        PortDesc {
            name: (T::spec_group(), T::spec_name(&self.input)),
            ty: T::spec_node_type(&self.input),
            conf: self.conf,
        }
    }

    /// The name of the input.
    pub fn name(&self) -> (name: &str)
        ensures
            name@ == self.port().name.1,
    {
        T::name(&self.input)
    }

    /// The group of the input, if it has one.
    pub fn group(&self) -> (group: Option<&'static str>)
        ensures
            text::optional(group) == self.port().name.0,
    {
        T::group()
    }

    /// Which way the input goes, and to how many.
    pub fn node_type(&self) -> (ty: NodeType)
        ensures
            ty == self.port().ty,
    {
        T::node_type(&self.input)
    }
}

impl<T: IoDesc + IoDeserializeable<D>, D: Deserializer> Output<T, D> {
    /// What is registered of the output.
    pub open spec fn port(&self) -> PortDesc {
        PortDesc {
            name: (T::spec_group(), T::spec_name(&self.output)),
            ty: T::spec_node_type(&self.output),
            conf: self.conf,
        }
    }

    /// The name of the output.
    pub fn name(&self) -> (name: &str)
        ensures
            name@ == self.port().name.1,
    {
        T::name(&self.output)
    }

    /// The group of the output, if it has one.
    pub fn group(&self) -> (group: Option<&'static str>)
        ensures
            text::optional(group) == self.port().name.0,
    {
        T::group()
    }

    /// Which way the output goes, and to how many.
    pub fn node_type(&self) -> (ty: NodeType)
        ensures
            ty == self.port().ty,
    {
        T::node_type(&self.output)
    }
}

impl<T: IoDesc + IoSerializeable<S>, S: Serializer> IoRegister for Input<T, S> {
    open spec fn ports(&self) -> Seq<PortDesc> {
        seq![self.port()]
    }

    fn register<'a>(&'a self, info: &mut IoInfo<'a>) {
        proof {
            old(info)@.registered_one(self.port());
        }
        info.push(self.group(), self.name(), self.node_type(), &self.conf);
    }
}

impl<T: IoDesc + IoDeserializeable<D>, D: Deserializer> IoRegister for Output<T, D> {
    open spec fn ports(&self) -> Seq<PortDesc> {
        seq![self.port()]
    }

    fn register<'a>(&'a self, info: &mut IoInfo<'a>) {
        proof {
            old(info)@.registered_one(self.port());
        }
        info.push(self.group(), self.name(), self.node_type(), &self.conf);
    }
}

/// No inputs, or no outputs.
pub struct Empty;

impl Default for Empty {
    fn default() -> (it: Self) {
        Empty
    }
}

impl IoRegister for Empty {
    open spec fn ports(&self) -> Seq<PortDesc> {
        Seq::empty()
    }

    fn register<'a>(&'a self, info: &mut IoInfo<'a>) {
    }
}

/// A kind of node.
pub trait Node {
    type Input: IoRegister + Default;

    type Output: IoRegister + Default;

    type Properties: Default;

    spec fn spec_name() -> Seq<char>;

    spec fn spec_alias() -> Option<Seq<char>>;

    /// What nodes of the kind are called by the device.
    fn name() -> (name: &'static str)
        ensures
            name@ == Self::spec_name(),
    ;

    /// Another name for nodes of the kind, if they have one.
    fn alias() -> (alias: Option<&'static str>)
        ensures
            text::optional(alias) == Self::spec_alias(),
    ;
}

/// A node of a pipeline.
pub struct NodeT<P: Node> {
    pub log_level: LogLevel,
    pub properties: P::Properties,
    pub _m: PhantomData<P>,
    pub input: P::Input,
    pub output: P::Output,
    pub id: u32,
}

/// Inputs that can be referred to as those of a node.
pub trait Inputs<'a, N: Node> {
    /// What refers to them.
    type Inputs;

    spec fn spec_inputs(&'a self, node: &'a NodeT<N>) -> Self::Inputs;

    /// The references to the inputs as those of `node`.
    fn inputs(&'a self, node: &'a NodeT<N>) -> (refs: Self::Inputs)
        ensures
            refs == self.spec_inputs(node),
    ;
}

/// Outputs that can be referred to as those of a node.
pub trait Outputs<'a, N: Node> {
    /// What refers to them.
    type Outputs;

    spec fn spec_outputs(&'a self, node: &'a NodeT<N>) -> Self::Outputs;

    /// The references to the outputs as those of `node`.
    fn outputs(&'a self, node: &'a NodeT<N>) -> (refs: Self::Outputs)
        ensures
            refs == self.spec_outputs(node),
    ;
}

/// An input of a node that is known.
#[derive(Clone, Copy)]
pub struct InputRef<'a, P: Node, T: IoDesc + IoSerializeable<S>, S: Serializer> {
    pub node: &'a NodeT<P>,
    pub input: &'a Input<T, S>,
}

/// An output of a node that is known.
#[derive(Clone, Copy)]
pub struct OutputRef<'a, P: Node, T: IoDesc + IoDeserializeable<D>, D: Deserializer> {
    pub node: &'a NodeT<P>,
    pub output: &'a Output<T, D>,
}

impl<'a, N: Node + 'a> Inputs<'a, N> for Empty {
    type Inputs = ();

    open spec fn spec_inputs(&'a self, node: &'a NodeT<N>) -> Self::Inputs {
        ()
    }

    fn inputs(&'a self, node: &'a NodeT<N>) -> (refs: Self::Inputs) {
    }
}

impl<'a, N: Node + 'a> Outputs<'a, N> for Empty {
    type Outputs = ();

    open spec fn spec_outputs(&'a self, node: &'a NodeT<N>) -> Self::Outputs {
        ()
    }

    fn outputs(&'a self, node: &'a NodeT<N>) -> (refs: Self::Outputs) {
    }
}

impl<
    'a,
    N: Node + 'a,
    T: IoDesc + IoSerializeable<S> + 'a,
    S: Serializer + 'a,
> Inputs<'a, N> for Input<T, S> {
    type Inputs = InputRef<'a, N, T, S>;

    open spec fn spec_inputs(&'a self, node: &'a NodeT<N>) -> Self::Inputs {
        InputRef { node, input: self }
    }

    fn inputs(&'a self, node: &'a NodeT<N>) -> (refs: Self::Inputs) {
        InputRef { node, input: self }
    }
}

impl<
    'a,
    N: Node + 'a,
    T: IoDesc + IoDeserializeable<D> + 'a,
    D: Deserializer + 'a,
> Outputs<'a, N> for Output<T, D> {
    type Outputs = OutputRef<'a, N, T, D>;

    open spec fn spec_outputs(&'a self, node: &'a NodeT<N>) -> Self::Outputs {
        OutputRef { node, output: self }
    }

    fn outputs(&'a self, node: &'a NodeT<N>) -> (refs: Self::Outputs) {
        OutputRef { node, output: self }
    }
}

impl<'a, N: Node + 'a, I1: Inputs<'a, N>, I2: Inputs<'a, N>> Inputs<'a, N> for (I1, I2) {
    type Inputs = (I1::Inputs, I2::Inputs);

    open spec fn spec_inputs(&'a self, node: &'a NodeT<N>) -> Self::Inputs {
        (self.0.spec_inputs(node), self.1.spec_inputs(node))
    }

    fn inputs(&'a self, node: &'a NodeT<N>) -> (refs: Self::Inputs) {
        (self.0.inputs(node), self.1.inputs(node))
    }
}

impl<'a, N: Node + 'a, O1: Outputs<'a, N>, O2: Outputs<'a, N>> Outputs<'a, N> for (O1, O2) {
    type Outputs = (O1::Outputs, O2::Outputs);

    open spec fn spec_outputs(&'a self, node: &'a NodeT<N>) -> Self::Outputs {
        (self.0.spec_outputs(node), self.1.spec_outputs(node))
    }

    fn outputs(&'a self, node: &'a NodeT<N>) -> (refs: Self::Outputs) {
        (self.0.outputs(node), self.1.outputs(node))
    }
}

impl<'a, N: Node + 'a, T: Inputs<'a, N>> Inputs<'a, N> for In<T> {
    type Inputs = T::Inputs;

    open spec fn spec_inputs(&'a self, node: &'a NodeT<N>) -> Self::Inputs {
        self.0.spec_inputs(node)
    }

    fn inputs(&'a self, node: &'a NodeT<N>) -> (refs: Self::Inputs) {
        self.0.inputs(node)
    }
}

impl<'a, N: Node + 'a, T: Outputs<'a, N>> Outputs<'a, N> for Out<T> {
    type Outputs = T::Outputs;

    open spec fn spec_outputs(&'a self, node: &'a NodeT<N>) -> Self::Outputs {
        self.0.spec_outputs(node)
    }

    fn outputs(&'a self, node: &'a NodeT<N>) -> (refs: Self::Outputs) {
        self.0.outputs(node)
    }
}

impl<'a, N: Node + 'a, T: Inputs<'a, N>, const C: usize> Inputs<'a, N> for Numbered<T, C> {
    type Inputs = T::Inputs;

    open spec fn spec_inputs(&'a self, node: &'a NodeT<N>) -> Self::Inputs {
        self.inner.spec_inputs(node)
    }

    fn inputs(&'a self, node: &'a NodeT<N>) -> (refs: Self::Inputs) {
        self.inner.inputs(node)
    }
}

impl<'a, N: Node + 'a, T: Outputs<'a, N>, const C: usize> Outputs<'a, N> for Numbered<T, C> {
    type Outputs = T::Outputs;

    open spec fn spec_outputs(&'a self, node: &'a NodeT<N>) -> Self::Outputs {
        self.inner.spec_outputs(node)
    }

    fn outputs(&'a self, node: &'a NodeT<N>) -> (refs: Self::Outputs) {
        self.inner.outputs(node)
    }
}

/// The outputs of a list, one after the other.
pub struct OutputRefIter<'a, T: IoDeserializeable<D> + IoDesc, D: Deserializer, N: Node> {
    pub items: &'a Vec<Output<T, D>>,
    pub next: usize,
    pub node: &'a NodeT<N>,
}

impl<'a, T: IoDeserializeable<D> + IoDesc, D: Deserializer, N: Node> OutputRefIter<'a, T, D, N> {
    /// The next output, if any is left.
    pub fn next(&mut self) -> (output: Option<OutputRef<'a, N, T, D>>)
        ensures
            final(self).items == old(self).items,
            final(self).node == old(self).node,
            match output {
                Some(output) => {
                    &&& old(self).next < old(self).items@.len()
                    &&& output.node == old(self).node
                    &&& output.output == old(self).items@[old(self).next as int]
                    &&& final(self).next == old(self).next + 1
                },
                None => {
                    &&& old(self).next >= old(self).items@.len()
                    &&& final(self).next == old(self).next
                },
            },
    {
        if self.next >= self.items.len() {
            return None;
        }
        let output = &self.items[self.next];
        self.next = self.next + 1;
        Some(OutputRef { node: self.node, output })
    }
}

impl<
    'a,
    N: Node + 'a,
    T: IoDesc + IoDeserializeable<D> + 'a,
    D: Deserializer + 'a,
> Outputs<'a, N> for Vec<Output<T, D>> {
    type Outputs = OutputRefIter<'a, T, D, N>;

    open spec fn spec_outputs(&'a self, node: &'a NodeT<N>) -> Self::Outputs {
        OutputRefIter { items: self, next: 0, node }
    }

    fn outputs(&'a self, node: &'a NodeT<N>) -> (refs: Self::Outputs) {
        OutputRefIter { items: self, next: 0, node }
    }
}

impl<P: Node> NodeT<P> {
    /// The inputs of the node.
    pub fn input<'a>(&'a self) -> (refs: <P::Input as Inputs<'a, P>>::Inputs) where
        P::Input: Inputs<'a, P>,

        ensures
            refs == self.input.spec_inputs(self),
    {
        self.input.inputs(self)
    }

    /// The outputs of the node.
    pub fn output<'a>(&'a self) -> (refs: <P::Output as Outputs<'a, P>>::Outputs) where
        P::Output: Outputs<'a, P>,

        ensures
            refs == self.output.spec_outputs(self),
    {
        self.output.outputs(self)
    }

    /// The properties of the node.
    pub fn properties(&self) -> (properties: &P::Properties)
        ensures
            *properties == self.properties,
    {
        &self.properties
    }

    /// The properties of the node, to be changed.
    pub fn properties_mut(&mut self) -> (properties: &mut P::Properties)
        ensures
            *properties == old(self).properties,
            final(self).properties == *final(properties),
            final(self).log_level == old(self).log_level,
            final(self).input == old(self).input,
            final(self).output == old(self).output,
            final(self).id == old(self).id,
    {
        &mut self.properties
    }
}

} // verus!
