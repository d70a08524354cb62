//! Values as calls carry them, written as MessagePack.

use rmpv::Value;
use vstd::prelude::*;

use crate::float::{Float32, Float64};

verus! {

/// A value that can be sent or received.
#[derive(Debug)]
pub enum Datum {
    Nil,
    Boolean(bool),
    /// A number that is not negative.
    Unsigned(u64),
    /// A negative number.
    Negative(i64),
    Single(Float32),
    Double(Float64),
    Text(String),
    /// What was sent as text and is none.
    NoText(Vec<u8>),
    Binary(Vec<u8>),
    Array(Vec<Datum>),
    Pairs(Vec<(Datum, Datum)>),
    Extension(i8, Vec<u8>),
}

/// What a value stands for.
pub enum Tree {
    Nil,
    Boolean(bool),
    Unsigned(u64),
    Negative(i64),
    Single(Float32),
    Double(Float64),
    Text(Seq<char>),
    NoText(Seq<u8>),
    Binary(Seq<u8>),
    Array(Seq<Tree>),
    Pairs(Seq<(Tree, Tree)>),
    Extension(i8, Seq<u8>),
}

impl View for Datum {
    type V = Tree;

    open spec fn view(&self) -> Tree
        decreases self,
    {
        match *self {
            Datum::Nil => Tree::Nil,
            Datum::Boolean(b) => Tree::Boolean(b),
            Datum::Unsigned(n) => Tree::Unsigned(n),
            Datum::Negative(n) => Tree::Negative(n),
            Datum::Single(x) => Tree::Single(x),
            Datum::Double(x) => Tree::Double(x),
            Datum::Text(text) => Tree::Text(text@),
            Datum::NoText(bytes) => Tree::NoText(bytes@),
            Datum::Binary(bytes) => Tree::Binary(bytes@),
            Datum::Array(items) => Tree::Array(trees(items@)),
            Datum::Pairs(pairs) => Tree::Pairs(pair_trees(pairs@)),
            Datum::Extension(ty, bytes) => Tree::Extension(ty, bytes@),
        }
    }
}

/// What each of a list of values stands for.
pub open spec fn trees(items: Seq<Datum>) -> Seq<Tree>
    decreases items,
{
    Seq::new(
        items.len(),
        |i: int|
            if 0 <= i < items.len() {
                items[i]@
            } else {
                Tree::Nil
            },
    )
}

/// What each of a list of pairs of values stands for.
pub open spec fn pair_trees(pairs: Seq<(Datum, Datum)>) -> Seq<(Tree, Tree)>
    decreases pairs,
{
    Seq::new(
        pairs.len(),
        |i: int|
            if 0 <= i < pairs.len() {
                (pairs[i].0@, pairs[i].1@)
            } else {
                (Tree::Nil, Tree::Nil)
            },
    )
}

impl Datum {
    /// A number of either sign.
    pub fn number(n: i64) -> (value: Self)
        ensures
            value@ == (if n < 0 {
                Tree::Negative(n)
            } else {
                Tree::Unsigned(n as u64)
            }),
    {
        if n < 0 {
            Datum::Negative(n)
        } else {
            Datum::Unsigned(n as u64)
        }
    }
}

/// Whether a value can be written: negative numbers are negative, and what was sent as text is
/// text.
pub open spec fn can_be_written(tree: Tree) -> bool
    decreases tree,
{
    match tree {
        Tree::Negative(n) => n < 0,
        Tree::NoText(_) => false,
        Tree::Array(items) => forall|i: int| 0 <= i < items.len() ==> can_be_written(items[i]),
        Tree::Pairs(pairs) => forall|i: int|
            0 <= i < pairs.len() ==> can_be_written(pairs[i].0) && can_be_written(pairs[i].1),
        _ => true,
    }
}

/// Whether a value is read back as it was written: it can be written, it is nested no deeper
/// than `depth`, nothing in it is longer than the format can say, and every floating-point
/// number in it is a number.
pub open spec fn can_be_read_back(tree: Tree, depth: nat) -> bool
    decreases tree,
{
    match tree {
        Tree::Negative(n) => n < 0,
        Tree::Single(x) => !x.is_nan(),
        Tree::Double(x) => !x.is_nan(),
        Tree::Text(text) => vstd::utf8::encode_utf8(text).len() <= u32::MAX,
        Tree::NoText(_) => false,
        Tree::Binary(bytes) => bytes.len() <= u32::MAX,
        Tree::Array(items) => depth > 0 && items.len() <= u32::MAX && forall|i: int|
            0 <= i < items.len() ==> can_be_read_back(items[i], (depth - 1) as nat),
        Tree::Pairs(pairs) => depth > 0 && pairs.len() <= u32::MAX && forall|i: int|
            0 <= i < pairs.len() ==> can_be_read_back(pairs[i].0, (depth - 1) as nat)
                && can_be_read_back(pairs[i].1, (depth - 1) as nat),
        Tree::Extension(_, bytes) => bytes.len() <= u32::MAX,
        _ => true,
    }
}

/// A value in memory as `rmpv` holds it.
#[verifier::external_type_specification]
#[verifier::external_body]
pub struct ExRmpvValue(rmpv::Value);

/// What reading a value can fail with.
#[verifier::external_type_specification]
#[verifier::external_body]
pub struct ExDecodeError(rmpv::decode::Error);

/// What a value of `rmpv` holds.
pub uninterp spec fn held(value: rmpv::Value) -> Tree;

/// What the bytes of a value are when `rmpv` writes it.
pub uninterp spec fn written(tree: Tree) -> Seq<u8>;

/// What `rmpv` reads from bytes, if they begin with a value.
pub uninterp spec fn read(bytes: Seq<u8>) -> Option<Tree>;

/// A value of `rmpv`, one level of it taken apart.
pub(crate) enum Level {
    Nil,
    Boolean(bool),
    /// A number as far as it fits either type.
    Number(Option<u64>, Option<i64>),
    Single(u32),
    Double(u64),
    Text(String),
    NoText(Vec<u8>),
    Binary(Vec<u8>),
    Array(Vec<rmpv::Value>),
    Pairs(Vec<(rmpv::Value, rmpv::Value)>),
    Extension(i8, Vec<u8>),
}

/// What a value that was taken apart holds.
pub(crate) open spec fn held_by(level: Level) -> Tree {
    match level {
        Level::Nil => Tree::Nil,
        Level::Boolean(b) => Tree::Boolean(b),
        Level::Number(Some(n), _) => Tree::Unsigned(n),
        Level::Number(None, Some(n)) => Tree::Negative(n),
        Level::Number(None, None) => Tree::Nil,
        Level::Single(bits) => Tree::Single(Float32 { bits }),
        Level::Double(bits) => Tree::Double(Float64 { bits }),
        Level::Text(text) => Tree::Text(text@),
        Level::NoText(bytes) => Tree::NoText(bytes@),
        Level::Binary(bytes) => Tree::Binary(bytes@),
        Level::Array(items) => Tree::Array(
            Seq::new(items@.len(), |i: int| held(items@[i])),
        ),
        Level::Pairs(pairs) => Tree::Pairs(
            Seq::new(pairs@.len(), |i: int| (held(pairs@[i].0), held(pairs@[i].1))),
        ),
        Level::Extension(ty, bytes) => Tree::Extension(ty, bytes@),
    }
}

/// Takes apart one level of an `rmpv::Value` by its variants. `rmpv::Integer` hides its own:
/// `as_u64` gives the number unless it is negative, and `as_i64` gives it if it is. So does
/// `rmpv::Utf8String`: `into_str` gives the text if `is_str`, and `into_bytes` what is none.
#[verifier::external_body]
fn open(value: rmpv::Value) -> (level: Level)
    ensures
        held_by(level) == held(value),
        !(level matches Level::Number(None, None)),
{
    match value {
        Value::Nil => Level::Nil,
        Value::Boolean(b) => Level::Boolean(b),
        Value::Integer(n) => Level::Number(n.as_u64(), n.as_i64()),
        Value::F32(x) => Level::Single(x.to_bits()),
        Value::F64(x) => Level::Double(x.to_bits()),
        Value::String(s) if s.is_str() => Level::Text(s.into_str().unwrap()),
        Value::String(s) => Level::NoText(s.into_bytes()),
        Value::Binary(bytes) => Level::Binary(bytes),
        Value::Array(items) => Level::Array(items),
        Value::Map(pairs) => Level::Pairs(pairs),
        Value::Ext(ty, bytes) => Level::Extension(ty, bytes),
    }
}

/// Puts one level of an `rmpv::Value` together by its variants. Text that is none cannot be put
/// into one, and of an `i64` that is not negative `rmpv::Value::from` makes the same number as of
/// a `u64`.
#[verifier::external_body]
fn close(level: Level) -> (value: rmpv::Value)
    requires
        !(level is NoText),
        level matches Level::Number(None, n) ==> n matches Some(n) && n < 0,
    ensures
        held(value) == held_by(level),
{
    match level {
        Level::Nil => Value::Nil,
        Level::Boolean(b) => Value::Boolean(b),
        Level::Number(Some(n), _) => Value::from(n),
        Level::Number(None, n) => Value::from(n.unwrap()),
        Level::Single(bits) => Value::F32(bytemuck::cast(bits)),
        Level::Double(bits) => Value::F64(bytemuck::cast(bits)),
        Level::Text(text) => Value::from(text),
        Level::NoText(bytes) | Level::Binary(bytes) => Value::Binary(bytes),
        Level::Array(items) => Value::Array(items),
        Level::Pairs(pairs) => Value::Map(pairs),
        Level::Extension(ty, bytes) => Value::Ext(ty, bytes),
    }
}

/// `rmpv::encode::write_value` into a vector, which takes all that is written. Of values that
/// are not nested too deep, hold nothing too long for the format and no floating-point number
/// that is not one, `rmpv::decode::read_value` gives back what was written. It goes 1024 calls
/// deep, two for every array or map and up to three for what they hold.
#[verifier::external_body]
fn write_value(value: &rmpv::Value) -> (bytes: Vec<u8>)
    ensures
        bytes@ == written(held(*value)),
        can_be_read_back(held(*value), 510) ==> read(bytes@) == Some(held(*value)),
{
    let mut bytes = Vec::new();
    rmpv::encode::write_value(&mut bytes, value).unwrap();
    bytes
}

/// `rmpv::decode::read_value`: what the bytes begin with, if it is a value. Bytes behind it are
/// left alone.
#[verifier::external_body]
fn read_value(bytes: &[u8]) -> (value: Result<rmpv::Value, rmpv::decode::Error>)
    ensures
        match value {
            Ok(value) => read(bytes@) == Some(held(value)),
            Err(_) => read(bytes@) is None,
        },
{
    let mut bytes = bytes;
    rmpv::decode::read_value(&mut bytes)
}

fn lift(value: rmpv::Value) -> (lifted: Datum)
    ensures
        lifted@ == held(value),
    decreases held(value),
{
    match open(value) {
        Level::Nil => Datum::Nil,
        Level::Boolean(b) => Datum::Boolean(b),
        Level::Number(Some(n), _) => Datum::Unsigned(n),
        Level::Number(None, Some(n)) => Datum::Negative(n),
        Level::Number(None, None) => Datum::Nil,
        Level::Single(bits) => Datum::Single(Float32 { bits }),
        Level::Double(bits) => Datum::Double(Float64 { bits }),
        Level::Text(text) => Datum::Text(text),
        Level::NoText(bytes) => Datum::NoText(bytes),
        Level::Binary(bytes) => Datum::Binary(bytes),
        Level::Extension(ty, bytes) => Datum::Extension(ty, bytes),
        Level::Array(items) => {
            let ghost whole = held(value);
            let ghost all = items@;
            let mut lifted: Vec<Datum> = Vec::new();
            for item in it: items
                invariant
                    it.seq() == all,
                    whole is Array,
                    whole->Array_0 == Seq::new(all.len(), |i: int| held(all[i])),
                    whole == held(value),
                    lifted@.len() == it.index(),
                    forall|i: int|
                        0 <= i < lifted@.len() ==> (#[trigger] lifted@[i])@ == held(all[i]),
            {
                proof {
                    let at = it.index() as int;
                    assert(item == all[at]);
                    assert(whole->Array_0[at] == held(item));
                    assert(decreases_to!(whole => whole->Array_0[at]));
                }
                lifted.push(lift(item));
            }
            assert(trees(lifted@) =~= whole->Array_0);
            Datum::Array(lifted)
        },
        Level::Pairs(pairs) => {
            let ghost whole = held(value);
            let ghost all = pairs@;
            let mut lifted: Vec<(Datum, Datum)> = Vec::new();
            for pair in it: pairs
                invariant
                    it.seq() == all,
                    whole is Pairs,
                    whole->Pairs_0 == Seq::new(
                        all.len(),
                        |i: int| (held(all[i].0), held(all[i].1)),
                    ),
                    whole == held(value),
                    lifted@.len() == it.index(),
                    forall|i: int|
                        0 <= i < lifted@.len() ==> (#[trigger] lifted@[i]).0@ == held(all[i].0)
                            && lifted@[i].1@ == held(all[i].1),
            {
                proof {
                    let at = it.index() as int;
                    assert(pair == all[at]);
                    let tree = whole->Pairs_0[at];
                    assert(tree == (held(pair.0), held(pair.1)));
                    assert(decreases_to!(whole => whole->Pairs_0[at]));
                    assert(decreases_to!(tree => tree.0));
                    assert(decreases_to!(tree => tree.1));
                }
                let (key, value) = pair;
                lifted.push((lift(key), lift(value)));
            }
            assert(pair_trees(lifted@) =~= whole->Pairs_0);
            Datum::Pairs(lifted)
        },
    }
}

fn lower(datum: &Datum) -> (lowered: rmpv::Value)
    requires
        can_be_written(datum@),
    ensures
        held(lowered) == datum@,
    decreases datum,
{
    match datum {
        Datum::Nil => close(Level::Nil),
        Datum::Boolean(b) => close(Level::Boolean(*b)),
        Datum::Unsigned(n) => close(Level::Number(Some(*n), None)),
        Datum::Negative(n) => close(Level::Number(None, Some(*n))),
        Datum::Single(x) => close(Level::Single(x.bits)),
        Datum::Double(x) => close(Level::Double(x.bits)),
        Datum::Text(text) => close(Level::Text(text.clone())),
        Datum::NoText(bytes) => close(Level::Nil),
        Datum::Binary(bytes) => close(Level::Binary(bytes.clone())),
        Datum::Extension(ty, bytes) => close(Level::Extension(*ty, bytes.clone())),
        Datum::Array(items) => {
            let mut lowered: Vec<rmpv::Value> = Vec::new();
            let mut i: usize = 0;
            while i < items.len()
                invariant
                    i <= items@.len(),
                    datum == Datum::Array(*items),
                    can_be_written(Tree::Array(trees(items@))),
                    lowered@.len() == i,
                    forall|j: int| 0 <= j < i ==> held(#[trigger] lowered@[j]) == items@[j]@,
                decreases items@.len() - i,
            {
                proof {
                    let tree = Tree::Array(trees(items@));
                    assert(can_be_written(tree->Array_0[i as int]));
                    assert(tree->Array_0[i as int] == items@[i as int]@);
                    assert(decreases_to!(datum => datum->Array_0));
                    assert(decreases_to!(datum->Array_0 => items@));
                    assert(decreases_to!(items@ => items@[i as int]));
                }
                lowered.push(lower(&items[i]));
                i = i + 1;
            }
            let ghost held_items = Seq::new(lowered@.len(), |i: int| held(lowered@[i]));
            assert(held_items =~= trees(items@));
            close(Level::Array(lowered))
        },
        Datum::Pairs(pairs) => {
            let mut lowered: Vec<(rmpv::Value, rmpv::Value)> = Vec::new();
            let mut i: usize = 0;
            while i < pairs.len()
                invariant
                    i <= pairs@.len(),
                    datum == Datum::Pairs(*pairs),
                    can_be_written(Tree::Pairs(pair_trees(pairs@))),
                    lowered@.len() == i,
                    forall|j: int|
                        0 <= j < i ==> held((#[trigger] lowered@[j]).0) == pairs@[j].0@ && held(
                            lowered@[j].1,
                        ) == pairs@[j].1@,
                decreases pairs@.len() - i,
            {
                proof {
                    let tree = Tree::Pairs(pair_trees(pairs@));
                    let pair = pairs@[i as int];
                    assert(can_be_written(tree->Pairs_0[i as int].0));
                    assert(tree->Pairs_0[i as int] == (pair.0@, pair.1@));
                    assert(decreases_to!(datum => datum->Pairs_0));
                    assert(decreases_to!(datum->Pairs_0 => pairs@));
                    assert(decreases_to!(pairs@ => pairs@[i as int]));
                    assert(decreases_to!(pair => pair.0));
                    assert(decreases_to!(pair => pair.1));
                }
                lowered.push((lower(&pairs[i].0), lower(&pairs[i].1)));
                i = i + 1;
            }
            let ghost held_pairs = Seq::new(
                lowered@.len(),
                |i: int| (held(lowered@[i].0), held(lowered@[i].1)),
            );
            assert(held_pairs =~= pair_trees(pairs@));
            close(Level::Pairs(lowered))
        },
    }
}

impl Datum {
    /// Whether the value can be written.
    pub fn writable(&self) -> (writable: bool)
        ensures
            writable == can_be_written(self@),
        decreases self,
    {
        match self {
            Datum::Negative(n) => *n < 0,
            Datum::NoText(_) => false,
            Datum::Array(items) => {
                let ghost tree = Tree::Array(trees(items@));
                assert(self@ == tree);
                let mut i: usize = 0;
                while i < items.len()
                    invariant
                        i <= items@.len(),
                        self == Datum::Array(*items),
                        self@ == tree,
                        tree == Tree::Array(trees(items@)),
                        forall|j: int|
                            0 <= j < i ==> can_be_written(#[trigger] tree->Array_0[j]),
                    decreases items@.len() - i,
                {
                    proof {
                        assert(tree->Array_0[i as int] == items@[i as int]@);
                        assert(decreases_to!(self => self->Array_0));
                        assert(decreases_to!(self->Array_0 => items@));
                        assert(decreases_to!(items@ => items@[i as int]));
                    }
                    if !items[i].writable() {
                        return false;
                    }
                    i = i + 1;
                }
                true
            },
            Datum::Pairs(pairs) => {
                let ghost tree = Tree::Pairs(pair_trees(pairs@));
                assert(self@ == tree);
                let mut i: usize = 0;
                while i < pairs.len()
                    invariant
                        i <= pairs@.len(),
                        self == Datum::Pairs(*pairs),
                        self@ == tree,
                        tree == Tree::Pairs(pair_trees(pairs@)),
                        forall|j: int|
                            0 <= j < i ==> can_be_written((#[trigger] tree->Pairs_0[j]).0)
                                && can_be_written(tree->Pairs_0[j].1),
                    decreases pairs@.len() - i,
                {
                    proof {
                        let pair = pairs@[i as int];
                        assert(tree->Pairs_0[i as int] == (pair.0@, pair.1@));
                        assert(decreases_to!(self => self->Pairs_0));
                        assert(decreases_to!(self->Pairs_0 => pairs@));
                        assert(decreases_to!(pairs@ => pairs@[i as int]));
                        assert(decreases_to!(pair => pair.0));
                        assert(decreases_to!(pair => pair.1));
                    }
                    if !pairs[i].0.writable() || !pairs[i].1.writable() {
                        return false;
                    }
                    i = i + 1;
                }
                true
            },
            _ => true,
        }
    }

    /// The value as it stands on the wire.
    pub fn to_bytes(&self) -> (bytes: Vec<u8>)
        requires
            can_be_written(self@),
        ensures
            bytes@ == written(self@),
            can_be_read_back(self@, 510) ==> read(bytes@) == Some(self@),
    {
        write_value(&lower(self))
    }

    /// The value that `bytes` begin with, if they do.
    pub fn from_bytes(bytes: &[u8]) -> (datum: Option<Self>)
        ensures
            match datum {
                Some(datum) => read(bytes@) == Some(datum@),
                None => read(bytes@) is None,
            },
    {
        match read_value(bytes) {
            Ok(value) => Some(lift(value)),
            Err(_) => None,
        }
    }
}

/// A value is seen as what it holds.
pub proof fn values_are_what_they_hold(datum: Datum)
    ensures
        datum is Nil <==> datum@ is Nil,
        datum is Boolean <==> datum@ is Boolean,
        datum matches Datum::Boolean(b) ==> datum@ == Tree::Boolean(b),
        datum is Unsigned <==> datum@ is Unsigned,
        datum matches Datum::Unsigned(n) ==> datum@ == Tree::Unsigned(n),
        datum is Negative <==> datum@ is Negative,
        datum matches Datum::Negative(n) ==> datum@ == Tree::Negative(n),
        datum is Single <==> datum@ is Single,
        datum matches Datum::Single(x) ==> datum@ == Tree::Single(x),
        datum is Double <==> datum@ is Double,
        datum matches Datum::Double(x) ==> datum@ == Tree::Double(x),
        datum is Text <==> datum@ is Text,
        datum matches Datum::Text(text) ==> datum@ == Tree::Text(text@),
        datum is NoText <==> datum@ is NoText,
        datum matches Datum::NoText(bytes) ==> datum@ == Tree::NoText(bytes@),
        datum is Binary <==> datum@ is Binary,
        datum matches Datum::Binary(bytes) ==> datum@ == Tree::Binary(bytes@),
        datum is Extension <==> datum@ is Extension,
        datum matches Datum::Extension(ty, bytes) ==> datum@ == Tree::Extension(ty, bytes@),
{
}

/// A list is seen as what its items are seen as, one for one, and so is a list of pairs.
pub proof fn lists_are_what_their_items_are(datum: Datum)
    ensures
        datum is Array <==> datum@ is Array,
        datum matches Datum::Array(items) ==> (datum@ matches Tree::Array(seen) && {
            &&& seen.len() == items@.len()
            &&& forall|i: int| 0 <= i < seen.len() ==> seen[i] == (#[trigger] items@[i])@
        }),
        datum is Pairs <==> datum@ is Pairs,
        datum matches Datum::Pairs(pairs) ==> (datum@ matches Tree::Pairs(seen) && {
            &&& seen.len() == pairs@.len()
            &&& forall|i: int|
                0 <= i < seen.len() ==> #[trigger] seen[i] == (pairs@[i].0@, pairs@[i].1@)
        }),
{
    match datum {
        Datum::Array(items) => {
            assert(datum@->Array_0 == trees(items@));
        },
        Datum::Pairs(pairs) => {
            assert(datum@->Pairs_0 == pair_trees(pairs@));
        },
        _ => {},
    }
}

/// All values can be written but those with bytes that should be text and are not, or with a
/// number that should be below zero and is not, in any place.
pub proof fn what_can_be_written(tree: Tree)
    ensures
        match tree {
            Tree::NoText(_) => !can_be_written(tree),
            Tree::Negative(n) => can_be_written(tree) <==> n < 0,
            Tree::Array(items) => can_be_written(tree) <==> forall|i: int|
                0 <= i < items.len() ==> can_be_written(#[trigger] items[i]),
            Tree::Pairs(pairs) => can_be_written(tree) <==> forall|i: int|
                0 <= i < pairs.len() ==> can_be_written((#[trigger] pairs[i]).0) && can_be_written(
                    pairs[i].1,
                ),
            _ => can_be_written(tree),
        },
{
}

/// What can be read back after it is written can be written, however deep it is.
pub proof fn what_is_read_back_was_written(tree: Tree, depth: nat)
    requires
        can_be_read_back(tree, depth),
    ensures
        can_be_written(tree),
    decreases tree,
{
    match tree {
        Tree::Array(items) => {
            assert forall|i: int| 0 <= i < items.len() implies can_be_written(items[i]) by {
                what_is_read_back_was_written(items[i], (depth - 1) as nat);
            }
        },
        Tree::Pairs(pairs) => {
            assert forall|i: int| 0 <= i < pairs.len() implies can_be_written(pairs[i].0)
                && can_be_written(pairs[i].1) by {
                what_is_read_back_was_written(pairs[i].0, (depth - 1) as nat);
                what_is_read_back_was_written(pairs[i].1, (depth - 1) as nat);
            }
        },
        _ => {},
    }
}

/// What can be read back: values that can be written, none of which is as long as 32 bits cannot
/// tell or is a float that is no number, and no deeper in each other than `depth`.
pub proof fn what_can_be_read_back(tree: Tree, depth: nat)
    ensures
        match tree {
            Tree::Nil | Tree::Boolean(_) | Tree::Unsigned(_) => can_be_read_back(tree, depth),
            Tree::NoText(_) => !can_be_read_back(tree, depth),
            Tree::Negative(n) => can_be_read_back(tree, depth) <==> n < 0,
            Tree::Single(x) => can_be_read_back(tree, depth) <==> !x.is_nan(),
            Tree::Double(x) => can_be_read_back(tree, depth) <==> !x.is_nan(),
            Tree::Text(text) => can_be_read_back(tree, depth) <==> vstd::utf8::encode_utf8(
                text,
            ).len() < 0x1_0000_0000,
            Tree::Binary(bytes) => can_be_read_back(tree, depth) <==> bytes.len()
                < 0x1_0000_0000,
            Tree::Extension(_, bytes) => can_be_read_back(tree, depth) <==> bytes.len()
                < 0x1_0000_0000,
            Tree::Array(items) => depth == 0 ==> !can_be_read_back(tree, depth),
            Tree::Pairs(pairs) => depth == 0 ==> !can_be_read_back(tree, depth),
        },
        tree matches Tree::Array(items) ==> (depth > 0 && items.len() < 0x1_0000_0000 && (
        forall|i: int|
            0 <= i < items.len() ==> can_be_read_back(#[trigger] items[i], (depth - 1) as nat))
            <==> can_be_read_back(tree, depth)),
        tree matches Tree::Pairs(pairs) ==> (depth > 0 && pairs.len() < 0x1_0000_0000 && (
        forall|i: int|
            0 <= i < pairs.len() ==> can_be_read_back((#[trigger] pairs[i]).0, (depth - 1) as nat)
                && can_be_read_back(pairs[i].1, (depth - 1) as nat)) <==> can_be_read_back(
            tree,
            depth,
        )),
{
}

/// A number keeps its value and its sign.
pub proof fn numbers_keep_their_sign(n: i64, value: Datum)
    requires
        call_ensures(Datum::number, (n,), value),
    ensures
        n < 0 ==> value == Datum::Negative(n),
        n >= 0 ==> value@ is Unsigned && value@->Unsigned_0 == n,
{
    values_are_what_they_hold(value);
}

/// What is written in full is read back as it was.
pub proof fn what_is_written_is_read_back(
    datum: Datum,
    bytes: Vec<u8>,
    same: &[u8],
    again: Option<Datum>,
)
    requires
        call_ensures(Datum::to_bytes, (&datum,), bytes),
        same@ == bytes@,
        call_ensures(Datum::from_bytes, (same,), again),
        can_be_read_back(datum@, 510),
    ensures
        again matches Some(again) && again@ == datum@,
{
}

/// What one level of a value shows is what the value holds there.
pub(crate) proof fn levels_show_what_is_held(level: Level)
    ensures
        level is Nil ==> held_by(level) is Nil,
        level matches Level::Boolean(b) ==> held_by(level) == Tree::Boolean(b),
        level matches Level::Number(Some(n), _) ==> held_by(level) == Tree::Unsigned(n),
        level matches Level::Number(None, Some(n)) ==> held_by(level) == Tree::Negative(n),
        level matches Level::Single(bits) ==> (held_by(level) matches Tree::Single(x) && x.bits
            == bits),
        level matches Level::Double(bits) ==> (held_by(level) matches Tree::Double(x) && x.bits
            == bits),
        level matches Level::Text(text) ==> held_by(level) == Tree::Text(text@),
        level matches Level::NoText(bytes) ==> held_by(level) == Tree::NoText(bytes@),
        level matches Level::Binary(bytes) ==> held_by(level) == Tree::Binary(bytes@),
        level matches Level::Extension(ty, bytes) ==> held_by(level) == Tree::Extension(ty, bytes@),
        level matches Level::Array(items) ==> (held_by(level) matches Tree::Array(seen) && {
            &&& seen.len() == items@.len()
            &&& forall|i: int| 0 <= i < seen.len() ==> #[trigger] seen[i] == held(items@[i])
        }),
        level matches Level::Pairs(pairs) ==> (held_by(level) matches Tree::Pairs(seen) && {
            &&& seen.len() == pairs@.len()
            &&& forall|i: int|
                0 <= i < seen.len() ==> #[trigger] seen[i] == (held(pairs@[i].0), held(
                    pairs@[i].1,
                ))
        }),
{
}

} // verus!
