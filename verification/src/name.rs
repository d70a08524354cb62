//! Stream names and tables keyed by them.

use vstd::prelude::*;
#[allow(unused_imports)]
use vstd::std_specs::cmp::PartialEqSpec;
use vstd::std_specs::cmp::PartialEqSpecImpl;

verus! {

/// The position of the first `byte` in `bytes`, or their length when it does not occur.
pub open spec fn find_byte(byte: u8, bytes: Seq<u8>) -> nat
    decreases bytes.len(),
{
    if bytes.len() == 0 || bytes[0] == byte {
        0
    } else {
        1 + find_byte(byte, bytes.drop_first())
    }
}

/// The bytes that come before the first zero.
pub open spec fn before_nul(bytes: Seq<u8>) -> Seq<u8> {
    bytes.take(find_byte(0, bytes) as int)
}

/// The first `byte` stands at `at` when it does and none stands before.
pub proof fn find_byte_at(byte: u8, bytes: Seq<u8>, at: int)
    requires
        0 <= at <= bytes.len(),
        forall|i: int| 0 <= i < at ==> bytes[i] != byte,
        at == bytes.len() || bytes[at] == byte,
    ensures
        find_byte(byte, bytes) == at,
    decreases bytes.len(),
{
    if at > 0 {
        let rest = bytes.drop_first();
        assert forall|i: int| 0 <= i < at - 1 implies rest[i] != byte by {
            assert(rest[i] == bytes[i + 1]);
        }
        find_byte_at(byte, rest, at - 1);
    }
}

/// What `find_byte` finds lies within the bytes, holds the byte, and is the first to.
pub proof fn find_byte_facts(byte: u8, bytes: Seq<u8>)
    ensures
        find_byte(byte, bytes) <= bytes.len(),
        forall|i: int| 0 <= i < find_byte(byte, bytes) ==> bytes[i] != byte,
        find_byte(byte, bytes) < bytes.len() ==> bytes[find_byte(byte, bytes) as int] == byte,
    decreases bytes.len(),
{
    if bytes.len() != 0 && bytes[0] != byte {
        let rest = bytes.drop_first();
        find_byte_facts(byte, rest);
        let at = find_byte(byte, rest);
        assert forall|i: int| 0 <= i < find_byte(byte, bytes) implies bytes[i] != byte by {
            if i > 0 {
                assert(rest[i - 1] == bytes[i]);
            }
        }
        if at < rest.len() {
            assert(rest[at as int] == bytes[at as int + 1]);
        }
    }
}

/// `memchr::memchr`: the index of the first occurrence of a byte, if there is one.
#[verifier::external_body]
fn memchr(byte: u8, bytes: &[u8]) -> (found: Option<usize>)
    ensures
        match found {
            Some(at) => at < bytes@.len() && at == find_byte(byte, bytes@),
            None => !bytes@.contains(byte),
        },
{
    memchr::memchr(byte, bytes)
}

/// The number of bytes before the first zero, which is all of them when there is none.
pub(crate) fn nul_offset(bytes: &[u8]) -> (len: usize)
    ensures
        len == find_byte(0, bytes@),
        len <= bytes@.len(),
{
    match memchr(0, bytes) {
        Some(at) => at,
        None => {
            proof {
                find_byte_at(0, bytes@, bytes@.len() as int);
            }
            bytes.len()
        },
    }
}

/// Whether two byte strings are the same.
pub(crate) fn same_bytes(a: &[u8], b: &[u8]) -> (same: bool)
    ensures
        same == (a@ == b@),
{
    if a.len() != b.len() {
        return false;
    }
    let mut i: usize = 0;
    while i < a.len()
        invariant
            i <= a@.len(),
            a@.len() == b@.len(),
            forall|j: int| 0 <= j < i ==> a@[j] == b@[j],
        decreases a@.len() - i,
    {
        if a[i] != b[i] {
            return false;
        }
        i = i + 1;
    }
    assert(a@ =~= b@);
    true
}

/// The name of a stream, padded with zeros to the width it has in an event header.
#[derive(Clone, Copy)]
pub struct StreamName(pub [u8; 52]);

impl View for StreamName {
    type V = Seq<u8>;

    /// The name proper: what stands before the first zero.
    open spec fn view(&self) -> Seq<u8> {
        before_nul(self.0@)
    }
}

impl PartialEq for StreamName {
    fn eq(&self, other: &Self) -> (same: bool) {
        same_bytes(self.as_bytes(), other.as_bytes())
    }
}

impl Eq for StreamName {}

impl PartialEqSpecImpl for StreamName {
    open spec fn obeys_eq_spec() -> bool {
        true
    }

    /// Names are the same when they agree up to the first zero.
    open spec fn eq_spec(&self, other: &Self) -> bool {
        self@ == other@
    }
}

/// `name` followed by as many zeros as it takes to fill the field.
pub open spec fn padded(name: Seq<u8>) -> Seq<u8> {
    name + Seq::new((StreamName::MAX_LEN - name.len()) as nat, |i: int| 0u8)
}

impl StreamName {
    /// The width of the name field.
    pub const MAX_LEN: usize = 52;

    /// The name proper.
    pub fn as_bytes(&self) -> (name: &[u8])
        ensures
            name@ == self@,
    {
        let bytes: &[u8] = self.0.as_slice();
        let len: usize = nul_offset(bytes);
        let name = vstd::slice::slice_subrange(bytes, 0, len);
        assert(name@ =~= before_nul(self.0@));
        name
    }

    /// The whole field, padding included.
    pub fn borrow(&self) -> (field: &[u8])
        ensures
            field@ == self.0@,
            field@.len() == Self::MAX_LEN,
    {
        self.0.as_slice()
    }

    /// Pads `name` with zeros. Names wider than the field cannot be held.
    pub fn new(name: &[u8]) -> (made: Option<Self>)
        requires
            name@.len() <= Self::MAX_LEN,
        ensures
            made is Some,
            made.unwrap().0@ == padded(name@),
            made.unwrap()@ == before_nul(name@),
    {
        let mut field: [u8; 52] = [0; 52];
        let mut i: usize = 0;
        while i < name.len()
            invariant
                i <= name@.len() <= 52,
                forall|j: int| 0 <= j < i ==> field@[j] == name@[j],
                forall|j: int| i <= j < 52 ==> field@[j] == 0,
            decreases name@.len() - i,
        {
            field[i] = name[i];
            i = i + 1;
        }
        assert(field@ =~= padded(name@));
        proof {
            padding_is_invisible(name@);
        }
        Some(StreamName(field))
    }

    /// The name whose field holds exactly `field`.
    pub(crate) fn from_field(field: &[u8]) -> (made: Self)
        requires
            field@.len() == Self::MAX_LEN,
        ensures
            made.0@ == field@,
    {
        let mut bytes: [u8; 52] = [0; 52];
        let mut i: usize = 0;
        while i < 52
            invariant
                i <= 52,
                field@.len() == 52,
                forall|j: int| 0 <= j < i ==> bytes@[j] == field@[j],
            decreases 52 - i,
        {
            bytes[i] = field[i];
            i = i + 1;
        }
        assert(bytes@ =~= field@);
        StreamName(bytes)
    }
}

/// Padding does not change the name: what stands before the first zero is the same.
pub proof fn padding_is_invisible(name: Seq<u8>)
    requires
        name.len() <= StreamName::MAX_LEN,
    ensures
        before_nul(padded(name)) == before_nul(name),
{
    let at = find_byte(0, name);
    find_byte_facts(0, name);
    find_byte_at(0, padded(name), at as int);
    assert(before_nul(padded(name)) =~= before_nul(name));
}

/// A name without zeros that fits the field is recovered from it.
pub proof fn name_round_trip(name: Seq<u8>)
    requires
        name.len() <= StreamName::MAX_LEN,
        !name.contains(0),
    ensures
        before_nul(padded(name)) == name,
{
    padding_is_invisible(name);
    find_byte_at(0, name, name.len() as int);
    assert(before_nul(name) =~= name);
}

/// What stands before the first zero: all of the bytes up to there and none after, or all bytes
/// where none is zero.
pub proof fn names_end_at_the_first_zero(bytes: Seq<u8>)
    ensures
        before_nul(bytes).is_prefix_of(bytes),
        !before_nul(bytes).contains(0),
        before_nul(bytes).len() == bytes.len() || bytes[before_nul(bytes).len() as int] == 0,
{
    find_byte_facts(0, bytes);
}

/// A field holds the name and then zeros, up to 52 bytes.
pub proof fn fields_are_filled_with_zeros(name: Seq<u8>)
    requires
        name.len() <= 52,
    ensures
        padded(name).len() == 52,
        forall|i: int| 0 <= i < name.len() ==> #[trigger] padded(name)[i] == name[i],
        forall|i: int| name.len() <= i < 52 ==> #[trigger] padded(name)[i] == 0,
{
}

/// The name in a field is what stands before the first zero, and names are the same where that
/// is, whatever follows it.
pub proof fn names_are_what_is_shown(a: StreamName, b: StreamName)
    ensures
        a@.is_prefix_of(a.0@),
        !a@.contains(0),
        a@.len() == 52 || a.0@[a@.len() as int] == 0,
        PartialEqSpec::eq_spec(&a, &b) <==> {
            &&& a@.len() == b@.len()
            &&& forall|i: int| 0 <= i < a@.len() ==> #[trigger] a.0@[i] == b.0@[i]
        },
{
    names_end_at_the_first_zero(a.0@);
    names_end_at_the_first_zero(b.0@);
    if a@.len() == b@.len() && (forall|i: int|
        0 <= i < a@.len() ==> #[trigger] a.0@[i] == b.0@[i]) {
        assert forall|i: int| 0 <= i < a@.len() implies a@[i] == b@[i] by {
            assert(a.0@[i] == b.0@[i]);
        }
        assert(a@ =~= b@);
    } else if a@ == b@ {
        assert forall|i: int| 0 <= i < a@.len() implies #[trigger] a.0@[i] == b.0@[i] by {
            assert(a@[i] == a.0@[i] && b@[i] == b.0@[i]);
        }
    }
}

/// A name that is made of bytes without a zero is those bytes, and the field it stands in holds
/// them and then zeros.
pub proof fn made_names_are_what_they_are_made_of(
    name: &[u8],
    made: Option<StreamName>,
    shown: &[u8],
    field: &[u8],
)
    requires
        name@.len() <= 52,
        !name@.contains(0),
        call_ensures(StreamName::new, (name,), made),
        call_ensures(StreamName::as_bytes, (&made.unwrap(),), shown),
        call_ensures(StreamName::borrow, (&made.unwrap(),), field),
    ensures
        made is Some,
        shown@ == name@,
        field@.len() == 52,
        field@.take(name@.len() as int) == name@,
        forall|i: int| name@.len() <= i < 52 ==> #[trigger] field@[i] == 0,
{
    name_round_trip(name@);
    padding_is_invisible(name@);
    assert(field@.take(name@.len() as int) =~= name@);
}

} // verus!
