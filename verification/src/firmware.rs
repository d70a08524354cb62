//! Picking the device's firmware out of its archive.

use std::io::Read;

use vstd::prelude::*;
use vstd::string::StringSliceAdditionalSpecFns;

verus! {

/// What reading can fail with.
#[verifier::external_type_specification]
#[verifier::external_body]
pub struct ExIoError(std::io::Error);

/// What `XzDecoder` makes of compressed bytes: what they stand for, or nothing when it cannot
/// decode them.
pub uninterp spec fn xz_decoded(bytes: Seq<u8>) -> Option<Seq<u8>>;

/// `xz::read::XzDecoder` read to its end: what the bytes stand for. Nothing is said of what
/// that is, only that the bytes fix it, and whether they stand for anything.
#[verifier::external_body]
fn read_xz(bytes: &[u8]) -> (decoded: Result<Vec<u8>, std::io::Error>)
    ensures
        match decoded {
            Ok(decoded) => xz_decoded(bytes@) == Some(decoded@),
            Err(_) => xz_decoded(bytes@) is None,
        },
{
    let mut decoded = Vec::new();
    xz::read::XzDecoder::new(bytes).read_to_end(&mut decoded)?;
    Ok(decoded)
}

/// The archive that was compressed to `bytes`, or what their decoder fails with.
pub fn unpack_tarball(bytes: &[u8]) -> (archive: Result<Vec<u8>, std::io::Error>)
    ensures
        match archive {
            Ok(archive) => xz_decoded(bytes@) == Some(archive@),
            Err(_) => xz_decoded(bytes@) is None,
        },
{
    read_xz(bytes)
}

/// How the path of the device's firmware begins.
pub const DEVICE_FIRMWARE: &'static str = "depthai-device-openvino-universal";

/// Whether the file at `path` is the device's firmware.
pub open spec fn spec_is_device_firmware(path: Seq<u8>) -> bool {
    DEVICE_FIRMWARE.spec_bytes().is_prefix_of(path)
}

/// Whether the file at `path` is the device's firmware.
pub fn is_device_firmware(path: &[u8]) -> (is: bool)
    ensures
        is == spec_is_device_firmware(path@),
{
    let prefix: &[u8] = DEVICE_FIRMWARE.as_bytes();
    if path.len() < prefix.len() {
        return false;
    }
    let mut i: usize = 0;
    while i < prefix.len()
        invariant
            i <= prefix@.len() <= path@.len(),
            prefix@ == DEVICE_FIRMWARE.spec_bytes(),
            forall|j: int| 0 <= j < i ==> prefix@[j] == path@[j],
        decreases prefix@.len() - i,
    {
        if path[i] != prefix[i] {
            assert(path@.subrange(0, prefix@.len() as int)[i as int] == path@[i as int]);
            return false;
        }
        i = i + 1;
    }
    assert(prefix@ =~= path@.subrange(0, prefix@.len() as int));
    true
}

/// Whether the entry at `i`, if its path could be read, is the device's firmware.
pub open spec fn firmware_at(paths: Seq<Option<Vec<u8>>>, i: int) -> bool {
    paths[i] matches Some(path) && spec_is_device_firmware(path@)
}

/// Which of the entries of an archive is the device's firmware: the last one whose path says
/// so. Entries whose paths cannot be read are passed over.
pub fn device_firmware(paths: &[Option<Vec<u8>>]) -> (at: Option<usize>)
    ensures
        match at {
            Some(at) => {
                &&& at < paths@.len()
                &&& firmware_at(paths@, at as int)
                &&& forall|i: int| at < i < paths@.len() ==> !firmware_at(paths@, i)
            },
            None => forall|i: int| 0 <= i < paths@.len() ==> !firmware_at(paths@, i),
        },
{
    let mut at: Option<usize> = None;
    let mut i: usize = 0;
    while i < paths.len()
        invariant
            i <= paths@.len(),
            match at {
                Some(at) => {
                    &&& at < i
                    &&& firmware_at(paths@, at as int)
                    &&& forall|j: int| at < j < i ==> !firmware_at(paths@, j)
                },
                None => forall|j: int| 0 <= j < i ==> !firmware_at(paths@, j),
            },
        decreases paths@.len() - i,
    {
        match &paths[i] {
            Some(path) => if is_device_firmware(path.as_slice()) {
                at = Some(i);
            },
            None => {},
        }
        i = i + 1;
    }
    at
}

/// The firmware of the device is told by what its name starts with, all of which counts.
pub proof fn firmware_is_told_by_its_name(path: Seq<u8>)
    ensures
        spec_is_device_firmware(path) <==> "depthai-device-openvino-universal".spec_bytes()
            .is_prefix_of(path),
{
}

/// Whether an entry is the firmware goes by its name alone.
pub proof fn entries_are_told_by_their_names(paths: Seq<Option<Vec<u8>>>, i: int)
    ensures
        firmware_at(paths, i) <==> (paths[i] matches Some(path)
            && "depthai-device-openvino-universal".spec_bytes().is_prefix_of(path@)),
{
}

/// The firmware in an archive is the last entry of that name.
pub proof fn the_last_firmware_counts(paths: &[Option<Vec<u8>>], found: Option<usize>)
    requires
        call_ensures(device_firmware, (paths,), found),
    ensures
        found matches Some(at) ==> {
            &&& at < paths@.len()
            &&& firmware_at(paths@, at as int)
            &&& forall|i: int| at < i < paths@.len() ==> !firmware_at(paths@, i)
        },
{
}

} // verus!
