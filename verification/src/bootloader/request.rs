//! Requests to a bootloader.

use vstd::prelude::*;

use super::MAX_PACKET_SIZE;
use crate::chunks;
use crate::wire;

verus! {

/// What is asked of a bootloader.
#[derive(Clone, Copy, Debug, PartialEq, Eq, Structural)]
pub enum Command {
    UsbRomBoot,
    BootApplication,
    UpdateFlash,
    GetBootloaderVersion,
    BootMemory,
    UpdateFlashEx,
    UpdateFlashEx2,
    NoOp,
    GetBootloaderType,
    SetBootloaderConfig,
    GetBootloaderConfig,
    BootloaderMemory,
    GetBootloaderCommit,
    UpdateFlashBootHeader,
    ReadFlash,
    GetApplicationDetails,
    GetMemoryDetails,
    IsUserBootloader,
}

impl Command {
    /// The number that stands for it on the wire.
    pub open spec fn spec_code(self) -> u32 {
        match self {
            Command::UsbRomBoot => 0,
            Command::BootApplication => 1,
            Command::UpdateFlash => 2,
            Command::GetBootloaderVersion => 3,
            Command::BootMemory => 4,
            Command::UpdateFlashEx => 5,
            Command::UpdateFlashEx2 => 6,
            Command::NoOp => 7,
            Command::GetBootloaderType => 8,
            Command::SetBootloaderConfig => 9,
            Command::GetBootloaderConfig => 10,
            Command::BootloaderMemory => 11,
            Command::GetBootloaderCommit => 12,
            Command::UpdateFlashBootHeader => 13,
            Command::ReadFlash => 14,
            Command::GetApplicationDetails => 15,
            Command::GetMemoryDetails => 16,
            Command::IsUserBootloader => 17,
        }
    }

    /// The number that stands for it on the wire.
    #[verifier::when_used_as_spec(spec_code)]
    pub fn code(self) -> (code: u32)
        ensures
            code == self.spec_code(),
    {
        match self {
            Command::UsbRomBoot => 0,
            Command::BootApplication => 1,
            Command::UpdateFlash => 2,
            Command::GetBootloaderVersion => 3,
            Command::BootMemory => 4,
            Command::UpdateFlashEx => 5,
            Command::UpdateFlashEx2 => 6,
            Command::NoOp => 7,
            Command::GetBootloaderType => 8,
            Command::SetBootloaderConfig => 9,
            Command::GetBootloaderConfig => 10,
            Command::BootloaderMemory => 11,
            Command::GetBootloaderCommit => 12,
            Command::UpdateFlashBootHeader => 13,
            Command::ReadFlash => 14,
            Command::GetApplicationDetails => 15,
            Command::GetMemoryDetails => 16,
            Command::IsUserBootloader => 17,
        }
    }
}

/// Announces a firmware that is to be booted from memory.
#[derive(Clone, Copy)]
pub struct BootMemory {
    pub val: u32,
    pub total_size: u32,
    pub num_packets: u32,
}

impl BootMemory {
    /// Announces `total_size` bytes, which come in `num_packets` packets.
    pub fn new(total_size: u32, num_packets: u32) -> (request: Self)
        ensures
            request.val == Command::BootMemory.spec_code(),
            request.total_size == total_size,
            request.num_packets == num_packets,
    {
        BootMemory { val: Command::BootMemory.code(), total_size, num_packets }
    }

    /// Announces `total_size` bytes, which come in packets as large as they may be.
    pub fn for_firmware(total_size: u32) -> (request: Self)
        requires
            total_size > 0,
        ensures
            request.val == Command::BootMemory.spec_code(),
            request.total_size == total_size,
            request.num_packets == (total_size - 1) / MAX_PACKET_SIZE as int + 1,
    {
        BootMemory::new(total_size, ((total_size - 1) / MAX_PACKET_SIZE) + 1)
    }

    /// The request as it stands on the wire.
    pub open spec fn bytes(self) -> Seq<u8> {
        wire::le32(self.val) + wire::le32(self.total_size) + wire::le32(self.num_packets)
    }

    /// The request as it stands on the wire.
    pub fn to_bytes(&self) -> (bytes: Vec<u8>)
        ensures
            bytes@ == self.bytes(),
            bytes@.len() == 12,
    {
        broadcast use wire::le32_round_trip;

        let mut bytes = wire::word_bytes(self.val);
        let mut part = wire::word_bytes(self.total_size);
        bytes.append(&mut part);
        part = wire::word_bytes(self.num_packets);
        bytes.append(&mut part);
        bytes
    }
}

/// The request for the bootloader's type, as it stands on the wire.
pub fn get_bootloader_type() -> (bytes: Vec<u8>)
    ensures
        bytes@ == wire::le32(Command::GetBootloaderType.spec_code()),
{
    wire::word_bytes(Command::GetBootloaderType.code())
}

/// The packets announced are those that the firmware is cut into.
pub proof fn announced_packets_are_sent(firmware: Seq<u8>)
    requires
        0 < firmware.len() <= u32::MAX,
    ensures
        chunks::pieces(firmware, MAX_PACKET_SIZE as nat, 0).len() == (firmware.len() - 1)
            / MAX_PACKET_SIZE as int + 1,
{
    chunks::number_of_pieces(firmware, MAX_PACKET_SIZE as nat, 0);
}

/// The number that stands for each `Command`.
pub proof fn command_codes()
    ensures
        Command::UsbRomBoot.spec_code() == 0,
        Command::BootApplication.spec_code() == 1,
        Command::UpdateFlash.spec_code() == 2,
        Command::GetBootloaderVersion.spec_code() == 3,
        Command::BootMemory.spec_code() == 4,
        Command::UpdateFlashEx.spec_code() == 5,
        Command::UpdateFlashEx2.spec_code() == 6,
        Command::NoOp.spec_code() == 7,
        Command::GetBootloaderType.spec_code() == 8,
        Command::SetBootloaderConfig.spec_code() == 9,
        Command::GetBootloaderConfig.spec_code() == 10,
        Command::BootloaderMemory.spec_code() == 11,
        Command::GetBootloaderCommit.spec_code() == 12,
        Command::UpdateFlashBootHeader.spec_code() == 13,
        Command::ReadFlash.spec_code() == 14,
        Command::GetApplicationDetails.spec_code() == 15,
        Command::GetMemoryDetails.spec_code() == 16,
        Command::IsUserBootloader.spec_code() == 17,
{
}

/// What announces firmware is the number 4, its size, and the number of packets it comes in, each
/// as a word.
pub proof fn announcements_have_three_words(request: BootMemory)
    ensures
        request.bytes().len() == 12,
        wire::from_le32(request.bytes().subrange(0, 4)) == request.val,
        wire::from_le32(request.bytes().subrange(4, 8)) == request.total_size,
        wire::from_le32(request.bytes().subrange(8, 12)) == request.num_packets,
{
    wire::le32_round_trip(request.val);
    wire::le32_round_trip(request.total_size);
    wire::le32_round_trip(request.num_packets);
    assert(request.bytes().subrange(0, 4) =~= wire::le32(request.val));
    assert(request.bytes().subrange(4, 8) =~= wire::le32(request.total_size));
    assert(request.bytes().subrange(8, 12) =~= wire::le32(request.num_packets));
}

/// Firmware is announced in as many packets of 400 KiB as hold it: no packet is empty, and all of
/// it fits.
pub proof fn packets_hold_the_firmware(total_size: u32, request: BootMemory)
    requires
        total_size > 0,
        call_ensures(BootMemory::for_firmware, (total_size,), request),
    ensures
        request.val == 4,
        request.total_size == total_size,
        (request.num_packets - 1) * 409600 < total_size <= request.num_packets * 409600,
{
}

/// The request for the type of the bootloader is the number 8 in four bytes.
pub proof fn type_request_is_one_word(bytes: Vec<u8>)
    requires
        call_ensures(get_bootloader_type, (), bytes),
    ensures
        bytes@ == seq![8u8, 0u8, 0u8, 0u8],
{
    reveal(wire::le32);
    assert(bytes@ =~= seq![8u8, 0u8, 0u8, 0u8]);
}

/// The largest packets.
pub proof fn packet_sizes()
    ensures
        MAX_PACKET_SIZE == 409600,
        super::XLINK_MAX_PACKET_SIZE == 409600,
{
}

/// What announces firmware has what it is given.
pub proof fn announcements_have_what_they_are_given(
    total_size: u32,
    num_packets: u32,
    request: BootMemory,
)
    requires
        call_ensures(BootMemory::new, (total_size, num_packets), request),
    ensures
        request.val == 4,
        request.total_size == total_size,
        request.num_packets == num_packets,
{
}

} // verus!
