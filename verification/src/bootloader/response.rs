//! Responses of a bootloader.

use vstd::prelude::*;
use vstd::std_specs::convert::TryFromSpecImpl;

use crate::wire;

verus! {

/// What a bootloader answers.
#[derive(Clone, Copy, Debug, PartialEq, Eq, Structural)]
pub enum Command {
    FlashComplete,
    FlashStatusUpdate,
    BootloaderVersion,
    BootloaderType,
    GetBootloaderConfig,
    BootloaderMemory,
    BootApplication,
    BootloaderCommit,
    ReadFlash,
    ApplicationDetails,
    MemoryDetails,
    IsUserBootloader,
    NoOp,
}

impl Command {
    /// The number that stands for it on the wire.
    pub open spec fn spec_code(self) -> u32 {
        match self {
            Command::FlashComplete => 0,
            Command::FlashStatusUpdate => 1,
            Command::BootloaderVersion => 2,
            Command::BootloaderType => 3,
            Command::GetBootloaderConfig => 4,
            Command::BootloaderMemory => 5,
            Command::BootApplication => 6,
            Command::BootloaderCommit => 7,
            Command::ReadFlash => 8,
            Command::ApplicationDetails => 9,
            Command::MemoryDetails => 10,
            Command::IsUserBootloader => 11,
            Command::NoOp => 12,
        }
    }

    /// The number that stands for it on the wire.
    #[verifier::when_used_as_spec(spec_code)]
    pub fn code(self) -> (code: u32)
        ensures
            code == self.spec_code(),
    {
        match self {
            Command::FlashComplete => 0,
            Command::FlashStatusUpdate => 1,
            Command::BootloaderVersion => 2,
            Command::BootloaderType => 3,
            Command::GetBootloaderConfig => 4,
            Command::BootloaderMemory => 5,
            Command::BootApplication => 6,
            Command::BootloaderCommit => 7,
            Command::ReadFlash => 8,
            Command::ApplicationDetails => 9,
            Command::MemoryDetails => 10,
            Command::IsUserBootloader => 11,
            Command::NoOp => 12,
        }
    }

    /// What a number stands for, or the number itself when it stands for nothing.
    pub open spec fn from_code(code: u32) -> Result<Command, u32> {
        if exists|it: Command| it.spec_code() == code {
            Ok(choose|it: Command| it.spec_code() == code)
        } else {
            Err(code)
        }
    }
}

impl TryFrom<u32> for Command {
    type Error = u32;

    fn try_from(code: u32) -> (found: Result<Self, Self::Error>) {
        let found = match code {
            0 => Command::FlashComplete,
            1 => Command::FlashStatusUpdate,
            2 => Command::BootloaderVersion,
            3 => Command::BootloaderType,
            4 => Command::GetBootloaderConfig,
            5 => Command::BootloaderMemory,
            6 => Command::BootApplication,
            7 => Command::BootloaderCommit,
            8 => Command::ReadFlash,
            9 => Command::ApplicationDetails,
            10 => Command::MemoryDetails,
            11 => Command::IsUserBootloader,
            12 => Command::NoOp,
            o => return Err(o),
        };
        proof {
            command_round_trip(found);
        }
        Ok(found)
    }
}

impl TryFromSpecImpl<u32> for Command {
    open spec fn obeys_try_from_spec() -> bool {
        true
    }

    open spec fn try_from_spec(code: u32) -> Result<Self, u32> {
        Command::from_code(code)
    }
}

/// What a number stands for is recovered from it.
pub proof fn command_round_trip(it: Command)
    ensures
        Command::from_code(it.spec_code()) == Ok::<Command, u32>(it),
{
    let found = choose|t: Command| t.spec_code() == it.spec_code();
    assert(found.spec_code() == it.spec_code());
    assert(found == it);
}

/// How a bootloader is reached.
#[derive(Clone, Copy, Debug, PartialEq, Eq, Structural)]
pub enum BootloaderTy {
    Usb,
    Network,
}

impl BootloaderTy {
    /// The number that stands for it on the wire.
    pub open spec fn spec_code(self) -> u32 {
        match self {
            BootloaderTy::Usb => 0,
            BootloaderTy::Network => 1,
        }
    }

    /// The number that stands for it on the wire.
    #[verifier::when_used_as_spec(spec_code)]
    pub fn code(self) -> (code: u32)
        ensures
            code == self.spec_code(),
    {
        match self {
            BootloaderTy::Usb => 0,
            BootloaderTy::Network => 1,
        }
    }

    /// What a number stands for, or the number itself when it stands for nothing.
    pub open spec fn from_code(code: u32) -> Result<BootloaderTy, u32> {
        if exists|it: BootloaderTy| it.spec_code() == code {
            Ok(choose|it: BootloaderTy| it.spec_code() == code)
        } else {
            Err(code)
        }
    }
}

impl TryFrom<u32> for BootloaderTy {
    type Error = u32;

    fn try_from(code: u32) -> (found: Result<Self, Self::Error>) {
        let found = match code {
            0 => BootloaderTy::Usb,
            1 => BootloaderTy::Network,
            o => return Err(o),
        };
        proof {
            bootloader_ty_round_trip(found);
        }
        Ok(found)
    }
}

impl TryFromSpecImpl<u32> for BootloaderTy {
    open spec fn obeys_try_from_spec() -> bool {
        true
    }

    open spec fn try_from_spec(code: u32) -> Result<Self, u32> {
        BootloaderTy::from_code(code)
    }
}

/// What a number stands for is recovered from it.
pub proof fn bootloader_ty_round_trip(it: BootloaderTy)
    ensures
        BootloaderTy::from_code(it.spec_code()) == Ok::<BootloaderTy, u32>(it),
{
    let found = choose|t: BootloaderTy| t.spec_code() == it.spec_code();
    assert(found.spec_code() == it.spec_code());
    assert(found == it);
}

/// The answer to a request for the bootloader's type.
#[derive(Clone, Copy)]
pub struct BootloaderType {
    command: u32,
    ty: u32,
}

impl BootloaderType {
    /// The number of the command.
    pub closed spec fn command_code(self) -> u32 {
        self.command
    }

    /// The number of the type.
    pub closed spec fn ty_code(self) -> u32 {
        self.ty
    }

    /// The answer that stands as `bytes` on the wire.
    pub fn parse(bytes: &[u8]) -> (response: Self)
        requires
            bytes@.len() == 8,
        ensures
            response.command_code() == wire::from_le32(bytes@.subrange(0, 4)),
            response.ty_code() == wire::from_le32(bytes@.subrange(4, 8)),
    {
        BootloaderType {
            command: wire::read_word(vstd::slice::slice_subrange(bytes, 0, 4)),
            ty: wire::read_word(vstd::slice::slice_subrange(bytes, 4, 8)),
        }
    }

    /// The command that was answered, or its number when it is none known.
    pub fn command(&self) -> (command: Result<Command, u32>)
        ensures
            command == Command::from_code(self.command_code()),
    {
        Command::try_from(self.command)
    }

    /// The bootloader's type, or its number when it is none known.
    pub fn ty(&self) -> (ty: Result<BootloaderTy, u32>)
        ensures
            ty == BootloaderTy::from_code(self.ty_code()),
    {
        BootloaderTy::try_from(self.ty)
    }
}

impl Default for BootloaderType {
    fn default() -> (response: Self)
        ensures
            response.command_code() == 0,
            response.ty_code() == 0,
    {
        BootloaderType { command: 0, ty: 0 }
    }
}

/// The number that stands for each `Command`.
pub proof fn command_codes()
    ensures
        Command::FlashComplete.spec_code() == 0,
        Command::FlashStatusUpdate.spec_code() == 1,
        Command::BootloaderVersion.spec_code() == 2,
        Command::BootloaderType.spec_code() == 3,
        Command::GetBootloaderConfig.spec_code() == 4,
        Command::BootloaderMemory.spec_code() == 5,
        Command::BootApplication.spec_code() == 6,
        Command::BootloaderCommit.spec_code() == 7,
        Command::ReadFlash.spec_code() == 8,
        Command::ApplicationDetails.spec_code() == 9,
        Command::MemoryDetails.spec_code() == 10,
        Command::IsUserBootloader.spec_code() == 11,
        Command::NoOp.spec_code() == 12,
{
}

/// The number that stands for each `BootloaderTy`.
pub proof fn bootloader_ty_codes()
    ensures
        BootloaderTy::Usb.spec_code() == 0,
        BootloaderTy::Network.spec_code() == 1,
{
}

/// A response tells its command by its first word and the type of the bootloader by its second:
/// 0 for one over USB and 1 for one over the network.
pub proof fn responses_have_two_words(
    bytes: &[u8],
    response: BootloaderType,
    command: Result<Command, u32>,
    ty: Result<BootloaderTy, u32>,
)
    requires
        call_ensures(BootloaderType::parse, (bytes,), response),
        call_ensures(BootloaderType::command, (&response,), command),
        call_ensures(BootloaderType::ty, (&response,), ty),
    ensures
        ty == Ok::<BootloaderTy, u32>(BootloaderTy::Usb) <==> wire::from_le32(
            bytes@.subrange(4, 8),
        ) == 0,
        ty == Ok::<BootloaderTy, u32>(BootloaderTy::Network) <==> wire::from_le32(
            bytes@.subrange(4, 8),
        ) == 1,
        ty matches Err(code) ==> code == wire::from_le32(bytes@.subrange(4, 8)),
        command matches Ok(command) ==> command.spec_code() == wire::from_le32(
            bytes@.subrange(0, 4),
        ),
        command matches Err(code) ==> code == wire::from_le32(bytes@.subrange(0, 4)) && code > 12,
{
    bootloader_ty_round_trip(BootloaderTy::Usb);
    bootloader_ty_round_trip(BootloaderTy::Network);
    let code = wire::from_le32(bytes@.subrange(0, 4));
    assert(code == 0 ==> Command::FlashComplete.spec_code() == code);
    assert(code == 1 ==> Command::FlashStatusUpdate.spec_code() == code);
    assert(code == 2 ==> Command::BootloaderVersion.spec_code() == code);
    assert(code == 3 ==> Command::BootloaderType.spec_code() == code);
    assert(code == 4 ==> Command::GetBootloaderConfig.spec_code() == code);
    assert(code == 5 ==> Command::BootloaderMemory.spec_code() == code);
    assert(code == 6 ==> Command::BootApplication.spec_code() == code);
    assert(code == 7 ==> Command::BootloaderCommit.spec_code() == code);
    assert(code == 8 ==> Command::ReadFlash.spec_code() == code);
    assert(code == 9 ==> Command::ApplicationDetails.spec_code() == code);
    assert(code == 10 ==> Command::MemoryDetails.spec_code() == code);
    assert(code == 11 ==> Command::IsUserBootloader.spec_code() == code);
    assert(code == 12 ==> Command::NoOp.spec_code() == code);
}

} // verus!
