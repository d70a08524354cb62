//! Finding devices on the network.

use vstd::prelude::*;
use vstd::std_specs::convert::TryFromSpecImpl;
use vstd::string::StringSliceAdditionalSpecFns;

use crate::name;
use crate::wire;

verus! {

/// What a host asks of the devices on its network.
#[derive(Clone, Copy, Debug, PartialEq, Eq, Structural)]
pub enum HostCommand {
    NoCommand,
    DeviceDiscover,
    DeviceInfo,
    Reset,
    DeviceDiscoveryEx,
}

impl HostCommand {
    /// The number that stands for it on the wire.
    pub open spec fn spec_code(self) -> u32 {
        match self {
            HostCommand::NoCommand => 0,
            HostCommand::DeviceDiscover => 1,
            HostCommand::DeviceInfo => 2,
            HostCommand::Reset => 3,
            HostCommand::DeviceDiscoveryEx => 4,
        }
    }

    /// The number that stands for it on the wire.
    #[verifier::when_used_as_spec(spec_code)]
    pub fn code(self) -> (code: u32)
        ensures
            code == self.spec_code(),
    {
        match self {
            HostCommand::NoCommand => 0,
            HostCommand::DeviceDiscover => 1,
            HostCommand::DeviceInfo => 2,
            HostCommand::Reset => 3,
            HostCommand::DeviceDiscoveryEx => 4,
        }
    }

    /// What a number stands for, or the number itself when it stands for nothing.
    pub open spec fn from_code(code: u32) -> Result<HostCommand, u32> {
        if exists|it: HostCommand| it.spec_code() == code {
            Ok(choose|it: HostCommand| it.spec_code() == code)
        } else {
            Err(code)
        }
    }
}

impl TryFrom<u32> for HostCommand {
    type Error = u32;

    fn try_from(code: u32) -> (found: Result<Self, Self::Error>) {
        let found = match code {
            0 => HostCommand::NoCommand,
            1 => HostCommand::DeviceDiscover,
            2 => HostCommand::DeviceInfo,
            3 => HostCommand::Reset,
            4 => HostCommand::DeviceDiscoveryEx,
            o => return Err(o),
        };
        proof {
            host_command_round_trip(found);
        }
        Ok(found)
    }
}

impl TryFromSpecImpl<u32> for HostCommand {
    open spec fn obeys_try_from_spec() -> bool {
        true
    }

    open spec fn try_from_spec(code: u32) -> Result<Self, u32> {
        HostCommand::from_code(code)
    }
}

/// What a number stands for is recovered from it.
pub proof fn host_command_round_trip(it: HostCommand)
    ensures
        HostCommand::from_code(it.spec_code()) == Ok::<HostCommand, u32>(it),
{
    let found = choose|t: HostCommand| t.spec_code() == it.spec_code();
    assert(found.spec_code() == it.spec_code());
    assert(found == it);
}

/// What a device is running.
#[derive(Clone, Copy, Debug, PartialEq, Eq, Structural)]
pub enum DeviceState {
    /// Not known, or of no matter.
    Any,
    Booted,
    Bootloader,
    FlashBooted,
}

impl Default for DeviceState {
    fn default() -> (state: Self)
        ensures
            state == DeviceState::Any,
    {
        DeviceState::Any
    }
}

/// The number of bytes of a response.
pub const RESPONSE_LEN: usize = 40;

/// The number of bytes of an extended response.
pub const RESPONSE_EXT_LEN: usize = 52;

/// The port that devices listen on for requests.
pub const BROADCAST_PORT: u16 = 11491;

/// How long responses are waited for, in milliseconds.
pub const DEVICE_DISCOVERY_TIMEOUT_MS: u64 = 200;

/// A device's response, with the fields of an extended one.
#[derive(Clone, Copy)]
pub struct DeviceDiscoveryResponseExt {
    pub command: u32,
    pub mxid: [u8; 32],
    pub state: u32,
    pub protocol: u32,
    pub platform: u32,
    pub port_http: u16,
    pub port_https: u16,
}

impl Default for DeviceDiscoveryResponseExt {
    fn default() -> (response: Self)
        ensures
            response.command == 0,
            response.mxid@ == Seq::new(32, |i: int| 0u8),
            response.state == 0,
            response.protocol == 0,
            response.platform == 0,
            response.port_http == 0,
            response.port_https == 0,
    {
        let mxid: [u8; 32] = [0; 32];
        assert(mxid@ =~= Seq::new(32, |i: int| 0u8));
        DeviceDiscoveryResponseExt {
            command: 0,
            mxid,
            state: 0,
            protocol: 0,
            platform: 0,
            port_http: 0,
            port_https: 0,
        }
    }
}

/// The state that a number in a response stands for.
pub open spec fn state_of(code: u32) -> DeviceState {
    if code == 1 {
        DeviceState::Booted
    } else if code == 3 {
        DeviceState::Bootloader
    } else if code == 4 {
        DeviceState::FlashBooted
    } else {
        DeviceState::Any
    }
}

impl DeviceDiscoveryResponseExt {
    /// The response that stands as `bytes` on the wire.
    pub fn parse(bytes: &[u8]) -> (response: Self)
        requires
            bytes@.len() == RESPONSE_EXT_LEN,
        ensures
            response.command == wire::from_le32(bytes@.subrange(0, 4)),
            response.mxid@ == bytes@.subrange(4, 36),
            response.state == wire::from_le32(bytes@.subrange(36, 40)),
            response.protocol == wire::from_le32(bytes@.subrange(40, 44)),
            response.platform == wire::from_le32(bytes@.subrange(44, 48)),
            response.port_http == wire::from_le16(bytes@.subrange(48, 50)),
            response.port_https == wire::from_le16(bytes@.subrange(50, 52)),
    {
        let mut mxid: [u8; 32] = [0; 32];
        let mut i: usize = 0;
        while i < 32
            invariant
                i <= 32,
                bytes@.len() == RESPONSE_EXT_LEN,
                forall|j: int| 0 <= j < i ==> mxid@[j] == bytes@[4 + j],
            decreases 32 - i,
        {
            mxid[i] = bytes[4 + i];
            i = i + 1;
        }
        assert(mxid@ =~= bytes@.subrange(4, 36));
        DeviceDiscoveryResponseExt {
            command: wire::read_word(vstd::slice::slice_subrange(bytes, 0, 4)),
            mxid,
            state: wire::read_word(vstd::slice::slice_subrange(bytes, 36, 40)),
            protocol: wire::read_word(vstd::slice::slice_subrange(bytes, 40, 44)),
            platform: wire::read_word(vstd::slice::slice_subrange(bytes, 44, 48)),
            port_http: wire::read_half_word(vstd::slice::slice_subrange(bytes, 48, 50)),
            port_https: wire::read_half_word(vstd::slice::slice_subrange(bytes, 50, 52)),
        }
    }

    /// What the device is running.
    pub fn device_state(&self) -> (state: DeviceState)
        ensures
            state == state_of(self.state),
    {
        match self.state {
            1 => DeviceState::Booted,
            3 => DeviceState::Bootloader,
            4 => DeviceState::FlashBooted,
            _ => DeviceState::Any,
        }
    }

    /// The command that the device responds to, if it is one.
    pub fn host_command(&self) -> (command: Option<HostCommand>)
        ensures
            command == HostCommand::from_code(self.command).ok(),
    {
        HostCommand::try_from(self.command).ok()
    }

    /// Whether this is the response of a device in the state looked for.
    pub fn valid_device_discovery(&self, target: DeviceState) -> (valid: bool)
        ensures
            valid == (self.command == HostCommand::DeviceDiscover.spec_code() && (target
                == DeviceState::Any || state_of(self.state) == target)),
    {
        let device_state = self.device_state();
        self.command == HostCommand::DeviceDiscover.code() && (target == DeviceState::Any
            || device_state == target)
    }
}

/// An address on the network.
#[derive(Clone, Copy, Debug)]
pub enum IpAddr {
    V4([u8; 4]),
    V6([u8; 16]),
}

/// An address as the octets it is made of.
pub enum AddrView {
    V4(Seq<u8>),
    V6(Seq<u8>),
}

impl View for IpAddr {
    type V = AddrView;

    open spec fn view(&self) -> AddrView {
        match *self {
            IpAddr::V4(octets) => AddrView::V4(octets@),
            IpAddr::V6(octets) => AddrView::V6(octets@),
        }
    }
}

impl IpAddr {
    /// Whether two addresses are the same.
    pub fn is(&self, other: &IpAddr) -> (same: bool)
        ensures
            same == (self@ == other@),
    {
        match (self, other) {
            (IpAddr::V4(a), IpAddr::V4(b)) => name::same_bytes(a.as_slice(), b.as_slice()),
            (IpAddr::V6(a), IpAddr::V6(b)) => name::same_bytes(a.as_slice(), b.as_slice()),
            _ => false,
        }
    }
}

/// A device that responded.
pub struct IpDevice {
    pub addr: IpAddr,
    pub mxid: [u8; 32],
    pub state: DeviceState,
    pub port: Option<u16>,
}

/// What `str::from_utf8` reports of bytes that are no text.
#[verifier::external_type_specification]
#[verifier::external_body]
pub struct ExUtf8Error(core::str::Utf8Error);

/// `str::from_utf8` succeeds on valid UTF-8, and on nothing else, with the text of those bytes.
pub assume_specification[ core::str::from_utf8 ](bytes: &[u8]) -> (read: Result<
    &str,
    core::str::Utf8Error,
>)
    ensures
        match read {
            Ok(written) => vstd::utf8::valid_utf8(bytes@) && written.spec_bytes() == bytes@,
            Err(_) => !vstd::utf8::valid_utf8(bytes@),
        },
;

impl IpDevice {
    /// The port that devices accept connections on, unless they name another.
    pub const SOCKET_PORT: u16 = 11490;

    /// The serial number of the device, when it is text.
    pub fn mxid(&self) -> (mxid: Option<&str>)
        ensures
            match mxid {
                Some(text) => text.spec_bytes() == name::before_nul(self.mxid@),
                None => !vstd::utf8::valid_utf8(name::before_nul(self.mxid@)),
            },
    {
        let bytes: &[u8] = self.mxid.as_slice();
        let len: usize = name::nul_offset(bytes);
        let shown = vstd::slice::slice_subrange(bytes, 0, len);
        assert(shown@ =~= name::before_nul(self.mxid@));
        match core::str::from_utf8(shown) {
            Ok(text) => Some(text),
            Err(_) => None,
        }
    }

    /// The port to connect to.
    pub fn socket_port(&self) -> (port: u16)
        ensures
            port == (match self.port {
                Some(port) => port,
                None => Self::SOCKET_PORT,
            }),
    {
        self.port.unwrap_or(Self::SOCKET_PORT)
    }

    /// Brings the device to run its firmware. It can be asked of a booted device only, which
    /// has nothing left to do.
    pub fn boot(self, firmware: &[u8]) -> (device: Self)
        requires
            self.state == DeviceState::Booted,
        ensures
            device == self,
    {
        self
    }
}

/// What is looked for.
pub struct SearchParams {
    pub addr: Option<IpAddr>,
    pub mxid: Option<[u8; 32]>,
    pub expected_devices: usize,
    pub device_state: Option<DeviceState>,
}

impl Default for SearchParams {
    fn default() -> (params: Self)
        ensures
            params.addr is None,
            params.mxid is None,
            params.expected_devices == 0,
            params.device_state is None,
    {
        SearchParams { addr: None, mxid: None, expected_devices: 0, device_state: None }
    }
}

impl SearchParams {
    /// Whether the request goes to the whole network: unless one address is looked for and no
    /// serial number.
    pub fn broadcasts(&self) -> (broadcasts: bool)
        ensures
            broadcasts == (self.addr is None || self.mxid is Some),
    {
        self.addr.is_none() || (self.addr.is_some() && self.mxid.is_some())
    }

    /// The state looked for.
    pub open spec fn spec_target_state(&self) -> DeviceState {
        match self.device_state {
            Some(state) => state,
            None => DeviceState::Any,
        }
    }

    /// The state looked for.
    pub fn target_state(&self) -> (state: DeviceState)
        ensures
            state == self.spec_target_state(),
    {
        self.device_state.unwrap_or(DeviceState::Any)
    }

    /// Whether `response`, as it came from `from`, is that of a device looked for: a plain
    /// response to a request for devices, from the address, with the serial number and in the
    /// state that are looked for, as far as any are.
    pub open spec fn matches(&self, response: Seq<u8>, from: AddrView) -> bool {
        &&& response.len() == RESPONSE_LEN
        &&& wire::from_le32(response.subrange(0, 4)) == HostCommand::DeviceDiscover.spec_code()
        &&& self.spec_target_state() == DeviceState::Any || self.spec_target_state() == state_of(
            wire::from_le32(response.subrange(36, 40)),
        )
        &&& self.addr matches Some(addr) ==> addr@ == from
        &&& self.mxid matches Some(mxid) ==> mxid@ == response.subrange(4, 36)
    }

    /// The device that sent `datagram`, if it is one that is looked for. Only its first bytes
    /// are given where it is longer than an extended response.
    pub fn identify(&self, datagram: &[u8], from: IpAddr) -> (device: Option<IpDevice>)
        requires
            datagram@.len() <= RESPONSE_EXT_LEN,
        ensures
            match device {
                Some(device) => {
                    &&& self.matches(datagram@, from@)
                    &&& device.addr == from
                    &&& device.mxid@ == datagram@.subrange(4, 36)
                    &&& device.state == state_of(wire::from_le32(datagram@.subrange(36, 40)))
                    &&& device.port is None
                    &&& self.mxid matches Some(mxid) ==> device.mxid@ == mxid@
                    &&& self.addr matches Some(addr) ==> device.addr@ == addr@
                    &&& self.device_state matches Some(state) ==> state == DeviceState::Any
                        || device.state == state
                },
                None => !self.matches(datagram@, from@),
            },
    {
        let len: usize = datagram.len();
        if len < RESPONSE_LEN {
            return None;
        }
        let mut buffer: Vec<u8> = vstd::slice::slice_to_vec(datagram);
        buffer.resize(RESPONSE_EXT_LEN, 0);
        let recv = DeviceDiscoveryResponseExt::parse(buffer.as_slice());
        assert(buffer@.subrange(0, 4) =~= datagram@.subrange(0, 4));
        assert(buffer@.subrange(4, 36) =~= datagram@.subrange(4, 36));
        assert(buffer@.subrange(36, 40) =~= datagram@.subrange(36, 40));
        if !recv.valid_device_discovery(self.target_state()) {
            return None;
        }
        match &self.addr {
            Some(addr) => if !addr.is(&from) {
                return None;
            },
            None => {},
        }
        match &self.mxid {
            Some(mxid) => if !name::same_bytes(mxid.as_slice(), recv.mxid.as_slice()) {
                return None;
            },
            None => {},
        }
        let state = recv.device_state();
        proof {
            host_command_round_trip(HostCommand::DeviceDiscover);
        }
        match recv.host_command() {
            Some(HostCommand::DeviceDiscover) => if len != RESPONSE_LEN {
                None
            } else {
                Some(IpDevice { addr: from, mxid: recv.mxid, state, port: None })
            },
            Some(HostCommand::DeviceDiscoveryEx) => if len != RESPONSE_EXT_LEN {
                None
            } else {
                Some(IpDevice { addr: from, mxid: recv.mxid, state, port: Some(recv.port_http) })
            },
            _ => None,
        }
    }

    /// Adds the device that sent `datagram` to those found, if it is one that is looked for.
    pub fn device_discovery(&self, datagram: &[u8], from: IpAddr, devices: &mut Vec<IpDevice>)
        requires
            datagram@.len() <= RESPONSE_EXT_LEN,
        ensures
            self.matches(datagram@, from@) ==> {
                &&& final(devices)@.len() == old(devices)@.len() + 1
                &&& final(devices)@.drop_last() == old(devices)@
                &&& final(devices)@.last().addr == from
                &&& final(devices)@.last().mxid@ == datagram@.subrange(4, 36)
                &&& final(devices)@.last().state == state_of(
                    wire::from_le32(datagram@.subrange(36, 40)),
                )
                &&& final(devices)@.last().port is None
                &&& self.mxid matches Some(mxid) ==> final(devices)@.last().mxid@ == mxid@
                &&& self.addr matches Some(addr) ==> final(devices)@.last().addr@ == addr@
            },
            !self.matches(datagram@, from@) ==> final(devices)@ == old(devices)@,
    {
        if let Some(device) = self.identify(datagram, from) {
            devices.push(device);
            assert(devices@.drop_last() =~= old(devices)@);
        }
    }
}

/// The request for devices, as it stands on the wire.
pub fn discovery_request() -> (bytes: Vec<u8>)
    ensures
        bytes@ == wire::le32(HostCommand::DeviceDiscover.spec_code()),
{
    wire::word_bytes(HostCommand::DeviceDiscover.code())
}

/// The addresses of a network interface, of `N` octets each.
pub struct InterfaceAddress<const N: usize> {
    pub address: [u8; N],
    pub netmask: Option<[u8; N]>,
    pub associated_address: Option<[u8; N]>,
}

/// The addresses of a network interface.
pub enum Address {
    V4(InterfaceAddress<4>),
    V6(InterfaceAddress<16>),
    Mac([u8; 6]),
}

/// A network interface of the host.
pub struct Interface {
    pub up: bool,
    pub running: bool,
    pub broadcast: bool,
    pub address: Address,
}

/// The part of an address that a netmask leaves to the host.
pub open spec fn host_part(address: Seq<u8>, netmask: Seq<u8>) -> Seq<u8> {
    Seq::new(address.len(), |i: int| address[i] & !netmask[i])
}

/// An address without a netmask is left to the host in full.
pub proof fn unmasked_address_is_kept(address: Seq<u8>)
    ensures
        host_part(address, Seq::new(address.len(), |i: int| 0u8)) == address,
{
    let netmask = Seq::new(address.len(), |i: int| 0u8);
    assert forall|i: int| 0 <= i < address.len() implies host_part(address, netmask)[i]
        == address[i] by {
        let octet = address[i];
        assert(octet & !0u8 == octet) by (bit_vector);
    }
    assert(host_part(address, netmask) =~= address);
}

impl<const N: usize> InterfaceAddress<N> {
    /// The associated address where it is one to broadcast to, else what the netmask leaves to
    /// the host of the interface's own address.
    pub open spec fn spec_target(&self, broadcast: bool) -> Seq<u8> {
        match (self.associated_address, broadcast) {
            (Some(associated), true) => associated@,
            _ => host_part(
                self.address@,
                match self.netmask {
                    Some(netmask) => netmask@,
                    None => Seq::new(N as nat, |i: int| 0u8),
                },
            ),
        }
    }

    /// Where a request on the interface goes.
    pub fn target(&self, broadcast: bool) -> (target: [u8; N])
        ensures
            target@ == self.spec_target(broadcast),
    {
        if let (Some(associated), true) = (self.associated_address, broadcast) {
            return associated;
        }
        let unspecified: [u8; N] = vstd::array::array_fill_for_copy_types(0u8);
        assert(unspecified@ =~= Seq::new(N as nat, |i: int| 0u8));
        let netmask: [u8; N] = self.netmask.unwrap_or(unspecified);
        let mut octets: [u8; N] = unspecified;
        let mut i: usize = 0;
        while i < N
            invariant
                i <= N,
                forall|j: int|
                    0 <= j < i ==> octets@[j] == self.address@[j] & !(#[trigger] netmask@[j]),
            decreases N - i,
        {
            octets[i] = self.address[i] & !netmask[i];
            i = i + 1;
        }
        assert(octets@ =~= host_part(self.address@, netmask@));
        octets
    }
}

impl Interface {
    /// Where the request goes on this interface, if anywhere: interfaces that are not in use
    /// and those without an address on the network are passed over.
    pub open spec fn spec_target(&self) -> Option<AddrView> {
        if self.up && self.running {
            match self.address {
                Address::V4(address) => Some(AddrView::V4(address.spec_target(self.broadcast))),
                Address::V6(address) => Some(AddrView::V6(address.spec_target(self.broadcast))),
                Address::Mac(_) => None,
            }
        } else {
            None
        }
    }

    /// Where the request goes on this interface, if anywhere.
    pub fn target(&self) -> (target: Option<IpAddr>)
        ensures
            match target {
                Some(addr) => self.spec_target() == Some(addr@),
                None => self.spec_target() is None,
            },
    {
        if !(self.up && self.running) {
            return None;
        }
        match &self.address {
            Address::V4(address) => Some(IpAddr::V4(address.target(self.broadcast))),
            Address::V6(address) => Some(IpAddr::V6(address.target(self.broadcast))),
            Address::Mac(_) => None,
        }
    }
}

/// Where the request goes on each of `interfaces`, in their order.
pub open spec fn interface_targets(interfaces: Seq<Interface>) -> Seq<AddrView>
    decreases interfaces.len(),
{
    if interfaces.len() == 0 {
        Seq::empty()
    } else {
        let before = interface_targets(interfaces.drop_last());
        match interfaces.last().spec_target() {
            Some(target) => before.push(target),
            None => before,
        }
    }
}

/// The address of every host on the local network.
pub open spec fn everyone() -> AddrView {
    AddrView::V4(seq![255u8, 255u8, 255u8, 255u8])
}

/// Where the request goes to reach every device: to each interface that is in use and then to
/// every host on the local network.
pub fn broadcast_targets(interfaces: &[Interface]) -> (targets: Vec<IpAddr>)
    ensures
        targets@.map_values(|addr: IpAddr| addr@) == interface_targets(interfaces@).push(
            everyone(),
        ),
{
    let mut targets: Vec<IpAddr> = Vec::new();
    let mut i: usize = 0;
    assert(targets@.map_values(|addr: IpAddr| addr@) =~= Seq::empty());
    while i < interfaces.len()
        invariant
            i <= interfaces@.len(),
            targets@.map_values(|addr: IpAddr| addr@) == interface_targets(
                interfaces@.take(i as int),
            ),
        decreases interfaces@.len() - i,
    {
        let ghost before = targets@;
        assert(interfaces@.take(i + 1).drop_last() =~= interfaces@.take(i as int));
        match interfaces[i].target() {
            Some(addr) => {
                targets.push(addr);
                assert(targets@.map_values(|addr: IpAddr| addr@) =~= before.map_values(
                    |addr: IpAddr| addr@,
                ).push(addr@));
            },
            None => {},
        }
        i = i + 1;
    }
    assert(interfaces@.take(i as int) =~= interfaces@);
    let ghost before = targets@;
    let addr = IpAddr::V4([255, 255, 255, 255]);
    targets.push(addr);
    assert(addr@->V4_0 =~= seq![255u8, 255u8, 255u8, 255u8]);
    assert(targets@.map_values(|addr: IpAddr| addr@) =~= before.map_values(
        |addr: IpAddr| addr@,
    ).push(addr@));
    targets
}

/// The commands by their numbers; no other number stands for one.
pub proof fn host_command_codes(code: u32)
    ensures
        HostCommand::NoCommand.spec_code() == 0,
        HostCommand::DeviceDiscover.spec_code() == 1,
        HostCommand::DeviceInfo.spec_code() == 2,
        HostCommand::Reset.spec_code() == 3,
        HostCommand::DeviceDiscoveryEx.spec_code() == 4,
        code > 4 ==> HostCommand::from_code(code) == Err::<HostCommand, u32>(code),
{
}

/// The numbers by which devices tell what they run; any other tells nothing.
pub proof fn device_state_codes(code: u32)
    ensures
        state_of(code) == DeviceState::Booted <==> code == 1,
        state_of(code) == DeviceState::Bootloader <==> code == 3,
        state_of(code) == DeviceState::FlashBooted <==> code == 4,
        state_of(code) == DeviceState::Any <==> code == 0 || code == 2 || code > 4,
{
}

/// How requests and responses are exchanged.
pub proof fn discovery_protocol()
    ensures
        RESPONSE_LEN == 40,
        RESPONSE_EXT_LEN == 52,
        BROADCAST_PORT == 11491,
        DEVICE_DISCOVERY_TIMEOUT_MS == 200,
        IpDevice::SOCKET_PORT == 11490,
        wire::le32(HostCommand::DeviceDiscover.spec_code()) == seq![1u8, 0u8, 0u8, 0u8],
{
    reveal(wire::le32);
    assert(wire::le32(HostCommand::DeviceDiscover.spec_code()) =~= seq![1u8, 0u8, 0u8, 0u8]);
}

/// What is found is what was looked for: with the serial number, at the address and in the state
/// that were asked for, as far as any were. It is what the response says of itself: the serial
/// number is that in the response, octet for octet, and so is the state.
pub proof fn found_devices_were_looked_for(
    params: &SearchParams,
    datagram: &[u8],
    from: IpAddr,
    found: Option<IpDevice>,
)
    requires
        call_ensures(SearchParams::identify, (params, datagram, from), found),
    ensures
        found matches Some(device) ==> {
            &&& datagram@.len() == 40
            &&& datagram@.take(4) == seq![1u8, 0u8, 0u8, 0u8]
            &&& params.mxid matches Some(mxid) ==> device.mxid@ == mxid@
            &&& params.addr matches Some(addr) ==> addr@ == from@
            &&& params.device_state matches Some(state) ==> state == DeviceState::Any
                || device.state == state
            &&& device.addr == from
            &&& device.port is None
            &&& forall|i: int| 0 <= i < 32 ==> #[trigger] device.mxid@[i] == datagram@[4 + i]
            &&& device.state == DeviceState::Booted <==> datagram@.skip(36) == seq![
                1u8,
                0u8,
                0u8,
                0u8,
            ]
            &&& device.state == DeviceState::Bootloader <==> datagram@.skip(36) == seq![
                3u8,
                0u8,
                0u8,
                0u8,
            ]
            &&& device.state == DeviceState::FlashBooted <==> datagram@.skip(36) == seq![
                4u8,
                0u8,
                0u8,
                0u8,
            ]
        },
{
    if let Some(device) = found {
        response_words(datagram@);
        assert forall|i: int| 0 <= i < 32 implies #[trigger] device.mxid@[i] == datagram@[4
            + i] by {
            assert(device.mxid@[i] == datagram@.subrange(4, 36)[i]);
        }
    }
}

/// Every device that was looked for is found: nothing passes over a response to the request of
/// the right length that has the serial number, the address and the state that were asked for.
pub proof fn what_is_looked_for_is_found(
    params: &SearchParams,
    datagram: &[u8],
    from: IpAddr,
    found: Option<IpDevice>,
)
    requires
        call_ensures(SearchParams::identify, (params, datagram, from), found),
        datagram@.len() == 40,
        datagram@.take(4) == seq![1u8, 0u8, 0u8, 0u8],
        params.mxid matches Some(mxid) ==> forall|i: int|
            0 <= i < 32 ==> mxid@[i] == #[trigger] datagram@[4 + i],
        params.addr matches Some(addr) ==> addr@ == from@,
        params.device_state matches Some(state) ==> match state {
            DeviceState::Any => true,
            DeviceState::Booted => datagram@.skip(36) == seq![1u8, 0u8, 0u8, 0u8],
            DeviceState::Bootloader => datagram@.skip(36) == seq![3u8, 0u8, 0u8, 0u8],
            DeviceState::FlashBooted => datagram@.skip(36) == seq![4u8, 0u8, 0u8, 0u8],
        },
    ensures
        found is Some,
{
    response_words(datagram@);
    if let Some(mxid) = params.mxid {
        assert forall|i: int| 0 <= i < 32 implies mxid@[i] == datagram@.subrange(4, 36)[i] by {
            assert(mxid@[i] == datagram@[4 + i]);
        }
        assert(mxid@ =~= datagram@.subrange(4, 36));
    }
}

/// A response by its first and its last word.
proof fn response_words(response: Seq<u8>)
    requires
        response.len() == 40,
    ensures
        wire::from_le32(response.subrange(0, 4)) == 1 <==> response.take(4) == seq![
            1u8,
            0u8,
            0u8,
            0u8,
        ],
        forall|x: u8|
            wire::from_le32(response.subrange(36, 40)) == x <==> response.skip(36)
                == #[trigger] seq![x, 0u8, 0u8, 0u8],
{
    assert(response.subrange(0, 4) =~= response.take(4));
    assert(response.subrange(36, 40) =~= response.skip(36));
    wire::from_le32_round_trip(response.take(4));
    wire::from_le32_round_trip(response.skip(36));
    assert forall|x: u8| wire::le32(x as u32) == #[trigger] seq![x, 0u8, 0u8, 0u8] by {
        reveal(wire::le32);
        assert(wire::le32(x as u32) =~= seq![x, 0u8, 0u8, 0u8]);
    }
    assert forall|x: u8|
        wire::from_le32(response.subrange(36, 40)) == x <==> response.skip(36) == #[trigger] seq![
            x,
            0u8,
            0u8,
            0u8,
        ] by {
        wire::le32_round_trip(x as u32);
    }
    wire::le32_round_trip(1);
    assert(wire::le32(1u8 as u32) == seq![1u8, 0u8, 0u8, 0u8]);
}

/// The request goes where the interface is told to broadcast. Where there is no such address,
/// each octet of it has the bits of the interface's own that the netmask does not cover, all of
/// them where there is no netmask.
pub proof fn interface_address_targets<const N: usize>(addresses: InterfaceAddress<N>)
    ensures
        addresses.spec_target(true).len() == N,
        addresses.spec_target(false).len() == N,
        addresses.associated_address matches Some(associated) ==> addresses.spec_target(true)
            == associated@,
        addresses.associated_address is None ==> addresses.spec_target(true)
            == addresses.spec_target(false),
        addresses.netmask is None ==> addresses.spec_target(false) == addresses.address@,
        addresses.netmask matches Some(netmask) ==> forall|i: int|
            0 <= i < N ==> #[trigger] addresses.spec_target(false)[i] == addresses.address@[i]
                & !netmask@[i],
{
    unmasked_address_is_kept(addresses.address@);
    assert(addresses.address@.len() == N);
}

/// Requests go out on an interface if it is up and running and has an address on the network.
pub proof fn interfaces_in_use_are_targets(interface: Interface)
    ensures
        interface.spec_target() is Some <==> interface.up && interface.running && !(
        interface.address is Mac),
        interface.up && interface.running ==> (interface.address matches Address::V4(addresses)
            ==> interface.spec_target() == Some(
            AddrView::V4(addresses.spec_target(interface.broadcast)),
        )),
        interface.up && interface.running ==> (interface.address matches Address::V6(addresses)
            ==> interface.spec_target() == Some(
            AddrView::V6(addresses.spec_target(interface.broadcast)),
        )),
{
}

/// The interfaces' targets stand in the interfaces' order: those of a first part come first, and
/// those of the rest come after.
pub proof fn targets_stand_in_order(first: Seq<Interface>, rest: Seq<Interface>)
    ensures
        interface_targets(first + rest) == interface_targets(first) + interface_targets(rest),
    decreases rest.len(),
{
    if rest.len() == 0 {
        assert(first + rest =~= first);
        assert(interface_targets(first) + interface_targets(rest) =~= interface_targets(first));
    } else {
        targets_stand_in_order(first, rest.drop_last());
        assert((first + rest).drop_last() =~= first + rest.drop_last());
        assert(interface_targets(first + rest) =~= interface_targets(first) + interface_targets(
            rest,
        ));
    }
}

/// A single interface has its target, if it has one, and nothing else.
pub proof fn one_interface_has_one_target(interface: Interface)
    ensures
        interface_targets(Seq::empty()).len() == 0,
        interface_targets(seq![interface]) == match interface.spec_target() {
            Some(target) => seq![target],
            None => Seq::empty(),
        },
{
    let one = seq![interface];
    assert(one.drop_last() =~= Seq::empty());
    assert(interface_targets(Seq::empty()) =~= Seq::<AddrView>::empty());
    assert(interface_targets(one) =~= match interface.spec_target() {
        Some(target) => seq![target],
        None => Seq::empty(),
    });
}

/// Whatever interfaces there are, the last request goes to 255.255.255.255, and those before it
/// to the interfaces.
pub proof fn everyone_is_asked_last(interfaces: &[Interface], targets: Vec<IpAddr>)
    requires
        call_ensures(broadcast_targets, (interfaces,), targets),
    ensures
        targets@.len() == interface_targets(interfaces@).len() + 1,
        targets@.last()@ == AddrView::V4(seq![255u8, 255u8, 255u8, 255u8]),
        forall|i: int|
            0 <= i < targets@.len() - 1 ==> (#[trigger] targets@[i])@ == interface_targets(
                interfaces@,
            )[i],
{
    let seen = targets@.map_values(|addr: IpAddr| addr@);
    assert(seen.len() == targets@.len());
    assert forall|i: int| 0 <= i < targets@.len() - 1 implies (#[trigger] targets@[i])@
        == interface_targets(interfaces@)[i] by {
        assert(seen[i] == targets@[i]@);
    }
    assert(seen[targets@.len() - 1] == targets@.last()@);
}

/// Each field of a response stands in its place: the command, the 32 octets of the serial number,
/// the state, the protocol and the platform, and last the two ports.
pub proof fn responses_are_read_in_place(bytes: &[u8], response: DeviceDiscoveryResponseExt)
    requires
        bytes@.len() == 52,
        call_ensures(DeviceDiscoveryResponseExt::parse, (bytes,), response),
    ensures
        wire::le32(response.command) + response.mxid@ + wire::le32(response.state) + wire::le32(
            response.protocol,
        ) + wire::le32(response.platform) == bytes@.take(48),
        response.port_http == bytes@[48] + 256 * bytes@[49],
        response.port_https == bytes@[50] + 256 * bytes@[51],
{
    wire::from_le32_round_trip(bytes@.subrange(0, 4));
    wire::from_le32_round_trip(bytes@.subrange(36, 40));
    wire::from_le32_round_trip(bytes@.subrange(40, 44));
    wire::from_le32_round_trip(bytes@.subrange(44, 48));
    assert(wire::le32(response.command) + response.mxid@ + wire::le32(response.state) + wire::le32(
        response.protocol,
    ) + wire::le32(response.platform) =~= bytes@.take(48));
}

/// A response is that of a device in the state looked for if it answers the request and tells that
/// state; where any state will do, every answer to the request will.
pub proof fn states_looked_for_are_told(
    response: &DeviceDiscoveryResponseExt,
    target: DeviceState,
    state: DeviceState,
    valid: bool,
)
    requires
        call_ensures(DeviceDiscoveryResponseExt::device_state, (response,), state),
        call_ensures(
            DeviceDiscoveryResponseExt::valid_device_discovery,
            (response, target),
            valid,
        ),
    ensures
        valid <==> response.command == 1 && (target == DeviceState::Any || target == state),
        state == DeviceState::Booted <==> response.state == 1,
        state == DeviceState::Bootloader <==> response.state == 3,
        state == DeviceState::FlashBooted <==> response.state == 4,
{
}

/// The command in a response is the one of that number.
pub proof fn commands_are_told(response: &DeviceDiscoveryResponseExt, command: Option<HostCommand>)
    requires
        call_ensures(DeviceDiscoveryResponseExt::host_command, (response,), command),
    ensures
        command is Some <==> response.command <= 4,
        command matches Some(command) ==> command.spec_code() == response.command,
{
    host_command_round_trip(HostCommand::NoCommand);
    host_command_round_trip(HostCommand::DeviceDiscover);
    host_command_round_trip(HostCommand::DeviceInfo);
    host_command_round_trip(HostCommand::Reset);
    host_command_round_trip(HostCommand::DeviceDiscoveryEx);
}

/// Addresses are the same where they are of the same kind and all their octets are the same.
pub proof fn addresses_are_the_same_by_octet(a: IpAddr, b: IpAddr, same: bool)
    requires
        call_ensures(IpAddr::is, (&a, &b), same),
    ensures
        same <==> match (a, b) {
            (IpAddr::V4(a), IpAddr::V4(b)) => forall|i: int|
                0 <= i < 4 ==> #[trigger] a@[i] == b@[i],
            (IpAddr::V6(a), IpAddr::V6(b)) => forall|i: int|
                0 <= i < 16 ==> #[trigger] a@[i] == b@[i],
            _ => false,
        },
{
    match (a, b) {
        (IpAddr::V4(a), IpAddr::V4(b)) => {
            if forall|i: int| 0 <= i < 4 ==> #[trigger] a@[i] == b@[i] {
                assert(a@ =~= b@);
            }
        },
        (IpAddr::V6(a), IpAddr::V6(b)) => {
            if forall|i: int| 0 <= i < 16 ==> #[trigger] a@[i] == b@[i] {
                assert(a@ =~= b@);
            }
        },
        _ => {},
    }
}

/// A device is connected to by the port that it names, else by 11490, and has its state and its
/// addresses still when it is booted.
pub proof fn devices_are_connected_to(
    device: IpDevice,
    firmware: &[u8],
    port: u16,
    booted: IpDevice,
)
    requires
        call_ensures(IpDevice::socket_port, (&device,), port),
        call_ensures(IpDevice::boot, (device, firmware), booted),
    ensures
        port == match device.port {
            Some(port) => port,
            None => 11490,
        },
        booted == device,
{
}

/// The serial number is shown up to its first zero, if that is text.
pub proof fn serial_numbers_are_shown(device: &IpDevice, shown: Option<&str>)
    requires
        call_ensures(IpDevice::mxid, (device,), shown),
    ensures
        shown matches Some(text) ==> {
            &&& text.spec_bytes().is_prefix_of(device.mxid@)
            &&& !text.spec_bytes().contains(0)
            &&& text.spec_bytes().len() == 32 || device.mxid@[text.spec_bytes().len() as int] == 0
        },
{
    name::names_end_at_the_first_zero(device.mxid@);
}

/// Everyone is asked unless one address is looked for and no serial number, and every state will
/// do unless one is looked for.
pub proof fn searches_go_by_what_is_looked_for(
    params: &SearchParams,
    broadcasts: bool,
    state: DeviceState,
)
    requires
        call_ensures(SearchParams::broadcasts, (params,), broadcasts),
        call_ensures(SearchParams::target_state, (params,), state),
    ensures
        !broadcasts <==> params.addr is Some && params.mxid is None,
        params.device_state matches Some(wanted) ==> state == wanted,
        params.device_state is None ==> state == DeviceState::Any,
{
}

/// The devices that were found stay, in their order, and at most the one that responded is added.
/// Where a serial number or an address is looked for, it has that.
pub proof fn found_devices_are_added(
    params: &SearchParams,
    datagram: &[u8],
    from: IpAddr,
    devices: &mut Vec<IpDevice>,
)
    requires
        call_ensures(SearchParams::device_discovery, (params, datagram, from, devices), ()),
    ensures
        old(devices)@.is_prefix_of(final(devices)@),
        final(devices)@.len() <= old(devices)@.len() + 1,
        final(devices)@.len() > old(devices)@.len() ==> {
            let device = final(devices)@.last();
            &&& params.mxid matches Some(mxid) ==> device.mxid@ == mxid@
            &&& params.addr matches Some(addr) ==> device.addr@ == addr@
            &&& device.addr == from
            &&& device.port is None
            &&& device.mxid@ == datagram@.subrange(4, 36)
        },
{
    if params.matches(datagram@, from@) {
        assert(old(devices)@ =~= final(devices)@.take(old(devices)@.len() as int));
    } else {
        assert(old(devices)@ =~= final(devices)@.take(old(devices)@.len() as int));
    }
}

/// The request is the number 1 in four bytes.
pub proof fn requests_are_one_word(bytes: Vec<u8>)
    requires
        call_ensures(discovery_request, (), bytes),
    ensures
        bytes@ == seq![1u8, 0u8, 0u8, 0u8],
{
    discovery_protocol();
}

/// What is chosen unless set.
pub proof fn choices_unless_set(
    device_state: DeviceState,
)
    ensures
        call_ensures(DeviceState::default, (), device_state) ==> device_state
            == DeviceState::Any,
{
}

/// Unless set, nothing in particular is looked for.
pub proof fn searches_unless_set(params: SearchParams, response: DeviceDiscoveryResponseExt)
    requires
        call_ensures(SearchParams::default, (), params),
        call_ensures(DeviceDiscoveryResponseExt::default, (), response),
    ensures
        params.addr is None,
        params.mxid is None,
        params.expected_devices == 0,
        params.device_state is None,
        response.command == 0,
        forall|i: int| 0 <= i < 32 ==> #[trigger] response.mxid@[i] == 0,
        response.state == 0,
        response.protocol == 0,
        response.platform == 0,
        response.port_http == 0,
        response.port_https == 0,
{
}

/// Where a request goes on an interface is what its addresses say.
pub proof fn targets_are_those_of_the_interface(
    interface: &Interface,
    target: Option<IpAddr>,
)
    requires
        call_ensures(Interface::target, (interface,), target),
    ensures
        target is Some <==> interface.up && interface.running && !(interface.address is Mac),
        target matches Some(addr) ==> match interface.address {
            Address::V4(addresses) => addr@ == AddrView::V4(
                addresses.spec_target(interface.broadcast),
            ),
            Address::V6(addresses) => addr@ == AddrView::V6(
                addresses.spec_target(interface.broadcast),
            ),
            Address::Mac(_) => false,
        },
{
}

} // verus!
