use depthai::discovery::{
    broadcast_targets, discovery_request, Address, DeviceDiscoveryResponseExt, DeviceState, HostCommand, Interface,
    InterfaceAddress, IpAddr, IpDevice, SearchParams,
};

fn response(command: u32, mxid: &[u8; 32], state: u32) -> Vec<u8> {
    let mut bytes = command.to_le_bytes().to_vec();
    bytes.extend(mxid);
    bytes.extend(state.to_le_bytes());
    bytes
}

fn mxid(text: &[u8]) -> [u8; 32] {
    let mut mxid = [0; 32];
    mxid[..text.len()].copy_from_slice(text);
    mxid
}

const ADDR: IpAddr = IpAddr::V4([10, 0, 0, 5]);

#[test]
fn devices_are_found_by_their_responses() {
    let params = SearchParams::default();
    let mut devices = vec![];
    params.device_discovery(&response(1, &mxid(b"1944"), 3), ADDR, &mut devices);
    assert_eq!(devices.len(), 1);
    assert!(matches!(devices[0].addr, IpAddr::V4([10, 0, 0, 5])));
    assert_eq!(devices[0].mxid(), Some("1944"));
    assert_eq!(devices[0].state, DeviceState::Bootloader);
    assert_eq!(devices[0].port, None);
    assert_eq!(devices[0].socket_port(), 11490);
    params.device_discovery(&response(1, &mxid(b"1"), 1), ADDR, &mut devices);
    assert_eq!(devices.len(), 2);
    assert_eq!(devices[1].state, DeviceState::Booted);
}

#[test]
fn other_datagrams_are_passed_over() {
    let params = SearchParams::default();
    let good = response(1, &mxid(b"1944"), 3);
    assert!(params.identify(&good, ADDR).is_some());
    assert!(params.identify(&good[..39], ADDR).is_none());
    assert!(params.identify(&[], ADDR).is_none());
    let mut long = good.clone();
    long.push(0);
    assert!(params.identify(&long, ADDR).is_none());
    long.extend([0; 11]);
    assert_eq!(long.len(), 52);
    assert!(params.identify(&long, ADDR).is_none());
    long[0] = 4;
    assert!(params.identify(&long, ADDR).is_none());
    for command in [0, 2, 3, 4, 5] {
        assert!(params.identify(&response(command, &mxid(b"1944"), 3), ADDR).is_none());
    }
}

#[test]
fn only_what_is_looked_for_is_found() {
    let good = response(1, &mxid(b"1944"), 4);
    let with = |addr, mxid, device_state| SearchParams { addr, mxid, expected_devices: 0, device_state };
    assert!(with(Some(ADDR), None, None).identify(&good, ADDR).is_some());
    assert!(with(Some(IpAddr::V4([10, 0, 0, 6])), None, None).identify(&good, ADDR).is_none());
    assert!(with(Some(IpAddr::V6([0; 16])), None, None).identify(&good, ADDR).is_none());
    assert!(with(None, Some(mxid(b"1944")), None).identify(&good, ADDR).is_some());
    assert!(with(None, Some(mxid(b"1945")), None).identify(&good, ADDR).is_none());
    assert!(with(None, None, Some(DeviceState::FlashBooted)).identify(&good, ADDR).is_some());
    assert!(with(None, None, Some(DeviceState::Any)).identify(&good, ADDR).is_some());
    assert!(with(None, None, Some(DeviceState::Booted)).identify(&good, ADDR).is_none());
}

#[test]
fn requests_go_to_the_network_unless_one_address_is_meant() {
    let with = |addr, mxid| SearchParams { addr, mxid, expected_devices: 0, device_state: None };
    assert!(with(None, None).broadcasts());
    assert!(with(None, Some([0; 32])).broadcasts());
    assert!(with(Some(ADDR), Some([0; 32])).broadcasts());
    assert!(!with(Some(ADDR), None).broadcasts());
    assert_eq!(discovery_request(), vec![1, 0, 0, 0]);
}

fn v4(up: bool, running: bool, broadcast: bool, netmask: Option<[u8; 4]>, associated: Option<[u8; 4]>) -> Interface {
    Interface {
        up,
        running,
        broadcast,
        address: Address::V4(InterfaceAddress {
            address: [192, 168, 1, 77],
            netmask,
            associated_address: associated,
        }),
    }
}

fn octets(addr: &IpAddr) -> Vec<u8> {
    match addr {
        IpAddr::V4(octets) => octets.to_vec(),
        IpAddr::V6(octets) => octets.to_vec(),
    }
}

#[test]
fn every_interface_in_use_is_asked() {
    let mut v6 = [0; 16];
    v6[0] = 0xfe;
    v6[1] = 0x80;
    v6[15] = 0x13;
    let mut mask = [0; 16];
    mask[0] = 0xff;
    mask[1] = 0xff;
    let mut host = v6;
    host[0] = 0;
    host[1] = 0;
    let interfaces = vec![
        v4(true, true, true, Some([255, 255, 255, 0]), Some([192, 168, 1, 255])),
        v4(true, false, true, Some([255, 255, 255, 0]), Some([192, 168, 1, 255])),
        v4(false, true, true, None, Some([192, 168, 1, 255])),
        v4(true, true, false, Some([255, 255, 255, 0]), Some([192, 168, 1, 255])),
        v4(true, true, true, Some([255, 255, 0, 0]), None),
        v4(true, true, true, None, None),
        Interface { up: true, running: true, broadcast: true, address: Address::Mac([1; 6]) },
        Interface {
            up: true,
            running: true,
            broadcast: true,
            address: Address::V6(InterfaceAddress { address: v6, netmask: Some(mask), associated_address: None }),
        },
    ];
    let targets: Vec<Vec<u8>> = broadcast_targets(&interfaces).iter().map(octets).collect();
    assert_eq!(
        targets,
        vec![
            vec![192, 168, 1, 255],
            vec![0, 0, 0, 77],
            vec![0, 0, 1, 77],
            vec![192, 168, 1, 77],
            host.to_vec(),
            vec![255, 255, 255, 255],
        ]
    );
    assert_eq!(broadcast_targets(&[]).len(), 1);
}

#[test]
fn serial_numbers_are_text() {
    let device = |mxid| IpDevice { addr: ADDR, mxid, state: DeviceState::Booted, port: Some(80) };
    assert_eq!(device([b'a'; 32]).mxid(), Some("a".repeat(32).as_str()));
    assert_eq!(device([0; 32]).mxid(), Some(""));
    let mut bad = mxid(b"ab");
    bad[1] = 0xff;
    assert_eq!(device(bad).mxid(), None);
    assert_eq!(device([0; 32]).socket_port(), 80);
    assert_eq!(device([3; 32]).boot(&[]).mxid, [3; 32]);
}

#[test]
fn host_commands_have_numbers() {
    for code in 0..5 {
        assert_eq!(HostCommand::try_from(code).unwrap().code(), code);
    }
    assert_eq!(HostCommand::try_from(5), Err(5));
}

#[test]
fn responses_are_empty_at_first() {
    let response = DeviceDiscoveryResponseExt::default();
    assert_eq!((response.command, response.mxid, response.state), (0, [0; 32], 0));
    assert_eq!((response.protocol, response.platform), (0, 0));
    assert_eq!((response.port_http, response.port_https), (0, 0));
    assert_eq!(response.device_state(), DeviceState::Any);
}
