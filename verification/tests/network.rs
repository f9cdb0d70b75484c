use droidbridge::bytes::{machine_order, order_of_one, ByteOrder};
use droidbridge::contract::common::{ErrorCode, UuidV4};
use droidbridge::contract::internal::Fence;
use droidbridge::contract::results::{
    DiagnosticOutcome, InterfaceAddress, NetworkDiagnoseResult, RouteEntry, SocketProtocol,
};
use droidbridge::contract::tools::NetworkScope;
use droidbridge::daemon::network::address::{
    address_text, ipv4_string, ipv6_string, Address, AF_INET, AF_INET6,
};
use droidbridge::daemon::network::dump::{Received, ReplyBuffer, NETLINK_REPLY_BYTES};
use droidbridge::daemon::network::inspect::{
    connectivity, diagnosed_links, diagnosed_routes, dns_servers, established_dns,
    established_interfaces, established_routes, established_sockets, observe_native_default,
    observes, route, route_target, NetworkFamily, SocketTable,
};
use droidbridge::daemon::network::netlink::{
    complete_prefix, complete_prefix_in, interface_entries, link_facts, link_facts_in,
    netlink_dump_request, reply_is_complete, reply_is_complete_in, SourceDump, RTM_GETLINK,
};
use droidbridge::daemon::network::observer::{
    observer_step, observes_anew, read_result, read_window, NativeNetworkDefaultEventSource,
    NetworkDefaultSourceRegistration, ObserverStep, ObserverWait, ReadResult, ReadWindow,
};
use droidbridge::daemon::network::routes::{
    find_route, native_default_event_from_routes, observed_routes, route_contains, route_entries,
    route_prefix,
};
use droidbridge::daemon::network::sockets::{
    parse_sockets, socket_protocol_for_table, socket_tables,
};

fn id(value: u8) -> UuidV4 {
    UuidV4::parse(format!("00000000-0000-4000-8000-{value:012x}")).unwrap()
}

fn attribute(kind: u16, value: &[u8]) -> Vec<u8> {
    let mut bytes = ((value.len() + 4) as u16).to_ne_bytes().to_vec();
    bytes.extend_from_slice(&kind.to_ne_bytes());
    bytes.extend_from_slice(value);
    while bytes.len() % 4 != 0 {
        bytes.push(0);
    }
    bytes
}

fn message(kind: u16, body: &[u8]) -> Vec<u8> {
    let mut bytes = ((body.len() + 16) as u32).to_ne_bytes().to_vec();
    bytes.extend_from_slice(&kind.to_ne_bytes());
    bytes.extend_from_slice(&[0; 10]);
    bytes.extend_from_slice(body);
    bytes
}

fn done() -> Vec<u8> {
    message(3, &[0; 4])
}

fn link(index: u32, flags: u32, name: &str, mtu: u32) -> Vec<u8> {
    let mut body = vec![0; 4];
    body.extend_from_slice(&index.to_ne_bytes());
    body.extend_from_slice(&flags.to_ne_bytes());
    body.extend_from_slice(&[0; 4]);
    let mut text = name.as_bytes().to_vec();
    text.push(0);
    body.extend_from_slice(&attribute(3, &text));
    body.extend_from_slice(&attribute(4, &mtu.to_ne_bytes()));
    message(16, &body)
}

fn address(family: u8, prefix: u8, index: u32, attributes: &[(u16, &[u8])]) -> Vec<u8> {
    let mut body = vec![family, prefix, 0, 0];
    body.extend_from_slice(&index.to_ne_bytes());
    for (kind, value) in attributes {
        body.extend_from_slice(&attribute(*kind, value));
    }
    message(20, &body)
}

fn routed(family: u8, prefix: u8, flags: u32, attributes: &[(u16, &[u8])]) -> Vec<u8> {
    let mut body = vec![family, prefix, 0, 0, 0, 0, 0, 0];
    body.extend_from_slice(&flags.to_ne_bytes());
    for (kind, value) in attributes {
        body.extend_from_slice(&attribute(*kind, value));
    }
    message(24, &body)
}

fn links() -> Vec<u8> {
    [link(1, 9, "lo", 65_536), link(2, 1, "wlan0", 1_500), done()].concat()
}

fn addresses() -> Vec<u8> {
    [
        address(AF_INET, 24, 2, &[(1, &[192, 168, 1, 9]), (2, &[192, 168, 1, 5])]),
        address(AF_INET6, 64, 2, &[(1, &[0xfe, 0x80, 0, 0, 0, 0, 0, 0, 0, 0, 0, 0, 0, 0, 0, 1])]),
        address(AF_INET, 8, 9, &[(2, &[10, 0, 0, 1])]),
        address(AF_INET, 8, 1, &[(2, &[127, 0, 0, 1])]),
        done(),
    ]
    .concat()
}

fn routes() -> Vec<u8> {
    [
        routed(AF_INET, 0, 0, &[(5, &[192, 168, 1, 1]), (4, &2u32.to_ne_bytes()), (6, &600u32.to_ne_bytes())]),
        routed(AF_INET, 24, 0, &[(1, &[192, 168, 1, 0]), (4, &2u32.to_ne_bytes())]),
        routed(AF_INET, 24, 0x200, &[(1, &[10, 1, 1, 0])]),
        routed(AF_INET, 33, 0, &[(1, &[10, 1, 1, 0])]),
        routed(AF_INET6, 64, 0, &[(1, &[0xfe, 0x80, 0, 0, 0, 0, 0, 0, 0, 0, 0, 0, 0, 0, 0, 0]), (4, &7u32.to_ne_bytes())]),
        done(),
    ]
    .concat()
}

fn whole(bytes: Vec<u8>) -> SourceDump {
    SourceDump {
        bytes,
        truncated: false,
    }
}

fn reason<T>(result: Result<T, droidbridge::error::DomainError>) -> &'static str {
    match result {
        Ok(_) => "",
        Err(error) => error.reason,
    }
}

#[test]
fn addresses_are_written_as_usual() {
    assert_eq!(ipv4_string(&[192, 168, 0, 1]), "192.168.0.1");
    let written = |groups: [u16; 8]| {
        let octets: Vec<u8> = groups.iter().flat_map(|group| group.to_be_bytes()).collect();
        ipv6_string(&octets)
    };
    assert_eq!(written([0; 8]), "::");
    assert_eq!(written([0, 0, 0, 0, 0, 0, 0, 1]), "::1");
    assert_eq!(written([0xfe80, 0, 0, 0, 0, 0, 0, 0xa]), "fe80::a");
    assert_eq!(written([1, 0, 0, 2, 0, 0, 0, 3]), "1:0:0:2::3");
    assert_eq!(written([1, 0, 0, 2, 0, 0, 3, 4]), "1::2:0:0:3:4");
    assert_eq!(written([1, 0, 2, 3, 4, 5, 6, 7]), "1:0:2:3:4:5:6:7");
    assert_eq!(written([1, 2, 3, 4, 5, 6, 0, 0]), "1:2:3:4:5:6::");
    assert_eq!(written([0, 0, 0, 0, 0, 0xffff, 0xc0a8, 1]), "::ffff:192.168.0.1");
    assert_eq!(written([0, 0, 0, 0, 0, 0, 0xc0a8, 1]), "::c0a8:1");
    assert_eq!(address_text(AF_INET, &Some(vec![1, 2, 3])), None);
    assert_eq!(address_text(AF_INET6, &Some(vec![1, 2, 3, 4])), None);
    assert_eq!(address_text(AF_INET, &None), None);
}

#[test]
fn a_reply_is_read_message_by_message() {
    let request = netlink_dump_request(ByteOrder::LittleEndian, RTM_GETLINK);
    assert_eq!(
        request,
        vec![32, 0, 0, 0, 18, 0, 1, 3, 0, 0, 0, 0, 0, 0, 0, 0, 0, 0, 0, 0, 0, 0, 0, 0, 0, 0, 0, 0, 0, 0, 0, 0]
    );
    assert!(reply_is_complete(&links()));
    assert!(!reply_is_complete(&link(1, 9, "lo", 65_536)));
    let cut = &links()[..70];
    assert!(!reply_is_complete(cut));
    assert_eq!(complete_prefix(cut), &links()[..48]);
    assert_eq!(complete_prefix(&links()), &links()[..]);
    let facts = link_facts(&links(), &addresses()).unwrap();
    assert_eq!(facts.len(), 2);
    assert_eq!((facts[0].name.as_str(), facts[0].loopback, facts[0].up), ("lo", true, true));
    assert_eq!(facts[0].addresses[0].address, "127.0.0.1");
    assert_eq!(facts[1].mtu, Some(1_500));
    assert_eq!(
        facts[1].addresses,
        vec![
            InterfaceAddress {
                address: "192.168.1.5".to_owned(),
                prefix_length: Some(24)
            },
            InterfaceAddress {
                address: "fe80::1".to_owned(),
                prefix_length: Some(64)
            },
        ]
    );
    let entries = interface_entries(&facts);
    assert_eq!((entries[1].index, entries[1].up), (Some(2), Some(true)));
}

#[test]
fn a_broken_reply_is_refused() {
    for (bytes, expected) in [
        (vec![0; 8], "netlink reply has an incomplete message header"),
        (links()[..70].to_vec(), "netlink reply has an incomplete message"),
        (message(16, &[0; 4]), "netlink link reply is truncated"),
        (message(16, &[0; 21]), "netlink attribute is truncated"),
        (message(2, &[0; 2]), "netlink reply reported an error"),
        (message(2, &0i32.to_ne_bytes()), "netlink reply was an unexpected acknowledgement"),
        (message(2, &(-1i32).to_ne_bytes()), "netlink request is not permitted"),
        (message(2, &(-2i32).to_ne_bytes()), "netlink request found no such target"),
        (message(2, &(-22i32).to_ne_bytes()), "netlink request is not supported"),
        (message(2, &(-5i32).to_ne_bytes()), "netlink reply reported an error"),
    ] {
        assert_eq!(reason(link_facts(&bytes, &[])), expected);
    }
    assert_eq!(
        reason(link_facts(&[], &message(20, &[0; 4]))),
        "netlink address reply is truncated"
    );
    assert_eq!(
        reason(route_entries(&message(24, &[0; 4]), &[])),
        "netlink route reply is truncated"
    );
}

#[test]
fn routes_name_their_way() {
    let facts = link_facts(&links(), &[]).unwrap();
    let entries = route_entries(&routes(), &facts).unwrap();
    assert_eq!(
        entries,
        vec![
            RouteEntry {
                destination: "0.0.0.0/0".to_owned(),
                gateway: Some("192.168.1.1".to_owned()),
                interface: Some("wlan0".to_owned()),
                metric: Some(600),
            },
            RouteEntry {
                destination: "192.168.1.0/24".to_owned(),
                gateway: None,
                interface: Some("wlan0".to_owned()),
                metric: None,
            },
            RouteEntry {
                destination: "fe80::/64".to_owned(),
                gateway: None,
                interface: None,
                metric: None,
            },
        ]
    );
    assert_eq!(route_prefix("fe80::/64"), Some(64));
    assert_eq!(route_prefix("10.0.0.0"), None);
    assert_eq!(route_prefix("10.0.0.0/256"), None);
    let observed = observed_routes(machine_order(), &routes(), &facts).unwrap();
    assert_eq!(find_route(&observed, &Address::V4([192, 168, 1, 77])), Some(1));
    assert_eq!(find_route(&observed, &Address::V4([8, 8, 8, 8])), Some(0));
    assert_eq!(find_route(&observed, &Address::V6([0; 16])), None);
    assert!(route_contains(
        &Address::V4([10, 128, 0, 0]),
        9,
        &Address::V4([10, 200, 1, 1])
    ));
    assert!(!route_contains(
        &Address::V4([10, 128, 0, 0]),
        9,
        &Address::V4([10, 100, 1, 1])
    ));
    assert!(!route_contains(&Address::V4([0; 4]), 33, &Address::V4([0; 4])));
    assert!(!route_contains(&Address::V4([0; 4]), 0, &Address::V6([0; 16])));
}

#[test]
fn the_best_default_route_is_told() {
    let entry = |destination: &str, interface: Option<&str>, metric: Option<u64>| RouteEntry {
        destination: destination.to_owned(),
        gateway: None,
        interface: interface.map(str::to_owned),
        metric,
    };
    let told = |entries: &[RouteEntry]| native_default_event_from_routes(entries);
    assert_eq!(told(&[]).unwrap().network, None);
    assert_eq!(
        told(&[
            entry("0.0.0.0/0", Some("wlan0"), Some(600)),
            entry("::/0", Some("rmnet0"), Some(100)),
            entry("10.0.0.0/8", Some("tun0"), Some(1)),
        ])
        .unwrap()
        .network,
        Some("rmnet0".to_owned())
    );
    assert_eq!(
        told(&[
            entry("0.0.0.0/0", Some("b"), None),
            entry("0.0.0.0/0", Some("a"), None),
        ])
        .unwrap()
        .network,
        Some("a".to_owned())
    );
    assert_eq!(
        reason(told(&[entry("0.0.0.0/0", None, None)])),
        "default route interface is unavailable"
    );
    let event =
        observe_native_default(machine_order(), &whole(links()), &whole(addresses()), &whole(routes())).unwrap();
    assert_eq!(event.network, Some("wlan0".to_owned()));
    let cut = SourceDump {
        bytes: links(),
        truncated: true,
    };
    assert_eq!(
        reason(observe_native_default(machine_order(), &cut, &whole(addresses()), &whole(routes()))),
        "native default route observation is incomplete"
    );
}

#[test]
fn sockets_are_read_line_by_line() {
    assert_eq!(
        socket_tables(),
        ["tcp", "tcp6", "udp", "udp6"]
    );
    assert_eq!(socket_protocol_for_table("udp6"), SocketProtocol::Udp);
    let text = [
        "  sl  local_address rem_address   st tx_queue rx_queue tr tm->when retrnsmt   uid\n",
        "   0: 0100007F:1F90 00000000:0000 0A 00000000:00000000 00:00000000 00000000  1000\n",
        "   1: 0501A8C0:C350 0101A8C0:01BB 01 00000000:00000000 00:00000000 00000000 10123\n",
        "   2: bad\n",
    ]
    .concat();
    let entries = parse_sockets("tcp", &text);
    assert_eq!(entries.len(), 2);
    assert_eq!(entries[0].local_address, "127.0.0.1");
    assert_eq!(entries[0].local_port, Some(8_080));
    assert_eq!(entries[0].remote_address, None);
    assert_eq!(entries[0].uid, Some(1_000));
    assert_eq!(entries[1].remote_address, Some("192.168.1.1".to_owned()));
    assert_eq!(entries[1].remote_port, Some(443));
    assert_eq!(entries[0].state, Some("LISTEN".to_owned()));
    assert_eq!(entries[1].state, Some("ESTABLISHED".to_owned()));
    let six = parse_sockets(
        "tcp6",
        &[
            "  sl  local_address remote_address st tx_queue rx_queue tr tm->when retrnsmt uid\n",
            "   0: 00000000000000000000000001000000:0050 00000000000000000000000000000000:0000 0A 0:0 00:0 0 0\n",
        ]
        .concat(),
    );
    assert_eq!(six[0].local_address, "::1");
    let found = established_sockets(&[
        SocketTable {
            name: "tcp",
            text: Some(text),
        },
        SocketTable {
            name: "udp",
            text: None,
        },
    ])
    .unwrap();
    assert!(found.truncated && found.entries.len() == 2);
    assert!(established_sockets(&[SocketTable {
        name: "udp",
        text: None,
    }])
    .is_none());
}

#[test]
fn a_dump_ends_with_its_last_message() {
    let mut buffer = ReplyBuffer::new(machine_order());
    assert!(buffer.wants_more() && buffer.room() == NETLINK_REPLY_BYTES);
    buffer.receive(Received::Bytes(link(1, 9, "lo", 1))).unwrap();
    buffer.receive(Received::Interrupted).unwrap();
    assert!(buffer.wants_more());
    buffer.receive(Received::Bytes(done())).unwrap();
    assert!(!buffer.wants_more());
    assert!(!buffer.finish().unwrap().truncated);
    let mut silent = ReplyBuffer::new(machine_order());
    silent.receive(Received::Bytes(link(1, 9, "lo", 1))).unwrap();
    silent.receive(Received::Silent).unwrap();
    assert!(silent.finish().unwrap().truncated);
    let mut failed = ReplyBuffer::new(machine_order());
    assert_eq!(
        reason(failed.receive(Received::Failed)),
        "daemon netlink reply cannot be read"
    );
    failed.receive(Received::Closed).unwrap();
    assert_eq!(reason(failed.finish()), "daemon netlink dump was not answered");
}

#[test]
fn what_is_whole_of_a_cut_reply_is_told() {
    let cut = SourceDump {
        bytes: links()[..70].to_vec(),
        truncated: true,
    };
    let found = established_interfaces(machine_order(), &Some(cut), &Some(whole(addresses()))).unwrap();
    assert!(found.truncated && found.entries.len() == 1);
    assert!(established_interfaces(machine_order(), &None, &Some(whole(addresses()))).is_none());
    assert!(established_interfaces(machine_order(), &Some(whole(vec![1; 20])), &Some(whole(message(2, &[0; 4])))).is_none());
    let found = established_routes(machine_order(), &Some(whole(routes())), &Some(whole(links()))).unwrap();
    assert!(!found.truncated && found.entries.len() == 3);
    assert!(observes(NetworkScope::All, NetworkFamily::Dns, true));
    assert!(!observes(NetworkScope::Routes, NetworkFamily::Dns, true));
    assert!(!observes(NetworkScope::Dns, NetworkFamily::Dns, false));
}

#[test]
fn name_servers_come_from_the_app() {
    let answer = br#"{"dns":[{"server":"1.1.1.1"},{"server":"8.8.8.8"}]}"#;
    let servers = dns_servers(Some(answer)).unwrap();
    assert_eq!(servers, vec!["1.1.1.1".to_owned(), "8.8.8.8".to_owned()]);
    assert_eq!(established_dns(Some(servers)).unwrap().entries.len(), 2);
    assert!(dns_servers(Some(br#"{"dns":[{"server":1}]}"#)).is_none());
    assert!(dns_servers(Some(b"{")).is_none());
    assert!(dns_servers(None).is_none());
    assert!(established_dns(None).is_none());
}

#[test]
fn a_diagnosis_tells_a_missing_route_from_a_missing_network() {
    let facts = diagnosed_links(machine_order(), Ok(whole(links())), Ok(whole(addresses()))).unwrap();
    let entries = route_entries(&routes(), &facts).unwrap();
    let outcome = |links, routes: &[RouteEntry]| match connectivity(links, routes, &None, 3) {
        NetworkDiagnoseResult::Connectivity { outcome, .. } => outcome,
        _ => panic!("connectivity"),
    };
    assert_eq!(outcome(&facts, &entries), DiagnosticOutcome::Success);
    assert_eq!(outcome(&facts, &[]), DiagnosticOutcome::NoRoute);
    assert_eq!(outcome(&facts[..1], &[]), DiagnosticOutcome::Unreachable);
    let observed = diagnosed_routes(machine_order(), Ok(whole(routes())), &facts).unwrap();
    match route("192.168.1.7", &Address::V4([192, 168, 1, 7]), &observed, 1) {
        NetworkDiagnoseResult::Route {
            outcome,
            interface,
            gateway,
            destination_ip,
            ..
        } => {
            assert_eq!(outcome, DiagnosticOutcome::Success);
            assert_eq!(interface, Some("wlan0".to_owned()));
            assert_eq!(gateway, None);
            assert_eq!(destination_ip, "192.168.1.7");
        }
        _ => panic!("a route"),
    }
    let failure = route_target(None).unwrap_err();
    assert_eq!(failure.error.code, ErrorCode::InvalidArgument);
}

#[test]
fn one_observer_watches_the_default_network() {
    let registration = |generation: u64| NetworkDefaultSourceRegistration {
        fence: Fence {
            runtime_epoch: id(1),
            host_generation: 2,
            runtime_instance_id: id(3),
        },
        subscription_generation: 1,
        source_generation: generation,
    };
    let mut source: NativeNetworkDefaultEventSource<u8> = NativeNetworkDefaultEventSource::new();
    assert_eq!(source.stop(&registration(1)).unwrap(), None);
    source.check_start().unwrap();
    source.started(registration(1), 7);
    assert_eq!(
        reason(source.check_start()),
        "native route observer already exists"
    );
    assert_eq!(
        reason(source.stop(&registration(2))),
        "native route observer generation is stale"
    );
    assert_eq!(source.stop(&registration(1)).unwrap(), Some(7));
    assert_eq!(observer_step(ObserverWait::Interrupted), ObserverStep::WaitOn);
    assert_eq!(observer_step(ObserverWait::Failed), ObserverStep::End);
    assert_eq!(
        observer_step(ObserverWait::Ready {
            stop: true,
            message: true
        }),
        ObserverStep::End
    );
    assert_eq!(
        observer_step(ObserverWait::Ready {
            stop: false,
            message: true
        }),
        ObserverStep::Receive
    );
    assert_eq!(observes_anew(-1, true), Some(false));
    assert_eq!(observes_anew(0, false), None);
    assert_eq!(observes_anew(16, false), Some(true));
    assert_eq!(read_window(0, false, false), ReadWindow::Timeout);
    assert_eq!(read_window(-1, true, false), ReadWindow::Timeout);
    assert_eq!(read_window(1, false, true), ReadWindow::Read);
    assert_eq!(read_window(1, false, false), ReadWindow::NotReadable);
    assert_eq!(read_result(-2), ReadResult::End);
    assert_eq!(read_result(-1), ReadResult::Failed);
}

#[test]
fn a_reply_is_complete_once_its_end_is_whole() {
    let reply = links();
    for end in 0..reply.len() {
        assert!(!reply_is_complete(&reply[..end]), "{end}");
        assert!(!reply_is_complete(complete_prefix(&reply[..end])), "{end}");
    }
    assert!(reply_is_complete(&reply));
    assert!(reply_is_complete(complete_prefix(&reply)));
    let mut more = reply.clone();
    more.extend_from_slice(&link(3, 9, "late", 1_500));
    assert!(reply_is_complete(&more));
    more.extend_from_slice(&[1, 2, 3]);
    assert!(reply_is_complete(&more));
    let refused = message(2, &[0; 4]);
    assert!(reply_is_complete(&refused));
    assert!(!reply_is_complete(&refused[..refused.len() - 1]));
}

fn big_message(kind: u16, body: &[u8]) -> Vec<u8> {
    let mut bytes = ((body.len() + 16) as u32).to_be_bytes().to_vec();
    bytes.extend_from_slice(&kind.to_be_bytes());
    bytes.extend_from_slice(&[0; 10]);
    bytes.extend_from_slice(body);
    bytes
}

#[test]
fn the_machine_tells_its_order() {
    let expected = if u16::from_ne_bytes([1, 0]) == 1 {
        ByteOrder::LittleEndian
    } else {
        ByteOrder::BigEndian
    };
    assert_eq!(machine_order(), expected);
    assert_eq!(order_of_one(1), ByteOrder::LittleEndian);
    assert_eq!(order_of_one(256), ByteOrder::BigEndian);
    assert_eq!(reply_is_complete(&links()), reply_is_complete_in(expected, &links()));
    assert_eq!(complete_prefix(&links()), complete_prefix_in(expected, &links()));
    assert_eq!(
        link_facts(&links(), &addresses()).unwrap(),
        link_facts_in(expected, &links(), &addresses()).unwrap()
    );
}

#[test]
fn a_reply_is_read_in_the_order_of_the_machine() {
    let order = ByteOrder::BigEndian;
    let mut body = vec![0; 4];
    body.extend_from_slice(&2u32.to_be_bytes());
    body.extend_from_slice(&9u32.to_be_bytes());
    body.extend_from_slice(&[0; 4]);
    body.extend_from_slice(&[0, 7, 0, 3, b'l', b'o', 0, 0]);
    body.extend_from_slice(&[0, 8, 0, 4, 0, 0, 5, 220]);
    let reply = [big_message(16, &body), big_message(3, &[0; 4])].concat();
    assert!(reply_is_complete_in(order, &reply));
    assert!(!reply_is_complete_in(ByteOrder::LittleEndian, &reply));
    assert_eq!(complete_prefix_in(order, &reply[..reply.len() - 1]), &reply[..48]);
    let facts = link_facts_in(order, &reply, &[]).unwrap();
    assert_eq!(facts.len(), 1);
    assert_eq!((facts[0].index, facts[0].name.as_str()), (2, "lo"));
    assert_eq!((facts[0].up, facts[0].loopback, facts[0].mtu), (true, true, Some(1_500)));
    assert_eq!(
        reason(link_facts_in(order, &big_message(2, &(-1i32).to_be_bytes()), &[])),
        "netlink request is not permitted"
    );
    assert_eq!(
        netlink_dump_request(order, RTM_GETLINK)[..8],
        [0, 0, 0, 32, 0, 18, 3, 1]
    );
}
