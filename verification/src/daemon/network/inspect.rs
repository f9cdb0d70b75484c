//! What is answered about the network, from what was observed of it.

use crate::bytes::ByteOrder;
use crate::contract::common::ErrorCode;
use crate::contract::results::{
    DiagnosticOutcome, DnsEntry, InterfaceEntry, NetworkDiagnoseResult, RouteEntry, SocketEntry,
    SocketProtocol,
};
use crate::contract::tools::NetworkScope;
use crate::daemon::network::address::Address;
use crate::daemon::network::netlink::{
    complete_prefix_in, describes_link, interface_entries, link_facts_in, link_models,
    reported_links, whole_messages, LinkFacts, LinkModel, SourceDump,
};
use crate::daemon::network::routes::{
    contains_address, default_route_present, describes_route, entry_candidates, find_route,
    has_default, is_default, matching_route, native_default_event_from_routes, observed_routes,
    prefix_of, reported_routes, route_candidates, route_entries_in, route_models, tells_default,
    the_longest_prefix_wins, NetworkDefaultChangedEvent, ObservedRoute, RouteModel,
};
use crate::daemon::network::sockets::{
    parse_sockets, socket_models, sockets_in, table_protocol, SocketModel,
};
use crate::error::{pre_start, DomainError, ExecutionFailure};
use crate::json::{Json, JsonModel};
use crate::text::{copied_text, optional_text, texts};
use vstd::prelude::*;

verus! {

/// The entries of a family that could be established, and whether there may be more.
#[derive(Debug, PartialEq)]
pub struct Established<T> {
    pub entries: Vec<T>,
    pub truncated: bool,
}

/// One family of facts.
#[derive(Clone, Copy, Debug, PartialEq, Eq, Structural)]
pub enum NetworkFamily {
    Interfaces,
    Routes,
    Dns,
    Sockets,
}

/// Whether a family belongs to a scope.
pub open spec fn in_scope(scope: NetworkScope, family: NetworkFamily) -> bool {
    match scope {
        NetworkScope::All => true,
        NetworkScope::Interfaces => family is Interfaces,
        NetworkScope::Routes => family is Routes,
        NetworkScope::Dns => family is Dns,
        NetworkScope::Sockets => family is Sockets,
    }
}

/// Whether a family is observed: it belongs to the scope and this host is its source.
pub fn observes(scope: NetworkScope, family: NetworkFamily, sourced: bool) -> (observed: bool)
    ensures
        observed == (sourced && in_scope(scope, family)),
{
    sourced && match scope {
        NetworkScope::All => true,
        NetworkScope::Interfaces => family == NetworkFamily::Interfaces,
        NetworkScope::Routes => family == NetworkFamily::Routes,
        NetworkScope::Dns => family == NetworkFamily::Dns,
        NetworkScope::Sockets => family == NetworkFamily::Sockets,
    }
}

/// The interfaces, if both replies came and could be read. What is whole of a reply that was cut
/// short is still read.
pub fn established_interfaces(
    order: ByteOrder,
    links: &Option<SourceDump>,
    addresses: &Option<SourceDump>,
) -> (found:
    Option<Established<InterfaceEntry>>)
    ensures
        match (*links, *addresses) {
            (Some(links), Some(addresses)) => match (
                found,
                reported_links(
                    order,
                    whole_messages(order, links.bytes@),
                    whole_messages(order, addresses.bytes@),
                ),
            ) {
                (Some(found), Ok(expected)) => {
                    &&& found.truncated == (links.truncated || addresses.truncated)
                    &&& found.entries@.len() == expected.len()
                    &&& forall|i: int|
                        0 <= i < expected.len() ==> describes_link(
                            #[trigger] found.entries@[i],
                            expected[i],
                        )
                },
                (None, Err(_)) => true,
                _ => false,
            },
            _ => found is None,
        },
{
    let links = match links {
        Some(links) => links,
        None => {
            return None;
        },
    };
    let addresses = match addresses {
        Some(addresses) => addresses,
        None => {
            return None;
        },
    };
    match link_facts_in(
        order,
        complete_prefix_in(order, links.bytes.as_slice()),
        complete_prefix_in(order, addresses.bytes.as_slice()),
    ) {
        Ok(facts) => Some(
            Established {
                entries: interface_entries(facts.as_slice()),
                truncated: links.truncated || addresses.truncated,
            },
        ),
        Err(_) => None,
    }
}

/// The routes, if both replies came and could be read. Only a route reply that was cut short makes
/// the routes incomplete.
pub fn established_routes(
    order: ByteOrder,
    reply: &Option<SourceDump>,
    links: &Option<SourceDump>,
) -> (found: Option<
    Established<RouteEntry>,
>)
    ensures
        match (*reply, *links) {
            (Some(reply), Some(links)) => match reported_links(
                order,
                whole_messages(order, links.bytes@),
                Seq::empty(),
            ) {
                Ok(names) => match (
                    found,
                    reported_routes(order, whole_messages(order, reply.bytes@), names),
                ) {
                    (Some(found), Ok(expected)) => {
                        &&& found.truncated == reply.truncated
                        &&& found.entries@.len() == expected.len()
                        &&& forall|i: int|
                            0 <= i < expected.len() ==> describes_route(
                                #[trigger] found.entries@[i],
                                expected[i],
                            )
                    },
                    (None, Err(_)) => true,
                    _ => false,
                },
                Err(_) => found is None,
            },
            _ => found is None,
        },
{
    let reply = match reply {
        Some(reply) => reply,
        None => {
            return None;
        },
    };
    let links = match links {
        Some(links) => links,
        None => {
            return None;
        },
    };
    let empty: Vec<u8> = Vec::new();
    assert(empty@ =~= Seq::empty());
    let facts = match link_facts_in(
        order,
        complete_prefix_in(order, links.bytes.as_slice()),
        empty.as_slice(),
    ) {
        Ok(facts) => facts,
        Err(_) => {
            return None;
        },
    };
    match route_entries_in(
        order,
        complete_prefix_in(order, reply.bytes.as_slice()),
        facts.as_slice(),
    ) {
        Ok(entries) => Some(Established { entries, truncated: reply.truncated }),
        Err(_) => None,
    }
}

/// The name servers in the value of a snapshot: every item of its list has one.
pub open spec fn snapshot_servers(payload: JsonModel) -> Option<Seq<Seq<char>>> {
    match payload.get("dns"@) {
        Some(JsonModel::Array(items)) => if forall|i: int|
            0 <= i < items.len() ==> server_of(#[trigger] items[i]) is Some {
            Some(Seq::new(items.len(), |i: int| server_of(items[i])->0))
        } else {
            None
        },
        _ => None,
    }
}

/// The server that an item names.
pub open spec fn server_of(item: JsonModel) -> Option<Seq<char>> {
    match item.get("server"@) {
        Some(JsonModel::Text(server)) => Some(server),
        _ => None,
    }
}

fn server(item: &Json) -> (name: Option<String>)
    ensures
        optional_text(name) == server_of(item@),
{
    match item.get("server") {
        Some(Json::Text(server)) => Some(server.as_str().to_owned()),
        _ => None,
    }
}

/// The name servers in a snapshot. One without a list, or with an item that names none, has none
/// at all.
pub fn dns_servers_from_snapshot(payload: &Json) -> (servers: Option<Vec<String>>)
    ensures
        match servers {
            Some(servers) => snapshot_servers(payload@) == Some(texts(servers@)),
            None => snapshot_servers(payload@) is None,
        },
{
    let items = match payload.get("dns") {
        Some(Json::Array(items)) => items,
        _ => {
            return None;
        },
    };
    let ghost models = crate::json::item_models(items@);
    assert(Json::Array(*items)@ == JsonModel::Array(models)) by {
        assert(crate::json::model_of(Json::Array(*items))->Array_0 =~= models);
    }
    let mut servers: Vec<String> = Vec::new();
    for i in 0..items.len()
        invariant
            models == crate::json::item_models(items@),
            payload@.get("dns"@) == Some(JsonModel::Array(models)),
            servers@.len() == i,
            forall|k: int|
                0 <= k < i ==> server_of(#[trigger] models[k]) == Some(servers@[k]@),
    {
        assert(models[i as int] == items@[i as int]@);
        match server(&items[i]) {
            Some(name) => {
                servers.push(name);
            },
            None => {
                assert(server_of(models[i as int]) is None);
                return None;
            },
        }
    }
    assert(texts(servers@) =~= Seq::new(models.len(), |i: int| server_of(models[i])->0));
    Some(servers)
}

/// The name servers that an answer of the application carries; an answer that does not read as
/// JSON carries none.
pub fn dns_servers(answer: Option<&[u8]>) -> (servers: Option<Vec<String>>)
    ensures
        match (servers, answer) {
            (Some(servers), Some(bytes)) => match crate::json::value_of_bytes(bytes@) {
                Some(payload) => snapshot_servers(payload) == Some(texts(servers@)),
                None => false,
            },
            (Some(_), None) => false,
            (None, Some(bytes)) => match crate::json::value_of_bytes(bytes@) {
                Some(payload) => snapshot_servers(payload) is None,
                None => true,
            },
            (None, None) => true,
        },
{
    match answer {
        Some(bytes) => match Json::parse(bytes) {
            Some(payload) => dns_servers_from_snapshot(&payload),
            None => None,
        },
        None => None,
    }
}

/// The name servers as entries.
pub fn established_dns(servers: Option<Vec<String>>) -> (found: Option<Established<DnsEntry>>)
    ensures
        match (servers, found) {
            (Some(servers), Some(found)) => {
                &&& !found.truncated
                &&& found.entries@.len() == servers@.len()
                &&& forall|i: int|
                    0 <= i < servers@.len() ==> (#[trigger] found.entries@[i]).server@
                        == servers@[i]@
            },
            (None, None) => true,
            _ => false,
        },
{
    match servers {
        Some(servers) => {
            let mut entries: Vec<DnsEntry> = Vec::new();
            for i in 0..servers.len()
                invariant
                    entries@.len() == i,
                    forall|k: int|
                        0 <= k < i ==> (#[trigger] entries@[k]).server@ == servers@[k]@,
            {
                entries.push(DnsEntry { server: servers[i].as_str().to_owned() });
            }
            Some(Established { entries, truncated: false })
        },
        None => None,
    }
}

/// One table and its text, if it could be read.
#[derive(Debug)]
pub struct SocketTable {
    pub name: &'static str,
    pub text: Option<String>,
}

/// The sockets in tables, in their order.
pub open spec fn sockets_of(tables: Seq<SocketTable>) -> Seq<SocketModel>
    decreases tables.len(),
{
    if tables.len() == 0 {
        Seq::empty()
    } else {
        sockets_of(tables.drop_last()) + match tables.last().text {
            Some(text) => sockets_in(table_protocol(tables.last().name@), text@, 0),
            None => Seq::empty(),
        }
    }
}

/// The sockets in all tables. A table that could not be read leaves them incomplete; without any
/// table there are none.
pub fn established_sockets(tables: &[SocketTable]) -> (found: Option<Established<SocketEntry>>)
    ensures
        match found {
            Some(found) => {
                &&& exists|i: int| 0 <= i < tables@.len() && (#[trigger] tables@[i]).text is Some
                &&& socket_models(found.entries@) == sockets_of(tables@)
                &&& found.truncated == exists|i: int|
                    0 <= i < tables@.len() && (#[trigger] tables@[i]).text is None
            },
            None => forall|i: int| 0 <= i < tables@.len() ==> (#[trigger] tables@[i]).text is None,
        },
{
    let mut entries: Vec<SocketEntry> = Vec::new();
    let mut read_any = false;
    let mut incomplete = false;
    assert(socket_models(entries@) =~= Seq::empty());
    for i in 0..tables.len()
        invariant
            socket_models(entries@) == sockets_of(tables@.take(i as int)),
            read_any == exists|k: int| 0 <= k < i && (#[trigger] tables@[k]).text is Some,
            incomplete == exists|k: int| 0 <= k < i && (#[trigger] tables@[k]).text is None,
    {
        let ghost before = entries@;
        proof {
            assert(tables@.take(i + 1).drop_last() =~= tables@.take(i as int));
            assert(tables@.take(i + 1).last() == tables@[i as int]);
        }
        match &tables[i].text {
            Some(text) => {
                read_any = true;
                let mut more = parse_sockets(tables[i].name, text.as_str());
                let ghost added = more@;
                entries.append(&mut more);
                assert(socket_models(entries@) =~= socket_models(before) + socket_models(added));
                assert(tables@[i as int].text is Some);
            },
            None => {
                incomplete = true;
                assert(tables@[i as int].text is None);
                assert(socket_models(before) + Seq::<SocketModel>::empty() =~= socket_models(
                    before,
                ));
            },
        }
    }
    assert(tables@.take(tables@.len() as int) =~= tables@);
    if read_any {
        Some(Established { entries, truncated: incomplete })
    } else {
        None
    }
}

// ---------------------------------------------------------------------------------------
// Diagnosis.
// ---------------------------------------------------------------------------------------

/// The interfaces that were observed, or why they could not be.
pub fn diagnosed_links(
    order: ByteOrder,
    links: Result<SourceDump, DomainError>,
    addresses: Result<SourceDump, DomainError>,
) -> (found: Result<Vec<LinkFacts>, ExecutionFailure>)
    ensures
        match (links, addresses) {
            (Err(error), _) => found == Err::<Vec<LinkFacts>, _>(
                ExecutionFailure { error, cleanup_verified: true },
            ),
            (Ok(_), Err(error)) => found == Err::<Vec<LinkFacts>, _>(
                ExecutionFailure { error, cleanup_verified: true },
            ),
            (Ok(links), Ok(addresses)) => match (
                found,
                reported_links(
                    order,
                    whole_messages(order, links.bytes@),
                    whole_messages(order, addresses.bytes@),
                ),
            ) {
                (Ok(found), Ok(expected)) => link_models(found@) == expected,
                (Err(failure), Err(error)) => failure == ExecutionFailure {
                    error,
                    cleanup_verified: true,
                },
                _ => false,
            },
        },
{
    let links = match links {
        Ok(links) => links,
        Err(error) => {
            return Err(pre_start(error));
        },
    };
    let addresses = match addresses {
        Ok(addresses) => addresses,
        Err(error) => {
            return Err(pre_start(error));
        },
    };
    match link_facts_in(
        order,
        complete_prefix_in(order, links.bytes.as_slice()),
        complete_prefix_in(order, addresses.bytes.as_slice()),
    ) {
        Ok(facts) => Ok(facts),
        Err(error) => Err(pre_start(error)),
    }
}

/// The routes that were observed, or why they could not be.
pub fn diagnosed_routes(
    order: ByteOrder,
    reply: Result<SourceDump, DomainError>,
    links: &[LinkFacts],
) -> (found: Result<
    Vec<ObservedRoute>,
    ExecutionFailure,
>)
    ensures
        match reply {
            Err(error) => found == Err::<Vec<ObservedRoute>, _>(
                ExecutionFailure { error, cleanup_verified: true },
            ),
            Ok(reply) => match (
                found,
                reported_routes(order, whole_messages(order, reply.bytes@), link_models(links@)),
            ) {
                (Ok(found), Ok(expected)) => route_models(found@) == expected,
                (Err(failure), Err(error)) => failure == ExecutionFailure {
                    error,
                    cleanup_verified: true,
                },
                _ => false,
            },
        },
{
    let reply = match reply {
        Ok(reply) => reply,
        Err(error) => {
            return Err(pre_start(error));
        },
    };
    match observed_routes(order, complete_prefix_in(order, reply.bytes.as_slice()), links) {
        Ok(routes) => Ok(routes),
        Err(error) => Err(pre_start(error)),
    }
}

/// Whether an interface carries traffic: it is up, leads out of the device and has an address.
pub open spec fn is_active(link: LinkModel) -> bool {
    link.up && !link.loopback && link.addresses.len() > 0
}

/// Whether some interface carries traffic.
pub open spec fn has_active(links: Seq<LinkFacts>) -> bool {
    exists|i: int| 0 <= i < links.len() && is_active((#[trigger] links[i])@)
}

fn active_present(links: &[LinkFacts]) -> (present: bool)
    ensures
        present == has_active(links@),
{
    for i in 0..links.len()
        invariant
            forall|k: int| 0 <= k < i ==> !is_active((#[trigger] links@[k])@),
    {
        let link = &links[i];
        if link.up && !link.loopback && link.addresses.len() > 0 {
            assert(is_active(links@[i as int]@));
            return true;
        }
    }
    false
}

/// Whether the device is connected. A default route is a way out; without one, an active interface
/// still tells a missing route from a missing network.
pub fn connectivity(
    links: &[LinkFacts],
    routes: &[RouteEntry],
    dns_servers: &Option<Vec<String>>,
    duration_ms: u64,
) -> (result: NetworkDiagnoseResult)
    ensures
        result == (NetworkDiagnoseResult::Connectivity {
            outcome: if has_default(entry_candidates(routes@)) {
                DiagnosticOutcome::Success
            } else if has_active(links@) {
                DiagnosticOutcome::NoRoute
            } else {
                DiagnosticOutcome::Unreachable
            },
            duration_ms,
            active_network_present: Some(has_active(links@)),
            default_route_present: Some(has_default(entry_candidates(routes@))),
            dns_configured: match *dns_servers {
                Some(servers) => Some(servers@.len() > 0),
                None => None,
            },
        }),
{
    let active = active_present(links);
    let default_route = default_route_present(routes);
    let outcome = if default_route {
        DiagnosticOutcome::Success
    } else if active {
        DiagnosticOutcome::NoRoute
    } else {
        DiagnosticOutcome::Unreachable
    };
    let dns_configured = match dns_servers {
        Some(servers) => Some(servers.len() > 0),
        None => None,
    };
    NetworkDiagnoseResult::Connectivity {
        outcome,
        duration_ms,
        active_network_present: Some(active),
        default_route_present: Some(default_route),
        dns_configured,
    }
}

/// Refuses a destination that is no address.
pub fn route_target(destination: Option<Address>) -> (target: Result<Address, ExecutionFailure>)
    ensures
        target == (match destination {
            Some(target) => Ok(target),
            None => Err(
                ExecutionFailure {
                    error: DomainError {
                        code: ErrorCode::InvalidArgument,
                        reason: "network.diagnose route destination_ip is not an IP address",
                    },
                    cleanup_verified: true,
                },
            ),
        }),
{
    match destination {
        Some(target) => Ok(target),
        None => Err(
            pre_start(
                DomainError::invalid("network.diagnose route destination_ip is not an IP address"),
            ),
        ),
    }
}

/// Whether a result tells of a route.
pub open spec fn tells_route(
    result: NetworkDiagnoseResult,
    destination_ip: Seq<char>,
    duration_ms: u64,
    route: Option<RouteModel>,
) -> bool {
    match result {
        NetworkDiagnoseResult::Route {
            outcome,
            duration_ms: duration,
            destination_ip: destination,
            interface,
            gateway,
        } => {
            &&& duration == duration_ms
            &&& destination@ == destination_ip
            &&& match route {
                Some(route) => outcome is Success && optional_text(interface) == route.interface
                    && optional_text(gateway) == route.gateway,
                None => outcome is NoRoute && interface is None && gateway is None,
            }
        },
        _ => false,
    }
}

/// The way to an address: by the route with the longest prefix, or none.
pub fn route(
    destination_ip: &str,
    target: &Address,
    routes: &[ObservedRoute],
    duration_ms: u64,
) -> (result: NetworkDiagnoseResult)
    ensures
        tells_route(
            result,
            destination_ip@,
            duration_ms,
            match matching_route(route_models(routes@), target.octets()) {
                Some(at) => Some(route_models(routes@)[at]),
                None => None,
            },
        ),
{
    let (outcome, interface, gateway) = match find_route(routes, target) {
        Some(at) => (
            DiagnosticOutcome::Success,
            copied_text(&routes[at].interface),
            copied_text(&routes[at].gateway),
        ),
        None => (DiagnosticOutcome::NoRoute, None, None),
    };
    NetworkDiagnoseResult::Route {
        outcome,
        duration_ms,
        destination_ip: destination_ip.to_owned(),
        interface,
        gateway,
    }
}

/// The default network, from three replies that all have to be whole.
pub fn observe_native_default(
    order: ByteOrder,
    links: &SourceDump,
    addresses: &SourceDump,
    routes: &SourceDump,
) -> (event: Result<NetworkDefaultChangedEvent, DomainError>)
    ensures
        (links.truncated || addresses.truncated || routes.truncated) ==> event == Err::<
            NetworkDefaultChangedEvent,
            _,
        >(
            DomainError {
                code: ErrorCode::IoError,
                reason: "native default route observation is incomplete",
            },
        ),
        !(links.truncated || addresses.truncated || routes.truncated) ==> match reported_links(
            order,
            links.bytes@,
            addresses.bytes@,
        ) {
            Err(error) => event == Err::<NetworkDefaultChangedEvent, _>(error),
            Ok(names) => match reported_routes(order, routes.bytes@, names) {
                Err(error) => event == Err::<NetworkDefaultChangedEvent, _>(error),
                Ok(expected) => tells_default(event, route_candidates(expected)),
            },
        },
{
    if links.truncated || addresses.truncated || routes.truncated {
        return Err(
            DomainError::new(
                ErrorCode::IoError,
                "native default route observation is incomplete",
            ),
        );
    }
    let facts = match link_facts_in(order, links.bytes.as_slice(), addresses.bytes.as_slice()) {
        Ok(facts) => facts,
        Err(error) => {
            return Err(error);
        },
    };
    match route_entries_in(order, routes.bytes.as_slice(), facts.as_slice()) {
        Ok(entries) => {
            proof {
                let expected = reported_routes(order, routes.bytes@, link_models(facts@))->Ok_0;
                assert(entry_candidates(entries@) =~= route_candidates(expected));
            }
            native_default_event_from_routes(entries.as_slice())
        },
        Err(error) => Err(error),
    }
}

// ---------------------------------------------------------------------------------------
// Laws.
// ---------------------------------------------------------------------------------------

/// Everything that has a source is observed in the scope of all; any other scope observes its own
/// family and no other.
pub proof fn a_scope_observes_its_own_family(
    scope: NetworkScope,
    family: NetworkFamily,
    sourced: bool,
    observed: bool,
)
    requires
        call_ensures(observes, (scope, family, sourced), observed),
    ensures
        !sourced ==> !observed,
        scope is All ==> observed == sourced,
        observed && scope !is All ==> (scope is Interfaces <==> family is Interfaces) && (
        scope is Routes <==> family is Routes) && (scope is Dns <==> family is Dns) && (
        scope is Sockets <==> family is Sockets),
        sourced && scope is Interfaces && family is Interfaces ==> observed,
        sourced && scope is Routes && family is Routes ==> observed,
        sourced && scope is Dns && family is Dns ==> observed,
        sourced && scope is Sockets && family is Sockets ==> observed,
{
}

/// The name servers of a snapshot are those that its items name, in their order; one item without a
/// server, or no list at all, and there are none.
pub proof fn name_servers_are_those_of_the_snapshot(payload: Json, servers: Option<Vec<String>>)
    requires
        call_ensures(dns_servers_from_snapshot, (&payload,), servers),
    ensures
        payload@.get("dns"@) is None || payload@.get("dns"@)->0 !is Array ==> servers is None,
        payload@.get("dns"@) matches Some(JsonModel::Array(items)) ==> {
            &&& servers is Some ==> servers->0@.len() == items.len() && forall|i: int|
                0 <= i < items.len() ==> (#[trigger] items[i]).get("server"@) == Some(
                    JsonModel::Text(servers->0@[i]@),
                )
            &&& servers is None ==> exists|i: int|
                0 <= i < items.len() && !((#[trigger] items[i]).get("server"@) is Some
                    && items[i].get("server"@)->0 is Text)
        },
{
    if let Some(JsonModel::Array(items)) = payload@.get("dns"@) {
        if servers is Some {
            let names = texts(servers->0@);
            assert(names.len() == servers->0@.len());
            assert forall|i: int| 0 <= i < items.len() implies (#[trigger] items[i]).get(
                "server"@,
            ) == Some(JsonModel::Text(servers->0@[i]@)) by {
                assert(server_of(items[i]) is Some);
                assert(names[i] == servers->0@[i]@);
            }
        } else {
            let i = choose|i: int| 0 <= i < items.len() && server_of(#[trigger] items[i]) is None;
            assert(!(items[i].get("server"@) is Some && items[i].get("server"@)->0 is Text));
        }
    }
}

/// One more table adds its sockets behind those of the others, under its own protocol, and one that
/// could not be read adds none.
pub proof fn tables_are_read_one_after_the_other(tables: Seq<SocketTable>, table: SocketTable)
    ensures
        table.text is None ==> sockets_of(tables.push(table)) == sockets_of(tables),
        table.text is Some && (table.name@ == "tcp"@ || table.name@ == "tcp6"@) ==> sockets_of(
            tables.push(table),
        ) == sockets_of(tables) + sockets_in(SocketProtocol::Tcp, table.text->0@, 0),
        table.text is Some && (table.name@ == "udp"@ || table.name@ == "udp6"@) ==> sockets_of(
            tables.push(table),
        ) == sockets_of(tables) + sockets_in(SocketProtocol::Udp, table.text->0@, 0),
        sockets_of(Seq::empty()).len() == 0,
{
    assert(tables.push(table).drop_last() =~= tables);
    assert(sockets_of(tables) + Seq::<SocketModel>::empty() =~= sockets_of(tables));
    reveal_strlit("tcp");
    reveal_strlit("tcp6");
    reveal_strlit("udp");
    reveal_strlit("udp6");
    assert("tcp"@[0] != "udp"@[0]);
    assert("tcp6"@[0] != "udp6"@[0]);
    assert("tcp"@.len() != "udp6"@.len());
    assert("tcp6"@.len() != "udp"@.len());
}

/// The device is connected exactly if there is a default route. Without one, an interface that is
/// up, is not the loopback and has an address tells a missing route from a missing network.
pub proof fn connectivity_is_a_way_out(
    links: &[LinkFacts],
    routes: &[RouteEntry],
    dns_servers: Option<Vec<String>>,
    duration_ms: u64,
    result: NetworkDiagnoseResult,
)
    requires
        call_ensures(connectivity, (links, routes, &dns_servers, duration_ms), result),
    ensures
        result is Connectivity,
        result->Connectivity_duration_ms == duration_ms,
        ({
            let active = exists|i: int|
                0 <= i < links@.len() && (#[trigger] links@[i]).up && !links@[i].loopback
                    && links@[i].addresses@.len() > 0;
            let way_out = result->default_route_present == Some(true);
            &&& result->default_route_present is Some
            &&& result->active_network_present == Some(active)
            &&& result->Connectivity_outcome is Success <==> way_out
            &&& result->Connectivity_outcome is NoRoute <==> !way_out && active
            &&& result->Connectivity_outcome is Unreachable <==> !way_out && !active
            &&& way_out <==> exists|i: int|
                0 <= i < routes@.len() && prefix_of((#[trigger] routes@[i]).destination@) == Some(
                    0nat,
                )
        }),
        result->dns_configured == (match dns_servers {
            Some(servers) => Some(servers@.len() > 0),
            None => None,
        }),
{
    let active = exists|i: int|
        0 <= i < links@.len() && (#[trigger] links@[i]).up && !links@[i].loopback
            && links@[i].addresses@.len() > 0;
    assert(has_active(links@) == active) by {
        if has_active(links@) {
            let i = choose|i: int| 0 <= i < links@.len() && is_active((#[trigger] links@[i])@);
            assert(links@[i].up && !links@[i].loopback && links@[i].addresses@.len() > 0);
        }
        if active {
            let i = choose|i: int|
                0 <= i < links@.len() && (#[trigger] links@[i]).up && !links@[i].loopback
                    && links@[i].addresses@.len() > 0;
            assert(is_active(links@[i]@));
        }
    }
    let candidates = entry_candidates(routes@);
    if has_default(candidates) {
        let i = choose|i: int| 0 <= i < candidates.len() && is_default(#[trigger] candidates[i]);
        assert(prefix_of(routes@[i].destination@) == Some(0nat));
    }
    assert forall|i: int|
        0 <= i < routes@.len() && prefix_of((#[trigger] routes@[i]).destination@) == Some(
            0nat,
        ) implies has_default(candidates) by {
        assert(is_default(candidates[i]));
    }
}

/// A route to an address is told exactly if some network holds the address; it is the one with the
/// longest prefix, the last of several that are equally long, and its interface and gateway are told
/// as they are.
pub proof fn the_way_to_an_address_is_told(
    destination_ip: &str,
    target: Address,
    routes: &[ObservedRoute],
    duration_ms: u64,
    result: NetworkDiagnoseResult,
)
    requires
        call_ensures(route, (destination_ip, &target, routes, duration_ms), result),
    ensures
        result is Route,
        result->Route_duration_ms == duration_ms,
        result->destination_ip@ == destination_ip@,
        result->Route_outcome is Success || result->Route_outcome is NoRoute,
        result->Route_outcome is NoRoute ==> result->interface is None && result->gateway is None
            && forall|i: int|
            0 <= i < routes@.len() ==> !contains_address(
                (#[trigger] routes@[i]).network.octets(),
                routes@[i].prefix,
                target.octets(),
            ),
        result->Route_outcome is Success ==> exists|at: int|
            {
                &&& 0 <= at < routes@.len()
                &&& contains_address(
                    (#[trigger] routes@[at]).network.octets(),
                    routes@[at].prefix,
                    target.octets(),
                )
                &&& optional_text(result->interface) == optional_text(routes@[at].interface)
                &&& optional_text(result->gateway) == optional_text(routes@[at].gateway)
                &&& forall|i: int|
                    0 <= i < routes@.len() && contains_address(
                        (#[trigger] routes@[i]).network.octets(),
                        routes@[i].prefix,
                        target.octets(),
                    ) ==> routes@[i].prefix < routes@[at].prefix || (routes@[i].prefix
                        == routes@[at].prefix && i <= at)
            },
{
    let models = route_models(routes@);
    the_longest_prefix_wins(models, target.octets());
    match matching_route(models, target.octets()) {
        Some(at) => {
            assert(models[at] == routes@[at]@);
            assert forall|i: int|
                0 <= i < routes@.len() && contains_address(
                    (#[trigger] routes@[i]).network.octets(),
                    routes@[i].prefix,
                    target.octets(),
                ) implies routes@[i].prefix < routes@[at].prefix || (routes@[i].prefix
                == routes@[at].prefix && i <= at) by {
                assert(models[i] == routes@[i]@);
            }
        },
        None => {
            assert forall|i: int| 0 <= i < routes@.len() implies !contains_address(
                (#[trigger] routes@[i]).network.octets(),
                routes@[i].prefix,
                target.octets(),
            ) by {
                assert(models[i] == routes@[i]@);
            }
        },
    }
}

} // verus!
