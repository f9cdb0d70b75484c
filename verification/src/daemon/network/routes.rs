//! Routes: reading them off the kernel's reply, and finding the one that leads somewhere.

use crate::bytes::{
    machine_order, read_word32, word32, word32_bytes, words_read_back, ByteOrder,
};
use crate::contract::common::ErrorCode;
use crate::contract::results::RouteEntry;
use crate::daemon::network::address::{
    address_of, address_text, an_address_has_no_slash, Address, AF_INET, AF_INET6,
};
use crate::daemon::network::netlink::{
    a_message_is_read_back, attribute_list, attributes, attributes_are_read_back, find_last_u32,
    find_last_value, find_link, kernel_attributes, kernel_message, last_u32, last_value,
    lemma_link_position, lemma_words_in, link_models, link_position, malformed, malformed_error,
    message_body, message_kind, next_message, octets_text, place, read_message, LinkFacts,
    LinkModel, Place, RTA_DST, RTA_GATEWAY, RTA_OIF, RTA_PRIORITY, RTMSG_BYTES, RTM_F_CLONED,
    RTM_NEWROUTE,
};
use crate::error::DomainError;
use crate::json::{
    lemma_precedes_total, lemma_precedes_transitive, order_of, precedes, Order,
};
use crate::text::{
    chars_of, copied_text, decimal, decimal_text, decimal_text_reads_back, find_char, next_position,
    optional_text, parse_unsigned, unsigned_number,
};
use vstd::prelude::*;

verus! {

/// One route: where it leads to, and by what way.
#[derive(Debug)]
pub struct ObservedRoute {
    pub network: Address,
    pub prefix: u8,
    pub gateway: Option<String>,
    pub interface: Option<String>,
    pub metric: Option<u64>,
}

/// What a route is.
pub struct RouteModel {
    pub network: Seq<u8>,
    pub prefix: u8,
    pub gateway: Option<Seq<char>>,
    pub interface: Option<Seq<char>>,
    pub metric: Option<u64>,
}

impl View for ObservedRoute {
    type V = RouteModel;

    open spec fn view(&self) -> RouteModel {
        RouteModel {
            network: self.network.octets(),
            prefix: self.prefix,
            gateway: optional_text(self.gateway),
            interface: optional_text(self.interface),
            metric: self.metric,
        }
    }
}

/// What routes are.
pub open spec fn route_models(routes: Seq<ObservedRoute>) -> Seq<RouteModel> {
    Seq::new(routes.len(), |i: int| routes[i]@)
}

/// The text of four or sixteen octets.
pub open spec fn network_text(network: Seq<u8>) -> Seq<char> {
    if network.len() == 4 {
        crate::daemon::network::address::ipv4_text(network)
    } else {
        crate::daemon::network::address::ipv6_text(network)
    }
}

impl RouteModel {
    /// The text of where a route leads to: a network and the length of its prefix.
    pub open spec fn destination(self) -> Seq<char> {
        network_text(self.network) + seq!['/'] + decimal(self.prefix as nat)
    }
}

/// So many zero octets.
pub open spec fn zero_octets(count: nat) -> Seq<u8> {
    Seq::new(count, |i: int| 0u8)
}

/// The network that a route message names; without one it is the default route.
pub open spec fn network_of(family: u8, prefix: u8, destination: Option<Seq<u8>>) -> Option<
    Seq<u8>,
> {
    let length: nat = if family == AF_INET {
        4
    } else {
        16
    };
    if (family == AF_INET && prefix <= 32) || (family == AF_INET6 && prefix <= 128) {
        match destination {
            Some(value) => if value.len() == length {
                Some(value)
            } else {
                None
            },
            None => Some(zero_octets(length)),
        }
    } else {
        None
    }
}

/// The name of the interface with an index, if it is known.
pub open spec fn interface_of(links: Seq<LinkModel>, index: Option<u32>) -> Option<Seq<char>> {
    match index {
        Some(index) => if link_position(links, index) < links.len() {
            Some(links[link_position(links, index)].name)
        } else {
            None
        },
        None => None,
    }
}

/// The routes once a message about one was read. What the kernel only remembers of earlier lookups
/// is left out, and so is a route to no network.
pub open spec fn with_route(
    order: ByteOrder,
    routes: Seq<RouteModel>,
    links: Seq<LinkModel>,
    kind: u16,
    body: Seq<u8>,
) -> Result<Seq<RouteModel>, DomainError> {
    if kind != RTM_NEWROUTE {
        Ok(routes)
    } else if body.len() < RTMSG_BYTES {
        Err(malformed_error("netlink route reply is truncated"))
    } else if word32(order, body, 8) & RTM_F_CLONED != 0 {
        Ok(routes)
    } else {
        match attributes(order, body.skip(12)) {
            None => Err(malformed_error("netlink attribute is truncated")),
            Some(list) => match network_of(body[0], body[1], last_value(list, RTA_DST)) {
                None => Ok(routes),
                Some(network) => Ok(
                    routes.push(
                        RouteModel {
                            network,
                            prefix: body[1],
                            gateway: address_of(body[0], last_value(list, RTA_GATEWAY)),
                            interface: interface_of(links, last_u32(order, list, RTA_OIF)),
                            metric: match last_u32(order, list, RTA_PRIORITY) {
                                Some(metric) => Some(metric as u64),
                                None => None,
                            },
                        },
                    ),
                ),
            },
        }
    }
}

/// The routes once every message from `offset` on was read.
pub open spec fn with_routes(
    order: ByteOrder,
    routes: Seq<RouteModel>,
    links: Seq<LinkModel>,
    bytes: Seq<u8>,
    offset: int,
) -> Result<Seq<RouteModel>, DomainError>
    decreases bytes.len() + 4 - offset,
{
    match place(order, bytes, offset) {
        Place::End => Ok(routes),
        Place::Fault(error) => Err(error),
        Place::Message => if offset < 0 {
            Ok(routes)
        } else {
            match with_route(
                order,
                routes,
                links,
                message_kind(order, bytes, offset),
                message_body(order, bytes, offset),
            ) {
                Ok(routes) => with_routes(
                    order,
                    routes,
                    links,
                    bytes,
                    next_message(order, bytes, offset),
                ),
                Err(error) => Err(error),
            }
        },
    }
}

/// The routes that a reply reports.
pub open spec fn reported_routes(order: ByteOrder, reply: Seq<u8>, links: Seq<LinkModel>) -> Result<
    Seq<RouteModel>,
    DomainError,
> {
    with_routes(order, Seq::empty(), links, reply, 0)
}

fn network(family: u8, prefix: u8, destination: &Option<Vec<u8>>) -> (found: Option<Address>)
    ensures
        match found {
            Some(found) => network_of(
                family,
                prefix,
                crate::daemon::network::address::optional_bytes(*destination),
            ) == Some(found.octets()),
            None => network_of(
                family,
                prefix,
                crate::daemon::network::address::optional_bytes(*destination),
            ) is None,
        },
{
    if family == AF_INET && prefix <= 32 {
        let mut octets: [u8; 4] = [0, 0, 0, 0];
        match destination {
            Some(value) => {
                if value.len() != 4 {
                    return None;
                }
                octets = [value[0], value[1], value[2], value[3]];
                assert(octets@ =~= value@);
            },
            None => {
                assert(octets@ =~= zero_octets(4));
            },
        }
        Some(Address::V4(octets))
    } else if family == AF_INET6 && prefix <= 128 {
        let mut octets: [u8; 16] = [0, 0, 0, 0, 0, 0, 0, 0, 0, 0, 0, 0, 0, 0, 0, 0];
        match destination {
            Some(value) => {
                if value.len() != 16 {
                    return None;
                }
                octets = [
                    value[0],
                    value[1],
                    value[2],
                    value[3],
                    value[4],
                    value[5],
                    value[6],
                    value[7],
                    value[8],
                    value[9],
                    value[10],
                    value[11],
                    value[12],
                    value[13],
                    value[14],
                    value[15],
                ];
                assert(octets@ =~= value@);
            },
            None => {
                assert(octets@ =~= zero_octets(16));
            },
        }
        Some(Address::V6(octets))
    } else {
        None
    }
}

fn interface(links: &[LinkFacts], index: Option<u32>) -> (name: Option<String>)
    ensures
        optional_text(name) == interface_of(link_models(links@), index),
{
    match index {
        Some(index) => {
            let at: usize = find_link(links, index);
            if at < links.len() {
                Some(links[at].name.as_str().to_owned())
            } else {
                None
            }
        },
        None => None,
    }
}

fn read_route(
    order: ByteOrder,
    routes: &mut Vec<ObservedRoute>,
    links: &[LinkFacts],
    kind: u16,
    body: &[u8],
) -> (read:
    Result<(), DomainError>)
    ensures
        match read {
            Ok(()) => with_route(order, route_models(old(routes)@), link_models(links@), kind, body@)
                == Ok::<_, DomainError>(route_models(final(routes)@)),
            Err(error) => with_route(order, route_models(old(routes)@), link_models(links@), kind, body@)
                == Err::<Seq<RouteModel>, _>(error),
        },
{
    if kind != RTM_NEWROUTE {
        return Ok(());
    }
    if body.len() < RTMSG_BYTES {
        return Err(malformed("netlink route reply is truncated"));
    }
    let family: u8 = body[0];
    let prefix: u8 = body[1];
    let flags: u32 = read_word32(order, body, 8);
    if flags & RTM_F_CLONED != 0 {
        return Ok(());
    }
    let list = match attribute_list(order, body, RTMSG_BYTES) {
        Some(list) => list,
        None => {
            return Err(malformed("netlink attribute is truncated"));
        },
    };
    let destination = find_last_value(list.as_slice(), RTA_DST);
    let gateway = find_last_value(list.as_slice(), RTA_GATEWAY);
    let output_index = find_last_u32(order, list.as_slice(), RTA_OIF);
    let metric = match find_last_u32(order, list.as_slice(), RTA_PRIORITY) {
        Some(metric) => Some(metric as u64),
        None => None,
    };
    if let Some(network) = network(family, prefix, &destination) {
        let ghost before = routes@;
        let route = ObservedRoute {
            network,
            prefix,
            gateway: address_text(family, &gateway),
            interface: interface(links, output_index),
            metric,
        };
        routes.push(route);
        assert(route_models(routes@) =~= route_models(before).push(route@));
    }
    Ok(())
}

/// Reads the routes off a reply.
pub fn observed_routes(
    order: ByteOrder,
    route_reply: &[u8],
    links: &[LinkFacts],
) -> (routes: Result<
    Vec<ObservedRoute>,
    DomainError,
>)
    ensures
        match routes {
            Ok(routes) => reported_routes(order, route_reply@, link_models(links@)) == Ok::<
                _,
                DomainError,
            >(route_models(routes@)),
            Err(error) => reported_routes(order, route_reply@, link_models(links@)) == Err::<
                Seq<RouteModel>,
                _,
            >(error),
        },
{
    let mut routes: Vec<ObservedRoute> = Vec::new();
    assert(route_models(routes@) =~= Seq::empty());
    let ghost names = link_models(links@);
    let mut offset: usize = 0;
    let mut reading = true;
    while reading
        invariant
            offset <= route_reply@.len(),
            names == link_models(links@),
            reading ==> with_routes(order, Seq::empty(), names, route_reply@, 0) == with_routes(
                order,
                route_models(routes@),
                names,
                route_reply@,
                offset as int,
            ),
            !reading ==> with_routes(order, Seq::empty(), names, route_reply@, 0)
                == Ok::<_, DomainError>(
                route_models(routes@),
            ),
        decreases
            route_reply@.len() - offset,
            (if reading {
                1int
            } else {
                0int
            }),
    {
        match read_message(order, route_reply, offset) {
            Ok(None) => {
                reading = false;
            },
            Err(error) => {
                return Err(error);
            },
            Ok(Some(message)) => {
                match read_route(order, &mut routes, links, message.kind, message.body.as_slice()) {
                    Ok(()) => {},
                    Err(error) => {
                        return Err(error);
                    },
                }
                proof {
                    let next = next_message(order, route_reply@, offset as int);
                    if message.next != next {
                        assert(with_routes(order, route_models(routes@), names, route_reply@, next)
                            == Ok::<_, DomainError>(route_models(routes@)));
                    }
                }
                offset = message.next;
            },
        }
    }
    Ok(routes)
}

/// Whether an entry is what is told of a route.
pub open spec fn describes_route(entry: RouteEntry, route: RouteModel) -> bool {
    &&& entry.destination@ == route.destination()
    &&& optional_text(entry.gateway) == route.gateway
    &&& optional_text(entry.interface) == route.interface
    &&& entry.metric == route.metric
}

/// What is told of routes, in their order.
pub fn route_entries_of(routes: &[ObservedRoute]) -> (entries: Vec<RouteEntry>)
    ensures
        entries@.len() == routes@.len(),
        forall|i: int|
            0 <= i < routes@.len() ==> describes_route(#[trigger] entries@[i], routes@[i]@),
{
    let mut entries: Vec<RouteEntry> = Vec::new();
    for i in 0..routes.len()
        invariant
            entries@.len() == i,
            forall|k: int| 0 <= k < i ==> describes_route(#[trigger] entries@[k], routes@[k]@),
    {
        let route = &routes[i];
        let mut destination = route.network.text();
        destination.push('/');
        let digits = decimal_text(route.prefix as u64);
        destination.append(digits.as_str());
        assert(destination@ =~= route@.destination());
        entries.push(
            RouteEntry {
                destination,
                gateway: copied_text(&route.gateway),
                interface: copied_text(&route.interface),
                metric: route.metric,
            },
        );
    }
    entries
}

/// What is told of the routes in a reply, its integers being in an order.
pub fn route_entries_in(
    order: ByteOrder,
    route_reply: &[u8],
    links: &[LinkFacts],
) -> (entries: Result<
    Vec<RouteEntry>,
    DomainError,
>)
    ensures
        match (entries, reported_routes(order, route_reply@, link_models(links@))) {
            (Ok(entries), Ok(routes)) => {
                &&& entries@.len() == routes.len()
                &&& forall|i: int|
                    0 <= i < routes.len() ==> describes_route(#[trigger] entries@[i], routes[i])
            },
            (Err(error), Err(expected)) => error == expected,
            _ => false,
        },
{
    match observed_routes(order, route_reply, links) {
        Ok(routes) => Ok(route_entries_of(routes.as_slice())),
        Err(error) => Err(error),
    }
}

/// What is told of the routes in a reply of this machine's kernel.
pub fn route_entries(route_reply: &[u8], links: &[LinkFacts]) -> (entries: Result<
    Vec<RouteEntry>,
    DomainError,
>)
    ensures
        exists|order: ByteOrder|
            match (entries, #[trigger] reported_routes(order, route_reply@, link_models(links@))) {
                (Ok(entries), Ok(routes)) => {
                    &&& entries@.len() == routes.len()
                    &&& forall|i: int|
                        0 <= i < routes.len() ==> describes_route(#[trigger] entries@[i], routes[i])
                },
                (Err(error), Err(expected)) => error == expected,
                _ => false,
            },
{
    route_entries_in(machine_order(), route_reply, links)
}

/// The length of the prefix in the text of a destination: the number after its first slash.
pub open spec fn prefix_of(destination: Seq<char>) -> Option<nat> {
    let at = next_position(destination, '/', 0);
    if at < destination.len() {
        unsigned_number(destination.skip(at + 1), 10, 255)
    } else {
        None
    }
}

/// Reads the length of the prefix out of a destination.
pub fn route_prefix(destination: &str) -> (prefix: Option<u8>)
    ensures
        match prefix {
            Some(prefix) => prefix_of(destination@) == Some(prefix as nat),
            None => prefix_of(destination@) is None,
        },
{
    let chars = chars_of(destination);
    let at: usize = find_char(chars.as_slice(), '/');
    if at >= chars.len() {
        return None;
    }
    let digits = vstd::slice::slice_subrange(chars.as_slice(), at + 1, chars.len());
    assert(digits@ =~= destination@.skip(at + 1));
    match parse_unsigned(digits, 10, 255) {
        Some(prefix) => Some(prefix as u8),
        None => None,
    }
}

proof fn lemma_first_position(text: Seq<char>, c: char, from: int, at: int)
    requires
        0 <= from <= at < text.len(),
        text[at] == c,
        forall|i: int| from <= i < at ==> text[i] != c,
    ensures
        next_position(text, c, from) == at,
    decreases at - from,
{
    if from < at {
        lemma_first_position(text, c, from + 1, at);
    }
}

/// The prefix that the text of a route carries is the route's own.
pub proof fn a_destination_carries_its_prefix(route: RouteModel)
    requires
        route.network.len() == 4 || route.network.len() == 16,
    ensures
        prefix_of(route.destination()) == Some(route.prefix as nat),
{
    let network = network_text(route.network);
    let digits = decimal(route.prefix as nat);
    let text = route.destination();
    an_address_has_no_slash(route.network);
    assert forall|i: int| 0 <= i < network.len() implies text[i] != '/' by {
        assert(network.contains(network[i]));
    }
    lemma_first_position(text, '/', 0, network.len() as int);
    assert(text.skip(network.len() as int + 1) =~= digits);
    decimal_text_reads_back(route.prefix as nat, 255);
}

// ---------------------------------------------------------------------------------------
// The default route.
// ---------------------------------------------------------------------------------------

/// The network that everything else goes through, as far as it is known.
#[derive(Debug, PartialEq)]
pub struct NetworkDefaultChangedEvent {
    pub network: Option<String>,
    pub transport: Option<String>,
}

/// What the choice of a default network looks at in a route.
pub struct Candidate {
    pub prefix: Option<nat>,
    pub metric: Option<u64>,
    pub interface: Option<Seq<char>>,
}

/// What is looked at in an entry.
pub open spec fn entry_candidate(entry: RouteEntry) -> Candidate {
    Candidate {
        prefix: prefix_of(entry.destination@),
        metric: entry.metric,
        interface: optional_text(entry.interface),
    }
}

/// What is looked at in entries.
pub open spec fn entry_candidates(entries: Seq<RouteEntry>) -> Seq<Candidate> {
    Seq::new(entries.len(), |i: int| entry_candidate(entries[i]))
}

/// What is looked at in routes.
pub open spec fn route_candidates(routes: Seq<RouteModel>) -> Seq<Candidate> {
    Seq::new(
        routes.len(),
        |i: int|
            Candidate {
                prefix: prefix_of(routes[i].destination()),
                metric: routes[i].metric,
                interface: routes[i].interface,
            },
    )
}

/// Whether a candidate is a default route.
pub open spec fn is_default(candidate: Candidate) -> bool {
    candidate.prefix == Some(0nat)
}

/// Whether one choice comes before another: by its metric, and by its name if they are equal.
pub open spec fn preferable(left: (u64, Seq<char>), right: (u64, Seq<char>)) -> bool {
    left.0 < right.0 || (left.0 == right.0 && precedes(left.1, right.1))
}

/// The choice that a candidate stands for, if it is a default route with an interface.
pub open spec fn choice_of(candidate: Candidate) -> Option<(u64, Seq<char>)> {
    match candidate.interface {
        Some(name) if is_default(candidate) => Some(
            (
                match candidate.metric {
                    Some(metric) => metric,
                    None => u64::MAX,
                },
                name,
            ),
        ),
        _ => None,
    }
}

/// The best choice among candidates.
pub open spec fn best_choice(candidates: Seq<Candidate>) -> Option<(u64, Seq<char>)>
    decreases candidates.len(),
{
    if candidates.len() == 0 {
        None
    } else {
        match (best_choice(candidates.drop_last()), choice_of(candidates.last())) {
            (best, None) => best,
            (None, candidate) => candidate,
            (Some(best), Some(candidate)) => if preferable(candidate, best) {
                Some(candidate)
            } else {
                Some(best)
            },
        }
    }
}

/// Whether some candidate is a default route.
pub open spec fn has_default(candidates: Seq<Candidate>) -> bool {
    exists|i: int| 0 <= i < candidates.len() && is_default(#[trigger] candidates[i])
}

/// Whether an event tells the default network that candidates show: none without a default route,
/// else the interface of the best one.
pub open spec fn tells_default(
    event: Result<NetworkDefaultChangedEvent, DomainError>,
    candidates: Seq<Candidate>,
) -> bool {
    match event {
        Ok(event) => {
            &&& event.transport is None
            &&& if has_default(candidates) {
                match best_choice(candidates) {
                    Some((_, name)) => optional_text(event.network) == Some(name),
                    None => false,
                }
            } else {
                event.network is None
            }
        },
        Err(error) => {
            &&& has_default(candidates)
            &&& best_choice(candidates) is None
            &&& error == DomainError {
                code: ErrorCode::IoError,
                reason: "default route interface is unavailable",
            }
        },
    }
}

fn entry_is_default(entry: &RouteEntry) -> (yes: bool)
    ensures
        yes == is_default(entry_candidate(*entry)),
{
    match route_prefix(entry.destination.as_str()) {
        Some(prefix) => prefix == 0,
        None => false,
    }
}

/// Whether some entry is a default route.
pub fn default_route_present(entries: &[RouteEntry]) -> (present: bool)
    ensures
        present == has_default(entry_candidates(entries@)),
{
    let ghost candidates = entry_candidates(entries@);
    for i in 0..entries.len()
        invariant
            candidates == entry_candidates(entries@),
            forall|k: int| 0 <= k < i ==> !is_default(#[trigger] candidates[k]),
    {
        assert(candidates[i as int] == entry_candidate(entries@[i as int]));
        if entry_is_default(&entries[i]) {
            assert(is_default(candidates[i as int]));
            return true;
        }
    }
    false
}

fn candidate_is_preferable(
    metric: u64,
    name: &str,
    best_metric: u64,
    best_name: &str,
) -> (yes: bool)
    ensures
        yes == preferable((metric, name@), (best_metric, best_name@)),
{
    if metric != best_metric {
        return metric < best_metric;
    }
    match order_of(name, best_name) {
        Order::Before => true,
        _ => false,
    }
}

/// The default network that the routes show: none without a default route, else the interface of
/// the best one.
pub fn native_default_event_from_routes(routes: &[RouteEntry]) -> (event: Result<
    NetworkDefaultChangedEvent,
    DomainError,
>)
    ensures
        tells_default(event, entry_candidates(routes@)),
{
    if !default_route_present(routes) {
        return Ok(NetworkDefaultChangedEvent { network: None, transport: None });
    }
    let ghost candidates = entry_candidates(routes@);
    let mut best: Option<(u64, String)> = None;
    for i in 0..routes.len()
        invariant
            candidates == entry_candidates(routes@),
            best_choice(candidates.take(i as int)) == (match best {
                Some((metric, name)) => Some((metric, name@)),
                None => None,
            }),
    {
        let entry = &routes[i];
        proof {
            assert(candidates.take(i + 1).drop_last() =~= candidates.take(i as int));
            assert(candidates.take(i + 1).last() == entry_candidate(routes@[i as int]));
        }
        if entry_is_default(entry) {
            if let Some(name) = &entry.interface {
                let metric: u64 = match entry.metric {
                    Some(metric) => metric,
                    None => u64::MAX,
                };
                let better = match &best {
                    Some((best_metric, best_name)) => candidate_is_preferable(
                        metric,
                        name.as_str(),
                        *best_metric,
                        best_name.as_str(),
                    ),
                    None => true,
                };
                if better {
                    best = Some((metric, name.as_str().to_owned()));
                }
            }
        }
    }
    assert(candidates.take(candidates.len() as int) =~= candidates);
    match best {
        Some((_, name)) => Ok(NetworkDefaultChangedEvent { network: Some(name), transport: None }),
        None => Err(DomainError::new(ErrorCode::IoError, "default route interface is unavailable")),
    }
}

// ---------------------------------------------------------------------------------------
// Finding a route.
// ---------------------------------------------------------------------------------------

/// What the first `count` bits of an octet are divided out by, for one to seven bits.
pub open spec fn bit_divisor(count: int) -> int {
    if count == 1 {
        128
    } else if count == 2 {
        64
    } else if count == 3 {
        32
    } else if count == 4 {
        16
    } else if count == 5 {
        8
    } else if count == 6 {
        4
    } else {
        2
    }
}

/// Whether two sequences of octets begin with the same `prefix` bits.
pub open spec fn same_prefix(left: Seq<u8>, right: Seq<u8>, prefix: int) -> bool {
    &&& left.take(prefix / 8) == right.take(prefix / 8)
    &&& prefix % 8 != 0 ==> left[prefix / 8] as int / bit_divisor(prefix % 8) == right[prefix / 8]
        as int / bit_divisor(prefix % 8)
}

/// Whether an address is in a network: it is of the same kind and begins with the same bits.
pub open spec fn contains_address(network: Seq<u8>, prefix: u8, target: Seq<u8>) -> bool {
    network.len() == target.len() && prefix <= 8 * network.len() && same_prefix(
        network,
        target,
        prefix as int,
    )
}

fn octet(address: &Address, i: usize) -> (value: u8)
    requires
        i < address.octets().len(),
    ensures
        value == address.octets()[i as int],
{
    match address {
        Address::V4(octets) => octets[i],
        Address::V6(octets) => octets[i],
    }
}

fn length_of(address: &Address) -> (length: usize)
    ensures
        length == address.octets().len(),
        length == 4 || length == 16,
{
    match address {
        Address::V4(_) => 4,
        Address::V6(_) => 16,
    }
}

/// Whether an address is in a network.
pub fn route_contains(network: &Address, prefix: u8, target: &Address) -> (contained: bool)
    ensures
        contained == contains_address(network.octets(), prefix, target.octets()),
{
    let length: usize = length_of(network);
    if length != length_of(target) || prefix as usize > 8 * length {
        return false;
    }
    let whole: usize = prefix as usize / 8;
    for i in 0..whole
        invariant
            whole <= length,
            length == network.octets().len(),
            length == target.octets().len(),
            whole == prefix as int / 8,
            forall|k: int| 0 <= k < i ==> network.octets()[k] == target.octets()[k],
    {
        if octet(network, i) != octet(target, i) {
            proof {
                let left = network.octets().take(whole as int);
                let right = target.octets().take(whole as int);
                assert(left[i as int] != right[i as int]);
            }
            return false;
        }
    }
    assert(network.octets().take(whole as int) =~= target.octets().take(whole as int));
    let rest: u8 = prefix % 8;
    if rest == 0 {
        return true;
    }
    let divisor: u8 = if rest == 1 {
        128
    } else if rest == 2 {
        64
    } else if rest == 3 {
        32
    } else if rest == 4 {
        16
    } else if rest == 5 {
        8
    } else if rest == 6 {
        4
    } else {
        2
    };
    octet(network, whole) / divisor == octet(target, whole) / divisor
}

/// The position of the route to an address: the one with the longest prefix, and the last of
/// several.
pub open spec fn matching_route(routes: Seq<RouteModel>, target: Seq<u8>) -> Option<int>
    decreases routes.len(),
{
    if routes.len() == 0 {
        None
    } else {
        let earlier = matching_route(routes.drop_last(), target);
        let last = routes.last();
        if contains_address(last.network, last.prefix, target) && (earlier is None || last.prefix
            >= routes[earlier->0].prefix) {
            Some(routes.len() - 1)
        } else {
            earlier
        }
    }
}

/// Finds the route to an address.
pub fn find_route(routes: &[ObservedRoute], target: &Address) -> (position: Option<usize>)
    ensures
        match position {
            Some(position) => position < routes@.len() && matching_route(
                route_models(routes@),
                target.octets(),
            ) == Some(position as int),
            None => matching_route(route_models(routes@), target.octets()) is None,
        },
{
    let ghost models = route_models(routes@);
    let mut position: Option<usize> = None;
    for i in 0..routes.len()
        invariant
            models == route_models(routes@),
            position matches Some(at) ==> at < i,
            matching_route(models.take(i as int), target.octets()) == (match position {
                Some(at) => Some(at as int),
                None => None,
            }),
    {
        proof {
            assert(models.take(i + 1).drop_last() =~= models.take(i as int));
            assert(models.take(i + 1).last() == models[i as int]);
        }
        if route_contains(&routes[i].network, routes[i].prefix, target) {
            let better = match position {
                Some(at) => routes[i].prefix >= routes[at].prefix,
                None => true,
            };
            if better {
                position = Some(i);
            }
        }
    }
    assert(models.take(models.len() as int) =~= models);
    position
}

/// No route to an address has a longer prefix than the one that is found, no later one has the same,
/// and one is found whenever there is any.
pub proof fn the_longest_prefix_wins(routes: Seq<RouteModel>, target: Seq<u8>)
    ensures
        match matching_route(routes, target) {
            Some(at) => {
                &&& 0 <= at < routes.len()
                &&& contains_address(routes[at].network, routes[at].prefix, target)
                &&& forall|i: int|
                    0 <= i < routes.len() && contains_address(
                        (#[trigger] routes[i]).network,
                        routes[i].prefix,
                        target,
                    ) ==> routes[i].prefix <= routes[at].prefix && (i > at ==> routes[i].prefix
                        < routes[at].prefix)
            },
            None => forall|i: int|
                0 <= i < routes.len() ==> !contains_address(
                    (#[trigger] routes[i]).network,
                    routes[i].prefix,
                    target,
                ),
        },
    decreases routes.len(),
{
    if routes.len() > 0 {
        let earlier = routes.drop_last();
        the_longest_prefix_wins(earlier, target);
        assert forall|i: int| 0 <= i < routes.len() - 1 implies #[trigger] routes[i]
            == earlier[i] by {}
    }
}

proof fn lemma_octet_bits(a: u8, b: u8)
    ensures
        a == b <==> forall|j: u8| j < 8 ==> #[trigger] (a & (128u8 >> j)) == b & (128u8 >> j),
{
    if forall|j: u8| j < 8 ==> #[trigger] (a & (128u8 >> j)) == b & (128u8 >> j) {
        assert(a & (128u8 >> 0u8) == b & (128u8 >> 0u8));
        assert(a & (128u8 >> 1u8) == b & (128u8 >> 1u8));
        assert(a & (128u8 >> 2u8) == b & (128u8 >> 2u8));
        assert(a & (128u8 >> 3u8) == b & (128u8 >> 3u8));
        assert(a & (128u8 >> 4u8) == b & (128u8 >> 4u8));
        assert(a & (128u8 >> 5u8) == b & (128u8 >> 5u8));
        assert(a & (128u8 >> 6u8) == b & (128u8 >> 6u8));
        assert(a & (128u8 >> 7u8) == b & (128u8 >> 7u8));
        assert(a == b) by (bit_vector)
            requires
                a & (128u8 >> 0u8) == b & (128u8 >> 0u8),
                a & (128u8 >> 1u8) == b & (128u8 >> 1u8),
                a & (128u8 >> 2u8) == b & (128u8 >> 2u8),
                a & (128u8 >> 3u8) == b & (128u8 >> 3u8),
                a & (128u8 >> 4u8) == b & (128u8 >> 4u8),
                a & (128u8 >> 5u8) == b & (128u8 >> 5u8),
                a & (128u8 >> 6u8) == b & (128u8 >> 6u8),
                a & (128u8 >> 7u8) == b & (128u8 >> 7u8),
        ;
    }
}

proof fn lemma_divided_octets(a: u8, b: u8, count: u8)
    requires
        0 < count < 8,
    ensures
        a as int / bit_divisor(count as int) == b as int / bit_divisor(count as int) <==> forall|j: u8|
            j < count ==> #[trigger] (a & (128u8 >> j)) == b & (128u8 >> j),
{
    let shift = (8 - count) as u8;
    assert(a >> shift == b >> shift <==> a as int / bit_divisor(count as int) == b as int
        / bit_divisor(count as int)) by {
        assert(a >> 1u8 == a / 2 && a >> 2u8 == a / 4 && a >> 3u8 == a / 8 && a >> 4u8 == a / 16
            && a >> 5u8 == a / 32 && a >> 6u8 == a / 64 && a >> 7u8 == a / 128) by (bit_vector);
        assert(b >> 1u8 == b / 2 && b >> 2u8 == b / 4 && b >> 3u8 == b / 8 && b >> 4u8 == b / 16
            && b >> 5u8 == b / 32 && b >> 6u8 == b / 64 && b >> 7u8 == b / 128) by (bit_vector);
    }
    if a >> shift == b >> shift {
        assert forall|j: u8| j < count implies #[trigger] (a & (128u8 >> j)) == b & (128u8 >> j) by {
            assert(a & (128u8 >> j) == b & (128u8 >> j)) by (bit_vector)
                requires
                    a >> shift == b >> shift,
                    j < count,
                    0 < count < 8,
                    shift == 8 - count,
            ;
        }
    }
    if forall|j: u8| j < count ==> #[trigger] (a & (128u8 >> j)) == b & (128u8 >> j) {
        assert(0 < count ==> a & (128u8 >> 0u8) == b & (128u8 >> 0u8));
        assert(1 < count ==> a & (128u8 >> 1u8) == b & (128u8 >> 1u8));
        assert(2 < count ==> a & (128u8 >> 2u8) == b & (128u8 >> 2u8));
        assert(3 < count ==> a & (128u8 >> 3u8) == b & (128u8 >> 3u8));
        assert(4 < count ==> a & (128u8 >> 4u8) == b & (128u8 >> 4u8));
        assert(5 < count ==> a & (128u8 >> 5u8) == b & (128u8 >> 5u8));
        assert(6 < count ==> a & (128u8 >> 6u8) == b & (128u8 >> 6u8));
        assert(a >> shift == b >> shift) by (bit_vector)
            requires
                0 < count < 8,
                shift == 8 - count,
                a & (128u8 >> 0u8) == b & (128u8 >> 0u8),
                1 < count ==> a & (128u8 >> 1u8) == b & (128u8 >> 1u8),
                2 < count ==> a & (128u8 >> 2u8) == b & (128u8 >> 2u8),
                3 < count ==> a & (128u8 >> 3u8) == b & (128u8 >> 3u8),
                4 < count ==> a & (128u8 >> 4u8) == b & (128u8 >> 4u8),
                5 < count ==> a & (128u8 >> 5u8) == b & (128u8 >> 5u8),
                6 < count ==> a & (128u8 >> 6u8) == b & (128u8 >> 6u8),
        ;
    }
}

/// An address is in a network exactly if it is of the same kind and its first bits, as many as the
/// prefix is long, are those of the network: bit `j` of octet `k`, the most significant one first,
/// for every `8 * k + j` below the length of the prefix.
pub proof fn a_network_is_its_first_bits(
    network: Address,
    prefix: u8,
    target: Address,
    contained: bool,
)
    requires
        call_ensures(route_contains, (&network, prefix, &target), contained),
    ensures
        contained <==> network.octets().len() == target.octets().len() && prefix <= 8
            * network.octets().len() && forall|k: int, j: u8|
            0 <= k && j < 8 && 8 * k + j < prefix ==> #[trigger] (network.octets()[k] & (128u8
                >> j)) == target.octets()[k] & (128u8 >> j),
{
    the_first_bits_tell(network.octets(), prefix, target.octets());
}

/// The same of the octets of a network and of an address.
pub proof fn the_first_bits_tell(network: Seq<u8>, prefix: u8, target: Seq<u8>)
    ensures
        contains_address(network, prefix, target) <==> network.len() == target.len() && prefix <= 8
            * network.len() && forall|k: int, j: u8|
            0 <= k && j < 8 && 8 * k + j < prefix ==> #[trigger] (network[k] & (128u8 >> j))
                == target[k] & (128u8 >> j),
{
    let whole = prefix as int / 8;
    let rest = (prefix % 8) as u8;
    if network.len() == target.len() && prefix <= 8 * network.len() {
        let left = network.take(whole);
        let right = target.take(whole);
        if contains_address(network, prefix, target) {
            assert forall|k: int, j: u8| 0 <= k && j < 8 && 8 * k + j < prefix implies #[trigger] (
            network[k] & (128u8 >> j)) == target[k] & (128u8 >> j) by {
                if k < whole {
                    assert(left[k] == right[k]);
                } else {
                    lemma_divided_octets(network[k], target[k], rest);
                }
            }
        }
        if forall|k: int, j: u8|
            0 <= k && j < 8 && 8 * k + j < prefix ==> #[trigger] (network[k] & (128u8 >> j))
                == target[k] & (128u8 >> j) {
            assert forall|k: int| 0 <= k < whole implies left[k] == right[k] by {
                lemma_octet_bits(network[k], target[k]);
            }
            assert(left =~= right);
            if rest != 0 {
                assert forall|j: u8| j < rest implies #[trigger] (network[whole] & (128u8 >> j))
                    == target[whole] & (128u8 >> j) by {
                    assert(8 * whole + j < prefix);
                }
                lemma_divided_octets(network[whole], target[whole], rest);
            }
        }
    }
}

/// The metric by which a route is compared: a route without one comes last.
pub open spec fn metric_of(entry: RouteEntry) -> u64 {
    match entry.metric {
        Some(metric) => metric,
        None => u64::MAX,
    }
}

/// Whether a route leads everywhere, by an interface that is known.
pub open spec fn leads_everywhere(entry: RouteEntry) -> bool {
    prefix_of(entry.destination@) == Some(0nat) && entry.interface is Some
}

proof fn lemma_best_choice(entries: Seq<RouteEntry>)
    ensures
        match best_choice(entry_candidates(entries)) {
            Some((metric, name)) => {
                &&& exists|at: int|
                    0 <= at < entries.len() && leads_everywhere(#[trigger] entries[at]) && metric_of(
                        entries[at],
                    ) == metric && entries[at].interface->0@ == name
                &&& forall|i: int|
                    0 <= i < entries.len() && leads_everywhere(#[trigger] entries[i]) ==> metric
                        < metric_of(entries[i]) || (metric == metric_of(entries[i]) && (name
                        == entries[i].interface->0@ || precedes(name, entries[i].interface->0@)))
            },
            None => forall|i: int|
                0 <= i < entries.len() ==> !leads_everywhere(#[trigger] entries[i]),
        },
    decreases entries.len(),
{
    let candidates = entry_candidates(entries);
    if entries.len() > 0 {
        let front = entries.drop_last();
        let last = entries.last();
        lemma_best_choice(front);
        assert(candidates.drop_last() =~= entry_candidates(front));
        assert(candidates.last() == entry_candidate(last));
        assert(entries[entries.len() - 1] == last);
        assert forall|i: int| 0 <= i < front.len() implies #[trigger] entries[i] == front[i] by {}
        let earlier = best_choice(entry_candidates(front));
        if earlier is Some {
            let best = earlier->0;
            let at = choose|at: int|
                0 <= at < front.len() && leads_everywhere(#[trigger] front[at]) && metric_of(
                    front[at],
                ) == best.0 && front[at].interface->0@ == best.1;
            assert(entries[at] == front[at]);
            if leads_everywhere(last) {
                let name = last.interface->0@;
                if metric_of(last) == best.0 {
                    lemma_precedes_total(name, best.1);
                }
                assert forall|i: int|
                    0 <= i < entries.len() && leads_everywhere(#[trigger] entries[i]) && preferable(
                        (metric_of(last), name),
                        best,
                    ) implies metric_of(last) < metric_of(entries[i]) || (metric_of(last)
                    == metric_of(entries[i]) && (name == entries[i].interface->0@ || precedes(
                    name,
                    entries[i].interface->0@,
                ))) by {
                    if i < front.len() {
                        assert(entries[i] == front[i]);
                        if metric_of(last) == metric_of(front[i]) && best.1
                            != front[i].interface->0@ {
                            lemma_precedes_transitive(
                                name,
                                best.1,
                                front[i].interface->0@,
                            );
                        }
                    }
                }
            }
        }
    }
}

/// The default network is the interface of a route that leads everywhere: no other such route has a
/// lower metric, a missing one counting as the highest, and among equal metrics no name of an
/// interface comes before the one that is told. Without a default route there is no default
/// network; one without an interface is an error only if no other has one.
pub proof fn the_lowest_metric_is_the_default(
    routes: &[RouteEntry],
    event: Result<NetworkDefaultChangedEvent, DomainError>,
)
    requires
        call_ensures(native_default_event_from_routes, (routes,), event),
    ensures
        event matches Ok(told) ==> told.transport is None,
        event is Ok && event->Ok_0.network is None ==> forall|i: int|
            0 <= i < routes@.len() ==> prefix_of((#[trigger] routes@[i]).destination@) != Some(
                0nat,
            ),
        event is Ok && event->Ok_0.network is Some ==> exists|at: int|
            {
                &&& 0 <= at < routes@.len()
                &&& prefix_of((#[trigger] routes@[at]).destination@) == Some(0nat)
                &&& routes@[at].interface is Some
                &&& routes@[at].interface->0@ == event->Ok_0.network->0@
                &&& forall|i: int|
                    0 <= i < routes@.len() && prefix_of((#[trigger] routes@[i]).destination@)
                        == Some(0nat) && routes@[i].interface is Some ==> metric_of(routes@[at])
                        < metric_of(routes@[i]) || (metric_of(routes@[at]) == metric_of(routes@[i])
                        && (event->Ok_0.network->0@ == routes@[i].interface->0@ || precedes(
                        event->Ok_0.network->0@,
                        routes@[i].interface->0@,
                    )))
            },
        event is Err <==> (exists|i: int|
            0 <= i < routes@.len() && prefix_of((#[trigger] routes@[i]).destination@) == Some(
                0nat,
            )) && forall|i: int|
            0 <= i < routes@.len() && prefix_of((#[trigger] routes@[i]).destination@) == Some(0nat)
                ==> routes@[i].interface is None,
{
    let candidates = entry_candidates(routes@);
    lemma_best_choice(routes@);
    assert forall|i: int| 0 <= i < routes@.len() implies is_default(#[trigger] candidates[i]) == (
    prefix_of(routes@[i].destination@) == Some(0nat)) by {}
    if has_default(candidates) {
        let i = choose|i: int| 0 <= i < candidates.len() && is_default(#[trigger] candidates[i]);
        assert(prefix_of(routes@[i].destination@) == Some(0nat));
    }
    if exists|i: int|
        0 <= i < routes@.len() && prefix_of((#[trigger] routes@[i]).destination@) == Some(0nat) {
        let i = choose|i: int|
            0 <= i < routes@.len() && prefix_of((#[trigger] routes@[i]).destination@) == Some(0nat);
        assert(is_default(candidates[i]));
    }
}

// ---------------------------------------------------------------------------------------
// Reading routes back.
// ---------------------------------------------------------------------------------------

/// The message about a route: its family, the length of its prefix, six bytes of tables and scopes,
/// its flags, and its attributes.
pub open spec fn kernel_route(
    order: ByteOrder,
    family: u8,
    prefix: u8,
    tables: Seq<u8>,
    flags: u32,
    list: Seq<(u16, Seq<u8>)>,
) -> Seq<u8> {
    seq![family, prefix] + tables + word32_bytes(order, flags) + kernel_attributes(order, list)
}

proof fn lemma_route_header(
    order: ByteOrder,
    family: u8,
    prefix: u8,
    tables: Seq<u8>,
    flags: u32,
    list: Seq<(u16, Seq<u8>)>,
)
    requires
        tables.len() == 6,
    ensures
        ({
            let body = kernel_route(order, family, prefix, tables, flags, list);
            &&& body.len() == 12 + kernel_attributes(order, list).len()
            &&& body[0] == family && body[1] == prefix
            &&& body.skip(12) == kernel_attributes(order, list)
            &&& word32(order, body, 8) == flags
            &&& word32(order, body, 8) & RTM_F_CLONED != 0 <==> flags / 512 % 2 == 1
        }),
{
    let body = kernel_route(order, family, prefix, tables, flags, list);
    assert(body.skip(12) =~= kernel_attributes(order, list));
    assert(body.subrange(8, 12) =~= word32_bytes(order, flags));
    lemma_words_in(order, body, 8, 0, flags);
    assert(flags & 0x200 != 0 <==> flags / 512 % 2 == 1) by (bit_vector);
}

proof fn lemma_four_attributes(order: ByteOrder, list: Seq<(u16, Seq<u8>)>)
    requires
        list.len() == 4,
        list[0] == (1u16, list[0].1),
        list[1] == (4u16, list[1].1),
        list[2] == (5u16, list[2].1),
        list[3] == (6u16, list[3].1),
        list[0].1.len() <= 16,
        list[1].1.len() == 4,
        list[2].1.len() <= 16,
        list[3].1.len() == 4,
    ensures
        last_value(list, 1) == Some(list[0].1),
        last_value(list, 5) == Some(list[2].1),
        last_u32(order, list, 4) == Some(word32(order, list[1].1, 0)),
        last_u32(order, list, 6) == Some(word32(order, list[3].1, 0)),
        kernel_attributes(order, list).len() <= 96,
{
    let three = list.drop_last();
    let two = three.drop_last();
    let one = two.drop_last();
    assert(three.last() == list[2] && two.last() == list[1] && one.last() == list[0]);
    assert(last_value(one, 1) == Some(list[0].1));
    assert(last_value(two, 1) == last_value(one, 1));
    assert(last_value(three, 1) == last_value(two, 1));
    assert(last_value(three, 5) == Some(list[2].1));
    assert(last_u32(order, two, 4) == Some(word32(order, list[1].1, 0)));
    assert(last_u32(order, three, 4) == last_u32(order, two, 4));
    reveal_with_fuel(kernel_attributes, 5);
    assert(list.skip(1)[0] == list[1]);
    assert(list.skip(1).skip(1)[0] == list[2]);
    assert(list.skip(1).skip(1).skip(1)[0] == list[3]);
    assert(list.skip(1).skip(1).skip(1).skip(1).len() == 0);
}

/// A route is read off as the kernel wrote it: its network, the length of its prefix, its gateway,
/// the name of the interface with its index, and its metric. One that the kernel only remembers,
/// by the tenth bit of its flags, is left out.
pub proof fn a_route_is_read_back(
    order: ByteOrder,
    stamp: Seq<u8>,
    tables: Seq<u8>,
    flags: u32,
    links: Seq<LinkModel>,
    at: int,
    family: u8,
    prefix: u8,
    network: Seq<u8>,
    gateway: Seq<u8>,
    metric: u32,
)
    requires
        stamp.len() == 10,
        tables.len() == 6,
        0 <= at < links.len(),
        forall|j: int| 0 <= j < at ==> (#[trigger] links[j]).index != links[at].index,
        (family == 2 && network.len() == 4 && prefix <= 32) || (family == 10 && network.len() == 16
            && prefix <= 128),
        gateway.len() == network.len(),
    ensures
        ({
            let list = seq![
                (1u16, network),
                (4u16, word32_bytes(order, links[at].index)),
                (5u16, gateway),
                (6u16, word32_bytes(order, metric)),
            ];
            let reply = kernel_message(
                order,
                stamp,
                24,
                kernel_route(order, family, prefix, tables, flags, list),
            );
            let routes = reported_routes(order, reply, links);
            &&& routes is Ok
            &&& flags / 512 % 2 == 1 ==> routes->Ok_0.len() == 0
            &&& flags / 512 % 2 == 0 ==> {
                &&& routes->Ok_0.len() == 1
                &&& routes->Ok_0[0].network == network
                &&& routes->Ok_0[0].prefix == prefix
                &&& routes->Ok_0[0].gateway == Some(octets_text(gateway))
                &&& routes->Ok_0[0].interface == Some(links[at].name)
                &&& routes->Ok_0[0].metric == Some(metric as u64)
            }
        }),
{
    let list = seq![
        (1u16, network),
        (4u16, word32_bytes(order, links[at].index)),
        (5u16, gateway),
        (6u16, word32_bytes(order, metric)),
    ];
    let body = kernel_route(order, family, prefix, tables, flags, list);
    let none = Seq::<u8>::empty();
    lemma_route_header(order, family, prefix, tables, flags, list);
    lemma_four_attributes(order, list);
    attributes_are_read_back(order, list);
    words_read_back(order, 0, links[at].index);
    words_read_back(order, 0, metric);
    lemma_link_position(links, links[at].index, at);
    a_message_is_read_back(order, stamp, 24, body, none, none);
    let message = kernel_message(order, stamp, 24, body);
    assert(none + message + none =~= message);
    reveal_with_fuel(with_routes, 2);
}

/// A route without a network is the one that leads everywhere, and what its message does not say is
/// not told of it.
pub proof fn a_route_without_a_network_is_the_default(
    order: ByteOrder,
    stamp: Seq<u8>,
    tables: Seq<u8>,
    flags: u32,
    links: Seq<LinkModel>,
    family: u8,
)
    requires
        stamp.len() == 10,
        tables.len() == 6,
        flags / 512 % 2 == 0,
        family == 2 || family == 10,
    ensures
        ({
            let body = kernel_route(order, family, 0, tables, flags, Seq::empty());
            let routes = reported_routes(order, kernel_message(order, stamp, 24, body), links);
            &&& routes is Ok && routes->Ok_0.len() == 1
            &&& routes->Ok_0[0].network.len() == (if family == 2 {
                4int
            } else {
                16
            })
            &&& forall|i: int|
                0 <= i < routes->Ok_0[0].network.len() ==> #[trigger] routes->Ok_0[0].network[i]
                    == 0
            &&& routes->Ok_0[0].prefix == 0
            &&& routes->Ok_0[0].gateway is None
            &&& routes->Ok_0[0].interface is None
            &&& routes->Ok_0[0].metric is None
        }),
{
    let list = Seq::<(u16, Seq<u8>)>::empty();
    let body = kernel_route(order, family, 0, tables, flags, list);
    let none = Seq::<u8>::empty();
    lemma_route_header(order, family, 0, tables, flags, list);
    attributes_are_read_back(order, list);
    a_message_is_read_back(order, stamp, 24, body, none, none);
    let message = kernel_message(order, stamp, 24, body);
    assert(none + message + none =~= message);
    reveal_with_fuel(with_routes, 2);
}

/// A route is told by its network and the length of its prefix, with a slash between them, and by
/// its own gateway, interface and metric.
pub proof fn a_route_is_told_as_it_is(routes: &[ObservedRoute], entries: Vec<RouteEntry>, i: int)
    requires
        call_ensures(route_entries_of, (routes,), entries),
        0 <= i < routes@.len(),
    ensures
        entries@.len() == routes@.len(),
        entries@[i].destination@ == octets_text(routes@[i].network.octets()) + "/"@ + decimal(
            routes@[i].prefix as nat,
        ),
        optional_text(entries@[i].gateway) == optional_text(routes@[i].gateway),
        optional_text(entries@[i].interface) == optional_text(routes@[i].interface),
        entries@[i].metric == routes@[i].metric,
{
    assert(describes_route(entries@[i], routes@[i]@));
    reveal_strlit("/");
    assert("/"@ =~= seq!['/']);
}

/// What is looked at to choose a default network is the same in a route and in what is told of it.
pub proof fn a_route_and_its_entry_are_one_candidate(
    routes: &[ObservedRoute],
    entries: Vec<RouteEntry>,
    i: int,
)
    requires
        call_ensures(route_entries_of, (routes,), entries),
        0 <= i < routes@.len(),
    ensures
        route_candidates(route_models(routes@)).len() == entries@.len(),
        ({
            let candidate = route_candidates(route_models(routes@))[i];
            &&& candidate == entry_candidates(entries@)[i]
            &&& candidate.metric == routes@[i].metric
            &&& candidate.interface == optional_text(routes@[i].interface)
            &&& candidate.prefix == Some(routes@[i].prefix as nat)
        }),
{
    assert(describes_route(entries@[i], routes@[i]@));
    a_destination_carries_its_prefix(routes@[i]@);
}

} // verus!
