//! What the kernel reports of interfaces, addresses and routes.
//!
//! A reply is a sequence of messages, each with its length before it and filled up to four bytes.
//! Integers are in the byte order of the machine, which everything here is told.

use crate::bytes::{
    contains_byte, copied_range, lemma_same_words, machine_order, push_word16, push_word32,
    read_word16, read_word32, word16, word16_bytes, word32, word32_bytes, words_read_back, ByteOrder,
};
use crate::contract::common::ErrorCode;
use crate::contract::results::{InterfaceAddress, InterfaceEntry};
use crate::daemon::network::address::{
    address_of, address_text, ipv4_text, ipv6_text, optional_bytes,
};
use crate::error::DomainError;
use crate::text::{optional_text, utf8_text};
use vstd::prelude::*;
use vstd::utf8::{decode_utf8, valid_utf8};

verus! {

pub const NLMSG_HEADER_BYTES: usize = 16;

pub const NLMSG_ERROR: u16 = 2;

pub const NLMSG_DONE: u16 = 3;

pub const RTM_NEWLINK: u16 = 16;

pub const RTM_GETLINK: u16 = 18;

pub const RTM_NEWADDR: u16 = 20;

pub const RTM_GETADDR: u16 = 22;

pub const RTM_NEWROUTE: u16 = 24;

pub const RTM_GETROUTE: u16 = 26;

pub const IFINFOMSG_BYTES: usize = 16;

pub const IFADDRMSG_BYTES: usize = 8;

pub const RTMSG_BYTES: usize = 12;

pub const IFLA_IFNAME: u16 = 3;

pub const IFLA_MTU: u16 = 4;

pub const IFA_ADDRESS: u16 = 1;

pub const IFA_LOCAL: u16 = 2;

pub const RTA_DST: u16 = 1;

pub const RTA_OIF: u16 = 4;

pub const RTA_GATEWAY: u16 = 5;

pub const RTA_PRIORITY: u16 = 6;

pub const IFF_UP: u32 = 0x1;

pub const IFF_LOOPBACK: u32 = 0x8;

pub const RTM_F_CLONED: u32 = 0x200;

/// The flags of a request for everything of a kind.
pub const NLM_F_REQUEST_DUMP: u16 = 0x301;

/// One reply, and whether it was cut short.
#[derive(Debug, PartialEq)]
pub struct SourceDump {
    pub bytes: Vec<u8>,
    pub truncated: bool,
}

pub open spec fn malformed_error(reason: &'static str) -> DomainError {
    DomainError { code: ErrorCode::InternalError, reason }
}

pub(crate) fn malformed(reason: &'static str) -> (error: DomainError)
    ensures
        error == malformed_error(reason),
{
    DomainError::new(ErrorCode::InternalError, reason)
}

// ---------------------------------------------------------------------------------------
// Messages.
// ---------------------------------------------------------------------------------------

/// A length filled up to four bytes.
pub open spec fn aligned(length: int) -> int {
    (length + 3) / 4 * 4
}

/// What fills a length up to four bytes.
fn padding_of(length: usize) -> (padding: usize)
    ensures
        padding < 4,
        aligned(length as int) == length + padding,
{
    (4 - length % 4) % 4
}

/// The length that the message at `offset` declares.
pub open spec fn message_length(order: ByteOrder, bytes: Seq<u8>, offset: int) -> int {
    word32(order, bytes, offset) as int
}

/// Whether a whole header stands at `offset`.
pub open spec fn header_at(bytes: Seq<u8>, offset: int) -> bool {
    offset + NLMSG_HEADER_BYTES <= bytes.len()
}

/// Whether a whole message stands at `offset`.
pub open spec fn message_at(order: ByteOrder, bytes: Seq<u8>, offset: int) -> bool {
    header_at(bytes, offset) && NLMSG_HEADER_BYTES <= message_length(order, bytes, offset) && offset
        + message_length(order, bytes, offset) <= bytes.len()
}

/// The kind of the message at `offset`.
pub open spec fn message_kind(order: ByteOrder, bytes: Seq<u8>, offset: int) -> u16 {
    word16(order, bytes, offset + 4)
}

/// What follows the header of the message at `offset`.
pub open spec fn message_body(order: ByteOrder, bytes: Seq<u8>, offset: int) -> Seq<u8> {
    bytes.subrange(offset + NLMSG_HEADER_BYTES, offset + message_length(order, bytes, offset))
}

/// Where the message after the one at `offset` begins.
pub open spec fn next_message(order: ByteOrder, bytes: Seq<u8>, offset: int) -> int {
    offset + aligned(message_length(order, bytes, offset))
}

/// What an error message reports.
pub open spec fn error_reason(order: ByteOrder, body: Seq<u8>) -> &'static str {
    if body.len() < 4 {
        "netlink reply reported an error"
    } else if word32(order, body, 0) == 0 {
        "netlink reply was an unexpected acknowledgement"
    } else if word32(order, body, 0) == 0xffff_ffff {
        "netlink request is not permitted"
    } else if word32(order, body, 0) == 0xffff_fffe {
        "netlink request found no such target"
    } else if word32(order, body, 0) == 0xffff_ffea {
        "netlink request is not supported"
    } else {
        "netlink reply reported an error"
    }
}

/// What stands at a place of a reply.
pub enum Place {
    /// The reply ends here.
    End,
    /// The reply cannot be read further.
    Fault(DomainError),
    /// A message.
    Message,
}

/// What stands at `offset`. A message that runs past the end makes the reply unreadable.
pub open spec fn place(order: ByteOrder, bytes: Seq<u8>, offset: int) -> Place {
    if offset >= bytes.len() {
        Place::End
    } else if !header_at(bytes, offset) {
        Place::Fault(malformed_error("netlink reply has an incomplete message header"))
    } else if !message_at(order, bytes, offset) {
        Place::Fault(malformed_error("netlink reply has an incomplete message"))
    } else if message_kind(order, bytes, offset) == NLMSG_DONE {
        Place::End
    } else if message_kind(order, bytes, offset) == NLMSG_ERROR {
        Place::Fault(malformed_error(error_reason(order, message_body(order, bytes, offset))))
    } else {
        Place::Message
    }
}

fn netlink_error_reason(order: ByteOrder, body: &[u8]) -> (reason: &'static str)
    ensures
        reason == error_reason(order, body@),
{
    if body.len() < 4 {
        return "netlink reply reported an error";
    }
    let code: u32 = read_word32(order, body, 0);
    if code == 0 {
        "netlink reply was an unexpected acknowledgement"
    } else if code == 0xffff_ffff {
        "netlink request is not permitted"
    } else if code == 0xffff_fffe {
        "netlink request found no such target"
    } else if code == 0xffff_ffea {
        "netlink request is not supported"
    } else {
        "netlink reply reported an error"
    }
}

/// One message of a reply.
pub(crate) struct Message {
    pub(crate) kind: u16,
    pub(crate) body: Vec<u8>,
    pub(crate) next: usize,
}

/// Reads what stands at `offset`; `None` is the end of the reply.
pub(crate) fn read_message(
    order: ByteOrder,
    bytes: &[u8],
    offset: usize,
) -> (read: Result<Option<Message>, DomainError>)
    requires
        offset <= bytes@.len() || offset <= bytes@.len() + 3,
    ensures
        match (read, place(order, bytes@, offset as int)) {
            (Ok(None), Place::End) => true,
            (Err(error), Place::Fault(expected)) => error == expected,
            (Ok(Some(message)), Place::Message) => {
                &&& message_at(order, bytes@, offset as int)
                &&& message.kind == message_kind(order, bytes@, offset as int)
                &&& message.body@ == message_body(order, bytes@, offset as int)
                &&& offset + NLMSG_HEADER_BYTES <= message.next
                &&& (message.next == next_message(order, bytes@, offset as int) || (message.next
                    >= bytes@.len() && next_message(order, bytes@, offset as int) >= bytes@.len()))
                &&& message.next <= bytes@.len()
            },
            _ => false,
        },
{
    if offset >= bytes.len() {
        return Ok(None);
    }
    if bytes.len() - offset < NLMSG_HEADER_BYTES {
        return Err(malformed("netlink reply has an incomplete message header"));
    }
    let length: u32 = read_word32(order, bytes, offset);
    let kind: u16 = read_word16(order, bytes, offset + 4);
    if (length as u64) < NLMSG_HEADER_BYTES as u64
        || length as u64 > (bytes.len() - offset) as u64 {
        return Err(malformed("netlink reply has an incomplete message"));
    }
    let end: usize = offset + length as usize;
    if kind == NLMSG_DONE {
        return Ok(None);
    }
    let body = copied_range(bytes, offset + NLMSG_HEADER_BYTES, end);
    if kind == NLMSG_ERROR {
        return Err(malformed(netlink_error_reason(order, body.as_slice())));
    }
    let padding: usize = padding_of(length as usize);
    let next: usize = if padding > bytes.len() - end {
        bytes.len()
    } else {
        end + padding
    };
    Ok(Some(Message { kind, body, next }))
}

/// Whether the messages from `offset` on come to the end of the reply.
pub open spec fn completes(order: ByteOrder, bytes: Seq<u8>, offset: int) -> bool
    decreases bytes.len() + 4 - offset,
{
    if offset < 0 || !message_at(order, bytes, offset) {
        false
    } else if message_kind(order, bytes, offset) == NLMSG_DONE || message_kind(order, bytes, offset)
        == NLMSG_ERROR {
        true
    } else {
        completes(order, bytes, next_message(order, bytes, offset))
    }
}

/// Whether a reply already carries its own end, its integers being in an order.
pub fn reply_is_complete_in(order: ByteOrder, bytes: &[u8]) -> (complete: bool)
    ensures
        complete == completes(order, bytes@, 0),
{
    let mut offset: usize = 0;
    while bytes.len() - offset >= NLMSG_HEADER_BYTES
        invariant
            offset <= bytes@.len(),
            completes(order, bytes@, 0) == completes(order, bytes@, offset as int),
        decreases bytes@.len() - offset,
    {
        let length: u32 = read_word32(order, bytes, offset);
        let kind: u16 = read_word16(order, bytes, offset + 4);
        if (length as u64) < NLMSG_HEADER_BYTES as u64 || length as u64 > (bytes.len() - offset)
            as u64 {
            return false;
        }
        if kind == NLMSG_DONE || kind == NLMSG_ERROR {
            return true;
        }
        let end: usize = offset + length as usize;
        let padding: usize = padding_of(length as usize);
        if padding > bytes.len() - end {
            assert(!completes(order, bytes@, end + padding));
            return false;
        }
        offset = end + padding;
    }
    false
}

/// Whether a reply of this machine's kernel already carries its own end.
pub fn reply_is_complete(bytes: &[u8]) -> (complete: bool)
    ensures
        exists|order: ByteOrder| complete == #[trigger] completes(order, bytes@, 0),
{
    reply_is_complete_in(machine_order(), bytes)
}

/// Where the whole messages from `offset` on end.
pub open spec fn boundary(order: ByteOrder, bytes: Seq<u8>, offset: int) -> int
    decreases bytes.len() + 4 - offset,
{
    if offset < 0 || !message_at(order, bytes, offset) {
        offset
    } else {
        boundary(order, bytes, next_message(order, bytes, offset))
    }
}

/// The whole messages of a reply.
pub open spec fn whole_messages(order: ByteOrder, bytes: Seq<u8>) -> Seq<u8> {
    let end = boundary(order, bytes, 0);
    if end >= bytes.len() {
        bytes
    } else {
        bytes.take(end)
    }
}

/// The whole messages of a reply, without the part of one after them, its integers being in an
/// order.
pub fn complete_prefix_in(order: ByteOrder, bytes: &[u8]) -> (prefix: &[u8])
    ensures
        prefix@ == whole_messages(order, bytes@),
{
    let mut offset: usize = 0;
    let mut stopped = false;
    while bytes.len() - offset >= NLMSG_HEADER_BYTES && !stopped
        invariant
            offset <= bytes@.len(),
            boundary(order, bytes@, 0) == boundary(order, bytes@, offset as int) || (offset
                == bytes@.len()
                && boundary(order, bytes@, 0) >= bytes@.len()),
            stopped ==> !message_at(order, bytes@, offset as int),
        decreases
            bytes@.len() - offset,
            (if stopped {
                0int
            } else {
                1int
            }),
    {
        let length: u32 = read_word32(order, bytes, offset);
        if (length as u64) < NLMSG_HEADER_BYTES as u64 || length as u64 > (bytes.len() - offset)
            as u64 {
            stopped = true;
        } else {
            let end: usize = offset + length as usize;
            let padding: usize = padding_of(length as usize);
            if padding > bytes.len() - end {
                assert(boundary(order, bytes@, end + padding) == end + padding);
                offset = bytes.len();
            } else {
                offset = end + padding;
            }
        }
    }
    assert(bytes@.subrange(0, bytes@.len() as int) =~= bytes@);
    assert(bytes@.subrange(0, offset as int) =~= bytes@.take(offset as int));
    vstd::slice::slice_subrange(bytes, 0, offset)
}

/// The whole messages of a reply of this machine's kernel, without the part of one after them.
pub fn complete_prefix(bytes: &[u8]) -> (prefix: &[u8])
    ensures
        exists|order: ByteOrder| prefix@ == #[trigger] whole_messages(order, bytes@),
{
    complete_prefix_in(machine_order(), bytes)
}

/// Whether a reply breaks off in a message, from `offset` on.
pub open spec fn breaks_off(order: ByteOrder, bytes: Seq<u8>, offset: int) -> bool
    decreases bytes.len() + 4 - offset,
{
    if offset < 0 || offset >= bytes.len() {
        false
    } else if !message_at(order, bytes, offset) {
        true
    } else {
        breaks_off(order, bytes, next_message(order, bytes, offset))
    }
}

proof fn lemma_boundary_is_ahead(order: ByteOrder, bytes: Seq<u8>, offset: int)
    requires
        0 <= offset,
    ensures
        boundary(order, bytes, offset) >= offset,
    decreases bytes.len() + 4 - offset,
{
    if message_at(order, bytes, offset) {
        lemma_boundary_is_ahead(order, bytes, next_message(order, bytes, offset));
    }
}

proof fn lemma_prefix_is_whole(order: ByteOrder, bytes: Seq<u8>, offset: int)
    requires
        0 <= offset,
        boundary(order, bytes, offset) == boundary(order, bytes, 0),
    ensures
        !breaks_off(order, whole_messages(order, bytes), offset),
    decreases bytes.len() + 4 - offset,
{
    let prefix = whole_messages(order, bytes);
    if message_at(order, bytes, offset) {
        let next = next_message(order, bytes, offset);
        lemma_boundary_is_ahead(order, bytes, next);
        assert(offset + message_length(order, bytes, offset) <= prefix.len());
        lemma_same_words(order, prefix, offset, bytes, offset);
        lemma_prefix_is_whole(order, bytes, next);
    }
}

/// What is kept of a reply never breaks off in a message, whatever the reply was.
pub proof fn a_complete_prefix_never_breaks_off(order: ByteOrder, bytes: Seq<u8>)
    ensures
        !breaks_off(order, whole_messages(order, bytes), 0),
{
    lemma_prefix_is_whole(order, bytes, 0);
}

/// Whether a message of a reply may start at `at`, if one starts at `offset`: from there, whole
/// messages lead up to it.
pub open spec fn starts(order: ByteOrder, bytes: Seq<u8>, offset: int, at: int) -> bool
    decreases bytes.len() + 4 - offset,
{
    if offset == at {
        true
    } else if offset < 0 || !message_at(order, bytes, offset) {
        false
    } else {
        starts(order, bytes, next_message(order, bytes, offset), at)
    }
}

/// Whether the message at `at` is whole and ends a reply.
pub open spec fn is_end(order: ByteOrder, bytes: Seq<u8>, at: int) -> bool {
    message_at(order, bytes, at) && (message_kind(order, bytes, at) == NLMSG_DONE
        || message_kind(order, bytes, at)
        == NLMSG_ERROR)
}

/// Where the end of a complete reply stands.
proof fn lemma_end_of(order: ByteOrder, bytes: Seq<u8>, offset: int) -> (at: int)
    requires
        0 <= offset,
        completes(order, bytes, offset),
    ensures
        starts(order, bytes, offset, at),
        is_end(order, bytes, at),
    decreases bytes.len() + 4 - offset,
{
    if is_end(order, bytes, offset) {
        offset
    } else {
        lemma_end_of(order, bytes, next_message(order, bytes, offset))
    }
}

proof fn lemma_completes_at(order: ByteOrder, bytes: Seq<u8>, offset: int, at: int)
    requires
        0 <= offset,
        starts(order, bytes, offset, at),
        is_end(order, bytes, at),
    ensures
        completes(order, bytes, offset),
    decreases bytes.len() + 4 - offset,
{
    if offset != at && !is_end(order, bytes, offset) {
        lemma_completes_at(order, bytes, next_message(order, bytes, offset), at);
    }
}

/// A reply is complete exactly if one of its whole messages ends it: a message that is cut short
/// does not count, whatever its kind.
pub proof fn a_complete_reply_has_a_whole_end(order: ByteOrder, bytes: Seq<u8>)
    ensures
        completes(
            order,
            bytes,
            0) <==> exists|at: int| #[trigger] starts(order,
            bytes,
            0,
            at) && is_end(order,
            bytes,
            at,
        ),
{
    if completes(order, bytes, 0) {
        let at = lemma_end_of(order, bytes, 0);
        assert(starts(order, bytes, 0, at) && is_end(order, bytes, at));
    }
    if exists|at: int| #[trigger] starts(order, bytes, 0, at) && is_end(order, bytes, at) {
        let at = choose|at: int| #[trigger] starts(order, bytes, 0, at) && is_end(order, bytes, at);
        lemma_completes_at(order, bytes, 0, at);
    }
}

proof fn lemma_stays_complete(order: ByteOrder, bytes: Seq<u8>, more: Seq<u8>, offset: int)
    requires
        0 <= offset,
        completes(order, bytes, offset),
    ensures
        completes(order, bytes + more, offset),
    decreases bytes.len() + 4 - offset,
{
    let longer = bytes + more;
    lemma_same_words(order, longer, offset, bytes, offset);
    lemma_same_words(order, longer, offset + 4, bytes, offset + 4);
    if !is_end(order, bytes, offset) {
        lemma_stays_complete(order, bytes, more, next_message(order, bytes, offset));
    }
}

/// A reply that is complete stays complete, whatever comes after it.
pub proof fn a_complete_reply_stays_complete(order: ByteOrder, bytes: Seq<u8>, more: Seq<u8>)
    requires
        completes(order, bytes, 0),
    ensures
        completes(order, bytes + more, 0),
{
    lemma_stays_complete(order, bytes, more, 0);
}

proof fn lemma_prefix_completes(order: ByteOrder, bytes: Seq<u8>, offset: int)
    requires
        0 <= offset,
        boundary(order, bytes, offset) == boundary(order, bytes, 0),
        completes(order, bytes, offset),
    ensures
        completes(order, whole_messages(order, bytes), offset),
    decreases bytes.len() + 4 - offset,
{
    let prefix = whole_messages(order, bytes);
    let next = next_message(order, bytes, offset);
    lemma_boundary_is_ahead(order, bytes, next);
    assert(offset + message_length(order, bytes, offset) <= prefix.len());
    lemma_same_words(order, prefix, offset, bytes, offset);
    lemma_same_words(order, prefix, offset + 4, bytes, offset + 4);
    if !is_end(order, bytes, offset) {
        lemma_prefix_completes(order, bytes, next);
    }
}

/// Whether a reply is complete is told by its whole messages alone.
pub proof fn completeness_is_told_by_whole_messages(order: ByteOrder, bytes: Seq<u8>)
    ensures
        completes(order, bytes, 0) == completes(order, whole_messages(order, bytes), 0),
{
    let prefix = whole_messages(order, bytes);
    if completes(order, bytes, 0) {
        lemma_prefix_completes(order, bytes, 0);
    }
    if completes(order, prefix, 0) {
        let rest = bytes.skip(prefix.len() as int);
        lemma_boundary_is_ahead(order, bytes, 0);
        assert(prefix + rest =~= bytes);
        a_complete_reply_stays_complete(order, prefix, rest);
    }
}

/// The bytes of a request for everything of a kind: a header, and the family's own header left
/// blank.
pub open spec fn dump_request(order: ByteOrder, kind: u16) -> Seq<u8> {
    let blank: nat = if kind == RTM_GETLINK {
        16
    } else if kind == RTM_GETADDR {
        8
    } else {
        12
    };
    word32_bytes(order, (16 + blank) as u32) + word16_bytes(order, kind)
        + word16_bytes(order, NLM_F_REQUEST_DUMP) + Seq::new(
        8 + blank,
        |i: int| 0u8,
    )
}

/// Makes a request for everything of a kind.
pub fn netlink_dump_request(order: ByteOrder, kind: u16) -> (request: Vec<u8>)
    ensures
        request@ == dump_request(order, kind),
{
    let family_header: usize = if kind == RTM_GETLINK {
        IFINFOMSG_BYTES
    } else if kind == RTM_GETADDR {
        IFADDRMSG_BYTES
    } else {
        RTMSG_BYTES
    };
    let mut request: Vec<u8> = Vec::new();
    push_word32(order, &mut request, (NLMSG_HEADER_BYTES + family_header) as u32);
    push_word16(order, &mut request, kind);
    push_word16(order, &mut request, NLM_F_REQUEST_DUMP);
    let ghost head = request@;
    let blank: usize = 8 + family_header;
    for i in 0..blank
        invariant
            request@ == head + Seq::new(i as nat, |k: int| 0u8),
    {
        request.push(0);
        assert(request@ =~= head + Seq::new((i + 1) as nat, |k: int| 0u8));
    }
    assert(request@ =~= dump_request(order, kind));
    request
}

// ---------------------------------------------------------------------------------------
// Attributes.
// ---------------------------------------------------------------------------------------

/// The attributes in a message, or nothing if one of them is cut short.
#[verifier::opaque]
pub open spec fn attributes(order: ByteOrder, body: Seq<u8>) -> Option<Seq<(u16, Seq<u8>)>>
    decreases body.len(),
{
    let length = word16(order, body, 0) as int;
    if body.len() < 4 {
        Some(Seq::empty())
    } else if length < 4 || length > body.len() {
        None
    } else {
        let first = seq![(word16(order, body, 2), body.subrange(4, length))];
        if aligned(length) > body.len() {
            Some(first)
        } else {
            match attributes(order, body.skip(aligned(length))) {
                Some(rest) => Some(first + rest),
                None => None,
            }
        }
    }
}

/// What stands at the front of the attributes, if it is not cut short, and what follows it.
proof fn lemma_first_attribute(order: ByteOrder, body: Seq<u8>)
    requires
        body.len() >= 4,
    ensures
        ({
            let length = word16(order, body, 0) as int;
            let first = seq![(word16(order, body, 2), body.subrange(4, length))];
            if length < 4 || length > body.len() {
                attributes(order, body) is None
            } else if aligned(length) > body.len() {
                attributes(order, body) == Some(first)
            } else {
                attributes(order, body) == (match attributes(order, body.skip(aligned(length))) {
                    Some(rest) => Some(first + rest),
                    None => None,
                })
            }
        }),
{
    reveal_with_fuel(attributes, 2);
}

proof fn lemma_no_attribute(order: ByteOrder, body: Seq<u8>)
    requires
        body.len() < 4,
    ensures
        attributes(order, body) == Some(Seq::<(u16, Seq<u8>)>::empty()),
{
    reveal_with_fuel(attributes, 2);
}

/// One attribute.
pub(crate) struct Attribute {
    pub(crate) kind: u16,
    pub(crate) value: Vec<u8>,
}

pub(crate) open(crate) spec fn attribute_models(list: Seq<Attribute>) -> Seq<(u16, Seq<u8>)> {
    Seq::new(list.len(), |i: int| (list[i].kind, list[i].value@))
}

pub(crate) fn attribute_list(
    order: ByteOrder,
    body: &[u8],
    start: usize,
) -> (list: Option<Vec<Attribute>>)
    requires
        start <= body@.len(),
    ensures
        match list {
            Some(list) => attributes(order, body@.skip(start as int))
                == Some(attribute_models(list@)),
            None => attributes(order, body@.skip(start as int)) is None,
        },
{
    let ghost whole = body@.skip(start as int);
    let mut list: Vec<Attribute> = Vec::new();
    let mut at: usize = start;
    assert(attribute_models(list@) =~= Seq::empty());
    while body.len() - at >= 4
        invariant
            start <= at <= body@.len(),
            whole == body@.skip(start as int),
            attributes(order, whole) == (match attributes(order, body@.skip(at as int)) {
                Some(rest) => Some(attribute_models(list@) + rest),
                None => None,
            }),
        decreases body@.len() - at,
    {
        let ghost rest = body@.skip(at as int);
        let length: usize = read_word16(order, body, at) as usize;
        let kind: u16 = read_word16(order, body, at + 2);
        proof {
            lemma_same_words(order, rest, 0, body@, at as int);
            lemma_same_words(order, rest, 2, body@, at + 2);
            lemma_first_attribute(order, rest);
        }
        if length < 4 || length > body.len() - at {
            return None;
        }
        let value = copied_range(body, at + 4, at + length);
        assert(value@ =~= rest.subrange(4, length as int));
        let ghost before = list@;
        list.push(Attribute { kind, value });
        assert(attribute_models(list@) =~= attribute_models(before) + seq![(kind, value@)]);
        let padding: usize = padding_of(length);
        if padding > body.len() - at - length {
            assert(attributes(order, rest) == Some(seq![(kind, value@)]));
            return Some(list);
        }
        at = at + length + padding;
        proof {
            assert(rest.skip(length + padding) =~= body@.skip(at as int));
            if let Some(more) = attributes(order, body@.skip(at as int)) {
                assert(attribute_models(before) + (seq![(kind, value@)] + more) =~=
                    attribute_models(list@) + more);
            }
        }
    }
    proof {
        lemma_no_attribute(order, body@.skip(at as int));
    }
    assert(attribute_models(list@) + Seq::<(u16, Seq<u8>)>::empty() =~= attribute_models(list@));
    Some(list)
}

/// Whether a byte sequence is four bytes long, and the integer that it then is.
pub open spec fn exact_u32(order: ByteOrder, value: Seq<u8>) -> Option<u32> {
    if value.len() == 4 {
        Some(word32(order, value, 0))
    } else {
        None
    }
}

fn native_u32(order: ByteOrder, value: &[u8]) -> (number: Option<u32>)
    ensures
        number == exact_u32(order, value@),
{
    if value.len() == 4 {
        Some(read_word32(order, value, 0))
    } else {
        None
    }
}

/// The name in an attribute: one zero byte at its end is no part of it, and a name that is empty,
/// has a zero byte in it or is no text is none.
pub open spec fn name_of(value: Seq<u8>) -> Option<Seq<char>> {
    let name = if value.len() > 0 && value.last() == 0 {
        value.drop_last()
    } else {
        value
    };
    if name.len() == 0 || name.contains(0) || !valid_utf8(name) {
        None
    } else {
        Some(decode_utf8(name))
    }
}

fn interface_name(value: &[u8]) -> (name: Option<String>)
    ensures
        optional_text(name) == name_of(value@),
{
    let end: usize = if value.len() > 0 && value[value.len() - 1] == 0 {
        value.len() - 1
    } else {
        value.len()
    };
    let bytes = vstd::slice::slice_subrange(value, 0, end);
    proof {
        if value@.len() > 0 && value@.last() == 0 {
            assert(bytes@ =~= value@.drop_last());
        } else {
            assert(bytes@ =~= value@);
        }
    }
    if bytes.len() == 0 {
        return None;
    }
    if contains_byte(bytes, 0) {
        return None;
    }
    utf8_text(bytes)
}

/// The first usable name among attributes.
pub open spec fn first_name(list: Seq<(u16, Seq<u8>)>) -> Option<Seq<char>>
    decreases list.len(),
{
    if list.len() == 0 {
        None
    } else if first_name(list.drop_last()) is Some {
        first_name(list.drop_last())
    } else if list.last().0 == IFLA_IFNAME {
        name_of(list.last().1)
    } else {
        None
    }
}

/// The first integer among attributes of a kind.
pub open spec fn first_u32(order: ByteOrder, list: Seq<(u16, Seq<u8>)>, kind: u16) -> Option<u32>
    decreases list.len(),
{
    if list.len() == 0 {
        None
    } else if first_u32(order, list.drop_last(), kind) is Some {
        first_u32(order, list.drop_last(), kind)
    } else if list.last().0 == kind {
        exact_u32(order, list.last().1)
    } else {
        None
    }
}

/// The last integer among attributes of a kind.
pub open spec fn last_u32(order: ByteOrder, list: Seq<(u16, Seq<u8>)>, kind: u16) -> Option<u32>
    decreases list.len(),
{
    if list.len() == 0 {
        None
    } else if list.last().0 == kind && exact_u32(order, list.last().1) is Some {
        exact_u32(order, list.last().1)
    } else {
        last_u32(order, list.drop_last(), kind)
    }
}

/// The last value among attributes of a kind.
pub open spec fn last_value(list: Seq<(u16, Seq<u8>)>, kind: u16) -> Option<Seq<u8>>
    decreases list.len(),
{
    if list.len() == 0 {
        None
    } else if list.last().0 == kind {
        Some(list.last().1)
    } else {
        last_value(list.drop_last(), kind)
    }
}

fn find_first_name(list: &[Attribute]) -> (name: Option<String>)
    ensures
        optional_text(name) == first_name(attribute_models(list@)),
{
    let ghost models = attribute_models(list@);
    let mut name: Option<String> = None;
    for i in 0..list.len()
        invariant
            models == attribute_models(list@),
            optional_text(name) == first_name(models.take(i as int)),
    {
        assert(models.take(i + 1).drop_last() =~= models.take(i as int));
        assert(models.take(i + 1).last() == models[i as int]);
        if name.is_none() && list[i].kind == IFLA_IFNAME {
            name = interface_name(list[i].value.as_slice());
        }
    }
    assert(models.take(models.len() as int) =~= models);
    name
}

fn find_first_u32(order: ByteOrder, list: &[Attribute], kind: u16) -> (number: Option<u32>)
    ensures
        number == first_u32(order, attribute_models(list@), kind),
{
    let ghost models = attribute_models(list@);
    let mut number: Option<u32> = None;
    for i in 0..list.len()
        invariant
            models == attribute_models(list@),
            number == first_u32(order, models.take(i as int), kind),
    {
        assert(models.take(i + 1).drop_last() =~= models.take(i as int));
        assert(models.take(i + 1).last() == models[i as int]);
        if number.is_none() && list[i].kind == kind {
            number = native_u32(order, list[i].value.as_slice());
        }
    }
    assert(models.take(models.len() as int) =~= models);
    number
}

pub(crate) fn find_last_u32(
    order: ByteOrder,
    list: &[Attribute],
    kind: u16,
) -> (number: Option<u32>)
    ensures
        number == last_u32(order, attribute_models(list@), kind),
{
    let ghost models = attribute_models(list@);
    let mut number: Option<u32> = None;
    for i in 0..list.len()
        invariant
            models == attribute_models(list@),
            number == last_u32(order, models.take(i as int), kind),
    {
        assert(models.take(i + 1).drop_last() =~= models.take(i as int));
        assert(models.take(i + 1).last() == models[i as int]);
        if list[i].kind == kind {
            let read = native_u32(order, list[i].value.as_slice());
            if read.is_some() {
                number = read;
            }
        }
    }
    assert(models.take(models.len() as int) =~= models);
    number
}

pub(crate) fn find_last_value(list: &[Attribute], kind: u16) -> (value: Option<Vec<u8>>)
    ensures
        optional_bytes(value) == last_value(attribute_models(list@), kind),
{
    let ghost models = attribute_models(list@);
    let mut value: Option<Vec<u8>> = None;
    for i in 0..list.len()
        invariant
            models == attribute_models(list@),
            optional_bytes(value) == last_value(models.take(i as int), kind),
    {
        assert(models.take(i + 1).drop_last() =~= models.take(i as int));
        assert(models.take(i + 1).last() == models[i as int]);
        if list[i].kind == kind {
            let copy = copied_range(list[i].value.as_slice(), 0, list[i].value.len());
            assert(copy@ =~= list@[i as int].value@);
            value = Some(copy);
        }
    }
    assert(models.take(models.len() as int) =~= models);
    value
}

// ---------------------------------------------------------------------------------------
// Interfaces.
// ---------------------------------------------------------------------------------------

/// One interface as the kernel reports it.
#[derive(Debug, PartialEq)]
pub struct LinkFacts {
    pub index: u32,
    pub name: String,
    pub up: bool,
    pub loopback: bool,
    pub mtu: Option<u32>,
    pub addresses: Vec<InterfaceAddress>,
}

/// What an interface is.
pub struct LinkModel {
    pub index: u32,
    pub name: Seq<char>,
    pub up: bool,
    pub loopback: bool,
    pub mtu: Option<u32>,
    pub addresses: Seq<(Seq<char>, Option<u8>)>,
}

/// What addresses of an interface are.
pub open spec fn address_models(addresses: Seq<InterfaceAddress>) -> Seq<
    (Seq<char>, Option<u8>),
> {
    Seq::new(addresses.len(), |i: int| (addresses[i].address@, addresses[i].prefix_length))
}

impl View for LinkFacts {
    type V = LinkModel;

    open spec fn view(&self) -> LinkModel {
        LinkModel {
            index: self.index,
            name: self.name@,
            up: self.up,
            loopback: self.loopback,
            mtu: self.mtu,
            addresses: address_models(self.addresses@),
        }
    }
}

/// What interfaces are.
pub open spec fn link_models(links: Seq<LinkFacts>) -> Seq<LinkModel> {
    Seq::new(links.len(), |i: int| links[i]@)
}

/// The interfaces once a message about one was read. An interface without a usable name is left
/// out.
pub open spec fn with_link(
    order: ByteOrder,
    links: Seq<LinkModel>,
    kind: u16,
    body: Seq<u8>,
) -> Result<
    Seq<LinkModel>,
    DomainError,
> {
    if kind != RTM_NEWLINK {
        Ok(links)
    } else if body.len() < IFINFOMSG_BYTES {
        Err(malformed_error("netlink link reply is truncated"))
    } else {
        match attributes(order, body.skip(16)) {
            None => Err(malformed_error("netlink attribute is truncated")),
            Some(list) => match first_name(list) {
                None => Ok(links),
                Some(name) => Ok(
                    links.push(
                        LinkModel {
                            index: word32(order, body, 4),
                            name,
                            up: word32(order, body, 8) & IFF_UP != 0,
                            loopback: word32(order, body, 8) & IFF_LOOPBACK != 0,
                            mtu: first_u32(order, list, IFLA_MTU),
                            addresses: Seq::empty(),
                        },
                    ),
                ),
            },
        }
    }
}

/// The interfaces once every message from `offset` on was read.
pub open spec fn with_links(
    order: ByteOrder,
    links: Seq<LinkModel>,
    bytes: Seq<u8>,
    offset: int,
) -> Result<
    Seq<LinkModel>,
    DomainError,
>
    decreases bytes.len() + 4 - offset,
{
    match place(order, bytes, offset) {
        Place::End => Ok(links),
        Place::Fault(error) => Err(error),
        Place::Message => if offset < 0 {
            Ok(links)
        } else {
            match with_link(
                order,
                links,
                message_kind(order, bytes, offset),
                message_body(order, bytes, offset),
            ) {
                Ok(links) => with_links(order, links, bytes, next_message(order, bytes, offset)),
                Err(error) => Err(error),
            }
        },
    }
}

/// The first interface with an index.
pub open spec fn link_position(links: Seq<LinkModel>, index: u32) -> int
    decreases links.len(),
{
    if links.len() == 0 {
        0
    } else if links[0].index == index {
        0
    } else {
        1 + link_position(links.skip(1), index)
    }
}

/// The interfaces once a message about an address was read. The address goes to the first
/// interface with its index; the own address comes before that of the peer.
pub open spec fn with_address(
    order: ByteOrder,
    links: Seq<LinkModel>,
    kind: u16,
    body: Seq<u8>,
) -> Result<
    Seq<LinkModel>,
    DomainError,
> {
    if kind != RTM_NEWADDR {
        Ok(links)
    } else if body.len() < IFADDRMSG_BYTES {
        Err(malformed_error("netlink address reply is truncated"))
    } else {
        match attributes(order, body.skip(8)) {
            None => Err(malformed_error("netlink attribute is truncated")),
            Some(list) => {
                let value = match last_value(list, IFA_LOCAL) {
                    Some(local) => Some(local),
                    None => last_value(list, IFA_ADDRESS),
                };
                let at = link_position(links, word32(order, body, 4));
                match address_of(body[0], value) {
                    Some(text) if at < links.len() => Ok(
                        links.update(
                            at,
                            LinkModel {
                                addresses: links[at].addresses.push((text, Some(body[1]))),
                                ..links[at]
                            },
                        ),
                    ),
                    _ => Ok(links),
                }
            },
        }
    }
}

/// The interfaces once every message about addresses from `offset` on was read.
pub open spec fn with_addresses(
    order: ByteOrder,
    links: Seq<LinkModel>,
    bytes: Seq<u8>,
    offset: int,
) -> Result<
    Seq<LinkModel>,
    DomainError,
>
    decreases bytes.len() + 4 - offset,
{
    match place(order, bytes, offset) {
        Place::End => Ok(links),
        Place::Fault(error) => Err(error),
        Place::Message => if offset < 0 {
            Ok(links)
        } else {
            match with_address(
                order,
                links,
                message_kind(order, bytes, offset),
                message_body(order, bytes, offset),
            ) {
                Ok(links) => with_addresses(
                    order,
                    links,
                    bytes,
                    next_message(order, bytes, offset),
                ),
                Err(error) => Err(error),
            }
        },
    }
}

/// The interfaces that a reply about links and one about addresses report.
pub open spec fn reported_links(
    order: ByteOrder,
    link_reply: Seq<u8>,
    address_reply: Seq<u8>,
) -> Result<
    Seq<LinkModel>,
    DomainError,
> {
    match with_links(order, Seq::empty(), link_reply, 0) {
        Ok(links) => with_addresses(order, links, address_reply, 0),
        Err(error) => Err(error),
    }
}

fn read_link(
    order: ByteOrder,
    links: &mut Vec<LinkFacts>,
    kind: u16,
    body: &[u8],
) -> (read: Result<(), DomainError>)
    ensures
        match read {
            Ok(()) => with_link(order, link_models(old(links)@), kind, body@)
                == Ok::<_, DomainError>(
                link_models(final(links)@),
            ),
            Err(error) => with_link(order, link_models(old(links)@), kind, body@) == Err::<
                Seq<LinkModel>,
                _,
            >(error),
        },
{
    if kind != RTM_NEWLINK {
        return Ok(());
    }
    if body.len() < IFINFOMSG_BYTES {
        return Err(malformed("netlink link reply is truncated"));
    }
    let index: u32 = read_word32(order, body, 4);
    let flags: u32 = read_word32(order, body, 8);
    let list = match attribute_list(order, body, IFINFOMSG_BYTES) {
        Some(list) => list,
        None => {
            return Err(malformed("netlink attribute is truncated"));
        },
    };
    let mtu = find_first_u32(order, list.as_slice(), IFLA_MTU);
    match find_first_name(list.as_slice()) {
        Some(name) => {
            let ghost before = links@;
            let addresses: Vec<InterfaceAddress> = Vec::new();
            assert(address_models(addresses@) =~= Seq::empty());
            let link = LinkFacts {
                index,
                name,
                up: flags & IFF_UP != 0,
                loopback: flags & IFF_LOOPBACK != 0,
                mtu,
                addresses,
            };
            links.push(link);
            assert(link_models(links@) =~= link_models(before).push(link@));
        },
        None => {},
    }
    Ok(())
}

pub(crate) fn find_link(links: &[LinkFacts], index: u32) -> (position: usize)
    ensures
        position == link_position(link_models(links@), index),
        position <= links@.len(),
        position < links@.len() ==> links@[position as int].index == index,
{
    let ghost models = link_models(links@);
    let mut position: usize = 0;
    assert(models.skip(0) =~= models);
    while position < links.len() && links[position].index != index
        invariant
            position <= links@.len(),
            models == link_models(links@),
            link_position(models, index) == position + link_position(
                models.skip(position as int),
                index,
            ),
        decreases links@.len() - position,
    {
        let ghost rest = models.skip(position as int);
        assert(rest[0] == models[position as int]);
        assert(rest.skip(1) =~= models.skip(position + 1));
        position += 1;
    }
    proof {
        let rest = models.skip(position as int);
        if position < links@.len() {
            assert(rest[0] == models[position as int]);
        }
    }
    position
}

fn read_address(
    order: ByteOrder,
    links: &mut Vec<LinkFacts>,
    kind: u16,
    body: &[u8],
) -> (read: Result<
    (),
    DomainError,
>)
    ensures
        match read {
            Ok(()) => with_address(order, link_models(old(links)@), kind, body@)
                == Ok::<_, DomainError>(
                link_models(final(links)@),
            ),
            Err(error) => with_address(order, link_models(old(links)@), kind, body@) == Err::<
                Seq<LinkModel>,
                _,
            >(error),
        },
{
    if kind != RTM_NEWADDR {
        return Ok(());
    }
    if body.len() < IFADDRMSG_BYTES {
        return Err(malformed("netlink address reply is truncated"));
    }
    let family: u8 = body[0];
    let prefix_length: u8 = body[1];
    let index: u32 = read_word32(order, body, 4);
    let list = match attribute_list(order, body, IFADDRMSG_BYTES) {
        Some(list) => list,
        None => {
            return Err(malformed("netlink attribute is truncated"));
        },
    };
    let local = find_last_value(list.as_slice(), IFA_LOCAL);
    let value = match local {
        Some(local) => Some(local),
        None => find_last_value(list.as_slice(), IFA_ADDRESS),
    };
    if let Some(address) = address_text(family, &value) {
        let at: usize = find_link(links.as_slice(), index);
        if at < links.len() {
            let ghost before = links@;
            let found = &mut links[at];
            let ghost old_addresses = found.addresses@;
            let added = InterfaceAddress { address, prefix_length: Some(prefix_length) };
            found.addresses.push(added);
            proof {
                assert(address_models(links@[at as int].addresses@) =~= address_models(
                    before[at as int].addresses@,
                ).push((address@, Some(prefix_length))));
                assert(link_models(links@) =~= link_models(before).update(
                    at as int,
                    links@[at as int]@,
                ));
            }
        }
    }
    Ok(())
}

/// Reads the interfaces off a reply about links and one about addresses, their integers being in
/// an order.
pub fn link_facts_in(order: ByteOrder, link_reply: &[u8], address_reply: &[u8]) -> (links: Result<
    Vec<LinkFacts>,
    DomainError,
>)
    ensures
        match links {
            Ok(links) => reported_links(order, link_reply@, address_reply@) == Ok::<_, DomainError>(
                link_models(links@),
            ),
            Err(error) => reported_links(order, link_reply@, address_reply@)
                == Err::<Seq<LinkModel>, _>(
                error,
            ),
        },
{
    let mut links: Vec<LinkFacts> = Vec::new();
    assert(link_models(links@) =~= Seq::empty());
    let mut offset: usize = 0;
    let mut reading = true;
    while reading
        invariant
            offset <= link_reply@.len(),
            reading ==> with_links(order, Seq::empty(), link_reply@, 0) == with_links(
                order,
                link_models(links@),
                link_reply@,
                offset as int,
            ),
            !reading ==> with_links(order, Seq::empty(), link_reply@, 0) == Ok::<_, DomainError>(
                link_models(links@),
            ),
        decreases
            link_reply@.len() - offset,
            (if reading {
                1int
            } else {
                0int
            }),
    {
        match read_message(order, link_reply, offset) {
            Ok(None) => {
                reading = false;
            },
            Err(error) => {
                return Err(error);
            },
            Ok(Some(message)) => {
                match read_link(order, &mut links, message.kind, message.body.as_slice()) {
                    Ok(()) => {},
                    Err(error) => {
                        return Err(error);
                    },
                }
                proof {
                    let next = next_message(order, link_reply@, offset as int);
                    if message.next != next {
                        assert(with_links(order, link_models(links@), link_reply@, next) == Ok::<
                            _,
                            DomainError,
                        >(link_models(links@)));
                    }
                }
                offset = message.next;
            },
        }
    }
    let ghost named = link_models(links@);
    offset = 0;
    reading = true;
    while reading
        invariant
            offset <= address_reply@.len(),
            with_links(order, Seq::empty(), link_reply@, 0) == Ok::<_, DomainError>(named),
            reading ==> with_addresses(order, named, address_reply@, 0) == with_addresses(
                order,
                link_models(links@),
                address_reply@,
                offset as int,
            ),
            !reading ==> with_addresses(order, named, address_reply@, 0) == Ok::<_, DomainError>(
                link_models(links@),
            ),
        decreases
            address_reply@.len() - offset,
            (if reading {
                1int
            } else {
                0int
            }),
    {
        match read_message(order, address_reply, offset) {
            Ok(None) => {
                reading = false;
            },
            Err(error) => {
                return Err(error);
            },
            Ok(Some(message)) => {
                match read_address(order, &mut links, message.kind, message.body.as_slice()) {
                    Ok(()) => {},
                    Err(error) => {
                        return Err(error);
                    },
                }
                proof {
                    let next = next_message(order, address_reply@, offset as int);
                    if message.next != next {
                        assert(with_addresses(order, link_models(links@), address_reply@, next) == Ok::<
                            _,
                            DomainError,
                        >(link_models(links@)));
                    }
                }
                offset = message.next;
            },
        }
    }
    Ok(links)
}

/// Reads the interfaces off a reply of this machine's kernel about links and one about addresses.
pub fn link_facts(link_reply: &[u8], address_reply: &[u8]) -> (links: Result<
    Vec<LinkFacts>,
    DomainError,
>)
    ensures
        exists|order: ByteOrder|
            match links {
                Ok(links) => Ok::<_, DomainError>(link_models(links@)),
                Err(error) => Err(error),
            } == #[trigger] reported_links(order, link_reply@, address_reply@),
{
    link_facts_in(machine_order(), link_reply, address_reply)
}

/// Whether an entry is what is told of an interface.
pub open spec fn describes_link(entry: InterfaceEntry, link: LinkModel) -> bool {
    &&& entry.name@ == link.name
    &&& entry.index == Some(link.index)
    &&& entry.up == Some(link.up)
    &&& entry.mtu == link.mtu
    &&& address_models(entry.addresses@) == link.addresses
}

fn copied_addresses(addresses: &[InterfaceAddress]) -> (copied: Vec<InterfaceAddress>)
    ensures
        address_models(copied@) == address_models(addresses@),
{
    let mut copied: Vec<InterfaceAddress> = Vec::new();
    for i in 0..addresses.len()
        invariant
            copied@.len() == i,
            forall|k: int|
                0 <= k < i ==> (#[trigger] copied@[k]).address@ == addresses@[k].address@
                    && copied@[k].prefix_length == addresses@[k].prefix_length,
    {
        copied.push(
            InterfaceAddress {
                address: addresses[i].address.as_str().to_owned(),
                prefix_length: addresses[i].prefix_length,
            },
        );
    }
    assert(address_models(copied@) =~= address_models(addresses@));
    copied
}

/// What is told of interfaces, in their order.
pub fn interface_entries(links: &[LinkFacts]) -> (entries: Vec<InterfaceEntry>)
    ensures
        entries@.len() == links@.len(),
        forall|i: int|
            0 <= i < links@.len() ==> describes_link(#[trigger] entries@[i], links@[i]@),
{
    let mut entries: Vec<InterfaceEntry> = Vec::new();
    for i in 0..links.len()
        invariant
            entries@.len() == i,
            forall|k: int| 0 <= k < i ==> describes_link(#[trigger] entries@[k], links@[k]@),
    {
        let link = &links[i];
        entries.push(
            InterfaceEntry {
                name: link.name.as_str().to_owned(),
                index: Some(link.index),
                up: Some(link.up),
                mtu: link.mtu,
                addresses: copied_addresses(link.addresses.as_slice()),
            },
        );
    }
    entries
}

// ---------------------------------------------------------------------------------------
// Laws.
// ---------------------------------------------------------------------------------------

/// The zero bytes that fill a length up to a multiple of four.
pub open spec fn filling(length: nat) -> Seq<u8> {
    Seq::new(((4 - length % 4) % 4) as nat, |i: int| 0u8)
}

/// An attribute as the kernel writes it: its length with its own header, its kind, its value, and
/// zeros up to the next multiple of four.
pub open spec fn kernel_attribute(order: ByteOrder, kind: u16, value: Seq<u8>) -> Seq<u8> {
    word16_bytes(order, (4 + value.len()) as u16) + word16_bytes(order, kind) + value + filling(
        value.len(),
    )
}

/// Attributes one after the other.
pub open spec fn kernel_attributes(order: ByteOrder, list: Seq<(u16, Seq<u8>)>) -> Seq<u8>
    decreases list.len(),
{
    if list.len() == 0 {
        Seq::empty()
    } else {
        kernel_attribute(order, list[0].0, list[0].1) + kernel_attributes(order, list.skip(1))
    }
}

/// A message as the kernel writes it: its length with its own header, its kind, ten bytes of flags,
/// number and sender, its body, and zeros up to the next multiple of four.
pub open spec fn kernel_message(order: ByteOrder, stamp: Seq<u8>, kind: u16, body: Seq<u8>) -> Seq<
    u8,
> {
    word32_bytes(order, (16 + body.len()) as u32) + word16_bytes(order, kind) + stamp + body
        + filling(body.len())
}

/// Messages of one kind, one after the other.
pub open spec fn kernel_reply(
    order: ByteOrder,
    stamp: Seq<u8>,
    kind: u16,
    bodies: Seq<Seq<u8>>,
) -> Seq<u8>
    decreases bodies.len(),
{
    if bodies.len() == 0 {
        Seq::empty()
    } else {
        kernel_message(order, stamp, kind, bodies[0]) + kernel_reply(
            order,
            stamp,
            kind,
            bodies.skip(1),
        )
    }
}

pub(crate) proof fn lemma_words_in(order: ByteOrder, bytes: Seq<u8>, at: int, short: u16, long: u32)
    requires
        0 <= at,
    ensures
        at + 2 <= bytes.len() && bytes.subrange(at, at + 2) == word16_bytes(order, short)
            ==> word16(order, bytes, at) == short,
        at + 4 <= bytes.len() && bytes.subrange(at, at + 4) == word32_bytes(order, long) ==> word32(
            order,
            bytes,
            at,
        ) == long,
{
    words_read_back(order, short, long);
    if at + 2 <= bytes.len() && bytes.subrange(at, at + 2) == word16_bytes(order, short) {
        let part = bytes.subrange(at, at + 2);
        assert(part[0] == bytes[at] && part[1] == bytes[at + 1]);
        lemma_same_words(order, bytes, at, part, 0);
    }
    if at + 4 <= bytes.len() && bytes.subrange(at, at + 4) == word32_bytes(order, long) {
        let part = bytes.subrange(at, at + 4);
        assert(part[0] == bytes[at] && part[1] == bytes[at + 1] && part[2] == bytes[at + 2]
            && part[3] == bytes[at + 3]);
        lemma_same_words(order, bytes, at, part, 0);
    }
}

proof fn lemma_written_attribute(
    order: ByteOrder,
    kind: u16,
    value: Seq<u8>,
    rest: Seq<u8>,
    body: Seq<u8>,
)
    requires
        4 + value.len() <= 65_535,
        body == kernel_attribute(order, kind, value) + rest,
    ensures
        body.len() >= 4,
        word16(order, body, 0) == 4 + value.len(),
        word16(order, body, 2) == kind,
        body.subrange(4, 4 + value.len() as int) == value,
        aligned(4 + value.len() as int) == kernel_attribute(order, kind, value).len(),
        body.skip(aligned(4 + value.len() as int)) == rest,
{
    let first = kernel_attribute(order, kind, value);
    assert(first.len() == 4 + value.len() + filling(value.len()).len());
    assert(body.subrange(0, 2) =~= word16_bytes(order, (4 + value.len()) as u16));
    assert(body.subrange(2, 4) =~= word16_bytes(order, kind));
    lemma_words_in(order, body, 0, (4 + value.len()) as u16, 0);
    lemma_words_in(order, body, 2, kind, 0);
    assert(body.subrange(4, 4 + value.len() as int) =~= value);
    assert(body.skip(first.len() as int) =~= rest);
}

/// Attributes are read back as they were written, in their order.
pub proof fn attributes_are_read_back(order: ByteOrder, list: Seq<(u16, Seq<u8>)>)
    requires
        forall|i: int| 0 <= i < list.len() ==> 4 + (#[trigger] list[i]).1.len() <= 65_535,
    ensures
        attributes(order, kernel_attributes(order, list)) == Some(list),
    decreases list.len(),
{
    let body = kernel_attributes(order, list);
    if list.len() == 0 {
        reveal_with_fuel(attributes, 2);
        assert(list =~= Seq::empty());
    } else {
        let rest = kernel_attributes(order, list.skip(1));
        let (kind, value) = list[0];
        assert(4 + list[0].1.len() <= 65_535);
        lemma_written_attribute(order, kind, value, rest, body);
        assert forall|i: int| 0 <= i < list.skip(1).len() implies 4 + (
        #[trigger] list.skip(1)[i]).1.len() <= 65_535 by {
            assert(list.skip(1)[i] == list[i + 1]);
        }
        attributes_are_read_back(order, list.skip(1));
        assert(seq![(kind, value)] + list.skip(1) =~= list);
        reveal_with_fuel(attributes, 2);
        if aligned(4 + value.len() as int) > body.len() {
            assert(false);
        }
    }
}

proof fn lemma_part_within(front: Seq<u8>, middle: Seq<u8>, back: Seq<u8>, from: int, to: int)
    requires
        0 <= from <= to <= middle.len(),
    ensures
        (front + middle + back).subrange(front.len() + from, front.len() + to) == middle.subrange(
            from,
            to,
        ),
{
    assert((front + middle + back).subrange(front.len() + from, front.len() + to)
        =~= middle.subrange(from, to));
}

proof fn lemma_message_parts(order: ByteOrder, stamp: Seq<u8>, kind: u16, body: Seq<u8>)
    requires
        stamp.len() == 10,
    ensures
        ({
            let message = kernel_message(order, stamp, kind, body);
            &&& message.len() == aligned(16 + body.len() as int)
            &&& message.subrange(0, 4) == word32_bytes(order, (16 + body.len()) as u32)
            &&& message.subrange(4, 6) == word16_bytes(order, kind)
            &&& message.subrange(16, 16 + body.len() as int) == body
        }),
{
    let message = kernel_message(order, stamp, kind, body);
    assert(message.subrange(0, 4) =~= word32_bytes(order, (16 + body.len()) as u32));
    assert(message.subrange(4, 6) =~= word16_bytes(order, kind));
    assert(message.subrange(16, 16 + body.len() as int) =~= body);
}

proof fn lemma_read_at(
    order: ByteOrder,
    kind: u16,
    body: Seq<u8>,
    front: Seq<u8>,
    message: Seq<u8>,
    back: Seq<u8>,
)
    requires
        16 + body.len() <= 0xffff_ffff,
        message.len() == aligned(16 + body.len() as int),
        message.subrange(0, 4) == word32_bytes(order, (16 + body.len()) as u32),
        message.subrange(4, 6) == word16_bytes(order, kind),
        message.subrange(16, 16 + body.len() as int) == body,
    ensures
        ({
            let bytes = front + message + back;
            let offset = front.len() as int;
            &&& message_at(order, bytes, offset)
            &&& message_kind(order, bytes, offset) == kind
            &&& message_body(order, bytes, offset) == body
            &&& next_message(order, bytes, offset) == offset + message.len()
        }),
{
    let bytes = front + message + back;
    let offset = front.len() as int;
    assert(message.len() >= 16 + body.len());
    lemma_part_within(front, message, back, 0, 4);
    lemma_part_within(front, message, back, 4, 6);
    lemma_part_within(front, message, back, 16, 16 + body.len() as int);
    lemma_words_in(order, bytes, offset, 0, (16 + body.len()) as u32);
    lemma_words_in(order, bytes, offset + 4, kind, 0);
}

/// A message is read back as it was written, wherever it stands, and the next one begins right
/// behind it.
pub proof fn a_message_is_read_back(
    order: ByteOrder,
    stamp: Seq<u8>,
    kind: u16,
    body: Seq<u8>,
    front: Seq<u8>,
    back: Seq<u8>,
)
    requires
        stamp.len() == 10,
        16 + body.len() <= 0xffff_ffff,
    ensures
        ({
            let message = kernel_message(order, stamp, kind, body);
            let bytes = front + message + back;
            let offset = front.len() as int;
            &&& message_at(order, bytes, offset)
            &&& message_kind(order, bytes, offset) == kind
            &&& message_body(order, bytes, offset) == body
            &&& next_message(order, bytes, offset) == offset + message.len()
            &&& kind == 3 <==> place(order, bytes, offset) is End
            &&& kind == 2 <==> place(order, bytes, offset) is Fault
            &&& kind != 2 && kind != 3 <==> place(order, bytes, offset) is Message
        }),
{
    let message = kernel_message(order, stamp, kind, body);
    lemma_message_parts(order, stamp, kind, body);
    lemma_read_at(order, kind, body, front, message, back);
}

/// The numbers of the errors that are told apart; any other error is just one.
pub proof fn an_error_is_told_by_its_number(order: ByteOrder, number: u32, body: Seq<u8>)
    requires
        4 <= body.len(),
        body.take(4) == word32_bytes(order, number),
    ensures
        number == 0 ==> error_reason(order, body)
            == "netlink reply was an unexpected acknowledgement",
        number == 0x1_0000_0000 - 1 ==> error_reason(order, body)
            == "netlink request is not permitted",
        number == 0x1_0000_0000 - 2 ==> error_reason(order, body)
            == "netlink request found no such target",
        number == 0x1_0000_0000 - 22 ==> error_reason(order, body)
            == "netlink request is not supported",
        0 < number < 0x1_0000_0000 - 22 || 0x1_0000_0000 - 22 < number < 0x1_0000_0000 - 2
            ==> error_reason(order, body) == "netlink reply reported an error",
{
    assert(body.subrange(0, 4) =~= body.take(4));
    lemma_words_in(order, body, 0, 0, number);
}

/// A request for everything of a kind says its own length, its kind, that it is a request for all
/// there is, and nothing else: all else is zero. A request for links is 32 bytes long, one for
/// addresses 24, and any other 28.
pub proof fn a_request_asks_for_all_of_its_kind(order: ByteOrder, kind: u16, request: Vec<u8>)
    requires
        call_ensures(netlink_dump_request, (order, kind), request),
    ensures
        request@.len() == (if kind == 18 {
            32int
        } else if kind == 22 {
            24
        } else {
            28
        }),
        word32(order, request@, 0) == request@.len(),
        word16(order, request@, 4) == kind,
        word16(order, request@, 6) == 0x301,
        forall|i: int| 8 <= i < request@.len() ==> #[trigger] request@[i] == 0,
{
    let bytes = request@;
    assert(bytes.subrange(0, 4) =~= word32_bytes(order, bytes.len() as u32));
    assert(bytes.subrange(4, 6) =~= word16_bytes(order, kind));
    assert(bytes.subrange(6, 8) =~= word16_bytes(order, 0x301));
    lemma_words_in(order, bytes, 0, 0, bytes.len() as u32);
    lemma_words_in(order, bytes, 4, kind, 0);
    lemma_words_in(order, bytes, 6, 0x301, 0);
}

/// An interface as the kernel reports it.
pub struct KernelLink {
    pub index: u32,
    pub flags: u32,
    pub name: Seq<u8>,
    pub mtu: u32,
}

/// Whether the name of an interface is a text without a zero byte.
pub open spec fn is_named(link: KernelLink) -> bool {
    &&& 0 < link.name.len() < 65_000
    &&& !link.name.contains(0)
    &&& valid_utf8(link.name)
}

/// The message about an interface: its kind and its type, its index, its flags, what changed, and
/// its name with a zero byte and its largest packet as attributes.
pub open spec fn kernel_link(order: ByteOrder, head: Seq<u8>, link: KernelLink) -> Seq<u8> {
    head + word32_bytes(order, link.index) + word32_bytes(order, link.flags) + head
        + kernel_attributes(
        order,
        seq![(3u16, link.name.push(0)), (4u16, word32_bytes(order, link.mtu))],
    )
}

/// The messages about interfaces.
pub open spec fn kernel_links(order: ByteOrder, head: Seq<u8>, links: Seq<KernelLink>) -> Seq<
    Seq<u8>,
> {
    Seq::new(links.len(), |i: int| kernel_link(order, head, links[i]))
}

/// What is told of an interface: it is up by the lowest bit of its flags, and loops back by the
/// fourth.
pub open spec fn told_link(link: KernelLink) -> LinkModel {
    LinkModel {
        index: link.index,
        name: decode_utf8(link.name),
        up: link.flags % 2 == 1,
        loopback: link.flags / 8 % 2 == 1,
        mtu: Some(link.mtu),
        addresses: Seq::empty(),
    }
}

proof fn lemma_link_read(
    order: ByteOrder,
    head: Seq<u8>,
    link: KernelLink,
    links: Seq<LinkModel>,
)
    requires
        head.len() == 4,
        is_named(link),
    ensures
        with_link(order, links, 16, kernel_link(order, head, link)) == Ok::<_, DomainError>(
            links.push(told_link(link)),
        ),
        16 + kernel_link(order, head, link).len() <= 0xffff_ffff,
{
    let list = seq![(3u16, link.name.push(0)), (4u16, word32_bytes(order, link.mtu))];
    let body = kernel_link(order, head, link);
    assert(list[0].1.len() < 65_531 && list[1].1.len() == 4);
    attributes_are_read_back(order, list);
    assert(body.skip(16) =~= kernel_attributes(order, list));
    assert(body.subrange(4, 8) =~= word32_bytes(order, link.index));
    assert(body.subrange(8, 12) =~= word32_bytes(order, link.flags));
    lemma_words_in(order, body, 4, 0, link.index);
    lemma_words_in(order, body, 8, 0, link.flags);
    words_read_back(order, 0, link.mtu);
    let flags = link.flags;
    assert(flags & 0x1 != 0 <==> flags % 2 == 1) by (bit_vector);
    assert(flags & 0x8 != 0 <==> flags / 8 % 2 == 1) by (bit_vector);
    assert(link.name.push(0).drop_last() =~= link.name);
    let first = list.drop_last();
    assert(first =~= seq![list[0]]);
    assert(first.drop_last() =~= Seq::<(u16, Seq<u8>)>::empty());
    assert(first_name(first.drop_last()) is None);
    assert(first_name(first) == Some(decode_utf8(link.name)));
    assert(first_name(list) == Some(decode_utf8(link.name)));
    assert(first_u32(order, first.drop_last(), 4) is None);
    assert(first_u32(order, first, 4) is None);
    assert(first_u32(order, list, 4) == Some(link.mtu));
    lemma_attributes_length(order, list);
}

proof fn lemma_attributes_length(order: ByteOrder, list: Seq<(u16, Seq<u8>)>)
    requires
        list.len() == 2,
        list[0].1.len() <= 65_531,
        list[1].1.len() <= 65_531,
    ensures
        kernel_attributes(order, list).len() <= 131_076,
{
    reveal_with_fuel(kernel_attributes, 3);
    assert(list.skip(1)[0] == list[1]);
    assert(list.skip(1).skip(1) =~= Seq::<(u16, Seq<u8>)>::empty());
}

proof fn lemma_links_read(
    order: ByteOrder,
    stamp: Seq<u8>,
    head: Seq<u8>,
    list: Seq<KernelLink>,
    front: Seq<u8>,
    links: Seq<LinkModel>,
)
    requires
        stamp.len() == 10,
        head.len() == 4,
        forall|i: int| 0 <= i < list.len() ==> is_named(#[trigger] list[i]),
    ensures
        with_links(
            order,
            links,
            front + kernel_reply(order, stamp, 16, kernel_links(order, head, list)),
            front.len() as int,
        ) == Ok::<_, DomainError>(links + Seq::new(list.len(), |i: int| told_link(list[i]))),
    decreases list.len(),
{
    let bodies = kernel_links(order, head, list);
    let bytes = front + kernel_reply(order, stamp, 16, bodies);
    let told = Seq::new(list.len(), |i: int| told_link(list[i]));
    if list.len() == 0 {
        assert(links + told =~= links);
    } else {
        let rest = list.skip(1);
        let body = kernel_link(order, head, list[0]);
        assert(is_named(list[0]));
        assert(bodies[0] == body);
        assert(bodies.skip(1) =~= kernel_links(order, head, rest));
        let message = kernel_message(order, stamp, 16, body);
        let back = kernel_reply(order, stamp, 16, bodies.skip(1));
        assert(bytes =~= front + message + back);
        lemma_link_read(order, head, list[0], links);
        a_message_is_read_back(order, stamp, 16, body, front, back);
        assert forall|i: int| 0 <= i < rest.len() implies is_named(#[trigger] rest[i]) by {
            assert(rest[i] == list[i + 1]);
        }
        lemma_links_read(order, stamp, head, rest, front + message, links.push(told_link(list[0])));
        assert(front + message + back =~= (front + message) + kernel_reply(
            order,
            stamp,
            16,
            kernel_links(order, head, rest),
        ));
        assert(links.push(told_link(list[0])) + Seq::new(
            rest.len(),
            |i: int| told_link(rest[i]),
        ) =~= links + told);
    }
}

/// The text of four octets, or of sixteen.
pub open spec fn octets_text(octets: Seq<u8>) -> Seq<char> {
    if octets.len() == 4 {
        ipv4_text(octets)
    } else {
        ipv6_text(octets)
    }
}

/// The message about an address: its family, the length of its prefix, two bytes of flags and
/// scope, the index of its interface, and its attributes.
pub open spec fn kernel_interface_address(
    order: ByteOrder,
    family: u8,
    prefix: u8,
    scope: Seq<u8>,
    index: u32,
    list: Seq<(u16, Seq<u8>)>,
) -> Seq<u8> {
    seq![family, prefix] + scope + word32_bytes(order, index) + kernel_attributes(order, list)
}

proof fn lemma_address_read(
    order: ByteOrder,
    links: Seq<LinkModel>,
    at: int,
    family: u8,
    prefix: u8,
    scope: Seq<u8>,
    own: Seq<u8>,
    peer: Seq<u8>,
    list: Seq<(u16, Seq<u8>)>,
)
    requires
        scope.len() == 2,
        own.len() <= 16 && peer.len() <= 16,
        list == seq![(1u16, peer), (2u16, own)] || list == seq![(2u16, own), (1u16, peer)] || list
            == seq![(1u16, own)],
        0 <= at < links.len(),
        forall|j: int| 0 <= j < at ==> (#[trigger] links[j]).index != links[at].index,
        (family == 2 && own.len() == 4) || (family == 10 && own.len() == 16),
    ensures
        ({
            let body = kernel_interface_address(
                order,
                family,
                prefix,
                scope,
                links[at].index,
                list,
            );
            &&& body.len() <= 100
            &&& with_address(order, links, 20, body) == Ok::<_, DomainError>(
                links.update(
                    at,
                    LinkModel {
                        addresses: links[at].addresses.push(
                            (octets_text(own), Some(prefix)),
                        ),
                        ..links[at]
                    },
                ),
            )
        }),
{
    let index = links[at].index;
    let body = kernel_interface_address(order, family, prefix, scope, index, list);
    attributes_are_read_back(order, list);
    assert(body.skip(8) =~= kernel_attributes(order, list));
    assert(body.subrange(4, 8) =~= word32_bytes(order, index));
    lemma_words_in(order, body, 4, 0, index);
    assert(body[0] == family && body[1] == prefix);
    lemma_link_position(links, index, at);
    let none = Seq::<(u16, Seq<u8>)>::empty();
    let first = list.drop_last();
    if list.len() == 2 {
        assert(first =~= seq![list[0]]);
        assert(first.drop_last() =~= none);
        lemma_attributes_length_small(order, list);
    } else {
        assert(first =~= none);
        reveal_with_fuel(kernel_attributes, 2);
        assert(list.skip(1) =~= none);
    }
    reveal_with_fuel(last_value, 3);
    assert(last_value(none, 2) is None && last_value(none, 1) is None);
}

proof fn lemma_attributes_length_small(order: ByteOrder, list: Seq<(u16, Seq<u8>)>)
    requires
        list.len() == 2,
        list[0].1.len() <= 16,
        list[1].1.len() <= 16,
    ensures
        kernel_attributes(order, list).len() <= 48,
{
    reveal_with_fuel(kernel_attributes, 3);
    assert(list.skip(1)[0] == list[1]);
    assert(list.skip(1).skip(1) =~= Seq::<(u16, Seq<u8>)>::empty());
}

pub(crate) proof fn lemma_link_position(links: Seq<LinkModel>, index: u32, at: int)
    requires
        0 <= at < links.len(),
        links[at].index == index,
        forall|j: int| 0 <= j < at ==> (#[trigger] links[j]).index != index,
    ensures
        link_position(links, index) == at,
    decreases at,
{
    if at > 0 {
        assert(links[0].index != index);
        let rest = links.skip(1);
        assert forall|j: int| 0 <= j < at - 1 implies (#[trigger] rest[j]).index != index by {
            assert(rest[j] == links[j + 1]);
        }
        lemma_link_position(rest, index, at - 1);
    }
}

/// The interfaces in a reply are read off as the kernel wrote them, in their order, and an address
/// goes to the first interface with its index, behind those that it has. The own address comes
/// before that of the peer, wherever the two stand.
pub proof fn interfaces_are_read_back(
    order: ByteOrder,
    stamp: Seq<u8>,
    head: Seq<u8>,
    list: Seq<KernelLink>,
    at: int,
    family: u8,
    prefix: u8,
    scope: Seq<u8>,
    own: Seq<u8>,
    peer: Seq<u8>,
    parts: Seq<(u16, Seq<u8>)>,
)
    requires
        stamp.len() == 10,
        head.len() == 4,
        scope.len() == 2,
        forall|i: int| 0 <= i < list.len() ==> is_named(#[trigger] list[i]),
        0 <= at < list.len(),
        forall|j: int| 0 <= j < at ==> (#[trigger] list[j]).index != list[at].index,
        (family == 2 && own.len() == 4) || (family == 10 && own.len() == 16),
        peer.len() <= 16,
        parts == seq![(1u16, peer), (2u16, own)] || parts == seq![(2u16, own), (1u16, peer)]
            || parts == seq![(1u16, own)],
    ensures
        ({
            let link_reply = kernel_reply(order, stamp, 16, kernel_links(order, head, list));
            let address_reply = kernel_message(
                order,
                stamp,
                20,
                kernel_interface_address(order, family, prefix, scope, list[at].index, parts),
            );
            let bare = reported_links(order, link_reply, Seq::empty());
            let full = reported_links(order, link_reply, address_reply);
            &&& bare is Ok && full is Ok
            &&& bare->Ok_0.len() == list.len() && full->Ok_0.len() == list.len()
            &&& forall|i: int|
                0 <= i < list.len() ==> #[trigger] bare->Ok_0[i] == told_link(list[i])
            &&& forall|i: int|
                0 <= i < list.len() && i != at ==> #[trigger] full->Ok_0[i] == told_link(list[i])
            &&& full->Ok_0[at] == (LinkModel {
                addresses: seq![
                    (octets_text(own), Some(prefix)),
                ],
                ..told_link(list[at])
            })
        }),
{
    let none = Seq::<u8>::empty();
    let bodies = kernel_links(order, head, list);
    let reply = kernel_reply(order, stamp, 16, bodies);
    lemma_links_read(order, stamp, head, list, none, Seq::empty());
    assert(none + reply =~= reply);
    let told = Seq::new(list.len(), |i: int| told_link(list[i]));
    assert(Seq::<LinkModel>::empty() + told =~= told);
    assert forall|j: int| 0 <= j < at implies (#[trigger] told[j]).index != told[at].index by {
        assert(list[j].index != list[at].index);
    }
    lemma_address_read(order, told, at, family, prefix, scope, own, peer, parts);
    let body = kernel_interface_address(order, family, prefix, scope, list[at].index, parts);
    let message = kernel_message(order, stamp, 20, body);
    a_message_is_read_back(order, stamp, 20, body, none, none);
    assert(none + message + none =~= message);
    assert(told[at].addresses.push(
        (octets_text(own), Some(prefix)),
    ) =~= seq![
        (octets_text(own), Some(prefix)),
    ]);
    reveal_with_fuel(with_addresses, 2);
}

/// An interface is told as it was read: by its name, its index, whether it is up, its largest packet
/// and its addresses with their prefixes, in their order.
pub proof fn an_interface_is_told_as_it_is(
    links: &[LinkFacts],
    entries: Vec<InterfaceEntry>,
    i: int,
    k: int,
)
    requires
        call_ensures(interface_entries, (links,), entries),
        0 <= i < links@.len(),
        0 <= k < links@[i].addresses@.len(),
    ensures
        entries@.len() == links@.len(),
        entries@[i].name@ == links@[i].name@,
        entries@[i].index == Some(links@[i].index),
        entries@[i].up == Some(links@[i].up),
        entries@[i].mtu == links@[i].mtu,
        entries@[i].addresses@.len() == links@[i].addresses@.len(),
        entries@[i].addresses@[k].address@ == links@[i].addresses@[k].address@,
        entries@[i].addresses@[k].prefix_length == links@[i].addresses@[k].prefix_length,
{
    assert(describes_link(entries@[i], links@[i]@));
    let told = address_models(entries@[i].addresses@);
    let read = address_models(links@[i].addresses@);
    assert(told.len() == entries@[i].addresses@.len() && read.len() == links@[i].addresses@.len());
    assert(told[k] == read[k]);
}

} // verus!
