//! The socket tables of the kernel, which are text with one socket a line.

use crate::contract::results::{SocketEntry, SocketProtocol};
use crate::daemon::network::address::{ipv4_string, ipv4_text, ipv6_string, ipv6_text};
use crate::text::{
    chars_of, decimal, decimal_text_reads_back, digit_value, find_char, next_position,
    optional_text, parse_unsigned, radix_value, same, unsigned_digits,
    unsigned_number,
};
use crate::words::{find_word, nth_word};
use vstd::prelude::*;

verus! {

/// The tables, in the order in which they are read.
pub fn socket_tables() -> (tables: [&'static str; 4])
    ensures
        crate::text::slices(tables@) == seq!["tcp"@, "tcp6"@, "udp"@, "udp6"@],
{
    let tables = ["tcp", "tcp6", "udp", "udp6"];
    assert(crate::text::slices(tables@) =~= seq!["tcp"@, "tcp6"@, "udp"@, "udp6"@]);
    tables
}

/// The protocol of the sockets in a table.
pub open spec fn table_protocol(table: Seq<char>) -> SocketProtocol {
    if table == "tcp"@ || table == "tcp6"@ {
        SocketProtocol::Tcp
    } else if table == "udp"@ || table == "udp6"@ {
        SocketProtocol::Udp
    } else {
        SocketProtocol::Other
    }
}

pub fn socket_protocol_for_table(table: &str) -> (protocol: SocketProtocol)
    ensures
        protocol == table_protocol(table@),
{
    if same(table, "tcp") || same(table, "tcp6") {
        SocketProtocol::Tcp
    } else if same(table, "udp") || same(table, "udp6") {
        SocketProtocol::Udp
    } else {
        SocketProtocol::Other
    }
}

/// The name of a state, if it has one.
pub open spec fn state_name(state: nat) -> Option<&'static str> {
    if state == 1 {
        Some("ESTABLISHED")
    } else if state == 2 {
        Some("SYN_SENT")
    } else if state == 3 {
        Some("SYN_RECV")
    } else if state == 4 {
        Some("FIN_WAIT1")
    } else if state == 5 {
        Some("FIN_WAIT2")
    } else if state == 6 {
        Some("TIME_WAIT")
    } else if state == 7 {
        Some("CLOSE")
    } else if state == 8 {
        Some("CLOSE_WAIT")
    } else if state == 9 {
        Some("LAST_ACK")
    } else if state == 10 {
        Some("LISTEN")
    } else if state == 11 {
        Some("CLOSING")
    } else if state == 12 {
        Some("NEW_SYN_RECV")
    } else {
        None
    }
}

fn socket_state_name(state: u64) -> (name: Option<&'static str>)
    ensures
        name == state_name(state as nat),
{
    if state == 1 {
        Some("ESTABLISHED")
    } else if state == 2 {
        Some("SYN_SENT")
    } else if state == 3 {
        Some("SYN_RECV")
    } else if state == 4 {
        Some("FIN_WAIT1")
    } else if state == 5 {
        Some("FIN_WAIT2")
    } else if state == 6 {
        Some("TIME_WAIT")
    } else if state == 7 {
        Some("CLOSE")
    } else if state == 8 {
        Some("CLOSE_WAIT")
    } else if state == 9 {
        Some("LAST_ACK")
    } else if state == 10 {
        Some("LISTEN")
    } else if state == 11 {
        Some("CLOSING")
    } else if state == 12 {
        Some("NEW_SYN_RECV")
    } else {
        None
    }
}

/// The four octets of a number, the least significant one first.
pub open spec fn number_octets(number: nat) -> Seq<u8> {
    seq![
        (number % 256) as u8,
        (number / 256 % 256) as u8,
        (number / 65_536 % 256) as u8,
        (number / 16_777_216 % 256) as u8,
    ]
}

/// The octets that eight hexadecimal digits at `at` stand for.
pub open spec fn word_octets(digits: Seq<char>, at: int) -> Option<Seq<u8>> {
    match unsigned_number(digits.subrange(at, at + 8), 16, u32::MAX as nat) {
        Some(number) => Some(number_octets(number)),
        None => None,
    }
}

/// The address that a field of digits stands for: one word of eight digits, or four of them.
pub open spec fn field_address(digits: Seq<char>) -> Option<Seq<char>> {
    if digits.len() == 8 {
        match word_octets(digits, 0) {
            Some(octets) => Some(ipv4_text(octets)),
            None => None,
        }
    } else if digits.len() == 32 {
        match (
            word_octets(digits, 0),
            word_octets(digits, 8),
            word_octets(digits, 16),
            word_octets(digits, 24),
        ) {
            (Some(a), Some(b), Some(c), Some(d)) => Some(ipv6_text(a + b + c + d)),
            _ => None,
        }
    } else {
        None
    }
}

/// The address and the port of a field.
pub open spec fn field_endpoint(field: Seq<char>) -> Option<(Seq<char>, nat)> {
    let at = next_position(field, ':', 0);
    if at >= field.len() {
        None
    } else {
        match (field_address(field.take(at)), unsigned_number(field.skip(at + 1), 16, 65_535)) {
            (Some(address), Some(port)) => Some((address, port)),
            _ => None,
        }
    }
}

fn push_word(octets: &mut Vec<u8>, digits: &[char], at: usize) -> (read: bool)
    requires
        at <= 24,
        at + 8 <= digits@.len(),
    ensures
        match word_octets(digits@, at as int) {
            Some(word) => read && final(octets)@ == old(octets)@ + word,
            None => !read,
        },
{
    let ghost before = octets@;
    match parse_unsigned(vstd::slice::slice_subrange(digits, at, at + 8), 16, u32::MAX as u64) {
        Some(number) => {
            octets.push((number % 256) as u8);
            octets.push((number / 256 % 256) as u8);
            octets.push((number / 65_536 % 256) as u8);
            octets.push((number / 16_777_216 % 256) as u8);
            assert(octets@ =~= before + number_octets(number as nat));
            true
        },
        None => false,
    }
}

fn read_field_address(digits: &[char]) -> (address: Option<String>)
    ensures
        optional_text(address) == field_address(digits@),
{
    let mut octets: Vec<u8> = Vec::new();
    if digits.len() == 8 {
        if !push_word(&mut octets, digits, 0) {
            return None;
        }
        assert(octets@ =~= word_octets(digits@, 0)->0);
        Some(ipv4_string(octets.as_slice()))
    } else if digits.len() == 32 {
        if !push_word(&mut octets, digits, 0) || !push_word(&mut octets, digits, 8) || !push_word(
            &mut octets,
            digits,
            16,
        ) || !push_word(&mut octets, digits, 24) {
            return None;
        }
        assert(octets@ =~= word_octets(digits@, 0)->0 + word_octets(digits@, 8)->0 + word_octets(
            digits@,
            16,
        )->0 + word_octets(digits@, 24)->0);
        Some(ipv6_string(octets.as_slice()))
    } else {
        None
    }
}

fn proc_address(field: &[char]) -> (endpoint: Option<(String, u16)>)
    ensures
        match endpoint {
            Some((address, port)) => field_endpoint(field@) == Some((address@, port as nat)),
            None => field_endpoint(field@) is None,
        },
{
    let at: usize = find_char(field, ':');
    if at >= field.len() {
        return None;
    }
    let digits = vstd::slice::slice_subrange(field, 0, at);
    let tail = vstd::slice::slice_subrange(field, at + 1, field.len());
    assert(digits@ =~= field@.take(at as int));
    assert(tail@ =~= field@.skip(at + 1));
    let port = parse_unsigned(tail, 16, 65_535);
    match (read_field_address(digits), port) {
        (Some(address), Some(port)) => Some((address, port as u16)),
        _ => None,
    }
}

/// What a socket is.
pub struct SocketModel {
    pub protocol: SocketProtocol,
    pub local_address: Seq<char>,
    pub local_port: Option<u16>,
    pub remote_address: Option<Seq<char>>,
    pub remote_port: Option<u16>,
    pub state: Option<Seq<char>>,
    pub uid: Option<u32>,
}

impl View for SocketEntry {
    type V = SocketModel;

    open spec fn view(&self) -> SocketModel {
        SocketModel {
            protocol: self.protocol,
            local_address: self.local_address@,
            local_port: self.local_port,
            remote_address: optional_text(self.remote_address),
            remote_port: self.remote_port,
            state: optional_text(self.state),
            uid: self.uid,
        }
    }
}

/// What sockets are.
pub open spec fn socket_models(entries: Seq<SocketEntry>) -> Seq<SocketModel> {
    Seq::new(entries.len(), |i: int| entries[i]@)
}

/// The peer of a socket. The blank address and port zero mean that there is none.
pub open spec fn peer_of(endpoint: Option<(Seq<char>, nat)>) -> Option<(Seq<char>, nat)> {
    match endpoint {
        Some((address, port)) => if port == 0 && (address == "0.0.0.0"@ || address == "::"@) {
            None
        } else {
            endpoint
        },
        None => None,
    }
}

/// The socket that a line reports, if it reports one: it has eight words and a local address.
pub open spec fn socket_of(protocol: SocketProtocol, line: Seq<char>) -> Option<SocketModel> {
    if nth_word(line, 0, 7) is None {
        None
    } else {
        match field_endpoint(nth_word(line, 0, 1)->0) {
            None => None,
            Some((address, port)) => {
                let peer = peer_of(field_endpoint(nth_word(line, 0, 2)->0));
                Some(
                    SocketModel {
                        protocol,
                        local_address: address,
                        local_port: Some(port as u16),
                        remote_address: match peer {
                            Some((address, _)) => Some(address),
                            None => None,
                        },
                        remote_port: match peer {
                            Some((_, port)) => Some(port as u16),
                            None => None,
                        },
                        state: match unsigned_number(nth_word(line, 0, 3)->0, 16, 255) {
                            Some(state) => match state_name(state) {
                                Some(name) => Some(name@),
                                None => None,
                            },
                            None => None,
                        },
                        uid: match unsigned_number(nth_word(line, 0, 7)->0, 10, u32::MAX as nat) {
                            Some(uid) => Some(uid as u32),
                            None => None,
                        },
                    },
                )
            },
        }
    }
}

proof fn lemma_earlier_words(line: Seq<char>, from: int, n: nat, m: nat)
    requires
        nth_word(line, from, n) is Some,
        m <= n,
    ensures
        nth_word(line, from, m) is Some,
    decreases m,
{
    if m > 0 {
        let start = crate::words::next_space(line, from, false);
        let end = crate::words::next_space(line, start, true);
        lemma_earlier_words(line, end, (n - 1) as nat, (m - 1) as nat);
    }
}

fn word<'a>(line: &'a [char], n: usize) -> (found: &'a [char])
    requires
        nth_word(line@, 0, n as nat) is Some,
    ensures
        nth_word(line@, 0, n as nat) == Some(found@),
{
    match find_word(line, 0, n) {
        Some((start, end)) => vstd::slice::slice_subrange(line, start, end),
        None => line,
    }
}

fn socket_entry(protocol: SocketProtocol, line: &[char]) -> (entry: Option<SocketEntry>)
    ensures
        match entry {
            Some(entry) => socket_of(protocol, line@) == Some(entry@),
            None => socket_of(protocol, line@) is None,
        },
{
    if find_word(line, 0, 7).is_none() {
        return None;
    }
    proof {
        lemma_earlier_words(line@, 0, 7, 1);
        lemma_earlier_words(line@, 0, 7, 2);
        lemma_earlier_words(line@, 0, 7, 3);
    }
    let (local_address, local_port) = match proc_address(word(line, 1)) {
        Some(endpoint) => endpoint,
        None => {
            return None;
        },
    };
    let remote = match proc_address(word(line, 2)) {
        Some((address, port)) => {
            if port == 0 && (same(address.as_str(), "0.0.0.0") || same(address.as_str(), "::")) {
                None
            } else {
                Some((address, port))
            }
        },
        None => None,
    };
    let state = match parse_unsigned(word(line, 3), 16, 255) {
        Some(state) => match socket_state_name(state) {
            Some(name) => Some(name.to_owned()),
            None => None,
        },
        None => None,
    };
    let uid = match parse_unsigned(word(line, 7), 10, u32::MAX as u64) {
        Some(uid) => Some(uid as u32),
        None => None,
    };
    let (remote_address, remote_port) = match remote {
        Some((address, port)) => (Some(address), Some(port)),
        None => (None, None),
    };
    Some(
        SocketEntry {
            protocol,
            local_address,
            local_port: Some(local_port),
            remote_address,
            remote_port,
            state,
            uid,
        },
    )
}

/// The sockets in a table from position `from` on, a line at a time.
pub open spec fn sockets_in(protocol: SocketProtocol, text: Seq<char>, from: int) -> Seq<
    SocketModel,
>
    decreases text.len() - from,
{
    let end = next_position(text, '\n', from);
    if from < 0 || from >= text.len() {
        Seq::empty()
    } else {
        let first = match socket_of(protocol, text.subrange(from, end)) {
            Some(socket) => seq![socket],
            None => Seq::empty(),
        };
        first + if from <= end < text.len() {
            sockets_in(protocol, text, end + 1)
        } else {
            Seq::empty()
        }
    }
}

fn line_end(chars: &[char], from: usize) -> (end: usize)
    requires
        from <= chars@.len(),
    ensures
        end == next_position(chars@, '\n', from as int),
        from <= end <= chars@.len(),
{
    let mut end: usize = from;
    while end < chars.len() && chars[end] != '\n'
        invariant
            from <= end <= chars@.len(),
            next_position(chars@, '\n', from as int) == next_position(chars@, '\n', end as int),
        decreases chars@.len() - end,
    {
        end += 1;
    }
    end
}

/// The sockets in a table. A line that reports none is left out.
pub fn parse_sockets(table: &str, text: &str) -> (entries: Vec<SocketEntry>)
    ensures
        socket_models(entries@) == sockets_in(table_protocol(table@), text@, 0),
{
    let protocol = socket_protocol_for_table(table);
    let chars = chars_of(text);
    let mut entries: Vec<SocketEntry> = Vec::new();
    let mut from: usize = 0;
    assert(socket_models(entries@) =~= Seq::empty());
    assert(Seq::<SocketModel>::empty() + sockets_in(protocol, text@, 0) =~= sockets_in(
        protocol,
        text@,
        0,
    ));
    while from < chars.len()
        invariant
            from <= chars@.len(),
            chars@ == text@,
            sockets_in(protocol, text@, 0) == socket_models(entries@) + sockets_in(
                protocol,
                text@,
                from as int,
            ),
        decreases chars@.len() - from,
    {
        let end: usize = line_end(chars.as_slice(), from);
        let ghost before = entries@;
        let ghost found = socket_of(protocol, text@.subrange(from as int, end as int));
        let ghost first = match found {
            Some(socket) => seq![socket],
            None => Seq::empty(),
        };
        match socket_entry(protocol, vstd::slice::slice_subrange(chars.as_slice(), from, end)) {
            Some(entry) => {
                entries.push(entry);
                assert(socket_models(entries@) =~= socket_models(before) + first);
            },
            None => {
                assert(socket_models(entries@) =~= socket_models(before) + first);
            },
        }
        let ghost rest = sockets_in(protocol, text@, from as int);
        if end < chars.len() {
            proof {
                let later = sockets_in(protocol, text@, end + 1);
                assert(rest == first + later);
                assert(socket_models(before) + (first + later) =~= (socket_models(before) + first)
                    + later);
            }
            from = end + 1;
        } else {
            proof {
                let later = sockets_in(protocol, text@, chars@.len() as int);
                assert(rest == first + Seq::<SocketModel>::empty());
                assert(later =~= Seq::<SocketModel>::empty());
                assert(socket_models(before) + (first + Seq::<SocketModel>::empty()) =~= (
                socket_models(before) + first) + later);
            }
            from = chars.len();
        }
    }
    assert(sockets_in(protocol, text@, from as int) =~= Seq::<SocketModel>::empty());
    assert(socket_models(entries@) + Seq::<SocketModel>::empty() =~= socket_models(entries@));
    entries
}

// ---------------------------------------------------------------------------------------
// What the kernel writes is what is read.
// ---------------------------------------------------------------------------------------

/// The digit that the kernel writes for a value below sixteen.
pub open spec fn kernel_digit(value: int) -> char {
    if value < 10 {
        ('0' as int + value) as char
    } else {
        ('A' as int + value - 10) as char
    }
}

/// Four octets of an address as the kernel writes them: the number that they are, the least
/// significant one first, in eight hexadecimal digits.
pub open spec fn kernel_word(octets: Seq<u8>) -> Seq<char> {
    seq![
        kernel_digit(octets[3] as int / 16),
        kernel_digit(octets[3] as int % 16),
        kernel_digit(octets[2] as int / 16),
        kernel_digit(octets[2] as int % 16),
        kernel_digit(octets[1] as int / 16),
        kernel_digit(octets[1] as int % 16),
        kernel_digit(octets[0] as int / 16),
        kernel_digit(octets[0] as int % 16),
    ]
}

/// An address as the kernel writes it: its words, one after the other.
pub open spec fn kernel_address(octets: Seq<u8>) -> Seq<char>
    decreases octets.len(),
{
    if octets.len() < 4 {
        Seq::empty()
    } else {
        kernel_word(octets.take(4)) + kernel_address(octets.skip(4))
    }
}

/// A port as the kernel writes it.
pub open spec fn kernel_port(port: u16) -> Seq<char> {
    seq![
        kernel_digit(port as int / 4096),
        kernel_digit(port as int / 256 % 16),
        kernel_digit(port as int / 16 % 16),
        kernel_digit(port as int % 16),
    ]
}

/// An address and a port as the kernel writes them.
pub open spec fn kernel_endpoint(octets: Seq<u8>, port: u16) -> Seq<char> {
    kernel_address(octets) + seq![':'] + kernel_port(port)
}

proof fn lemma_next_digit(digits: Seq<char>, k: int)
    requires
        0 <= k < digits.len(),
    ensures
        radix_value(digits.take(k + 1), 16) == radix_value(digits.take(k), 16) * 16 + digit_value(
            digits[k],
        ),
{
    assert(digits.take(k + 1).drop_last() =~= digits.take(k));
    assert(digits.take(k + 1).last() == digits[k]);
}

proof fn lemma_word_number(digits: Seq<char>)
    requires
        digits.len() == 8,
    ensures
        radix_value(digits, 16) == digit_value(digits[0]) * 0x1000_0000 + digit_value(digits[1])
            * 0x100_0000 + digit_value(digits[2]) * 0x10_0000 + digit_value(digits[3]) * 0x1_0000
            + digit_value(digits[4]) * 0x1000 + digit_value(digits[5]) * 0x100 + digit_value(
            digits[6],
        ) * 0x10 + digit_value(digits[7]),
{
    assert(radix_value(digits.take(0), 16) == 0);
    lemma_next_digit(digits, 0);
    lemma_next_digit(digits, 1);
    lemma_next_digit(digits, 2);
    lemma_next_digit(digits, 3);
    lemma_next_digit(digits, 4);
    lemma_next_digit(digits, 5);
    lemma_next_digit(digits, 6);
    lemma_next_digit(digits, 7);
    assert(digits.take(8) =~= digits);
}

proof fn lemma_kernel_digit(value: int)
    requires
        0 <= value < 16,
    ensures
        digit_value(kernel_digit(value)) == value,
        kernel_digit(value) != '+',
        kernel_digit(value) != ':',
{
}

proof fn lemma_octet_digits(octet: u8)
    ensures
        digit_value(kernel_digit(octet as int / 16)) * 16 + digit_value(
            kernel_digit(octet as int % 16),
        ) == octet,
        digit_value(kernel_digit(octet as int / 16)) < 16,
        digit_value(kernel_digit(octet as int % 16)) < 16,
        kernel_digit(octet as int / 16) != '+',
{
    lemma_kernel_digit(octet as int / 16);
    lemma_kernel_digit(octet as int % 16);
}

proof fn lemma_octets_of_number(a: u8, b: u8, c: u8, d: u8, number: nat)
    requires
        number == d * 0x100_0000 + c * 0x1_0000 + b * 0x100 + a,
    ensures
        number_octets(number) =~= seq![a, b, c, d],
        number <= u32::MAX,
{
    assert(number % 256 == a);
    assert(number / 256 == d * 0x1_0000 + c * 0x100 + b);
    assert(number / 65_536 == d * 0x100 + c);
    assert(number / 16_777_216 == d);
}

proof fn lemma_kernel_word(octets: Seq<u8>, digits: Seq<char>, at: int)
    requires
        octets.len() == 4,
        0 <= at,
        at + 8 <= digits.len(),
        digits.subrange(at, at + 8) == kernel_word(octets),
    ensures
        word_octets(digits, at) == Some(octets),
{
    let word = kernel_word(octets);
    lemma_octet_digits(octets[0]);
    lemma_octet_digits(octets[1]);
    lemma_octet_digits(octets[2]);
    lemma_octet_digits(octets[3]);
    lemma_word_number(word);
    let number = radix_value(word, 16);
    lemma_octets_of_number(octets[0], octets[1], octets[2], octets[3], number);
    assert(seq![octets[0], octets[1], octets[2], octets[3]] =~= octets);
    assert(unsigned_digits(word) == word);
    assert(unsigned_number(word, 16, u32::MAX as nat) == Some(number)) by {
        assert forall|i: int| 0 <= i < word.len() implies digit_value(#[trigger] word[i]) < 16 by {
            assert(i == 0 || i == 1 || i == 2 || i == 3 || i == 4 || i == 5 || i == 6 || i == 7);
        }
    }
}

/// The address of a socket is the one that the kernel wrote: any four or sixteen octets, written as
/// the kernel writes them, are read as exactly those octets in exactly that order.
pub proof fn the_address_of_a_socket_is_read_back(octets: Seq<u8>)
    ensures
        octets.len() == 4 ==> field_address(kernel_address(octets)) == Some(ipv4_text(octets)),
        octets.len() == 16 ==> field_address(kernel_address(octets)) == Some(ipv6_text(octets)),
{
    reveal_with_fuel(kernel_address, 5);
    let digits = kernel_address(octets);
    if octets.len() == 4 {
        assert(octets.take(4) =~= octets);
        assert(digits =~= kernel_word(octets));
        assert(digits.subrange(0, 8) =~= digits);
        lemma_kernel_word(octets, digits, 0);
    }
    if octets.len() == 16 {
        let a = octets.take(4);
        let b = octets.subrange(4, 8);
        let c = octets.subrange(8, 12);
        let d = octets.subrange(12, 16);
        assert(octets.skip(4).take(4) =~= b);
        assert(octets.skip(4).skip(4).take(4) =~= c);
        assert(octets.skip(4).skip(4).skip(4).take(4) =~= d);
        assert(octets.skip(4).skip(4).skip(4).skip(4).len() == 0);
        assert(digits =~= kernel_word(a) + kernel_word(b) + kernel_word(c) + kernel_word(d));
        assert(digits.subrange(0, 8) =~= kernel_word(a));
        assert(digits.subrange(8, 16) =~= kernel_word(b));
        assert(digits.subrange(16, 24) =~= kernel_word(c));
        assert(digits.subrange(24, 32) =~= kernel_word(d));
        lemma_kernel_word(a, digits, 0);
        lemma_kernel_word(b, digits, 8);
        lemma_kernel_word(c, digits, 16);
        lemma_kernel_word(d, digits, 24);
        assert(a + b + c + d =~= octets);
    }
}

proof fn lemma_kernel_address_has_no_colon(octets: Seq<u8>)
    ensures
        !kernel_address(octets).contains(':'),
    decreases octets.len(),
{
    if octets.len() >= 4 {
        lemma_kernel_address_has_no_colon(octets.skip(4));
        let word = kernel_word(octets.take(4));
        let rest = kernel_address(octets.skip(4));
        assert forall|i: int| 0 <= i < 8 implies #[trigger] word[i] != ':' by {
            lemma_kernel_digit(octets.take(4)[3 - i / 2] as int / 16);
            lemma_kernel_digit(octets.take(4)[3 - i / 2] as int % 16);
        }
        let whole = kernel_address(octets);
        assert forall|i: int| 0 <= i < whole.len() implies whole[i] != ':' by {
            if i >= 8 {
                assert(whole[i] == rest[i - 8]);
                assert(rest.contains(rest[i - 8]));
            }
        }
    }
}

proof fn lemma_colon(text: Seq<char>, from: int, at: int)
    requires
        0 <= from <= at < text.len(),
        text[at] == ':',
        forall|i: int| from <= i < at ==> text[i] != ':',
    ensures
        next_position(text, ':', from) == at,
    decreases at - from,
{
    if from < at {
        lemma_colon(text, from + 1, at);
    }
}

/// So are an address and a port together.
pub proof fn the_endpoint_of_a_socket_is_read_back(octets: Seq<u8>, port: u16)
    ensures
        octets.len() == 4 ==> field_endpoint(kernel_endpoint(octets, port)) == Some(
            (ipv4_text(octets), port as nat),
        ),
        octets.len() == 16 ==> field_endpoint(kernel_endpoint(octets, port)) == Some(
            (ipv6_text(octets), port as nat),
        ),
{
    let address = kernel_address(octets);
    let digits = kernel_port(port);
    let field = kernel_endpoint(octets, port);
    lemma_kernel_address_has_no_colon(octets);
    assert forall|i: int| 0 <= i < address.len() implies field[i] != ':' by {
        assert(address.contains(address[i]));
    }
    lemma_colon(field, 0, address.len() as int);
    assert(field.take(address.len() as int) =~= address);
    assert(field.skip(address.len() as int + 1) =~= digits);
    the_address_of_a_socket_is_read_back(octets);
    lemma_kernel_port(port);
}

proof fn lemma_kernel_port(port: u16)
    ensures
        unsigned_number(kernel_port(port), 16, 65_535) == Some(port as nat),
{
    let digits = kernel_port(port);
    lemma_kernel_digit(port as int / 4096);
    lemma_kernel_digit(port as int / 256 % 16);
    lemma_kernel_digit(port as int / 16 % 16);
    lemma_kernel_digit(port as int % 16);
    assert(radix_value(digits.take(0), 16) == 0);
    lemma_next_digit(digits, 0);
    lemma_next_digit(digits, 1);
    lemma_next_digit(digits, 2);
    lemma_next_digit(digits, 3);
    assert(digits.take(4) =~= digits);
    assert(unsigned_digits(digits) == digits);
    assert forall|i: int| 0 <= i < digits.len() implies digit_value(#[trigger] digits[i]) < 16 by {
        assert(i == 0 || i == 1 || i == 2 || i == 3);
    }
}

/// What a line of a table says is what is told of the socket: its second word is the local
/// endpoint, its third the peer, its fourth the state and its eighth the user. A peer that is all
/// zeros is none.
pub proof fn a_socket_is_what_its_line_says(
    protocol: SocketProtocol,
    line: Seq<char>,
    local: Seq<u8>,
    local_port: u16,
    remote: Seq<u8>,
    remote_port: u16,
    state: int,
    uid: u32,
)
    requires
        local.len() == 16,
        remote.len() == 16,
        0 <= state < 256,
        nth_word(line, 0, 7) == Some(decimal(uid as nat)),
        nth_word(line, 0, 1) == Some(kernel_endpoint(local, local_port)),
        nth_word(line, 0, 2) == Some(kernel_endpoint(remote, remote_port)),
        nth_word(line, 0, 3) == Some(seq![kernel_digit(state / 16), kernel_digit(state % 16)]),
    ensures
        socket_of(protocol, line) is Some,
        ({
            let socket = socket_of(protocol, line)->0;
            &&& socket.protocol == protocol
            &&& socket.local_address == ipv6_text(local)
            &&& socket.local_port == Some(local_port)
            &&& remote_port != 0 ==> socket.remote_address == Some(ipv6_text(remote))
                && socket.remote_port == Some(remote_port)
            &&& remote_port == 0 && ipv6_text(remote) == "::"@ ==> socket.remote_address is None
                && socket.remote_port is None
            &&& socket.uid == Some(uid)
            &&& state == 1 ==> socket.state == Some("ESTABLISHED"@)
            &&& state == 2 ==> socket.state == Some("SYN_SENT"@)
            &&& state == 3 ==> socket.state == Some("SYN_RECV"@)
            &&& state == 4 ==> socket.state == Some("FIN_WAIT1"@)
            &&& state == 5 ==> socket.state == Some("FIN_WAIT2"@)
            &&& state == 6 ==> socket.state == Some("TIME_WAIT"@)
            &&& state == 7 ==> socket.state == Some("CLOSE"@)
            &&& state == 8 ==> socket.state == Some("CLOSE_WAIT"@)
            &&& state == 9 ==> socket.state == Some("LAST_ACK"@)
            &&& state == 10 ==> socket.state == Some("LISTEN"@)
            &&& state == 11 ==> socket.state == Some("CLOSING"@)
            &&& state == 12 ==> socket.state == Some("NEW_SYN_RECV"@)
            &&& !(1 <= state <= 12) ==> socket.state is None
        }),
{
    the_endpoint_of_a_socket_is_read_back(local, local_port);
    the_endpoint_of_a_socket_is_read_back(remote, remote_port);
    decimal_text_reads_back(uid as nat, u32::MAX as nat);
    let digits = seq![kernel_digit(state / 16), kernel_digit(state % 16)];
    lemma_kernel_digit(state / 16);
    lemma_kernel_digit(state % 16);
    assert(radix_value(digits.take(0), 16) == 0);
    lemma_next_digit(digits, 0);
    lemma_next_digit(digits, 1);
    assert(digits.take(2) =~= digits);
}

/// The tables of the two protocols are told apart, whichever kind of address they hold.
pub proof fn a_table_tells_its_protocol(table: &str, protocol: SocketProtocol)
    requires
        call_ensures(socket_protocol_for_table, (table,), protocol),
    ensures
        protocol is Tcp <==> table@ == "tcp"@ || table@ == "tcp6"@,
        protocol is Udp <==> table@ == "udp"@ || table@ == "udp6"@,
{
    reveal_strlit("tcp");
    reveal_strlit("tcp6");
    reveal_strlit("udp");
    reveal_strlit("udp6");
    assert("tcp"@[0] != "udp"@[0]);
    assert("tcp6"@[0] != "udp6"@[0]);
}

/// The socket of one line, if it has one.
spec fn of_line(protocol: SocketProtocol, line: Seq<char>) -> Seq<SocketModel> {
    match socket_of(protocol, line) {
        Some(socket) => seq![socket],
        None => Seq::empty(),
    }
}

proof fn lemma_first_line(protocol: SocketProtocol, text: Seq<char>, from: int, end: int)
    requires
        0 <= from <= end <= text.len(),
        from < text.len(),
        end == next_position(text, '\n', from),
    ensures
        end < text.len() ==> sockets_in(protocol, text, from) == of_line(
            protocol,
            text.subrange(from, end),
        ) + sockets_in(protocol, text, end + 1),
        end == text.len() ==> sockets_in(protocol, text, from) == of_line(
            protocol,
            text.subrange(from, end),
        ),
{
    let line = of_line(protocol, text.subrange(from, end));
    assert(line + Seq::<SocketModel>::empty() =~= line);
}

proof fn lemma_lines_in_order(protocol: SocketProtocol, text: Seq<char>, rest: Seq<char>, from: int)
    requires
        0 <= from <= text.len(),
    ensures
        sockets_in(protocol, text + seq!['\n'] + rest, from) == sockets_in(protocol, text, from)
            + sockets_in(protocol, rest, 0),
    decreases text.len() - from,
{
    let whole = text + seq!['\n'] + rest;
    let end = next_position(text, '\n', from);
    lemma_line_in_front(text, rest, from);
    lemma_first_line(protocol, whole, from, end);
    assert(whole.subrange(from, end) =~= text.subrange(from, end));
    let line = of_line(protocol, text.subrange(from, end));
    let below = sockets_in(protocol, rest, 0);
    if end < text.len() {
        lemma_first_line(protocol, text, from, end);
        lemma_lines_in_order(protocol, text, rest, end + 1);
        let middle = sockets_in(protocol, text, end + 1);
        assert(line + (middle + below) =~= (line + middle) + below);
    } else {
        lemma_table_behind(protocol, text, rest, 0);
        if from < text.len() {
            lemma_first_line(protocol, text, from, end);
        } else {
            lemma_no_socket(protocol, text.subrange(from, end));
            assert(sockets_in(protocol, text, from) =~= line);
        }
    }
}

proof fn lemma_no_socket(protocol: SocketProtocol, line: Seq<char>)
    requires
        line.len() == 0,
    ensures
        socket_of(protocol, line) is None,
{
    reveal_with_fuel(nth_word, 2);
}

proof fn lemma_line_in_front(text: Seq<char>, rest: Seq<char>, from: int)
    requires
        0 <= from <= text.len(),
    ensures
        next_position(text + seq!['\n'] + rest, '\n', from) == next_position(text, '\n', from),
        from <= next_position(text, '\n', from) <= text.len(),
    decreases text.len() - from,
{
    let whole = text + seq!['\n'] + rest;
    if from < text.len() {
        assert(whole[from] == text[from]);
        if text[from] != '\n' {
            lemma_line_in_front(text, rest, from + 1);
        }
    } else {
        assert(whole[from] == '\n');
    }
}

proof fn lemma_position_behind(text: Seq<char>, rest: Seq<char>, from: int)
    requires
        0 <= from <= rest.len(),
    ensures
        next_position(text + seq!['\n'] + rest, '\n', text.len() + 1 + from) == text.len() + 1
            + next_position(rest, '\n', from),
        from <= next_position(rest, '\n', from) <= rest.len(),
    decreases rest.len() - from,
{
    let whole = text + seq!['\n'] + rest;
    if from < rest.len() {
        assert(whole[text.len() + 1 + from] == rest[from]);
        if rest[from] != '\n' {
            lemma_position_behind(text, rest, from + 1);
        }
    }
}

proof fn lemma_table_behind(protocol: SocketProtocol, text: Seq<char>, rest: Seq<char>, from: int)
    requires
        0 <= from <= rest.len(),
    ensures
        sockets_in(protocol, text + seq!['\n'] + rest, text.len() + 1 + from) == sockets_in(
            protocol,
            rest,
            from,
        ),
    decreases rest.len() - from,
{
    let whole = text + seq!['\n'] + rest;
    lemma_position_behind(text, rest, from);
    let end = next_position(rest, '\n', from);
    if from < rest.len() {
        assert(whole.subrange(text.len() + 1 + from, text.len() + 1 + end) =~= rest.subrange(
            from,
            end,
        ));
        if end < rest.len() {
            lemma_table_behind(protocol, text, rest, end + 1);
        }
    }
}

/// The sockets of a table are the sockets of its lines, in the order of the lines: those of one
/// part of a table come before those of the part below it.
pub proof fn sockets_keep_the_order_of_their_lines(
    protocol: SocketProtocol,
    text: Seq<char>,
    rest: Seq<char>,
)
    ensures
        sockets_in(protocol, text + seq!['\n'] + rest, 0) == sockets_in(protocol, text, 0)
            + sockets_in(protocol, rest, 0),
        !text.contains('\n') && text.len() > 0 ==> sockets_in(protocol, text, 0) == (match socket_of(
            protocol,
            text,
        ) {
            Some(socket) => seq![socket],
            None => Seq::empty(),
        }),
{
    lemma_lines_in_order(protocol, text, rest, 0);
    if !text.contains('\n') && text.len() > 0 {
        lemma_no_newline(text, 0);
        assert(text.subrange(0, text.len() as int) =~= text);
        assert(sockets_in(protocol, text, 0) =~= (match socket_of(protocol, text) {
            Some(socket) => seq![socket],
            None => Seq::empty(),
        }));
    }
}

proof fn lemma_no_newline(text: Seq<char>, from: int)
    requires
        0 <= from <= text.len(),
        !text.contains('\n'),
    ensures
        next_position(text, '\n', from) == text.len(),
    decreases text.len() - from,
{
    if from < text.len() {
        assert(text.contains(text[from]));
        lemma_no_newline(text, from + 1);
    }
}

} // verus!
