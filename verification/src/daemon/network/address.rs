//! Internet addresses and how they are written.

use crate::text::{
    decimal, decimal_text, decimal_text_reads_back, digit_value, hex_char, hex_digit, is_lower_hex,
    radix_value, unsigned_number,
};
use vstd::prelude::*;

verus! {

pub const AF_INET: u8 = 2;

pub const AF_INET6: u8 = 10;

/// An internet address.
#[derive(Clone, Copy, Debug, PartialEq, Eq)]
pub enum Address {
    V4([u8; 4]),
    V6([u8; 16]),
}

impl Address {
    /// The octets of an address, the first one first.
    pub open spec fn octets(self) -> Seq<u8> {
        match self {
            Address::V4(octets) => octets@,
            Address::V6(octets) => octets@,
        }
    }

    /// The text of an address.
    pub open spec fn written(self) -> Seq<char> {
        match self {
            Address::V4(octets) => ipv4_text(octets@),
            Address::V6(octets) => ipv6_text(octets@),
        }
    }

    pub fn text(&self) -> (text: String)
        ensures
            text@ == self.written(),
    {
        match self {
            Address::V4(octets) => ipv4_string(octets),
            Address::V6(octets) => ipv6_string(octets),
        }
    }
}

/// Four octets with dots between them.
pub open spec fn ipv4_text(octets: Seq<u8>) -> Seq<char> {
    decimal(octets[0] as nat) + seq!['.'] + decimal(octets[1] as nat) + seq!['.'] + decimal(
        octets[2] as nat,
    ) + seq!['.'] + decimal(octets[3] as nat)
}

fn push_decimal(text: &mut String, value: u8)
    ensures
        final(text)@ == old(text)@ + decimal(value as nat),
{
    let digits = decimal_text(value as u64);
    text.append(digits.as_str());
}

/// Writes four octets.
pub fn ipv4_string(octets: &[u8]) -> (text: String)
    requires
        octets@.len() == 4,
    ensures
        text@ == ipv4_text(octets@),
{
    let mut text = decimal_text(octets[0] as u64);
    text.push('.');
    push_decimal(&mut text, octets[1]);
    text.push('.');
    push_decimal(&mut text, octets[2]);
    text.push('.');
    push_decimal(&mut text, octets[3]);
    assert(text@ =~= ipv4_text(octets@));
    text
}

/// The hexadecimal digits of a number, without leading zeros.
pub open spec fn hex_number(n: nat) -> Seq<char>
    decreases n,
{
    if n < 16 {
        seq![hex_char(n)]
    } else {
        hex_number(n / 16).push(hex_char(n % 16))
    }
}

fn hex_number_text(n: u32) -> (text: String)
    ensures
        text@ == hex_number(n as nat),
    decreases n,
{
    if n < 16 {
        let mut text = "".to_owned();
        text.push(hex_digit(n as u8));
        proof {
            reveal_strlit("");
        }
        assert(text@ =~= seq![hex_char(n as nat)]);
        text
    } else {
        let mut text = hex_number_text(n / 16);
        text.push(hex_digit((n % 16) as u8));
        text
    }
}

/// The eight 16-bit groups of sixteen octets.
pub open spec fn groups(octets: Seq<u8>) -> Seq<nat> {
    Seq::new(8, |i: int| (octets[2 * i] * 256 + octets[2 * i + 1]) as nat)
}

/// How many groups are zero from position `i` on.
pub open spec fn zero_run(values: Seq<nat>, i: int) -> nat
    decreases values.len() - i,
{
    if i < 0 || i >= values.len() || values[i] != 0 {
        0
    } else {
        1 + zero_run(values, i + 1)
    }
}

/// Where the longest run of zero groups begins at or after `from`; the first one of several.
pub open spec fn longest_run(values: Seq<nat>, from: int) -> int
    decreases values.len() - from,
{
    if from < 0 || from >= values.len() {
        values.len() as int
    } else if zero_run(values, from) >= zero_run(values, longest_run(values, from + 1)) {
        from
    } else {
        longest_run(values, from + 1)
    }
}

/// Groups with colons between them.
pub open spec fn group_text(values: Seq<nat>) -> Seq<char>
    decreases values.len(),
{
    if values.len() == 0 {
        Seq::empty()
    } else if values.len() == 1 {
        hex_number(values[0])
    } else {
        group_text(values.drop_last()) + seq![':'] + hex_number(values.last())
    }
}

/// Whether sixteen octets carry an address of the older kind.
pub open spec fn is_mapped(octets: Seq<u8>) -> bool {
    &&& forall|i: int| 0 <= i < 10 ==> #[trigger] octets[i] == 0
    &&& octets[10] == 255
    &&& octets[11] == 255
}

/// Sixteen octets as eight hexadecimal groups with colons between them. The longest run of two or
/// more zero groups is left out, and an address of the older kind is written as one.
pub open spec fn ipv6_text(octets: Seq<u8>) -> Seq<char> {
    let values = groups(octets);
    let start = longest_run(values, 0);
    let length = zero_run(values, start);
    if is_mapped(octets) {
        "::ffff:"@ + ipv4_text(octets.subrange(12, 16))
    } else if length > 1 {
        group_text(values.take(start)) + "::"@ + group_text(values.skip(start + length))
    } else {
        group_text(values)
    }
}

fn octets_are_mapped(octets: &[u8]) -> (mapped: bool)
    requires
        octets@.len() == 16,
    ensures
        mapped == is_mapped(octets@),
{
    for i in 0..10
        invariant
            octets@.len() == 16,
            forall|k: int| 0 <= k < i ==> #[trigger] octets@[k] == 0,
    {
        if octets[i] != 0 {
            assert(octets@[i as int] != 0);
            return false;
        }
    }
    octets[10] == 255 && octets[11] == 255
}

/// The values of a vector of groups.
pub open spec fn group_values(values: Seq<u32>) -> Seq<nat> {
    Seq::new(values.len(), |i: int| values[i] as nat)
}

fn run_length(values: &[u32], start: usize) -> (length: usize)
    requires
        start <= values@.len(),
    ensures
        length == zero_run(group_values(values@), start as int),
        start + length <= values@.len(),
    decreases values@.len() - start,
{
    if start >= values.len() || values[start] != 0 {
        0
    } else {
        1 + run_length(values, start + 1)
    }
}

fn find_longest_run(values: &[u32], from: usize) -> (start: usize)
    requires
        from <= values@.len(),
    ensures
        start == longest_run(group_values(values@), from as int),
        start <= values@.len(),
    decreases values@.len() - from,
{
    if from >= values.len() {
        return values.len();
    }
    let later: usize = find_longest_run(values, from + 1);
    if run_length(values, from) >= run_length(values, later) {
        from
    } else {
        later
    }
}

fn write_groups(values: &[u32], start: usize, end: usize) -> (text: String)
    requires
        start <= end <= values@.len(),
    ensures
        text@ == group_text(group_values(values@).subrange(start as int, end as int)),
{
    let ghost all = group_values(values@);
    let mut text = "".to_owned();
    proof {
        reveal_strlit("");
        assert(text@ =~= group_text(all.subrange(start as int, start as int)));
    }
    for i in start..end
        invariant
            start <= end <= values@.len(),
            all == group_values(values@),
            text@ == group_text(all.subrange(start as int, i as int)),
    {
        let ghost before = all.subrange(start as int, i as int);
        let ghost after = all.subrange(start as int, i + 1);
        proof {
            assert(after.drop_last() =~= before);
            assert(after.last() == values@[i as int] as nat);
            assert(after.len() == before.len() + 1);
        }
        let digits = hex_number_text(values[i]);
        if i > start {
            text.push(':');
            text.append(digits.as_str());
            assert(text@ =~= group_text(before) + seq![':'] + hex_number(after.last()));
        } else {
            text.append(digits.as_str());
            assert(after[0] == after.last());
            assert(text@ =~= hex_number(after.last()));
        }
    }
    text
}

/// Writes sixteen octets.
pub fn ipv6_string(octets: &[u8]) -> (text: String)
    requires
        octets@.len() == 16,
    ensures
        text@ == ipv6_text(octets@),
{
    if octets_are_mapped(octets) {
        let mut text = "::ffff:".to_owned();
        let tail = ipv4_string(vstd::slice::slice_subrange(octets, 12, 16));
        text.append(tail.as_str());
        return text;
    }
    let mut values: Vec<u32> = Vec::new();
    for i in 0..8
        invariant
            octets@.len() == 16,
            values@.len() == i,
            forall|k: int| 0 <= k < i ==> (#[trigger] values@[k]) as nat == groups(octets@)[k],
    {
        values.push(octets[2 * i] as u32 * 256 + octets[2 * i + 1] as u32);
    }
    let ghost all = groups(octets@);
    assert(group_values(values@) =~= all);
    let start: usize = find_longest_run(values.as_slice(), 0);
    let length: usize = run_length(values.as_slice(), start);
    if length > 1 {
        let mut text = write_groups(values.as_slice(), 0, start);
        text.append("::");
        let tail = write_groups(values.as_slice(), start + length, values.len());
        text.append(tail.as_str());
        assert(all.subrange(0, start as int) =~= all.take(start as int));
        assert(all.subrange(start + length, 8) =~= all.skip(start + length));
        text
    } else {
        assert(all.subrange(0, 8) =~= all);
        write_groups(values.as_slice(), 0, values.len())
    }
}

/// The address that bytes of a family stand for.
pub open spec fn address_of(family: u8, value: Option<Seq<u8>>) -> Option<Seq<char>> {
    match value {
        Some(value) => if family == AF_INET && value.len() == 4 {
            Some(ipv4_text(value))
        } else if family == AF_INET6 && value.len() == 16 {
            Some(ipv6_text(value))
        } else {
            None
        },
        None => None,
    }
}

/// The bytes of an optional value.
pub open spec fn optional_bytes(value: Option<Vec<u8>>) -> Option<Seq<u8>> {
    match value {
        Some(value) => Some(value@),
        None => None,
    }
}

/// Writes the address that bytes of a family stand for.
pub fn address_text(family: u8, value: &Option<Vec<u8>>) -> (text: Option<String>)
    ensures
        crate::text::optional_text(text) == address_of(family, optional_bytes(*value)),
{
    match value {
        Some(value) => {
            if family == AF_INET && value.len() == 4 {
                Some(ipv4_string(value.as_slice()))
            } else if family == AF_INET6 && value.len() == 16 {
                Some(ipv6_string(value.as_slice()))
            } else {
                None
            }
        },
        None => None,
    }
}

/// An address has no slash in it.
pub proof fn an_address_has_no_slash(octets: Seq<u8>)
    ensures
        octets.len() == 4 ==> !ipv4_text(octets).contains('/'),
        octets.len() == 16 ==> !ipv6_text(octets).contains('/'),
{
    if octets.len() == 4 {
        lemma_ipv4_has_no_slash(octets);
    }
    if octets.len() == 16 {
        let values = groups(octets);
        let start = longest_run(values, 0);
        let length = zero_run(values, start);
        lemma_groups_have_no_slash(values);
        lemma_groups_have_no_slash(values.take(start));
        lemma_groups_have_no_slash(values.skip(start + length));
        lemma_ipv4_has_no_slash(octets.subrange(12, 16));
        reveal_strlit("::ffff:");
        reveal_strlit("::");
        let text = ipv6_text(octets);
        assert forall|i: int| 0 <= i < text.len() implies text[i] != '/' by {
            if is_mapped(octets) {
                let head = "::ffff:"@;
                let tail = ipv4_text(octets.subrange(12, 16));
                if i >= head.len() {
                    assert(tail.contains(tail[i - head.len()]));
                }
            } else if length > 1 {
                let head = group_text(values.take(start));
                let tail = group_text(values.skip(start + length));
                if i < head.len() {
                    assert(head.contains(head[i]));
                } else if i >= head.len() + 2 {
                    assert(tail.contains(tail[i - head.len() - 2]));
                }
            } else {
                assert(text.contains(text[i]));
            }
        }
    }
}

proof fn lemma_decimal_has_no_slash(n: nat)
    ensures
        !decimal(n).contains('/'),
    decreases n,
{
    if n >= 10 {
        lemma_decimal_has_no_slash(n / 10);
        let head = decimal(n / 10);
        assert forall|i: int| 0 <= i < decimal(n).len() implies decimal(n)[i] != '/' by {
            if i < head.len() {
                assert(head.contains(head[i]));
            }
        }
    }
}

proof fn lemma_hex_has_no_slash(n: nat)
    ensures
        !hex_number(n).contains('/'),
    decreases n,
{
    if n >= 16 {
        lemma_hex_has_no_slash(n / 16);
        let head = hex_number(n / 16);
        assert forall|i: int| 0 <= i < hex_number(n).len() implies hex_number(n)[i] != '/' by {
            if i < head.len() {
                assert(head.contains(head[i]));
            }
        }
    }
}

proof fn lemma_joined_has_no_slash(left: Seq<char>, right: Seq<char>)
    requires
        !left.contains('/'),
        !right.contains('/'),
    ensures
        !(left + right).contains('/'),
{
    assert forall|i: int| 0 <= i < (left + right).len() implies (left + right)[i] != '/' by {
        if i < left.len() {
            assert(left.contains(left[i]));
        } else {
            assert(right.contains(right[i - left.len()]));
        }
    }
}

proof fn lemma_ipv4_has_no_slash(octets: Seq<u8>)
    ensures
        !ipv4_text(octets).contains('/'),
{
    let a = decimal(octets[0] as nat);
    let b = decimal(octets[1] as nat);
    let c = decimal(octets[2] as nat);
    let d = decimal(octets[3] as nat);
    lemma_decimal_has_no_slash(octets[0] as nat);
    lemma_decimal_has_no_slash(octets[1] as nat);
    lemma_decimal_has_no_slash(octets[2] as nat);
    lemma_decimal_has_no_slash(octets[3] as nat);
    let dot = seq!['.'];
    lemma_joined_has_no_slash(a, dot);
    lemma_joined_has_no_slash(a + dot, b);
    lemma_joined_has_no_slash(a + dot + b, dot);
    lemma_joined_has_no_slash(a + dot + b + dot, c);
    lemma_joined_has_no_slash(a + dot + b + dot + c, dot);
    lemma_joined_has_no_slash(a + dot + b + dot + c + dot, d);
}

proof fn lemma_groups_have_no_slash(values: Seq<nat>)
    ensures
        !group_text(values).contains('/'),
    decreases values.len(),
{
    if values.len() == 1 {
        lemma_hex_has_no_slash(values[0]);
    } else if values.len() > 1 {
        lemma_groups_have_no_slash(values.drop_last());
        lemma_hex_has_no_slash(values.last());
        let colon = seq![':'];
        lemma_joined_has_no_slash(group_text(values.drop_last()), colon);
        lemma_joined_has_no_slash(group_text(values.drop_last()) + colon, hex_number(values.last()));
    }
}

// ---------------------------------------------------------------------------------------
// Laws.
// ---------------------------------------------------------------------------------------

/// Whether a text is the decimal number of an octet, in digits alone.
pub open spec fn spells_octet(text: Seq<char>, octet: u8) -> bool {
    &&& text.len() > 0
    &&& forall|i: int| 0 <= i < text.len() ==> '0' <= #[trigger] text[i] <= '9'
    &&& unsigned_number(text, 10, 255) == Some(octet as nat)
}

proof fn lemma_octet_spelled(octet: u8)
    ensures
        spells_octet(decimal(octet as nat), octet),
{
    decimal_text_reads_back(octet as nat, 255);
    lemma_decimal_digits(octet as nat);
}

proof fn lemma_decimal_digits(n: nat)
    ensures
        decimal(n).len() > 0,
        forall|i: int| 0 <= i < decimal(n).len() ==> '0' <= #[trigger] decimal(n)[i] <= '9',
    decreases n,
{
    if n >= 10 {
        lemma_decimal_digits(n / 10);
        let earlier = decimal(n / 10);
        assert forall|i: int| 0 <= i < decimal(n).len() implies '0' <= #[trigger] decimal(n)[i]
            <= '9' by {
            if i < earlier.len() {
                assert(decimal(n)[i] == earlier[i]);
            }
        }
    }
}

/// An address of the older kind is its four octets in order, each as a decimal number, with dots
/// between them.
pub proof fn an_older_address_is_its_octets(octets: &[u8], text: String)
    requires
        octets@.len() == 4,
        call_ensures(ipv4_string, (octets,), text),
    ensures
        exists|a: Seq<char>, b: Seq<char>, c: Seq<char>, d: Seq<char>|
            {
                &&& text@ == #[trigger] (a + "."@ + b + "."@ + c + "."@ + d)
                &&& spells_octet(a, octets@[0])
                &&& spells_octet(b, octets@[1])
                &&& spells_octet(c, octets@[2])
                &&& spells_octet(d, octets@[3])
            },
{
    reveal_strlit(".");
    assert("."@ =~= seq!['.']);
    let a = decimal(octets@[0] as nat);
    let b = decimal(octets@[1] as nat);
    let c = decimal(octets@[2] as nat);
    let d = decimal(octets@[3] as nat);
    lemma_octet_spelled(octets@[0]);
    lemma_octet_spelled(octets@[1]);
    lemma_octet_spelled(octets@[2]);
    lemma_octet_spelled(octets@[3]);
    assert(text@ == a + "."@ + b + "."@ + c + "."@ + d);
}

/// Whether a text is the hexadecimal number of a group: as short as it can be, in small letters.
pub open spec fn spells_group(text: Seq<char>, group: int) -> bool {
    &&& text.len() > 0
    &&& is_lower_hex(text)
    &&& radix_value(text, 16) == group
    &&& text.len() > 1 ==> text[0] != '0'
}

proof fn lemma_group_spelled(n: nat)
    ensures
        spells_group(hex_number(n), n as int),
        n > 0 ==> hex_number(n)[0] != '0',
    decreases n,
{
    let text = hex_number(n);
    if n < 16 {
        assert(text.drop_last() =~= Seq::<char>::empty());
        assert(radix_value(text.drop_last(), 16) == 0);
        assert(digit_value(text.last()) == n);
    } else {
        lemma_group_spelled(n / 16);
        let earlier = hex_number(n / 16);
        assert(text.drop_last() =~= earlier);
        assert(digit_value(text.last()) == n % 16);
        assert(text[0] == earlier[0]);
        assert forall|i: int| 0 <= i < text.len() implies '0' <= #[trigger] text[i] <= '9' || 'a'
            <= text[i] <= 'f' by {
            if i < earlier.len() {
                assert(text[i] == earlier[i]);
            }
        }
    }
}

/// Texts with a colon between each two of them.
pub open spec fn with_colons(parts: Seq<Seq<char>>) -> Seq<char>
    decreases parts.len(),
{
    if parts.len() == 0 {
        Seq::empty()
    } else if parts.len() == 1 {
        parts[0]
    } else {
        with_colons(parts.drop_last()) + ":"@ + parts.last()
    }
}

proof fn lemma_with_colons(values: Seq<nat>, parts: Seq<Seq<char>>)
    requires
        parts.len() == values.len(),
        forall|i: int| 0 <= i < parts.len() ==> #[trigger] parts[i] == hex_number(values[i]),
    ensures
        group_text(values) == with_colons(parts),
    decreases values.len(),
{
    reveal_strlit(":");
    assert(":"@ =~= seq![':']);
    if values.len() == 1 {
        assert(parts[0] == hex_number(values[0]));
    } else if values.len() > 1 {
        lemma_with_colons(values.drop_last(), parts.drop_last());
        assert(parts[parts.len() - 1] == hex_number(values[values.len() - 1]));
    }
}

proof fn lemma_zero_run(values: Seq<nat>, i: int)
    requires
        0 <= i <= values.len(),
    ensures
        i + zero_run(values, i) <= values.len(),
        forall|k: int| i <= k < i + zero_run(values, i) ==> values[k] == 0,
        forall|b: int|
            i <= b <= values.len() && (forall|k: int| i <= k < b ==> values[k] == 0) ==> b - i
                <= #[trigger] at_least(zero_run(values, i), b),
    decreases values.len() - i,
{
    if i < values.len() && values[i] == 0 {
        lemma_zero_run(values, i + 1);
    }
    let run = zero_run(values, i);
    assert forall|b: int|
        i <= b <= values.len() && (forall|k: int| i <= k < b ==> values[k] == 0) implies b - i
        <= #[trigger] at_least(run, b) by {
        if i < values.len() && values[i] == 0 && b > i {
            assert(forall|k: int| i + 1 <= k < b ==> values[k] == 0);
            assert(b - (i + 1) <= at_least(zero_run(values, i + 1), b));
        }
    }
}

spec fn at_least(run: nat, end: int) -> nat {
    run
}

proof fn lemma_longest_run(values: Seq<nat>, from: int)
    requires
        0 <= from <= values.len(),
    ensures
        from <= longest_run(values, from) <= values.len(),
        forall|a: int|
            from <= a < values.len() ==> #[trigger] zero_run(values, a) <= zero_run(
                values,
                longest_run(values, from),
            ),
        forall|a: int|
            from <= a < longest_run(values, from) && a < values.len() ==> #[trigger] zero_run(
                values,
                a,
            ) < zero_run(values, longest_run(values, from)),
    decreases values.len() - from,
{
    if from < values.len() {
        lemma_longest_run(values, from + 1);
    }
}

/// Whether every group from `a` up to `b` is zero.
pub open spec fn all_zero(octets: Seq<u8>, a: int, b: int) -> bool {
    forall|i: int| 2 * a <= i < 2 * b ==> #[trigger] octets[i] == 0
}

/// Whether a text is an address with the groups from `start` up to `end` left out, which is none if
/// the two are the same.
pub open spec fn leaves_out(text: Seq<char>, octets: Seq<u8>, start: int, end: int) -> bool {
    exists|parts: Seq<Seq<char>>|
        {
            &&& #[trigger] parts.len() == 8
            &&& forall|i: int|
                0 <= i < 8 ==> spells_group(
                    #[trigger] parts[i],
                    256 * octets[2 * i] + octets[2 * i + 1],
                )
            &&& text == (if start == end {
                with_colons(parts)
            } else {
                with_colons(parts.take(start)) + "::"@ + with_colons(parts.skip(end))
            })
        }
}

/// An address of the newer kind is its eight groups in order, as hexadecimal numbers with colons
/// between them. What is left out are zero groups alone, at least two of them; no run of zero
/// groups is longer, and none before it is as long. No run of two or more is written out if
/// nothing is left out.
pub proof fn a_newer_address_is_its_groups(octets: &[u8], text: String)
    requires
        octets@.len() == 16,
        call_ensures(ipv6_string, (octets,), text),
        !(all_zero(octets@, 0, 5) && octets@[10] == 255 && octets@[11] == 255),
    ensures
        exists|start: int, end: int|
            {
                &&& 0 <= start <= end <= 8
                &&& #[trigger] leaves_out(text@, octets@, start, end)
                &&& all_zero(octets@, start, end)
                &&& start == end || end - start >= 2
                &&& forall|a: int, b: int|
                    0 <= a < b <= 8 && #[trigger] all_zero(octets@, a, b) ==> b - a <= 1 || (b - a
                        <= end - start && (a < start ==> b - a < end - start))
            },
{
    let values = groups(octets@);
    let run_start = longest_run(values, 0);
    lemma_longest_run(values, 0);
    lemma_zero_run(values, run_start);
    let length = zero_run(values, run_start) as int;
    let start = if length > 1 {
        run_start
    } else {
        0
    };
    let end = if length > 1 {
        run_start + length
    } else {
        0
    };
    let parts = Seq::new(8, |i: int| hex_number(values[i]));
    assert forall|i: int| 0 <= i < 8 implies spells_group(
        #[trigger] parts[i],
        256 * octets@[2 * i] + octets@[2 * i + 1],
    ) by {
        lemma_group_spelled(values[i]);
    }
    assert(is_mapped(octets@) == false) by {
        if is_mapped(octets@) {
            assert forall|i: int| 0 <= i < 10 implies #[trigger] octets@[i] == 0 by {}
            assert(all_zero(octets@, 0, 5));
        }
    }
    if length > 1 {
        lemma_with_colons(values.take(start), parts.take(start));
        lemma_with_colons(values.skip(end), parts.skip(end));
    } else {
        lemma_with_colons(values, parts);
    }
    assert(parts.len() == 8);
    assert(leaves_out(text@, octets@, start, end));
    assert(all_zero(octets@, start, end)) by {
        assert forall|i: int| 2 * start <= i < 2 * end implies #[trigger] octets@[i] == 0 by {
            assert(values[i / 2] == 0);
            assert(values[i / 2] == octets@[2 * (i / 2)] * 256 + octets@[2 * (i / 2) + 1]);
        }
    }
    assert forall|a: int, b: int|
        0 <= a < b <= 8 && #[trigger] all_zero(octets@, a, b) implies b - a <= 1 || (b - a <= end
        - start && (a < start ==> b - a < end - start)) by {
        assert forall|k: int| a <= k < b implies values[k] == 0 by {
            assert(octets@[2 * k] == 0 && octets@[2 * k + 1] == 0);
        }
        lemma_zero_run(values, a);
        assert(b - a <= at_least(zero_run(values, a), b));
        assert(zero_run(values, a) <= zero_run(values, run_start));
    }
}

/// An address of the older kind in the newer form is written as the older one, behind `::ffff:`.
pub proof fn an_older_address_keeps_its_form(octets: &[u8], text: String, older: String, last: &[u8])
    requires
        octets@.len() == 16,
        call_ensures(ipv6_string, (octets,), text),
        all_zero(octets@, 0, 5),
        octets@[10] == 255 && octets@[11] == 255,
        last@ == octets@.skip(12),
        call_ensures(ipv4_string, (last,), older),
    ensures
        text@ == "::ffff:"@ + older@,
{
    assert(last@ =~= octets@.subrange(12, 16));
    assert(is_mapped(octets@)) by {
        assert forall|i: int| 0 <= i < 10 implies #[trigger] octets@[i] == 0 by {}
    }
}

/// Bytes are an address only in a family whose length they have: four bytes in the older one, whose
/// number is 2, and sixteen in the newer one, whose number is 10.
pub proof fn a_family_has_its_own_length(
    family: u8,
    value: Option<Vec<u8>>,
    text: Option<String>,
)
    requires
        call_ensures(address_text, (family, &value), text),
    ensures
        text is Some <==> value is Some && ((family == 2 && value->0@.len() == 4) || (family == 10
            && value->0@.len() == 16)),
        text is Some && family == 2 ==> text->0@ == ipv4_text(value->0@),
        text is Some && family == 10 ==> text->0@ == ipv6_text(value->0@),
{
}

} // verus!
