//! Byte sequences: comparing them and reading and writing integers in them.

use vstd::prelude::*;

verus! {

/// Whether two byte sequences are equal.
pub fn same_bytes(left: &[u8], right: &[u8]) -> (equal: bool)
    ensures
        equal == (left@ == right@),
{
    if left.len() != right.len() {
        return false;
    }
    for i in 0..left.len()
        invariant
            left@.len() == right@.len(),
            forall|k: int| 0 <= k < i ==> left@[k] == right@[k],
    {
        if left[i] != right[i] {
            assert(left@[i as int] != right@[i as int]);
            return false;
        }
    }
    assert(left@ =~= right@);
    true
}

/// Whether a byte sequence holds a byte.
pub fn contains_byte(bytes: &[u8], byte: u8) -> (found: bool)
    ensures
        found == bytes@.contains(byte),
{
    for i in 0..bytes.len()
        invariant
            forall|k: int| 0 <= k < i ==> bytes@[k] != byte,
    {
        if bytes[i] == byte {
            assert(bytes@[i as int] == byte);
            return true;
        }
    }
    false
}

/// The integer that two bytes at `at` stand for, the least significant one first.
pub open spec fn le16(bytes: Seq<u8>, at: int) -> u16 {
    (bytes[at] + bytes[at + 1] * 256) as u16
}

/// The integer that four bytes at `at` stand for, the least significant one first.
pub open spec fn le32(bytes: Seq<u8>, at: int) -> u32 {
    (bytes[at] + bytes[at + 1] * 256 + bytes[at + 2] * 65_536 + bytes[at + 3] * 16_777_216) as u32
}

/// The integer that two bytes at `at` stand for, the most significant one first.
pub open spec fn be16(bytes: Seq<u8>, at: int) -> u16 {
    (bytes[at] * 256 + bytes[at + 1]) as u16
}

/// The integer that four bytes at `at` stand for, the most significant one first.
pub open spec fn be32(bytes: Seq<u8>, at: int) -> u32 {
    (bytes[at] * 16_777_216 + bytes[at + 1] * 65_536 + bytes[at + 2] * 256 + bytes[at + 3]) as u32
}

/// The order in which a machine keeps the bytes of an integer.
#[derive(Clone, Copy, Debug, PartialEq, Eq, Structural)]
pub enum ByteOrder {
    /// The least significant byte comes first.
    LittleEndian,
    /// The most significant byte comes first.
    BigEndian,
}

/// An integer with its two bytes exchanged.
pub open spec fn exchanged(word: u16) -> u16 {
    (word % 256 * 256 + word / 256) as u16
}

/// `u16::to_le`: the integer as a machine keeps it whose least significant byte comes first. On
/// such a machine it is the integer itself, on any other the integer with its bytes exchanged;
/// which of them this machine is, is not stated.
pub assume_specification[ u16::to_le ](word: u16) -> (converted: u16)
    ensures
        converted == word || converted == exchanged(word),
;

/// The order of a machine on which the integer one is this one, if its least significant byte is
/// to come first.
pub fn order_of_one(converted: u16) -> (order: ByteOrder)
    ensures
        order == (if converted == 1 {
            ByteOrder::LittleEndian
        } else {
            ByteOrder::BigEndian
        }),
{
    if converted == 1 {
        ByteOrder::LittleEndian
    } else {
        ByteOrder::BigEndian
    }
}

/// The order of this machine: the one that is told by what becomes of the integer one if its least
/// significant byte is to come first. It stays as it is, or its bytes are exchanged.
pub fn machine_order() -> (order: ByteOrder)
    ensures
        exists|converted: u16|
            #[trigger] call_ensures(u16::to_le, (1u16,), converted) && converted == (match order {
                ByteOrder::LittleEndian => 1u16,
                ByteOrder::BigEndian => exchanged(1),
            }),
{
    order_of_one(u16::to_le(1))
}

/// The integer that two bytes at `at` stand for in an order.
#[verifier::opaque]
pub open spec fn word16(order: ByteOrder, bytes: Seq<u8>, at: int) -> u16 {
    match order {
        ByteOrder::LittleEndian => le16(bytes, at),
        ByteOrder::BigEndian => be16(bytes, at),
    }
}

/// The integer that four bytes at `at` stand for in an order.
#[verifier::opaque]
pub open spec fn word32(order: ByteOrder, bytes: Seq<u8>, at: int) -> u32 {
    match order {
        ByteOrder::LittleEndian => le32(bytes, at),
        ByteOrder::BigEndian => be32(bytes, at),
    }
}

/// Integers whose bytes are the same are the same.
pub proof fn lemma_same_words(order: ByteOrder, left: Seq<u8>, at: int, right: Seq<u8>, other: int)
    ensures
        left[at] == right[other] && left[at + 1] == right[other + 1] ==> word16(order, left, at)
            == word16(order, right, other),
        left[at] == right[other] && left[at + 1] == right[other + 1] && left[at + 2] == right[other
            + 2] && left[at + 3] == right[other + 3] ==> word32(order, left, at) == word32(
            order,
            right,
            other,
        ),
{
    reveal(word16);
    reveal(word32);
}

pub fn read_word16(order: ByteOrder, bytes: &[u8], at: usize) -> (value: u16)
    requires
        at + 2 <= bytes@.len(),
    ensures
        value == word16(order, bytes@, at as int),
{
    reveal(word16);
    match order {
        ByteOrder::LittleEndian => bytes[at] as u16 + bytes[at + 1] as u16 * 256,
        ByteOrder::BigEndian => bytes[at] as u16 * 256 + bytes[at + 1] as u16,
    }
}

pub fn read_word32(order: ByteOrder, bytes: &[u8], at: usize) -> (value: u32)
    requires
        at + 4 <= bytes@.len(),
    ensures
        value == word32(order, bytes@, at as int),
{
    reveal(word32);
    match order {
        ByteOrder::LittleEndian => bytes[at] as u32 + bytes[at + 1] as u32 * 256 + bytes[at + 2]
            as u32 * 65_536 + bytes[at + 3] as u32 * 16_777_216,
        ByteOrder::BigEndian => bytes[at] as u32 * 16_777_216 + bytes[at + 1] as u32 * 65_536
            + bytes[at + 2] as u32 * 256 + bytes[at + 3] as u32,
    }
}

/// The two bytes of an integer, the least significant one first.
pub open spec fn le16_bytes(value: u16) -> Seq<u8> {
    seq![(value % 256) as u8, (value / 256) as u8]
}

/// The four bytes of an integer, the least significant one first.
pub open spec fn le32_bytes(value: u32) -> Seq<u8> {
    seq![
        (value % 256) as u8,
        (value / 256 % 256) as u8,
        (value / 65_536 % 256) as u8,
        (value / 16_777_216) as u8,
    ]
}

/// The two bytes of an integer in an order.
pub open spec fn word16_bytes(order: ByteOrder, value: u16) -> Seq<u8> {
    match order {
        ByteOrder::LittleEndian => le16_bytes(value),
        ByteOrder::BigEndian => seq![(value / 256) as u8, (value % 256) as u8],
    }
}

/// The four bytes of an integer in an order.
pub open spec fn word32_bytes(order: ByteOrder, value: u32) -> Seq<u8> {
    match order {
        ByteOrder::LittleEndian => le32_bytes(value),
        ByteOrder::BigEndian => seq![
            (value / 16_777_216) as u8,
            (value / 65_536 % 256) as u8,
            (value / 256 % 256) as u8,
            (value % 256) as u8,
        ],
    }
}

/// Writing an integer and reading it back in the same order gives the integer.
pub proof fn words_read_back(order: ByteOrder, short: u16, long: u32)
    ensures
        word16(order, word16_bytes(order, short), 0) == short,
        word32(order, word32_bytes(order, long), 0) == long,
{
    reveal(word16);
    reveal(word32);
}

pub fn push_le16(bytes: &mut Vec<u8>, value: u16)
    ensures
        final(bytes)@ == old(bytes)@ + le16_bytes(value),
{
    let ghost before = bytes@;
    bytes.push((value % 256) as u8);
    bytes.push((value / 256) as u8);
    assert(bytes@ =~= before + le16_bytes(value));
}

pub fn push_le32(bytes: &mut Vec<u8>, value: u32)
    ensures
        final(bytes)@ == old(bytes)@ + le32_bytes(value),
{
    let ghost before = bytes@;
    bytes.push((value % 256) as u8);
    bytes.push((value / 256 % 256) as u8);
    bytes.push((value / 65_536 % 256) as u8);
    bytes.push((value / 16_777_216) as u8);
    assert(bytes@ =~= before + le32_bytes(value));
}

pub fn push_word16(order: ByteOrder, bytes: &mut Vec<u8>, value: u16)
    ensures
        final(bytes)@ == old(bytes)@ + word16_bytes(order, value),
{
    match order {
        ByteOrder::LittleEndian => push_le16(bytes, value),
        ByteOrder::BigEndian => {
            let ghost before = bytes@;
            bytes.push((value / 256) as u8);
            bytes.push((value % 256) as u8);
            assert(bytes@ =~= before + word16_bytes(order, value));
        },
    }
}

pub fn push_word32(order: ByteOrder, bytes: &mut Vec<u8>, value: u32)
    ensures
        final(bytes)@ == old(bytes)@ + word32_bytes(order, value),
{
    match order {
        ByteOrder::LittleEndian => push_le32(bytes, value),
        ByteOrder::BigEndian => {
            let ghost before = bytes@;
            bytes.push((value / 16_777_216) as u8);
            bytes.push((value / 65_536 % 256) as u8);
            bytes.push((value / 256 % 256) as u8);
            bytes.push((value % 256) as u8);
            assert(bytes@ =~= before + word32_bytes(order, value));
        },
    }
}

/// Appends bytes.
pub fn push_bytes(bytes: &mut Vec<u8>, more: &[u8])
    ensures
        final(bytes)@ == old(bytes)@ + more@,
{
    let ghost before = bytes@;
    for i in 0..more.len()
        invariant
            bytes@ == before + more@.take(i as int),
    {
        bytes.push(more[i]);
        assert(bytes@ =~= before + more@.take(i + 1));
    }
    assert(more@.take(more@.len() as int) =~= more@);
}

/// Copies a range of bytes.
pub fn copied_range(bytes: &[u8], start: usize, end: usize) -> (copied: Vec<u8>)
    requires
        start <= end <= bytes@.len(),
    ensures
        copied@ == bytes@.subrange(start as int, end as int),
{
    let mut copied: Vec<u8> = Vec::new();
    for i in start..end
        invariant
            start <= end <= bytes@.len(),
            copied@ == bytes@.subrange(start as int, i as int),
    {
        copied.push(bytes[i]);
        assert(copied@ =~= bytes@.subrange(start as int, i + 1));
    }
    copied
}

// ---------------------------------------------------------------------------------------
// Laws.
// ---------------------------------------------------------------------------------------

/// An integer is the sum of its bytes, each times its place, and the order says which byte has
/// which place.
pub proof fn an_integer_is_the_sum_of_its_bytes(
    order: ByteOrder,
    bytes: &[u8],
    at: usize,
    short: u16,
    long: u32,
)
    requires
        at + 4 <= bytes@.len(),
        call_ensures(read_word16, (order, bytes, at), short),
        call_ensures(read_word32, (order, bytes, at), long),
    ensures
        order is LittleEndian ==> short == bytes@[at as int] + 256 * bytes@[at + 1],
        order is BigEndian ==> short == 256 * bytes@[at as int] + bytes@[at + 1],
        order is LittleEndian ==> long == bytes@[at as int] + 256 * (bytes@[at + 1] + 256 * (
        bytes@[at + 2] + 256 * bytes@[at + 3])),
        order is BigEndian ==> long == bytes@[at + 3] + 256 * (bytes@[at + 2] + 256 * (bytes@[at
            + 1] + 256 * bytes@[at as int])),
{
    reveal(word16);
    reveal(word32);
}

/// The bytes that are written for an integer add up to it, the least significant one first.
pub proof fn the_bytes_of_an_integer_add_up(short: u16, long: u32)
    ensures
        le16_bytes(short).len() == 2,
        le16_bytes(short)[0] + 256 * le16_bytes(short)[1] == short,
        le32_bytes(long).len() == 4,
        le32_bytes(long)[0] + 256 * (le32_bytes(long)[1] + 256 * (le32_bytes(long)[2] + 256
            * le32_bytes(long)[3])) == long,
{
}

/// A byte that is exchanged twice is where it was, and the two bytes of an integer change places.
pub proof fn two_bytes_change_places(word: u16)
    ensures
        exchanged(exchanged(word)) == word,
        le16_bytes(exchanged(word)) == le16_bytes(word).reverse(),
{
}

} // verus!
