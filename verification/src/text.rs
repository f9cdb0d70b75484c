//! Characters, decimal and hexadecimal numbers, and the small string operations the rest of the
//! library is written with. Every contract speaks of a string as its sequence of characters.

use vstd::prelude::*;
use vstd::utf8::{decode_utf8, valid_utf8};

verus! {

/// `String::push`: appends one character.
pub assume_specification[ std::string::String::push ](text: &mut std::string::String, c: char)
    ensures
        final(text)@ == old(text)@.push(c),
;

/// `std::str::from_utf8`, with the borrowed text copied out: the characters of `bytes` when they
/// are well-formed UTF-8, and nothing otherwise.
#[verifier::external_body]
pub(crate) fn utf8_text(bytes: &[u8]) -> (text: Option<String>)
    ensures
        text is Some <==> valid_utf8(bytes@),
        text matches Some(text) ==> text@ == decode_utf8(bytes@),
{
    std::str::from_utf8(bytes).ok().map(str::to_owned)
}

/// The characters of `text`.
pub fn chars_of(text: &str) -> (chars: Vec<char>)
    ensures
        chars@ == text@,
{
    let mut chars: Vec<char> = Vec::new();
    for c in it: text.chars()
        invariant
            chars@ == it.seq().take(it.index() as int),
            it.seq() == text@,
    {
        chars.push(c);
    }
    chars
}

/// The string of `chars`.
pub fn text_of(chars: &[char]) -> (text: String)
    ensures
        text@ == chars@,
{
    let mut text = String::new();
    for i in 0..chars.len()
        invariant
            text@ == chars@.take(i as int),
    {
        text.push(chars[i]);
    }
    assert(chars@.take(chars@.len() as int) == chars@);
    text
}

/// Whether two strings hold the same characters.
pub fn same(left: &str, right: &str) -> (equal: bool)
    ensures
        equal == (left@ == right@),
{
    left.to_owned() == right.to_owned()
}

/// Whether `text` is one of `candidates`.
pub fn one_of(text: &str, candidates: &[&str]) -> (found: bool)
    ensures
        found == exists|i: int| 0 <= i < candidates@.len() && #[trigger] candidates@[i]@ == text@,
{
    for i in 0..candidates.len()
        invariant
            forall|j: int| 0 <= j < i ==> #[trigger] candidates@[j]@ != text@,
    {
        if same(candidates[i], text) {
            return true;
        }
    }
    false
}

/// `left` followed by `right`.
pub fn joined(left: &str, right: &str) -> (text: String)
    ensures
        text@ == left@ + right@,
{
    let mut text = left.to_owned();
    text.append(right);
    text
}

/// Whether `text` begins with `prefix`.
pub fn starts_with(text: &str, prefix: &str) -> (yes: bool)
    ensures
        yes == prefix@.is_prefix_of(text@),
{
    let whole = chars_of(text);
    let head = chars_of(prefix);
    if head.len() > whole.len() {
        return false;
    }
    for i in 0..head.len()
        invariant
            head@ == prefix@,
            whole@ == text@,
            head@.len() <= whole@.len(),
            forall|j: int| 0 <= j < i ==> head@[j] == whole@[j],
    {
        if whole[i] != head[i] {
            assert(text@.subrange(0, prefix@.len() as int)[i as int] != prefix@[i as int]);
            return false;
        }
    }
    assert(prefix@ == text@.subrange(0, prefix@.len() as int));
    true
}

/// Whether `text` ends with `suffix`.
pub fn ends_with(text: &str, suffix: &str) -> (yes: bool)
    ensures
        yes == suffix@.is_suffix_of(text@),
{
    let whole = chars_of(text);
    let end = chars_of(suffix);
    if end.len() > whole.len() {
        return false;
    }
    let offset: usize = whole.len() - end.len();
    for i in 0..end.len()
        invariant
            whole@ == text@,
            end@ == suffix@,
            offset == whole@.len() - end@.len(),
            offset + end@.len() <= usize::MAX,
            forall|k: int| 0 <= k < i ==> whole@[offset + k] == end@[k],
    {
        if whole[offset + i] != end[i] {
            assert(text@.subrange(offset as int, text@.len() as int)[i as int] == whole@[offset + i]);
            return false;
        }
    }
    assert(suffix@ =~= text@.subrange(offset as int, text@.len() as int));
    true
}

/// Whether `text` holds the character `c`.
pub fn contains_char(text: &str, c: char) -> (yes: bool)
    ensures
        yes == text@.contains(c),
{
    let chars = chars_of(text);
    for i in 0..chars.len()
        invariant
            chars@ == text@,
            forall|j: int| 0 <= j < i ==> chars@[j] != c,
    {
        if chars[i] == c {
            assert(text@[i as int] == c);
            return true;
        }
    }
    false
}

/// Whether two neighbouring characters of `text` are both `c`.
pub open spec fn has_double(text: Seq<char>, c: char) -> bool {
    exists|i: int| 0 <= i && i + 1 < text.len() && #[trigger] text[i] == c && text[i + 1] == c
}

/// Whether two neighbouring characters of `text` are both `c`.
pub fn contains_double(text: &str, c: char) -> (yes: bool)
    ensures
        yes == has_double(text@, c),
{
    let chars = chars_of(text);
    let mut i: usize = 0;
    while i < chars.len() && i + 1 < chars.len()
        invariant
            i <= chars@.len(),
            chars@ == text@,
            forall|j: int| 0 <= j < i && j + 1 < chars@.len() ==> !(#[trigger] chars@[j] == c && chars@[j + 1] == c),
        decreases chars@.len() - i,
    {
        if chars[i] == c && chars[i + 1] == c {
            assert(text@[i as int] == c);
            return true;
        }
        i += 1;
    }
    false
}

/// The position of the first `c` in `chars` at or after `from`, or the length when there is none.
pub open spec fn next_position(chars: Seq<char>, c: char, from: int) -> int
    decreases chars.len() - from,
{
    if from >= chars.len() || from < 0 {
        chars.len() as int
    } else if chars[from] == c {
        from
    } else {
        next_position(chars, c, from + 1)
    }
}

/// The position of the first `c` in `chars`, or the length when there is none.
pub fn find_char(chars: &[char], c: char) -> (position: usize)
    ensures
        position == next_position(chars@, c, 0),
        position <= chars@.len(),
        position < chars@.len() ==> chars@[position as int] == c,
        forall|j: int| 0 <= j < position ==> chars@[j] != c,
{
    let mut i: usize = 0;
    while i < chars.len()
        invariant
            i <= chars@.len(),
            next_position(chars@, c, 0) == next_position(chars@, c, i as int),
            forall|j: int| 0 <= j < i ==> chars@[j] != c,
        decreases chars@.len() - i,
    {
        if chars[i] == c {
            return i;
        }
        i += 1;
    }
    i
}

// ---------------------------------------------------------------------------------------
// Numbers as text.
// ---------------------------------------------------------------------------------------

/// The value of one hexadecimal digit, and 16 for a character that is none.
pub open spec fn digit_value(c: char) -> nat {
    if '0' <= c <= '9' {
        (c as int - '0' as int) as nat
    } else if 'a' <= c <= 'f' {
        (c as int - 'a' as int + 10) as nat
    } else if 'A' <= c <= 'F' {
        (c as int - 'A' as int + 10) as nat
    } else {
        16
    }
}

/// The value of a sequence of digits, most significant first.
pub open spec fn radix_value(digits: Seq<char>, radix: nat) -> nat
    decreases digits.len(),
{
    if digits.len() == 0 {
        0
    } else {
        radix_value(digits.drop_last(), radix) * radix + digit_value(digits.last())
    }
}

/// The digits of an unsigned number: one leading plus sign is not part of them.
pub open spec fn unsigned_digits(text: Seq<char>) -> Seq<char> {
    if text.len() > 0 && text[0] == '+' {
        text.skip(1)
    } else {
        text
    }
}

/// The unsigned number `text` spells in `radix`, when it spells one that is at most `max`: at
/// least one digit, digits only, and no more than one leading plus sign.
pub open spec fn unsigned_number(text: Seq<char>, radix: nat, max: nat) -> Option<nat> {
    let digits = unsigned_digits(text);
    if digits.len() > 0 && (forall|i: int|
        0 <= i < digits.len() ==> digit_value(#[trigger] digits[i]) < radix) && radix_value(
        digits,
        radix,
    ) <= max {
        Some(radix_value(digits, radix))
    } else {
        None
    }
}

proof fn lemma_radix_value_grows(digits: Seq<char>, radix: nat, n: int)
    requires
        0 <= n <= digits.len(),
        radix >= 1,
    ensures
        radix_value(digits.take(n), radix) <= radix_value(digits, radix),
    decreases digits.len(),
{
    if n == digits.len() {
        assert(digits.take(n) == digits);
    } else {
        lemma_radix_value_grows(digits.drop_last(), radix, n);
        assert(digits.drop_last().take(n) == digits.take(n));
        let inner = radix_value(digits.drop_last(), radix);
        assert(inner * radix >= inner) by (nonlinear_arith)
            requires
                radix >= 1,
        ;
    }
}

fn digit_of(c: char) -> (value: u64)
    ensures
        value == digit_value(c),
{
    if '0' <= c && c <= '9' {
        c as u64 - 48
    } else if 'a' <= c && c <= 'f' {
        c as u64 - 87
    } else if 'A' <= c && c <= 'F' {
        c as u64 - 55
    } else {
        16
    }
}

/// The unsigned number that `text` spells in `radix`, when it is at most `max`.
pub fn parse_unsigned(text: &[char], radix: u64, max: u64) -> (number: Option<u64>)
    requires
        2 <= radix <= 16,
    ensures
        match number {
            Some(n) => unsigned_number(text@, radix as nat, max as nat) == Some(n as nat),
            None => unsigned_number(text@, radix as nat, max as nat) is None,
        },
{
    let start: usize = if text.len() > 0 && text[0] == '+' { 1 } else { 0 };
    let ghost digits = unsigned_digits(text@);
    assert(digits == text@.skip(start as int));
    if text.len() == start {
        return None;
    }
    let mut value: u64 = 0;
    let mut i: usize = start;
    while i < text.len()
        invariant
            start <= i <= text@.len(),
            start < text@.len(),
            digits == text@.skip(start as int),
            digits == unsigned_digits(text@),
            2 <= radix <= 16,
            value == radix_value(digits.take(i - start), radix as nat),
            value <= max,
            forall|j: int| 0 <= j < i - start ==> digit_value(#[trigger] digits[j]) < radix,
        decreases text@.len() - i,
    {
        let digit: u64 = digit_of(text[i]);
        let ghost k = i - start;
        assert(digits[k] == text@[i as int]);
        if digit >= radix {
            assert(!(digit_value(digits[k]) < radix));
            return None;
        }
        assert(digits.take(k + 1).drop_last() == digits.take(k));
        assert(digits.take(k + 1).last() == digits[k]);
        let ghost next = value * radix + digit;
        assert(next == radix_value(digits.take(k + 1), radix as nat));
        proof {
            lemma_radix_value_grows(digits, radix as nat, k + 1);
        }
        match value.checked_mul(radix) {
            None => {
                return None;
            },
            Some(scaled) => match scaled.checked_add(digit) {
                None => {
                    return None;
                },
                Some(sum) => {
                    if sum > max {
                        return None;
                    }
                    value = sum;
                },
            },
        }
        i += 1;
    }
    assert(digits.take(digits.len() as int) == digits);
    Some(value)
}

/// The decimal digit of a value below ten.
pub open spec fn digit_char(value: nat) -> char {
    (value + '0' as nat) as char
}

/// The decimal text of `n`, without leading zeros.
pub open spec fn decimal(n: nat) -> Seq<char>
    decreases n,
{
    if n < 10 {
        seq![digit_char(n)]
    } else {
        decimal(n / 10).push(digit_char(n % 10))
    }
}

/// The decimal text of an integer, with a leading minus sign when it is negative.
pub open spec fn signed_decimal(n: int) -> Seq<char> {
    if n < 0 {
        seq!['-'] + decimal((-n) as nat)
    } else {
        decimal(n as nat)
    }
}

/// The decimal text of `n`.
pub fn decimal_text(n: u64) -> (text: String)
    ensures
        text@ == decimal(n as nat),
    decreases n,
{
    if n < 10 {
        let mut text = String::new();
        text.push((48u8 + n as u8) as char);
        assert(text@ == seq![digit_char(n as nat)]);
        text
    } else {
        let mut text = decimal_text(n / 10);
        text.push((48u8 + (n % 10) as u8) as char);
        text
    }
}

/// The decimal text of a signed integer.
pub fn signed_text(n: i32) -> (text: String)
    ensures
        text@ == signed_decimal(n as int),
{
    if n < 0 {
        let mut text = String::new();
        text.push('-');
        let wide: i64 = n as i64;
        let magnitude = decimal_text((-wide) as u64);
        text.append(magnitude.as_str());
        assert(text@ == seq!['-'] + decimal((-n) as nat));
        text
    } else {
        decimal_text(n as u64)
    }
}

proof fn lemma_decimal_digits(n: nat)
    ensures
        decimal(n).len() > 0,
        forall|i: int| 0 <= i < decimal(n).len() ==> '0' <= #[trigger] decimal(n)[i] <= '9',
        radix_value(decimal(n), 10) == n,
    decreases n,
{
    if n < 10 {
        assert(decimal(n).drop_last() == Seq::<char>::empty());
        assert(decimal(n).last() == digit_char(n));
        assert(radix_value(Seq::<char>::empty(), 10) == 0);
    } else {
        lemma_decimal_digits(n / 10);
        assert(decimal(n).drop_last() == decimal(n / 10));
        assert(decimal(n).last() == digit_char(n % 10));
    }
}

/// Reading back the decimal text of a number gives the number, whatever bound admits it.
pub proof fn decimal_text_reads_back(n: nat, max: nat)
    requires
        n <= max,
    ensures
        unsigned_number(decimal(n), 10, max) == Some(n),
{
    lemma_decimal_digits(n);
    assert(unsigned_digits(decimal(n)) == decimal(n));
}

/// Two numbers with the same decimal text are equal.
pub proof fn decimal_text_is_injective(left: nat, right: nat)
    requires
        decimal(left) == decimal(right),
    ensures
        left == right,
{
    lemma_decimal_digits(left);
    lemma_decimal_digits(right);
}

/// The lower-case hexadecimal digit of a value below sixteen.
pub open spec fn hex_char(value: nat) -> char {
    if value < 10 {
        (value + '0' as nat) as char
    } else {
        (value - 10 + 'a' as nat) as char
    }
}

/// Two lower-case hexadecimal digits per byte.
pub open spec fn hex_text(bytes: Seq<u8>) -> Seq<char> {
    Seq::new(
        2 * bytes.len(),
        |i: int|
            if i % 2 == 0 {
                hex_char((bytes[i / 2] / 16) as nat)
            } else {
                hex_char((bytes[i / 2] % 16) as nat)
            },
    )
}

/// Whether every character is a lower-case hexadecimal digit.
pub open spec fn is_lower_hex(text: Seq<char>) -> bool {
    forall|i: int|
        0 <= i < text.len() ==> '0' <= #[trigger] text[i] <= '9' || 'a' <= text[i] <= 'f'
}

/// The hexadecimal digit of a value below sixteen.
pub fn hex_digit(value: u8) -> (c: char)
    requires
        value < 16,
    ensures
        c == hex_char(value as nat),
{
    if value < 10 {
        (48u8 + value) as char
    } else {
        (87u8 + value) as char
    }
}

/// The lower-case hexadecimal text of `bytes`.
pub fn hex_of(bytes: &[u8]) -> (text: String)
    ensures
        text@ == hex_text(bytes@),
{
    let mut text = String::new();
    for i in 0..bytes.len()
        invariant
            text@ == hex_text(bytes@.take(i as int)),
    {
        text.push(hex_digit(bytes[i] / 16));
        text.push(hex_digit(bytes[i] % 16));
        assert(text@ == hex_text(bytes@.take(i + 1)));
    }
    assert(bytes@.take(bytes@.len() as int) == bytes@);
    text
}

// ---------------------------------------------------------------------------------------
// Lists of texts.
// ---------------------------------------------------------------------------------------

/// The texts a sequence of strings stands for.
pub open spec fn texts(strings: Seq<String>) -> Seq<Seq<char>> {
    Seq::new(strings.len(), |i: int| strings[i]@)
}

/// The texts a sequence of string slices stands for.
pub open spec fn slices(strings: Seq<&str>) -> Seq<Seq<char>> {
    Seq::new(strings.len(), |i: int| strings[i]@)
}

/// The text an optional string stands for.
pub open spec fn optional_text(text: Option<String>) -> Option<Seq<char>> {
    match text {
        Some(text) => Some(text@),
        None => None,
    }
}

/// Owns every slice of a list.
pub fn owned_texts(parts: &[&str]) -> (owned: Vec<String>)
    ensures
        texts(owned@) == slices(parts@),
{
    let mut owned: Vec<String> = Vec::new();
    for i in 0..parts.len()
        invariant
            owned@.len() == i,
            forall|k: int| 0 <= k < i ==> (#[trigger] owned@[k])@ == parts@[k]@,
    {
        owned.push(parts[i].to_owned());
    }
    assert(texts(owned@) =~= slices(parts@));
    owned
}

/// Copies a list of strings.
pub fn copied_texts(parts: &[String]) -> (copied: Vec<String>)
    ensures
        texts(copied@) == texts(parts@),
{
    let mut copied: Vec<String> = Vec::new();
    for i in 0..parts.len()
        invariant
            copied@.len() == i,
            forall|k: int| 0 <= k < i ==> (#[trigger] copied@[k])@ == parts@[k]@,
    {
        copied.push(parts[i].as_str().to_owned());
    }
    assert(texts(copied@) =~= texts(parts@));
    copied
}

/// Copies an optional string.
pub fn copied_text(text: &Option<String>) -> (copied: Option<String>)
    ensures
        optional_text(copied) == optional_text(*text),
{
    match text {
        Some(text) => Some(text.as_str().to_owned()),
        None => None,
    }
}

// ---------------------------------------------------------------------------------------
// Laws.
// ---------------------------------------------------------------------------------------

/// Each digit stands for its own value, and the letters follow the digits in either case.
pub proof fn each_digit_stands_for_its_value(value: nat)
    ensures
        value < 10 ==> digit_value(digit_char(value)) == value && '0' <= digit_char(value) <= '9',
        value < 16 ==> digit_value(hex_char(value)) == value,
        10 <= value < 16 ==> 'a' <= hex_char(value) <= 'f',
        digit_char(0) == '0' && digit_char(9) == '9',
        digit_value('A') == 10 && digit_value('F') == 15,
        digit_value('g') == 16 && digit_value('G') == 16 && digit_value('-') == 16 && digit_value(
            '+',
        ) == 16 && digit_value(' ') == 16,
{
}

/// One more decimal digit makes a number ten times as large, and adds the digit.
pub proof fn one_more_digit_counts_tenfold(n: nat, digit: nat)
    requires
        n > 0,
        digit < 10,
    ensures
        decimal(10 * n + digit) == decimal(n).push(digit_char(digit)),
        decimal(digit) == seq![digit_char(digit)],
{
    assert((10 * n + digit) / 10 == n);
    assert((10 * n + digit) % 10 == digit);
}

/// A number is spelled by digits alone, behind one plus sign at most, and is never larger than the
/// bound that it is read with.
pub proof fn a_number_is_digits_alone(text: &[char], max: u64, number: Option<u64>)
    requires
        call_ensures(parse_unsigned, (text, 10, max), number),
    ensures
        text@.len() == 0 ==> number is None,
        text@ == seq!['+'] ==> number is None,
        text@.len() > 0 && text@[0] == '-' ==> number is None,
        number matches Some(n) ==> n <= max && forall|i: int|
            1 <= i < text@.len() ==> '0' <= #[trigger] text@[i] <= '9',
        number is Some ==> '0' <= text@[0] <= '9' || text@[0] == '+',
{
    let digits = unsigned_digits(text@);
    if number is Some {
        assert forall|i: int| 1 <= i < text@.len() implies '0' <= #[trigger] text@[i] <= '9' by {
            if text@[0] == '+' {
                assert(digit_value(digits[i - 1]) < 10);
            } else {
                assert(digit_value(digits[i]) < 10);
            }
        }
        if text@[0] != '+' {
            assert(digit_value(digits[0]) < 10);
        }
    }
    if text@.len() > 0 && text@[0] == '-' {
        assert(digit_value(digits[0]) == 16);
    }
}

/// Each byte can be read back from its two digits, the more significant one first.
pub proof fn hexadecimal_text_reads_back(bytes: &[u8], text: String, i: int)
    requires
        call_ensures(hex_of, (bytes,), text),
        0 <= i < bytes@.len(),
    ensures
        text@.len() == 2 * bytes@.len(),
        digit_value(text@[2 * i]) * 16 + digit_value(text@[2 * i + 1]) == bytes@[i],
        is_lower_hex(text@),
{
    assert(2 * i / 2 == i && (2 * i + 1) / 2 == i);
    assert forall|k: int| 0 <= k < text@.len() implies '0' <= #[trigger] text@[k] <= '9' || 'a'
        <= text@[k] <= 'f' by {
        assert(bytes@[k / 2] / 16 < 16);
    }
}

} // verus!
