//! White space in texts, and the words between it.

use crate::text::{chars_of, text_of};
use vstd::prelude::*;

verus! {

/// Whether a character is white space.
pub open spec fn is_white_space(c: char) -> bool {
    let n = c as int;
    9 <= n <= 13 || n == 0x20 || n == 0x85 || n == 0xa0 || n == 0x1680 || 0x2000 <= n <= 0x200a || n
        == 0x2028 || n == 0x2029 || n == 0x202f || n == 0x205f || n == 0x3000
}

fn white(c: char) -> (yes: bool)
    ensures
        yes == is_white_space(c),
{
    let n: u32 = c as u32;
    (9 <= n && n <= 13) || n == 0x20 || n == 0x85 || n == 0xa0 || n == 0x1680 || (0x2000 <= n && n
        <= 0x200a) || n == 0x2028 || n == 0x2029 || n == 0x202f || n == 0x205f || n == 0x3000
}

/// The first position at or after `from` whose character is white space, or is not, as `wanted`
/// says; or the length.
pub open spec fn next_space(chars: Seq<char>, from: int, wanted: bool) -> int
    decreases chars.len() - from,
{
    if from >= chars.len() {
        chars.len() as int
    } else if is_white_space(chars[from]) == wanted {
        from
    } else {
        next_space(chars, from + 1, wanted)
    }
}

/// The word number `n` at or after `from`, counted from zero.
pub open spec fn nth_word(chars: Seq<char>, from: int, n: nat) -> Option<Seq<char>>
    decreases n,
{
    let start = next_space(chars, from, false);
    let end = next_space(chars, start, true);
    if start >= chars.len() {
        None
    } else if n == 0 {
        Some(chars.subrange(start, end))
    } else {
        nth_word(chars, end, (n - 1) as nat)
    }
}

pub fn find_space(chars: &[char], from: usize, wanted: bool) -> (position: usize)
    requires
        from <= chars@.len(),
    ensures
        position == next_space(chars@, from as int, wanted),
        from <= position <= chars@.len(),
{
    let mut position: usize = from;
    while position < chars.len() && white(chars[position]) != wanted
        invariant
            from <= position <= chars@.len(),
            next_space(chars@, from as int, wanted) == next_space(chars@, position as int, wanted),
        decreases chars@.len() - position,
    {
        position += 1;
    }
    position
}

pub fn find_word(chars: &[char], from: usize, n: usize) -> (word: Option<(usize, usize)>)
    requires
        from <= chars@.len(),
    ensures
        match word {
            Some((start, end)) => start <= end <= chars@.len() && nth_word(
                chars@,
                from as int,
                n as nat,
            ) == Some(chars@.subrange(start as int, end as int)),
            None => nth_word(chars@, from as int, n as nat) is None,
        },
    decreases n,
{
    let start: usize = find_space(chars, from, false);
    let end: usize = find_space(chars, start, true);
    if start >= chars.len() {
        None
    } else if n == 0 {
        Some((start, end))
    } else {
        find_word(chars, end, n - 1)
    }
}

/// A text without the white space around it.
pub open spec fn trimmed_chars(text: Seq<char>) -> Seq<char> {
    let start = next_space(text, 0, false);
    text.subrange(start, start + last_word_end(text.skip(start)))
}

/// The length of a text without the white space after it.
pub open spec fn last_word_end(text: Seq<char>) -> int
    decreases text.len(),
{
    if text.len() == 0 {
        0
    } else if is_white_space(text.last()) {
        last_word_end(text.drop_last())
    } else {
        text.len() as int
    }
}

/// A text without the white space around it.
pub fn trimmed_text(text: &str) -> (trimmed: String)
    ensures
        trimmed@ == trimmed_chars(text@),
{
    let chars = chars_of(text);
    let start: usize = find_space(chars.as_slice(), 0, false);
    let ghost rest = text@.skip(start as int);
    let mut end: usize = chars.len();
    assert(rest.take(end - start) =~= rest);
    while end > start && white(chars[end - 1])
        invariant
            start <= end <= chars@.len(),
            chars@ == text@,
            rest == text@.skip(start as int),
            last_word_end(rest) == last_word_end(rest.take(end - start)),
        decreases end,
    {
        assert(rest.take(end - start).drop_last() =~= rest.take(end - start - 1));
        assert(rest.take(end - start).last() == chars@[end - 1]);
        end -= 1;
    }
    proof {
        if end > start {
            assert(rest.take(end - start).last() == chars@[end - 1]);
        }
        assert(last_word_end(rest) == end - start);
    }
    text_of(vstd::slice::slice_subrange(chars.as_slice(), start, end))
}

// ---------------------------------------------------------------------------------------
// Laws.
// ---------------------------------------------------------------------------------------

/// Among the characters of ASCII the space, the tab and the line breaks are white space, and
/// nothing else is.
pub proof fn ascii_white_space(c: char)
    requires
        c as int <= 127,
    ensures
        is_white_space(c) <==> c == ' ' || c == '\t' || c == '\n' || c == '\r' || c == '\u{b}' || c
            == '\u{c}',
{
}

/// Whether a text is one word: visible characters of ASCII, at least one.
pub open spec fn is_word(text: Seq<char>) -> bool {
    text.len() > 0 && forall|i: int| 0 <= i < text.len() ==> '!' <= #[trigger] text[i] <= '~'
}

/// Words, each with a space before it.
pub open spec fn spaced(words: Seq<Seq<char>>) -> Seq<char>
    decreases words.len(),
{
    if words.len() == 0 {
        Seq::empty()
    } else {
        seq![' '] + words[0] + spaced(words.skip(1))
    }
}

proof fn lemma_next_space_behind(front: Seq<char>, back: Seq<char>, from: int, wanted: bool)
    requires
        0 <= from <= back.len(),
    ensures
        next_space(front + back, front.len() + from, wanted) == front.len() + next_space(
            back,
            from,
            wanted,
        ),
        from <= next_space(back, from, wanted) <= back.len(),
    decreases back.len() - from,
{
    if from < back.len() {
        assert((front + back)[front.len() + from] == back[from]);
        lemma_next_space_behind(front, back, from + 1, wanted);
    }
}

proof fn lemma_next_space_at(chars: Seq<char>, from: int, at: int, wanted: bool)
    requires
        0 <= from <= at <= chars.len(),
        forall|i: int| from <= i < at ==> is_white_space(#[trigger] chars[i]) != wanted,
        at == chars.len() || is_white_space(chars[at]) == wanted,
    ensures
        next_space(chars, from, wanted) == at,
    decreases at - from,
{
    if from < at {
        assert(is_white_space(chars[from]) != wanted);
        lemma_next_space_at(chars, from + 1, at, wanted);
    }
}

/// What stands before the place where the words are counted from does not matter.
pub proof fn words_behind(front: Seq<char>, back: Seq<char>, from: int, n: nat)
    requires
        0 <= from <= back.len(),
    ensures
        nth_word(front + back, front.len() + from, n) == nth_word(back, from, n),
    decreases n,
{
    let start = next_space(back, from, false);
    lemma_next_space_behind(front, back, from, false);
    lemma_next_space_behind(front, back, start, true);
    let end = next_space(back, start, true);
    assert((front + back).subrange(front.len() + start, front.len() + end) =~= back.subrange(
        start,
        end,
    ));
    if n > 0 && start < back.len() {
        words_behind(front, back, end, (n - 1) as nat);
    }
}

/// Each of some words with a space before it is found by its number, and there is no word after
/// the last of them.
pub proof fn words_are_found_in_order(words: Seq<Seq<char>>, n: nat)
    requires
        n <= words.len(),
        forall|i: int| 0 <= i < words.len() ==> is_word(#[trigger] words[i]),
    ensures
        n < words.len() ==> nth_word(spaced(words), 0, n) == Some(words[n as int]),
        n == words.len() ==> nth_word(spaced(words), 0, n) is None,
    decreases words.len(),
{
    if words.len() > 0 {
        let word = words[0];
        let rest = spaced(words.skip(1));
        let text = spaced(words);
        assert(is_word(word));
        assert forall|i: int| 1 <= i < 1 + word.len() implies is_white_space(#[trigger] text[i])
            == false by {
            assert(text[i] == word[i - 1]);
            assert('!' <= word[i - 1] <= '~');
        }
        if words.len() > 1 {
            assert(words.skip(1)[0] == words[1]);
            assert(rest[0] == ' ');
            assert(text[1 + word.len() as int] == rest[0]);
        } else {
            assert(rest.len() == 0);
        }
        assert(text[0] == ' ');
        lemma_next_space_at(text, 0, 1, false);
        lemma_next_space_at(text, 1, 1 + word.len() as int, true);
        assert(text.subrange(1, 1 + word.len() as int) =~= word);
        if n > 0 {
            let front = seq![' '] + word;
            assert forall|i: int| 0 <= i < words.skip(1).len() implies is_word(
                #[trigger] words.skip(1)[i],
            ) by {
                assert(words.skip(1)[i] == words[i + 1]);
            }
            words_behind(front, rest, 0, (n - 1) as nat);
            words_are_found_in_order(words.skip(1), (n - 1) as nat);
            if n < words.len() {
                assert(words.skip(1)[n - 1] == words[n as int]);
            }
        }
    }
}

proof fn lemma_spaces_before(text: Seq<char>, from: int, i: int)
    requires
        0 <= from <= i < next_space(text, from, false),
        i < text.len(),
    ensures
        is_white_space(text[i]),
    decreases text.len() - from,
{
    if from < i && is_white_space(text[from]) {
        lemma_spaces_before(text, from + 1, i);
    }
}

proof fn lemma_spaces_after(text: Seq<char>, i: int)
    requires
        last_word_end(text) <= i < text.len(),
    ensures
        is_white_space(text[i]),
    decreases text.len(),
{
    lemma_last_word_end(text);
    if i < text.len() - 1 {
        assert(text.drop_last()[i] == text[i]);
        lemma_spaces_after(text.drop_last(), i);
    }
}

proof fn lemma_last_word_end(text: Seq<char>)
    ensures
        0 <= last_word_end(text) <= text.len(),
        last_word_end(text) > 0 ==> !is_white_space(text[last_word_end(text) - 1]),
    decreases text.len(),
{
    if text.len() > 0 && is_white_space(text.last()) {
        lemma_last_word_end(text.drop_last());
        if last_word_end(text) > 0 {
            assert(text.drop_last()[last_word_end(text) - 1] == text[last_word_end(text) - 1]);
        }
    }
}

proof fn lemma_next_word(text: Seq<char>, from: int)
    requires
        0 <= from <= text.len(),
    ensures
        from <= next_space(text, from, false) <= text.len(),
        next_space(text, from, false) < text.len() ==> !is_white_space(
            text[next_space(text, from, false)],
        ),
    decreases text.len() - from,
{
    if from < text.len() && is_white_space(text[from]) {
        lemma_next_word(text, from + 1);
    }
}

/// Trimming takes away the white space around a text and nothing else.
pub proof fn trimming_takes_away_white_space_alone(text: &str, trimmed: String)
    requires
        call_ensures(trimmed_text, (text,), trimmed),
    ensures
        trimmed@.len() > 0 ==> !is_white_space(trimmed@[0]) && !is_white_space(trimmed@.last()),
        exists|before: Seq<char>, after: Seq<char>|
            {
                &&& text@ == #[trigger] (before + trimmed@ + after)
                &&& forall|i: int| 0 <= i < before.len() ==> is_white_space(#[trigger] before[i])
                &&& forall|i: int| 0 <= i < after.len() ==> is_white_space(#[trigger] after[i])
            },
{
    let chars = text@;
    let start = next_space(chars, 0, false);
    lemma_next_word(chars, 0);
    let rest = chars.skip(start);
    lemma_last_word_end(rest);
    let end = start + last_word_end(rest);
    let before = chars.take(start);
    let after = chars.skip(end);
    assert(chars =~= before + trimmed@ + after);
    assert forall|i: int| 0 <= i < before.len() implies is_white_space(#[trigger] before[i]) by {
        lemma_spaces_before(chars, 0, i);
    }
    assert forall|i: int| 0 <= i < after.len() implies is_white_space(#[trigger] after[i]) by {
        lemma_spaces_after(rest, last_word_end(rest) + i);
        assert(after[i] == rest[last_word_end(rest) + i]);
    }
    if trimmed@.len() > 0 {
        assert(trimmed@[0] == chars[start]);
        assert(trimmed@.last() == rest[last_word_end(rest) - 1]);
    }
}

} // verus!
