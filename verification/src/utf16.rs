//! Lengths in UTF-16 code units, the unit in which Telegram measures text.
use vstd::prelude::*;

verus! {

/// The number of UTF-16 code units of a character.
pub open spec fn units(c: char) -> nat {
    if c as u32 >= 0x10000 {
        2
    } else {
        1
    }
}

/// The number of UTF-16 code units of a text.
pub open spec fn utf16_len(text: Seq<char>) -> nat
    decreases text.len(),
{
    if text.len() == 0 {
        0
    } else {
        utf16_len(text.drop_last()) + units(text.last())
    }
}

/// The longest prefix of `text` that takes at most `limit` code units.
pub open spec fn fitting_prefix(text: Seq<char>, limit: nat) -> Seq<char>
    decreases text.len(),
{
    if text.len() == 0 || utf16_len(text) <= limit {
        text
    } else {
        fitting_prefix(text.drop_last(), limit)
    }
}

/// A concatenation takes as many code units as its parts.
pub proof fn lemma_len_add(a: Seq<char>, b: Seq<char>)
    ensures
        utf16_len(a + b) == utf16_len(a) + utf16_len(b),
    decreases b.len(),
{
    if b.len() == 0 {
        assert(a + b == a);
    } else {
        assert((a + b).drop_last() == a + b.drop_last());
        lemma_len_add(a, b.drop_last());
    }
}

/// A text takes between one and two code units per character.
pub proof fn lemma_len_bounds(text: Seq<char>)
    ensures
        text.len() <= utf16_len(text) <= 2 * text.len(),
    decreases text.len(),
{
    if text.len() > 0 {
        lemma_len_bounds(text.drop_last());
    }
}

/// A longer prefix takes at least as many code units.
pub proof fn lemma_len_prefix(text: Seq<char>, end: int)
    requires
        0 <= end <= text.len(),
    ensures
        utf16_len(text.take(end)) <= utf16_len(text),
{
    assert(text == text.take(end) + text.skip(end));
    lemma_len_add(text.take(end), text.skip(end));
}

/// A fitting prefix is a prefix, and it fits.
pub proof fn lemma_fitting_prefix(text: Seq<char>, limit: nat)
    ensures
        fitting_prefix(text, limit).len() <= text.len(),
        fitting_prefix(text, limit) == text.take(fitting_prefix(text, limit).len() as int),
        utf16_len(fitting_prefix(text, limit)) <= limit,
    decreases text.len(),
{
    if text.len() == 0 || utf16_len(text) <= limit {
        assert(text.take(text.len() as int) == text);
    } else {
        lemma_fitting_prefix(text.drop_last(), limit);
        let n = fitting_prefix(text.drop_last(), limit).len() as int;
        assert(text.drop_last().take(n) == text.take(n));
    }
}

/// The fitting prefix ends where one more character would exceed the limit.
pub proof fn lemma_fitting_prefix_is(text: Seq<char>, limit: nat, end: int)
    requires
        0 <= end <= text.len(),
        utf16_len(text.take(end)) <= limit,
        end < text.len() ==> utf16_len(text.take(end + 1)) > limit,
    ensures
        fitting_prefix(text, limit) == text.take(end),
    decreases text.len(),
{
    if end == text.len() {
        assert(text.take(end) == text);
    } else {
        lemma_len_prefix(text, end + 1);
        let shorter = text.drop_last();
        assert(shorter.take(end) == text.take(end));
        if end < shorter.len() {
            assert(shorter.take(end + 1) == text.take(end + 1));
        }
        lemma_fitting_prefix_is(shorter, limit, end);
    }
}

/// The number of code units of `text`.
pub fn count_units(text: &str) -> (count: u128)
    ensures
        count == utf16_len(text@),
{
    let chars = crate::text::chars_of(text);
    proof {
        lemma_len_bounds(text@);
        assert(chars@.take(chars@.len() as int) == chars@);
    }
    let mut count: u128 = 0;
    let mut i: usize = 0;
    while i < chars.len()
        invariant
            i <= chars@.len(),
            count == utf16_len(chars@.take(i as int)),
            count <= 2 * i,
        decreases chars@.len() - i,
    {
        assert(chars@.take(i + 1).drop_last() == chars@.take(i as int));
        count = count + (if chars[i] as u32 >= 0x10000 { 2u128 } else { 1u128 });
        i = i + 1;
    }
    assert(chars@.take(i as int) == chars@);
    count
}

/// The length of `text` as Telegram's signed 32-bit integer, where it fits.
pub fn utf16_i32_len(text: &str) -> (length: Option<i32>)
    ensures
        length == (if utf16_len(text@) <= i32::MAX {
            Some(utf16_len(text@) as i32)
        } else {
            None
        }),
{
    let count: u128 = count_units(text);
    if count <= 0x7fff_ffff {
        Some(count as i32)
    } else {
        None
    }
}

/// Where the fitting prefix of `chars` ends.
pub fn fitting_end(chars: &Vec<char>, limit: u128) -> (end: usize)
    ensures
        end <= chars@.len(),
        chars@.take(end as int) == fitting_prefix(chars@, limit as nat),
{
    let mut used: u128 = 0;
    let mut end: usize = 0;
    while end < chars.len()
        invariant
            end <= chars@.len(),
            used == utf16_len(chars@.take(end as int)),
            used <= limit,
            used <= 2 * end,
        decreases chars@.len() - end,
    {
        assert(chars@.take(end + 1).drop_last() == chars@.take(end as int));
        let next: u128 = used + (if chars[end] as u32 >= 0x10000 { 2u128 } else { 1u128 });
        if next > limit {
            proof {
                lemma_fitting_prefix_is(chars@, limit as nat, end as int);
            }
            return end;
        }
        used = next;
        end = end + 1;
    }
    proof {
        lemma_fitting_prefix_is(chars@, limit as nat, end as int);
    }
    end
}

} // verus!
