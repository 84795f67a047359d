//! Character-level text primitives shared by the rest of the library.
//!
//! Strings are modelled as sequences of characters.
use vstd::prelude::*;
use vstd::string::*;

verus! {

/// `String::push` appends exactly the given character.
pub assume_specification[ String::push ](s: &mut String, c: char)
    ensures
        final(s)@ == old(s)@.push(c),
;

/// The characters of `s`, in order.
pub fn chars_of(s: &str) -> (chars: Vec<char>)
    ensures
        chars@ == s@,
{
    let mut chars: Vec<char> = Vec::new();
    for c in it: s.chars()
        invariant
            chars@ == s@.take(it.index()),
            it.seq() == s@,
    {
        assert(s@.take(it.index() + 1) == s@.take(it.index()).push(c));
        chars.push(c);
    }
    assert(s@.take(s@.len() as int) == s@);
    chars
}

/// The string made of the characters `chars[from..to]`.
pub fn string_of(chars: &Vec<char>, from: usize, to: usize) -> (s: String)
    requires
        from <= to <= chars@.len(),
    ensures
        s@ == chars@.subrange(from as int, to as int),
{
    let mut s = String::new();
    let mut i: usize = from;
    while i < to
        invariant
            from <= i <= to <= chars@.len(),
            s@ == chars@.subrange(from as int, i as int),
        decreases to - i,
    {
        assert(chars@.subrange(from as int, i + 1) == chars@.subrange(from as int, i as int).push(
            chars@[i as int],
        ));
        s.push(chars[i]);
        i = i + 1;
    }
    s
}

/// Whether `needle` occurs in `text` at index `at`.
pub open spec fn occurs_at(text: Seq<char>, needle: Seq<char>, at: int) -> bool {
    &&& 0 <= at
    &&& at + needle.len() <= text.len()
    &&& text.subrange(at, at + needle.len()) == needle
}

/// Decides [`occurs_at`].
pub fn matches_at(text: &Vec<char>, needle: &Vec<char>, at: usize) -> (found: bool)
    requires
        at <= text@.len(),
    ensures
        found == occurs_at(text@, needle@, at as int),
{
    if needle.len() > text.len() - at {
        return false;
    }
    let total: usize = text.len();
    let mut i: usize = 0;
    while i < needle.len()
        invariant
            i <= needle@.len(),
            at + needle@.len() <= text@.len(),
            text@.len() == total,
            forall|j: int| 0 <= j < i ==> text@[at + j] == needle@[j],
        decreases needle@.len() - i,
    {
        if text[at + i] != needle[i] {
            assert(text@.subrange(at as int, at + needle@.len())[i as int] != needle@[i as int]);
            return false;
        }
        i = i + 1;
    }
    assert(text@.subrange(at as int, at + needle@.len()) == needle@);
    true
}

/// Whether two texts hold the same characters.
pub fn same_text(a: &str, b: &str) -> (same: bool)
    ensures
        same == (a@ == b@),
{
    let x = chars_of(a);
    let y = chars_of(b);
    if x.len() != y.len() {
        return false;
    }
    let found = matches_at(&x, &y, 0);
    proof {
        assert(x@.subrange(0, x@.len() as int) == x@);
    }
    found
}

/// Whether a text comes before another by the code points of its characters; a text comes before its
/// continuations.
pub open spec fn precedes(a: Seq<char>, b: Seq<char>) -> bool
    decreases a.len(),
{
    if a.len() == 0 || b.len() == 0 {
        a.len() < b.len()
    } else if a[0] != b[0] {
        a[0] < b[0]
    } else {
        precedes(a.skip(1), b.skip(1))
    }
}

/// [`precedes`], computed.
pub fn comes_before(a: &str, b: &str) -> (before: bool)
    ensures
        before == precedes(a@, b@),
{
    let x = chars_of(a);
    let y = chars_of(b);
    let mut i: usize = 0;
    assert(x@.skip(0) == x@ && y@.skip(0) == y@);
    while i < x.len() && i < y.len()
        invariant
            i <= x@.len(),
            i <= y@.len(),
            x@ == a@,
            y@ == b@,
            precedes(x@, y@) == precedes(x@.skip(i as int), y@.skip(i as int)),
        decreases x@.len() - i,
    {
        if x[i] != y[i] {
            return x[i] < y[i];
        }
        assert(x@.skip(i as int).skip(1) == x@.skip(i + 1));
        assert(y@.skip(i as int).skip(1) == y@.skip(i + 1));
        i = i + 1;
    }
    i < y.len()
}

/// Of two different texts one comes before the other.
pub proof fn texts_are_ordered(a: Seq<char>, b: Seq<char>)
    ensures
        a != b <==> precedes(a, b) || precedes(b, a),
        !(precedes(a, b) && precedes(b, a)),
    decreases a.len(),
{
    if a.len() > 0 && b.len() > 0 {
        texts_are_ordered(a.skip(1), b.skip(1));
        assert(a == seq![a[0]] + a.skip(1));
        assert(b == seq![b[0]] + b.skip(1));
    } else if a.len() == b.len() {
        assert(a == b);
    }
}

/// What comes before a text comes before everything that the text comes before.
pub proof fn text_order_is_transitive(a: Seq<char>, b: Seq<char>, c: Seq<char>)
    requires
        precedes(a, b),
        precedes(b, c),
    ensures
        precedes(a, c),
    decreases a.len(),
{
    if a.len() > 0 && b.len() > 0 && c.len() > 0 && a[0] == b[0] && b[0] == c[0] {
        text_order_is_transitive(a.skip(1), b.skip(1), c.skip(1));
    }
}

/// The first `count` characters of `s`, or all of them where there are fewer.
pub open spec fn first_chars(s: Seq<char>, count: nat) -> Seq<char> {
    if s.len() <= count {
        s
    } else {
        s.take(count as int)
    }
}

/// [`first_chars`] as a string.
pub fn take_chars(s: &str, count: usize) -> (prefix: String)
    ensures
        prefix@ == first_chars(s@, count as nat),
{
    let chars = chars_of(s);
    if chars.len() <= count {
        assert(chars@.subrange(0, chars@.len() as int) == chars@);
        string_of(&chars, 0, chars.len())
    } else {
        string_of(&chars, 0, count)
    }
}

/// The Unicode `White_Space` property.
pub open spec fn white_space(c: char) -> bool {
    let code = c as u32;
    ||| 0x9 <= code <= 0xd
    ||| code == 0x20
    ||| code == 0x85
    ||| code == 0xa0
    ||| code == 0x1680
    ||| 0x2000 <= code <= 0x200a
    ||| code == 0x2028
    ||| code == 0x2029
    ||| code == 0x202f
    ||| code == 0x205f
    ||| code == 0x3000
}

/// Decides [`white_space`].
pub fn is_white_space(c: char) -> (yes: bool)
    ensures
        yes == white_space(c),
{
    let code: u32 = c as u32;
    (0x9 <= code && code <= 0xd) || code == 0x20 || code == 0x85 || code == 0xa0 || code == 0x1680
        || (0x2000 <= code && code <= 0x200a) || code == 0x2028 || code == 0x2029 || code == 0x202f
        || code == 0x205f || code == 0x3000
}

/// The control characters: the general category `Cc`.
pub open spec fn control(c: char) -> bool {
    (c as u32) < 0x20 || 0x7f <= c as u32 <= 0x9f
}

/// Decides [`control`].
pub fn is_control(c: char) -> (yes: bool)
    ensures
        yes == control(c),
{
    let code: u32 = c as u32;
    code < 0x20 || (0x7f <= code && code <= 0x9f)
}

/// The characters that change the direction of the text around them.
pub open spec fn bidi_control(c: char) -> bool {
    let code = c as u32;
    ||| code == 0x061c
    ||| code == 0x200e
    ||| code == 0x200f
    ||| 0x202a <= code <= 0x202e
    ||| 0x2066 <= code <= 0x2069
}

/// Decides [`bidi_control`].
pub fn is_bidi_control(c: char) -> (yes: bool)
    ensures
        yes == bidi_control(c),
{
    let code: u32 = c as u32;
    code == 0x061c || code == 0x200e || code == 0x200f || (0x202a <= code && code <= 0x202e) || (
    0x2066 <= code && code <= 0x2069)
}

/// The letters `a` to `z` and `A` to `Z`.
pub open spec fn ascii_letter(c: char) -> bool {
    ('a' <= c && c <= 'z') || ('A' <= c && c <= 'Z')
}

/// Decides [`ascii_letter`].
pub fn is_ascii_letter(c: char) -> (yes: bool)
    ensures
        yes == ascii_letter(c),
{
    ('a' <= c && c <= 'z') || ('A' <= c && c <= 'Z')
}

/// `text` without the white space at its start.
pub open spec fn trimmed_start(text: Seq<char>) -> Seq<char>
    decreases text.len(),
{
    if text.len() > 0 && white_space(text[0]) {
        trimmed_start(text.skip(1))
    } else {
        text
    }
}

/// `text` without the white space at its end.
pub open spec fn trimmed_end(text: Seq<char>) -> Seq<char>
    decreases text.len(),
{
    if text.len() > 0 && white_space(text.last()) {
        trimmed_end(text.drop_last())
    } else {
        text
    }
}

/// `text` without the white space around it.
pub open spec fn trimmed(text: Seq<char>) -> Seq<char> {
    trimmed_end(trimmed_start(text))
}

/// [`trimmed`] as a slice of the argument.
pub fn trim(text: &str) -> (inner: &str)
    ensures
        inner@ == trimmed(text@),
{
    let chars = chars_of(text);
    let mut from: usize = 0;
    assert(chars@.skip(0) == chars@);
    while from < chars.len() && is_white_space(chars[from])
        invariant
            from <= chars@.len(),
            trimmed_start(chars@) == trimmed_start(chars@.skip(from as int)),
        decreases chars@.len() - from,
    {
        assert(chars@.skip(from as int).skip(1) == chars@.skip(from + 1));
        from = from + 1;
    }
    let ghost rest = chars@.skip(from as int);
    let mut to: usize = chars.len();
    assert(rest == chars@.subrange(from as int, to as int));
    while to > from && is_white_space(chars[to - 1])
        invariant
            from <= to <= chars@.len(),
            trimmed_end(rest) == trimmed_end(chars@.subrange(from as int, to as int)),
        decreases to - from,
    {
        assert(chars@.subrange(from as int, to as int).drop_last() == chars@.subrange(
            from as int,
            to - 1,
        ));
        to = to - 1;
    }
    text.substring_char(from, to)
}

/// The lower-case form of an ASCII capital; any other character is left alone.
pub open spec fn ascii_lower(c: char) -> char {
    if 'A' <= c && c <= 'Z' {
        ((c as u8 + 32) as u8) as char
    } else {
        c
    }
}

/// Decides [`ascii_lower`].
pub fn to_ascii_lower(c: char) -> (lower: char)
    ensures
        lower == ascii_lower(c),
{
    if 'A' <= c && c <= 'Z' {
        (c as u8 + 32) as char
    } else {
        c
    }
}

/// `text` with every ASCII capital in lower case.
pub open spec fn lowered(text: Seq<char>) -> Seq<char> {
    text.map_values(|c: char| ascii_lower(c))
}

/// [`lowered`] as a string.
pub fn to_ascii_lowercase(text: &str) -> (lower: String)
    ensures
        lower@ == lowered(text@),
{
    let mut lower = String::new();
    for c in it: text.chars()
        invariant
            it.seq() == text@,
            lower@ == lowered(text@.take(it.index())),
    {
        assert(text@.take(it.index() + 1) == text@.take(it.index()).push(c));
        assert(lowered(text@.take(it.index()).push(c)) == lowered(text@.take(it.index())).push(
            ascii_lower(c),
        ));
        lower.push(to_ascii_lower(c));
    }
    assert(text@.take(text@.len() as int) == text@);
    lower
}

/// A text in lower case stays as it is.
pub proof fn lowering_is_idempotent(text: Seq<char>)
    ensures
        lowered(lowered(text)) == lowered(text),
{
    assert(lowered(lowered(text)) =~= lowered(text));
}

/// Whether two texts are the same up to the case of ASCII letters.
pub fn same_text_ignoring_ascii_case(a: &str, b: &str) -> (same: bool)
    ensures
        same == (lowered(a@) == lowered(b@)),
{
    same_text(to_ascii_lowercase(a).as_str(), to_ascii_lowercase(b).as_str())
}

/// `text` with the occurrences of `from` replaced by `to`, found from left to right without
/// overlap.
pub open spec fn replaced(text: Seq<char>, from: Seq<char>, to: Seq<char>) -> Seq<char>
    decreases text.len(),
{
    if text.len() == 0 || from.len() == 0 {
        text
    } else if occurs_at(text, from, 0) {
        to + replaced(text.skip(from.len() as int), from, to)
    } else {
        seq![text[0]] + replaced(text.skip(1), from, to)
    }
}

/// [`replaced`] as a string.
pub fn replace(text: &str, from: &str, to: &str) -> (result: String)
    ensures
        result@ == replaced(text@, from@, to@),
{
    if from.is_empty() {
        return text.to_owned();
    }
    let chars = chars_of(text);
    let needle = chars_of(from);
    let mut result = String::new();
    let mut i: usize = 0;
    assert(chars@.skip(0) == chars@);
    while i < chars.len()
        invariant
            i <= chars@.len(),
            needle@.len() > 0,
            needle@ == from@,
            replaced(chars@, from@, to@) == result@ + replaced(chars@.skip(i as int), from@, to@),
        decreases chars@.len() - i,
    {
        let ghost rest = chars@.skip(i as int);
        let ghost before = result@;
        let found = matches_at(&chars, &needle, i);
        proof {
            if needle@.len() <= rest.len() {
                assert(rest.subrange(0, needle@.len() as int) == chars@.subrange(
                    i as int,
                    i + needle@.len(),
                ));
            }
            assert(found == occurs_at(rest, from@, 0));
        }
        if found {
            result.append(to);
            assert(rest.skip(needle@.len() as int) == chars@.skip(i + needle@.len()));
            assert(before + (to@ + replaced(rest.skip(needle@.len() as int), from@, to@))
                == result@ + replaced(chars@.skip(i + needle@.len()), from@, to@));
            i = i + needle.len();
        } else {
            result.push(chars[i]);
            assert(rest.skip(1) == chars@.skip(i + 1));
            assert(before + (seq![rest[0]] + replaced(rest.skip(1), from@, to@)) == result@
                + replaced(chars@.skip(i + 1), from@, to@));
            i = i + 1;
        }
    }
    assert(result@ + replaced(chars@.skip(i as int), from@, to@) == result@);
    result
}

/// The characters of each string.
pub open spec fn views(parts: Seq<String>) -> Seq<Seq<char>> {
    parts.map_values(|part: String| part@)
}

/// `parts` in order, with `separator` between neighbours.
pub open spec fn joined(parts: Seq<Seq<char>>, separator: Seq<char>) -> Seq<char>
    decreases parts.len(),
{
    if parts.len() == 0 {
        Seq::empty()
    } else if parts.len() == 1 {
        parts[0]
    } else {
        joined(parts.drop_last(), separator) + separator + parts.last()
    }
}

/// [`joined`] as a string.
pub fn join(parts: &Vec<String>, separator: &str) -> (line: String)
    ensures
        line@ == joined(views(parts@), separator@),
{
    let mut line = String::new();
    let mut i: usize = 0;
    while i < parts.len()
        invariant
            i <= parts@.len(),
            line@ == joined(views(parts@).take(i as int), separator@),
        decreases parts@.len() - i,
    {
        let ghost all = views(parts@);
        assert(all.take(i + 1).drop_last() == all.take(i as int));
        if i > 0 {
            line.append(separator);
        }
        line.append(parts[i].as_str());
        i = i + 1;
    }
    assert(views(parts@).take(i as int) == views(parts@));
    line
}

/// The character of a decimal or hexadecimal digit, in lower case.
pub open spec fn digit_char(d: nat) -> char {
    if d < 10 {
        (('0' as u8 + d) as u8) as char
    } else {
        (('a' as u8 + (d - 10)) as u8) as char
    }
}

fn digit(d: u8) -> (c: char)
    requires
        d < 16,
    ensures
        c == digit_char(d as nat),
{
    if d < 10 {
        (48 + d) as char
    } else {
        (97 + (d - 10)) as char
    }
}

/// `value` written in base 10, without leading zeros.
pub open spec fn decimal(value: nat) -> Seq<char>
    decreases value,
{
    if value < 10 {
        seq![digit_char(value)]
    } else {
        decimal(value / 10).push(digit_char(value % 10))
    }
}

/// [`decimal`] as a string.
pub fn to_decimal(value: u128) -> (s: String)
    ensures
        s@ == decimal(value as nat),
    decreases value,
{
    if value < 10 {
        let mut s = String::new();
        s.push(digit(value as u8));
        assert(s@ == seq![digit_char(value as nat)]);
        s
    } else {
        let mut s = to_decimal(value / 10);
        s.push(digit((value % 10) as u8));
        s
    }
}

/// A signed number in base 10.
pub open spec fn signed_decimal(value: int) -> Seq<char> {
    if value < 0 {
        seq!['-'] + decimal((-value) as nat)
    } else {
        decimal(value as nat)
    }
}

/// [`signed_decimal`] as a string.
pub fn to_signed_decimal(value: i64) -> (s: String)
    ensures
        s@ == signed_decimal(value as int),
{
    if value < 0 {
        let magnitude: i128 = -(value as i128);
        let mut s = String::new();
        s.push('-');
        s.append(to_decimal(magnitude as u128).as_str());
        assert(s@ == seq!['-'] + decimal((-value) as nat));
        s
    } else {
        to_decimal(value as u128)
    }
}

/// `value` written in base 16 with `width` digits, leading zeros included; higher digits are
/// dropped.
pub open spec fn hex_padded(value: nat, width: nat) -> Seq<char>
    decreases width,
{
    if width == 0 {
        Seq::empty()
    } else {
        hex_padded(value / 16, (width - 1) as nat).push(digit_char(value % 16))
    }
}

/// [`hex_padded`] as a string.
pub fn to_hex_padded(value: u128, width: usize) -> (s: String)
    ensures
        s@ == hex_padded(value as nat, width as nat),
    decreases width,
{
    if width == 0 {
        String::new()
    } else {
        let mut s = to_hex_padded(value / 16, width - 1);
        s.push(digit((value % 16) as u8));
        s
    }
}

/// `value` written in base 16, without leading zeros.
pub open spec fn hex(value: nat) -> Seq<char>
    decreases value,
{
    if value < 16 {
        seq![digit_char(value)]
    } else {
        hex(value / 16).push(digit_char(value % 16))
    }
}

/// [`hex`] as a string.
pub fn to_hex(value: u128) -> (s: String)
    ensures
        s@ == hex(value as nat),
    decreases value,
{
    if value < 16 {
        let mut s = String::new();
        s.push(digit(value as u8));
        assert(s@ == seq![digit_char(value as nat)]);
        s
    } else {
        let mut s = to_hex(value / 16);
        s.push(digit((value % 16) as u8));
        s
    }
}

} // verus!
