//! What holds of texts and of numbers written as texts.
use crate::text;
use crate::utf16;
use vstd::prelude::*;

verus! {

/// The number that a digit stands for.
pub open spec fn digit_value(c: char) -> nat {
    if '0' <= c && c <= '9' {
        (c as u32 - 48) as nat
    } else {
        (c as u32 - 87) as nat
    }
}

/// The number that digits stand for in a base, the most significant first.
pub open spec fn numeral_value(digits: Seq<char>, base: nat) -> nat
    decreases digits.len(),
{
    if digits.len() == 0 {
        0
    } else {
        numeral_value(digits.drop_last(), base) * base + digit_value(digits.last())
    }
}

/// Whether a text is made of decimal digits alone.
pub open spec fn of_digits(text: Seq<char>) -> bool {
    forall|i: int| 0 <= i < text.len() ==> '0' <= #[trigger] text[i] && text[i] <= '9'
}

/// Whether a text is made of lower-case hexadecimal digits alone.
pub open spec fn of_hex_digits(text: Seq<char>) -> bool {
    forall|i: int|
        0 <= i < text.len() ==> ('0' <= #[trigger] text[i] && text[i] <= '9') || ('a' <= text[i]
            && text[i] <= 'f')
}

/// A written number reads back as the number, is made of digits alone and has no leading zero.
pub proof fn decimals_read_back(value: nat)
    ensures
        text::decimal(value).len() > 0,
        of_digits(text::decimal(value)),
        numeral_value(text::decimal(value), 10) == value,
        value > 0 ==> text::decimal(value)[0] != '0',
        value < 10 ==> text::decimal(value).len() == 1,
    decreases value,
{
    let written = text::decimal(value);
    if value < 10 {
        assert(written.drop_last() == Seq::<char>::empty());
        reveal_with_fuel(numeral_value, 2);
    } else {
        decimals_read_back(value / 10);
        assert(written.drop_last() == text::decimal(value / 10));
        assert forall|i: int| 0 <= i < written.len() implies '0' <= #[trigger] written[i]
            && written[i] <= '9' by {
            if i < written.len() - 1 {
                assert(written[i] == text::decimal(value / 10)[i]);
            }
        }
        assert(written[0] == text::decimal(value / 10)[0]);
    }
}

/// A negative number is written as its magnitude after a minus sign, any other as it is.
pub proof fn signs_are_written(value: int)
    ensures
        value >= 0 ==> numeral_value(text::signed_decimal(value), 10) == value && of_digits(
            text::signed_decimal(value),
        ),
        value < 0 ==> text::signed_decimal(value)[0] == '-' && numeral_value(
            text::signed_decimal(value).skip(1),
            10,
        ) == -value && of_digits(text::signed_decimal(value).skip(1)),
{
    if value >= 0 {
        decimals_read_back(value as nat);
    } else {
        decimals_read_back((-value) as nat);
        assert(text::signed_decimal(value).skip(1) == text::decimal((-value) as nat));
    }
}

/// A number written in base 16 reads back, and has no leading zero.
pub proof fn hexadecimals_read_back(value: nat)
    ensures
        text::hex(value).len() > 0,
        of_hex_digits(text::hex(value)),
        numeral_value(text::hex(value), 16) == value,
        value > 0 ==> text::hex(value)[0] != '0',
    decreases value,
{
    let written = text::hex(value);
    if value < 16 {
        assert(written.drop_last() == Seq::<char>::empty());
        reveal_with_fuel(numeral_value, 2);
    } else {
        hexadecimals_read_back(value / 16);
        let rest = text::hex(value / 16);
        assert(written.drop_last() == rest);
        assert forall|i: int| 0 <= i < written.len() implies ('0' <= #[trigger] written[i]
            && written[i] <= '9') || ('a' <= written[i] && written[i] <= 'f') by {
            if i < written.len() - 1 {
                assert(written[i] == rest[i]);
            }
        }
        assert(written[0] == rest[0]);
    }
}

/// How many numbers have at most `width` hexadecimal digits.
pub open spec fn hex_range(width: nat) -> nat
    decreases width,
{
    if width == 0 {
        1
    } else {
        16 * hex_range((width - 1) as nat)
    }
}

/// A number written with a fixed count of hexadecimal digits has exactly so many and reads back.
pub proof fn padded_hexadecimals_read_back(value: nat, width: nat)
    requires
        value < hex_range(width),
    ensures
        text::hex_padded(value, width).len() == width,
        of_hex_digits(text::hex_padded(value, width)),
        numeral_value(text::hex_padded(value, width), 16) == value,
    decreases width,
{
    let written = text::hex_padded(value, width);
    if width > 0 {
        let shorter = (width - 1) as nat;
        assert(value / 16 < hex_range(shorter));
        padded_hexadecimals_read_back(value / 16, shorter);
        let rest = text::hex_padded(value / 16, shorter);
        assert(written.drop_last() == rest);
        assert forall|i: int| 0 <= i < written.len() implies ('0' <= #[trigger] written[i]
            && written[i] <= '9') || ('a' <= written[i] && written[i] <= 'f') by {
            if i < written.len() - 1 {
                assert(written[i] == rest[i]);
            }
        }
    }
}

/// Whether `needle` stands in `text` from index `at` on.
pub open spec fn stands_at(text: Seq<char>, needle: Seq<char>, at: int) -> bool {
    0 <= at && at + needle.len() <= text.len() && forall|i: int|
        0 <= i < needle.len() ==> text[at + i] == #[trigger] needle[i]
}

proof fn lemma_stands_at(text: Seq<char>, needle: Seq<char>, at: int)
    ensures
        stands_at(text, needle, at) <==> text::occurs_at(text, needle, at),
{
    if 0 <= at && at + needle.len() <= text.len() {
        let part = text.subrange(at, at + needle.len());
        if stands_at(text, needle, at) {
            assert(part == needle);
        }
        if text::occurs_at(text, needle, at) {
            assert forall|i: int| 0 <= i < needle.len() implies text[at + i] == #[trigger] needle[i] by {
                assert(part[i] == needle[i]);
            }
        }
    }
}

/// Where nothing is to be replaced, a text is left alone.
pub proof fn absent_parts_are_not_replaced(text: Seq<char>, from: Seq<char>, to: Seq<char>)
    requires
        forall|at: int| !#[trigger] stands_at(text, from, at),
    ensures
        text::replaced(text, from, to) == text,
    decreases text.len(),
{
    if text.len() > 0 && from.len() > 0 {
        lemma_stands_at(text, from, 0);
        assert(!stands_at(text, from, 0));
        assert forall|at: int| !#[trigger] stands_at(text.skip(1), from, at) by {
            if stands_at(text.skip(1), from, at) {
                assert forall|i: int| 0 <= i < from.len() implies text[at + 1 + i] == #[trigger] from[i] by {
                    assert(text.skip(1)[at + i] == from[i]);
                }
                assert(stands_at(text, from, at + 1));
            }
        }
        absent_parts_are_not_replaced(text.skip(1), from, to);
        assert(seq![text[0]] + text.skip(1) == text);
    }
}

/// The first occurrence of a part is replaced as a whole, what stands before it is kept, and what stands
/// behind it is treated the same way.
pub proof fn parts_are_replaced(
    before: Seq<char>,
    from: Seq<char>,
    behind: Seq<char>,
    to: Seq<char>,
)
    requires
        from.len() > 0,
        forall|at: int| at < before.len() ==> !#[trigger] stands_at(before + from + behind, from, at),
    ensures
        text::replaced(before + from + behind, from, to) == before + to + text::replaced(
            behind,
            from,
            to,
        ),
    decreases before.len(),
{
    let whole = before + from + behind;
    lemma_stands_at(whole, from, 0);
    if before.len() == 0 {
        assert(stands_at(whole, from, 0));
        assert(whole.skip(from.len() as int) == behind);
        assert(before + to == to);
    } else {
        assert(!stands_at(whole, from, 0));
        let rest = before.skip(1);
        assert(whole.skip(1) == rest + from + behind);
        assert forall|at: int| at < rest.len() implies !#[trigger] stands_at(
            rest + from + behind,
            from,
            at,
        ) by {
            if stands_at(rest + from + behind, from, at) {
                assert forall|i: int| 0 <= i < from.len() implies whole[at + 1 + i] == #[trigger] from[i] by {
                    assert((rest + from + behind)[at + i] == from[i]);
                }
                assert(stands_at(whole, from, at + 1));
            }
        }
        parts_are_replaced(rest, from, behind, to);
        assert(seq![whole[0]] + (rest + to + text::replaced(behind, from, to)) == before + to
            + text::replaced(behind, from, to));
    }
}

/// Nothing joined is nothing, and one part is left alone; the first of more parts is followed by the
/// separator and the others, joined.
pub proof fn joining_starts_with_the_first(
    first: Seq<char>,
    others: Seq<Seq<char>>,
    separator: Seq<char>,
)
    ensures
        text::joined(Seq::empty(), separator) == Seq::<char>::empty(),
        others.len() == 0 ==> text::joined(seq![first] + others, separator) == first,
        others.len() > 0 ==> text::joined(seq![first] + others, separator) == first + separator
            + text::joined(others, separator),
    decreases others.len(),
{
    let all = seq![first] + others;
    if others.len() == 0 {
        assert(all == seq![first]);
    } else {
        let shorter = others.drop_last();
        assert(all.drop_last() == seq![first] + shorter);
        joining_starts_with_the_first(first, shorter, separator);
        assert(all.last() == others.last());
        if others.len() == 1 {
            assert(shorter.len() == 0);
            assert(all.drop_last() == seq![first]);
        } else {
            assert(first + separator + text::joined(shorter, separator) + separator + others.last()
                == first + separator + (text::joined(shorter, separator) + separator
                + others.last()));
        }
    }
}

/// Lower case changes the 26 ASCII capitals alone, each into the letter 32 code points on.
pub proof fn lower_case_changes_capitals_alone(text: Seq<char>)
    ensures
        text::lowered(text).len() == text.len(),
        forall|i: int|
            0 <= i < text.len() ==> (#[trigger] text::lowered(text)[i]) as u32 == (if 65 <= text[i] as u32
                <= 90 {
                text[i] as u32 + 32
            } else {
                text[i] as int
            }),
{
    assert forall|i: int| 0 <= i < text.len() implies (#[trigger] text::lowered(text)[i]) as u32 == (if 65
        <= text[i] as u32 <= 90 {
        text[i] as u32 + 32
    } else {
        text[i] as int
    }) by {
        let c = text[i];
        assert(text::lowered(text)[i] == text::ascii_lower(c));
    }
}

/// Whether all of a text is white space.
pub open spec fn blank(text: Seq<char>) -> bool {
    forall|i: int| 0 <= i < text.len() ==> text::white_space(#[trigger] text[i])
}

proof fn lemma_trimmed_start(text: Seq<char>)
    ensures
        exists|n: int|
            0 <= n <= text.len() && text::trimmed_start(text) == text.skip(n) && blank(
                #[trigger] text.take(n),
            ),
        text::trimmed_start(text).len() > 0 ==> !text::white_space(text::trimmed_start(text)[0]),
    decreases text.len(),
{
    if text.len() > 0 && text::white_space(text[0]) {
        let rest = text.skip(1);
        lemma_trimmed_start(rest);
        let n = choose|n: int|
            0 <= n <= rest.len() && text::trimmed_start(rest) == rest.skip(n) && blank(
                #[trigger] rest.take(n),
            );
        assert(rest.skip(n) == text.skip(n + 1));
        assert forall|i: int| 0 <= i < text.take(n + 1).len() implies text::white_space(
            #[trigger] text.take(n + 1)[i],
        ) by {
            if i > 0 {
                assert(rest.take(n)[i - 1] == text.take(n + 1)[i]);
            }
        }
        assert(blank(text.take(n + 1)));
    } else {
        assert(text.skip(0) == text);
        assert(blank(text.take(0)));
    }
}

proof fn lemma_trimmed_end(text: Seq<char>)
    ensures
        exists|n: int|
            0 <= n <= text.len() && text::trimmed_end(text) == text.take(n) && blank(
                #[trigger] text.skip(n),
            ),
        text::trimmed_end(text).len() > 0 ==> !text::white_space(text::trimmed_end(text).last()),
    decreases text.len(),
{
    if text.len() > 0 && text::white_space(text.last()) {
        let rest = text.drop_last();
        lemma_trimmed_end(rest);
        let n = choose|n: int|
            0 <= n <= rest.len() && text::trimmed_end(rest) == rest.take(n) && blank(
                #[trigger] rest.skip(n),
            );
        assert(rest.take(n) == text.take(n));
        assert forall|i: int| 0 <= i < text.skip(n).len() implies text::white_space(
            #[trigger] text.skip(n)[i],
        ) by {
            if i < rest.skip(n).len() {
                assert(rest.skip(n)[i] == text.skip(n)[i]);
            }
        }
        assert(blank(text.skip(n)));
    } else {
        assert(text.take(text.len() as int) == text);
        assert(blank(text.skip(text.len() as int)));
    }
}

/// Trimming takes away white space around a text, all of it and nothing else.
pub proof fn trimming_takes_white_space_away(text: Seq<char>) -> (around: (int, int))
    ensures
        0 <= around.0 <= around.1 <= text.len(),
        text::trimmed(text) == text.subrange(around.0, around.1),
        blank(text.take(around.0)),
        blank(text.skip(around.1)),
        around.0 < around.1 ==> !text::white_space(text[around.0]) && !text::white_space(
            text[around.1 - 1],
        ),
{
    let rest = text::trimmed_start(text);
    lemma_trimmed_start(text);
    let n = choose|n: int|
        0 <= n <= text.len() && text::trimmed_start(text) == text.skip(n) && blank(
            #[trigger] text.take(n),
        );
    lemma_trimmed_end(rest);
    let m = choose|m: int|
        0 <= m <= rest.len() && text::trimmed_end(rest) == rest.take(m) && blank(
            #[trigger] rest.skip(m),
        );
    assert(rest.take(m) == text.subrange(n, n + m));
    assert(rest.skip(m) == text.skip(n + m));
    if m > 0 {
        assert(rest[0] == text[n]);
        assert(rest.take(m).last() == text[n + m - 1]);
    }
    (n, n + m)
}

/// The code points of Unicode's white space.
pub open spec fn white_space_codes() -> Seq<int> {
    seq![
        9, 10, 11, 12, 13, 32, 133, 160, 5760, 8192, 8193, 8194, 8195, 8196, 8197, 8198, 8199, 8200,
        8201, 8202, 8232, 8233, 8239, 8287, 12288,
    ]
}

/// The code points that change the direction of text.
pub open spec fn direction_codes() -> Seq<int> {
    seq![1564, 8206, 8207, 8234, 8235, 8236, 8237, 8238, 8294, 8295, 8296, 8297]
}

/// White space is what Unicode says it is.
pub proof fn white_space_is_unicodes(c: char)
    ensures
        text::white_space(c) <==> white_space_codes().contains(c as int),
{
    let codes = white_space_codes();
    if text::white_space(c) {
        let code = c as int;
        let at: int = if code <= 13 {
            code - 9
        } else if code == 32 {
            5
        } else if code == 133 {
            6
        } else if code == 160 {
            7
        } else if code == 5760 {
            8
        } else if code <= 8202 {
            code - 8192 + 9
        } else if code == 8232 {
            20
        } else if code == 8233 {
            21
        } else if code == 8239 {
            22
        } else if code == 8287 {
            23
        } else {
            24
        };
        assert(codes[at] == code);
    }
}

/// The directional characters are the twelve of Unicode.
pub proof fn directional_characters_are_unicodes(c: char)
    ensures
        text::bidi_control(c) <==> direction_codes().contains(c as int),
{
    let codes = direction_codes();
    if text::bidi_control(c) {
        let code = c as int;
        let at: int = if code == 1564 {
            0
        } else if code <= 8207 {
            code - 8206 + 1
        } else if code <= 8238 {
            code - 8234 + 3
        } else {
            code - 8294 + 8
        };
        assert(codes[at] == code);
    }
}

/// The control characters are the 65 below the space and from delete to 159.
pub proof fn control_characters_are_unicodes(c: char)
    ensures
        text::control(c) <==> ((c as int) <= 31 || (127 <= c as int && (c as int) < 160)),
        text::ascii_letter(c) <==> ((65 <= c as int && (c as int) < 91) || (97 <= c as int && (c as int)
            < 123)),
{
}

/// A text is cut to its first characters, as many as are asked for or there are.
pub proof fn first_characters_are_kept(text: Seq<char>, count: nat)
    ensures
        text::first_chars(text, count).len() == (if text.len() < count {
            text.len()
        } else {
            count
        }),
        forall|i: int|
            0 <= i < text::first_chars(text, count).len() ==> #[trigger] text::first_chars(
                text,
                count,
            )[i] == text[i],
{
}

/// Texts are ordered by the first character in which they differ, and a text comes before its
/// continuations.
pub proof fn texts_are_ordered_by_their_first_difference(
    common: Seq<char>,
    c: char,
    d: char,
    a: Seq<char>,
    b: Seq<char>,
)
    requires
        (c as u32) < (d as u32),
    ensures
        text::precedes(common.push(c) + a, common.push(d) + b),
        text::precedes(common, common.push(c) + a),
    decreases common.len(),
{
    let x = common.push(c) + a;
    let y = common.push(d) + b;
    if common.len() > 0 {
        let rest = common.skip(1);
        texts_are_ordered_by_their_first_difference(rest, c, d, a, b);
        assert(x.skip(1) == rest.push(c) + a);
        assert(y.skip(1) == rest.push(d) + b);
    }
}

/// A character outside the basic plane takes two UTF-16 code units, any other one; a text takes what its
/// characters take.
pub proof fn code_units_add_up(c: char, a: Seq<char>, b: Seq<char>)
    ensures
        utf16::utf16_len(seq![c]) == (if c as int > 65535 {
            2nat
        } else {
            1nat
        }),
        utf16::utf16_len(a + b) == utf16::utf16_len(a) + utf16::utf16_len(b),
        utf16::utf16_len(Seq::empty()) == 0,
{
    utf16::lemma_len_add(a, b);
    assert(seq![c].drop_last() == Seq::<char>::empty());
    reveal_with_fuel(utf16::utf16_len, 2);
}

/// The longest beginning of a text within a limit: it fits, and with one character more it would not.
pub proof fn fitting_beginnings_are_longest(text: Seq<char>, limit: nat) -> (kept: int)
    ensures
        0 <= kept <= text.len(),
        utf16::fitting_prefix(text, limit) == text.take(kept),
        utf16::utf16_len(text.take(kept)) <= limit,
        forall|k: int|
            kept < k <= text.len() ==> utf16::utf16_len(#[trigger] text.take(k)) > limit,
    decreases text.len(),
{
    if text.len() == 0 || utf16::utf16_len(text) <= limit {
        assert(text.take(text.len() as int) == text);
        text.len() as int
    } else {
        let shorter = text.drop_last();
        let kept = fitting_beginnings_are_longest(shorter, limit);
        assert(shorter.take(kept) == text.take(kept));
        assert forall|k: int| kept < k <= text.len() implies utf16::utf16_len(#[trigger] text.take(k))
            > limit by {
            if k == text.len() {
                assert(text.take(k) == text);
            } else {
                assert(shorter.take(k) == text.take(k));
            }
        }
        kept
    }
}

} // verus!
