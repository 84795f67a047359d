//! What holds of the numbers in reports: they read back as what was measured.
use super::text::{decimals_read_back, numeral_value, of_digits};
use crate::i18n::{fastfetch_text, FastfetchText, Locale};
use crate::response;
use crate::response::Response;
use crate::runtime::info;
use crate::runtime::info::{FastfetchInputError, FastfetchProfileError, FastfetchResult};
use crate::runtime::upstream::VersionRelation;
use crate::text;
use vstd::prelude::*;

verus! {

/// A number below a hundred, written with two digits.
pub open spec fn in_two_digits(value: nat) -> Seq<char> {
    seq![text::decimal(value / 10)[0], text::decimal(value % 10)[0]]
}

/// A duration spelled out, from the largest unit that is not zero down.
pub open spec fn spelled(days: nat, hours: nat, minutes: nat, seconds: nat) -> Seq<char> {
    let minute = in_two_digits(minutes);
    let second = in_two_digits(seconds);
    if days > 0 {
        text::decimal(days) + seq!['d', ' '] + in_two_digits(hours) + seq!['h', ' '] + minute + seq![
            'm',
            ' ',
        ] + second + seq!['s']
    } else if hours > 0 {
        text::decimal(hours) + seq!['h', ' '] + minute + seq!['m', ' '] + second + seq!['s']
    } else if minutes > 0 {
        text::decimal(minutes) + seq!['m', ' '] + second + seq!['s']
    } else {
        text::decimal(seconds) + seq!['s']
    }
}

proof fn lemma_two_digits(value: nat)
    requires
        value < 100,
    ensures
        info::two_digits(value) == in_two_digits(value),
{
    reveal_strlit("0");
    reveal_with_fuel(text::decimal, 3);
    assert(info::two_digits(value) == in_two_digits(value));
}

/// A duration is told in days, hours, minutes and seconds that add up to it: less than a day of hours, less
/// than an hour of minutes and less than a minute of seconds.
pub proof fn durations_add_up(seconds: nat) -> (told: (nat, nat, nat, nat))
    ensures
        86400 * told.0 + 3600 * told.1 + 60 * told.2 + told.3 == seconds,
        told.1 < 24 && told.2 < 60 && told.3 < 60,
        info::duration_label(seconds) == spelled(told.0, told.1, told.2, told.3),
{
    reveal_strlit("d ");
    reveal_strlit("h ");
    reveal_strlit("m ");
    reveal_strlit("s");
    let d = seconds / 86400;
    let h = seconds % 86400 / 3600;
    let m = seconds % 3600 / 60;
    let s = seconds % 60;
    vstd::arithmetic::div_mod::lemma_mod_mod(seconds as int, 3600, 24);
    vstd::arithmetic::div_mod::lemma_mod_mod(seconds as int, 60, 60);
    vstd::arithmetic::div_mod::lemma_fundamental_div_mod(seconds as int, 86400);
    vstd::arithmetic::div_mod::lemma_fundamental_div_mod(seconds as int % 86400, 3600);
    vstd::arithmetic::div_mod::lemma_fundamental_div_mod(seconds as int % 3600, 60);
    lemma_two_digits(h);
    lemma_two_digits(m);
    lemma_two_digits(s);
    assert("d "@ == seq!['d', ' ']);
    assert("h "@ == seq!['h', ' ']);
    assert("m "@ == seq!['m', ' ']);
    assert("s"@ == seq!['s']);
    (d, h, m, s)
}

/// A latency is told in whole milliseconds; one below a millisecond is told as such.
pub proof fn latencies_read_back(millis: nat) -> (digits: Seq<char>)
    ensures
        millis == 0 ==> info::latency_label(millis) == "<1 ms"@,
        millis > 0 ==> info::latency_label(millis) == digits + seq![' ', 'm', 's'] && of_digits(digits)
            && numeral_value(digits, 10) == millis,
{
    reveal_strlit(" ms");
    decimals_read_back(millis);
    assert(" ms"@ == seq![' ', 'm', 's']);
    text::decimal(millis)
}

proof fn lemma_rounded(numerator: nat, denominator: nat)
    requires
        denominator > 0,
    ensures
        ({
            let rounded = info::rounded_quotient(numerator, denominator);
            let rest = numerator - rounded * denominator;
            &&& -(denominator as int) <= 2 * rest <= denominator
            &&& 2 * rest == denominator || 2 * rest == -(denominator as int) ==> rounded % 2 == 0
        }),
{
    let q = numerator / denominator;
    let r = numerator % denominator;
    assert(numerator == q * denominator + r && r < denominator) by (nonlinear_arith)
        requires
            q == numerator / denominator,
            r == numerator % denominator,
            denominator > 0,
    ;
    assert((q + 1) * denominator == q * denominator + denominator) by (nonlinear_arith);
}

/// Memory below 2^53 kibibytes is told in mebibytes to the closest tenth, and to the even one of two that
/// are as close: a whole number, a point and one digit.
pub proof fn memory_is_told_to_the_closest_tenth(kib: u64) -> (tenths: nat)
    requires
        kib < 0x20_0000_0000_0000,
    ensures
        -512 <= 10 * kib - 1024 * tenths <= 512,
        10 * kib - 1024 * tenths == 512 || 10 * kib - 1024 * tenths == -512 ==> tenths % 2 == 0,
        info::memory_label(kib) == text::decimal(tenths / 10) + seq!['.'] + text::decimal(tenths % 10)
            + " MiB RSS"@,
        text::decimal(tenths % 10).len() == 1,
{
    reveal_strlit(".");
    assert("."@ == seq!['.']);
    assert(info::spacing(kib, 1) == 1);
    assert(info::rounded_quotient(kib as nat, 1) == kib) by {
        assert(kib as nat / 1 == kib as nat);
        assert(kib as nat % 1 == 0);
    }
    assert(info::with_53_bits(kib) == kib);
    let tenths = info::memory_tenths(kib);
    let whole: nat = (kib * 10) as nat;
    assert(tenths == info::rounded_quotient(whole, 1024));
    lemma_rounded(whole, 1024);
    decimals_read_back(tenths % 10);
    tenths
}

/// Whether a text is one word: not empty and without white space.
pub open spec fn one_word(text: Seq<char>) -> bool {
    text.len() > 0 && forall|i: int| 0 <= i < text.len() ==> !text::white_space(#[trigger] text[i])
}

proof fn lemma_word(word: Seq<char>, behind: Seq<char>)
    requires
        one_word(word) || word.len() == 0,
        behind.len() == 0 || text::white_space(behind[0]),
    ensures
        info::word_len(word + behind) == word.len(),
    decreases word.len(),
{
    if word.len() == 0 {
        assert(word + behind == behind);
    } else {
        assert(!text::white_space(word[0]));
        let rest = word.skip(1);
        assert forall|i: int| 0 <= i < rest.len() implies !text::white_space(#[trigger] rest[i]) by {
            assert(word[i + 1] == rest[i]);
        }
        assert((word + behind).skip(1) == rest + behind);
        lemma_word(rest, behind);
    }
}

/// White space sets words apart, however much of it there is: what stands before a word is blank, and
/// what stands behind it is split the same way.
pub proof fn words_are_set_apart(space: Seq<char>, word: Seq<char>, behind: Seq<char>)
    requires
        super::text::blank(space),
        one_word(word),
        behind.len() == 0 || text::white_space(behind[0]),
    ensures
        info::words(space).len() == 0,
        info::words(space + word + behind) == seq![word] + info::words(behind),
    decreases space.len(),
{
    if space.len() == 0 {
        let whole = word + behind;
        assert(space + word + behind == whole);
        assert(!text::white_space(word[0]));
        assert(text::trimmed_start(whole) == whole);
        lemma_word(word, behind);
        assert(whole.take(word.len() as int) == word);
        assert(whole.skip(word.len() as int) == behind);
    } else {
        let rest = space.skip(1);
        let whole = space + word + behind;
        assert(text::white_space(space[0]));
        assert forall|i: int| 0 <= i < rest.len() implies text::white_space(#[trigger] rest[i]) by {
            assert(space[i + 1] == rest[i]);
        }
        words_are_set_apart(rest, word, behind);
        assert(whole.skip(1) == rest + word + behind);
        assert(text::trimmed_start(whole) == text::trimmed_start(whole.skip(1)));
        assert(text::trimmed_start(space) == text::trimmed_start(rest));
        info::lemma_word_bounds(whole.skip(1));
        info::lemma_word_bounds(text::trimmed_start(whole));
        info::lemma_word_bounds(rest);
        info::lemma_word_bounds(text::trimmed_start(space));
    }
}

proof fn lemma_digits(digits: Seq<char>)
    requires
        of_digits(digits),
    ensures
        info::digits_value(digits) == numeral_value(digits, 10),
    decreases digits.len(),
{
    if digits.len() > 0 {
        let shorter = digits.drop_last();
        assert forall|i: int| 0 <= i < shorter.len() implies '0' <= #[trigger] shorter[i] && shorter[i]
            <= '9' by {
            assert(shorter[i] == digits[i]);
        }
        assert(digits[digits.len() - 1] == digits.last());
        lemma_digits(shorter);
    }
}

/// A number is read from digits, with or without a plus sign, where it fits 64 bits; nothing else reads as a
/// number.
pub proof fn numbers_are_read_from_digits(text: Seq<char>)
    ensures
        ({
            let digits = if text.len() > 0 && text[0] == '+' {
                text.skip(1)
            } else {
                text
            };
            match info::number(text) {
                Some(value) => digits.len() > 0 && of_digits(digits) && numeral_value(digits, 10)
                    == value,
                None => digits.len() == 0 || !of_digits(digits) || numeral_value(digits, 10)
                    > 0xffff_ffff_ffff_ffff,
            }
        }),
{
    let digits = if text.len() > 0 && text[0] == '+' {
        text.skip(1)
    } else {
        text
    };
    if of_digits(digits) {
        lemma_digits(digits);
        assert forall|i: int| 0 <= i < digits.len() implies info::decimal_digit(#[trigger] digits[i]) by {
            assert('0' <= digits[i] && digits[i] <= '9');
        }
    } else {
        let i = choose|i: int|
            0 <= i < digits.len() && !('0' <= #[trigger] digits[i] && digits[i] <= '9');
        assert(!info::decimal_digit(digits[i]));
    }
}

/// Whether a line tells the resident memory: its words are the label, a number and the unit.
pub open spec fn tells_memory(line: Seq<char>, value: nat) -> bool {
    let fields = info::words(line);
    fields.len() >= 3 && fields[0] == "VmRSS:"@ && fields[1] == text::decimal(value) && fields[2]
        == "kB"@
}

/// The memory is read from the first line that tells it, whatever stands before and behind that line.
pub proof fn memory_is_read_from_its_line(line: Seq<char>, value: nat, behind: Seq<char>)
    requires
        forall|i: int| 0 <= i < line.len() ==> #[trigger] line[i] != '\n',
        value <= 0xffff_ffff_ffff_ffff,
    ensures
        tells_memory(line, value) ==> info::memory_kib(line + seq!['\n'] + behind) == Some(value as u64)
            && info::memory_kib(line) == Some(value as u64),
        info::words(line).len() < 3 || info::words(line)[0] != "VmRSS:"@ || info::words(line)[2]
            != "kB"@ ==> info::memory_kib(line + seq!['\n'] + behind) == info::memory_kib(behind)
            && info::memory_kib(line) is None,
{
    let whole = line + seq!['\n'] + behind;
    crate::i18n::lemma_index_of_is(whole, '\n', line.len() as int);
    crate::i18n::lemma_index_of_is(line, '\n', line.len() as int);
    assert(whole.take(line.len() as int) == line);
    assert(whole.skip((line.len() + 1) as int) == behind);
    assert(line.take(line.len() as int) == line);
    decimals_read_back(value);
    numbers_are_read_from_digits(text::decimal(value));
    assert(text::decimal(value)[0] != '+');
}

/// A version is told to be current or to be outdated, and by what, only where upstream told its version;
/// else it stands alone.
pub proof fn versions_tell_their_status(
    locale: Locale,
    known: bool,
    relation: VersionRelation,
    upstream: Seq<char>,
    version: Seq<char>,
)
    ensures
        ({
            let told = info::version_line(
                version,
                info::version_status_text(locale, known, relation, Some(upstream)),
            );
            let (current, newer) = match locale {
                Locale::English => (" (current ✅)"@, " (newer available: "@),
                Locale::Russian => (" (актуальная ✅)"@, " (доступна новая: "@),
            };
            &&& !known || relation == VersionRelation::Unavailable ==> told == version
            &&& known && relation == VersionRelation::Current ==> told == version + current
            &&& known && relation == VersionRelation::NewerAvailable ==> told == version + newer + upstream
                + " ⬆️)"@
        }),
{
    reveal_strlit("current ✅");
    reveal_strlit("актуальная ✅");
    reveal_strlit("newer available: ");
    reveal_strlit("доступна новая: ");
    reveal_strlit(" ⬆️");
    reveal_strlit(" (");
    reveal_strlit(")");
    reveal_strlit(" (current ✅)");
    reveal_strlit(" (актуальная ✅)");
    reveal_strlit(" (newer available: ");
    reveal_strlit(" (доступна новая: ");
    reveal_strlit(" ⬆️)");
    let told = info::version_line(
        version,
        info::version_status_text(locale, known, relation, Some(upstream)),
    );
    let (current, newer) = match locale {
        Locale::English => (" (current ✅)"@, " (newer available: "@),
        Locale::Russian => (" (актуальная ✅)"@, " (доступна новая: "@),
    };
    if known && relation == VersionRelation::Current {
        assert(told == version + current);
    }
    if known && relation == VersionRelation::NewerAvailable {
        assert(told == version + newer + upstream + " ⬆️)"@);
    }
}

/// A system summary that succeeded is shown as it is. A failed one says how it failed, with the command prefix,
/// and an exit code where there is one; what is wrong with the profile is told with its path.
pub proof fn system_summaries_say_how_they_failed(
    locale: Locale,
    prefix: Seq<char>,
    path: Seq<char>,
    response: Response,
    code: i32,
    stderr: String,
    error: FastfetchProfileError,
    input: FastfetchInputError,
)
    ensures
        info::fastfetch_view(FastfetchResult::Success(response), locale, prefix, path) == response@,
        ({
            let told = |key: FastfetchText|
                response::plain_view(
                    locale,
                    text::replaced(fastfetch_text(locale, key)@, "{prefix}"@, prefix),
                );
            &&& info::fastfetch_view(FastfetchResult::Empty, locale, prefix, path) == told(
                FastfetchText::Empty,
            )
            &&& info::fastfetch_view(FastfetchResult::TimedOut, locale, prefix, path) == told(
                FastfetchText::TimedOut,
            )
            &&& info::fastfetch_view(FastfetchResult::Unavailable, locale, prefix, path) == told(
                FastfetchText::Unavailable,
            )
            &&& info::fastfetch_view(FastfetchResult::UnexpectedStatus, locale, prefix, path) == told(
                FastfetchText::UnexpectedStatus,
            )
            &&& info::fastfetch_view(FastfetchResult::InvalidArguments(input), locale, prefix, path)
                == told(info::fastfetch_input_text(input))
        }),
        info::fastfetch_view(FastfetchResult::NonZero { code, stderr }, locale, prefix, path)
            == response::plain_view(
            locale,
            text::replaced(
                text::replaced(
                    fastfetch_text(locale, FastfetchText::NonZero)@,
                    "{code}"@,
                    text::signed_decimal(code as int),
                ),
                "{prefix}"@,
                prefix,
            ),
        ),
        info::fastfetch_view(FastfetchResult::ProfileError(error), locale, prefix, path)
            == response::plain_view(
            locale,
            text::replaced(
                text::replaced(
                    fastfetch_text(locale, info::fastfetch_profile_error_text(error))@,
                    "{path}"@,
                    path,
                ),
                "{prefix}"@,
                prefix,
            ),
        ),
{
}

/// Each thing that is wrong with the arguments or with the profile has its own message.
pub proof fn things_that_are_wrong_are_told_apart(
    one: FastfetchInputError,
    other: FastfetchInputError,
    error: FastfetchProfileError,
    another: FastfetchProfileError,
)
    ensures
        info::fastfetch_input_text(one) == info::fastfetch_input_text(other) ==> one == other,
        info::fastfetch_profile_error_text(error) == info::fastfetch_profile_error_text(another)
            ==> error == another,
        info::fastfetch_input_text(FastfetchInputError::InvalidLogo) == FastfetchText::InputInvalidLogo,
        info::fastfetch_input_text(FastfetchInputError::MissingValue) == FastfetchText::InputMissingValue,
        info::fastfetch_input_text(FastfetchInputError::DuplicateOption)
            == FastfetchText::InputDuplicateOption,
        info::fastfetch_input_text(FastfetchInputError::UnsupportedOption)
            == FastfetchText::InputUnsupportedOption,
        info::fastfetch_input_text(FastfetchInputError::InvalidStructure)
            == FastfetchText::InputInvalidStructure,
        info::fastfetch_input_text(FastfetchInputError::InvalidSeparator)
            == FastfetchText::InputInvalidSeparator,
        info::fastfetch_input_text(FastfetchInputError::InvalidLogoPadding)
            == FastfetchText::InputInvalidLogoPadding,
        info::fastfetch_profile_error_text(FastfetchProfileError::Malformed)
            == FastfetchText::ProfileMalformed,
        info::fastfetch_profile_error_text(FastfetchProfileError::NotReadable)
            == FastfetchText::ProfileNotReadable,
        info::fastfetch_profile_error_text(FastfetchProfileError::TooLarge)
            == FastfetchText::ProfileTooLarge,
        info::fastfetch_profile_error_text(FastfetchProfileError::UnsafePath)
            == FastfetchText::ProfileUnsafePath,
{
}

/// Memory from 2^53 kibibytes on is rounded first to a number with 53 significant bits: to the closest multiple of
/// the smallest power of two that leaves so many, and to the even multiple of two that are as close.
pub proof fn great_numbers_keep_53_bits(value: u64)
    ensures
        ({
            let unit = info::spacing(value, 1);
            let rounded = info::rounded_quotient(value as nat, unit);
            &&& unit >= 1
            &&& value < 0x20_0000_0000_0000 * unit
            &&& unit > 1 ==> value >= 0x10_0000_0000_0000 * unit
            &&& info::with_53_bits(value) == rounded * unit
            &&& -(unit as int) <= 2 * (value - rounded * unit) <= unit
            &&& 2 * (value - rounded * unit) == unit || 2 * (value - rounded * unit) == -(unit as int)
                ==> rounded % 2 == 0
        }),
{
    lemma_spacing(value, 1);
    let unit = info::spacing(value, 1);
    lemma_rounded(value as nat, unit);
}

proof fn lemma_spacing(value: u64, unit: nat)
    requires
        1 <= unit <= 0x1_0000,
        unit > 1 ==> value >= 0x10_0000_0000_0000 * unit,
        unit == 1 || unit == 2 || unit == 4 || unit == 8 || unit == 16 || unit == 32 || unit == 64
            || unit == 128 || unit == 256 || unit == 512 || unit == 1024 || unit == 2048 || unit == 4096
            || unit == 8192 || unit == 16384 || unit == 32768 || unit == 65536,
    ensures
        info::spacing(value, unit) >= 1,
        value < 0x20_0000_0000_0000 * info::spacing(value, unit),
        info::spacing(value, unit) > 1 ==> value >= 0x10_0000_0000_0000 * info::spacing(value, unit),
    decreases 0x1_0000 - unit,
{
    if unit < 0x1_0000 && value >= 0x20_0000_0000_0000 * unit {
        lemma_spacing(value, 2 * unit);
    }
}

/// The tenths of a mebibyte are the closest to ten times the rounded kibibytes over 1024.
pub proof fn tenths_are_the_closest(value: u64)
    ensures
        ({
            let rest = 10 * info::with_53_bits(value) - 1024 * info::memory_tenths(value);
            &&& -512 <= rest <= 512
            &&& rest == 512 || rest == -512 ==> info::memory_tenths(value) % 2 == 0
        }),
        info::memory_label(value) == text::decimal(info::memory_tenths(value) / 10) + seq!['.']
            + text::decimal(info::memory_tenths(value) % 10) + " MiB RSS"@,
{
    reveal_strlit(".");
    assert("."@ == seq!['.']);
    lemma_rounded(info::with_53_bits(value) * 10, 1024);
}

} // verus!
