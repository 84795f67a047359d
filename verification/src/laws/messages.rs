//! What holds of every message that is shown: what is cut, what is kept and what is formatted.
use super::text::fitting_beginnings_are_longest;
use crate::i18n::Locale;
use crate::laws;
use crate::response;
use crate::response::{EntityView, ResponseView};
use crate::utf16;
use vstd::prelude::*;

verus! {

/// What ends a text that was cut.
pub open spec fn cut_mark(locale: Locale) -> Seq<char> {
    match locale {
        Locale::English => "… output truncated"@,
        Locale::Russian => "… вывод сокращён"@,
    }
}

/// What ends documentation that was cut.
pub open spec fn documentation_mark(locale: Locale) -> Seq<char> {
    match locale {
        Locale::English => "… documentation truncated"@,
        Locale::Russian => "… описание сокращено"@,
    }
}

/// How many code units are left for a text that is cut.
pub open spec fn cut_budget(locale: Locale) -> int {
    4096 - utf16::utf16_len(cut_mark(locale))
}

/// The empty line between two parts of a message.
pub open spec fn gap() -> Seq<char> {
    seq!['\n', '\n']
}

proof fn lemma_marks(locale: Locale)
    ensures
        0 < utf16::utf16_len(cut_mark(locale)) <= 36,
        0 < utf16::utf16_len(documentation_mark(locale)) <= 50,
{
    reveal_strlit("… output truncated");
    reveal_strlit("… вывод сокращён");
    reveal_strlit("… documentation truncated");
    reveal_strlit("… описание сокращено");
    utf16::lemma_len_bounds(cut_mark(locale));
    utf16::lemma_len_bounds(documentation_mark(locale));
}

proof fn lemma_gap()
    ensures
        utf16::utf16_len(gap()) == 2,
{
    laws::text::code_units_add_up('\n', seq!['\n'], seq!['\n']);
    assert(gap() == seq!['\n'] + seq!['\n']);
}

proof fn lemma_last_line(text: Seq<char>) -> (kept: int)
    ensures
        0 <= kept <= text.len(),
        response::through_last_newline(text) == text.take(kept),
        kept > 0 ==> text[kept - 1] == '\n',
        forall|k: int| kept < k <= text.len() ==> #[trigger] text[k - 1] != '\n',
    decreases text.len(),
{
    if text.len() == 0 || text.last() == '\n' {
        assert(text.take(text.len() as int) == text);
        text.len() as int
    } else {
        let shorter = text.drop_last();
        let kept = lemma_last_line(shorter);
        assert(shorter.take(kept) == text.take(kept));
        assert forall|k: int| kept < k <= text.len() implies #[trigger] text[k - 1] != '\n' by {
            if k < text.len() {
                assert(shorter[k - 1] == text[k - 1]);
            }
        }
        kept
    }
}

/// A text of at most 4096 code units is left alone. A longer one keeps a beginning, followed by the
/// mark: the longest within the limit that ends with a line break, or the longest of all where no line
/// ends within the limit.
pub proof fn texts_are_cut_at_their_last_line(locale: Locale, text: Seq<char>) -> (kept: int)
    ensures
        utf16::utf16_len(text) <= 4096 ==> response::truncated(locale, text) == text,
        utf16::utf16_len(text) > 4096 ==> {
            &&& 0 <= kept < text.len()
            &&& response::truncated(locale, text) == text.take(kept) + cut_mark(locale)
            &&& utf16::utf16_len(text.take(kept)) <= cut_budget(locale)
            &&& forall|k: int|
                kept < k <= text.len() && utf16::utf16_len(#[trigger] text.take(k)) <= cut_budget(locale)
                    ==> text[k - 1] != '\n'
            &&& (kept > 0 && text[kept - 1] == '\n') || {
                &&& utf16::utf16_len(text.take(kept + 1)) > cut_budget(locale)
                &&& forall|k: int| 0 < k <= kept ==> #[trigger] text[k - 1] != '\n'
            }
        },
{
    lemma_marks(locale);
    if utf16::utf16_len(text) <= 4096 {
        0
    } else {
        let budget = cut_budget(locale) as nat;
        let fitting = fitting_beginnings_are_longest(text, budget);
        let prefix = text.take(fitting);
        let line = lemma_last_line(prefix);
        assert(prefix.take(line) == text.take(line));
        utf16::lemma_len_prefix(prefix, line);
        if fitting == text.len() {
            assert(text.take(fitting) == text);
        }
        assert forall|k: int| line < k <= fitting implies #[trigger] text[k - 1] != '\n' by {
            assert(prefix[k - 1] == text[k - 1]);
        }
        if line == 0 {
            fitting
        } else {
            line
        }
    }
}

/// A text that is cut to a limit is left alone where it fits, dropped where the mark itself takes all the
/// room, and else keeps as much of its beginning as there is room for before the mark.
pub proof fn texts_are_cut_to_a_limit(text: Seq<char>, limit: nat, mark: Seq<char>) -> (kept: int)
    ensures
        utf16::utf16_len(text) <= limit ==> response::truncated_to(text, limit, mark) == text,
        utf16::utf16_len(text) > limit && limit <= utf16::utf16_len(mark) ==> response::truncated_to(
            text,
            limit,
            mark,
        ).len() == 0,
        utf16::utf16_len(text) > limit && limit > utf16::utf16_len(mark) ==> {
            &&& 0 <= kept < text.len()
            &&& response::truncated_to(text, limit, mark) == text.take(kept) + mark
            &&& utf16::utf16_len(text.take(kept)) + utf16::utf16_len(mark) <= limit
            &&& utf16::utf16_len(text.take(kept + 1)) + utf16::utf16_len(mark) > limit
        },
{
    if utf16::utf16_len(text) > limit && limit > utf16::utf16_len(mark) {
        let kept = fitting_beginnings_are_longest(text, (limit - utf16::utf16_len(mark)) as nat);
        if kept == text.len() {
            assert(text.take(kept) == text);
        }
        kept
    } else {
        0
    }
}

/// A plain message is the text, cut where it is too long, and nothing is formatted.
pub proof fn plain_messages_are_unformatted(locale: Locale, text: Seq<char>)
    ensures
        response::plain_view(locale, text).text == response::truncated(locale, text),
        response::plain_view(locale, text).entities.len() == 0,
{
}

/// A preformatted message is formatted from its start to its end, unless it is empty.
pub proof fn preformatting_covers_the_message(locale: Locale, text: Seq<char>)
    ensures
        response::preformatted_view(locale, text).text == response::truncated(locale, text),
        text.len() == 0 ==> response::preformatted_view(locale, text).entities.len() == 0,
        text.len() > 0 ==> response::preformatted_view(locale, text).entities == seq![
            EntityView::Pre {
                offset: 0,
                length: utf16::utf16_len(response::truncated(locale, text)) as int,
                language: Seq::empty(),
            },
        ],
{
    let kept = texts_are_cut_at_their_last_line(locale, text);
    lemma_marks(locale);
    utf16::lemma_len_bounds(text);
    utf16::lemma_len_bounds(cut_mark(locale));
    response::truncation_fits(locale, text);
}

/// Whether a character is shown: all but control characters, of which only line breaks and tabs are, and
/// the characters that change the direction of text.
pub open spec fn shown(c: char) -> bool {
    ||| c as int == 9
    ||| c as int == 10
    ||| c as int >= 32 && !(127 <= c as int && (c as int) < 160)
        && !laws::text::direction_codes().contains(c as int)
}

/// Whether a character is one of the letters that end an escape sequence.
pub open spec fn ends_escape(c: char) -> bool {
    (65 <= c as int && c as int <= 90) || (97 <= c as int && c as int <= 122)
}

/// Whether no escape sequence begins in a text.
pub open spec fn without_escapes(text: Seq<char>) -> bool {
    forall|i: int| 0 <= i < text.len() ==> #[trigger] text[i] as int != 27
}

proof fn lemma_after_escape(parameters: Seq<char>, behind: Seq<char>)
    requires
        forall|i: int| 0 <= i < parameters.len() ==> !ends_escape(#[trigger] parameters[i]),
    ensures
        response::after_escape(parameters).len() == 0,
        behind.len() > 0 && ends_escape(behind[0]) ==> response::after_escape(parameters + behind)
            == behind.skip(1),
    decreases parameters.len(),
{
    if parameters.len() == 0 {
        assert(parameters + behind == behind);
    } else {
        laws::text::control_characters_are_unicodes(parameters[0]);
        assert(!ends_escape(parameters[0]));
        let rest = parameters.skip(1);
        assert forall|i: int| 0 <= i < rest.len() implies !ends_escape(#[trigger] rest[i]) by {
            assert(parameters[i + 1] == rest[i]);
        }
        lemma_after_escape(rest, behind);
        assert((parameters + behind).skip(1) == rest + behind);
    }
}

/// Before its first escape sequence a text loses exactly the characters that are not shown; the others
/// keep their order. What stands behind is treated by itself.
pub proof fn shown_characters_are_kept(before: Seq<char>, behind: Seq<char>)
    requires
        without_escapes(before),
    ensures
        response::sanitized(before) == before.filter(|c: char| shown(c)),
        response::sanitized(before + behind) == response::sanitized(before) + response::sanitized(
            behind,
        ),
    decreases before.len(),
{
    if before.len() == 0 {
        assert(before + behind == behind);
        assert(response::sanitized(before) + response::sanitized(behind) == response::sanitized(
            behind,
        ));
        reveal(Seq::filter);
    } else {
        let c = before[0];
        let rest = before.skip(1);
        laws::text::directional_characters_are_unicodes(c);
        laws::text::control_characters_are_unicodes(c);
        assert(c as int != 27);
        assert forall|i: int| 0 <= i < rest.len() implies #[trigger] rest[i] as int != 27 by {
            assert(before[i + 1] == rest[i]);
        }
        shown_characters_are_kept(rest, behind);
        assert((before + behind).skip(1) == rest + behind);
        let pred = |c: char| shown(c);
        assert(before == seq![c] + rest);
        Seq::filter_distributes_over_add(seq![c], rest, pred);
        assert(seq![c].filter(pred) == (if shown(c) { seq![c] } else { Seq::empty() })) by {
            reveal(Seq::filter);
            assert(seq![c].drop_last() == Seq::<char>::empty());
            assert(Seq::<char>::empty().filter(pred) == Seq::<char>::empty());
            assert(Seq::<char>::empty().push(c) == seq![c]);
        }
        assert(response::printable(c) == shown(c));
        if shown(c) {
            assert(seq![c] + (response::sanitized(rest) + response::sanitized(behind)) == seq![c]
                + response::sanitized(rest) + response::sanitized(behind));
        } else {
            assert(Seq::<char>::empty() + rest.filter(pred) == rest.filter(pred));
        }
    }
}

/// An escape sequence, from the escape character to the first ASCII letter behind it, is lost as a whole
/// and takes nothing with it; one that never ends takes the rest of the text.
pub proof fn escape_sequences_are_removed(
    before: Seq<char>,
    escape: char,
    parameters: Seq<char>,
    letter: char,
    behind: Seq<char>,
)
    requires
        without_escapes(before),
        escape as int == 27,
        forall|i: int| 0 <= i < parameters.len() ==> !ends_escape(#[trigger] parameters[i]),
        ends_escape(letter),
    ensures
        response::sanitized(before + seq![escape] + parameters + seq![letter] + behind)
            == response::sanitized(before) + response::sanitized(behind),
        response::sanitized(before + seq![escape] + parameters) == response::sanitized(before),
{
    let sequence = seq![escape] + parameters;
    let rest = seq![escape] + (parameters + (seq![letter] + behind));
    assert(escape == '\x1b');
    lemma_after_escape(parameters, seq![letter] + behind);
    assert((seq![letter] + behind).skip(1) == behind);
    assert(rest.skip(1) == parameters + (seq![letter] + behind));
    assert(sequence.skip(1) == parameters);
    shown_characters_are_kept(before, rest);
    shown_characters_are_kept(before, sequence);
    assert(before + rest == before + seq![escape] + parameters + seq![letter] + behind);
    assert(before + sequence == before + seq![escape] + parameters);
    assert(response::sanitized(sequence) == response::sanitized(
        response::after_escape(parameters),
    ));
    assert(response::sanitized(before) + response::sanitized(sequence) == response::sanitized(
        before,
    ));
}

/// A quotation of a stretch of a message.
pub open spec fn quotation(offset: nat, text: Seq<char>, collapsed: bool) -> EntityView {
    EntityView::Blockquote { offset: offset as int, length: utf16::utf16_len(text) as int, collapsed }
}

/// The quotation of a section; an empty section has none.
pub open spec fn section_quotation(offset: nat, section: Seq<char>) -> Seq<EntityView> {
    if section.len() == 0 {
        Seq::empty()
    } else {
        seq![quotation(offset, section, false)]
    }
}

proof fn lemma_section_end(section: Seq<char>, behind: Seq<char>)
    requires
        forall|at: int|
            at < section.len() ==> !#[trigger] laws::text::stands_at(section + behind, gap(), at),
        behind.len() == 0 || laws::text::stands_at(behind, gap(), 0),
    ensures
        response::section_end(section + behind) == section.len(),
    decreases section.len(),
{
    let whole = section + behind;
    if section.len() == 0 {
        assert(whole == behind);
        if behind.len() > 0 {
            assert(gap()[0] == '\n' && gap()[1] == '\n');
            assert(behind.subrange(0, 2) == gap());
        }
    } else {
        if response::section_end(whole) == 0 {
            assert(whole.subrange(0, 2) == gap());
            assert(laws::text::stands_at(whole, gap(), 0)) by {
                assert forall|i: int| 0 <= i < gap().len() implies whole[0 + i] == #[trigger] gap()[i] by {
                    assert(whole.subrange(0, 2)[i] == gap()[i]);
                }
            }
        }
        let rest = section.skip(1);
        assert(whole.skip(1) == rest + behind);
        assert forall|at: int| at < rest.len() implies !#[trigger] laws::text::stands_at(
            rest + behind,
            gap(),
            at,
        ) by {
            if laws::text::stands_at(rest + behind, gap(), at) {
                assert forall|i: int| 0 <= i < gap().len() implies whole[at + 1 + i] == #[trigger] gap()[i] by {
                    assert((rest + behind)[at + i] == gap()[i]);
                }
                assert(laws::text::stands_at(whole, gap(), at + 1));
            }
        }
        lemma_section_end(rest, behind);
    }
}

/// Sections that empty lines set apart are quoted one by one, each from its first character to its last.
pub proof fn sections_are_quoted_one_by_one(section: Seq<char>, others: Seq<char>, offset: nat)
    requires
        forall|at: int|
            at < section.len() ==> !#[trigger] laws::text::stands_at(
                section + (gap() + others),
                gap(),
                at,
            ),
    ensures
        response::section_quotes(section + gap() + others, offset as int) == section_quotation(
            offset,
            section,
        ) + response::section_quotes(others, (offset + utf16::utf16_len(section) + 2) as int),
{
    let behind = gap() + others;
    let whole = section + behind;
    assert(laws::text::stands_at(behind, gap(), 0)) by {
        assert forall|i: int| 0 <= i < gap().len() implies behind[0 + i] == #[trigger] gap()[i] by {}
    }
    lemma_section_end(section, behind);
    assert(whole == section + gap() + others);
    assert(whole.take(section.len() as int) == section);
    assert(whole.skip((section.len() + 2) as int) == others);
}

/// A section that nothing follows is quoted from its first character to its last.
pub proof fn the_last_section_is_quoted(section: Seq<char>, offset: nat)
    requires
        forall|at: int| !#[trigger] laws::text::stands_at(section, gap(), at),
    ensures
        response::section_quotes(section, offset as int) == section_quotation(offset, section),
{
    assert(section + Seq::<char>::empty() == section);
    lemma_section_end(section, Seq::empty());
    assert(section.take(section.len() as int) == section);
}

/// Whether a section is not empty and holds no empty line, not even with the line break behind it.
pub open spec fn one_section(section: Seq<char>) -> bool {
    section.len() > 0 && forall|i: int|
        0 <= i < section.len() ==> !(#[trigger] section[i] == '\n' && (i == section.len() - 1
            || section[i + 1] == '\n'))
}

proof fn lemma_one_section(section: Seq<char>, behind: Seq<char>)
    requires
        one_section(section),
    ensures
        forall|at: int|
            at < section.len() ==> !#[trigger] laws::text::stands_at(section + behind, gap(), at),
        forall|at: int| !#[trigger] laws::text::stands_at(section, gap(), at),
{
    assert forall|at: int| at < section.len() implies !#[trigger] laws::text::stands_at(
        section + behind,
        gap(),
        at,
    ) by {
        if laws::text::stands_at(section + behind, gap(), at) {
            assert(gap()[0] == '\n' && gap()[1] == '\n');
            assert((section + behind)[at + 0] == gap()[0]);
            assert((section + behind)[at + 1] == gap()[1]);
            assert(section[at] == '\n');
        }
    }
    assert forall|at: int| !#[trigger] laws::text::stands_at(section, gap(), at) by {
        if laws::text::stands_at(section, gap(), at) {
            assert(gap()[0] == '\n' && gap()[1] == '\n');
            assert(section[at + 0] == gap()[0]);
            assert(section[at + 1] == gap()[1]);
            assert(section[at] == '\n');
        }
    }
}

/// A message of exactly four sections shows each of them as a quotation; whatever the sections, the text
/// is shown, and there are four quotations or none.
pub proof fn four_sections_are_quoted(
    locale: Locale,
    a: Seq<char>,
    b: Seq<char>,
    c: Seq<char>,
    d: Seq<char>,
    any: Seq<char>,
)
    requires
        one_section(a) && one_section(b) && one_section(c) && one_section(d),
        utf16::utf16_len(a + gap() + b + gap() + c + gap() + d) <= 4096,
    ensures
        response::four_blockquotes_view(locale, a + gap() + b + gap() + c + gap() + d) == (ResponseView {
            text: a + gap() + b + gap() + c + gap() + d,
            entities: seq![
                quotation(0, a, false),
                quotation(utf16::utf16_len(a) + 2, b, false),
                quotation(utf16::utf16_len(a) + utf16::utf16_len(b) + 4, c, false),
                quotation(
                    utf16::utf16_len(a) + utf16::utf16_len(b) + utf16::utf16_len(c) + 6,
                    d,
                    false,
                ),
            ],
        }),
        response::four_blockquotes_view(locale, any).text == response::truncated(locale, any),
        response::four_blockquotes_view(locale, any).entities.len() == 4
            || response::four_blockquotes_view(locale, any).entities.len() == 0,
{
    let cd = c + gap() + d;
    let bcd = b + gap() + cd;
    let whole = a + gap() + bcd;
    assert(whole == a + gap() + b + gap() + c + gap() + d);
    texts_are_cut_at_their_last_line(locale, whole);
    response::truncation_fits(locale, any);
    lemma_one_section(a, gap() + bcd);
    lemma_one_section(b, gap() + cd);
    lemma_one_section(c, gap() + d);
    lemma_one_section(d, Seq::empty());
    let ob = utf16::utf16_len(a) + 2;
    let oc = ob + utf16::utf16_len(b) + 2;
    let od = oc + utf16::utf16_len(c) + 2;
    sections_are_quoted_one_by_one(a, bcd, 0);
    sections_are_quoted_one_by_one(b, cd, ob);
    sections_are_quoted_one_by_one(c, d, oc);
    the_last_section_is_quoted(d, od);
    let quotes = response::section_quotes(whole, 0);
    assert(quotes == seq![quotation(0, a, false)] + (seq![quotation(ob, b, false)] + (seq![
        quotation(oc, c, false),
    ] + seq![quotation(od, d, false)])));
    assert(quotes == seq![
        quotation(0, a, false),
        quotation(ob, b, false),
        quotation(oc, c, false),
        quotation(od, d, false),
    ]);
}

/// A heading over a body that fit one message are shown in full, the body as a collapsed quotation.
/// Without a body nothing is quoted.
pub proof fn bodies_are_collapsed_under_their_heading(
    locale: Locale,
    heading: Seq<char>,
    body: Seq<char>,
)
    requires
        utf16::utf16_len(heading) + 2 + utf16::utf16_len(body) <= 4096,
    ensures
        response::collapsed_view(locale, heading, body).0.text == heading + gap() + body,
        body.len() > 0 ==> response::collapsed_view(locale, heading, body).0.entities == seq![
            quotation(utf16::utf16_len(heading) + 2, body, true),
        ] && !response::collapsed_view(locale, heading, body).1,
        body.len() == 0 ==> response::collapsed_view(locale, heading, body).0.entities.len() == 0
            && response::collapsed_view(locale, heading, body).1,
{
    let prefix = heading + gap();
    let whole = prefix + body;
    lemma_gap();
    utf16::lemma_len_add(heading, gap());
    utf16::lemma_len_add(prefix, body);
    texts_are_cut_at_their_last_line(locale, whole);
    assert(gap() == response::blank_line());
    assert(whole.take(prefix.len() as int) == prefix);
    assert(whole.skip(prefix.len() as int) == body);
}

/// A body that is too long for its heading is cut, and what is shown of it stays quoted to the end of the
/// message.
pub proof fn long_bodies_stay_collapsed(locale: Locale, heading: Seq<char>, body: Seq<char>) -> (kept:
    int)
    requires
        utf16::utf16_len(heading) + 2 <= cut_budget(locale),
        utf16::utf16_len(heading) + 2 + utf16::utf16_len(body) > 4096,
    ensures
        0 <= kept < body.len(),
        ({
            let quoted = body.take(kept) + cut_mark(locale);
            &&& response::collapsed_view(locale, heading, body).0.text == heading + gap() + quoted
            &&& response::collapsed_view(locale, heading, body).0.entities == seq![
                quotation(utf16::utf16_len(heading) + 2, quoted, true),
            ]
            &&& !response::collapsed_view(locale, heading, body).1
        }),
{
    let prefix = heading + gap();
    let whole = prefix + body;
    lemma_gap();
    lemma_marks(locale);
    utf16::lemma_len_add(heading, gap());
    utf16::lemma_len_add(prefix, body);
    let end = texts_are_cut_at_their_last_line(locale, whole);
    let n = prefix.len() as int;
    assert(whole.take(n) == prefix);
    assert(whole[n - 1] == '\n');
    if end < n {
        assert(utf16::utf16_len(whole.take(n)) <= cut_budget(locale));
        assert(whole[n - 1] != '\n');
    }
    let kept = end - n;
    let quoted = body.take(kept) + cut_mark(locale);
    let text = response::truncated(locale, whole);
    assert(whole.take(end) == prefix + body.take(kept));
    assert(text == prefix + quoted);
    assert(text.take(n) == prefix);
    assert(text.skip(n) == quoted);
    utf16::lemma_len_bounds(cut_mark(locale));
    assert(gap() == response::blank_line());
    if kept == body.len() {
        assert(whole.take(end) == whole);
    }
    kept
}

/// A documentation card that fits one message shows its heading, its documentation as a collapsed
/// quotation and its source as an open one, all in full.
pub proof fn cards_quote_documentation_and_source(
    locale: Locale,
    heading: Seq<char>,
    primary: Seq<char>,
    provenance: Seq<char>,
)
    requires
        heading.len() > 0 && primary.len() > 0 && provenance.len() > 0,
        utf16::utf16_len(heading) + utf16::utf16_len(primary) + utf16::utf16_len(provenance) + 4 <= 4096,
    ensures
        ({
            let (card, fallback) = response::documentation_card_view(
                locale,
                heading,
                primary,
                provenance,
            );
            &&& !fallback
            &&& card.text == heading + gap() + primary + gap() + provenance
            &&& card.entities == seq![
                quotation(utf16::utf16_len(heading) + 2, primary, true),
                quotation(
                    utf16::utf16_len(heading) + utf16::utf16_len(primary) + 4,
                    provenance,
                    false,
                ),
            ]
        }),
{
    lemma_gap();
    utf16::lemma_len_bounds(primary);
    utf16::lemma_len_add(heading, gap());
    utf16::lemma_len_add(heading + gap(), primary);
    utf16::lemma_len_add(heading + gap() + primary, gap());
    let reserved = utf16::utf16_len(heading) + utf16::utf16_len(provenance) + 4;
    texts_are_cut_to_a_limit(
        primary,
        (4096 - reserved) as nat,
        crate::i18n::response_text(locale, crate::i18n::ResponseText::DocumentationTruncated)@,
    );
    assert(gap() == response::blank_line());
}

/// A documentation card that is too long loses the end of its documentation and nothing else: the
/// heading and the source are shown in full, and as much documentation as there is room for.
pub proof fn long_cards_lose_documentation_alone(
    locale: Locale,
    heading: Seq<char>,
    primary: Seq<char>,
    provenance: Seq<char>,
) -> (kept: int)
    requires
        heading.len() > 0 && primary.len() > 0 && provenance.len() > 0,
        utf16::utf16_len(heading) + utf16::utf16_len(primary) + utf16::utf16_len(provenance) + 4 > 4096,
        utf16::utf16_len(heading) + utf16::utf16_len(provenance) + 4 + utf16::utf16_len(
            documentation_mark(locale),
        ) < 4096,
    ensures
        0 <= kept < primary.len(),
        ({
            let quoted = primary.take(kept) + documentation_mark(locale);
            let (card, fallback) = response::documentation_card_view(
                locale,
                heading,
                primary,
                provenance,
            );
            &&& !fallback
            &&& card.text == heading + gap() + quoted + gap() + provenance
            &&& card.entities == seq![
                quotation(utf16::utf16_len(heading) + 2, quoted, true),
                quotation(
                    utf16::utf16_len(heading) + utf16::utf16_len(quoted) + 4,
                    provenance,
                    false,
                ),
            ]
            &&& utf16::utf16_len(card.text) <= 4096
            &&& utf16::utf16_len(heading) + utf16::utf16_len(primary.take(kept + 1))
                + utf16::utf16_len(documentation_mark(locale)) + utf16::utf16_len(provenance) + 4 > 4096
        }),
{
    lemma_gap();
    lemma_marks(locale);
    let reserved = utf16::utf16_len(heading) + utf16::utf16_len(provenance) + 4;
    let mark = documentation_mark(locale);
    let kept = texts_are_cut_to_a_limit(primary, (4096 - reserved) as nat, mark);
    let quoted = primary.take(kept) + mark;
    utf16::lemma_len_add(primary.take(kept), mark);
    utf16::lemma_len_bounds(quoted);
    utf16::lemma_len_add(heading, gap());
    utf16::lemma_len_add(heading + gap(), quoted);
    utf16::lemma_len_add(heading + gap() + quoted, gap());
    utf16::lemma_len_add(heading + gap() + quoted + gap(), provenance);
    assert(gap() == response::blank_line());
    kept
}

/// Where a documentation card is not formatted, it tells its heading, its documentation and its source
/// under their labels, in full where they fit.
pub proof fn unformatted_cards_are_labelled(
    locale: Locale,
    heading: Seq<char>,
    primary: Seq<char>,
    provenance: Seq<char>,
)
    requires
        utf16::utf16_len(heading) <= 1000 && utf16::utf16_len(primary) <= 1000 && utf16::utf16_len(
            provenance,
        ) <= 1000,
        heading.len() == 0 || primary.len() == 0 || provenance.len() == 0,
    ensures
        ({
            let (card, fallback) = response::documentation_card_view(
                locale,
                heading,
                primary,
                provenance,
            );
            let (documentation, main, source) = match locale {
                Locale::English => ("Documentation: "@, "\nPrimary: "@, "\nSource: "@),
                Locale::Russian => ("Документация: "@, "\nОсновное: "@, "\nИсточник: "@),
            };
            &&& fallback
            &&& card.entities.len() == 0
            &&& card.text == documentation + heading + main + primary + source + provenance
        }),
{
    reveal_strlit("Documentation");
    reveal_strlit("Primary");
    reveal_strlit("Source");
    reveal_strlit("Документация");
    reveal_strlit("Основное");
    reveal_strlit("Источник");
    reveal_strlit("Documentation: ");
    reveal_strlit("\nPrimary: ");
    reveal_strlit("\nSource: ");
    reveal_strlit("Документация: ");
    reveal_strlit("\nОсновное: ");
    reveal_strlit("\nИсточник: ");
    reveal_strlit(": ");
    reveal_strlit("\n");
    reveal_strlit(": \n");
    let (documentation, main, source) = match locale {
        Locale::English => ("Documentation: "@, "\nPrimary: "@, "\nSource: "@),
        Locale::Russian => ("Документация: "@, "\nОсновное: "@, "\nИсточник: "@),
    };
    let doc = response::documentation_label(locale)@;
    let label = response::primary_label(locale)@;
    let from = response::source_label(locale)@;
    let labels = doc + ": \n"@ + label + ": \n"@;
    let line = from + ": "@ + provenance;
    utf16::lemma_len_bounds(labels);
    utf16::lemma_len_add(from + ": "@, provenance);
    utf16::lemma_len_bounds(from + ": "@);
    assert(documentation == doc + ": "@);
    assert(main == "\n"@ + label + ": "@);
    assert(source == "\n"@ + from + ": "@);
    assert(doc + ": "@ + heading + "\n"@ + label + ": "@ + primary + "\n"@ + line == documentation
        + heading + main + primary + source + provenance);
}

/// The result of an external module is its sanitized text over the line that tells where it comes from.
/// A result that is too long loses the end of its text and nothing else.
pub proof fn results_lose_the_end_of_their_text_alone(
    locale: Locale,
    output: Seq<char>,
    provenance: Seq<char>,
) -> (kept: int)
    requires
        utf16::utf16_len(provenance) + 2 + utf16::utf16_len(cut_mark(locale)) < 4096,
    ensures
        ({
            let clean = response::sanitized(output);
            let result = response::external_result_view(locale, output, provenance);
            &&& result.entities.len() == 0
            &&& if utf16::utf16_len(clean) + 2 + utf16::utf16_len(provenance) <= 4096 {
                result.text == clean + gap() + provenance
            } else {
                &&& 0 <= kept < clean.len()
                &&& result.text == clean.take(kept) + cut_mark(locale) + gap() + provenance
                &&& utf16::utf16_len(result.text) <= 4096
                &&& utf16::utf16_len(clean.take(kept + 1)) + utf16::utf16_len(cut_mark(locale)) + 2
                    + utf16::utf16_len(provenance) > 4096
            }
        }),
{
    lemma_gap();
    assert(gap() == response::blank_line());
    let clean = response::sanitized(output);
    let footer = gap() + provenance;
    let mark = cut_mark(locale);
    utf16::lemma_len_add(gap(), provenance);
    let room = (4096 - utf16::utf16_len(footer)) as nat;
    let kept = texts_are_cut_to_a_limit(clean, room, mark);
    let shown = response::truncated_to(clean, room, mark);
    utf16::lemma_len_add(shown, footer);
    utf16::lemma_len_add(clean.take(kept), mark);
    texts_are_cut_at_their_last_line(locale, shown + footer);
    assert(clean + footer == clean + gap() + provenance);
    assert(clean.take(kept) + mark + footer == clean.take(kept) + mark + gap() + provenance);
    kept
}

/// An unformatted card that does not fit shares the room that its labels and its source leave: half for the
/// heading, and the other half for the documentation. The source is shown in full where it fits at all.
pub proof fn unformatted_cards_share_their_room(
    locale: Locale,
    heading: Seq<char>,
    primary: Seq<char>,
    provenance: Seq<char>,
)
    ensures
        ({
            let (documentation, main, source) = match locale {
                Locale::English => ("Documentation"@, "Primary"@, "Source"@),
                Locale::Russian => ("Документация"@, "Основное"@, "Источник"@),
            };
            let card = response::documentation_fallback_view(locale, heading, primary, provenance);
            let line = source + ": "@ + provenance;
            let labels = utf16::utf16_len(documentation + ": \n"@ + main + ": \n"@);
            let room = 4096 - labels - utf16::utf16_len(line) - 1;
            &&& card.entities.len() == 0
            &&& utf16::utf16_len(line) > 4096 ==> card.text == response::truncated(locale, line)
            &&& utf16::utf16_len(line) <= 4096 && room < 0 ==> card.text == line
            &&& utf16::utf16_len(line) <= 4096 && room >= 0 ==> card.text == documentation + ": "@
                + response::truncated_to(heading, (room / 2) as nat, documentation_mark(locale)) + "\n"@
                + main + ": "@ + response::truncated_to(
                primary,
                (room - room / 2) as nat,
                documentation_mark(locale),
            ) + "\n"@ + line
        }),
{
}

/// Without a heading, documentation or source, and where heading and source leave no room, a card is not
/// formatted; nor is one whose documentation is lost as a whole, which then tells none.
pub proof fn cards_without_room_are_unformatted(
    locale: Locale,
    heading: Seq<char>,
    primary: Seq<char>,
    provenance: Seq<char>,
)
    ensures
        ({
            let card = response::documentation_card_view(locale, heading, primary, provenance);
            let reserved = utf16::utf16_len(heading) + utf16::utf16_len(provenance) + 4;
            let fallback = |shown: Seq<char>|
                response::documentation_fallback_view(locale, heading, shown, provenance);
            &&& heading.len() == 0 || primary.len() == 0 || provenance.len() == 0 || reserved >= 4096
                ==> card == (fallback(primary), true)
            &&& heading.len() > 0 && primary.len() > 0 && provenance.len() > 0 && reserved < 4096
                && reserved + utf16::utf16_len(primary) > 4096 && reserved + utf16::utf16_len(
                documentation_mark(locale),
            ) >= 4096 ==> card == (fallback(Seq::empty()), true)
        }),
{
    let reserved = utf16::utf16_len(heading) + utf16::utf16_len(provenance) + 4;
    if reserved < 4096 {
        let limit = (4096 - reserved) as nat;
        texts_are_cut_to_a_limit(primary, limit, documentation_mark(locale));
        let shown = response::truncated_to(primary, limit, documentation_mark(locale));
        if shown.len() == 0 {
            assert(shown == Seq::<char>::empty());
        }
    }
}

} // verus!
