//! Responses: a text that fits one Telegram message, and the entities that format it.
use crate::i18n::{external_module_provenance, response_text, Locale, ResponseText};
use crate::text;
use crate::utf16;
use crate::utf16::{count_units, fitting_end};
use vstd::prelude::*;
use vstd::string::*;

verus! {

/// The most UTF-16 code units that one message may take.
pub const MAX_UTF16_UNITS: usize = 4096;

/// What ends an English text that was cut.
pub const TRUNCATION_SUFFIX: &'static str = "… output truncated";

/// What ends a Russian documentation text that was cut.
pub const DOCUMENTATION_TRUNCATION_SUFFIX: &'static str = "… описание сокращено";

/// A quoted stretch of a message, in UTF-16 code units.
#[derive(Clone, Copy, Debug, PartialEq, Eq, Structural)]
pub struct MessageEntityBlockquote {
    pub offset: i32,
    pub length: i32,
    pub collapsed: bool,
}

/// A preformatted stretch of a message, in UTF-16 code units.
#[derive(Clone, Debug, PartialEq, Eq)]
pub struct MessageEntityPre {
    pub offset: i32,
    pub length: i32,
    pub language: String,
}

/// How a stretch of a message is formatted.
#[derive(Clone, Debug, PartialEq, Eq)]
pub enum MessageEntity {
    Blockquote(MessageEntityBlockquote),
    Pre(MessageEntityPre),
}

/// The model of a [`MessageEntity`].
pub enum EntityView {
    Blockquote { offset: int, length: int, collapsed: bool },
    Pre { offset: int, length: int, language: Seq<char> },
}

impl View for MessageEntity {
    type V = EntityView;

    open spec fn view(&self) -> EntityView {
        match self {
            MessageEntity::Blockquote(quote) => EntityView::Blockquote {
                offset: quote.offset as int,
                length: quote.length as int,
                collapsed: quote.collapsed,
            },
            MessageEntity::Pre(pre) => EntityView::Pre {
                offset: pre.offset as int,
                length: pre.length as int,
                language: pre.language@,
            },
        }
    }
}

/// A message to show: its text and the entities that format it.
#[derive(Clone, Debug, PartialEq)]
pub struct Response {
    pub text: String,
    pub entities: Vec<MessageEntity>,
}

/// The model of a [`Response`].
#[verifier::ext_equal]
pub struct ResponseView {
    pub text: Seq<char>,
    pub entities: Seq<EntityView>,
}

impl View for Response {
    type V = ResponseView;

    open spec fn view(&self) -> ResponseView {
        ResponseView {
            text: self.text@,
            entities: self.entities@.map_values(|entity: MessageEntity| entity@),
        }
    }
}

/// A response, and whether its formatting had to be given up.
pub struct RenderedResponse {
    pub response: Response,
    pub entity_fallback: bool,
}

/// `text` up to and with its last line break, or nothing where it has none.
pub open spec fn through_last_newline(text: Seq<char>) -> Seq<char>
    decreases text.len(),
{
    if text.len() == 0 || text.last() == '\n' {
        text
    } else {
        through_last_newline(text.drop_last())
    }
}

/// `text` cut at its last line break, where it has one.
pub open spec fn cut_at_line(text: Seq<char>) -> Seq<char> {
    if through_last_newline(text).len() == 0 {
        text
    } else {
        through_last_newline(text)
    }
}

/// `text` made to fit one message: left alone where it fits, else cut, at a line break where there
/// is one, and marked as cut.
pub open spec fn truncated(locale: Locale, text: Seq<char>) -> Seq<char> {
    let suffix = response_text(locale, ResponseText::Truncated)@;
    if utf16::utf16_len(text) <= MAX_UTF16_UNITS {
        text
    } else {
        cut_at_line(
            utf16::fitting_prefix(text, (MAX_UTF16_UNITS - utf16::utf16_len(suffix)) as nat),
        ) + suffix
    }
}

/// `text` made to fit `limit` code units: left alone where it fits, else cut and marked with
/// `suffix`, and dropped where not even the mark leaves room.
pub open spec fn truncated_to(text: Seq<char>, limit: nat, suffix: Seq<char>) -> Seq<char> {
    if utf16::utf16_len(text) <= limit {
        text
    } else if limit <= utf16::utf16_len(suffix) {
        Seq::empty()
    } else {
        utf16::fitting_prefix(text, (limit - utf16::utf16_len(suffix)) as nat) + suffix
    }
}

/// A response without formatting.
pub open spec fn plain_view(locale: Locale, text: Seq<char>) -> ResponseView {
    ResponseView { text: truncated(locale, text), entities: Seq::empty() }
}

proof fn lemma_through_last_newline(text: Seq<char>)
    ensures
        through_last_newline(text).len() <= text.len(),
        through_last_newline(text) == text.take(through_last_newline(text).len() as int),
    decreases text.len(),
{
    if text.len() == 0 || text.last() == '\n' {
        assert(text.take(text.len() as int) == text);
    } else {
        lemma_through_last_newline(text.drop_last());
        let n = through_last_newline(text.drop_last()).len() as int;
        assert(text.drop_last().take(n) == text.take(n));
    }
}

/// The marks that end a cut text are short.
proof fn lemma_suffix_fits(locale: Locale)
    ensures
        utf16::utf16_len(response_text(locale, ResponseText::Truncated)@) <= 36,
        utf16::utf16_len(response_text(locale, ResponseText::DocumentationTruncated)@) <= 50,
        response_text(locale, ResponseText::Truncated)@.len() > 0,
        response_text(locale, ResponseText::DocumentationTruncated)@.len() > 0,
{
    reveal_strlit("… output truncated");
    reveal_strlit("… вывод сокращён");
    reveal_strlit("… documentation truncated");
    reveal_strlit("… описание сокращено");
    utf16::lemma_len_bounds(response_text(locale, ResponseText::Truncated)@);
    utf16::lemma_len_bounds(response_text(locale, ResponseText::DocumentationTruncated)@);
}

/// Every truncated text fits one message; one that fits already is left alone.
pub proof fn truncation_fits(locale: Locale, text: Seq<char>)
    ensures
        utf16::utf16_len(truncated(locale, text)) <= MAX_UTF16_UNITS,
        utf16::utf16_len(text) <= MAX_UTF16_UNITS ==> truncated(locale, text) == text,
        truncated(locale, truncated(locale, text)) == truncated(locale, text),
{
    let suffix = response_text(locale, ResponseText::Truncated)@;
    lemma_suffix_fits(locale);
    let prefix = utf16::fitting_prefix(text, (MAX_UTF16_UNITS - utf16::utf16_len(suffix)) as nat);
    utf16::lemma_fitting_prefix(text, (MAX_UTF16_UNITS - utf16::utf16_len(suffix)) as nat);
    lemma_through_last_newline(prefix);
    utf16::lemma_len_prefix(prefix, through_last_newline(prefix).len() as int);
    utf16::lemma_len_add(cut_at_line(prefix), suffix);
}

/// A text that does not fit is cut to a beginning of it, followed by the locale's mark.
pub proof fn truncation_keeps_a_prefix(locale: Locale, text: Seq<char>)
    requires
        utf16::utf16_len(text) > MAX_UTF16_UNITS,
    ensures
        exists|kept: int|
            0 <= kept < text.len() && #[trigger] text.take(kept) + response_text(
                locale,
                ResponseText::Truncated,
            )@ == truncated(locale, text),
{
    let suffix = response_text(locale, ResponseText::Truncated)@;
    lemma_suffix_fits(locale);
    let limit = (MAX_UTF16_UNITS - utf16::utf16_len(suffix)) as nat;
    let prefix = utf16::fitting_prefix(text, limit);
    utf16::lemma_fitting_prefix(text, limit);
    lemma_through_last_newline(prefix);
    let kept = cut_at_line(prefix).len() as int;
    assert(prefix.take(kept) == text.take(kept));
    assert(prefix.take(kept) == cut_at_line(prefix)) by {
        if through_last_newline(prefix).len() == 0 {
            assert(prefix.take(prefix.len() as int) == prefix);
        }
    }
    if kept == text.len() {
        assert(text.take(kept) == text);
        utf16::lemma_len_prefix(prefix, kept);
    }
}

/// A text cut to a limit keeps to it.
pub proof fn truncation_to_a_limit_fits(text: Seq<char>, limit: nat, suffix: Seq<char>)
    ensures
        utf16::utf16_len(truncated_to(text, limit, suffix)) <= limit,
{
    if utf16::utf16_len(text) > limit && limit > utf16::utf16_len(suffix) {
        let room = (limit - utf16::utf16_len(suffix)) as nat;
        utf16::lemma_fitting_prefix(text, room);
        utf16::lemma_len_add(utf16::fitting_prefix(text, room), suffix);
    }
}

/// [`truncated`] in English.
pub fn truncate_utf16(text: &str) -> (result: String)
    ensures
        result@ == truncated(Locale::English, text@),
{
    truncate_utf16_with_locale(Locale::English, text)
}

/// [`truncated`] as a string.
pub fn truncate_utf16_with_locale(locale: Locale, text: &str) -> (result: String)
    ensures
        result@ == truncated(locale, text@),
{
    if count_units(text) <= MAX_UTF16_UNITS as u128 {
        return text.to_owned();
    }
    proof {
        lemma_suffix_fits(locale);
    }
    let suffix = response_text(locale, ResponseText::Truncated);
    let limit: u128 = MAX_UTF16_UNITS as u128 - count_units(suffix);
    let chars = text::chars_of(text);
    let end: usize = fitting_end(&chars, limit);
    let ghost prefix = chars@.take(end as int);
    let mut cut: usize = end;
    assert(prefix == chars@.take(cut as int));
    while cut > 0 && chars[cut - 1] != '\n'
        invariant
            cut <= end <= chars@.len(),
            through_last_newline(prefix) == through_last_newline(chars@.take(cut as int)),
        decreases cut,
    {
        assert(chars@.take(cut as int).drop_last() == chars@.take(cut - 1));
        cut = cut - 1;
    }
    let end: usize = if cut == 0 {
        end
    } else {
        cut
    };
    let mut result = text::string_of(&chars, 0, end);
    result.append(suffix);
    result
}

/// [`truncated_to`] as a string.
pub fn truncate_to_utf16(text: &str, limit: u128, suffix: &str) -> (result: String)
    ensures
        result@ == truncated_to(text@, limit as nat, suffix@),
{
    if count_units(text) <= limit {
        return text.to_owned();
    }
    let suffix_units: u128 = count_units(suffix);
    if limit <= suffix_units {
        return String::new();
    }
    let chars = text::chars_of(text);
    let end: usize = fitting_end(&chars, limit - suffix_units);
    let mut result = text::string_of(&chars, 0, end);
    result.append(suffix);
    result
}

/// What follows an escape sequence: everything after its first ASCII letter.
pub open spec fn after_escape(text: Seq<char>) -> Seq<char>
    decreases text.len(),
{
    if text.len() == 0 {
        text
    } else if text::ascii_letter(text[0]) {
        text.skip(1)
    } else {
        after_escape(text.skip(1))
    }
}

/// What follows an escape sequence is no longer than the text that holds it.
pub proof fn lemma_after_escape(text: Seq<char>)
    ensures
        after_escape(text).len() <= text.len(),
    decreases text.len(),
{
    if text.len() > 0 && !text::ascii_letter(text[0]) {
        lemma_after_escape(text.skip(1));
    }
}

/// Whether a character may be shown as it is.
pub open spec fn printable(c: char) -> bool {
    c == '\n' || c == '\t' || (!text::control(c) && !text::bidi_control(c))
}

/// `text` without terminal escape sequences and without the characters that may not be shown.
pub open spec fn sanitized(text: Seq<char>) -> Seq<char>
    decreases text.len(),
{
    if text.len() == 0 {
        text
    } else if text[0] == '\x1b' {
        proof {
            lemma_after_escape(text.skip(1));
        }
        sanitized(after_escape(text.skip(1)))
    } else if printable(text[0]) {
        seq![text[0]] + sanitized(text.skip(1))
    } else {
        sanitized(text.skip(1))
    }
}

/// Sanitized text holds only characters that may be shown.
pub proof fn sanitized_is_printable(text: Seq<char>)
    ensures
        forall|i: int|
            0 <= i < sanitized(text).len() ==> printable(#[trigger] sanitized(text)[i]),
    decreases text.len(),
{
    if text.len() > 0 {
        let rest = if text[0] == '\x1b' {
            after_escape(text.skip(1))
        } else {
            text.skip(1)
        };
        lemma_after_escape(text.skip(1));
        sanitized_is_printable(rest);
        if text[0] != '\x1b' && printable(text[0]) {
            assert(sanitized(text) == seq![text[0]] + sanitized(rest));
            assert forall|i: int| 0 <= i < sanitized(text).len() implies printable(
                #[trigger] sanitized(text)[i],
            ) by {
                if i > 0 {
                    assert(sanitized(text)[i] == sanitized(rest)[i - 1]);
                }
            }
        } else {
            assert(sanitized(text) == sanitized(rest));
        }
    }
}

/// Text that holds only characters that may be shown is left alone.
pub proof fn printable_text_is_kept(text: Seq<char>)
    requires
        forall|i: int| 0 <= i < text.len() ==> printable(#[trigger] text[i]),
    ensures
        sanitized(text) == text,
    decreases text.len(),
{
    if text.len() > 0 {
        assert(printable(text[0]));
        assert forall|i: int| 0 <= i < text.skip(1).len() implies printable(
            #[trigger] text.skip(1)[i],
        ) by {
            assert(printable(text[i + 1]));
        }
        printable_text_is_kept(text.skip(1));
        assert(seq![text[0]] + text.skip(1) == text);
    }
}

/// Sanitizing twice is sanitizing once.
pub proof fn sanitizing_is_idempotent(text: Seq<char>)
    ensures
        sanitized(sanitized(text)) == sanitized(text),
{
    sanitized_is_printable(text);
    printable_text_is_kept(sanitized(text));
}

/// [`sanitized`] as a string.
pub fn sanitize_external_output(text: &str) -> (result: String)
    ensures
        result@ == sanitized(text@),
{
    let chars = text::chars_of(text);
    let mut result = String::new();
    let mut i: usize = 0;
    assert(chars@.skip(0) == chars@);
    while i < chars.len()
        invariant
            i <= chars@.len(),
            sanitized(chars@) == result@ + sanitized(chars@.skip(i as int)),
        decreases chars@.len() - i,
    {
        let c = chars[i];
        let ghost before = result@;
        let ghost rest = chars@.skip(i as int);
        assert(rest.skip(1) == chars@.skip(i + 1));
        i = i + 1;
        if c == '\x1b' {
            let ghost start = i;
            let ghost sequence = chars@.skip(i as int);
            let mut ended = false;
            while i < chars.len() && !ended
                invariant
                    start <= i <= chars@.len(),
                    after_escape(sequence) == (if ended {
                        chars@.skip(i as int)
                    } else {
                        after_escape(chars@.skip(i as int))
                    }),
                decreases chars@.len() - i,
            {
                assert(chars@.skip(i as int).skip(1) == chars@.skip(i + 1));
                ended = text::is_ascii_letter(chars[i]);
                i = i + 1;
            }
            assert(after_escape(sequence) == chars@.skip(i as int));
        } else if c == '\n' || c == '\t' || (!text::is_control(c) && !text::is_bidi_control(c)) {
            result.push(c);
            assert(before + (seq![c] + sanitized(rest.skip(1))) == result@ + sanitized(
                rest.skip(1),
            ));
        }
    }
    assert(result@ + sanitized(chars@.skip(i as int)) == result@);
    result
}

/// The empty line between two sections.
pub open spec fn blank_line() -> Seq<char> {
    seq!['\n', '\n']
}

/// Where the first section of `text` ends: at the first empty line, or at the end of the text.
pub open spec fn section_end(text: Seq<char>) -> nat
    decreases text.len(),
{
    if text.len() == 0 || text::occurs_at(text, blank_line(), 0) {
        0
    } else {
        1 + section_end(text.skip(1))
    }
}

/// The first section ends inside the text, and what ends it is an empty line.
pub proof fn lemma_section_end(text: Seq<char>)
    ensures
        section_end(text) <= text.len(),
        section_end(text) < text.len() ==> text::occurs_at(
            text,
            blank_line(),
            section_end(text) as int,
        ),
    decreases text.len(),
{
    if text.len() > 0 && !text::occurs_at(text, blank_line(), 0) {
        lemma_section_end(text.skip(1));
        let end = section_end(text.skip(1)) as int;
        if end < text.skip(1).len() {
            assert(text.skip(1).subrange(end, end + 2) == text.subrange(end + 1, end + 3));
        }
    }
}

/// One quotation per non-empty section of `text`, which starts at `offset` of the message.
pub open spec fn section_quotes(text: Seq<char>, offset: int) -> Seq<EntityView>
    decreases text.len(),
{
    let end = section_end(text) as int;
    let length = utf16::utf16_len(text.take(end));
    let own = if end > 0 {
        seq![EntityView::Blockquote { offset, length: length as int, collapsed: false }]
    } else {
        Seq::empty()
    };
    proof {
        lemma_section_end(text);
    }
    if end >= text.len() {
        own
    } else {
        own + section_quotes(text.skip(end + 2), offset + length + 2)
    }
}

/// A response of four quoted sections; any other number of sections is shown without quotation.
pub open spec fn four_blockquotes_view(locale: Locale, text: Seq<char>) -> ResponseView {
    let shown = truncated(locale, text);
    if section_quotes(shown, 0).len() == 4 {
        ResponseView { text: shown, entities: section_quotes(shown, 0) }
    } else {
        plain_view(locale, shown)
    }
}

/// A response that is preformatted as a whole; an empty text has no formatting.
pub open spec fn preformatted_view(locale: Locale, text: Seq<char>) -> ResponseView {
    let shown = truncated(locale, text);
    if shown.len() == 0 {
        plain_view(locale, shown)
    } else {
        ResponseView {
            text: shown,
            entities: seq![
                EntityView::Pre {
                    offset: 0,
                    length: utf16::utf16_len(shown) as int,
                    language: Seq::empty(),
                },
            ],
        }
    }
}

/// A heading over a collapsed quotation; formatting is given up where truncation leaves nothing
/// of the body.
pub open spec fn collapsed_view(
    locale: Locale,
    heading: Seq<char>,
    body: Seq<char>,
) -> (ResponseView, bool) {
    let prefix = heading + blank_line();
    let shown = truncated(locale, prefix + body);
    if prefix.len() < shown.len() && shown.take(prefix.len() as int) == prefix {
        (
            ResponseView {
                text: shown,
                entities: seq![
                    EntityView::Blockquote {
                        offset: utf16::utf16_len(prefix) as int,
                        length: utf16::utf16_len(shown.skip(prefix.len() as int)) as int,
                        collapsed: true,
                    },
                ],
            },
            false,
        )
    } else {
        (plain_view(locale, shown), true)
    }
}

/// A documentation card without formatting: labelled lines, with the source always complete where
/// it fits at all.
pub open spec fn documentation_fallback_view(
    locale: Locale,
    heading: Seq<char>,
    primary: Seq<char>,
    provenance: Seq<char>,
) -> ResponseView {
    let source = source_label(locale)@ + ": "@ + provenance;
    let labels = documentation_label(locale)@ + ": \n"@ + primary_label(locale)@ + ": \n"@;
    let reserved = utf16::utf16_len(labels) + utf16::utf16_len(source) + 1;
    if utf16::utf16_len(source) > MAX_UTF16_UNITS {
        plain_view(locale, source)
    } else if reserved > MAX_UTF16_UNITS {
        ResponseView { text: source, entities: Seq::empty() }
    } else {
        let budget = (MAX_UTF16_UNITS - reserved) as nat;
        let suffix = response_text(locale, ResponseText::DocumentationTruncated)@;
        ResponseView {
            text: documentation_label(locale)@ + ": "@ + truncated_to(heading, budget / 2, suffix)
                + "\n"@ + primary_label(locale)@ + ": "@ + truncated_to(
                primary,
                (budget - budget / 2) as nat,
                suffix,
            ) + "\n"@ + source,
            entities: Seq::empty(),
        }
    }
}

/// A documentation card: a heading, a collapsed quotation of the documentation, and a quotation of
/// its complete source. The documentation is cut where the whole would not fit. Without a heading,
/// documentation or source, or without room for documentation, formatting is given up.
pub open spec fn documentation_card_view(
    locale: Locale,
    heading: Seq<char>,
    primary: Seq<char>,
    provenance: Seq<char>,
) -> (ResponseView, bool) {
    let reserved = utf16::utf16_len(heading) + utf16::utf16_len(provenance) + 4;
    let shown = truncated_to(
        primary,
        (MAX_UTF16_UNITS - reserved) as nat,
        response_text(locale, ResponseText::DocumentationTruncated)@,
    );
    if heading.len() == 0 || primary.len() == 0 || provenance.len() == 0 || reserved
        >= MAX_UTF16_UNITS {
        (documentation_fallback_view(locale, heading, primary, provenance), true)
    } else if shown.len() == 0 {
        (documentation_fallback_view(locale, heading, shown, provenance), true)
    } else {
        let before = heading + blank_line();
        let between = before + shown + blank_line();
        (
            ResponseView {
                text: between + provenance,
                entities: seq![
                    EntityView::Blockquote {
                        offset: utf16::utf16_len(before) as int,
                        length: utf16::utf16_len(shown) as int,
                        collapsed: true,
                    },
                    EntityView::Blockquote {
                        offset: utf16::utf16_len(between) as int,
                        length: utf16::utf16_len(provenance) as int,
                        collapsed: false,
                    },
                ],
            },
            false,
        )
    }
}

/// The line under an external module's result that tells where it comes from.
pub open spec fn provenance_line(
    locale: Locale,
    display_name: Seq<char>,
    module_id: Seq<char>,
    version: Seq<char>,
) -> Seq<char> {
    crate::i18n::interpolated(
        response_text(locale, ResponseText::ExternalModuleProvenance)@,
        seq![("name"@, display_name), ("id"@, module_id), ("version"@, version)],
    )
}

/// An external module's result: its sanitized text, cut where it would push its provenance out of
/// the message, and the provenance.
pub open spec fn external_result_view(
    locale: Locale,
    module_text: Seq<char>,
    provenance: Seq<char>,
) -> ResponseView {
    let footer = blank_line() + provenance;
    let room = if utf16::utf16_len(footer) <= MAX_UTF16_UNITS {
        (MAX_UTF16_UNITS - utf16::utf16_len(footer)) as nat
    } else {
        0
    };
    let shown = if utf16::utf16_len(sanitized(module_text)) + utf16::utf16_len(footer)
        <= MAX_UTF16_UNITS {
        sanitized(module_text)
    } else {
        truncated_to(
            sanitized(module_text),
            room,
            response_text(locale, ResponseText::Truncated)@,
        )
    };
    plain_view(locale, shown + footer)
}

proof fn lemma_blank_line()
    ensures
        "\n\n"@ == blank_line(),
        utf16::utf16_len(blank_line()) == 2,
{
    reveal_strlit("\n\n");
    assert("\n\n"@ == blank_line());
    assert(blank_line().drop_last() == seq!['\n']);
    assert(seq!['\n'].drop_last() == Seq::<char>::empty());
    reveal_with_fuel(utf16::utf16_len, 3);
}

/// Where an entity starts.
pub open spec fn entity_start(entity: EntityView) -> int {
    match entity {
        EntityView::Blockquote { offset, .. } => offset,
        EntityView::Pre { offset, .. } => offset,
    }
}

/// Where an entity ends.
pub open spec fn entity_end(entity: EntityView) -> int {
    match entity {
        EntityView::Blockquote { offset, length, .. } => offset + length,
        EntityView::Pre { offset, length, .. } => offset + length,
    }
}

/// Whether the entities are non-empty, lie in order in `from..to` and do not overlap.
pub open spec fn entities_within(entities: Seq<EntityView>, from: int, to: int) -> bool {
    &&& forall|i: int|
        0 <= i < entities.len() ==> from <= entity_start(#[trigger] entities[i]) < entity_end(
            entities[i],
        ) <= to
    &&& forall|i: int, j: int|
        0 <= i < j < entities.len() ==> entity_end(#[trigger] entities[i]) <= entity_start(
            #[trigger] entities[j],
        )
}

/// Whether a response can be sent: the text fits one message, and the entities are non-empty, in
/// order, apart from each other and inside the text.
pub open spec fn sendable(response: ResponseView) -> bool {
    &&& utf16::utf16_len(response.text) <= MAX_UTF16_UNITS
    &&& entities_within(response.entities, 0, utf16::utf16_len(response.text) as int)
}

proof fn lemma_section_quotes(text: Seq<char>, offset: int)
    ensures
        entities_within(section_quotes(text, offset), offset, offset + utf16::utf16_len(text)),
    decreases text.len(),
{
    lemma_section_end(text);
    lemma_blank_line();
    let end = section_end(text) as int;
    let head = text.take(end);
    let length = utf16::utf16_len(head);
    utf16::lemma_len_bounds(head);
    utf16::lemma_len_prefix(text, end);
    if end < text.len() {
        let rest = text.skip(end + 2);
        assert(text.subrange(end, end + 2) == blank_line());
        assert(text == head + blank_line() + rest);
        utf16::lemma_len_add(head, blank_line());
        utf16::lemma_len_add(head + blank_line(), rest);
        lemma_section_quotes(rest, offset + length + 2);
        let tail = section_quotes(rest, offset + length + 2);
        let own = if end > 0 {
            seq![EntityView::Blockquote { offset, length: length as int, collapsed: false }]
        } else {
            Seq::empty()
        };
        let all = section_quotes(text, offset);
        assert(all == own + tail);
        assert forall|i: int| 0 <= i < all.len() implies offset <= entity_start(
            #[trigger] all[i],
        ) < entity_end(all[i]) <= offset + utf16::utf16_len(text) by {
            if i >= own.len() {
                assert(all[i] == tail[i - own.len()]);
            }
        }
        assert forall|i: int, j: int| 0 <= i < j < all.len() implies entity_end(
            #[trigger] all[i],
        ) <= entity_start(#[trigger] all[j]) by {
            assert(all[j] == tail[j - own.len()]);
            if i >= own.len() {
                assert(all[i] == tail[i - own.len()]);
            }
        }
    }
}

/// A plain response can be sent, whatever its text.
pub proof fn plain_is_sendable(locale: Locale, text: Seq<char>)
    ensures
        sendable(plain_view(locale, text)),
{
    truncation_fits(locale, text);
}

/// A response of quoted sections can be sent, whatever its text.
pub proof fn four_blockquotes_are_sendable(locale: Locale, text: Seq<char>)
    ensures
        sendable(four_blockquotes_view(locale, text)),
{
    truncation_fits(locale, text);
    truncation_fits(locale, truncated(locale, text));
    lemma_section_quotes(truncated(locale, text), 0);
}

/// A preformatted response can be sent, whatever its text.
pub proof fn preformatted_is_sendable(locale: Locale, text: Seq<char>)
    ensures
        sendable(preformatted_view(locale, text)),
{
    truncation_fits(locale, text);
    truncation_fits(locale, truncated(locale, text));
    utf16::lemma_len_bounds(truncated(locale, text));
}

/// A collapsed response can be sent, whatever its parts.
pub proof fn collapsed_is_sendable(locale: Locale, heading: Seq<char>, body: Seq<char>)
    ensures
        sendable(collapsed_view(locale, heading, body).0),
{
    let prefix = heading + blank_line();
    let shown = truncated(locale, prefix + body);
    truncation_fits(locale, prefix + body);
    truncation_fits(locale, shown);
    if prefix.len() < shown.len() && shown.take(prefix.len() as int) == prefix {
        let inner = shown.skip(prefix.len() as int);
        assert(shown == prefix + inner);
        utf16::lemma_len_add(prefix, inner);
        utf16::lemma_len_bounds(inner);
    }
}

/// A documentation card can be sent, whatever its parts.
pub proof fn documentation_card_is_sendable(
    locale: Locale,
    heading: Seq<char>,
    primary: Seq<char>,
    provenance: Seq<char>,
)
    ensures
        sendable(documentation_card_view(locale, heading, primary, provenance).0),
{
    let reserved = utf16::utf16_len(heading) + utf16::utf16_len(provenance) + 4;
    let limit = (MAX_UTF16_UNITS - reserved) as nat;
    let suffix = response_text(locale, ResponseText::DocumentationTruncated)@;
    let shown = truncated_to(primary, limit, suffix);
    lemma_blank_line();
    fallback_is_sendable(locale, heading, primary, provenance);
    fallback_is_sendable(locale, heading, shown, provenance);
    if reserved < MAX_UTF16_UNITS {
        truncation_to_a_limit_fits(primary, limit, suffix);
        let before = heading + blank_line();
        let between = before + shown + blank_line();
        utf16::lemma_len_add(heading, blank_line());
        utf16::lemma_len_add(before, shown);
        utf16::lemma_len_add(before + shown, blank_line());
        utf16::lemma_len_add(between, provenance);
        utf16::lemma_len_bounds(shown);
        utf16::lemma_len_bounds(provenance);
    }
}

/// A documentation card without formatting can be sent, whatever its parts.
pub proof fn fallback_is_sendable(
    locale: Locale,
    heading: Seq<char>,
    primary: Seq<char>,
    provenance: Seq<char>,
)
    ensures
        sendable(documentation_fallback_view(locale, heading, primary, provenance)),
{
    let source = source_label(locale)@ + ": "@ + provenance;
    let doc = documentation_label(locale)@;
    let main = primary_label(locale)@;
    let labels = doc + ": \n"@ + main + ": \n"@;
    let reserved = utf16::utf16_len(labels) + utf16::utf16_len(source) + 1;
    truncation_fits(locale, source);
    if reserved <= MAX_UTF16_UNITS {
        let budget = (MAX_UTF16_UNITS - reserved) as nat;
        let suffix = response_text(locale, ResponseText::DocumentationTruncated)@;
        let h = truncated_to(heading, budget / 2, suffix);
        let p = truncated_to(primary, (budget - budget / 2) as nat, suffix);
        truncation_to_a_limit_fits(heading, budget / 2, suffix);
        truncation_to_a_limit_fits(primary, (budget - budget / 2) as nat, suffix);
        reveal_strlit(": \n");
        reveal_strlit(": ");
        reveal_strlit("\n");
        assert(": \n"@ == ": "@ + "\n"@);
        utf16::lemma_len_add(": "@, "\n"@);
        utf16::lemma_len_add(doc, ": \n"@);
        utf16::lemma_len_add(doc + ": \n"@, main);
        utf16::lemma_len_add(doc + ": \n"@ + main, ": \n"@);
        utf16::lemma_len_add(doc, ": "@);
        utf16::lemma_len_add(doc + ": "@, h);
        utf16::lemma_len_add(doc + ": "@ + h, "\n"@);
        utf16::lemma_len_add(doc + ": "@ + h + "\n"@, main);
        utf16::lemma_len_add(doc + ": "@ + h + "\n"@ + main, ": "@);
        utf16::lemma_len_add(doc + ": "@ + h + "\n"@ + main + ": "@, p);
        utf16::lemma_len_add(doc + ": "@ + h + "\n"@ + main + ": "@ + p, "\n"@);
        utf16::lemma_len_add(doc + ": "@ + h + "\n"@ + main + ": "@ + p + "\n"@, source);
    }
}

/// A documentation card ends with its complete source whenever the source line fits one message.
pub proof fn documentation_card_keeps_its_source(
    locale: Locale,
    heading: Seq<char>,
    primary: Seq<char>,
    provenance: Seq<char>,
)
    requires
        utf16::utf16_len(source_label(locale)@ + ": "@ + provenance) <= MAX_UTF16_UNITS,
    ensures
        exists|before: Seq<char>| #[trigger]
            (before + provenance) == documentation_card_view(
                locale,
                heading,
                primary,
                provenance,
            ).0.text,
{
    let card = documentation_card_view(locale, heading, primary, provenance);
    let kept = card.0.text.len() - provenance.len();
    assert(card.0.text.skip(kept) == provenance);
    assert(card.0.text.take(kept) + provenance == card.0.text);
}

/// An external result ends with its complete provenance whenever that fits one message.
pub proof fn external_result_keeps_its_provenance(
    locale: Locale,
    module_text: Seq<char>,
    provenance: Seq<char>,
)
    requires
        utf16::utf16_len(blank_line() + provenance) <= MAX_UTF16_UNITS,
    ensures
        exists|shown: Seq<char>| #[trigger]
            (shown + blank_line() + provenance) == external_result_view(
                locale,
                module_text,
                provenance,
            ).text,
        utf16::utf16_len(sanitized(module_text) + blank_line() + provenance) <= MAX_UTF16_UNITS
            ==> external_result_view(locale, module_text, provenance).text == sanitized(module_text)
            + blank_line() + provenance,
{
    let footer = blank_line() + provenance;
    let clean = sanitized(module_text);
    let suffix = response_text(locale, ResponseText::Truncated)@;
    let room = (MAX_UTF16_UNITS - utf16::utf16_len(footer)) as nat;
    let shown = if utf16::utf16_len(clean) + utf16::utf16_len(footer) <= MAX_UTF16_UNITS {
        clean
    } else {
        truncated_to(clean, room, suffix)
    };
    truncation_to_a_limit_fits(clean, room, suffix);
    utf16::lemma_len_add(shown, footer);
    utf16::lemma_len_add(clean, footer);
    assert(clean + footer == clean + blank_line() + provenance);
    assert(shown + footer == shown + blank_line() + provenance);
    truncation_fits(locale, shown + footer);
}

/// The label of a heading.
#[verifier::allow_in_spec]
pub fn documentation_label(locale: Locale) -> &'static str
    returns
        (match locale {
            Locale::English => "Documentation",
            Locale::Russian => "Документация",
        }),
{
    match locale {
        Locale::English => "Documentation",
        Locale::Russian => "Документация",
    }
}

/// The label of documentation.
#[verifier::allow_in_spec]
pub fn primary_label(locale: Locale) -> &'static str
    returns
        (match locale {
            Locale::English => "Primary",
            Locale::Russian => "Основное",
        }),
{
    match locale {
        Locale::English => "Primary",
        Locale::Russian => "Основное",
    }
}

/// The label of a source.
#[verifier::allow_in_spec]
pub fn source_label(locale: Locale) -> &'static str
    returns
        (match locale {
            Locale::English => "Source",
            Locale::Russian => "Источник",
        }),
{
    match locale {
        Locale::English => "Source",
        Locale::Russian => "Источник",
    }
}

/// Where the section that starts at `from` ends.
fn find_section_end(chars: &Vec<char>, from: usize) -> (end: usize)
    requires
        from <= chars@.len(),
    ensures
        from <= end <= chars@.len(),
        end - from == section_end(chars@.skip(from as int)),
{
    let blank = vec!['\n', '\n'];
    assert(blank@ == blank_line());
    let mut end: usize = from;
    while end < chars.len() && !text::matches_at(chars, &blank, end)
        invariant
            from <= end <= chars@.len(),
            blank@ == blank_line(),
            section_end(chars@.skip(from as int)) == (end - from) + section_end(
                chars@.skip(end as int),
            ),
        decreases chars@.len() - end,
    {
        let ghost rest = chars@.skip(end as int);
        proof {
            assert(rest.skip(1) == chars@.skip(end + 1));
            if rest.len() >= 2 {
                assert(rest.subrange(0, 2) == chars@.subrange(end as int, end + 2));
            }
        }
        end = end + 1;
    }
    proof {
        let rest = chars@.skip(end as int);
        if end < chars@.len() {
            assert(rest.subrange(0, 2) == chars@.subrange(end as int, end + 2));
        }
    }
    end
}

impl Response {
    /// [`four_blockquotes_view`] as a response.
    pub fn four_blockquotes_with_locale(locale: Locale, text: String) -> (response: Self)
        ensures
            response@ == four_blockquotes_view(locale, text@),
    {
        let shown = truncate_utf16_with_locale(locale, text.as_str());
        let chars = text::chars_of(shown.as_str());
        proof {
            truncation_fits(locale, text@);
            lemma_blank_line();
            assert(chars@.skip(0) == chars@);
            assert(chars@.take(0) == Seq::<char>::empty());
        }
        let mut entities: Vec<MessageEntity> = Vec::new();
        let ghost mut quotes: Seq<EntityView> = Seq::empty();
        let mut start: usize = 0;
        let mut offset: i32 = 0;
        let mut more = true;
        while more
            invariant
                start <= chars@.len(),
                chars@ == shown@,
                utf16::utf16_len(shown@) <= MAX_UTF16_UNITS,
                offset == utf16::utf16_len(chars@.take(start as int)),
                quotes == entities@.map_values(|entity: MessageEntity| entity@),
                section_quotes(chars@, 0) == (if more {
                    quotes + section_quotes(chars@.skip(start as int), offset as int)
                } else {
                    quotes
                }),
            decreases chars@.len() - start, (if more { 1int } else { 0int }),
        {
            let ghost rest = chars@.skip(start as int);
            let ghost before = quotes;
            let end: usize = find_section_end(&chars, start);
            let section = text::string_of(&chars, start, end);
            proof {
                lemma_section_end(rest);
                lemma_blank_line();
                assert(rest.take(end - start) == section@);
                assert(chars@.take(end as int) == chars@.take(start as int) + section@);
                utf16::lemma_len_add(chars@.take(start as int), section@);
                utf16::lemma_len_prefix(chars@, end as int);
                utf16::lemma_len_bounds(section@);
            }
            let length: i32 = count_units(section.as_str()) as i32;
            if length > 0 {
                let quote = MessageEntityBlockquote { offset, length, collapsed: false };
                let entity = MessageEntity::Blockquote(quote);
                proof {
                    quotes = quotes.push(entity@);
                }
                entities.push(entity);
                assert(quotes == entities@.map_values(|entity: MessageEntity| entity@));
                assert(quotes == before + seq![entity@]);
            } else {
                assert(quotes == before + Seq::<EntityView>::empty());
            }
            if end == chars.len() {
                more = false;
            } else {
                proof {
                    assert(rest.subrange(end - start, end - start + 2) == blank_line());
                    assert(chars@.take(end + 2) == chars@.take(end as int) + blank_line());
                    utf16::lemma_len_add(chars@.take(end as int), blank_line());
                    utf16::lemma_len_prefix(chars@, end + 2);
                    assert(rest.skip(end - start + 2) == chars@.skip(end + 2));
                    assert(before + (quotes.skip(before.len() as int) + section_quotes(
                        chars@.skip(end + 2),
                        offset + length + 2,
                    )) == quotes + section_quotes(chars@.skip(end + 2), offset + length + 2));
                    assert(quotes.skip(before.len() as int) == (if end > start {
                        seq![
                            EntityView::Blockquote {
                                offset: offset as int,
                                length: length as int,
                                collapsed: false,
                            },
                        ]
                    } else {
                        Seq::empty()
                    }));
                }
                start = end + 2;
                offset = offset + length + 2;
            }
        }
        if entities.len() == 4 {
            Response { text: shown, entities }
        } else {
            Response::plain_with_locale(locale, shown.as_str())
        }
    }

    /// A plain English response.
    pub fn plain(text: &str) -> (response: Self)
        ensures
            response@ == plain_view(Locale::English, text@),
    {
        Response::plain_with_locale(Locale::English, text)
    }

    /// [`plain_view`] as a response.
    pub fn plain_with_locale(locale: Locale, text: &str) -> (response: Self)
        ensures
            response@ == plain_view(locale, text@),
            response.entities@.len() == 0,
    {
        let response = Response {
            text: truncate_utf16_with_locale(locale, text),
            entities: Vec::new(),
        };
        assert(response@.entities == Seq::<EntityView>::empty());
        response
    }

    /// A preformatted English response.
    pub fn preformatted(text: &str) -> (response: Self)
        ensures
            response@ == preformatted_view(Locale::English, text@),
    {
        Response::preformatted_with_locale(Locale::English, text)
    }

    /// [`preformatted_view`] as a response.
    pub fn preformatted_with_locale(locale: Locale, text: &str) -> (response: Self)
        ensures
            response@ == preformatted_view(locale, text@),
    {
        let shown = truncate_utf16_with_locale(locale, text);
        proof {
            truncation_fits(locale, text@);
        }
        if shown.as_str().is_empty() {
            return Response::plain_with_locale(locale, shown.as_str());
        }
        let length: i32 = count_units(shown.as_str()) as i32;
        let pre = MessageEntity::Pre(
            MessageEntityPre { offset: 0, length, language: String::new() },
        );
        let response = Response { text: shown, entities: vec![pre] };
        assert(response@.entities == preformatted_view(locale, text@).entities);
        response
    }

    /// A heading over a collapsed quotation, in English.
    pub fn collapsed(heading: String, body: String) -> (rendered: RenderedResponse)
        ensures
            (rendered.response@, rendered.entity_fallback) == collapsed_view(
                Locale::English,
                heading@,
                body@,
            ),
    {
        Response::collapsed_with_locale(Locale::English, heading, body)
    }

    /// [`collapsed_view`] as a response.
    pub fn collapsed_with_locale(locale: Locale, heading: String, body: String) -> (rendered:
        RenderedResponse)
        ensures
            (rendered.response@, rendered.entity_fallback) == collapsed_view(
                locale,
                heading@,
                body@,
            ),
    {
        let mut prefix = heading;
        prefix.append("\n\n");
        proof {
            lemma_blank_line();
        }
        let mut whole = prefix.clone();
        whole.append(body.as_str());
        let shown = truncate_utf16_with_locale(locale, whole.as_str());
        proof {
            truncation_fits(locale, whole@);
        }
        let shown_chars = text::chars_of(shown.as_str());
        let prefix_chars = text::chars_of(prefix.as_str());
        proof {
            if prefix@.len() <= shown@.len() {
                assert(shown@.subrange(0, prefix@.len() as int) == shown@.take(
                    prefix@.len() as int,
                ));
            }
        }
        if shown_chars.len() <= prefix_chars.len() || !text::matches_at(
            &shown_chars,
            &prefix_chars,
            0,
        ) {
            return RenderedResponse {
                response: Response::plain_with_locale(locale, shown.as_str()),
                entity_fallback: true,
            };
        }
        let inner = text::string_of(&shown_chars, prefix_chars.len(), shown_chars.len());
        proof {
            assert(inner@ == shown@.skip(prefix@.len() as int));
            assert(shown@ == prefix@ + inner@);
            utf16::lemma_len_add(prefix@, inner@);
        }
        let offset: i32 = count_units(prefix.as_str()) as i32;
        let length: i32 = count_units(inner.as_str()) as i32;
        let quote = MessageEntity::Blockquote(
            MessageEntityBlockquote { offset, length, collapsed: true },
        );
        let response = Response { text: shown, entities: vec![quote] };
        assert(response@.entities == collapsed_view(locale, heading@, body@).0.entities);
        RenderedResponse { response, entity_fallback: false }
    }

    /// [`documentation_card_view`] as a response.
    pub fn documentation_card(
        locale: Locale,
        heading: String,
        primary: String,
        provenance: String,
    ) -> (rendered: RenderedResponse)
        ensures
            (rendered.response@, rendered.entity_fallback) == documentation_card_view(
                locale,
                heading@,
                primary@,
                provenance@,
            ),
    {
        if heading.as_str().is_empty() || primary.as_str().is_empty()
            || provenance.as_str().is_empty() {
            return documentation_fallback(locale, heading, primary, provenance);
        }
        let heading_units: u128 = count_units(heading.as_str());
        let provenance_units: u128 = count_units(provenance.as_str());
        if heading_units >= MAX_UTF16_UNITS as u128 || provenance_units >= MAX_UTF16_UNITS as u128
            || heading_units + provenance_units + 4 >= MAX_UTF16_UNITS as u128 {
            return documentation_fallback(locale, heading, primary, provenance);
        }
        let available: u128 = MAX_UTF16_UNITS as u128 - (heading_units + provenance_units + 4);
        let shown = truncate_to_utf16(
            primary.as_str(),
            available,
            response_text(locale, ResponseText::DocumentationTruncated),
        );
        if shown.as_str().is_empty() {
            return documentation_fallback(locale, heading, shown, provenance);
        }
        let mut text = heading;
        text.append("\n\n");
        proof {
            lemma_blank_line();
            utf16::lemma_len_add(heading@, blank_line());
            truncation_to_a_limit_fits(
                primary@,
                available as nat,
                response_text(locale, ResponseText::DocumentationTruncated)@,
            );
        }
        let primary_offset: i32 = count_units(text.as_str()) as i32;
        let primary_length: i32 = count_units(shown.as_str()) as i32;
        let ghost before = text@;
        text.append(shown.as_str());
        text.append("\n\n");
        proof {
            utf16::lemma_len_add(before, shown@);
            utf16::lemma_len_add(before + shown@, blank_line());
        }
        let provenance_offset: i32 = count_units(text.as_str()) as i32;
        let provenance_length: i32 = count_units(provenance.as_str()) as i32;
        text.append(provenance.as_str());
        let response = Response {
            text,
            entities: vec![
                MessageEntity::Blockquote(
                    MessageEntityBlockquote {
                        offset: primary_offset,
                        length: primary_length,
                        collapsed: true,
                    },
                ),
                MessageEntity::Blockquote(
                    MessageEntityBlockquote {
                        offset: provenance_offset,
                        length: provenance_length,
                        collapsed: false,
                    },
                ),
            ],
        };
        assert(response@.entities == documentation_card_view(
            locale,
            heading@,
            primary@,
            provenance@,
        ).0.entities);
        RenderedResponse { response, entity_fallback: false }
    }

    /// An external module's result with its provenance, as [`external_result_view`] says.
    pub fn external_result(
        locale: Locale,
        module_text: &str,
        display_name: &str,
        module_id: &str,
        version: &str,
    ) -> (response: Self)
        ensures
            response@ == external_result_view(
                locale,
                module_text@,
                provenance_line(locale, display_name@, module_id@, version@),
            ),
    {
        let clean = sanitize_external_output(module_text);
        let mut footer = "\n\n".to_owned();
        footer.append(
            external_module_provenance(locale, display_name, module_id, version).as_str(),
        );
        proof {
            lemma_blank_line();
        }
        let footer_units: u128 = count_units(footer.as_str());
        let limit: u128 = MAX_UTF16_UNITS as u128;
        let room: u128 = if footer_units <= limit {
            limit - footer_units
        } else {
            0
        };
        let clean_units: u128 = count_units(clean.as_str());
        let mut shown = if footer_units <= limit && clean_units <= room {
            clean
        } else {
            truncate_to_utf16(
                clean.as_str(),
                room,
                response_text(locale, ResponseText::Truncated),
            )
        };
        shown.append(footer.as_str());
        Response::plain_with_locale(locale, shown.as_str())
    }
}

/// [`documentation_fallback_view`] as a response.
pub fn documentation_fallback(
    locale: Locale,
    heading: String,
    primary: String,
    provenance: String,
) -> (rendered: RenderedResponse)
    ensures
        rendered.response@ == documentation_fallback_view(
            locale,
            heading@,
            primary@,
            provenance@,
        ),
        rendered.entity_fallback,
{
    let mut source = source_label(locale).to_owned();
    source.append(": ");
    source.append(provenance.as_str());
    let limit: u128 = MAX_UTF16_UNITS as u128;
    let source_units: u128 = count_units(source.as_str());
    if source_units > limit {
        return RenderedResponse {
            response: Response::plain_with_locale(locale, source.as_str()),
            entity_fallback: true,
        };
    }
    let mut labels = documentation_label(locale).to_owned();
    labels.append(": \n");
    labels.append(primary_label(locale));
    labels.append(": \n");
    let label_units: u128 = count_units(labels.as_str());
    if label_units > limit || label_units + source_units + 1 > limit {
        let response = Response { text: source, entities: Vec::new() };
        assert(response@.entities == Seq::<EntityView>::empty());
        return RenderedResponse { response, entity_fallback: true };
    }
    let budget: u128 = limit - (label_units + source_units + 1);
    let suffix = response_text(locale, ResponseText::DocumentationTruncated);
    let mut text = documentation_label(locale).to_owned();
    text.append(": ");
    text.append(truncate_to_utf16(heading.as_str(), budget / 2, suffix).as_str());
    text.append("\n");
    text.append(primary_label(locale));
    text.append(": ");
    text.append(truncate_to_utf16(primary.as_str(), budget - budget / 2, suffix).as_str());
    text.append("\n");
    text.append(source.as_str());
    let response = Response { text, entities: Vec::new() };
    assert(response@.entities == Seq::<EntityView>::empty());
    RenderedResponse { response, entity_fallback: true }
}

} // verus!
