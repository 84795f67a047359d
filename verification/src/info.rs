//! Facts about the running instance: its owner, its deployment, its system and its revision.
use crate::text;
use vstd::prelude::*;
use vstd::string::*;
use vstd::utf8::*;

verus! {

/// The most bytes of an os-release file that are looked at.
pub const MAX_OS_RELEASE_READ_BYTES: usize = 16384;

/// The most characters of a system name that are shown.
pub const MAX_PRETTY_NAME_CHARS: usize = 128;

/// Who owns the account.
pub struct SelfIdentity {
    pub username: Option<String>,
    pub display_name: Option<String>,
    pub id: i64,
}

/// The characters of a name, where there is one that is not empty.
pub open spec fn given(name: Option<String>) -> Option<Seq<char>> {
    match name {
        Some(name) => if name@.len() > 0 {
            Some(name@)
        } else {
            None
        },
        None => None,
    }
}

/// The most readable label of the owner: the username, else the display name, else the account
/// number.
pub open spec fn owner_name(identity: SelfIdentity) -> Seq<char> {
    match given(identity.username) {
        Some(username) => "@"@ + username,
        None => match given(identity.display_name) {
            Some(display_name) => display_name,
            None => text::signed_decimal(identity.id as int),
        },
    }
}

/// [`owner_name`] as a string.
pub fn owner_label(identity: &SelfIdentity) -> (label: String)
    ensures
        label@ == owner_name(*identity),
{
    if let Some(username) = &identity.username {
        if !username.as_str().is_empty() {
            let mut label = "@".to_owned();
            label.append(username.as_str());
            return label;
        }
    }
    if let Some(display_name) = &identity.display_name {
        if !display_name.as_str().is_empty() {
            return display_name.clone();
        }
    }
    text::to_signed_decimal(identity.id)
}

/// The label of a packaging entry point.
pub open spec fn deployment(marker: Option<Seq<char>>) -> Seq<char> {
    match marker {
        Some(marker) => if marker == "nixos-module"@ {
            "NixOS module"@
        } else if marker == "nix-run"@ {
            "nix run"@
        } else if marker == "nix-package"@ {
            "Nix package"@
        } else {
            "standalone"@
        },
        None => "standalone"@,
    }
}

/// The label of the packaging entry point that started the process.
pub fn deployment_label(host_marker: Option<&str>) -> (label: &'static str)
    ensures
        label@ == deployment(
            match host_marker {
                Some(marker) => Some(marker@),
                None => None,
            },
        ),
        label == (match host_marker {
            Some(marker) => if marker@ == "nixos-module"@ {
                "NixOS module"
            } else if marker@ == "nix-run"@ {
                "nix run"
            } else if marker@ == "nix-package"@ {
                "Nix package"
            } else {
                "standalone"
            },
            None => "standalone",
        }),
{
    match host_marker {
        Some(marker) => {
            if text::same_text(marker, "nixos-module") {
                "NixOS module"
            } else if text::same_text(marker, "nix-run") {
                "nix run"
            } else if text::same_text(marker, "nix-package") {
                "Nix package"
            } else {
                "standalone"
            }
        },
        None => "standalone",
    }
}

/// `std::str::from_utf8` succeeds exactly on valid UTF-8, and the text it gives is encoded by the
/// given bytes.
#[verifier::external_body]
fn utf8_text(bytes: &[u8]) -> (decoded: Option<&str>)
    ensures
        decoded is Some <==> valid_utf8(bytes@),
        decoded matches Some(decoded) ==> decoded.spec_bytes() == bytes@,
{
    std::str::from_utf8(bytes).ok()
}

/// The value of a `PRETTY_NAME` assignment: trimmed, without one pair of equal quotes around it,
/// and cut to [`MAX_PRETTY_NAME_CHARS`]. An empty value is none.
pub open spec fn pretty_value(assigned: Seq<char>) -> Option<Seq<char>> {
    let trimmed = text::trimmed(assigned);
    let quoted = trimmed.len() >= 2 && trimmed[0] == trimmed.last() && (trimmed[0] == '"'
        || trimmed[0] == '\'');
    let value = if quoted {
        trimmed.subrange(1, trimmed.len() - 1)
    } else {
        trimmed
    };
    if value.len() == 0 {
        None
    } else {
        Some(text::first_chars(value, MAX_PRETTY_NAME_CHARS as nat))
    }
}

/// The value of the first line that assigns `PRETTY_NAME`.
pub open spec fn pretty_name(contents: Seq<char>) -> Option<Seq<char>>
    decreases contents.len(),
{
    let end = crate::i18n::index_of(contents, '\n') as int;
    let line = text::trimmed(contents.take(end));
    let key = "PRETTY_NAME="@;
    if text::occurs_at(line, key, 0) {
        pretty_value(line.skip(key.len() as int))
    } else if end >= contents.len() {
        None
    } else {
        pretty_name(contents.skip(end + 1))
    }
}

/// The system name in the bytes of an os-release file.
pub open spec fn system_name(contents: Seq<u8>) -> Option<Seq<char>> {
    if contents.len() <= MAX_OS_RELEASE_READ_BYTES && valid_utf8(contents) {
        pretty_name(decode_utf8(contents))
    } else {
        None
    }
}

/// The system name in the contents of an os-release file, with or without quotes around it. There is
/// none in oversized contents, in contents that are not UTF-8, and where none or an empty one is
/// assigned.
pub fn parse_pretty_name(contents: &[u8]) -> (name: Option<String>)
    ensures
        system_name(contents@) == (match name {
            Some(name) => Some(name@),
            None => None,
        }),
        match name {
            Some(name) => contents@.len() <= MAX_OS_RELEASE_READ_BYTES && valid_utf8(contents@)
                && pretty_name(decode_utf8(contents@)) == Some(name@),
            None => contents@.len() > MAX_OS_RELEASE_READ_BYTES || !valid_utf8(contents@)
                || pretty_name(decode_utf8(contents@)) is None,
        },
{
    if contents.len() > MAX_OS_RELEASE_READ_BYTES {
        return None;
    }
    let decoded = match utf8_text(contents) {
        Some(decoded) => decoded,
        None => return None,
    };
    proof {
        encode_utf8_decode_utf8(decoded@);
    }
    let all = text::chars_of(decoded);
    let key = text::chars_of("PRETTY_NAME=");
    let mut from: usize = 0;
    assert(all@.skip(0) == all@);
    loop
        invariant
            from <= all@.len(),
            key@ == "PRETTY_NAME="@,
            contents@.len() <= MAX_OS_RELEASE_READ_BYTES,
            valid_utf8(contents@),
            all@ == decode_utf8(contents@),
            pretty_name(all@) == pretty_name(all@.skip(from as int)),
        decreases all@.len() - from,
    {
        let ghost rest = all@.skip(from as int);
        let end: usize = crate::i18n::find_from(&all, '\n', from);
        let line = text::string_of(&all, from, end);
        assert(rest.take(end - from) == line@);
        let line_chars = text::chars_of(text::trim(line.as_str()));
        if text::matches_at(&line_chars, &key, 0) {
            let assigned = text::string_of(&line_chars, key.len(), line_chars.len());
            assert(assigned@ == line_chars@.skip(key@.len() as int));
            return assigned_name(assigned.as_str());
        }
        if end == all.len() {
            return None;
        }
        assert(rest.skip(end - from + 1) == all@.skip(end + 1));
        from = end + 1;
    }
}

fn assigned_name(assigned: &str) -> (name: Option<String>)
    ensures
        match name {
            Some(name) => pretty_value(assigned@) == Some(name@),
            None => pretty_value(assigned@) is None,
        },
{
    let value = text::chars_of(text::trim(assigned));
    let mut from: usize = 0;
    let mut to: usize = value.len();
    if to >= 2 && value[0] == value[to - 1] && (value[0] == '"' || value[0] == '\'') {
        from = 1;
        to = to - 1;
    }
    if from == to {
        return None;
    }
    let name = text::string_of(&value, from, to);
    assert(value@.subrange(0, value@.len() as int) == value@);
    Some(text::take_chars(name.as_str(), MAX_PRETTY_NAME_CHARS))
}

/// The short form of a revision: its first seven bytes, or all of it where it is shorter or where
/// they would split a character.
pub open spec fn short_form(rev: Seq<char>) -> Seq<char> {
    let bytes = encode_utf8(rev);
    if is_char_boundary(bytes, 7) {
        decode_utf8(bytes.subrange(0, 7))
    } else {
        rev
    }
}

/// [`short_form`] as a slice of the argument; of ASCII text it is the first seven characters.
pub fn short_commit(rev: &str) -> (short: &str)
    ensures
        short@ == short_form(rev@),
        is_ascii_chars(rev@) ==> short@ == text::first_chars(rev@, 7),
{
    proof {
        lemma_short_ascii(rev);
    }
    if rev.is_char_boundary(7) {
        let short = rev.split_at(7).0;
        proof {
            encode_utf8_decode_utf8(short@);
            if is_ascii_chars(rev@) {
                encode_utf8_decode_utf8(rev@.take(7));
                assert(rev@.len() == 7 ==> rev@.take(7) == rev@);
            }
        }
        short
    } else {
        rev
    }
}

proof fn lemma_short_ascii(rev: &str)
    ensures
        is_ascii_chars(rev@) ==> (is_char_boundary(rev.spec_bytes(), 7) <==> rev@.len() >= 7) && (
        rev@.len() >= 7 ==> rev.spec_bytes().subrange(0, 7) == encode_utf8(rev@.take(7))),
{
    if is_ascii_chars(rev@) {
        let bytes = rev.spec_bytes();
        is_ascii_chars_encode_utf8(rev@);
        encode_utf8_valid_utf8(rev@);
        if rev@.len() >= 7 {
            is_ascii_chars_encode_utf8(rev@.take(7));
            assert(bytes.subrange(0, 7) =~= encode_utf8(rev@.take(7)));
            if rev@.len() == 7 {
                is_char_boundary_start_end_of_seq(bytes);
            } else {
                is_char_boundary_iff_not_is_continuation_byte(bytes, 7);
            }
        }
    }
}

/// The revision injected at build time, or `unknown` where none was.
pub fn build_rev(injected: Option<&'static str>) -> (rev: &'static str)
    ensures
        rev == (match injected {
            Some(rev) => rev,
            None => "unknown",
        }),
{
    match injected {
        Some(rev) => rev,
        None => "unknown",
    }
}

} // verus!
