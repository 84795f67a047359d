use lavis::info::{
    build_rev, deployment_label, owner_label, parse_pretty_name, short_commit, SelfIdentity,
    MAX_OS_RELEASE_READ_BYTES, MAX_PRETTY_NAME_CHARS,
};

#[test]
fn deployment_labels_map_every_marker() {
    assert_eq!(deployment_label(Some("nixos-module")), "NixOS module");
    assert_eq!(deployment_label(Some("nix-run")), "nix run");
    assert_eq!(deployment_label(Some("nix-package")), "Nix package");
    assert_eq!(deployment_label(None), "standalone");
    assert_eq!(deployment_label(Some("other")), "standalone");
}

#[test]
fn parses_double_quoted_pretty_name() {
    let contents = b"NAME=\"NixOS\"\nPRETTY_NAME=\"NixOS 25.05 (Warbler)\"\n";
    assert_eq!(
        parse_pretty_name(contents).as_deref(),
        Some("NixOS 25.05 (Warbler)")
    );
}

#[test]
fn parses_single_quoted_pretty_name() {
    assert_eq!(
        parse_pretty_name(b"PRETTY_NAME='Pop!_OS 22.04'\n").as_deref(),
        Some("Pop!_OS 22.04")
    );
}

#[test]
fn parses_unquoted_pretty_name() {
    assert_eq!(
        parse_pretty_name(b"PRETTY_NAME=Arch Linux\n").as_deref(),
        Some("Arch Linux")
    );
}

#[test]
fn missing_or_empty_pretty_name_is_none() {
    assert_eq!(parse_pretty_name(b"NAME=\"NixOS\"\n"), None);
    assert_eq!(parse_pretty_name(b"PRETTY_NAME=\"\"\n"), None);
    assert_eq!(parse_pretty_name(b""), None);
    assert_eq!(parse_pretty_name(b"\xff\xfe invalid utf8"), None);
}

#[test]
fn oversized_pretty_name_is_truncated() {
    let long = format!("PRETTY_NAME=\"{}\"", "x".repeat(MAX_PRETTY_NAME_CHARS * 2));
    let parsed = parse_pretty_name(long.as_bytes()).unwrap();
    assert_eq!(parsed.chars().count(), MAX_PRETTY_NAME_CHARS);
}

#[test]
fn short_commit_formats_revisions() {
    assert_eq!(
        short_commit("b1d18f8ef407d043506c983b0d68e96c282eb1c9"),
        "b1d18f8"
    );
    assert_eq!(short_commit("unknown"), "unknown");
    assert_eq!(short_commit("abc"), "abc");
}

#[test]
fn build_rev_is_never_empty_or_oversized() {
    assert!(!build_rev(None).is_empty());
    assert!(build_rev(None).len() <= 40);
}

#[test]
fn owners_are_named_by_what_is_known() {
    let identity = |username: Option<&str>, display_name: Option<&str>| SelfIdentity {
        username: username.map(str::to_owned),
        display_name: display_name.map(str::to_owned),
        id: 7,
    };
    assert_eq!(owner_label(&identity(Some("owner"), Some("Name"))), "@owner");
    assert_eq!(owner_label(&identity(None, Some("Name"))), "Name");
    assert_eq!(owner_label(&identity(Some(""), Some("Name"))), "Name");
    assert_eq!(owner_label(&identity(None, Some(""))), "7");
    assert_eq!(owner_label(&identity(None, None)), "7");
}

#[test]
fn pretty_names_that_are_not_text_are_none() {
    assert_eq!(parse_pretty_name(b"PRETTY_NAME=\"\xff\"\n"), None);
    assert_eq!(
        parse_pretty_name("PRETTY_NAME=Линукс\n".as_bytes()).as_deref(),
        Some("Линукс")
    );
    let mut late = vec![b'\n'; MAX_OS_RELEASE_READ_BYTES];
    late.extend_from_slice(b"PRETTY_NAME=late\n");
    assert_eq!(parse_pretty_name(&late), None);
    let long = format!("PRETTY_NAME={}", "ж".repeat(MAX_PRETTY_NAME_CHARS + 5));
    assert_eq!(
        parse_pretty_name(long.as_bytes()).unwrap().chars().count(),
        MAX_PRETTY_NAME_CHARS
    );
}

#[test]
fn injected_revisions_name_the_build() {
    assert_eq!(
        build_rev(Some("0123456789abcdef0123456789abcdef01234567")),
        "0123456789abcdef0123456789abcdef01234567"
    );
}
