use lavis::runtime::alias::AliasTable;
use lavis::runtime::info::version_status;
use lavis::runtime::upstream::{
    CompareResult, MainRevCache, RelationResolver, RelationStep, RevisionRelation, UpstreamError,
    UpstreamResolveFailure, UpstreamRevision, UpstreamSnapshot, VersionRelation,
    UPSTREAM_MAIN_REV_TTL,
};
use lavis::runtime::{InfoFacts, RuntimeState, Settings};
use lavis::i18n::Locale;
use lavis::onboarding::OnboardingProgress;
use std::collections::HashMap;

type Compares = HashMap<(String, String), Result<CompareResult, UpstreamError>>;

fn compare(ahead_by: u64, merge_base: &str) -> Result<CompareResult, UpstreamError> {
    Ok(CompareResult {
        ahead_by,
        behind_by: 0,
        merge_base: Some(merge_base.to_owned()),
    })
}

fn pair(base: &str, head: &str) -> (String, String) {
    (base.to_owned(), head.to_owned())
}

/// Answers each step of the resolver and records the comparisons that it asks for.
fn resolve(
    main: Result<String, UpstreamError>,
    compares: &Compares,
    current: &str,
) -> (
    Result<UpstreamRevision, UpstreamResolveFailure>,
    Vec<(String, String)>,
) {
    let mut requested = Vec::new();
    let mut resolver = RelationResolver::new(current.to_owned());
    let mut step = resolver.main_looked_up(main);
    loop {
        match step {
            RelationStep::Resolved(found) => return (Ok(found), requested),
            RelationStep::Failed(failure) => return (Err(failure), requested),
            RelationStep::Compare { base, head } => {
                requested.push((base.clone(), head.clone()));
                let answer = compares
                    .get(&(base, head))
                    .cloned()
                    .unwrap_or(Err(UpstreamError::InvalidResponse));
                step = resolver.compared(answer);
            }
        }
    }
}

#[test]
fn resolves_ahead_from_a_single_ordered_compare() {
    let compares = HashMap::from([(pair("B", "C"), compare(1, "B"))]);
    let (resolved, requested) = resolve(Ok("B".to_owned()), &compares, "C");
    let resolved = resolved.unwrap();
    assert_eq!(resolved.revision, "B");
    assert_eq!(resolved.relation, RevisionRelation::Ahead { commits: 1 });
    assert_eq!(requested, vec![pair("B", "C")]);
}

#[test]
fn resolves_behind_via_the_reverse_ordered_compare() {
    let compares = HashMap::from([
        (pair("C", "B"), compare(0, "B")),
        (pair("B", "C"), compare(1, "B")),
    ]);
    let (resolved, requested) = resolve(Ok("C".to_owned()), &compares, "B");
    let resolved = resolved.unwrap();
    assert_eq!(resolved.revision, "C");
    assert_eq!(resolved.relation, RevisionRelation::Behind { commits: 1 });
    assert_eq!(requested, vec![pair("C", "B"), pair("B", "C")]);
}

#[test]
fn resolves_divergence_as_ahead_two_behind_three() {
    let compares = HashMap::from([
        (pair("G", "D"), compare(2, "B")),
        (pair("D", "G"), compare(3, "B")),
    ]);
    let (resolved, requested) = resolve(Ok("G".to_owned()), &compares, "D");
    assert_eq!(
        resolved.unwrap().relation,
        RevisionRelation::Diverged {
            ahead: 2,
            behind: 3
        }
    );
    assert_eq!(requested, vec![pair("G", "D"), pair("D", "G")]);
}

#[test]
fn identical_and_unknown_revisions_skip_compare_entirely() {
    let none = HashMap::new();
    let (current, requested) = resolve(Ok("M".to_owned()), &none, "M");
    assert_eq!(current.unwrap().relation, RevisionRelation::Current);
    assert!(requested.is_empty());
    let (unknown, requested) = resolve(Ok("N".to_owned()), &none, "unknown");
    assert_eq!(unknown.unwrap().relation, RevisionRelation::Unavailable);
    assert!(requested.is_empty());
}

#[test]
fn unpublished_current_revision_reports_unavailable() {
    let compares = HashMap::from([(
        pair("M", "local"),
        Err(UpstreamError::RevisionNotFound {
            revision: "local".to_owned(),
        }),
    )]);
    let (resolved, _) = resolve(Ok("M".to_owned()), &compares, "local");
    assert_eq!(resolved.unwrap().relation, RevisionRelation::Unavailable);
}

#[test]
fn rate_limited_compare_surfaces_rate_limit_failure() {
    let compares = HashMap::from([(
        pair("M", "local"),
        Err(UpstreamError::RateLimited { retry_after: None }),
    )]);
    let (failed, _) = resolve(Ok("M".to_owned()), &compares, "local");
    assert_eq!(
        failed,
        Err(UpstreamResolveFailure::RateLimited { retry_after: None })
    );
}

#[test]
fn failures_of_the_lookup_and_of_either_compare_end_the_search() {
    let none = HashMap::new();
    let (failed, requested) = resolve(Err(UpstreamError::NoMainRef), &none, "local");
    assert_eq!(
        failed,
        Err(UpstreamResolveFailure::MainRev(UpstreamError::NoMainRef))
    );
    assert!(requested.is_empty());
    let (failed, _) = resolve(
        Err(UpstreamError::RateLimited {
            retry_after: Some(7),
        }),
        &none,
        "local",
    );
    assert_eq!(
        failed,
        Err(UpstreamResolveFailure::RateLimited {
            retry_after: Some(7)
        })
    );
    let compares = HashMap::from([(pair("M", "local"), compare(1, "elsewhere"))]);
    let (failed, requested) = resolve(Ok("M".to_owned()), &compares, "local");
    assert_eq!(
        failed,
        Err(UpstreamResolveFailure::MainRev(
            UpstreamError::InvalidResponse
        ))
    );
    assert_eq!(requested.len(), 2);
    let compares = HashMap::from([
        (pair("M", "local"), compare(1, "elsewhere")),
        (
            pair("local", "M"),
            Err(UpstreamError::RevisionNotFound {
                revision: "local".to_owned(),
            }),
        ),
    ]);
    let (failed, _) = resolve(Ok("M".to_owned()), &compares, "local");
    assert!(failed.is_err());
}

fn runtime() -> RuntimeState {
    RuntimeState::new(
        AliasTable { entries: vec![] },
        Settings {
            prefix: ",".to_owned(),
            locale: Some(Locale::English),
            onboarding: OnboardingProgress::NotStarted,
        },
    )
}

fn found(version: Option<&str>) -> UpstreamRevision {
    UpstreamRevision {
        revision: "b1d18f8ef407d043506c983b0d68e96c282eb1c9".to_owned(),
        relation: RevisionRelation::Current,
        version: version.map(str::to_owned),
    }
}

fn info_caption(runtime: &RuntimeState) -> String {
    caption_with(runtime, VersionRelation::Current)
}

fn caption_with(runtime: &RuntimeState, version_relation: VersionRelation) -> String {
    runtime
        .execute_info(
            InfoFacts {
                version: "0.1.0",
                version_relation,
                build_rev: "unknown",
                host: "standalone",
                os: "linux",
                words: None,
            },
            None,
        )
        .response
        .text
}

#[test]
fn upstream_failure_retains_the_last_successful_info_value() {
    let mut runtime = runtime();
    assert!(info_caption(&runtime).contains("Upstream main: unavailable"));
    runtime.publish_upstream_revision(Some(found(Some("1.0.0"))));
    runtime.publish_upstream_failure("timeout".to_owned());
    assert!(info_caption(&runtime).contains("Upstream main: b1d18f8\n"));
    assert!(matches!(
        &runtime.upstream_revision_cache,
        UpstreamSnapshot::LastFailure { stale: Some(_), category } if category == "timeout"
    ));
}

#[test]
fn upstream_snapshot_failure_and_recovery_transitions_are_explicit() {
    let mut runtime = runtime();
    assert!(matches!(
        &runtime.upstream_revision_cache,
        UpstreamSnapshot::Never
    ));
    runtime.publish_upstream_failure("transport".to_owned());
    assert!(matches!(
        &runtime.upstream_revision_cache,
        UpstreamSnapshot::LastFailure { stale: None, .. }
    ));
    runtime.publish_upstream_revision(Some(found(Some("1.0.0"))));
    runtime.publish_upstream_failure("timeout".to_owned());
    assert!(matches!(
        &runtime.upstream_revision_cache,
        UpstreamSnapshot::LastFailure { stale: Some(_), .. }
    ));
    runtime.publish_upstream_revision(Some(found(Some("1.0.0"))));
    assert!(matches!(
        &runtime.upstream_revision_cache,
        UpstreamSnapshot::Success(_)
    ));
    runtime.publish_upstream_revision(None);
    assert_eq!(runtime.upstream_revision(), Some(found(Some("1.0.0"))));
}

#[test]
fn version_failure_retains_revision_but_successful_none_clears_version() {
    let mut runtime = runtime();
    runtime.publish_upstream_revision(Some(UpstreamRevision {
        revision: "b1d18f8ef407d043506c983b0d68e96c282eb1c9".to_owned(),
        relation: RevisionRelation::Ahead { commits: 2 },
        version: Some("99.0.0".to_owned()),
    }));
    runtime.publish_upstream_failure("rate_limited".to_owned());

    // A failed version lookup publishes nothing: the stale relation and
    // successful version remain available to the local info command.
    let retained = caption_with(&runtime, VersionRelation::NewerAvailable);
    assert!(retained.contains("Upstream main: b1d18f8"));
    assert!(retained.contains("Version: 0.1.0"));
    assert!(retained.contains("newer available: 99.0.0 ⬆️"));
    assert_eq!(
        runtime.upstream_revision().unwrap().relation,
        RevisionRelation::Ahead { commits: 2 }
    );

    // An actual successful lookup with no package version is different from
    // a failure and clears the previously known version.
    runtime.publish_upstream_version(None);
    assert!(matches!(
        &runtime.upstream_revision_cache,
        UpstreamSnapshot::LastFailure { category, .. } if category == "rate_limited"
    ));
    let cleared = caption_with(&runtime, VersionRelation::Unavailable);
    assert!(cleared.contains("Upstream main: b1d18f8"));
    assert!(cleared.contains("Version: 0.1.0"));
    assert!(!cleared.contains("Version: 0.1.0 ("));
}

#[test]
fn versions_are_kept_until_another_lookup_tells() {
    let mut runtime = runtime();
    assert!(!runtime.upstream_version_known);
    runtime.publish_upstream_version(Some("0.9.0".to_owned()));
    assert!(runtime.upstream_version_known);
    assert_eq!(runtime.upstream_revision(), None);
    runtime.publish_upstream_revision(Some(found(Some("99.0.0"))));
    runtime.publish_upstream_revision(Some(found(None)));
    assert_eq!(runtime.upstream_revision(), Some(found(Some("99.0.0"))));
    runtime.publish_upstream_version(None);
    assert_eq!(runtime.upstream_revision(), Some(found(None)));
}

#[test]
fn the_version_tells_how_it_relates_to_upstream() {
    let mut runtime = runtime();
    assert!(!info_caption(&runtime).contains("Version: 0.1.0 ("));
    runtime.publish_upstream_revision(Some(found(Some("0.1.0"))));
    assert!(info_caption(&runtime).contains("Version: 0.1.0 (current ✅)\n"));
    let status = |locale, known, relation| version_status(locale, known, relation, Some("2"));
    assert_eq!(
        status(Locale::Russian, true, VersionRelation::Current),
        "актуальная ✅"
    );
    assert_eq!(
        status(Locale::Russian, true, VersionRelation::NewerAvailable),
        "доступна новая: 2 ⬆️"
    );
    assert_eq!(
        version_status(Locale::English, true, VersionRelation::NewerAvailable, None),
        "newer available:  ⬆️"
    );
    assert_eq!(status(Locale::English, false, VersionRelation::Current), "");
    assert_eq!(
        status(Locale::English, true, VersionRelation::Unavailable),
        ""
    );
}

#[test]
fn looked_up_revisions_are_served_while_they_are_fresh() {
    let mut cache = MainRevCache::new();
    assert_eq!(cache.fresh(0), None);
    assert_eq!(cache.remember(1_000, Some("abc".to_owned())), "abc");
    assert_eq!(cache.fresh(1_000).as_deref(), Some("abc"));
    assert_eq!(cache.fresh(0).as_deref(), Some("abc"));
    assert_eq!(
        cache.fresh(1_000 + UPSTREAM_MAIN_REV_TTL - 1).as_deref(),
        Some("abc")
    );
    assert_eq!(cache.fresh(1_000 + UPSTREAM_MAIN_REV_TTL), None);
    assert_eq!(cache.remember(2_000, None), "");
    assert_eq!(cache.fresh(2_001).as_deref(), Some(""));
}
