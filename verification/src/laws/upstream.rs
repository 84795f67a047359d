//! What holds of what is known of upstream.
use crate::runtime::upstream;
use crate::runtime::upstream::{
    CompareResult, MainRevCache, RelationStepView, RevisionRelation, RevisionView, SnapshotView,
    UpstreamError, UpstreamResolveFailure, UpstreamRevision,
};
use vstd::prelude::*;

verus! {

/// The relation that a build of the revision `current` has to `main`, as far as comparing them both ways
/// tells: `forth` counts what the build adds to upstream, `back` what upstream adds to the build.
pub open spec fn relation_between(
    current: Seq<char>,
    main: Seq<char>,
    forth: CompareResult,
    back: CompareResult,
) -> RevisionRelation {
    if forth.merge_base is Some && forth.merge_base->0@ == main {
        RevisionRelation::Ahead { commits: forth.ahead_by }
    } else if back.merge_base is Some && back.merge_base->0@ == current {
        RevisionRelation::Behind { commits: back.ahead_by }
    } else {
        RevisionRelation::Diverged { ahead: forth.ahead_by, behind: back.ahead_by }
    }
}

/// A build is told apart from upstream by at most two comparisons, the build with upstream first and then
/// the other way round: it is ahead where it contains upstream, behind where upstream contains it, and else
/// both counts are told.
pub proof fn builds_are_compared_both_ways(
    current: Seq<char>,
    main: Seq<char>,
    forth: CompareResult,
    back: CompareResult,
)
    requires
        current != main,
        current != "unknown"@,
    ensures
        upstream::after_lookup(current, Ok(main)) == (RelationStepView::Compare {
            base: main,
            head: current,
        }),
        ({
            let step = upstream::after_comparison(current, main, None, Ok(forth));
            let answer = RelationStepView::Resolved(
                RevisionView {
                    revision: main,
                    relation: relation_between(current, main, forth, back),
                    version: None,
                },
            );
            if forth.merge_base is Some && forth.merge_base->0@ == main {
                step == answer
            } else {
                &&& step == (RelationStepView::Compare { base: current, head: main })
                &&& upstream::after_comparison(current, main, Some(forth), Ok(back)) == answer
            }
        }),
{
}

/// A build at the upstream revision is current, whatever the revision. A build of no known revision has no
/// relation, and neither has one that upstream does not know.
pub proof fn some_builds_need_no_comparison(current: Seq<char>, main: Seq<char>, revision: String)
    ensures
        current == main && current != "unknown"@ ==> upstream::after_lookup(current, Ok(main))
            == RelationStepView::Resolved(
            RevisionView { revision: main, relation: RevisionRelation::Current, version: None },
        ),
        current == "unknown"@ ==> upstream::after_lookup(current, Ok(main)) == RelationStepView::Resolved(
            RevisionView { revision: main, relation: RevisionRelation::Unavailable, version: None },
        ),
        upstream::after_comparison(
            current,
            main,
            None,
            Err(UpstreamError::RevisionNotFound { revision }),
        ) == RelationStepView::Resolved(
            RevisionView { revision: main, relation: RevisionRelation::Unavailable, version: None },
        ),
{
}

/// Every other failure ends the search and is told; that upstream asks for fewer requests is told with
/// the time it asks for.
pub proof fn failures_end_the_search(
    current: Seq<char>,
    main: Seq<char>,
    first: Option<CompareResult>,
    error: UpstreamError,
)
    ensures
        ({
            let told = match error {
                UpstreamError::RateLimited { retry_after } => UpstreamResolveFailure::RateLimited {
                    retry_after,
                },
                other => UpstreamResolveFailure::MainRev(other),
            };
            &&& upstream::after_lookup(current, Err(error)) == RelationStepView::Failed(told)
            &&& first is Some || !(error is RevisionNotFound) ==> upstream::after_comparison(
                current,
                main,
                first,
                Err(error),
            ) == RelationStepView::Failed(told)
        }),
{
}

/// What was found last is served, with the last version that was told; failures change how the last refresh
/// ended, and nothing that is served.
pub proof fn the_last_revision_is_served(
    snapshot: SnapshotView,
    revision: RevisionView,
    category: Seq<char>,
    version: Option<Seq<char>>,
)
    ensures
        ({
            let served = snapshot.after_found(revision).served();
            &&& served matches Some(found) && found.revision == revision.revision && found.relation
                == revision.relation
            &&& revision.version is Some ==> served == Some(revision)
            &&& revision.version is None ==> served->0.version == (match snapshot.served() {
                Some(before) => before.version,
                None => None,
            })
        }),
        snapshot.after_failure(category).served() == snapshot.served(),
        snapshot.after_failure(category) matches SnapshotView::LastFailure { category: told, .. } && told
            == category,
        snapshot.after_version(version).served() matches Some(served) ==> served.version == version
            && snapshot.served() is Some && served.revision == snapshot.served()->0.revision
            && served.relation == snapshot.served()->0.relation,
        snapshot.served() is Some ==> snapshot.after_version(version).served() is Some,
        snapshot is Never ==> snapshot.after_version(version) is Never && snapshot.served() is None,
        snapshot is Success <==> snapshot.after_version(version) is Success,
        snapshot matches SnapshotView::LastFailure { category: before, .. }
            ==> snapshot.after_version(version) matches SnapshotView::LastFailure { category: after, .. }
            && after == before,
{
}

/// A looked-up revision is served again for less than five minutes.
pub proof fn lookups_are_served_for_five_minutes(cache: MainRevCache, at: u64, revision: Seq<char>, now: u64)
    requires
        cache.resolved() == Some((at, revision)),
    ensures
        now < at + 300_000 ==> cache.served(now) == Some(revision),
        now >= at + 300_000 ==> cache.served(now) is None,
{
}

/// Upstream's version is known from the first time that it was told, and stays known.
pub proof fn told_versions_stay_known(before: bool, revision: UpstreamRevision)
    ensures
        upstream::version_told(true, None) && upstream::version_told(true, Some(revision)),
        !upstream::version_told(false, None),
        upstream::version_told(false, Some(revision)) <==> revision@.version is Some,
        upstream::version_told(before, None) == before,
{
}

} // verus!
