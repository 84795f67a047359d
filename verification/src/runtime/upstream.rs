//! How the running build relates to the upstream revision.
use crate::text;
use vstd::prelude::*;

verus! {

/// How a build relates to the upstream `main` branch.
#[derive(Clone, Copy, Debug, PartialEq, Eq, Structural)]
pub enum RevisionRelation {
    Unavailable,
    Current,
    Ahead { commits: u64 },
    Behind { commits: u64 },
    Diverged { ahead: u64, behind: u64 },
}

/// How a version relates to the upstream version.
#[derive(Clone, Copy, Debug, PartialEq, Eq, Structural)]
pub enum VersionRelation {
    Unavailable,
    Current,
    NewerAvailable,
}

/// What comparing a head with a base gave.
#[derive(Clone, Debug, PartialEq, Eq)]
pub struct CompareResult {
    pub ahead_by: u64,
    pub behind_by: u64,
    pub merge_base: Option<String>,
}

impl CompareResult {
    /// Whether the history of the base is part of the head.
    pub open spec fn starts_at(self, revision: Seq<char>) -> bool {
        self.merge_base matches Some(base) && base@ == revision
    }

    fn is_based_on(&self, revision: &str) -> (yes: bool)
        ensures
            yes == self.starts_at(revision@),
    {
        match &self.merge_base {
            Some(base) => text::same_text(base.as_str(), revision),
            None => false,
        }
    }
}

/// Why upstream could not be asked.
#[derive(Clone, Debug, PartialEq, Eq)]
pub enum UpstreamError {
    NoMainRef,
    InvalidResponse,
    RevisionNotFound { revision: String },
    RateLimited { retry_after: Option<u64> },
    Unreachable,
}

/// Why the relation could not be found out.
#[derive(Clone, Debug, PartialEq, Eq)]
pub enum UpstreamResolveFailure {
    /// Looking up the upstream revision, or comparing with it, failed.
    MainRev(UpstreamError),
    /// Upstream asks for fewer requests.
    RateLimited { retry_after: Option<u64> },
}

/// What is known of upstream.
#[derive(Clone, Debug, PartialEq, Eq)]
pub struct UpstreamRevision {
    pub revision: String,
    pub relation: RevisionRelation,
    pub version: Option<String>,
}

/// The model of an [`UpstreamRevision`].
pub struct RevisionView {
    pub revision: Seq<char>,
    pub relation: RevisionRelation,
    pub version: Option<Seq<char>>,
}

impl View for UpstreamRevision {
    type V = RevisionView;

    open spec fn view(&self) -> RevisionView {
        RevisionView {
            revision: self.revision@,
            relation: self.relation,
            version: optional(self.version),
        }
    }
}

/// Whether upstream has told its version, once it was asked for its revision.
pub open spec fn version_told(before: bool, revision: Option<UpstreamRevision>) -> bool {
    before || (revision matches Some(found) && found.version is Some)
}

/// The characters of a text that may be missing.
pub open spec fn optional(text: Option<String>) -> Option<Seq<char>> {
    match text {
        Some(text) => Some(text@),
        None => None,
    }
}

/// A copy of a text that may be missing.
pub fn copy_optional(text: &Option<String>) -> (copy: Option<String>)
    ensures
        optional(copy) == optional(*text),
{
    match text {
        Some(text) => Some(text.clone()),
        None => None,
    }
}

impl UpstreamRevision {
    /// A copy.
    pub fn copy(&self) -> (copy: Self)
        ensures
            copy@ == self@,
    {
        UpstreamRevision {
            revision: self.revision.clone(),
            relation: self.relation,
            version: copy_optional(&self.version),
        }
    }
}

/// The failure that an error of upstream means.
pub open spec fn failure_of(error: UpstreamError) -> UpstreamResolveFailure {
    match error {
        UpstreamError::RateLimited { retry_after } => UpstreamResolveFailure::RateLimited {
            retry_after,
        },
        error => UpstreamResolveFailure::MainRev(error),
    }
}

fn to_failure(error: UpstreamError) -> (failure: UpstreamResolveFailure)
    ensures
        failure == failure_of(error),
{
    match error {
        UpstreamError::RateLimited { retry_after } => UpstreamResolveFailure::RateLimited {
            retry_after,
        },
        error => UpstreamResolveFailure::MainRev(error),
    }
}

/// What to do next to find out the relation.
pub enum RelationStep {
    /// It is found out.
    Resolved(UpstreamRevision),
    /// It cannot be found out.
    Failed(UpstreamResolveFailure),
    /// Compare `head` with `base`.
    Compare { base: String, head: String },
}

/// The relation is known to be `relation` to the upstream revision `main`.
pub open spec fn resolved_to(step: RelationStep, main: Seq<char>, relation: RevisionRelation) -> bool {
    step matches RelationStep::Resolved(found) && found@ == (RevisionView {
        revision: main,
        relation,
        version: None,
    })
}

/// The model of a [`RelationStep`].
pub enum RelationStepView {
    Resolved(RevisionView),
    Failed(UpstreamResolveFailure),
    Compare { base: Seq<char>, head: Seq<char> },
}

impl View for RelationStep {
    type V = RelationStepView;

    open spec fn view(&self) -> RelationStepView {
        match *self {
            RelationStep::Resolved(found) => RelationStepView::Resolved(found@),
            RelationStep::Failed(failure) => RelationStepView::Failed(failure),
            RelationStep::Compare { base, head } => RelationStepView::Compare {
                base: base@,
                head: head@,
            },
        }
    }
}

/// The step at which the relation to the upstream revision `main` is known.
pub open spec fn known_to_be(main: Seq<char>, relation: RevisionRelation) -> RelationStepView {
    RelationStepView::Resolved(RevisionView { revision: main, relation, version: None })
}

/// What follows the lookup of the upstream revision, for a build of the revision `current`.
pub open spec fn after_lookup(
    current: Seq<char>,
    main: Result<Seq<char>, UpstreamError>,
) -> RelationStepView {
    match main {
        Err(error) => RelationStepView::Failed(failure_of(error)),
        Ok(main) => if current == "unknown"@ {
            known_to_be(main, RevisionRelation::Unavailable)
        } else if current == main {
            known_to_be(main, RevisionRelation::Current)
        } else {
            RelationStepView::Compare { base: main, head: current }
        },
    }
}

/// What follows a comparison; `first` is the one before it, where there was one.
pub open spec fn after_comparison(
    current: Seq<char>,
    main: Seq<char>,
    first: Option<CompareResult>,
    result: Result<CompareResult, UpstreamError>,
) -> RelationStepView {
    match (first, result) {
        (None, Ok(result)) => if result.starts_at(main) {
            known_to_be(main, RevisionRelation::Ahead { commits: result.ahead_by })
        } else {
            RelationStepView::Compare { base: current, head: main }
        },
        (None, Err(UpstreamError::RevisionNotFound { .. })) => known_to_be(
            main,
            RevisionRelation::Unavailable,
        ),
        (Some(first), Ok(reverse)) => known_to_be(
            main,
            if reverse.starts_at(current) {
                RevisionRelation::Behind { commits: reverse.ahead_by }
            } else {
                RevisionRelation::Diverged { ahead: first.ahead_by, behind: reverse.ahead_by }
            },
        ),
        (_, Err(error)) => RelationStepView::Failed(failure_of(error)),
    }
}

/// Finding out how a build relates to the upstream `main` branch: one lookup, and at most two
/// comparisons, the second only where the first does not settle it.
pub struct RelationResolver {
    current: String,
    main: String,
    first: Option<CompareResult>,
}

impl RelationResolver {
    /// The revision of the build.
    pub closed spec fn current(self) -> Seq<char> {
        self.current@
    }

    /// The upstream revision, once it is known.
    pub closed spec fn upstream(self) -> Seq<char> {
        self.main@
    }

    /// The first comparison, once it was made.
    pub closed spec fn first(self) -> Option<CompareResult> {
        self.first
    }

    /// Starts for a build of the revision `current`; the upstream revision is looked up next.
    pub fn new(current: String) -> (resolver: Self)
        ensures
            resolver.current() == current@,
            resolver.first() is None,
    {
        RelationResolver { current, main: String::new(), first: None }
    }

    /// Takes the upstream revision. An unknown build and one at that revision need no comparison.
    pub fn main_looked_up(&mut self, main: Result<String, UpstreamError>) -> (step: RelationStep)
        ensures
            final(self).current() == old(self).current(),
            final(self).first() == old(self).first(),
            step@ == after_lookup(
                old(self).current(),
                match main {
                    Ok(main) => Ok(main@),
                    Err(error) => Err(error),
                },
            ),
            match main {
                Err(error) => step == RelationStep::Failed(failure_of(error)) && final(self).upstream()
                    == old(self).upstream(),
                Ok(main) => {
                    &&& final(self).upstream() == main@
                    &&& if old(self).current() == "unknown"@ {
                        resolved_to(step, main@, RevisionRelation::Unavailable)
                    } else if old(self).current() == main@ {
                        resolved_to(step, main@, RevisionRelation::Current)
                    } else {
                        step matches RelationStep::Compare { base, head } && base@ == main@ && head@
                            == old(self).current()
                    }
                },
            },
    {
        let main = match main {
            Ok(main) => main,
            Err(error) => return RelationStep::Failed(to_failure(error)),
        };
        self.main = main.clone();
        if text::same_text(self.current.as_str(), "unknown") {
            RelationStep::Resolved(
                UpstreamRevision {
                    revision: main,
                    relation: RevisionRelation::Unavailable,
                    version: None,
                },
            )
        } else if text::same_text(self.current.as_str(), main.as_str()) {
            RelationStep::Resolved(
                UpstreamRevision {
                    revision: main,
                    relation: RevisionRelation::Current,
                    version: None,
                },
            )
        } else {
            RelationStep::Compare { base: main, head: self.current.clone() }
        }
    }

    /// Takes the comparison that the last step asked for. A build that contains the upstream
    /// revision is ahead of it; a build that upstream does not know has no relation to it. Anything
    /// else takes the comparison the other way round: a build that is contained in the upstream
    /// revision is behind it, and else the two have diverged.
    pub fn compared(&mut self, result: Result<CompareResult, UpstreamError>) -> (step: RelationStep)
        ensures
            final(self).current() == old(self).current(),
            final(self).upstream() == old(self).upstream(),
            old(self).first() is Some ==> step !is Compare,
            step@ == after_comparison(
                old(self).current(),
                old(self).upstream(),
                old(self).first(),
                result,
            ),
            match (old(self).first(), result) {
                (None, Ok(first)) => if first.starts_at(old(self).upstream()) {
                    resolved_to(
                        step,
                        old(self).upstream(),
                        RevisionRelation::Ahead { commits: first.ahead_by },
                    )
                } else {
                    &&& final(self).first() == Some(first)
                    &&& step matches RelationStep::Compare { base, head } && base@ == old(self).current() && head@ == old(self).upstream()
                },
                (None, Err(UpstreamError::RevisionNotFound { .. })) => resolved_to(
                    step,
                    old(self).upstream(),
                    RevisionRelation::Unavailable,
                ),
                (Some(first), Ok(reverse)) => resolved_to(
                    step,
                    old(self).upstream(),
                    if reverse.starts_at(old(self).current()) {
                        RevisionRelation::Behind { commits: reverse.ahead_by }
                    } else {
                        RevisionRelation::Diverged {
                            ahead: first.ahead_by,
                            behind: reverse.ahead_by,
                        }
                    },
                ),
                (_, Err(error)) => step == RelationStep::Failed(failure_of(error)),
            },
    {
        let ahead: Option<u64> = match &self.first {
            Some(first) => Some(first.ahead_by),
            None => None,
        };
        let compare = match result {
            Ok(compare) => compare,
            Err(error) => {
                if ahead.is_none() {
                    if let UpstreamError::RevisionNotFound { .. } = &error {
                        return RelationStep::Resolved(
                            self.resolution(RevisionRelation::Unavailable),
                        );
                    }
                }
                return RelationStep::Failed(to_failure(error));
            },
        };
        match ahead {
            None => {
                if compare.is_based_on(self.main.as_str()) {
                    return RelationStep::Resolved(
                        self.resolution(RevisionRelation::Ahead { commits: compare.ahead_by }),
                    );
                }
                self.first = Some(compare);
                RelationStep::Compare { base: self.current.clone(), head: self.main.clone() }
            },
            Some(ahead) => {
                let relation = if compare.is_based_on(self.current.as_str()) {
                    RevisionRelation::Behind { commits: compare.ahead_by }
                } else {
                    RevisionRelation::Diverged { ahead, behind: compare.ahead_by }
                };
                RelationStep::Resolved(self.resolution(relation))
            },
        }
    }

    fn resolution(&self, relation: RevisionRelation) -> (revision: UpstreamRevision)
        ensures
            revision@ == (RevisionView { revision: self.upstream(), relation, version: None }),
    {
        UpstreamRevision { revision: self.main.clone(), relation, version: None }
    }
}

/// What is known of upstream, and how the last refresh ended.
pub enum UpstreamSnapshot {
    Never,
    Success(UpstreamRevision),
    LastFailure { stale: Option<UpstreamRevision>, category: String },
}

/// The model of an [`UpstreamSnapshot`].
pub enum SnapshotView {
    Never,
    Success(RevisionView),
    LastFailure { stale: Option<RevisionView>, category: Seq<char> },
}

impl View for UpstreamSnapshot {
    type V = SnapshotView;

    open spec fn view(&self) -> SnapshotView {
        match *self {
            UpstreamSnapshot::Never => SnapshotView::Never,
            UpstreamSnapshot::Success(revision) => SnapshotView::Success(revision@),
            UpstreamSnapshot::LastFailure { stale, category } => SnapshotView::LastFailure {
                stale: match stale {
                    Some(revision) => Some(revision@),
                    None => None,
                },
                category: category@,
            },
        }
    }
}

impl SnapshotView {
    /// The revision that is served: the last one that was found, however many refreshes have failed
    /// since.
    pub open spec fn served(self) -> Option<RevisionView> {
        match self {
            SnapshotView::Never => None,
            SnapshotView::Success(revision) => Some(revision),
            SnapshotView::LastFailure { stale, .. } => stale,
        }
    }

    /// The snapshot once a revision was found. A version that is already known is kept where the new
    /// revision tells none.
    pub open spec fn after_found(self, revision: RevisionView) -> SnapshotView {
        SnapshotView::Success(
            RevisionView {
                version: match (revision.version, self.served()) {
                    (None, Some(previous)) => previous.version,
                    (version, _) => version,
                },
                ..revision
            },
        )
    }

    /// The snapshot once the upstream version was found, or found to be missing. How the last refresh
    /// ended stays as it is.
    pub open spec fn after_version(self, version: Option<Seq<char>>) -> SnapshotView {
        match self {
            SnapshotView::Never => SnapshotView::Never,
            SnapshotView::Success(revision) => SnapshotView::Success(
                RevisionView { version, ..revision },
            ),
            SnapshotView::LastFailure { stale, category } => SnapshotView::LastFailure {
                stale: match stale {
                    Some(revision) => Some(RevisionView { version, ..revision }),
                    None => None,
                },
                category,
            },
        }
    }

    /// The snapshot once a refresh failed: what was served is still served.
    pub open spec fn after_failure(self, category: Seq<char>) -> SnapshotView {
        SnapshotView::LastFailure { stale: self.served(), category }
    }
}

impl UpstreamSnapshot {
    /// [`SnapshotView::served`] as a copy.
    pub fn revision(&self) -> (revision: Option<UpstreamRevision>)
        ensures
            match revision {
                Some(revision) => self@.served() == Some(revision@),
                None => self@.served() is None,
            },
    {
        match self {
            UpstreamSnapshot::Never => None,
            UpstreamSnapshot::Success(revision) => Some(revision.copy()),
            UpstreamSnapshot::LastFailure { stale, .. } => match stale {
                Some(revision) => Some(revision.copy()),
                None => None,
            },
        }
    }

    /// [`SnapshotView::after_found`] as a snapshot.
    pub fn found(self, revision: UpstreamRevision) -> (next: UpstreamSnapshot)
        ensures
            next@ == self@.after_found(revision@),
    {
        let version = match revision.version {
            Some(version) => Some(version),
            None => match self {
                UpstreamSnapshot::Success(previous) => previous.version,
                UpstreamSnapshot::LastFailure { stale, .. } => match stale {
                    Some(previous) => previous.version,
                    None => None,
                },
                UpstreamSnapshot::Never => None,
            },
        };
        UpstreamSnapshot::Success(
            UpstreamRevision { revision: revision.revision, relation: revision.relation, version },
        )
    }

    /// [`SnapshotView::after_version`] as a snapshot.
    pub fn version_found(self, version: Option<String>) -> (next: UpstreamSnapshot)
        ensures
            next@ == self@.after_version(optional(version)),
    {
        match self {
            UpstreamSnapshot::Success(revision) => UpstreamSnapshot::Success(
                UpstreamRevision {
                    revision: revision.revision,
                    relation: revision.relation,
                    version,
                },
            ),
            UpstreamSnapshot::LastFailure { stale, category } => match stale {
                Some(revision) => UpstreamSnapshot::LastFailure {
                    stale: Some(
                        UpstreamRevision {
                            revision: revision.revision,
                            relation: revision.relation,
                            version,
                        },
                    ),
                    category,
                },
                None => UpstreamSnapshot::LastFailure { stale: None, category },
            },
            UpstreamSnapshot::Never => UpstreamSnapshot::Never,
        }
    }

    /// [`SnapshotView::after_failure`] as a snapshot.
    pub fn failed(self, category: String) -> (next: UpstreamSnapshot)
        ensures
            next@ == self@.after_failure(category@),
    {
        let stale = match self {
            UpstreamSnapshot::Success(revision) => Some(revision),
            UpstreamSnapshot::LastFailure { stale, .. } => stale,
            UpstreamSnapshot::Never => None,
        };
        UpstreamSnapshot::LastFailure { stale, category }
    }
}

/// However many refreshes fail, the revision that was found last is served; finding its version changes
/// only the version.
pub proof fn failures_keep_what_is_served(
    snapshot: SnapshotView,
    category: Seq<char>,
    version: Option<Seq<char>>,
)
    ensures
        snapshot.after_failure(category).served() == snapshot.served(),
        snapshot.after_version(version).served() == (match snapshot.served() {
            Some(served) => Some(RevisionView { version, ..served }),
            None => None,
        }),
{
}

/// How long a looked-up upstream revision is served again, in milliseconds.
pub const UPSTREAM_MAIN_REV_TTL: u64 = 300_000;

/// The upstream revision that was looked up last, and when. A failed lookup is remembered as an
/// empty revision, so that asking again and again does not ask upstream again and again.
pub struct MainRevCache {
    resolved: Option<(u64, String)>,
}

impl MainRevCache {
    /// What is remembered.
    pub closed spec fn resolved(self) -> Option<(u64, Seq<char>)> {
        match self.resolved {
            Some((at, revision)) => Some((at, revision@)),
            None => None,
        }
    }

    /// What is served again at the time `now`: what is remembered, where it is fresh enough.
    pub open spec fn served(self, now: u64) -> Option<Seq<char>> {
        match self.resolved() {
            Some((at, revision)) => if now - at < UPSTREAM_MAIN_REV_TTL {
                Some(revision)
            } else {
                None
            },
            None => None,
        }
    }

    /// Nothing is remembered yet.
    pub fn new() -> (cache: Self)
        ensures
            cache.resolved() is None,
    {
        MainRevCache { resolved: None }
    }

    /// What is remembered, where it is fresh enough at the time `now`.
    pub fn fresh(&self, now: u64) -> (revision: Option<String>)
        ensures
            optional(revision) == self.served(now),
            match revision {
                Some(revision) => self.resolved() matches Some((at, remembered))
                    && now - at < UPSTREAM_MAIN_REV_TTL && revision@ == remembered,
                None => self.resolved() matches Some((at, _)) ==> now - at
                    >= UPSTREAM_MAIN_REV_TTL,
            },
    {
        match &self.resolved {
            Some((at, revision)) => {
                let age: u64 = now.saturating_sub(*at);
                if age < UPSTREAM_MAIN_REV_TTL {
                    Some(revision.clone())
                } else {
                    None
                }
            },
            None => None,
        }
    }

    /// Remembers a lookup that ended at the time `now`, and tells what it gave.
    pub fn remember(&mut self, now: u64, looked_up: Option<String>) -> (revision: String)
        ensures
            revision@ == (match looked_up {
                Some(found) => found@,
                None => Seq::empty(),
            }),
            final(self).resolved() == Some((now, revision@)),
    {
        let revision = match looked_up {
            Some(found) => found,
            None => String::new(),
        };
        self.resolved = Some((now, revision.clone()));
        revision
    }
}

} // verus!
