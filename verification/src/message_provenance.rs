//! What the process did to messages itself, so that the updates which come back are told apart from
//! the owner's own doing.
//!
//! The ledgers are bounded. Tasks that share one do so behind a lock.
use crate::peer::PeerId;
use crate::text;
use std::collections::VecDeque;
use vstd::prelude::*;

verus! {

/// The most entries that a ledger holds.
pub const MAX_ENTRIES: usize = 128;

/// How a request to Telegram failed.
#[derive(Clone, Copy, Debug, PartialEq, Eq, Structural)]
pub enum InvocationFailure {
    Session,
    Rpc,
    Io,
    Deserialize,
    Transport,
    Dropped,
    InvalidDc,
    Authentication,
}

/// Whether Telegram answered, and so rejected, a mutation that failed.
pub open spec fn definite(error: InvocationFailure) -> bool {
    error == InvocationFailure::Rpc
}

/// Whether Telegram definitively rejected a mutation. Failures of the transport or the session
/// leave open what happened, and so do not count as a rejection.
pub fn edit_definitely_rejected(error: &InvocationFailure) -> (rejected: bool)
    ensures
        rejected == (*error == InvocationFailure::Rpc),
        rejected == definite(*error),
{
    matches!(*error, InvocationFailure::Rpc)
}

/// The index of the first `entry`, or the length where there is none.
pub open spec fn first_match<K>(entries: Seq<K>, entry: K) -> nat
    decreases entries.len(),
{
    if entries.len() == 0 || entries[0] == entry {
        0
    } else {
        1 + first_match(entries.skip(1), entry)
    }
}

/// `entries` without the first `entry`.
pub open spec fn without_first<K>(entries: Seq<K>, entry: K) -> Seq<K> {
    let at = first_match(entries, entry) as int;
    if at < entries.len() {
        entries.remove(at)
    } else {
        entries
    }
}

/// `entries` with `entry` at the end, and without the oldest where there were `limit` already.
pub open spec fn with_newest<K>(entries: Seq<K>, entry: K, limit: nat) -> Seq<K> {
    if entries.len() >= limit && entries.len() > 0 {
        entries.skip(1).push(entry)
    } else {
        entries.push(entry)
    }
}

/// `entries` with `entry` at the end, where fewer than `limit` are there already.
pub open spec fn with_room<K>(entries: Seq<K>, entry: K, limit: nat) -> Option<Seq<K>> {
    if entries.len() < limit {
        Some(entries.push(entry))
    } else {
        None
    }
}

/// Whether a claim is granted, and the claims after it: only the first claim of an entry is.
pub open spec fn claimed<K>(entries: Seq<K>, entry: K, limit: nat) -> (bool, Seq<K>) {
    if entries.contains(entry) {
        (false, entries)
    } else {
        (true, with_newest(entries, entry, limit))
    }
}

/// The first match is a match, and nothing before it is.
pub proof fn lemma_first_match<K>(entries: Seq<K>, entry: K)
    ensures
        first_match(entries, entry) <= entries.len(),
        first_match(entries, entry) < entries.len() ==> entries[first_match(entries, entry) as int]
            == entry,
        forall|i: int|
            0 <= i < first_match(entries, entry) ==> #[trigger] entries[i] != entry,
        first_match(entries, entry) < entries.len() <==> entries.contains(entry),
    decreases entries.len(),
{
    if entries.len() > 0 && entries[0] != entry {
        lemma_first_match(entries.skip(1), entry);
        assert forall|i: int| 0 <= i < first_match(entries, entry) implies #[trigger] entries[i]
            != entry by {
            if i > 0 {
                assert(entries.skip(1)[i - 1] == entries[i]);
            }
        }
        if entries.contains(entry) {
            let at = choose|i: int| 0 <= i < entries.len() && entries[i] == entry;
            assert(entries.skip(1)[at - 1] == entry);
        }
        if first_match(entries, entry) < entries.len() {
            assert(entries[first_match(entries, entry) as int] == entry);
        }
    }
}

/// A match with nothing like it before is the first match.
pub proof fn lemma_first_match_is<K>(entries: Seq<K>, entry: K, at: int)
    requires
        0 <= at <= entries.len(),
        at < entries.len() ==> entries[at] == entry,
        forall|i: int| 0 <= i < at ==> #[trigger] entries[i] != entry,
    ensures
        first_match(entries, entry) == at,
{
    lemma_first_match(entries, entry);
}

/// An entry that a ledger did not hold is consumed exactly once after it was registered, and
/// consuming it leaves the ledger as it was before.
pub proof fn entries_are_consumed_once<K>(entries: Seq<K>, entry: K)
    requires
        !entries.contains(entry),
    ensures
        entries.push(entry).contains(entry),
        without_first(entries.push(entry), entry) == entries,
        !without_first(entries.push(entry), entry).contains(entry),
{
    assert(entries.push(entry)[entries.len() as int] == entry);
    lemma_first_match_is(entries.push(entry), entry, entries.len() as int);
    assert(entries.push(entry).remove(entries.len() as int) == entries);
}

/// `entries` after `entry` was registered `times` times.
pub open spec fn registered<K>(entries: Seq<K>, entry: K, times: nat) -> Seq<K>
    decreases times,
{
    if times == 0 {
        entries
    } else {
        registered(entries, entry, (times - 1) as nat).push(entry)
    }
}

/// `entries` after `entry` was consumed `times` times.
pub open spec fn consumed<K>(entries: Seq<K>, entry: K, times: nat) -> Seq<K>
    decreases times,
{
    if times == 0 {
        entries
    } else {
        without_first(consumed(entries, entry, (times - 1) as nat), entry)
    }
}

proof fn lemma_registered<K>(entries: Seq<K>, entry: K, times: nat)
    ensures
        registered(entries, entry, times).to_multiset().count(entry)
            == entries.to_multiset().count(entry) + times,
        forall|other: K|
            other != entry ==> #[trigger] registered(entries, entry, times).to_multiset().count(other)
                == entries.to_multiset().count(other),
    decreases times,
{
    broadcast use vstd::seq_lib::group_to_multiset_ensures;

    if times > 0 {
        lemma_registered(entries, entry, (times - 1) as nat);
    }
}

proof fn lemma_consumed<K>(entries: Seq<K>, entry: K, times: nat)
    ensures
        consumed(entries, entry, times).to_multiset().count(entry) == (if times
            < entries.to_multiset().count(entry) {
            (entries.to_multiset().count(entry) - times) as nat
        } else {
            0
        }),
        consumed(entries, entry, times).contains(entry) <==> times
            < entries.to_multiset().count(entry),
        forall|other: K|
            other != entry ==> #[trigger] consumed(entries, entry, times).to_multiset().count(other)
                == entries.to_multiset().count(other),
    decreases times,
{
    broadcast use vstd::seq_lib::group_to_multiset_ensures;

    if times > 0 {
        let earlier = consumed(entries, entry, (times - 1) as nat);
        lemma_consumed(entries, entry, (times - 1) as nat);
        lemma_first_match(earlier, entry);
    }
}

/// An entry is consumed exactly as often as it was registered: every consumption finds it until all its
/// registrations are used up, and none after that. Other entries stay as often as they were.
pub proof fn entries_are_consumed_as_often_as_registered<K>(
    entries: Seq<K>,
    entry: K,
    registrations: nat,
    consumptions: nat,
)
    requires
        !entries.contains(entry),
    ensures
        consumed(registered(entries, entry, registrations), entry, consumptions).contains(entry)
            <==> consumptions < registrations,
        forall|other: K|
            other != entry ==> #[trigger] consumed(
                registered(entries, entry, registrations),
                entry,
                consumptions,
            ).to_multiset().count(other) == entries.to_multiset().count(other),
        consumptions >= registrations ==> without_first(
            consumed(registered(entries, entry, registrations), entry, consumptions),
            entry,
        ) == consumed(registered(entries, entry, registrations), entry, consumptions),
{
    broadcast use vstd::seq_lib::group_to_multiset_ensures;

    lemma_registered(entries, entry, registrations);
    let all = registered(entries, entry, registrations);
    lemma_consumed(all, entry, consumptions);
    lemma_first_match(consumed(all, entry, consumptions), entry);
}

/// Consuming one entry leaves every other entry in place.
pub proof fn other_entries_are_kept<K>(entries: Seq<K>, entry: K, other: K)
    requires
        entry != other,
    ensures
        without_first(entries, entry).contains(other) <==> entries.contains(other),
{
    lemma_first_match(entries, entry);
    let at = first_match(entries, entry) as int;
    if at < entries.len() {
        let rest = entries.remove(at);
        if entries.contains(other) {
            let i = choose|i: int| 0 <= i < entries.len() && entries[i] == other;
            if i < at {
                assert(rest[i] == other);
            } else {
                assert(rest[i - 1] == other);
            }
        }
        if rest.contains(other) {
            let i = choose|i: int| 0 <= i < rest.len() && rest[i] == other;
            if i < at {
                assert(entries[i] == other);
            } else {
                assert(entries[i + 1] == other);
            }
        }
    }
}

/// Registering in a ledger that makes room forgets at most the oldest entry.
pub proof fn newest_entries_are_kept<K>(entries: Seq<K>, entry: K, limit: nat, at: int)
    requires
        1 <= at < entries.len(),
    ensures
        with_newest(entries, entry, limit).contains(entry),
        with_newest(entries, entry, limit).contains(entries[at]),
        limit >= 1 && entries.len() <= limit ==> with_newest(entries, entry, limit).len() <= limit,
{
    let kept = with_newest(entries, entry, limit);
    assert(kept[kept.len() - 1] == entry);
    if entries.len() >= limit {
        assert(kept[at - 1] == entries[at]);
    } else {
        assert(kept[at] == entries[at]);
    }
}

/// An edit that the process made itself.
#[derive(Clone, Debug, PartialEq, Eq)]
pub struct ExpectedSelfEdit {
    pub peer_id: PeerId,
    pub message_id: i32,
    pub text: String,
}

/// The model of an [`ExpectedSelfEdit`].
pub struct SelfEditView {
    pub peer_id: PeerId,
    pub message_id: i32,
    pub text: Seq<char>,
}

impl View for ExpectedSelfEdit {
    type V = SelfEditView;

    open spec fn view(&self) -> SelfEditView {
        SelfEditView { peer_id: self.peer_id, message_id: self.message_id, text: self.text@ }
    }
}

/// The ledger has no room.
#[derive(Clone, Copy, Debug, PartialEq, Eq, Structural)]
pub struct LedgerFull;

/// Edits that the process made itself and whose updates have not come back yet. A full ledger
/// refuses new entries: forgetting an unresolved one could mistake its update for a command.
#[derive(Debug)]
pub struct SharedSelfEditLedger {
    entries: VecDeque<ExpectedSelfEdit>,
}

impl View for SharedSelfEditLedger {
    type V = Seq<SelfEditView>;

    closed spec fn view(&self) -> Seq<SelfEditView> {
        self.entries@.map_values(|entry: ExpectedSelfEdit| entry@)
    }
}

impl Default for SharedSelfEditLedger {
    fn default() -> (ledger: SharedSelfEditLedger)
        ensures
            ledger@ == Seq::<SelfEditView>::empty(),
            ledger.wf(),
    {
        let ledger = SharedSelfEditLedger { entries: VecDeque::new() };
        assert(ledger@ == Seq::<SelfEditView>::empty());
        ledger
    }
}

impl SharedSelfEditLedger {
    /// A ledger is bounded.
    pub open spec fn wf(self) -> bool {
        self@.len() <= MAX_ENTRIES
    }

    /// The number of entries.
    pub fn len(&self) -> (len: usize)
        ensures
            len == self@.len(),
    {
        self.entries.len()
    }

    /// Expects the edit of a message to `text`, where there is room.
    pub fn register(&mut self, peer_id: PeerId, message_id: i32, text: String) -> (result: Result<
        (),
        LedgerFull,
    >)
        ensures
            match with_room(
                old(self)@,
                (SelfEditView { peer_id, message_id, text: text@ }),
                MAX_ENTRIES as nat,
            ) {
                Some(entries) => result is Ok && final(self)@ == entries,
                None => result is Err && final(self)@ == old(self)@,
            },
            result is Ok <==> old(self)@.len() < MAX_ENTRIES,
            result is Ok ==> final(self)@ == old(self)@.push(
                SelfEditView { peer_id, message_id, text: text@ },
            ),
            result is Err ==> final(self)@ == old(self)@,
            old(self).wf() ==> final(self).wf(),
    {
        if self.entries.len() >= MAX_ENTRIES {
            return Err(LedgerFull);
        }
        let ghost before = self@;
        let entry = ExpectedSelfEdit { peer_id, message_id, text };
        let ghost added = entry@;
        self.entries.push_back(entry);
        assert(self@ == before.push(added));
        Ok(())
    }

    /// Whether an edit was expected; the first one that was is taken out.
    pub fn consume(&mut self, peer_id: PeerId, message_id: i32, text: &str) -> (found: bool)
        ensures
            ({
                let entry = SelfEditView { peer_id, message_id, text: text@ };
                &&& found == old(self)@.contains(entry)
                &&& final(self)@ == without_first(old(self)@, entry)
            }),
            old(self).wf() ==> final(self).wf(),
    {
        let ghost before = self@;
        let ghost entry = SelfEditView { peer_id, message_id, text: text@ };
        let mut i: usize = 0;
        while i < self.entries.len()
            invariant
                i <= self.entries@.len(),
                self@ == before,
                before == old(self)@,
                entry == (SelfEditView { peer_id, message_id, text: text@ }),
                forall|j: int| 0 <= j < i ==> #[trigger] before[j] != entry,
            decreases self.entries@.len() - i,
        {
            let candidate = &self.entries[i];
            assert(before[i as int] == candidate@);
            if candidate.peer_id == peer_id && candidate.message_id == message_id
                && text::same_text(candidate.text.as_str(), text) {
                proof {
                    lemma_first_match_is(before, entry, i as int);
                    lemma_first_match(before, entry);
                }
                let _ = self.entries.remove(i);
                assert(self@ == before.remove(i as int));
                return true;
            }
            i = i + 1;
        }
        proof {
            lemma_first_match_is(before, entry, i as int);
            lemma_first_match(before, entry);
        }
        false
    }

    /// Gives up an expectation.
    pub fn remove(&mut self, peer_id: PeerId, message_id: i32, text: &str)
        ensures
            final(self)@ == without_first(
                old(self)@,
                (SelfEditView { peer_id, message_id, text: text@ }),
            ),
            old(self).wf() ==> final(self).wf(),
    {
        let _ = self.consume(peer_id, message_id, text);
    }
}

/// Inline forms that the process sent through a bot. They come back as the owner's messages, but
/// their text is up to a module: they must be consumed before commands are looked for. A full
/// ledger forgets its oldest entry.
#[derive(Debug)]
pub struct SharedBotFormLedger {
    entries: VecDeque<(PeerId, i32)>,
}

impl View for SharedBotFormLedger {
    type V = Seq<(PeerId, i32)>;

    closed spec fn view(&self) -> Seq<(PeerId, i32)> {
        self.entries@
    }
}

impl Default for SharedBotFormLedger {
    fn default() -> (ledger: SharedBotFormLedger)
        ensures
            ledger@ == Seq::<(PeerId, i32)>::empty(),
            ledger.wf(),
    {
        SharedBotFormLedger { entries: VecDeque::new() }
    }
}

impl SharedBotFormLedger {
    /// A ledger is bounded.
    pub open spec fn wf(self) -> bool {
        self@.len() <= MAX_ENTRIES
    }

    /// The number of entries.
    pub fn len(&self) -> (len: usize)
        ensures
            len == self@.len(),
    {
        self.entries.len()
    }

    /// Whether a form is expected.
    pub fn contains(&self, peer_id: PeerId, message_id: i32) -> (found: bool)
        ensures
            found == self@.contains((peer_id, message_id)),
    {
        let mut i: usize = 0;
        while i < self.entries.len()
            invariant
                i <= self.entries@.len(),
                self@ == self.entries@,
                forall|j: int| 0 <= j < i ==> #[trigger] self.entries@[j] != (peer_id, message_id),
            decreases self.entries@.len() - i,
        {
            let candidate = self.entries[i];
            if candidate.0 == peer_id && candidate.1 == message_id {
                assert(self@[i as int] == (peer_id, message_id));
                return true;
            }
            i = i + 1;
        }
        false
    }

    /// Expects a form, and makes room for it where there is none.
    pub fn register(&mut self, peer_id: PeerId, message_id: i32)
        ensures
            final(self)@ == with_newest(old(self)@, (peer_id, message_id), MAX_ENTRIES as nat),
            old(self).wf() ==> final(self).wf(),
    {
        if self.entries.len() >= MAX_ENTRIES {
            let ghost before = self.entries@;
            let _ = self.entries.pop_front();
            assert(self.entries@ == before.skip(1));
        }
        self.entries.push_back((peer_id, message_id));
    }

    /// Whether a form was expected; the first one that was is taken out.
    pub fn consume(&mut self, peer_id: PeerId, message_id: i32) -> (found: bool)
        ensures
            found == old(self)@.contains((peer_id, message_id)),
            final(self)@ == without_first(old(self)@, (peer_id, message_id)),
            old(self).wf() ==> final(self).wf(),
    {
        let ghost before = self@;
        let ghost entry = (peer_id, message_id);
        let mut i: usize = 0;
        while i < self.entries.len()
            invariant
                i <= self.entries@.len(),
                self.entries@ == before,
                self@ == before,
                before == old(self)@,
                entry == (peer_id, message_id),
                forall|j: int| 0 <= j < i ==> #[trigger] before[j] != entry,
            decreases self.entries@.len() - i,
        {
            let candidate = self.entries[i];
            if candidate.0 == peer_id && candidate.1 == message_id {
                proof {
                    lemma_first_match_is(before, entry, i as int);
                    lemma_first_match(before, entry);
                }
                let _ = self.entries.remove(i);
                return true;
            }
            i = i + 1;
        }
        proof {
            lemma_first_match_is(before, entry, i as int);
            lemma_first_match(before, entry);
        }
        false
    }
}

} // verus!
