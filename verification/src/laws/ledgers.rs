//! What holds of the ledgers of the process's own doing.
use crate::message_provenance;
use crate::message_provenance::{InvocationFailure, MAX_ENTRIES};
use vstd::prelude::*;

verus! {

/// Consuming takes out one equal entry, the oldest, and leaves the others in their order.
pub proof fn the_oldest_equal_entry_is_consumed<K>(before: Seq<K>, entry: K, behind: Seq<K>)
    requires
        forall|i: int| 0 <= i < before.len() ==> #[trigger] before[i] != entry,
    ensures
        message_provenance::without_first(before + seq![entry] + behind, entry) == before + behind,
        message_provenance::without_first(before, entry) == before,
{
    let all = before + seq![entry] + behind;
    message_provenance::lemma_first_match_is(all, entry, before.len() as int);
    message_provenance::lemma_first_match_is(before, entry, before.len() as int);
    assert(all.remove(before.len() as int) == before + behind);
}

/// A ledger that makes room holds 128 entries: the newest is always among them, and only the oldest is ever
/// forgotten, where there were so many.
pub proof fn the_oldest_entry_makes_room<K>(entries: Seq<K>, entry: K)
    ensures
        entries.len() < 128 ==> message_provenance::with_newest(entries, entry, MAX_ENTRIES as nat)
            == entries.push(entry),
        entries.len() >= 128 ==> message_provenance::with_newest(entries, entry, MAX_ENTRIES as nat)
            == entries.subrange(1, entries.len() as int).push(entry),
{
    if entries.len() >= 128 {
        assert(entries.skip(1) == entries.subrange(1, entries.len() as int));
    }
}

/// A ledger that refuses takes 128 entries, each at its end, and then none: what is unresolved is never forgotten.
pub proof fn full_ledgers_refuse<K>(entries: Seq<K>, entry: K)
    ensures
        entries.len() < 128 ==> message_provenance::with_room(entries, entry, MAX_ENTRIES as nat) == Some(
            entries.push(entry),
        ),
        entries.len() >= 128 ==> message_provenance::with_room(entries, entry, MAX_ENTRIES as nat) is None,
{
}

/// A claim is granted once: after the first it is refused, and refusing changes nothing.
pub proof fn claims_are_granted_once<K>(entries: Seq<K>, entry: K, limit: nat)
    ensures
        ({
            let (granted, after) = message_provenance::claimed(entries, entry, limit);
            &&& granted <==> !entries.contains(entry)
            &&& after.contains(entry)
            &&& !granted ==> after == entries
            &&& message_provenance::claimed(after, entry, limit) == (false, after)
        }),
{
    if !entries.contains(entry) {
        let after = message_provenance::with_newest(entries, entry, limit);
        assert(after[after.len() - 1] == entry);
    }
}

/// Only an answer of Telegram rejects a mutation for sure; every other failure leaves open what happened.
pub proof fn only_answers_reject(error: InvocationFailure)
    ensures
        error is Rpc ==> message_provenance::definite(error),
        error is Session || error is Io || error is Deserialize || error is Transport || error is Dropped
            || error is InvalidDc || error is Authentication ==> !message_provenance::definite(error),
{
}

} // verus!
