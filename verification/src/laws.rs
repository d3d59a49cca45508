//! Proved statements relating the operations to one another: what creation,
//! resolution, history reconstruction and deletion guarantee across calls.
//!
//! Each law is stated over the spec-level denotations of
//! [`crate::coordinator`], which the executable operations are proved to
//! implement exactly; two-store laws take the before and after states related
//! as the mutating operation's contract relates them.

use vstd::prelude::*;

use crate::coordinator::{
    all_targets_are_actions, all_targets_resolve, created_action, delete_action, deletions_of,
    edge_resolves,
    latest_outcome, oldest_delete_of, oldest_index, original_outcome, resolved_targets,
    revisions_outcome, update_edge_record, updated_action, winning_index, UpdateTextEntryInput,
};
use crate::store::{
    edge_of, is_delete_of, lemma_deletes_of_seq_empty, lemma_deletes_of_seq_members,
    lemma_deletes_of_seq_push, lemma_edges_from_seq_push, Store,
};
use crate::types::{Action, Edge, ErrorKind, LinkableAddress, TextEntry};

verus! {

/// The winning edge exists and carries the maximal timestamp among `links`.
pub proof fn lemma_winning_index_is_max(links: Seq<Edge>)
    requires
        links.len() > 0,
    ensures
        0 <= winning_index(links) < links.len(),
        forall|j: int|
            0 <= j < links.len() ==> (#[trigger] links[j]).timestamp <= links[winning_index(
                links,
            )].timestamp,
    decreases links.len(),
{
    if links.len() > 1 {
        let prefix = links.drop_last();
        lemma_winning_index_is_max(prefix);
        let w = winning_index(links);
        assert forall|j: int| 0 <= j < links.len() implies (#[trigger] links[j]).timestamp
            <= links[w].timestamp by {
            if j < links.len() - 1 {
                assert(prefix[j] == links[j]);
                assert(prefix[winning_index(prefix)] == links[winning_index(prefix)]);
            }
        }
    }
}

/// When edge timestamps strictly increase in enumeration order, the newest
/// edge wins.
pub proof fn lemma_winning_index_of_increasing(links: Seq<Edge>)
    requires
        links.len() > 0,
        forall|i: int, j: int|
            0 <= i < j < links.len() ==> (#[trigger] links[i]).timestamp < (
            #[trigger] links[j]).timestamp,
    ensures
        winning_index(links) == links.len() - 1,
    decreases links.len(),
{
    if links.len() > 1 {
        let prefix = links.drop_last();
        assert forall|i: int, j: int| 0 <= i < j < prefix.len() implies (
        #[trigger] prefix[i]).timestamp < (#[trigger] prefix[j]).timestamp by {
            assert(prefix[i] == links[i]);
            assert(prefix[j] == links[j]);
        }
        lemma_winning_index_of_increasing(prefix);
        assert(prefix[prefix.len() - 1] == links[links.len() - 2]);
    }
}

/// The oldest tombstone exists and carries the minimal timestamp among `ds`.
pub proof fn lemma_oldest_index_is_min(ds: Seq<Action>)
    requires
        ds.len() > 0,
    ensures
        0 <= oldest_index(ds) < ds.len(),
        forall|j: int|
            0 <= j < ds.len() ==> ds[oldest_index(ds)].timestamp <= (
            #[trigger] ds[j]).timestamp,
    decreases ds.len(),
{
    if ds.len() > 1 {
        let prefix = ds.drop_last();
        lemma_oldest_index_is_min(prefix);
        let w = oldest_index(ds);
        assert forall|j: int| 0 <= j < ds.len() implies ds[w].timestamp <= (
        #[trigger] ds[j]).timestamp by {
            if j < ds.len() - 1 {
                assert(prefix[j] == ds[j]);
                assert(prefix[oldest_index(prefix)] == ds[oldest_index(prefix)]);
            }
        }
    }
}

/// When every edge target dereferences to a committed action, the resolution
/// drops nothing: one action per edge.
pub proof fn lemma_resolved_targets_complete(s: Store, links: Seq<Edge>)
    requires
        forall|i: int| 0 <= i < links.len() ==> edge_resolves(s, #[trigger] links[i]),
    ensures
        resolved_targets(s, links).len() == links.len(),
    decreases links.len(),
{
    if links.len() > 0 {
        let prefix = links.drop_last();
        assert forall|i: int| 0 <= i < prefix.len() implies edge_resolves(
            s,
            #[trigger] prefix[i],
        ) by {
            assert(prefix[i] == links[i]);
        }
        lemma_resolved_targets_complete(s, prefix);
        assert(links[links.len() - 1] == links.last());
    }
}

/// For every payload, fetching the original revision of a freshly created
/// entity returns the create action itself, and that action carries exactly
/// the created payload.
pub proof fn lemma_create_then_original(s1: Store, s2: Store, entry: TextEntry, now: u64)
    requires
        s1.actions@.len() <= usize::MAX,
        s2.actions@ == s1.actions@.push(created_action(s1, entry, now)),
    ensures
        original_outcome(s2, created_action(s1, entry, now).address) == Ok::<
            Option<Action>,
            ErrorKind,
        >(Some(created_action(s1, entry, now))),
        created_action(s1, entry, now).spec_payload() == Some(entry),
{
    let a = created_action(s1, entry, now);
    assert(s2.actions@[a.address as int] == a);
}

/// An original with no update edges resolves to itself: getting the latest
/// revision and getting the original revision denote the same result.
pub proof fn lemma_latest_equals_original_when_unupdated(s: Store, o: usize)
    requires
        s.edges_from(o).len() == 0,
    ensures
        latest_outcome(s, o) == original_outcome(s, o),
{
}

/// When the update edges of an original were recorded in strictly increasing
/// timestamp order, the latest revision is the action behind the newest
/// edge.
pub proof fn lemma_latest_is_newest_update(s: Store, o: usize, a: usize)
    requires
        s.edges_from(o).len() > 0,
        forall|i: int, j: int|
            0 <= i < j < s.edges_from(o).len() ==> (#[trigger] s.edges_from(o)[i]).timestamp < (
            #[trigger] s.edges_from(o)[j]).timestamp,
        s.edges_from(o).last().target == LinkableAddress::ActionAddr(a),
        s.has_action(a),
    ensures
        latest_outcome(s, o) == Ok::<Option<Action>, ErrorKind>(Some(s.actions@[a as int])),
{
    lemma_winning_index_of_increasing(s.edges_from(o));
}

/// An update committed with a clock reading newer than every update edge
/// recorded so far becomes the latest revision. The two stores are related as
/// a successful [`crate::coordinator::update_text_entry`] relates them.
pub proof fn lemma_update_becomes_latest(
    s1: Store,
    s2: Store,
    input: UpdateTextEntryInput,
    now: u64,
)
    requires
        s1.actions@.len() <= usize::MAX,
        s2.actions@ == s1.actions@.push(updated_action(s1, input, now)),
        s2.edges@ == s1.edges@.push(update_edge_record(s1, input, now)),
        forall|i: int|
            0 <= i < s1.edges_from(input.original_text_entry_hash).len() ==> (
            #[trigger] s1.edges_from(input.original_text_entry_hash)[i]).timestamp < now,
    ensures
        latest_outcome(s2, input.original_text_entry_hash) == Ok::<Option<Action>, ErrorKind>(
            Some(updated_action(s1, input, now)),
        ),
{
    let o = input.original_text_entry_hash;
    let row = update_edge_record(s1, input, now);
    lemma_edges_from_seq_push(s1.edges@, row, o);
    let old_links = s1.edges_from(o);
    let links = s2.edges_from(o);
    assert(links == old_links.push(edge_of(row)));
    assert(links.drop_last() =~= old_links);
    if old_links.len() > 0 {
        lemma_winning_index_is_max(old_links);
        assert(links[winning_index(old_links)] == old_links[winning_index(old_links)]);
    }
    assert(winning_index(links) == links.len() - 1);
    let a = updated_action(s1, input, now);
    assert(s2.actions@[a.address as int] == a);
}

/// The revision history of an existing original whose update edges all
/// resolve is never empty: it starts with the original action and holds
/// exactly one action more than there are update edges.
pub proof fn lemma_revisions_shape(s: Store, o: usize)
    requires
        s.has_action(o),
        all_targets_resolve(s, s.edges_from(o)),
    ensures
        revisions_outcome(s, o) is Ok,
        revisions_outcome(s, o)->Ok_0.len() == 1 + s.edges_from(o).len(),
        revisions_outcome(s, o)->Ok_0.len() >= 1,
        revisions_outcome(s, o)->Ok_0[0] == s.actions@[o as int],
{
    assert(all_targets_are_actions(s.edges_from(o))) by {
        assert forall|i: int| 0 <= i < s.edges_from(o).len() implies (#[trigger] s.edges_from(
            o,
        )[i]).target is ActionAddr by {
            assert(edge_resolves(s, s.edges_from(o)[i]));
        }
    }
    lemma_resolved_targets_complete(s, s.edges_from(o));
}

/// An existing original that no delete action tombstones lists an empty
/// deletion set; one never created lists none at all.
pub proof fn lemma_deletions_empty_when_never_deleted(s: Store, o: usize)
    requires
        s.has_action(o),
        forall|i: int| 0 <= i < s.actions@.len() ==> !is_delete_of(#[trigger] s.actions@[i], o),
    ensures
        deletions_of(s, o) == Some(Seq::<Action>::empty()),
{
    lemma_deletes_of_seq_empty(s.actions@, o);
}

/// Deleting an existing entity appends exactly one tombstone to its deletion
/// set, which is therefore non-empty afterwards.
pub proof fn lemma_delete_appends_tombstone(s1: Store, s2: Store, o: usize, now: u64)
    requires
        s1.has_action(o),
        s2.actions@ == s1.actions@.push(delete_action(s1, o, now)),
    ensures
        deletions_of(s2, o) is Some,
        deletions_of(s2, o)->Some_0 == s1.deletes_of(o).push(delete_action(s1, o, now)),
        deletions_of(s2, o)->Some_0.len() == s1.deletes_of(o).len() + 1,
{
    lemma_deletes_of_seq_push(s1.actions@, delete_action(s1, o, now), o);
}

/// The oldest deletion is absent exactly when the deletion set is absent or
/// empty; otherwise it is a member of that set with the minimal timestamp,
/// and itself a tombstone of the original.
pub proof fn lemma_oldest_is_minimum_deletion(s: Store, o: usize)
    ensures
        (oldest_delete_of(s, o) is None) <==> (deletions_of(s, o) is None || deletions_of(
            s,
            o,
        )->Some_0.len() == 0),
        oldest_delete_of(s, o) is Some ==> deletions_of(s, o)->Some_0.contains(
            oldest_delete_of(s, o)->Some_0,
        ),
        oldest_delete_of(s, o) is Some ==> is_delete_of(oldest_delete_of(s, o)->Some_0, o),
        oldest_delete_of(s, o) is Some ==> forall|j: int|
            0 <= j < deletions_of(s, o)->Some_0.len() ==> oldest_delete_of(s, o)->Some_0.timestamp
                <= (#[trigger] deletions_of(s, o)->Some_0[j]).timestamp,
{
    if s.has_action(o) && s.deletes_of(o).len() > 0 {
        let ds = s.deletes_of(o);
        lemma_oldest_index_is_min(ds);
        lemma_deletes_of_seq_members(s.actions@, o);
        assert(ds.contains(ds[oldest_index(ds)]));
    }
}

} // verus!
