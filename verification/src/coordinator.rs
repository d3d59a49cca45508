//! The operations a caller sees: create, read (original, latest, full
//! history), update and delete of a logical text entry, plus deletion
//! history.
//!
//! Each operation is specified against a spec-level denotation
//! (`latest_outcome`, `revisions_outcome`, ...) over the store's mathematical
//! model; [`crate::laws`] relates those denotations to one another.

use vstd::prelude::*;

use crate::integrity::{
    check_link_endpoint, validate_create_text_entry, validate_delete_text_entry,
    validate_update_text_entry,
};
use crate::store::{Details, EdgeRecord, Store};
use crate::types::{
    Action, ActionContent, Edge, Error, ErrorKind, LinkableAddress, TextEntry, ValidationOutcome,
};

verus! {

/// The arguments of [`update_text_entry`]: the entity being updated (its
/// original creation address), the revision being superseded, and the
/// replacement payload.
#[derive(Debug)]
pub struct UpdateTextEntryInput {
    pub original_text_entry_hash: usize,
    pub previous_text_entry_hash: usize,
    pub updated_text_entry: TextEntry,
}

/// Abstract an operation result to its spec-level shape: the value on
/// success, the error taxonomy kind on failure.
pub open spec fn outcome<T>(r: Result<T, Error>) -> Result<T, ErrorKind> {
    match r {
        Ok(v) => Ok(v),
        Err(e) => Err(e.kind),
    }
}

/// Abstract a sequence-valued operation result, viewing the vector.
pub open spec fn seq_outcome(r: Result<Vec<Action>, Error>) -> Result<Seq<Action>, ErrorKind> {
    match r {
        Ok(v) => Ok(v@),
        Err(e) => Err(e.kind),
    }
}

/// Abstract an optional-sequence-valued operation result.
pub open spec fn opt_seq_outcome(r: Result<Option<Vec<Action>>, Error>) -> Result<
    Option<Seq<Action>>,
    ErrorKind,
> {
    match r {
        Ok(Some(v)) => Ok(Some(v@)),
        Ok(None) => Ok(None),
        Err(e) => Err(e.kind),
    }
}

/// Whether `addr` holds an action carrying a payload.
pub open spec fn has_entry_action(s: Store, addr: usize) -> bool {
    match s.spec_get(addr) {
        Some(a) => a.spec_payload() is Some,
        None => false,
    }
}

/// The action [`create_text_entry`] commits.
pub open spec fn created_action(s: Store, entry: TextEntry, now: u64) -> Action {
    Action {
        address: s.actions@.len() as usize,
        timestamp: now,
        content: ActionContent::Create { entry: entry },
    }
}

/// What fetching the original revision denotes: the action at the address,
/// if any. Against this store it never fails.
pub open spec fn original_outcome(s: Store, o: usize) -> Result<Option<Action>, ErrorKind> {
    Ok(s.spec_get(o))
}

/// The edge `resolveLatest` picks among `links`: the one with the maximum
/// timestamp. Ties are broken deterministically towards the edge enumerated
/// last, mirroring how a maximum over the enumeration order behaves.
pub open spec fn winning_index(links: Seq<Edge>) -> int
    decreases links.len(),
{
    if links.len() <= 1 {
        0
    } else {
        let prev = winning_index(links.drop_last());
        if links.last().timestamp >= links[prev].timestamp {
            links.len() - 1
        } else {
            prev
        }
    }
}

/// What resolving the latest revision denotes: the original itself when no
/// update edge exists (absent legitimately yielding nothing), otherwise the
/// action behind the winning edge. A winning edge whose target is not an
/// action address is a structural error; one whose target is absent from the
/// store is a broken reference, a hard failure rather than an empty result.
pub open spec fn latest_outcome(s: Store, o: usize) -> Result<Option<Action>, ErrorKind> {
    let links = s.edges_from(o);
    if links.len() == 0 {
        Ok(s.spec_get(o))
    } else {
        match links[winning_index(links)].target {
            LinkableAddress::ActionAddr(a) => match s.spec_get(a) {
                Some(act) => Ok(Some(act)),
                None => Err(ErrorKind::NotFound),
            },
            LinkableAddress::EntryAddr(_) => Err(ErrorKind::Malformed),
        }
    }
}

/// Whether every edge target can be interpreted as an action reference.
pub open spec fn all_targets_are_actions(links: Seq<Edge>) -> bool {
    forall|i: int| 0 <= i < links.len() ==> (#[trigger] links[i]).target is ActionAddr
}

/// Whether an edge's target dereferences to a committed action.
pub open spec fn edge_resolves(s: Store, e: Edge) -> bool {
    match e.target {
        LinkableAddress::ActionAddr(a) => s.has_action(a),
        LinkableAddress::EntryAddr(_) => false,
    }
}

/// The actions behind `links`, in enumeration order, skipping targets absent
/// from the store.
pub open spec fn resolved_targets(s: Store, links: Seq<Edge>) -> Seq<Action>
    decreases links.len(),
{
    if links.len() == 0 {
        Seq::empty()
    } else {
        let rest = resolved_targets(s, links.drop_last());
        match links.last().target {
            LinkableAddress::ActionAddr(a) => match s.spec_get(a) {
                Some(act) => rest.push(act),
                None => rest,
            },
            LinkableAddress::EntryAddr(_) => rest,
        }
    }
}

/// Whether every edge target dereferences to a committed action.
pub open spec fn all_targets_resolve(s: Store, links: Seq<Edge>) -> bool {
    forall|i: int| 0 <= i < links.len() ==> edge_resolves(s, #[trigger] links[i])
}

/// What reconstructing the revision history denotes: empty when the original
/// was never created; a structural error when some edge target is not an
/// action reference; a broken-reference error when some target is absent
/// from the store (propagated, never silently skipped); otherwise the
/// original action followed by one action per update edge, in
/// edge-enumeration order (not timestamp order).
pub open spec fn revisions_outcome(s: Store, o: usize) -> Result<Seq<Action>, ErrorKind> {
    if !s.has_action(o) {
        Ok(Seq::empty())
    } else {
        let links = s.edges_from(o);
        if !all_targets_are_actions(links) {
            Err(ErrorKind::Malformed)
        } else if !all_targets_resolve(s, links) {
            Err(ErrorKind::NotFound)
        } else {
            Ok(seq![s.actions@[o as int]] + resolved_targets(s, links))
        }
    }
}

/// Whether [`update_text_entry`] commits: both the superseded revision and
/// the original must hold payload-carrying actions.
pub open spec fn update_ok(s: Store, input: UpdateTextEntryInput) -> bool {
    has_entry_action(s, input.previous_text_entry_hash) && has_entry_action(
        s,
        input.original_text_entry_hash,
    )
}

/// Which error a rejected update carries: a dangling previous revision is
/// `NotFound`; a previous revision without a payload is `Malformed`; an
/// original the link validator refuses is `ValidationRejected`.
pub open spec fn update_err_kind(s: Store, input: UpdateTextEntryInput) -> ErrorKind {
    if !s.has_action(input.previous_text_entry_hash) {
        ErrorKind::NotFound
    } else if !has_entry_action(s, input.previous_text_entry_hash) {
        ErrorKind::Malformed
    } else {
        ErrorKind::ValidationRejected
    }
}

/// The action a successful update commits.
pub open spec fn updated_action(s: Store, input: UpdateTextEntryInput, now: u64) -> Action {
    Action {
        address: s.actions@.len() as usize,
        timestamp: now,
        content: ActionContent::Update { entry: input.updated_text_entry },
    }
}

/// The edge a successful update records: from the original address to the
/// new revision.
pub open spec fn update_edge_record(s: Store, input: UpdateTextEntryInput, now: u64) -> EdgeRecord {
    EdgeRecord {
        base: input.original_text_entry_hash,
        target: LinkableAddress::ActionAddr(s.actions@.len() as usize),
        timestamp: now,
    }
}

/// Whether [`delete_text_entry`] commits: the original must hold a
/// payload-carrying action.
pub open spec fn delete_ok(s: Store, o: usize) -> bool {
    has_entry_action(s, o)
}

/// Which error a rejected delete carries.
pub open spec fn delete_err_kind(s: Store, o: usize) -> ErrorKind {
    if !s.has_action(o) {
        ErrorKind::NotFound
    } else {
        ErrorKind::Malformed
    }
}

/// The tombstoning action a successful delete commits.
pub open spec fn delete_action(s: Store, o: usize, now: u64) -> Action {
    Action {
        address: s.actions@.len() as usize,
        timestamp: now,
        content: ActionContent::Delete { deletes_address: o },
    }
}

/// What listing the deletions denotes: `None` when the original was never
/// created, otherwise its tombstones in commit order.
pub open spec fn deletions_of(s: Store, o: usize) -> Option<Seq<Action>> {
    if s.has_action(o) {
        Some(s.deletes_of(o))
    } else {
        None
    }
}

/// What listing the deletions denotes as an operation result. Against this
/// store it never fails.
pub open spec fn deletions_outcome(s: Store, o: usize) -> Result<Option<Seq<Action>>, ErrorKind> {
    Ok(deletions_of(s, o))
}

/// The tombstone with the minimum timestamp; ties are broken deterministically
/// towards the tombstone committed first, mirroring a stable sort by
/// timestamp.
pub open spec fn oldest_index(ds: Seq<Action>) -> int
    decreases ds.len(),
{
    if ds.len() <= 1 {
        0
    } else {
        let prev = oldest_index(ds.drop_last());
        if ds.last().timestamp < ds[prev].timestamp {
            ds.len() - 1
        } else {
            prev
        }
    }
}

/// What fetching the oldest deletion denotes.
pub open spec fn oldest_delete_of(s: Store, o: usize) -> Option<Action> {
    match deletions_of(s, o) {
        None => None,
        Some(ds) => if ds.len() == 0 {
            None
        } else {
            Some(ds[oldest_index(ds)])
        },
    }
}

/// Create a new logical entity: commit a `Create` action carrying the
/// payload and return it. The business validator accepts every payload, so
/// creation always succeeds.
pub fn create_text_entry(store: &mut Store, text_entry: TextEntry, now: u64) -> (r: Result<
    Action,
    Error,
>)
    ensures
        final(store).actions@ == old(store).actions@.push(
            created_action(*old(store), text_entry, now),
        ),
        final(store).edges@ == old(store).edges@,
        r is Ok && r->Ok_0 == created_action(*old(store), text_entry, now),
        old(store).wf() ==> final(store).wf(),
{
    let candidate = Action {
        address: store.actions.len(),
        timestamp: now,
        content: ActionContent::Create { entry: text_entry.clone() },
    };
    match validate_create_text_entry(&candidate, &text_entry) {
        ValidationOutcome::Invalid(reason) => {
            return Err(Error::validation_rejected(reason));
        },
        ValidationOutcome::Valid => {},
    }
    let addr = store.append_action(now, candidate.content);
    let record = match store.get(addr) {
        Some(record) => record,
        None => {
            return Err(Error::not_found("Could not find the newly created TextEntry"));
        },
    };
    Ok(record)
}

/// Turn a detail answer into the record it carries; an entry-granularity
/// answer is structurally malformed for record operations.
pub fn record_from_details(details: Details) -> (r: Result<Action, Error>)
    ensures
        match details {
            Details::Record { action, deletes: _ } => r is Ok && r->Ok_0 == action,
            Details::Entry => r is Err && (r->Err_0).kind == ErrorKind::Malformed,
        },
{
    match details {
        Details::Record { action, deletes: _ } => Ok(action),
        Details::Entry => Err(Error::malformed("Malformed get details response")),
    }
}

/// Fetch the original creation action of an entity, or `None` if nothing was
/// ever created at that address.
pub fn get_original_text_entry(store: &Store, original_text_entry_hash: usize) -> (r: Result<
    Option<Action>,
    Error,
>)
    ensures
        outcome(r) == original_outcome(*store, original_text_entry_hash),
{
    let details = match store.get_details(original_text_entry_hash) {
        Some(details) => details,
        None => {
            return Ok(None);
        },
    };
    match record_from_details(details) {
        Ok(record) => Ok(Some(record)),
        Err(e) => Err(e),
    }
}

/// Resolve the latest live revision of an entity: the target of the
/// maximum-timestamp "updates" edge from the original address, or the
/// original itself when it was never updated. Among edges sharing the
/// maximal timestamp the one enumerated last wins, deterministically.
pub fn get_latest_text_entry(store: &Store, original_text_entry_hash: usize) -> (r: Result<
    Option<Action>,
    Error,
>)
    ensures
        outcome(r) == latest_outcome(*store, original_text_entry_hash),
{
    let o = original_text_entry_hash;
    let links = store.list_edges(o);
    if links.len() == 0 {
        return Ok(store.get(o));
    }
    let mut best: usize = 0;
    let mut i: usize = 1;
    while i < links.len()
        invariant
            links@ == store.edges_from(o),
            1 <= i <= links@.len(),
            best < i,
            best as int == winning_index(links@.take(i as int)),
        decreases links@.len() - i,
    {
        proof {
            assert(links@.take(i + 1 as int).drop_last() =~= links@.take(i as int));
            assert(links@.take(i + 1 as int).last() == links@[i as int]);
            assert(links@.take(i + 1 as int)[best as int] == links@[best as int]);
        }
        if links[i].timestamp >= links[best].timestamp {
            best = i;
        }
        i = i + 1;
    }
    proof {
        assert(links@.take(links@.len() as int) =~= links@);
    }
    let latest_addr = match links[best].target {
        LinkableAddress::ActionAddr(a) => a,
        LinkableAddress::EntryAddr(_) => {
            return Err(Error::malformed("No action hash associated with link"));
        },
    };
    match store.get(latest_addr) {
        Some(record) => Ok(Some(record)),
        None => Err(Error::not_found("Could not find the latest TextEntry revision")),
    }
}

/// Reconstruct the full revision history of an entity: the original action
/// first, then one action per update edge in edge-enumeration order (not
/// timestamp order). An entity never created yields an empty history. An
/// edge whose target is not an action reference is a structural error, and a
/// target absent from the store is a broken reference: both abort the whole
/// reconstruction rather than being silently skipped.
pub fn get_all_revisions_for_text_entry(store: &Store, original_text_entry_hash: usize) -> (r:
    Result<Vec<Action>, Error>)
    ensures
        seq_outcome(r) == revisions_outcome(*store, original_text_entry_hash),
{
    let o = original_text_entry_hash;
    let original_record = match get_original_text_entry(store, o) {
        Ok(Some(record)) => record,
        Ok(None) => {
            return Ok(Vec::new());
        },
        Err(e) => {
            return Err(e);
        },
    };
    let links = store.list_edges(o);
    // first interpret every edge target as an action address
    let mut target_addrs: Vec<usize> = Vec::new();
    let mut i: usize = 0;
    while i < links.len()
        invariant
            o == original_text_entry_hash,
            links@ == store.edges_from(o),
            store.has_action(o),
            i <= links@.len(),
            target_addrs@.len() == i as int,
            forall|j: int|
                0 <= j < i as int ==> (#[trigger] links@[j]).target == LinkableAddress::ActionAddr(
                    target_addrs@[j],
                ),
        decreases links@.len() - i,
    {
        match links[i].target {
            LinkableAddress::ActionAddr(a) => {
                target_addrs.push(a);
            },
            LinkableAddress::EntryAddr(_) => {
                proof {
                    assert(!all_targets_are_actions(store.edges_from(o))) by {
                        assert(store.edges_from(o)[i as int].target is EntryAddr);
                    }
                }
                return Err(Error::malformed("No action hash associated with link"));
            },
        }
        i = i + 1;
    }
    proof {
        assert(all_targets_are_actions(links@));
    }
    // then resolve each one, propagating broken references
    let mut records: Vec<Action> = Vec::new();
    records.push(original_record);
    let mut k: usize = 0;
    while k < target_addrs.len()
        invariant
            o == original_text_entry_hash,
            links@ == store.edges_from(o),
            store.has_action(o),
            all_targets_are_actions(links@),
            target_addrs@.len() == links@.len(),
            forall|j: int|
                0 <= j < links@.len() ==> (#[trigger] links@[j]).target
                    == LinkableAddress::ActionAddr(target_addrs@[j]),
            k <= target_addrs@.len(),
            forall|j: int| 0 <= j < k as int ==> edge_resolves(*store, #[trigger] links@[j]),
            records@ == seq![store.actions@[o as int]] + resolved_targets(
                *store,
                links@.take(k as int),
            ),
        decreases target_addrs@.len() - k,
    {
        proof {
            assert(links@.take(k + 1 as int).drop_last() =~= links@.take(k as int));
            assert(links@.take(k + 1 as int).last() == links@[k as int]);
        }
        match store.get(target_addrs[k]) {
            Some(record) => {
                records.push(record);
            },
            None => {
                proof {
                    assert(!all_targets_resolve(*store, store.edges_from(o))) by {
                        assert(!edge_resolves(*store, store.edges_from(o)[k as int]));
                    }
                }
                return Err(Error::not_found("Could not find a TextEntry revision"));
            },
        }
        k = k + 1;
    }
    proof {
        assert(links@.take(links@.len() as int) =~= links@);
        assert(all_targets_resolve(*store, links@));
    }
    Ok(records)
}

/// Update an entity: commit a new `Update` action carrying the replacement
/// payload and record an "updates" edge from the original address to it.
/// Nothing commits unless every validator accepts, so a rejected update
/// leaves the store untouched.
pub fn update_text_entry(store: &mut Store, input: UpdateTextEntryInput, now: u64) -> (r: Result<
    Action,
    Error,
>)
    ensures
        update_ok(*old(store), input) ==> final(store).actions@ == old(store).actions@.push(
            updated_action(*old(store), input, now),
        ),
        update_ok(*old(store), input) ==> final(store).edges@ == old(store).edges@.push(
            update_edge_record(*old(store), input, now),
        ),
        update_ok(*old(store), input) ==> r is Ok && r->Ok_0 == updated_action(
            *old(store),
            input,
            now,
        ),
        update_ok(*old(store), input) && old(store).wf() ==> final(store).wf(),
        !update_ok(*old(store), input) ==> final(store).actions@ == old(store).actions@
            && final(store).edges@ == old(store).edges@,
        !update_ok(*old(store), input) ==> r is Err && (r->Err_0).kind == update_err_kind(
            *old(store),
            input,
        ),
{
    let o = input.original_text_entry_hash;
    let p = input.previous_text_entry_hash;
    // the update validation pipeline needs the superseded revision and its payload
    let previous = match store.get(p) {
        Some(a) => a,
        None => {
            return Err(Error::not_found("Could not find the previous TextEntry to update"));
        },
    };
    let previous_entry = match previous.payload() {
        Some(e) => e.clone(),
        None => {
            return Err(Error::malformed("Previous action does not reference an entry"));
        },
    };
    // the new edge's base must satisfy the link validator before anything
    // commits; its target is the new action itself, valid by construction
    match check_link_endpoint(store, LinkableAddress::ActionAddr(o)) {
        ValidationOutcome::Invalid(reason) => {
            return Err(Error::validation_rejected(reason));
        },
        ValidationOutcome::Valid => {},
    }
    let candidate = Action {
        address: store.actions.len(),
        timestamp: now,
        content: ActionContent::Update { entry: input.updated_text_entry.clone() },
    };
    match validate_update_text_entry(
        &candidate,
        &input.updated_text_entry,
        &previous,
        &previous_entry,
    ) {
        ValidationOutcome::Invalid(reason) => {
            return Err(Error::validation_rejected(reason));
        },
        ValidationOutcome::Valid => {},
    }
    let updated_addr = store.append_action(now, candidate.content);
    store.append_edge(o, LinkableAddress::ActionAddr(updated_addr), now);
    let record = match store.get(updated_addr) {
        Some(record) => record,
        None => {
            return Err(Error::not_found("Could not find the newly updated TextEntry"));
        },
    };
    Ok(record)
}

/// Delete an entity: commit a `Delete` action tombstoning the original
/// address and return the tombstone's address. The entity and its history
/// stay retrievable for audit.
pub fn delete_text_entry(store: &mut Store, original_text_entry_hash: usize, now: u64) -> (r:
    Result<usize, Error>)
    ensures
        delete_ok(*old(store), original_text_entry_hash) ==> final(store).actions@
            == old(store).actions@.push(delete_action(*old(store), original_text_entry_hash, now)),
        delete_ok(*old(store), original_text_entry_hash) ==> final(store).edges@
            == old(store).edges@,
        delete_ok(*old(store), original_text_entry_hash) ==> r is Ok && r->Ok_0
            == old(store).actions@.len(),
        delete_ok(*old(store), original_text_entry_hash) && old(store).wf() ==> final(store).wf(),
        !delete_ok(*old(store), original_text_entry_hash) ==> final(store).actions@
            == old(store).actions@ && final(store).edges@ == old(store).edges@,
        !delete_ok(*old(store), original_text_entry_hash) ==> r is Err && (r->Err_0).kind
            == delete_err_kind(*old(store), original_text_entry_hash),
{
    let o = original_text_entry_hash;
    let original_action = match store.get(o) {
        Some(a) => a,
        None => {
            return Err(Error::not_found("Could not find the TextEntry to delete"));
        },
    };
    let original_entry = match original_action.payload() {
        Some(e) => e.clone(),
        None => {
            return Err(Error::malformed("Original action does not reference an entry"));
        },
    };
    let candidate = Action {
        address: store.actions.len(),
        timestamp: now,
        content: ActionContent::Delete { deletes_address: o },
    };
    match validate_delete_text_entry(&candidate, &original_action, &original_entry) {
        ValidationOutcome::Invalid(reason) => {
            return Err(Error::validation_rejected(reason));
        },
        ValidationOutcome::Valid => {},
    }
    let addr = store.append_action(now, candidate.content);
    Ok(addr)
}

/// Turn a detail answer into the tombstones it carries; an entry-granularity
/// answer is structurally malformed, since deletion bookkeeping is defined
/// only at record granularity.
pub fn deletes_from_details(details: Details) -> (r: Result<Vec<Action>, Error>)
    ensures
        match details {
            Details::Record { action: _, deletes } => r is Ok && r->Ok_0 == deletes,
            Details::Entry => r is Err && (r->Err_0).kind == ErrorKind::Malformed,
        },
{
    match details {
        Details::Entry => Err(Error::malformed("Malformed details")),
        Details::Record { action: _, deletes } => Ok(deletes),
    }
}

/// List every deletion recorded against an entity: `None` when nothing was
/// ever created at the address, otherwise the tombstones in commit order
/// (empty if it was never deleted).
pub fn get_all_deletes_for_text_entry(store: &Store, original_text_entry_hash: usize) -> (r: Result<
    Option<Vec<Action>>,
    Error,
>)
    ensures
        opt_seq_outcome(r) == deletions_outcome(*store, original_text_entry_hash),
{
    let details = match store.get_details(original_text_entry_hash) {
        Some(details) => details,
        None => {
            return Ok(None);
        },
    };
    match deletes_from_details(details) {
        Ok(deletes) => Ok(Some(deletes)),
        Err(e) => Err(e),
    }
}

/// Fetch the earliest deletion of an entity: the minimum-timestamp
/// tombstone, the one committed first among equal timestamps (as a stable
/// sort by timestamp would order them); `None` when the entity does not
/// exist or was never deleted.
pub fn get_oldest_delete_for_text_entry(store: &Store, original_text_entry_hash: usize) -> (r:
    Result<Option<Action>, Error>)
    ensures
        outcome(r) == Ok::<Option<Action>, ErrorKind>(
            oldest_delete_of(*store, original_text_entry_hash),
        ),
{
    let o = original_text_entry_hash;
    let deletes = match get_all_deletes_for_text_entry(store, o) {
        Ok(Some(ds)) => ds,
        Ok(None) => {
            return Ok(None);
        },
        Err(e) => {
            return Err(e);
        },
    };
    if deletes.len() == 0 {
        return Ok(None);
    }
    let mut best: usize = 0;
    let mut i: usize = 1;
    while i < deletes.len()
        invariant
            deletes@ == store.deletes_of(o),
            1 <= i <= deletes@.len(),
            best < i,
            best as int == oldest_index(deletes@.take(i as int)),
        decreases deletes@.len() - i,
    {
        proof {
            assert(deletes@.take(i + 1 as int).drop_last() =~= deletes@.take(i as int));
            assert(deletes@.take(i + 1 as int).last() == deletes@[i as int]);
            assert(deletes@.take(i + 1 as int)[best as int] == deletes@[best as int]);
        }
        if deletes[i].timestamp < deletes[best].timestamp {
            best = i;
        }
        i = i + 1;
    }
    proof {
        assert(deletes@.take(deletes@.len() as int) =~= deletes@);
    }
    Ok(Some(deletes[best].clone()))
}

} // verus!
