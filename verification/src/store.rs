//! The revision store and link index: a content-addressed, append-only log of
//! actions together with the typed, timestamped "updates" edges between
//! addresses.
//!
//! Addresses are assigned densely at commit time: the action committed when
//! the log holds `n` actions gets address `n`. Nothing is ever mutated or
//! erased; deletion bookkeeping is a derived view over `Delete` actions.

use vstd::prelude::*;

use crate::types::{Action, ActionContent, Edge, LinkableAddress};

verus! {

/// One row of the link index: a directed "updates" edge from a base action
/// address to a target, stamped with its creation time.
#[derive(Clone, Copy, Debug, PartialEq, Eq)]
pub struct EdgeRecord {
    pub base: usize,
    pub target: LinkableAddress,
    pub timestamp: u64,
}

/// The detail granularity `Store::get_details` answers with. Deletion
/// bookkeeping is defined only at record granularity; an `Entry`-shaped
/// answer is a malformed state for the operations of this crate.
#[derive(Debug, PartialEq, Eq)]
pub enum Details {
    Record { action: Action, deletes: Vec<Action> },
    Entry,
}

/// The content-addressed action log and the link index, as one in-memory
/// collaborator.
#[derive(Debug, PartialEq, Eq)]
pub struct Store {
    pub actions: Vec<Action>,
    pub edges: Vec<EdgeRecord>,
}

/// The edge a stored row presents to readers.
pub open spec fn edge_of(row: EdgeRecord) -> Edge {
    Edge { target: row.target, timestamp: row.timestamp }
}

/// Whether `a` is a `Delete` action tombstoning the action at `addr`.
pub open spec fn is_delete_of(a: Action, addr: usize) -> bool {
    match a.content {
        ActionContent::Delete { deletes_address } => deletes_address == addr,
        _ => false,
    }
}

/// The edges among `rows` whose base is `base`, in insertion order.
pub open spec fn edges_from_seq(rows: Seq<EdgeRecord>, base: usize) -> Seq<Edge>
    decreases rows.len(),
{
    if rows.len() == 0 {
        Seq::empty()
    } else {
        let rest = edges_from_seq(rows.drop_last(), base);
        if rows.last().base == base {
            rest.push(edge_of(rows.last()))
        } else {
            rest
        }
    }
}

/// The `Delete` actions among `actions` that tombstone `addr`, in commit
/// order.
pub open spec fn deletes_of_seq(actions: Seq<Action>, addr: usize) -> Seq<Action>
    decreases actions.len(),
{
    if actions.len() == 0 {
        Seq::empty()
    } else {
        let rest = deletes_of_seq(actions.drop_last(), addr);
        if is_delete_of(actions.last(), addr) {
            rest.push(actions.last())
        } else {
            rest
        }
    }
}

/// Appending a row changes the edges seen from `base` by exactly that row's
/// edge, and leaves every other base's view unchanged.
pub proof fn lemma_edges_from_seq_push(rows: Seq<EdgeRecord>, row: EdgeRecord, base: usize)
    ensures
        edges_from_seq(rows.push(row), base) == if row.base == base {
            edges_from_seq(rows, base).push(edge_of(row))
        } else {
            edges_from_seq(rows, base)
        },
{
    assert(rows.push(row).drop_last() =~= rows);
    assert(rows.push(row).last() == row);
}

/// Appending an action extends the tombstones of `addr` by exactly that
/// action when it is a matching `Delete`, and not otherwise.
pub proof fn lemma_deletes_of_seq_push(actions: Seq<Action>, a: Action, addr: usize)
    ensures
        deletes_of_seq(actions.push(a), addr) == if is_delete_of(a, addr) {
            deletes_of_seq(actions, addr).push(a)
        } else {
            deletes_of_seq(actions, addr)
        },
{
    assert(actions.push(a).drop_last() =~= actions);
    assert(actions.push(a).last() == a);
}

/// A log in which no action tombstones `addr` derives an empty tombstone set
/// for it.
pub proof fn lemma_deletes_of_seq_empty(actions: Seq<Action>, addr: usize)
    requires
        forall|i: int| 0 <= i < actions.len() ==> !is_delete_of(#[trigger] actions[i], addr),
    ensures
        deletes_of_seq(actions, addr) == Seq::<Action>::empty(),
    decreases actions.len(),
{
    if actions.len() > 0 {
        lemma_deletes_of_seq_empty(actions.drop_last(), addr);
    }
}

/// Every derived tombstone of `addr` is a matching `Delete` action of the
/// log.
pub proof fn lemma_deletes_of_seq_members(actions: Seq<Action>, addr: usize)
    ensures
        forall|j: int|
            0 <= j < deletes_of_seq(actions, addr).len() ==> is_delete_of(
                #[trigger] deletes_of_seq(actions, addr)[j],
                addr,
            ),
    decreases actions.len(),
{
    if actions.len() > 0 {
        lemma_deletes_of_seq_members(actions.drop_last(), addr);
        let rest = deletes_of_seq(actions.drop_last(), addr);
        let whole = deletes_of_seq(actions, addr);
        assert forall|j: int| 0 <= j < whole.len() implies is_delete_of(whole[j], addr) by {
            if j < rest.len() {
                assert(whole[j] == rest[j]);
            }
        }
    }
}

impl Store {
    /// Whether an action has been committed at `addr`.
    pub open spec fn has_action(&self, addr: usize) -> bool {
        addr < self.actions@.len()
    }

    /// The action at `addr`, if one has been committed there.
    pub open spec fn spec_get(&self, addr: usize) -> Option<Action> {
        if self.has_action(addr) {
            Some(self.actions@[addr as int])
        } else {
            None
        }
    }

    /// The "updates" edges whose base is `base`, in insertion order.
    pub open spec fn edges_from(&self, base: usize) -> Seq<Edge> {
        edges_from_seq(self.edges@, base)
    }

    /// The tombstones of `addr`: the `Delete` actions that delete it, in
    /// commit order.
    pub open spec fn deletes_of(&self, addr: usize) -> Seq<Action> {
        deletes_of_seq(self.actions@, addr)
    }

    /// Well-formedness: each committed action records the address it was
    /// committed at.
    pub open spec fn wf(&self) -> bool {
        forall|i: int|
            0 <= i < self.actions@.len() ==> (#[trigger] self.actions@[i]).address == i
    }

    pub fn new() -> (s: Store)
        ensures
            s.actions@.len() == 0,
            s.edges@.len() == 0,
            s.wf(),
    {
        Store { actions: Vec::new(), edges: Vec::new() }
    }

    /// Fetch the action at `addr`, or `None` if the address is absent.
    pub fn get(&self, addr: usize) -> (r: Option<Action>)
        ensures
            r == self.spec_get(addr),
    {
        if addr < self.actions.len() {
            Some(self.actions[addr].clone())
        } else {
            None
        }
    }

    /// Fetch the full record-granularity detail of `addr`: the action itself
    /// and every tombstone recorded against it.
    pub fn get_details(&self, addr: usize) -> (r: Option<Details>)
        ensures
            match r {
                Some(d) => match d {
                    Details::Record { action, deletes } => self.has_action(addr) && action
                        == self.actions@[addr as int] && deletes@ == self.deletes_of(addr),
                    Details::Entry => false,
                },
                None => !self.has_action(addr),
            },
    {
        if addr < self.actions.len() {
            let action = self.actions[addr].clone();
            let mut deletes: Vec<Action> = Vec::new();
            let mut i: usize = 0;
            while i < self.actions.len()
                invariant
                    i <= self.actions@.len(),
                    deletes@ == deletes_of_seq(self.actions@.take(i as int), addr),
                decreases self.actions@.len() - i,
            {
                let candidate = &self.actions[i];
                let tombstones_addr = match &candidate.content {
                    ActionContent::Delete { deletes_address } => *deletes_address == addr,
                    _ => false,
                };
                if tombstones_addr {
                    deletes.push(self.actions[i].clone());
                }
                proof {
                    assert(self.actions@.take(i + 1 as int).drop_last() =~= self.actions@.take(
                        i as int,
                    ));
                    assert(self.actions@.take(i + 1 as int).last() == self.actions@[i as int]);
                }
                i = i + 1;
            }
            proof {
                assert(self.actions@.take(self.actions@.len() as int) =~= self.actions@);
            }
            Some(Details::Record { action, deletes })
        } else {
            None
        }
    }

    /// Enumerate the "updates" edges from `base`, in insertion order.
    pub fn list_edges(&self, base: usize) -> (r: Vec<Edge>)
        ensures
            r@ == self.edges_from(base),
    {
        let mut out: Vec<Edge> = Vec::new();
        let mut i: usize = 0;
        while i < self.edges.len()
            invariant
                i <= self.edges@.len(),
                out@ == edges_from_seq(self.edges@.take(i as int), base),
            decreases self.edges@.len() - i,
        {
            let row = self.edges[i];
            if row.base == base {
                out.push(Edge { target: row.target, timestamp: row.timestamp });
            }
            proof {
                assert(self.edges@.take(i + 1 as int).drop_last() =~= self.edges@.take(i as int));
                assert(self.edges@.take(i + 1 as int).last() == self.edges@[i as int]);
            }
            i = i + 1;
        }
        proof {
            assert(self.edges@.take(self.edges@.len() as int) =~= self.edges@);
        }
        out
    }

    /// Commit one action. The caller is the validation pipeline in
    /// [`crate::coordinator`]: it must have accepted the mutation before this
    /// runs. The store assigns the next dense address and stamps the action
    /// with the commit-time clock reading `now`.
    pub fn append_action(&mut self, now: u64, content: ActionContent) -> (addr: usize)
        ensures
            addr == old(self).actions@.len(),
            final(self).actions@ == old(self).actions@.push(
                (Action { address: addr, timestamp: now, content: content }),
            ),
            final(self).edges@ == old(self).edges@,
            old(self).wf() ==> final(self).wf(),
    {
        let addr = self.actions.len();
        self.actions.push(Action { address: addr, timestamp: now, content });
        addr
    }

    /// Record one "updates" edge. As with [`Store::append_action`], the
    /// validation pipeline has already accepted it.
    pub fn append_edge(&mut self, base: usize, target: LinkableAddress, now: u64)
        ensures
            final(self).edges@ == old(self).edges@.push(
                (EdgeRecord { base: base, target: target, timestamp: now }),
            ),
            final(self).actions@ == old(self).actions@,
    {
        self.edges.push(EdgeRecord { base, target, timestamp: now });
    }
}

} // verus!
