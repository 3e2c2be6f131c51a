//! The execution schema: three maps plus the transition store, kept
//! mutually consistent by the batch protocol.
//!
//! An execute transaction decomposes into: the ordered transition ids and
//! the optional fee transition id under the transaction id; a reverse index
//! from every transition id back to the transaction id; the edition; and
//! each transition stored in the transition store.

use vstd::prelude::*;
use crate::errors::StoreError;
use crate::kv::KvMap;
use crate::transition_store::TransitionStore;
use crate::types::{
    AdditionalFee, Execution, ExecutionData, Transaction, TransactionData, TransactionId,
    Transition, TransitionId, execute_content_id,
};

verus! {

/// The reverse index after recording every transition id of one
/// transaction, in order.
pub open spec fn staged_reverse_ids(
    m: Map<TransitionId, TransactionId>,
    tids: Seq<TransitionId>,
    tx: TransactionId,
) -> Map<TransitionId, TransactionId>
    decreases tids.len(),
{
    if tids.len() == 0 {
        m
    } else {
        staged_reverse_ids(m, tids.drop_last(), tx).insert(tids.last(), tx)
    }
}

/// The reverse index after dropping every given transition id.
pub open spec fn removed_reverse_ids(
    m: Map<TransitionId, TransactionId>,
    tids: Seq<TransitionId>,
) -> Map<TransitionId, TransactionId>
    decreases tids.len(),
{
    if tids.len() == 0 {
        m
    } else {
        removed_reverse_ids(m, tids.drop_last()).remove(tids.last())
    }
}

/// The transition map after storing every given transition under its id, in
/// order.
pub open spec fn staged_transitions(
    m: Map<TransitionId, Transition>,
    ts: Seq<Transition>,
) -> Map<TransitionId, Transition>
    decreases ts.len(),
{
    if ts.len() == 0 {
        m
    } else {
        staged_transitions(m, ts.drop_last()).insert(ts.last().id, ts.last())
    }
}

/// The transition map after dropping every given transition id.
pub open spec fn removed_transitions(
    m: Map<TransitionId, Transition>,
    tids: Seq<TransitionId>,
) -> Map<TransitionId, Transition>
    decreases tids.len(),
{
    if tids.len() == 0 {
        m
    } else {
        removed_transitions(m, tids.drop_last()).remove(tids.last())
    }
}

/// What [`staged_reverse_ids`] holds at one key: the transaction id for
/// every recorded transition id, the old binding elsewhere.
pub proof fn lemma_staged_reverse_ids_at(
    m: Map<TransitionId, TransactionId>,
    tids: Seq<TransitionId>,
    tx: TransactionId,
    k: TransitionId,
)
    ensures
        (if tids.contains(k) {
            staged_reverse_ids(m, tids, tx).dom().contains(k) && staged_reverse_ids(m, tids, tx)[k]
                == tx
        } else {
            (staged_reverse_ids(m, tids, tx).dom().contains(k) <==> m.dom().contains(k)) && (m.dom().contains(
                k,
            ) ==> staged_reverse_ids(m, tids, tx)[k] == m[k])
        }),
    decreases tids.len(),
{
    if tids.len() > 0 {
        lemma_staged_reverse_ids_at(m, tids.drop_last(), tx, k);
        if tids.contains(k) && tids.last() != k {
            let i = choose|i: int| 0 <= i < tids.len() && tids[i] == k;
            assert(tids.drop_last()[i] == k);
        }
    }
}

/// What [`removed_reverse_ids`] holds at one key: nothing for every dropped
/// transition id, the old binding elsewhere.
pub proof fn lemma_removed_reverse_ids_at(
    m: Map<TransitionId, TransactionId>,
    tids: Seq<TransitionId>,
    k: TransitionId,
)
    ensures
        (if tids.contains(k) {
            !removed_reverse_ids(m, tids).dom().contains(k)
        } else {
            (removed_reverse_ids(m, tids).dom().contains(k) <==> m.dom().contains(k)) && (m.dom().contains(
                k,
            ) ==> removed_reverse_ids(m, tids)[k] == m[k])
        }),
    decreases tids.len(),
{
    if tids.len() > 0 {
        lemma_removed_reverse_ids_at(m, tids.drop_last(), k);
        if tids.contains(k) && tids.last() != k {
            let i = choose|i: int| 0 <= i < tids.len() && tids[i] == k;
            assert(tids.drop_last()[i] == k);
        }
    }
}

/// What [`staged_transitions`] holds: each recorded transition under its
/// id, provided the ids are pairwise distinct; the old binding elsewhere.
pub proof fn lemma_staged_transitions_at(
    m: Map<TransitionId, Transition>,
    ts: Seq<Transition>,
    k: TransitionId,
)
    requires
        forall|i: int, j: int| 0 <= i < j < ts.len() ==> ts[i].id != ts[j].id,
    ensures
        (if exists|i: int| 0 <= i < ts.len() && ts[i].id == k {
            {
                let i = choose|i: int| 0 <= i < ts.len() && ts[i].id == k;
                staged_transitions(m, ts).dom().contains(k) && staged_transitions(m, ts)[k] == ts[i]
            }
        } else {
            (staged_transitions(m, ts).dom().contains(k) <==> m.dom().contains(k)) && (m.dom().contains(
                k,
            ) ==> staged_transitions(m, ts)[k] == m[k])
        }),
    decreases ts.len(),
{
    if ts.len() > 0 {
        lemma_staged_transitions_at(m, ts.drop_last(), k);
        if exists|i: int| 0 <= i < ts.len() && ts[i].id == k {
            let i = choose|i: int| 0 <= i < ts.len() && ts[i].id == k;
            if i < ts.len() - 1 {
                assert(ts.drop_last()[i] == ts[i]);
                assert(ts.last().id != k);
            }
        }
    }
}

/// What [`removed_transitions`] holds at one key: nothing for every dropped
/// id, the old binding elsewhere.
pub proof fn lemma_removed_transitions_at(
    m: Map<TransitionId, Transition>,
    tids: Seq<TransitionId>,
    k: TransitionId,
)
    ensures
        (if tids.contains(k) {
            !removed_transitions(m, tids).dom().contains(k)
        } else {
            (removed_transitions(m, tids).dom().contains(k) <==> m.dom().contains(k)) && (m.dom().contains(
                k,
            ) ==> removed_transitions(m, tids)[k] == m[k])
        }),
    decreases tids.len(),
{
    if tids.len() > 0 {
        lemma_removed_transitions_at(m, tids.drop_last(), k);
        if tids.contains(k) && tids.last() != k {
            let i = choose|i: int| 0 <= i < tids.len() && tids[i] == k;
            assert(tids.drop_last()[i] == k);
        }
    }
}

/// The execution store: the three execution maps plus the transition store.
pub struct ExecutionStore {
    id_map: KvMap<TransactionId, (Vec<TransitionId>, Option<TransitionId>)>,
    reverse_id_map: KvMap<TransitionId, TransactionId>,
    edition_map: KvMap<TransactionId, u16>,
    transition_store: TransitionStore,
}

impl ExecutionStore {
    /// The map of transaction id to ordered transition ids and optional fee
    /// transition id.
    pub closed spec fn id_map(self) -> KvMap<TransactionId, (Vec<TransitionId>, Option<TransitionId>)> {
        self.id_map
    }

    /// The reverse index from transition id to transaction id.
    pub closed spec fn reverse_id_map(self) -> KvMap<TransitionId, TransactionId> {
        self.reverse_id_map
    }

    /// The map of transaction id to edition.
    pub closed spec fn edition_map(self) -> KvMap<TransactionId, u16> {
        self.edition_map
    }

    /// The transition store this schema participates with.
    pub closed spec fn transition_store(self) -> TransitionStore {
        self.transition_store
    }

    /// Whether an atomic batch is open on this schema.
    pub open spec fn in_batch(self) -> bool {
        self.id_map().in_batch()
    }

    /// Well-formedness: every participant well-formed, with batches opened
    /// and closed in step.
    pub open spec fn wf(self) -> bool {
        &&& self.id_map().wf()
        &&& self.reverse_id_map().wf()
        &&& self.edition_map().wf()
        &&& self.transition_store().wf()
        &&& self.reverse_id_map().in_batch() == self.id_map().in_batch()
        &&& self.edition_map().in_batch() == self.id_map().in_batch()
        &&& self.transition_store().in_batch() == self.id_map().in_batch()
    }

    /// The confirmed id entry of a transaction, as mathematical content.
    pub open spec fn stored_ids(self, tx: TransactionId) -> (Seq<TransitionId>, Option<TransitionId>) {
        (self.id_map().confirmed()[tx].0@, self.id_map().confirmed()[tx].1)
    }

    /// Whether the transition store holds every one of the given ids, in
    /// its confirmed state.
    pub open spec fn transitions_complete(self, tids: Seq<TransitionId>) -> bool {
        forall|j: int|
            0 <= j < tids.len() ==> self.transition_store().transitions().confirmed().dom().contains(
                tids[j],
            )
    }

    /// The confirmed transitions for the given ids, in order.
    pub open spec fn read_transitions(self, tids: Seq<TransitionId>) -> Seq<Transition> {
        tids.map_values(|t: TransitionId| self.transition_store().transitions().confirmed()[t])
    }

    /// Holds when the batch bookkeeping of every participant is untouched
    /// between the two states, the confirmed contents included.
    pub open spec fn batch_frame(self, pre: Self) -> bool {
        &&& self.id_map().entries() == pre.id_map().entries()
        &&& self.id_map().pending() == pre.id_map().pending()
        &&& self.id_map().marks() == pre.id_map().marks()
        &&& self.reverse_id_map().entries() == pre.reverse_id_map().entries()
        &&& self.reverse_id_map().pending() == pre.reverse_id_map().pending()
        &&& self.reverse_id_map().marks() == pre.reverse_id_map().marks()
        &&& self.edition_map().entries() == pre.edition_map().entries()
        &&& self.edition_map().pending() == pre.edition_map().pending()
        &&& self.edition_map().marks() == pre.edition_map().marks()
        &&& self.transition_store().transitions().entries() == pre.transition_store().transitions().entries()
        &&& self.transition_store().transitions().pending() == pre.transition_store().transitions().pending()
        &&& self.transition_store().transitions().marks() == pre.transition_store().transitions().marks()
        &&& self.transition_store().dev_tag() == pre.transition_store().dev_tag()
    }

    /// Holds when every participant keeps its confirmed contents and holds
    /// no staged writes and no checkpoints.
    pub open spec fn batch_cleared(self, pre: Self) -> bool {
        &&& self.id_map().entries() == pre.id_map().entries()
        &&& self.reverse_id_map().entries() == pre.reverse_id_map().entries()
        &&& self.edition_map().entries() == pre.edition_map().entries()
        &&& self.transition_store().transitions().entries() == pre.transition_store().transitions().entries()
        &&& self.batch_empty(pre)
    }

    /// Holds when every participant holds no staged writes and no
    /// checkpoints, with the development tag kept.
    pub open spec fn batch_empty(self, pre: Self) -> bool {
        &&& self.id_map().pending() == Seq::<(TransactionId, Option<(Vec<TransitionId>, Option<TransitionId>)>)>::empty()
        &&& self.id_map().marks() == Seq::<usize>::empty()
        &&& self.reverse_id_map().pending() == Seq::<(TransitionId, Option<TransactionId>)>::empty()
        &&& self.reverse_id_map().marks() == Seq::<usize>::empty()
        &&& self.edition_map().pending() == Seq::<(TransactionId, Option<u16>)>::empty()
        &&& self.edition_map().marks() == Seq::<usize>::empty()
        &&& self.transition_store().transitions().pending() == Seq::<(TransitionId, Option<Transition>)>::empty()
        &&& self.transition_store().transitions().marks() == Seq::<usize>::empty()
        &&& self.transition_store().dev_tag() == pre.transition_store().dev_tag()
    }

    /// Holds when every participant kept its contents and staged
    /// writes and gained one checkpoint at its current batch end.
    pub open spec fn checkpointed_from(self, pre: Self) -> bool {
        &&& self.id_map().entries() == pre.id_map().entries()
        &&& self.id_map().pending() == pre.id_map().pending()
        &&& self.id_map().marks() == pre.id_map().marks().push(pre.id_map().pending().len() as usize)
        &&& self.reverse_id_map().entries() == pre.reverse_id_map().entries()
        &&& self.reverse_id_map().pending() == pre.reverse_id_map().pending()
        &&& self.reverse_id_map().marks() == pre.reverse_id_map().marks().push(pre.reverse_id_map().pending().len() as usize)
        &&& self.edition_map().entries() == pre.edition_map().entries()
        &&& self.edition_map().pending() == pre.edition_map().pending()
        &&& self.edition_map().marks() == pre.edition_map().marks().push(pre.edition_map().pending().len() as usize)
        &&& self.transition_store().transitions().entries() == pre.transition_store().transitions().entries()
        &&& self.transition_store().transitions().pending() == pre.transition_store().transitions().pending()
        &&& self.transition_store().transitions().marks() == pre.transition_store().transitions().marks().push(pre.transition_store().transitions().pending().len() as usize)
        &&& self.transition_store().dev_tag() == pre.transition_store().dev_tag()
    }

    /// Holds when every participant dropped the staged writes after
    /// its most recent checkpoint, popping it; with none, dropped all
    /// of its staged writes.
    pub open spec fn rewound_from(self, pre: Self) -> bool {
        &&& self.id_map().entries() == pre.id_map().entries()
        &&& self.id_map().pending() == pre.id_map().pending().take(
            (if pre.id_map().marks().len() > 0 { pre.id_map().marks().last() as int } else { 0 }),
        )
        &&& self.id_map().marks() == (if pre.id_map().marks().len() > 0 {
            pre.id_map().marks().drop_last()
        } else {
            pre.id_map().marks()
        })
        &&& self.reverse_id_map().entries() == pre.reverse_id_map().entries()
        &&& self.reverse_id_map().pending() == pre.reverse_id_map().pending().take(
            (if pre.reverse_id_map().marks().len() > 0 { pre.reverse_id_map().marks().last() as int } else { 0 }),
        )
        &&& self.reverse_id_map().marks() == (if pre.reverse_id_map().marks().len() > 0 {
            pre.reverse_id_map().marks().drop_last()
        } else {
            pre.reverse_id_map().marks()
        })
        &&& self.edition_map().entries() == pre.edition_map().entries()
        &&& self.edition_map().pending() == pre.edition_map().pending().take(
            (if pre.edition_map().marks().len() > 0 { pre.edition_map().marks().last() as int } else { 0 }),
        )
        &&& self.edition_map().marks() == (if pre.edition_map().marks().len() > 0 {
            pre.edition_map().marks().drop_last()
        } else {
            pre.edition_map().marks()
        })
        &&& self.transition_store().transitions().entries() == pre.transition_store().transitions().entries()
        &&& self.transition_store().transitions().pending() == pre.transition_store().transitions().pending().take(
            (if pre.transition_store().transitions().marks().len() > 0 { pre.transition_store().transitions().marks().last() as int } else { 0 }),
        )
        &&& self.transition_store().transitions().marks() == (if pre.transition_store().transitions().marks().len() > 0 {
            pre.transition_store().transitions().marks().drop_last()
        } else {
            pre.transition_store().transitions().marks()
        })
        &&& self.transition_store().dev_tag() == pre.transition_store().dev_tag()
    }
    /// Opens a fresh batch on every participant, in the declared order.
    pub fn start_atomic(&mut self)
        requires
            old(self).wf(),
            !old(self).in_batch(),
        ensures
            final(self).wf(),
            final(self).in_batch(),
            final(self).batch_cleared(*old(self)),
    {
        self.id_map.start_atomic();
        self.reverse_id_map.start_atomic();
        self.edition_map.start_atomic();
        self.transition_store.start_atomic();
    }

    /// Whether an atomic batch is in progress on any participant.
    pub fn is_atomic_in_progress(&self) -> (r: bool)
        requires
            self.wf(),
        ensures
            r == self.in_batch(),
    {
        self.id_map.is_atomic_in_progress() || self.reverse_id_map.is_atomic_in_progress()
            || self.edition_map.is_atomic_in_progress()
            || self.transition_store.is_atomic_in_progress()
    }

    /// Pushes a checkpoint onto every participant's stack.
    pub fn atomic_checkpoint(&mut self)
        requires
            old(self).wf(),
            old(self).in_batch(),
        ensures
            final(self).wf(),
            final(self).in_batch(),
            final(self).id_map().entries() == old(self).id_map().entries(),
            final(self).id_map().pending() == old(self).id_map().pending(),
            final(self).id_map().marks() == old(self).id_map().marks().push(
                old(self).id_map().pending().len() as usize,
            ),
            final(self).reverse_id_map().entries() == old(self).reverse_id_map().entries(),
            final(self).reverse_id_map().pending() == old(self).reverse_id_map().pending(),
            final(self).reverse_id_map().marks() == old(self).reverse_id_map().marks().push(
                old(self).reverse_id_map().pending().len() as usize,
            ),
            final(self).edition_map().entries() == old(self).edition_map().entries(),
            final(self).edition_map().pending() == old(self).edition_map().pending(),
            final(self).edition_map().marks() == old(self).edition_map().marks().push(
                old(self).edition_map().pending().len() as usize,
            ),
            final(self).transition_store().transitions().entries() == old(self).transition_store().transitions().entries(),
            final(self).transition_store().transitions().pending() == old(self).transition_store().transitions().pending(),
            final(self).transition_store().transitions().marks() == old(self).transition_store().transitions().marks().push(
                old(self).transition_store().transitions().pending().len() as usize,
            ),
            final(self).transition_store().dev_tag() == old(self).transition_store().dev_tag(),
    {
        self.id_map.atomic_checkpoint();
        self.reverse_id_map.atomic_checkpoint();
        self.edition_map.atomic_checkpoint();
        self.transition_store.atomic_checkpoint();
    }

    /// Rewinds every participant to its most recent checkpoint.
    pub fn atomic_rewind(&mut self)
        requires
            old(self).wf(),
            old(self).in_batch(),
        ensures
            final(self).wf(),
            final(self).in_batch(),
            final(self).id_map().entries() == old(self).id_map().entries(),
            final(self).id_map().pending() == old(self).id_map().pending().take(
                (if old(self).id_map().marks().len() > 0 {
                    old(self).id_map().marks().last() as int
                } else {
                    0
                }),
            ),
            final(self).id_map().marks() == (if old(self).id_map().marks().len() > 0 {
                old(self).id_map().marks().drop_last()
            } else {
                old(self).id_map().marks()
            }),
            final(self).reverse_id_map().entries() == old(self).reverse_id_map().entries(),
            final(self).reverse_id_map().pending() == old(self).reverse_id_map().pending().take(
                (if old(self).reverse_id_map().marks().len() > 0 {
                    old(self).reverse_id_map().marks().last() as int
                } else {
                    0
                }),
            ),
            final(self).reverse_id_map().marks() == (if old(self).reverse_id_map().marks().len() > 0 {
                old(self).reverse_id_map().marks().drop_last()
            } else {
                old(self).reverse_id_map().marks()
            }),
            final(self).edition_map().entries() == old(self).edition_map().entries(),
            final(self).edition_map().pending() == old(self).edition_map().pending().take(
                (if old(self).edition_map().marks().len() > 0 {
                    old(self).edition_map().marks().last() as int
                } else {
                    0
                }),
            ),
            final(self).edition_map().marks() == (if old(self).edition_map().marks().len() > 0 {
                old(self).edition_map().marks().drop_last()
            } else {
                old(self).edition_map().marks()
            }),
            final(self).transition_store().transitions().entries() == old(self).transition_store().transitions().entries(),
            final(self).transition_store().transitions().pending() == old(self).transition_store().transitions().pending().take(
                (if old(self).transition_store().transitions().marks().len() > 0 {
                    old(self).transition_store().transitions().marks().last() as int
                } else {
                    0
                }),
            ),
            final(self).transition_store().transitions().marks() == (if old(self).transition_store().transitions().marks().len()
                > 0 {
                old(self).transition_store().transitions().marks().drop_last()
            } else {
                old(self).transition_store().transitions().marks()
            }),
            final(self).transition_store().dev_tag() == old(self).transition_store().dev_tag(),
    {
        self.id_map.atomic_rewind();
        self.reverse_id_map.atomic_rewind();
        self.edition_map.atomic_rewind();
        self.transition_store.atomic_rewind();
    }

    /// Discards all staged writes on every participant; the batch ends.
    pub fn abort_atomic(&mut self)
        requires
            old(self).wf(),
            old(self).in_batch(),
        ensures
            final(self).wf(),
            !final(self).in_batch(),
            final(self).batch_cleared(*old(self)),
    {
        self.id_map.abort_atomic();
        self.reverse_id_map.abort_atomic();
        self.edition_map.abort_atomic();
        self.transition_store.abort_atomic();
    }

    /// Commits every participant's staged writes, in the declared order;
    /// the batch ends.
    pub fn finish_atomic(&mut self) -> (r: Result<(), StoreError>)
        requires
            old(self).wf(),
            old(self).in_batch(),
        ensures
            r is Ok,
            final(self).wf(),
            !final(self).in_batch(),
            final(self).id_map().confirmed() == old(self).id_map().speculative(),
            final(self).reverse_id_map().confirmed() == old(self).reverse_id_map().speculative(),
            final(self).edition_map().confirmed() == old(self).edition_map().speculative(),
            final(self).transition_store().transitions().confirmed() == old(self).transition_store().transitions().speculative(),
            final(self).batch_empty(*old(self)),
    {
        self.id_map.finish_atomic()?;
        self.reverse_id_map.finish_atomic()?;
        self.edition_map.finish_atomic()?;
        self.transition_store.finish_atomic()
    }

    /// The optional fee transition id of an execute transaction.
    pub open spec fn fee_id_of(fee: Option<AdditionalFee>) -> Option<TransitionId> {
        match fee {
            Some(f) => Some(f.id),
            None => None,
        }
    }

    /// How one inserted execute transaction transforms the speculative
    /// views: its id entry, its edition, a reverse binding for every
    /// transition and for the optional fee, and every transition stored.
    pub open spec fn views_after_insert(
        self,
        pre: Self,
        tx: TransactionId,
        e: ExecutionData,
        fee: Option<AdditionalFee>,
    ) -> bool {
        let tids = e.transition_ids();
        let rev1 = staged_reverse_ids(pre.reverse_id_map().speculative(), tids, tx);
        let ts1 = staged_transitions(
            pre.transition_store().transitions().speculative(),
            e.transitions,
        );
        &&& self.id_map().speculative().dom() == pre.id_map().speculative().dom().insert(tx)
        &&& self.id_map().speculative()[tx].0@ == tids
        &&& self.id_map().speculative()[tx].1 == Self::fee_id_of(fee)
        &&& (forall|k: TransactionId|
            k != tx && pre.id_map().speculative().dom().contains(k)
                ==> self.id_map().speculative()[k] == pre.id_map().speculative()[k])
        &&& self.edition_map().speculative() == pre.edition_map().speculative().insert(tx, e.edition)
        &&& self.reverse_id_map().speculative() == (match fee {
            Some(f) => rev1.insert(f.id, tx),
            None => rev1,
        })
        &&& self.transition_store().transitions().speculative() == (match fee {
            Some(f) => ts1.insert(f.id, f),
            None => ts1,
        })
    }

    /// What a nested scope leaves behind: every participant keeps its
    /// confirmed contents, gains one checkpoint at its old batch end, and
    /// keeps its old staged writes as a prefix of the new ones.
    pub open spec fn scope_residue(self, pre: Self) -> bool {
        &&& self.id_map().entries() == pre.id_map().entries()
        &&& self.id_map().marks() == pre.id_map().marks().push(pre.id_map().pending().len() as usize)
        &&& self.id_map().pending().take(pre.id_map().pending().len() as int) == pre.id_map().pending()
        &&& self.reverse_id_map().entries() == pre.reverse_id_map().entries()
        &&& self.reverse_id_map().marks() == pre.reverse_id_map().marks().push(
            pre.reverse_id_map().pending().len() as usize,
        )
        &&& self.reverse_id_map().pending().take(pre.reverse_id_map().pending().len() as int)
            == pre.reverse_id_map().pending()
        &&& self.edition_map().entries() == pre.edition_map().entries()
        &&& self.edition_map().marks() == pre.edition_map().marks().push(
            pre.edition_map().pending().len() as usize,
        )
        &&& self.edition_map().pending().take(pre.edition_map().pending().len() as int)
            == pre.edition_map().pending()
        &&& self.transition_store().transitions().entries() == pre.transition_store().transitions().entries()
        &&& self.transition_store().transitions().marks() == pre.transition_store().transitions().marks().push(
            pre.transition_store().transitions().pending().len() as usize,
        )
        &&& self.transition_store().transitions().pending().take(
            pre.transition_store().transitions().pending().len() as int,
        ) == pre.transition_store().transitions().pending()
        &&& self.transition_store().dev_tag() == pre.transition_store().dev_tag()
    }

    /// What a committed scope leaves behind: every participant's confirmed
    /// contents equal its speculative contents, with nothing staged.
    pub open spec fn committed_state(self, pre: Self) -> bool {
        &&& self.id_map().confirmed() == self.id_map().speculative()
        &&& self.reverse_id_map().confirmed() == self.reverse_id_map().speculative()
        &&& self.edition_map().confirmed() == self.edition_map().speculative()
        &&& self.transition_store().transitions().confirmed() == self.transition_store().transitions().speculative()
        &&& self.batch_empty(pre)
    }

    /// Stores the given execute transaction, staging every write in one
    /// atomic batch scope: nested in the caller's batch when one is open,
    /// as a batch of its own otherwise.
    pub fn insert(&mut self, transaction: &Transaction) -> (r: Result<(), StoreError>)
        requires
            old(self).wf(),
        ensures
            final(self).wf(),
            (match transaction@ {
                TransactionData::Deploy(_, _, _, _) => r == Result::<(), StoreError>::Err(
                    StoreError::WrongKind,
                ) && *final(self) == *old(self),
                TransactionData::Execute(tx, e, fee) => {
                    &&& r == Result::<(), StoreError>::Ok(())
                    &&& final(self).in_batch() == old(self).in_batch()
                    &&& final(self).views_after_insert(*old(self), tx, e, fee)
                    &&& (if old(self).in_batch() {
                        final(self).scope_residue(*old(self))
                    } else {
                        final(self).committed_state(*old(self))
                    })
                },
            }),
    {
        let (tx_id, execution, fee) = match transaction {
            Transaction::Deploy(_, _, _, _) => {
                return Err(StoreError::WrongKind);
            }
            Transaction::Execute(id, e, f) => (*id, e, f),
        };
        let nested = self.is_atomic_in_progress();
        if nested {
            self.atomic_checkpoint();
        } else {
            self.start_atomic();
        }
        let ghost snap = *self;
        // Collect the transition ids, preserving execution order.
        let mut transition_ids: Vec<TransitionId> = Vec::new();
        let mut i: usize = 0;
        while i < execution.transitions.len()
            invariant
                i <= execution.transitions@.len(),
                transition_ids@.len() == i,
                forall|j: int| 0 <= j < i ==> transition_ids@[j] == execution.transitions@[j].id,
            decreases execution.transitions@.len() - i,
        {
            transition_ids.push(execution.transitions[i].id);
            i = i + 1;
        }
        proof {
            let f = |t: Transition| t.id;
            assert forall|j: int|
                0 <= j < execution.transitions@.len() implies execution.transitions@.map_values(f)[j]
                == transition_ids@[j] by {
                assert(execution.transitions@.map_values(f)[j] == f(execution.transitions@[j]));
            }
            assert(transition_ids@ =~= execution@.transition_ids());
        }
        let fee_id: Option<TransitionId> = match fee {
            Some(f) => Some(f.id),
            None => None,
        };
        // Store the transition ids and the edition.
        self.id_map.insert(tx_id, (transition_ids, fee_id));
        self.edition_map.insert(tx_id, execution.edition);
        let ghost mid = *self;
        let ghost tids = execution@.transition_ids();
        // Store each transition and its reverse binding.
        let mut i: usize = 0;
        while i < execution.transitions.len()
            invariant
                i <= execution.transitions@.len(),
                self.wf(),
                self.in_batch(),
                self.id_map == mid.id_map,
                self.edition_map == mid.edition_map,
                tids == execution.transitions@.map_values(|t: Transition| t.id),
                self.reverse_id_map().speculative() == staged_reverse_ids(
                    mid.reverse_id_map().speculative(),
                    tids.take(i as int),
                    tx_id,
                ),
                self.transition_store().transitions().speculative() == staged_transitions(
                    mid.transition_store().transitions().speculative(),
                    execution.transitions@.take(i as int),
                ),
                self.reverse_id_map().entries() == mid.reverse_id_map().entries(),
                self.reverse_id_map().marks() == mid.reverse_id_map().marks(),
                mid.reverse_id_map().pending().len() <= self.reverse_id_map().pending().len(),
                self.reverse_id_map().pending().take(mid.reverse_id_map().pending().len() as int)
                    == mid.reverse_id_map().pending(),
                self.transition_store().transitions().entries() == mid.transition_store().transitions().entries(),
                self.transition_store().transitions().marks() == mid.transition_store().transitions().marks(),
                mid.transition_store().transitions().pending().len()
                    <= self.transition_store().transitions().pending().len(),
                self.transition_store().transitions().pending().take(
                    mid.transition_store().transitions().pending().len() as int,
                ) == mid.transition_store().transitions().pending(),
                self.transition_store().dev_tag() == mid.transition_store().dev_tag(),
            decreases execution.transitions@.len() - i,
        {
            let ghost pre_rev = self.reverse_id_map().pending();
            let ghost pre_ts = self.transition_store().transitions().pending();
            let t = execution.transitions[i];
            self.reverse_id_map.insert(t.id, tx_id);
            let _ = self.transition_store.insert(t);
            proof {
                assert(tids.take(i + 1).drop_last() =~= tids.take(i as int));
                assert(tids.take(i + 1).last() == tids[i as int]);
                assert(execution.transitions@.take(i + 1).drop_last() =~= execution.transitions@.take(
                    i as int,
                ));
                assert(execution.transitions@.take(i + 1).last() == execution.transitions@[i as int]);
                assert(self.reverse_id_map().pending().take(
                    mid.reverse_id_map().pending().len() as int,
                ) =~= mid.reverse_id_map().pending());
                assert(self.transition_store().transitions().pending().take(
                    mid.transition_store().transitions().pending().len() as int,
                ) =~= mid.transition_store().transitions().pending());
            }
            i = i + 1;
        }
        proof {
            assert(tids.take(tids.len() as int) =~= tids);
            assert(execution.transitions@.take(execution.transitions@.len() as int)
                =~= execution.transitions@);
        }
        // Store the optional fee transition and its reverse binding.
        match fee {
            Some(f) => {
                let ghost pre_rev = self.reverse_id_map().pending();
                let ghost pre_ts = self.transition_store().transitions().pending();
                self.reverse_id_map.insert(f.id, tx_id);
                let _ = self.transition_store.insert(*f);
                proof {
                    assert(self.reverse_id_map().pending().take(
                        mid.reverse_id_map().pending().len() as int,
                    ) =~= mid.reverse_id_map().pending());
                    assert(self.transition_store().transitions().pending().take(
                        mid.transition_store().transitions().pending().len() as int,
                    ) =~= mid.transition_store().transitions().pending());
                }
            }
            None => {}
        }
        // Commit the batch only when this call opened it.
        if !nested {
            self.finish_atomic()?;
        }
        proof {
            let pre = *old(self);
            if !pre.in_batch() {
                pre.id_map().lemma_wf_idle();
                pre.reverse_id_map().lemma_wf_idle();
                pre.edition_map().lemma_wf_idle();
                pre.transition_store().transitions().lemma_wf_idle();
            }
            assert(snap.id_map().speculative() =~= pre.id_map().speculative());
            assert(snap.reverse_id_map().speculative() =~= pre.reverse_id_map().speculative());
            assert(snap.edition_map().speculative() =~= pre.edition_map().speculative());
            assert(snap.transition_store().transitions().speculative()
                =~= pre.transition_store().transitions().speculative());
            assert(self.id_map().speculative().dom() =~= pre.id_map().speculative().dom().insert(
                tx_id,
            ));
            if pre.in_batch() {
                assert(self.id_map().pending().take(pre.id_map().pending().len() as int)
                    =~= pre.id_map().pending());
                assert(self.edition_map().pending().take(pre.edition_map().pending().len() as int)
                    =~= pre.edition_map().pending());
            }
        }
        Ok(())
    }

    /// How one removed execute transaction transforms the speculative
    /// views, given what the confirmed maps held for it.
    pub open spec fn views_after_remove(self, pre: Self, tx: TransactionId) -> bool {
        let stored = pre.stored_ids(tx);
        let with_fee = (match stored.1 {
            Some(f) => stored.0.push(f),
            None => stored.0,
        });
        &&& self.id_map().speculative() == pre.id_map().speculative().remove(tx)
        &&& self.edition_map().speculative() == pre.edition_map().speculative().remove(tx)
        &&& self.reverse_id_map().speculative() == removed_reverse_ids(
            pre.reverse_id_map().speculative(),
            with_fee,
        )
        &&& self.transition_store().transitions().speculative() == removed_transitions(
            pre.transition_store().transitions().speculative(),
            with_fee,
        )
    }

    /// Removes the execute transaction for the given transaction id,
    /// staging every removal in one atomic batch scope.
    pub fn remove(&mut self, transaction_id: &TransactionId) -> (r: Result<(), StoreError>)
        requires
            old(self).wf(),
        ensures
            final(self).wf(),
            (if !old(self).id_map().confirmed().dom().contains(*transaction_id) {
                r == Result::<(), StoreError>::Err(StoreError::NotFound) && *final(self) == *old(self)
            } else {
                &&& r == Result::<(), StoreError>::Ok(())
                &&& final(self).in_batch() == old(self).in_batch()
                &&& final(self).views_after_remove(*old(self), *transaction_id)
                &&& (if old(self).in_batch() {
                    final(self).scope_residue(*old(self))
                } else {
                    final(self).committed_state(*old(self))
                })
            }),
    {
        // Look up the recorded transition ids in the confirmed state.
        let (transition_ids, fee_id): (Vec<TransitionId>, Option<TransitionId>) = match self.id_map.get_confirmed(
            transaction_id,
        ) {
            Some(entry) => {
                let mut ids: Vec<TransitionId> = Vec::new();
                let mut i: usize = 0;
                while i < entry.0.len()
                    invariant
                        i <= entry.0@.len(),
                        ids@ =~= entry.0@.take(i as int),
                    decreases entry.0@.len() - i,
                {
                    ids.push(entry.0[i]);
                    i = i + 1;
                }
                proof {
                    assert(entry.0@.take(entry.0@.len() as int) =~= entry.0@);
                }
                (ids, entry.1)
            }
            None => {
                return Err(StoreError::NotFound);
            }
        };
        let nested = self.is_atomic_in_progress();
        if nested {
            self.atomic_checkpoint();
        } else {
            self.start_atomic();
        }
        let ghost snap = *self;
        // Remove the transition ids and the edition.
        self.id_map.remove(transaction_id);
        self.edition_map.remove(transaction_id);
        let ghost mid = *self;
        let ghost tids = transition_ids@;
        // Remove each transition and its reverse binding.
        let mut i: usize = 0;
        while i < transition_ids.len()
            invariant
                i <= tids.len(),
                transition_ids@ == tids,
                self.wf(),
                self.in_batch(),
                self.id_map == mid.id_map,
                self.edition_map == mid.edition_map,
                self.reverse_id_map().speculative() == removed_reverse_ids(
                    mid.reverse_id_map().speculative(),
                    tids.take(i as int),
                ),
                self.transition_store().transitions().speculative() == removed_transitions(
                    mid.transition_store().transitions().speculative(),
                    tids.take(i as int),
                ),
                self.reverse_id_map().entries() == mid.reverse_id_map().entries(),
                self.reverse_id_map().marks() == mid.reverse_id_map().marks(),
                mid.reverse_id_map().pending().len() <= self.reverse_id_map().pending().len(),
                self.reverse_id_map().pending().take(mid.reverse_id_map().pending().len() as int)
                    == mid.reverse_id_map().pending(),
                self.transition_store().transitions().entries() == mid.transition_store().transitions().entries(),
                self.transition_store().transitions().marks() == mid.transition_store().transitions().marks(),
                mid.transition_store().transitions().pending().len()
                    <= self.transition_store().transitions().pending().len(),
                self.transition_store().transitions().pending().take(
                    mid.transition_store().transitions().pending().len() as int,
                ) == mid.transition_store().transitions().pending(),
                self.transition_store().dev_tag() == mid.transition_store().dev_tag(),
            decreases tids.len() - i,
        {
            let tid = transition_ids[i];
            self.reverse_id_map.remove(&tid);
            let _ = self.transition_store.remove(&tid);
            proof {
                assert(tids.take(i + 1).drop_last() =~= tids.take(i as int));
                assert(tids.take(i + 1).last() == tids[i as int]);
                assert(self.reverse_id_map().pending().take(
                    mid.reverse_id_map().pending().len() as int,
                ) =~= mid.reverse_id_map().pending());
                assert(self.transition_store().transitions().pending().take(
                    mid.transition_store().transitions().pending().len() as int,
                ) =~= mid.transition_store().transitions().pending());
            }
            i = i + 1;
        }
        proof {
            assert(tids.take(tids.len() as int) =~= tids);
        }
        // Remove the optional fee transition and its reverse binding.
        match fee_id {
            Some(fid) => {
                self.reverse_id_map.remove(&fid);
                let _ = self.transition_store.remove(&fid);
                proof {
                    assert(tids.push(fid).drop_last() =~= tids);
                    assert(self.reverse_id_map().pending().take(
                        mid.reverse_id_map().pending().len() as int,
                    ) =~= mid.reverse_id_map().pending());
                    assert(self.transition_store().transitions().pending().take(
                        mid.transition_store().transitions().pending().len() as int,
                    ) =~= mid.transition_store().transitions().pending());
                }
            }
            None => {}
        }
        // Commit the batch only when this call opened it.
        if !nested {
            self.finish_atomic()?;
        }
        proof {
            let pre = *old(self);
            if !pre.in_batch() {
                pre.id_map().lemma_wf_idle();
                pre.reverse_id_map().lemma_wf_idle();
                pre.edition_map().lemma_wf_idle();
                pre.transition_store().transitions().lemma_wf_idle();
            }
            assert(snap.id_map().speculative() =~= pre.id_map().speculative());
            assert(snap.reverse_id_map().speculative() =~= pre.reverse_id_map().speculative());
            assert(snap.edition_map().speculative() =~= pre.edition_map().speculative());
            assert(snap.transition_store().transitions().speculative()
                =~= pre.transition_store().transitions().speculative());
            if pre.in_batch() {
                assert(self.id_map().pending().take(pre.id_map().pending().len() as int)
                    =~= pre.id_map().pending());
                assert(self.edition_map().pending().take(pre.edition_map().pending().len() as int)
                    =~= pre.edition_map().pending());
            }
        }
        Ok(())
    }

    /// The transaction id that recorded the given transition id, if any.
    pub fn find_transaction_id(&self, transition_id: &TransitionId) -> (r: Result<
        Option<TransactionId>,
        StoreError,
    >)
        requires
            self.wf(),
        ensures
            r == Result::<Option<TransactionId>, StoreError>::Ok(
                (if self.reverse_id_map().confirmed().dom().contains(*transition_id) {
                    Some(self.reverse_id_map().confirmed()[*transition_id])
                } else {
                    None
                }),
            ),
    {
        match self.reverse_id_map.get_confirmed(transition_id) {
            Some(tx) => Ok(Some(*tx)),
            None => Ok(None),
        }
    }

    /// The edition of the execute transaction, if any.
    pub fn get_edition(&self, transaction_id: &TransactionId) -> (r: Result<Option<u16>, StoreError>)
        requires
            self.wf(),
        ensures
            r == Result::<Option<u16>, StoreError>::Ok(
                (if self.edition_map().confirmed().dom().contains(*transaction_id) {
                    Some(self.edition_map().confirmed()[*transaction_id])
                } else {
                    None
                }),
            ),
    {
        match self.edition_map.get_confirmed(transaction_id) {
            Some(e) => Ok(Some(*e)),
            None => Ok(None),
        }
    }

    /// Exactly what [`Self::get_execution`] returns, as a relation on the
    /// confirmed maps.
    pub open spec fn get_execution_post(self, tx: TransactionId, r: Result<
        Option<Execution>,
        StoreError,
    >) -> bool {
        match r {
            Ok(None) => !self.edition_map().confirmed().dom().contains(tx),
            Ok(Some(e)) => {
                &&& self.edition_map().confirmed().dom().contains(tx)
                &&& self.id_map().confirmed().dom().contains(tx)
                &&& self.transitions_complete(self.stored_ids(tx).0)
                &&& e@.edition == self.edition_map().confirmed()[tx]
                &&& e@.transitions == self.read_transitions(self.stored_ids(tx).0)
            },
            Err(err) => {
                &&& err == StoreError::Corrupt
                &&& self.edition_map().confirmed().dom().contains(tx)
                &&& (!self.id_map().confirmed().dom().contains(tx) || !self.transitions_complete(
                    self.stored_ids(tx).0,
                ))
            },
        }
    }

    /// The execution reconstructed from the confirmed maps: absent when the
    /// edition is, inconsistent linkage failing as corruption.
    pub fn get_execution(&self, transaction_id: &TransactionId) -> (r: Result<
        Option<Execution>,
        StoreError,
    >)
        requires
            self.wf(),
        ensures
            self.get_execution_post(*transaction_id, r),
    {
        let edition: u16 = match self.edition_map.get_confirmed(transaction_id) {
            Some(e) => *e,
            None => {
                return Ok(None);
            }
        };
        let entry = match self.id_map.get_confirmed(transaction_id) {
            Some(entry) => entry,
            None => {
                return Err(StoreError::Corrupt);
            }
        };
        let ghost tids = entry.0@;
        let mut transitions: Vec<Transition> = Vec::new();
        let mut i: usize = 0;
        while i < entry.0.len()
            invariant
                i <= tids.len(),
                entry.0@ == tids,
                self.wf(),
                self.edition_map().confirmed().dom().contains(*transaction_id),
                self.id_map().confirmed().dom().contains(*transaction_id),
                tids == self.stored_ids(*transaction_id).0,
                forall|j: int|
                    0 <= j < i ==> self.transition_store().transitions().confirmed().dom().contains(
                        tids[j],
                    ),
                transitions@.len() == i,
                forall|j: int|
                    0 <= j < i ==> transitions@[j] == self.transition_store().transitions().confirmed()[tids[j]],
            decreases tids.len() - i,
        {
            match self.transition_store.get_transition(&entry.0[i]) {
                Some(t) => transitions.push(t),
                None => {
                    proof {
                        assert(tids == self.stored_ids(*transaction_id).0);
                        assert(!self.transition_store().transitions().confirmed().dom().contains(
                            tids[i as int],
                        ));
                        assert(!self.transitions_complete(tids));
                    }
                    return Err(StoreError::Corrupt);
                }
            }
            i = i + 1;
        }
        proof {
            let f = |t: TransitionId| self.transition_store().transitions().confirmed()[t];
            assert forall|j: int| 0 <= j < tids.len() implies tids.map_values(f)[j] == transitions@[j] by {
                assert(tids.map_values(f)[j] == f(tids[j]));
            }
            assert(transitions@ =~= self.read_transitions(tids));
        }
        Ok(Some(Execution::from(edition, transitions)))
    }

    /// Exactly what [`Self::get_transaction`] returns, as a relation on
    /// the confirmed maps.
    pub open spec fn get_transaction_post(self, tx: TransactionId, r: Result<
        Option<Transaction>,
        StoreError,
    >) -> bool {
        match r {
            Ok(None) => !self.edition_map().confirmed().dom().contains(tx),
            Ok(Some(t)) => {
                &&& self.edition_map().confirmed().dom().contains(tx)
                &&& self.id_map().confirmed().dom().contains(tx)
                &&& self.transitions_complete(self.stored_ids(tx).0)
                &&& self.fee_available(tx)
                &&& t@ == TransactionData::Execute(
                    tx,
                    self.reconstructed_execution(tx),
                    self.reconstructed_fee(tx),
                )
                &&& t@.spec_id() == t@.content_id()
            },
            Err(err) => {
                &&& err == StoreError::Corrupt
                &&& self.edition_map().confirmed().dom().contains(tx)
                &&& (!self.id_map().confirmed().dom().contains(tx) || !self.transitions_complete(
                    self.stored_ids(tx).0,
                ) || !self.fee_available(tx) || execute_content_id(
                    self.reconstructed_execution(tx),
                    self.reconstructed_fee(tx),
                ) != tx)
            },
        }
    }

    /// The whole execute transaction reconstructed from the confirmed maps,
    /// checked against its own id.
    pub fn get_transaction(&self, transaction_id: &TransactionId) -> (r: Result<
        Option<Transaction>,
        StoreError,
    >)
        requires
            self.wf(),
        ensures
            self.get_transaction_post(*transaction_id, r),
    {
        let execution = match self.get_execution(transaction_id)? {
            Some(e) => e,
            None => {
                return Ok(None);
            }
        };
        let entry = match self.id_map.get_confirmed(transaction_id) {
            Some(entry) => entry,
            None => {
                return Err(StoreError::Corrupt);
            }
        };
        let additional_fee: Option<Transition> = match &entry.1 {
            Some(fee_id) => {
                match self.transition_store.get_transition(fee_id) {
                    Some(t) => Some(t),
                    None => {
                        return Err(StoreError::Corrupt);
                    }
                }
            }
            None => None,
        };
        proof {
            assert(execution@ =~= self.reconstructed_execution(*transaction_id));
            assert(additional_fee == self.reconstructed_fee(*transaction_id));
        }
        let transaction = Transaction::from_execution(execution, additional_fee);
        // The reconstructed transaction must carry the id it was stored
        // under.
        let reconstructed_id = transaction.id();
        if reconstructed_id.0 == transaction_id.0 {
            Ok(Some(transaction))
        } else {
            Err(StoreError::Corrupt)
        }
    }

    /// Exactly what [`Self::get_additional_fee`] returns, as a relation on
    /// the confirmed maps.
    pub open spec fn get_additional_fee_post(self, tx: TransactionId, r: Result<
        Option<AdditionalFee>,
        StoreError,
    >) -> bool {
        match r {
            Ok(Some(t)) => {
                &&& self.id_map().confirmed().dom().contains(tx)
                &&& (match self.stored_ids(tx).1 {
                    Some(fid) => {
                        &&& self.transition_store().transitions().confirmed().dom().contains(fid)
                        &&& t == self.transition_store().transitions().confirmed()[fid]
                    },
                    None => false,
                })
            },
            Ok(None) => {
                &&& self.id_map().confirmed().dom().contains(tx)
                &&& self.stored_ids(tx).1 is None
            },
            Err(err) => {
                &&& err == StoreError::Corrupt
                &&& (!self.id_map().confirmed().dom().contains(tx) || (match self.stored_ids(tx).1 {
                    Some(fid) => !self.transition_store().transitions().confirmed().dom().contains(
                        fid,
                    ),
                    None => false,
                }))
            },
        }
    }

    /// The optional fee transition recorded for the execute transaction: a
    /// recorded fee id whose transition is missing fails as corruption.
    pub fn get_additional_fee(&self, transaction_id: &TransactionId) -> (r: Result<
        Option<AdditionalFee>,
        StoreError,
    >)
        requires
            self.wf(),
        ensures
            self.get_additional_fee_post(*transaction_id, r),
    {
        let entry = match self.id_map.get_confirmed(transaction_id) {
            Some(entry) => entry,
            None => {
                return Err(StoreError::Corrupt);
            }
        };
        match &entry.1 {
            Some(fee_id) => {
                match self.transition_store.get_transition(fee_id) {
                    Some(t) => Ok(Some(t)),
                    None => Err(StoreError::Corrupt),
                }
            }
            None => Ok(None),
        }
    }

    /// Whether the fee transition recorded for the transaction, if any, is
    /// present in the transition store.
    pub open spec fn fee_available(self, tx: TransactionId) -> bool {
        match self.stored_ids(tx).1 {
            Some(fid) => self.transition_store().transitions().confirmed().dom().contains(fid),
            None => true,
        }
    }

    /// The execution as the confirmed maps describe it.
    pub open spec fn reconstructed_execution(self, tx: TransactionId) -> ExecutionData {
        ExecutionData {
            edition: self.edition_map().confirmed()[tx],
            transitions: self.read_transitions(self.stored_ids(tx).0),
        }
    }

    /// The optional fee transition as the confirmed maps describe it.
    pub open spec fn reconstructed_fee(self, tx: TransactionId) -> Option<Transition> {
        match self.stored_ids(tx).1 {
            Some(fid) => Some(self.transition_store().transitions().confirmed()[fid]),
            None => None,
        }
    }

    /// Initializes an execution store over the given transition store.
    pub fn new(transition_store: TransitionStore) -> (r: ExecutionStore)
        requires
            transition_store.wf(),
            !transition_store.in_batch(),
        ensures
            r.wf(),
            !r.in_batch(),
            r.id_map().confirmed() == Map::<TransactionId, (Vec<TransitionId>, Option<TransitionId>)>::empty(),
            r.reverse_id_map().confirmed() == Map::<TransitionId, TransactionId>::empty(),
            r.edition_map().confirmed() == Map::<TransactionId, u16>::empty(),
            r.transition_store() == transition_store,
    {
        ExecutionStore {
            id_map: KvMap::new(),
            reverse_id_map: KvMap::new(),
            edition_map: KvMap::new(),
            transition_store,
        }
    }
}

} // verus!
