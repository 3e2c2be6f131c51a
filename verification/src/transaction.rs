//! The transaction schema: a kind-tag map dispatching to the deployment and
//! execution schemas, all under one atomic batch.
//!
//! `insert` tags the transaction and forwards to the matching schema;
//! `remove` reads the tag, removes it, and forwards. Both run inside one
//! atomic batch scope spanning every participant, so a failing forward
//! rewinds the tag write too. A top-level finalize is guarded: opening one
//! while any batch is in progress is a usage violation.

use vstd::prelude::*;
use crate::deployment::DeploymentStore;
use crate::errors::StoreError;
use crate::execution::ExecutionStore;
use crate::kv::KvMap;
use crate::types::{
    AdditionalFee, Deployment, Execution, Transaction, TransactionData, TransactionId,
    TransactionType, TransitionId,
};

verus! {

/// What a deploy insert or removal forwarded inside this schema's open batch leaves on the deployment maps: two checkpoints at the old batch end (one from the enclosing scope, one from the forwarded scope) and the old staged writes kept as a prefix.
pub open spec fn deployment_forwarded(post: DeploymentStore, pre: DeploymentStore) -> bool {
    &&& post.id_map().entries() == pre.id_map().entries()
    &&& post.id_map().marks() == pre.id_map().marks().push(pre.id_map().pending().len() as usize).push(
        pre.id_map().pending().len() as usize,
    )
    &&& post.id_map().pending().take(pre.id_map().pending().len() as int) == pre.id_map().pending()
    &&& post.edition_map().entries() == pre.edition_map().entries()
    &&& post.edition_map().marks() == pre.edition_map().marks().push(pre.edition_map().pending().len() as usize).push(
        pre.edition_map().pending().len() as usize,
    )
    &&& post.edition_map().pending().take(pre.edition_map().pending().len() as int) == pre.edition_map().pending()
    &&& post.reverse_id_map().entries() == pre.reverse_id_map().entries()
    &&& post.reverse_id_map().marks() == pre.reverse_id_map().marks().push(pre.reverse_id_map().pending().len() as usize).push(
        pre.reverse_id_map().pending().len() as usize,
    )
    &&& post.reverse_id_map().pending().take(pre.reverse_id_map().pending().len() as int) == pre.reverse_id_map().pending()
    &&& post.owner_map().entries() == pre.owner_map().entries()
    &&& post.owner_map().marks() == pre.owner_map().marks().push(pre.owner_map().pending().len() as usize).push(
        pre.owner_map().pending().len() as usize,
    )
    &&& post.owner_map().pending().take(pre.owner_map().pending().len() as int) == pre.owner_map().pending()
    &&& post.program_map().entries() == pre.program_map().entries()
    &&& post.program_map().marks() == pre.program_map().marks().push(pre.program_map().pending().len() as usize).push(
        pre.program_map().pending().len() as usize,
    )
    &&& post.program_map().pending().take(pre.program_map().pending().len() as int) == pre.program_map().pending()
    &&& post.verifying_key_map().entries() == pre.verifying_key_map().entries()
    &&& post.verifying_key_map().marks() == pre.verifying_key_map().marks().push(pre.verifying_key_map().pending().len() as usize).push(
        pre.verifying_key_map().pending().len() as usize,
    )
    &&& post.verifying_key_map().pending().take(pre.verifying_key_map().pending().len() as int) == pre.verifying_key_map().pending()
    &&& post.certificate_map().entries() == pre.certificate_map().entries()
    &&& post.certificate_map().marks() == pre.certificate_map().marks().push(pre.certificate_map().pending().len() as usize).push(
        pre.certificate_map().pending().len() as usize,
    )
    &&& post.certificate_map().pending().take(pre.certificate_map().pending().len() as int) == pre.certificate_map().pending()
    &&& post.fee_map().entries() == pre.fee_map().entries()
    &&& post.fee_map().marks() == pre.fee_map().marks().push(pre.fee_map().pending().len() as usize).push(
        pre.fee_map().pending().len() as usize,
    )
    &&& post.fee_map().pending().take(pre.fee_map().pending().len() as int) == pre.fee_map().pending()
    &&& post.reverse_fee_map().entries() == pre.reverse_fee_map().entries()
    &&& post.reverse_fee_map().marks() == pre.reverse_fee_map().marks().push(pre.reverse_fee_map().pending().len() as usize).push(
        pre.reverse_fee_map().pending().len() as usize,
    )
    &&& post.reverse_fee_map().pending().take(pre.reverse_fee_map().pending().len() as int) == pre.reverse_fee_map().pending()
    &&& post.transition_store().transitions().entries() == pre.transition_store().transitions().entries()
    &&& post.transition_store().transitions().marks() == pre.transition_store().transitions().marks().push(pre.transition_store().transitions().pending().len() as usize).push(
        pre.transition_store().transitions().pending().len() as usize,
    )
    &&& post.transition_store().transitions().pending().take(pre.transition_store().transitions().pending().len() as int) == pre.transition_store().transitions().pending()
    &&& post.transition_store().dev_tag() == pre.transition_store().dev_tag()
}

/// The execution-map counterpart of [`deployment_forwarded`].
pub open spec fn execution_forwarded(post: ExecutionStore, pre: ExecutionStore) -> bool {
    &&& post.id_map().entries() == pre.id_map().entries()
    &&& post.id_map().marks() == pre.id_map().marks().push(pre.id_map().pending().len() as usize).push(
        pre.id_map().pending().len() as usize,
    )
    &&& post.id_map().pending().take(pre.id_map().pending().len() as int) == pre.id_map().pending()
    &&& post.reverse_id_map().entries() == pre.reverse_id_map().entries()
    &&& post.reverse_id_map().marks() == pre.reverse_id_map().marks().push(pre.reverse_id_map().pending().len() as usize).push(
        pre.reverse_id_map().pending().len() as usize,
    )
    &&& post.reverse_id_map().pending().take(pre.reverse_id_map().pending().len() as int) == pre.reverse_id_map().pending()
    &&& post.edition_map().entries() == pre.edition_map().entries()
    &&& post.edition_map().marks() == pre.edition_map().marks().push(pre.edition_map().pending().len() as usize).push(
        pre.edition_map().pending().len() as usize,
    )
    &&& post.edition_map().pending().take(pre.edition_map().pending().len() as int) == pre.edition_map().pending()
    &&& post.transition_store().transitions().entries() == pre.transition_store().transitions().entries()
    &&& post.transition_store().transitions().marks() == pre.transition_store().transitions().marks().push(pre.transition_store().transitions().pending().len() as usize).push(
        pre.transition_store().transitions().pending().len() as usize,
    )
    &&& post.transition_store().transitions().pending().take(pre.transition_store().transitions().pending().len() as int) == pre.transition_store().transitions().pending()
    &&& post.transition_store().dev_tag() == pre.transition_store().dev_tag()
}

/// Holds when neither the confirmed nor the speculative contents of any deployment map changed.
pub open spec fn deployment_views_unchanged(post: DeploymentStore, pre: DeploymentStore) -> bool {
    &&& post.id_map().speculative() == pre.id_map().speculative()
    &&& post.id_map().confirmed() == pre.id_map().confirmed()
    &&& post.edition_map().speculative() == pre.edition_map().speculative()
    &&& post.edition_map().confirmed() == pre.edition_map().confirmed()
    &&& post.reverse_id_map().speculative() == pre.reverse_id_map().speculative()
    &&& post.reverse_id_map().confirmed() == pre.reverse_id_map().confirmed()
    &&& post.owner_map().speculative() == pre.owner_map().speculative()
    &&& post.owner_map().confirmed() == pre.owner_map().confirmed()
    &&& post.program_map().speculative() == pre.program_map().speculative()
    &&& post.program_map().confirmed() == pre.program_map().confirmed()
    &&& post.verifying_key_map().speculative() == pre.verifying_key_map().speculative()
    &&& post.verifying_key_map().confirmed() == pre.verifying_key_map().confirmed()
    &&& post.certificate_map().speculative() == pre.certificate_map().speculative()
    &&& post.certificate_map().confirmed() == pre.certificate_map().confirmed()
    &&& post.fee_map().speculative() == pre.fee_map().speculative()
    &&& post.fee_map().confirmed() == pre.fee_map().confirmed()
    &&& post.reverse_fee_map().speculative() == pre.reverse_fee_map().speculative()
    &&& post.reverse_fee_map().confirmed() == pre.reverse_fee_map().confirmed()
    &&& post.transition_store().transitions().speculative() == pre.transition_store().transitions().speculative()
    &&& post.transition_store().transitions().confirmed() == pre.transition_store().transitions().confirmed()
}

/// Holds when neither the confirmed nor the speculative contents of any execution map changed.
pub open spec fn execution_views_unchanged(post: ExecutionStore, pre: ExecutionStore) -> bool {
    &&& post.id_map().speculative() == pre.id_map().speculative()
    &&& post.id_map().confirmed() == pre.id_map().confirmed()
    &&& post.reverse_id_map().speculative() == pre.reverse_id_map().speculative()
    &&& post.reverse_id_map().confirmed() == pre.reverse_id_map().confirmed()
    &&& post.edition_map().speculative() == pre.edition_map().speculative()
    &&& post.edition_map().confirmed() == pre.edition_map().confirmed()
    &&& post.transition_store().transitions().speculative() == pre.transition_store().transitions().speculative()
    &&& post.transition_store().transitions().confirmed() == pre.transition_store().transitions().confirmed()
}

/// The transaction store: the kind-tag map plus the two sub-schemas.
pub struct TransactionStore {
    id_map: KvMap<TransactionId, TransactionType>,
    deployment_store: DeploymentStore,
    execution_store: ExecutionStore,
}

impl TransactionStore {
    /// The map of transaction id to transaction kind.
    pub closed spec fn id_map(self) -> KvMap<TransactionId, TransactionType> {
        self.id_map
    }

    /// The deployment schema.
    pub closed spec fn deployment_store(self) -> DeploymentStore {
        self.deployment_store
    }

    /// The execution schema.
    pub closed spec fn execution_store(self) -> ExecutionStore {
        self.execution_store
    }

    /// Whether an atomic batch is open on this schema.
    pub open spec fn in_batch(self) -> bool {
        self.id_map().in_batch()
    }

    /// Well-formedness: every participant well-formed, with batches opened
    /// and closed in step.
    pub open spec fn wf(self) -> bool {
        &&& self.id_map().wf()
        &&& self.deployment_store().wf()
        &&& self.execution_store().wf()
        &&& self.deployment_store().in_batch() == self.id_map().in_batch()
        &&& self.execution_store().in_batch() == self.id_map().in_batch()
    }

    /// Holds when the kind map keeps its confirmed contents and holds no
    /// staged writes and no checkpoints.
    pub open spec fn kind_cleared(self, pre: Self) -> bool {
        &&& self.id_map().entries() == pre.id_map().entries()
        &&& self.id_map().pending() == Seq::<(TransactionId, Option<TransactionType>)>::empty()
        &&& self.id_map().marks() == Seq::<usize>::empty()
    }

    /// Holds when every participant keeps its whole batch state: confirmed
    /// contents, staged writes and checkpoints alike.
    pub open spec fn batch_state_eq(self, pre: Self) -> bool {
        &&& self.id_map().entries() == pre.id_map().entries()
        &&& self.id_map().pending() == pre.id_map().pending()
        &&& self.id_map().marks() == pre.id_map().marks()
        &&& self.deployment_store().batch_frame(pre.deployment_store())
        &&& self.execution_store().batch_frame(pre.execution_store())
    }

    /// What an operation that failed inside this schema's scope leaves
    /// behind: nothing committed, the batch open, and — where the batch was
    /// already open — every participant's staged writes and checkpoints as
    /// they were.
    pub open spec fn rolled_back(self, pre: Self) -> bool {
        &&& self.in_batch()
        &&& (if pre.in_batch() {
            self.batch_state_eq(pre)
        } else {
            &&& self.kind_cleared(pre)
            &&& self.deployment_store().batch_cleared(pre.deployment_store())
            &&& self.execution_store().batch_cleared(pre.execution_store())
        })
    }

    /// Initializes a transaction store over the two sub-schemas.
    pub fn new(deployment_store: DeploymentStore, execution_store: ExecutionStore) -> (r:
        TransactionStore)
        requires
            deployment_store.wf(),
            !deployment_store.in_batch(),
            execution_store.wf(),
            !execution_store.in_batch(),
        ensures
            r.wf(),
            !r.in_batch(),
            r.id_map().confirmed() == Map::<TransactionId, TransactionType>::empty(),
            r.deployment_store() == deployment_store,
            r.execution_store() == execution_store,
    {
        TransactionStore { id_map: KvMap::new(), deployment_store, execution_store }
    }

    /// Opens a fresh batch on every participant, in the declared order.
    pub fn start_atomic(&mut self)
        requires
            old(self).wf(),
            !old(self).in_batch(),
        ensures
            final(self).wf(),
            final(self).in_batch(),
            final(self).kind_cleared(*old(self)),
            final(self).deployment_store().batch_cleared(old(self).deployment_store()),
            final(self).execution_store().batch_cleared(old(self).execution_store()),
    {
        self.id_map.start_atomic();
        self.deployment_store.start_atomic();
        self.execution_store.start_atomic();
    }

    /// Whether an atomic batch is in progress on any participant.
    pub fn is_atomic_in_progress(&self) -> (r: bool)
        requires
            self.wf(),
        ensures
            r == self.in_batch(),
    {
        self.id_map.is_atomic_in_progress() || self.deployment_store.is_atomic_in_progress()
            || self.execution_store.is_atomic_in_progress()
    }

    /// Pushes a checkpoint onto every participant's stack.
    pub fn atomic_checkpoint(&mut self)
        requires
            old(self).wf(),
            old(self).in_batch(),
        ensures
            final(self).wf(),
            final(self).in_batch(),
            final(self).id_map().entries() == old(self).id_map().entries(),
            final(self).id_map().pending() == old(self).id_map().pending(),
            final(self).id_map().marks() == old(self).id_map().marks().push(
                old(self).id_map().pending().len() as usize,
            ),
            final(self).deployment_store().checkpointed_from(old(self).deployment_store()),
            final(self).execution_store().checkpointed_from(old(self).execution_store()),
    {
        self.id_map.atomic_checkpoint();
        self.deployment_store.atomic_checkpoint();
        self.execution_store.atomic_checkpoint();
    }

    /// Rewinds every participant to its most recent checkpoint.
    pub fn atomic_rewind(&mut self)
        requires
            old(self).wf(),
            old(self).in_batch(),
        ensures
            final(self).wf(),
            final(self).in_batch(),
            final(self).id_map().entries() == old(self).id_map().entries(),
            final(self).id_map().pending() == old(self).id_map().pending().take(
                (if old(self).id_map().marks().len() > 0 {
                    old(self).id_map().marks().last() as int
                } else {
                    0
                }),
            ),
            final(self).id_map().marks() == (if old(self).id_map().marks().len() > 0 {
                old(self).id_map().marks().drop_last()
            } else {
                old(self).id_map().marks()
            }),
            final(self).deployment_store().rewound_from(old(self).deployment_store()),
            final(self).execution_store().rewound_from(old(self).execution_store()),
    {
        self.id_map.atomic_rewind();
        self.deployment_store.atomic_rewind();
        self.execution_store.atomic_rewind();
    }

    /// Discards all staged writes on every participant; the batch ends.
    pub fn abort_atomic(&mut self)
        requires
            old(self).wf(),
            old(self).in_batch(),
        ensures
            final(self).wf(),
            !final(self).in_batch(),
            final(self).kind_cleared(*old(self)),
            final(self).deployment_store().batch_cleared(old(self).deployment_store()),
            final(self).execution_store().batch_cleared(old(self).execution_store()),
    {
        self.id_map.abort_atomic();
        self.deployment_store.abort_atomic();
        self.execution_store.abort_atomic();
    }

    /// Commits every participant's staged writes, in the declared order;
    /// the batch ends.
    pub fn finish_atomic(&mut self) -> (r: Result<(), StoreError>)
        requires
            old(self).wf(),
            old(self).in_batch(),
        ensures
            r is Ok,
            final(self).wf(),
            !final(self).in_batch(),
            final(self).id_map().confirmed() == old(self).id_map().speculative(),
            final(self).id_map().pending() == Seq::<(TransactionId, Option<TransactionType>)>::empty(),
            final(self).id_map().marks() == Seq::<usize>::empty(),
            final(self).deployment_store().committed_state(old(self).deployment_store()),
            final(self).deployment_store().id_map().confirmed() == old(self).deployment_store().id_map().speculative(),
            final(self).deployment_store().edition_map().confirmed() == old(self).deployment_store().edition_map().speculative(),
            final(self).deployment_store().reverse_id_map().confirmed() == old(self).deployment_store().reverse_id_map().speculative(),
            final(self).deployment_store().owner_map().confirmed() == old(self).deployment_store().owner_map().speculative(),
            final(self).deployment_store().program_map().confirmed() == old(self).deployment_store().program_map().speculative(),
            final(self).deployment_store().verifying_key_map().confirmed() == old(self).deployment_store().verifying_key_map().speculative(),
            final(self).deployment_store().certificate_map().confirmed() == old(self).deployment_store().certificate_map().speculative(),
            final(self).deployment_store().fee_map().confirmed() == old(self).deployment_store().fee_map().speculative(),
            final(self).deployment_store().reverse_fee_map().confirmed() == old(self).deployment_store().reverse_fee_map().speculative(),
            final(self).deployment_store().transition_store().transitions().confirmed() == old(self).deployment_store().transition_store().transitions().speculative(),
            final(self).execution_store().committed_state(old(self).execution_store()),
            final(self).execution_store().id_map().confirmed() == old(self).execution_store().id_map().speculative(),
            final(self).execution_store().reverse_id_map().confirmed() == old(self).execution_store().reverse_id_map().speculative(),
            final(self).execution_store().edition_map().confirmed() == old(self).execution_store().edition_map().speculative(),
            final(self).execution_store().transition_store().transitions().confirmed() == old(self).execution_store().transition_store().transitions().speculative(),
    {
        self.id_map.finish_atomic()?;
        self.deployment_store.finish_atomic()?;
        self.execution_store.finish_atomic()
    }

    /// Tags and stores the given transaction, forwarding to the matching
    /// schema, all inside one atomic batch scope spanning every
    /// participant. A rejected transaction rewinds the tag write and leaves
    /// the batch open, as the enclosing scope's rewind discipline demands.
    #[verifier::rlimit(60)]
    pub fn insert(&mut self, transaction: &Transaction) -> (r: Result<(), StoreError>)
        requires
            old(self).wf(),
        ensures
            final(self).wf(),
            (match transaction@ {
                TransactionData::Deploy(tx, owner, d, fee) => {
                    if !d.is_ordered() {
                        &&& r == Result::<(), StoreError>::Err(StoreError::MalformedInput)
                        &&& final(self).rolled_back(*old(self))
                    } else {
                        &&& r == Result::<(), StoreError>::Ok(())
                        &&& final(self).in_batch() == old(self).in_batch()
                        &&& final(self).id_map().speculative() == old(self).id_map().speculative().insert(
                            tx,
                            TransactionType::Deploy,
                        )
                        &&& final(self).deployment_store().views_after_insert(
                            old(self).deployment_store(),
                            tx,
                            owner,
                            d,
                            fee,
                        )
                        &&& execution_views_unchanged(
                            final(self).execution_store(),
                            old(self).execution_store(),
                        )
                        &&& (if old(self).in_batch() {
                            &&& final(self).id_map().entries() == old(self).id_map().entries()
                            &&& final(self).id_map().marks() == old(self).id_map().marks().push(
                                old(self).id_map().pending().len() as usize,
                            )
                            &&& final(self).id_map().pending().take(
                                old(self).id_map().pending().len() as int,
                            ) == old(self).id_map().pending()
                            &&& deployment_forwarded(
                                final(self).deployment_store(),
                                old(self).deployment_store(),
                            )
                            &&& final(self).execution_store().checkpointed_from(
                                old(self).execution_store(),
                            )
                        } else {
                            &&& final(self).id_map().confirmed() == final(self).id_map().speculative()
                            &&& final(self).id_map().pending() == Seq::<(TransactionId, Option<TransactionType>)>::empty()
                            &&& final(self).id_map().marks() == Seq::<usize>::empty()
                            &&& final(self).deployment_store().committed_state(
                                old(self).deployment_store(),
                            )
                            &&& final(self).execution_store().batch_empty(
                                old(self).execution_store(),
                            )
                        })
                    }
                },
                TransactionData::Execute(tx, e, fee) => {
                    &&& r == Result::<(), StoreError>::Ok(())
                    &&& final(self).in_batch() == old(self).in_batch()
                    &&& final(self).id_map().speculative() == old(self).id_map().speculative().insert(
                        tx,
                        TransactionType::Execute,
                    )
                    &&& final(self).execution_store().views_after_insert(
                        old(self).execution_store(),
                        tx,
                        e,
                        fee,
                    )
                    &&& deployment_views_unchanged(
                        final(self).deployment_store(),
                        old(self).deployment_store(),
                    )
                    &&& (if old(self).in_batch() {
                        &&& final(self).id_map().entries() == old(self).id_map().entries()
                        &&& final(self).id_map().marks() == old(self).id_map().marks().push(
                            old(self).id_map().pending().len() as usize,
                        )
                        &&& final(self).id_map().pending().take(
                            old(self).id_map().pending().len() as int,
                        ) == old(self).id_map().pending()
                        &&& execution_forwarded(
                            final(self).execution_store(),
                            old(self).execution_store(),
                        )
                        &&& final(self).deployment_store().checkpointed_from(
                            old(self).deployment_store(),
                        )
                    } else {
                        &&& final(self).id_map().confirmed() == final(self).id_map().speculative()
                        &&& final(self).id_map().pending() == Seq::<(TransactionId, Option<TransactionType>)>::empty()
                        &&& final(self).id_map().marks() == Seq::<usize>::empty()
                        &&& final(self).execution_store().committed_state(
                            old(self).execution_store(),
                        )
                        &&& final(self).deployment_store().batch_empty(
                            old(self).deployment_store(),
                        )
                    })
                },
            }),
    {
        let nested = self.is_atomic_in_progress();
        if nested {
            self.atomic_checkpoint();
        } else {
            self.start_atomic();
        }
        let ghost snap = *self;
        // Tag the transaction, then forward to the matching schema.
        let result: Result<(), StoreError> = match transaction {
            Transaction::Deploy(_, _, _, _) => {
                self.id_map.insert(transaction.id(), TransactionType::Deploy);
                self.deployment_store.insert(transaction)
            }
            Transaction::Execute(_, _, _) => {
                self.id_map.insert(transaction.id(), TransactionType::Execute);
                self.execution_store.insert(transaction)
            }
        };
        proof {
            let pre = *old(self);
            pre.id_map().lemma_len_bounds();
            pre.deployment_store().id_map().lemma_len_bounds();
            pre.deployment_store().edition_map().lemma_len_bounds();
            pre.deployment_store().reverse_id_map().lemma_len_bounds();
            pre.deployment_store().owner_map().lemma_len_bounds();
            pre.deployment_store().program_map().lemma_len_bounds();
            pre.deployment_store().verifying_key_map().lemma_len_bounds();
            pre.deployment_store().certificate_map().lemma_len_bounds();
            pre.deployment_store().fee_map().lemma_len_bounds();
            pre.deployment_store().reverse_fee_map().lemma_len_bounds();
            pre.deployment_store().transition_store().transitions().lemma_len_bounds();
            pre.execution_store().id_map().lemma_len_bounds();
            pre.execution_store().reverse_id_map().lemma_len_bounds();
            pre.execution_store().edition_map().lemma_len_bounds();
            pre.execution_store().transition_store().transitions().lemma_len_bounds();
            if !pre.in_batch() {
                pre.id_map().lemma_wf_idle();
                pre.deployment_store().id_map().lemma_wf_idle();
                pre.deployment_store().edition_map().lemma_wf_idle();
                pre.deployment_store().reverse_id_map().lemma_wf_idle();
                pre.deployment_store().owner_map().lemma_wf_idle();
                pre.deployment_store().program_map().lemma_wf_idle();
                pre.deployment_store().verifying_key_map().lemma_wf_idle();
                pre.deployment_store().certificate_map().lemma_wf_idle();
                pre.deployment_store().fee_map().lemma_wf_idle();
                pre.deployment_store().reverse_fee_map().lemma_wf_idle();
                pre.deployment_store().transition_store().transitions().lemma_wf_idle();
                pre.execution_store().id_map().lemma_wf_idle();
                pre.execution_store().reverse_id_map().lemma_wf_idle();
                pre.execution_store().edition_map().lemma_wf_idle();
                pre.execution_store().transition_store().transitions().lemma_wf_idle();
            }
            assert(snap.id_map().speculative() =~= pre.id_map().speculative());
            assert(snap.deployment_store().id_map().speculative() =~= pre.deployment_store().id_map().speculative());
            assert(snap.deployment_store().edition_map().speculative() =~= pre.deployment_store().edition_map().speculative());
            assert(snap.deployment_store().reverse_id_map().speculative() =~= pre.deployment_store().reverse_id_map().speculative());
            assert(snap.deployment_store().owner_map().speculative() =~= pre.deployment_store().owner_map().speculative());
            assert(snap.deployment_store().program_map().speculative() =~= pre.deployment_store().program_map().speculative());
            assert(snap.deployment_store().verifying_key_map().speculative() =~= pre.deployment_store().verifying_key_map().speculative());
            assert(snap.deployment_store().certificate_map().speculative() =~= pre.deployment_store().certificate_map().speculative());
            assert(snap.deployment_store().fee_map().speculative() =~= pre.deployment_store().fee_map().speculative());
            assert(snap.deployment_store().reverse_fee_map().speculative() =~= pre.deployment_store().reverse_fee_map().speculative());
            assert(snap.deployment_store().transition_store().transitions().speculative()
                =~= pre.deployment_store().transition_store().transitions().speculative());
            assert(snap.execution_store().id_map().speculative() =~= pre.execution_store().id_map().speculative());
            assert(snap.execution_store().reverse_id_map().speculative() =~= pre.execution_store().reverse_id_map().speculative());
            assert(snap.execution_store().edition_map().speculative() =~= pre.execution_store().edition_map().speculative());
            assert(snap.execution_store().transition_store().transitions().speculative()
                =~= pre.execution_store().transition_store().transitions().speculative());
        }
        match result {
            Ok(()) => {
                // Commit the batch only when this call opened it.
                if !nested {
                    self.finish_atomic()?;
                }
                proof {
                    let pre = *old(self);
                    if pre.in_batch() {
                        assert(self.id_map().pending().take(pre.id_map().pending().len() as int)
                            =~= pre.id_map().pending());
                    }
                }
                Ok(())
            }
            Err(err) => {
                // The forward was rejected: rewind this scope, leaving the
                // batch open with everything staged before it intact.
                self.atomic_rewind();
                proof {
                    let pre = *old(self);
                    assert(self.id_map().pending() =~= pre.id_map().pending());
                    assert(self.deployment_store().id_map().pending() =~= pre.deployment_store().id_map().pending());
                    assert(self.deployment_store().edition_map().pending() =~= pre.deployment_store().edition_map().pending());
                    assert(self.deployment_store().reverse_id_map().pending() =~= pre.deployment_store().reverse_id_map().pending());
                    assert(self.deployment_store().owner_map().pending() =~= pre.deployment_store().owner_map().pending());
                    assert(self.deployment_store().program_map().pending() =~= pre.deployment_store().program_map().pending());
                    assert(self.deployment_store().verifying_key_map().pending() =~= pre.deployment_store().verifying_key_map().pending());
                    assert(self.deployment_store().certificate_map().pending() =~= pre.deployment_store().certificate_map().pending());
                    assert(self.deployment_store().fee_map().pending() =~= pre.deployment_store().fee_map().pending());
                    assert(self.deployment_store().reverse_fee_map().pending() =~= pre.deployment_store().reverse_fee_map().pending());
                    assert(self.deployment_store().transition_store().transitions().pending()
                        =~= pre.deployment_store().transition_store().transitions().pending());
                    assert(self.execution_store().id_map().pending() =~= pre.execution_store().id_map().pending());
                    assert(self.execution_store().reverse_id_map().pending() =~= pre.execution_store().reverse_id_map().pending());
                    assert(self.execution_store().edition_map().pending() =~= pre.execution_store().edition_map().pending());
                    assert(self.execution_store().transition_store().transitions().pending()
                        =~= pre.execution_store().transition_store().transitions().pending());
                    if pre.in_batch() {
                        assert(self.id_map().marks() =~= pre.id_map().marks());
                        assert(self.deployment_store().id_map().marks() =~= pre.deployment_store().id_map().marks());
                        assert(self.deployment_store().edition_map().marks() =~= pre.deployment_store().edition_map().marks());
                        assert(self.deployment_store().reverse_id_map().marks() =~= pre.deployment_store().reverse_id_map().marks());
                        assert(self.deployment_store().owner_map().marks() =~= pre.deployment_store().owner_map().marks());
                        assert(self.deployment_store().program_map().marks() =~= pre.deployment_store().program_map().marks());
                        assert(self.deployment_store().verifying_key_map().marks() =~= pre.deployment_store().verifying_key_map().marks());
                        assert(self.deployment_store().certificate_map().marks() =~= pre.deployment_store().certificate_map().marks());
                        assert(self.deployment_store().fee_map().marks() =~= pre.deployment_store().fee_map().marks());
                        assert(self.deployment_store().reverse_fee_map().marks() =~= pre.deployment_store().reverse_fee_map().marks());
                        assert(self.deployment_store().transition_store().transitions().marks()
                            =~= pre.deployment_store().transition_store().transitions().marks());
                        assert(self.execution_store().id_map().marks() =~= pre.execution_store().id_map().marks());
                        assert(self.execution_store().reverse_id_map().marks() =~= pre.execution_store().reverse_id_map().marks());
                        assert(self.execution_store().edition_map().marks() =~= pre.execution_store().edition_map().marks());
                        assert(self.execution_store().transition_store().transitions().marks()
                            =~= pre.execution_store().transition_store().transitions().marks());
                    }
                }
                Err(err)
            }
        }
    }

    /// Removes the transaction for the given transaction id: reads the kind
    /// tag, removes it, and forwards to the matching schema, all inside one
    /// atomic batch scope. A failing forward rewinds the tag removal and
    /// leaves the batch open.
    #[verifier::rlimit(60)]
    pub fn remove(&mut self, transaction_id: &TransactionId) -> (r: Result<(), StoreError>)
        requires
            old(self).wf(),
        ensures
            final(self).wf(),
            (if !old(self).id_map().confirmed().dom().contains(*transaction_id) {
                r == Result::<(), StoreError>::Err(StoreError::NotFound) && *final(self) == *old(self)
            } else {
                match old(self).id_map().confirmed()[*transaction_id] {
                    TransactionType::Deploy => {
                        if !old(self).deployment_store().id_map().confirmed().dom().contains(
                            *transaction_id,
                        ) {
                            r == Result::<(), StoreError>::Err(StoreError::NotFound) && final(self).rolled_back(
                                *old(self),
                            )
                        } else if !old(self).deployment_store().remove_lookups_ok(*transaction_id) {
                            r == Result::<(), StoreError>::Err(StoreError::Corrupt) && final(self).rolled_back(
                                *old(self),
                            )
                        } else {
                            &&& r == Result::<(), StoreError>::Ok(())
                            &&& final(self).in_batch() == old(self).in_batch()
                            &&& final(self).id_map().speculative() == old(self).id_map().speculative().remove(
                                *transaction_id,
                            )
                            &&& final(self).deployment_store().views_after_remove(
                                old(self).deployment_store(),
                                *transaction_id,
                            )
                            &&& execution_views_unchanged(
                                final(self).execution_store(),
                                old(self).execution_store(),
                            )
                            &&& (if old(self).in_batch() {
                                deployment_forwarded(
                                    final(self).deployment_store(),
                                    old(self).deployment_store(),
                                ) && final(self).execution_store().checkpointed_from(
                                    old(self).execution_store(),
                                )
                            } else {
                                final(self).id_map().confirmed() == final(self).id_map().speculative()
                                    && final(self).deployment_store().committed_state(
                                    old(self).deployment_store(),
                                ) && final(self).execution_store().batch_empty(
                                    old(self).execution_store(),
                                )
                            })
                        }
                    },
                    TransactionType::Execute => {
                        if !old(self).execution_store().id_map().confirmed().dom().contains(
                            *transaction_id,
                        ) {
                            r == Result::<(), StoreError>::Err(StoreError::NotFound) && final(self).rolled_back(
                                *old(self),
                            )
                        } else {
                            &&& r == Result::<(), StoreError>::Ok(())
                            &&& final(self).in_batch() == old(self).in_batch()
                            &&& final(self).id_map().speculative() == old(self).id_map().speculative().remove(
                                *transaction_id,
                            )
                            &&& final(self).execution_store().views_after_remove(
                                old(self).execution_store(),
                                *transaction_id,
                            )
                            &&& deployment_views_unchanged(
                                final(self).deployment_store(),
                                old(self).deployment_store(),
                            )
                            &&& (if old(self).in_batch() {
                                execution_forwarded(
                                    final(self).execution_store(),
                                    old(self).execution_store(),
                                ) && final(self).deployment_store().checkpointed_from(
                                    old(self).deployment_store(),
                                )
                            } else {
                                final(self).id_map().confirmed() == final(self).id_map().speculative()
                                    && final(self).execution_store().committed_state(
                                    old(self).execution_store(),
                                ) && final(self).deployment_store().batch_empty(
                                    old(self).deployment_store(),
                                )
                            })
                        }
                    },
                }
            }),
    {
        // Read the kind tag from the confirmed state.
        let kind: TransactionType = match self.id_map.get_confirmed(transaction_id) {
            Some(TransactionType::Deploy) => TransactionType::Deploy,
            Some(TransactionType::Execute) => TransactionType::Execute,
            None => {
                return Err(StoreError::NotFound);
            }
        };
        let nested = self.is_atomic_in_progress();
        if nested {
            self.atomic_checkpoint();
        } else {
            self.start_atomic();
        }
        let ghost snap = *self;
        // Remove the tag, then forward to the matching schema.
        self.id_map.remove(transaction_id);
        let result: Result<(), StoreError> = match kind {
            TransactionType::Deploy => self.deployment_store.remove(transaction_id),
            TransactionType::Execute => self.execution_store.remove(transaction_id),
        };
        proof {
            let pre = *old(self);
            pre.id_map().lemma_len_bounds();
            pre.deployment_store().id_map().lemma_len_bounds();
            pre.deployment_store().edition_map().lemma_len_bounds();
            pre.deployment_store().reverse_id_map().lemma_len_bounds();
            pre.deployment_store().owner_map().lemma_len_bounds();
            pre.deployment_store().program_map().lemma_len_bounds();
            pre.deployment_store().verifying_key_map().lemma_len_bounds();
            pre.deployment_store().certificate_map().lemma_len_bounds();
            pre.deployment_store().fee_map().lemma_len_bounds();
            pre.deployment_store().reverse_fee_map().lemma_len_bounds();
            pre.deployment_store().transition_store().transitions().lemma_len_bounds();
            pre.execution_store().id_map().lemma_len_bounds();
            pre.execution_store().reverse_id_map().lemma_len_bounds();
            pre.execution_store().edition_map().lemma_len_bounds();
            pre.execution_store().transition_store().transitions().lemma_len_bounds();
            if !pre.in_batch() {
                pre.id_map().lemma_wf_idle();
                pre.deployment_store().id_map().lemma_wf_idle();
                pre.deployment_store().edition_map().lemma_wf_idle();
                pre.deployment_store().reverse_id_map().lemma_wf_idle();
                pre.deployment_store().owner_map().lemma_wf_idle();
                pre.deployment_store().program_map().lemma_wf_idle();
                pre.deployment_store().verifying_key_map().lemma_wf_idle();
                pre.deployment_store().certificate_map().lemma_wf_idle();
                pre.deployment_store().fee_map().lemma_wf_idle();
                pre.deployment_store().reverse_fee_map().lemma_wf_idle();
                pre.deployment_store().transition_store().transitions().lemma_wf_idle();
                pre.execution_store().id_map().lemma_wf_idle();
                pre.execution_store().reverse_id_map().lemma_wf_idle();
                pre.execution_store().edition_map().lemma_wf_idle();
                pre.execution_store().transition_store().transitions().lemma_wf_idle();
            }
            assert(snap.id_map().speculative() =~= pre.id_map().speculative());
            assert(snap.deployment_store().id_map().speculative() =~= pre.deployment_store().id_map().speculative());
            assert(snap.deployment_store().edition_map().speculative() =~= pre.deployment_store().edition_map().speculative());
            assert(snap.deployment_store().reverse_id_map().speculative() =~= pre.deployment_store().reverse_id_map().speculative());
            assert(snap.deployment_store().owner_map().speculative() =~= pre.deployment_store().owner_map().speculative());
            assert(snap.deployment_store().program_map().speculative() =~= pre.deployment_store().program_map().speculative());
            assert(snap.deployment_store().verifying_key_map().speculative() =~= pre.deployment_store().verifying_key_map().speculative());
            assert(snap.deployment_store().certificate_map().speculative() =~= pre.deployment_store().certificate_map().speculative());
            assert(snap.deployment_store().fee_map().speculative() =~= pre.deployment_store().fee_map().speculative());
            assert(snap.deployment_store().reverse_fee_map().speculative() =~= pre.deployment_store().reverse_fee_map().speculative());
            assert(snap.deployment_store().transition_store().transitions().speculative()
                =~= pre.deployment_store().transition_store().transitions().speculative());
            assert(snap.execution_store().id_map().speculative() =~= pre.execution_store().id_map().speculative());
            assert(snap.execution_store().reverse_id_map().speculative() =~= pre.execution_store().reverse_id_map().speculative());
            assert(snap.execution_store().edition_map().speculative() =~= pre.execution_store().edition_map().speculative());
            assert(snap.execution_store().transition_store().transitions().speculative()
                =~= pre.execution_store().transition_store().transitions().speculative());
        }
        match result {
            Ok(()) => {
                // Commit the batch only when this call opened it.
                if !nested {
                    self.finish_atomic()?;
                }
                proof {
                    let pre = *old(self);
                    if pre.in_batch() {
                        assert(self.id_map().pending().take(pre.id_map().pending().len() as int)
                            =~= pre.id_map().pending());
                    }
                }
                Ok(())
            }
            Err(err) => {
                // The forward failed its own lookups: rewind this scope,
                // leaving the batch open with everything staged before it
                // intact.
                self.atomic_rewind();
                proof {
                    let pre = *old(self);
                    assert(self.id_map().pending() =~= pre.id_map().pending());
                    assert(self.deployment_store().id_map().pending() =~= pre.deployment_store().id_map().pending());
                    assert(self.deployment_store().edition_map().pending() =~= pre.deployment_store().edition_map().pending());
                    assert(self.deployment_store().reverse_id_map().pending() =~= pre.deployment_store().reverse_id_map().pending());
                    assert(self.deployment_store().owner_map().pending() =~= pre.deployment_store().owner_map().pending());
                    assert(self.deployment_store().program_map().pending() =~= pre.deployment_store().program_map().pending());
                    assert(self.deployment_store().verifying_key_map().pending() =~= pre.deployment_store().verifying_key_map().pending());
                    assert(self.deployment_store().certificate_map().pending() =~= pre.deployment_store().certificate_map().pending());
                    assert(self.deployment_store().fee_map().pending() =~= pre.deployment_store().fee_map().pending());
                    assert(self.deployment_store().reverse_fee_map().pending() =~= pre.deployment_store().reverse_fee_map().pending());
                    assert(self.deployment_store().transition_store().transitions().pending()
                        =~= pre.deployment_store().transition_store().transitions().pending());
                    assert(self.execution_store().id_map().pending() =~= pre.execution_store().id_map().pending());
                    assert(self.execution_store().reverse_id_map().pending() =~= pre.execution_store().reverse_id_map().pending());
                    assert(self.execution_store().edition_map().pending() =~= pre.execution_store().edition_map().pending());
                    assert(self.execution_store().transition_store().transitions().pending()
                        =~= pre.execution_store().transition_store().transitions().pending());
                    if pre.in_batch() {
                        assert(self.id_map().marks() =~= pre.id_map().marks());
                        assert(self.deployment_store().id_map().marks() =~= pre.deployment_store().id_map().marks());
                        assert(self.deployment_store().edition_map().marks() =~= pre.deployment_store().edition_map().marks());
                        assert(self.deployment_store().reverse_id_map().marks() =~= pre.deployment_store().reverse_id_map().marks());
                        assert(self.deployment_store().owner_map().marks() =~= pre.deployment_store().owner_map().marks());
                        assert(self.deployment_store().program_map().marks() =~= pre.deployment_store().program_map().marks());
                        assert(self.deployment_store().verifying_key_map().marks() =~= pre.deployment_store().verifying_key_map().marks());
                        assert(self.deployment_store().certificate_map().marks() =~= pre.deployment_store().certificate_map().marks());
                        assert(self.deployment_store().fee_map().marks() =~= pre.deployment_store().fee_map().marks());
                        assert(self.deployment_store().reverse_fee_map().marks() =~= pre.deployment_store().reverse_fee_map().marks());
                        assert(self.deployment_store().transition_store().transitions().marks()
                            =~= pre.deployment_store().transition_store().transitions().marks());
                        assert(self.execution_store().id_map().marks() =~= pre.execution_store().id_map().marks());
                        assert(self.execution_store().reverse_id_map().marks() =~= pre.execution_store().reverse_id_map().marks());
                        assert(self.execution_store().edition_map().marks() =~= pre.execution_store().edition_map().marks());
                        assert(self.execution_store().transition_store().transitions().marks()
                            =~= pre.execution_store().transition_store().transitions().marks());
                    }
                }
                Err(err)
            }
        }
    }

    /// The transaction for the given transaction id, whichever kind it is.
    /// An absent kind tag means the transaction is simply not stored.
    pub fn get_transaction(&self, transaction_id: &TransactionId) -> (r: Result<
        Option<Transaction>,
        StoreError,
    >)
        requires
            self.wf(),
        ensures
            (if !self.id_map().confirmed().dom().contains(*transaction_id) {
                r == Result::<Option<Transaction>, StoreError>::Ok(None)
            } else {
                match self.id_map().confirmed()[*transaction_id] {
                    TransactionType::Deploy => self.deployment_store().get_transaction_post(
                        *transaction_id,
                        r,
                    ),
                    TransactionType::Execute => self.execution_store().get_transaction_post(
                        *transaction_id,
                        r,
                    ),
                }
            }),
    {
        match self.id_map.get_confirmed(transaction_id) {
            Some(TransactionType::Deploy) => self.deployment_store.get_transaction(transaction_id),
            Some(TransactionType::Execute) => self.execution_store.get_transaction(transaction_id),
            None => Ok(None),
        }
    }

    /// The deployment for the given transaction id. Asking for an execute
    /// transaction's deployment is the wrong kind of request.
    pub fn get_deployment(&self, transaction_id: &TransactionId) -> (r: Result<
        Option<Deployment>,
        StoreError,
    >)
        requires
            self.wf(),
        ensures
            (if !self.id_map().confirmed().dom().contains(*transaction_id) {
                r == Result::<Option<Deployment>, StoreError>::Err(StoreError::NotFound)
            } else {
                match self.id_map().confirmed()[*transaction_id] {
                    TransactionType::Deploy => self.deployment_store().get_deployment_post(
                        *transaction_id,
                        r,
                    ),
                    TransactionType::Execute => r == Result::<Option<Deployment>, StoreError>::Err(
                        StoreError::WrongKind,
                    ),
                }
            }),
    {
        match self.id_map.get_confirmed(transaction_id) {
            Some(TransactionType::Deploy) => self.deployment_store.get_deployment(transaction_id),
            Some(TransactionType::Execute) => Err(StoreError::WrongKind),
            None => Err(StoreError::NotFound),
        }
    }

    /// The execution for the given transaction id. Asking for a deploy
    /// transaction's execution is the wrong kind of request.
    pub fn get_execution(&self, transaction_id: &TransactionId) -> (r: Result<
        Option<Execution>,
        StoreError,
    >)
        requires
            self.wf(),
        ensures
            (if !self.id_map().confirmed().dom().contains(*transaction_id) {
                r == Result::<Option<Execution>, StoreError>::Err(StoreError::NotFound)
            } else {
                match self.id_map().confirmed()[*transaction_id] {
                    TransactionType::Deploy => r == Result::<Option<Execution>, StoreError>::Err(
                        StoreError::WrongKind,
                    ),
                    TransactionType::Execute => self.execution_store().get_execution_post(
                        *transaction_id,
                        r,
                    ),
                }
            }),
    {
        match self.id_map.get_confirmed(transaction_id) {
            Some(TransactionType::Deploy) => Err(StoreError::WrongKind),
            Some(TransactionType::Execute) => self.execution_store.get_execution(transaction_id),
            None => Err(StoreError::NotFound),
        }
    }

    /// The edition of the given transaction: for a deploy transaction, the
    /// deployed program's edition; for an execute transaction, the
    /// execution's.
    pub fn get_edition(&self, transaction_id: &TransactionId) -> (r: Result<Option<u16>, StoreError>)
        requires
            self.wf(),
        ensures
            (if !self.id_map().confirmed().dom().contains(*transaction_id) {
                r == Result::<Option<u16>, StoreError>::Err(StoreError::NotFound)
            } else {
                match self.id_map().confirmed()[*transaction_id] {
                    TransactionType::Deploy => {
                        if !self.deployment_store().id_map().confirmed().dom().contains(
                            *transaction_id,
                        ) {
                            r == Result::<Option<u16>, StoreError>::Err(StoreError::Corrupt)
                        } else {
                            {
                                let pid = self.deployment_store().id_map().confirmed()[*transaction_id];
                                r == Result::<Option<u16>, StoreError>::Ok(
                                    (if self.deployment_store().edition_map().confirmed().dom().contains(
                                        pid,
                                    ) {
                                        Some(
                                            self.deployment_store().edition_map().confirmed()[pid],
                                        )
                                    } else {
                                        None
                                    }),
                                )
                            }
                        }
                    },
                    TransactionType::Execute => r == Result::<Option<u16>, StoreError>::Ok(
                        (if self.execution_store().edition_map().confirmed().dom().contains(
                            *transaction_id,
                        ) {
                            Some(self.execution_store().edition_map().confirmed()[*transaction_id])
                        } else {
                            None
                        }),
                    ),
                }
            }),
    {
        match self.id_map.get_confirmed(transaction_id) {
            Some(TransactionType::Deploy) => {
                let program_id = match self.deployment_store.get_program_id(transaction_id)? {
                    Some(pid) => pid,
                    None => {
                        return Err(StoreError::Corrupt);
                    }
                };
                self.deployment_store.get_edition(&program_id)
            }
            Some(TransactionType::Execute) => self.execution_store.get_edition(transaction_id),
            None => Err(StoreError::NotFound),
        }
    }

    /// The fee transition of the given transaction: a deploy transaction's
    /// fee transition, or an execute transaction's optional fee.
    pub fn get_additional_fee(&self, transaction_id: &TransactionId) -> (r: Result<
        Option<AdditionalFee>,
        StoreError,
    >)
        requires
            self.wf(),
        ensures
            (if !self.id_map().confirmed().dom().contains(*transaction_id) {
                r == Result::<Option<AdditionalFee>, StoreError>::Err(StoreError::NotFound)
            } else {
                match self.id_map().confirmed()[*transaction_id] {
                    TransactionType::Deploy => {
                        match r {
                            Ok(None) => !self.deployment_store().fee_map().confirmed().dom().contains(
                                *transaction_id,
                            ),
                            Ok(Some(t)) => self.deployment_store().fee_present(*transaction_id) && t
                                == self.deployment_store().reconstructed_fee(
                                *transaction_id,
                            ).transition,
                            Err(err) => err == StoreError::Corrupt
                                && self.deployment_store().fee_map().confirmed().dom().contains(
                                *transaction_id,
                            ) && !self.deployment_store().fee_present(*transaction_id),
                        }
                    },
                    TransactionType::Execute => self.execution_store().get_additional_fee_post(
                        *transaction_id,
                        r,
                    ),
                }
            }),
    {
        match self.id_map.get_confirmed(transaction_id) {
            Some(TransactionType::Deploy) => {
                match self.deployment_store.get_fee(transaction_id)? {
                    Some(fee) => Ok(Some(fee.transition)),
                    None => Ok(None),
                }
            }
            Some(TransactionType::Execute) => self.execution_store.get_additional_fee(
                transaction_id,
            ),
            None => Err(StoreError::NotFound),
        }
    }

    /// The transaction id that recorded the given transition id in an
    /// execution, if any.
    pub fn find_transaction_id(&self, transition_id: &TransitionId) -> (r: Result<
        Option<TransactionId>,
        StoreError,
    >)
        requires
            self.wf(),
        ensures
            r == Result::<Option<TransactionId>, StoreError>::Ok(
                (if self.execution_store().reverse_id_map().confirmed().dom().contains(
                    *transition_id,
                ) {
                    Some(self.execution_store().reverse_id_map().confirmed()[*transition_id])
                } else {
                    None
                }),
            ),
    {
        self.execution_store.find_transaction_id(transition_id)
    }

    /// The transaction id that deployed the given program id, if any.
    pub fn find_deployment_id(&self, program_id: &crate::types::ProgramId) -> (r: Result<
        Option<TransactionId>,
        StoreError,
    >)
        requires
            self.wf(),
        ensures
            (match r {
                Ok(None) => !self.deployment_store().edition_map().confirmed().dom().contains(
                    *program_id,
                ),
                Ok(Some(tx)) => {
                    &&& self.deployment_store().edition_map().confirmed().dom().contains(*program_id)
                    &&& self.deployment_store().reverse_id_map().confirmed().dom().contains(
                        self.deployment_store().current_key(*program_id),
                    )
                    &&& tx == self.deployment_store().reverse_id_map().confirmed()[self.deployment_store().current_key(
                        *program_id,
                    )]
                },
                Err(err) => {
                    &&& err == StoreError::Corrupt
                    &&& self.deployment_store().edition_map().confirmed().dom().contains(*program_id)
                    &&& !self.deployment_store().reverse_id_map().confirmed().dom().contains(
                        self.deployment_store().current_key(*program_id),
                    )
                },
            }),
    {
        self.deployment_store.find_transaction_id_from_program_id(program_id)
    }

    /// Every stored transaction id, in the confirmed state's order.
    pub fn transaction_ids(&self) -> (r: Vec<TransactionId>)
        requires
            self.wf(),
        ensures
            r@ == self.id_map().entries().map_values(|p: (TransactionId, TransactionType)| p.0),
    {
        self.id_map.keys_confirmed()
    }

    /// Whether the given transaction id is stored.
    pub fn contains_transaction_id(&self, transaction_id: &TransactionId) -> (r: Result<
        bool,
        StoreError,
    >)
        requires
            self.wf(),
        ensures
            r == Result::<bool, StoreError>::Ok(
                self.id_map().confirmed().dom().contains(*transaction_id),
            ),
    {
        Ok(self.id_map.contains_key_confirmed(transaction_id))
    }

    /// Opens the one top-level finalize batch. Opening one while any batch
    /// is already in progress is a usage violation and changes nothing.
    pub fn atomic_finalize_begin(&mut self) -> (r: Result<(), StoreError>)
        requires
            old(self).wf(),
        ensures
            final(self).wf(),
            (if old(self).in_batch() {
                r == Result::<(), StoreError>::Err(StoreError::UsageViolation) && *final(self)
                    == *old(self)
            } else {
                &&& r == Result::<(), StoreError>::Ok(())
                &&& final(self).in_batch()
                &&& final(self).kind_cleared(*old(self))
                &&& final(self).deployment_store().batch_cleared(old(self).deployment_store())
                &&& final(self).execution_store().batch_cleared(old(self).execution_store())
            }),
    {
        if self.is_atomic_in_progress() {
            return Err(StoreError::UsageViolation);
        }
        self.start_atomic();
        Ok(())
    }
}

} // verus!
