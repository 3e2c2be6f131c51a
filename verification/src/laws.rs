//! The crate-wide guarantees that relate several operations: round trips
//! through insert, lookup and removal; index consistency; the speculative
//! view; and the isolation properties of checkpoints, rewinds and nested
//! scopes.
//!
//! Each law is a proof function whose premises are the contracts of the
//! operations it chains, stated over the stores' public views, so it holds
//! of every run of those operations.

use vstd::prelude::*;
use crate::deployment::{
    DeploymentStore, lemma_staged_certificates_at, lemma_staged_verifying_keys_at,
};
use crate::execution::{
    ExecutionStore, lemma_removed_reverse_ids_at, lemma_staged_reverse_ids_at,
    lemma_staged_transitions_at,
};
use crate::kv::{KvMap, apply_ops, last_write, lemma_apply_last_write, lemma_apply_push};
use crate::transaction::TransactionStore;
use crate::types::{
    DeploymentData, ExecutionData, Fee, FunctionKey, ProgramEdition, ProgramOwner, Transaction,
    TransactionData, TransactionId, Transition, TransactionType,
};
use crate::errors::StoreError;

verus! {

/// While a batch is open and its last staged write for a key is an insert,
/// the speculative view returns that value, whatever the confirmed state
/// holds. After a commit the two views agree, and after an abort both read
/// the confirmed state: those are the contracts of `finish_atomic` and
/// `abort_atomic`.
pub proof fn lemma_speculative_overrides<K, V>(m: KvMap<K, V>, k: K, v: V)
    requires
        last_write(m.pending(), k) == Some(Some(v)),
    ensures
        m.speculative().dom().contains(k),
        m.speculative()[k] == v,
{
    lemma_apply_last_write(m.confirmed(), m.pending(), k);
}

/// Rewind isolation: open a batch, stage one insert, checkpoint, stage a
/// second insert, rewind. Only the first staged write remains, so a commit
/// from here confirms the first binding alone.
pub proof fn lemma_rewind_isolation<K, V>(
    s0: KvMap<K, V>,
    s1: KvMap<K, V>,
    s2: KvMap<K, V>,
    s3: KvMap<K, V>,
    s4: KvMap<K, V>,
    s5: KvMap<K, V>,
    k1: K,
    v1: V,
    k2: K,
    v2: V,
)
    requires
        s0.wf(),
        !s0.in_batch(),
        // after start_atomic
        s1.entries() == s0.entries(),
        s1.pending() == Seq::<(K, Option<V>)>::empty(),
        s1.marks() == Seq::<usize>::empty(),
        // after insert(k1, v1)
        s2.entries() == s1.entries(),
        s2.pending() == s1.pending().push((k1, Some(v1))),
        s2.marks() == s1.marks(),
        // after atomic_checkpoint
        s3.entries() == s2.entries(),
        s3.pending() == s2.pending(),
        s3.marks() == s2.marks().push(s2.pending().len() as usize),
        // after insert(k2, v2)
        s4.entries() == s3.entries(),
        s4.pending() == s3.pending().push((k2, Some(v2))),
        s4.marks() == s3.marks(),
        // after atomic_rewind
        s5.entries() == s4.entries(),
        s5.pending() == s4.pending().take(
            (if s4.marks().len() > 0 {
                s4.marks().last() as int
            } else {
                0
            }),
        ),
    ensures
        s5.pending() == s2.pending(),
        s5.speculative() == s0.confirmed().insert(k1, v1),
{
    assert(s4.marks().last() == 1);
    assert(s5.pending() =~= s2.pending());
    lemma_apply_push(s5.confirmed(), s1.pending(), k1, Some(v1));
}

/// A nested scope that fails rewinds exactly its own staged writes: after
/// the scope's checkpoint, any sequence of staged writes, and the rewind,
/// the batch and both views stand as they did before the scope.
pub proof fn lemma_nested_scope_rewind<K, V>(
    s0: KvMap<K, V>,
    s1: KvMap<K, V>,
    s2: KvMap<K, V>,
    s3: KvMap<K, V>,
    ws: Seq<(K, Option<V>)>,
)
    requires
        s0.in_batch(),
        // after atomic_checkpoint, entering the scope
        s1.entries() == s0.entries(),
        s1.pending() == s0.pending(),
        s1.marks() == s0.marks().push(s0.pending().len() as usize),
        // after the scope staged its writes
        s2.entries() == s1.entries(),
        s2.pending() == s1.pending() + ws,
        s2.marks() == s1.marks(),
        // after atomic_rewind, leaving the failed scope
        s3.entries() == s2.entries(),
        s3.pending() == s2.pending().take(
            (if s2.marks().len() > 0 {
                s2.marks().last() as int
            } else {
                0
            }),
        ),
        s3.marks() == (if s2.marks().len() > 0 {
            s2.marks().drop_last()
        } else {
            s2.marks()
        }),
        s0.pending().len() <= usize::MAX,
    ensures
        s3.pending() == s0.pending(),
        s3.marks() == s0.marks(),
        s3.confirmed() == s0.confirmed(),
        s3.speculative() == s0.speculative(),
{
    assert(s2.marks().last() == s0.pending().len());
    assert(s3.pending() =~= s0.pending());
    assert(s3.marks() =~= s0.marks());
}

/// A nested scope that succeeds contributes its staged writes to the one
/// enclosing commit: applying the outer writes and then the inner ones is
/// applying their concatenation as a single batch.
pub proof fn lemma_nested_scope_commit<K, V>(
    m: Map<K, V>,
    outer: Seq<(K, Option<V>)>,
    inner: Seq<(K, Option<V>)>,
)
    ensures
        apply_ops(m, outer + inner) == apply_ops(apply_ops(m, outer), inner),
{
    crate::kv::lemma_apply_append(m, outer, inner);
}

/// Readback of the per-function maps: after the staged inserts of an
/// ordered deployment, each function's key holds exactly its verifying key
/// and certificate.
proof fn lemma_function_keys_readback(
    vkm: Map<FunctionKey, crate::types::VerifyingKey>,
    cm: Map<FunctionKey, crate::types::Certificate>,
    pid: crate::types::ProgramId,
    ed: u16,
    vks: Seq<(crate::types::Identifier, (crate::types::VerifyingKey, crate::types::Certificate))>,
    fns: Seq<crate::types::Identifier>,
)
    requires
        vks.len() == fns.len(),
        forall|i: int| 0 <= i < vks.len() ==> vks[i].0 == fns[i],
        forall|i: int, j: int| 0 <= i < j < fns.len() ==> fns[i] != fns[j],
    ensures
        forall|j: int| #![trigger fns[j]]
            0 <= j < fns.len() ==> {
                let fk = FunctionKey { program: pid, function: fns[j], edition: ed };
                &&& crate::deployment::staged_verifying_keys(vkm, pid, ed, vks).dom().contains(fk)
                &&& crate::deployment::staged_verifying_keys(vkm, pid, ed, vks)[fk] == vks[j].1.0
                &&& crate::deployment::staged_certificates(cm, pid, ed, vks).dom().contains(fk)
                &&& crate::deployment::staged_certificates(cm, pid, ed, vks)[fk] == vks[j].1.1
            },
{
    assert forall|i: int, j: int| 0 <= i < j < vks.len() implies vks[i].0 != vks[j].0 by {
        assert(vks[i].0 == fns[i]);
        assert(vks[j].0 == fns[j]);
    }
    assert forall|j: int| #![trigger fns[j]] 0 <= j < fns.len() implies {
        let fk = FunctionKey { program: pid, function: fns[j], edition: ed };
        &&& crate::deployment::staged_verifying_keys(vkm, pid, ed, vks).dom().contains(fk)
        &&& crate::deployment::staged_verifying_keys(vkm, pid, ed, vks)[fk] == vks[j].1.0
        &&& crate::deployment::staged_certificates(cm, pid, ed, vks).dom().contains(fk)
        &&& crate::deployment::staged_certificates(cm, pid, ed, vks)[fk] == vks[j].1.1
    } by {
        let fk = FunctionKey { program: pid, function: fns[j], edition: ed };
        assert(vks[j].0 == fns[j]);
        assert(fk == (FunctionKey { program: pid, function: vks[j].0, edition: ed }));
        lemma_staged_verifying_keys_at(vkm, pid, ed, vks, fk);
        lemma_staged_certificates_at(cm, pid, ed, vks, fk);
        let i = choose|i: int|
            0 <= i < vks.len() && fk == (FunctionKey { program: pid, function: vks[i].0, edition: ed });
        assert(vks[i].0 == fns[i]);
        assert(fns[i] == fns[j]);
        if i != j {
            assert(false);
        }
    }
}

/// Insert–get round trip for a deploy transaction: a well-formed deploy
/// transaction inserted and committed on a store that held no batch is
/// reconstructed exactly, so `get_transaction` must return it.
#[verifier::rlimit(100)]
pub proof fn lemma_deploy_round_trip(
    pre: DeploymentStore,
    post: DeploymentStore,
    tx: TransactionId,
    owner: ProgramOwner,
    d: DeploymentData,
    fee: Fee,
)
    requires
        pre.wf(),
        !pre.in_batch(),
        d.is_ordered(),
        TransactionData::Deploy(tx, owner, d, fee).wf(),
        post.views_after_insert(pre, tx, owner, d, fee),
        post.committed_state(pre),
    ensures
        post.id_map().confirmed().dom().contains(tx),
        post.deployment_present(tx),
        post.fee_present(tx),
        post.owner_present(tx),
        post.reconstructed_deployment(tx) == d,
        post.reconstructed_owner(tx) == owner,
        post.reconstructed_fee(tx) == fee,
        forall|r: Result<Option<Transaction>, StoreError>|
            post.get_transaction_post(tx, r) ==> (match r {
                Ok(Some(t)) => t@ == TransactionData::Deploy(tx, owner, d, fee),
                _ => false,
            }),
        post.edition_map().confirmed().dom().contains(d.program.id),
        post.reverse_id_map().confirmed().dom().contains(
            ProgramEdition { program: d.program.id, edition: d.edition },
        ),
        post.reverse_id_map().confirmed()[ProgramEdition {
            program: d.program.id,
            edition: d.edition,
        }] == tx,
{
    pre.id_map().lemma_wf_idle();
    pre.edition_map().lemma_wf_idle();
    pre.reverse_id_map().lemma_wf_idle();
    pre.owner_map().lemma_wf_idle();
    pre.program_map().lemma_wf_idle();
    pre.verifying_key_map().lemma_wf_idle();
    pre.certificate_map().lemma_wf_idle();
    pre.fee_map().lemma_wf_idle();
    pre.reverse_fee_map().lemma_wf_idle();
    pre.transition_store().transitions().lemma_wf_idle();
    let pid = d.program.id;
    let ed = d.edition;
    let pe = ProgramEdition { program: pid, edition: ed };
    assert(post.id_map().confirmed() == post.id_map().speculative());
    assert(post.id_map().confirmed()[tx] == pid);
    assert(post.edition_map().confirmed()[pid] == ed);
    assert(post.program_map().confirmed()[pe]@ == d.program);
    let fns = post.program_map().confirmed()[pe]@.functions;
    assert(fns == d.program.functions);
    // Each function's verifying key and certificate reads back as the
    // deployment recorded it.
    lemma_function_keys_readback(
        pre.verifying_key_map().speculative(),
        pre.certificate_map().speculative(),
        pid,
        ed,
        d.verifying_keys,
        fns,
    );
    assert(post.keys_complete(pid, ed, fns));
    assert forall|j: int| 0 <= j < fns.len() implies post.read_vks(pid, ed, fns)[j]
        == d.verifying_keys[j] by {
        let fk = FunctionKey { program: pid, function: fns[j], edition: ed };
        assert(post.read_vks(pid, ed, fns)[j] == (
            fns[j],
            (
                post.verifying_key_map().confirmed()[fk],
                post.certificate_map().confirmed()[fk],
            ),
        ));
        assert((d.verifying_keys[j].0, (d.verifying_keys[j].1.0, d.verifying_keys[j].1.1))
            == d.verifying_keys[j]);
    }
    assert(post.read_vks(pid, ed, fns) =~= d.verifying_keys);
    assert(post.reconstructed_deployment(tx) =~= d);
    // The fee reads back whole.
    assert(post.fee_map().confirmed()[tx] == (
        fee.transition.id,
        fee.global_state_root,
        fee.inclusion_proof,
    ));
    assert(post.transition_store().transitions().confirmed()[fee.transition.id] == fee.transition);
    assert(post.reconstructed_fee(tx) == fee);
    // The owner reads back at the program's current edition.
    assert(post.owner_map().confirmed()[pe] == owner);
    assert(post.reconstructed_owner(tx) == owner);
}

/// Get after remove for a deploy transaction: once the removal transforms
/// are committed, the transaction and its program index read back absent.
pub proof fn lemma_deploy_removed(pre: DeploymentStore, post: DeploymentStore, tx: TransactionId)
    requires
        pre.wf(),
        !pre.in_batch(),
        pre.id_map().confirmed().dom().contains(tx),
        post.views_after_remove(pre, tx),
        post.committed_state(pre),
    ensures
        !post.id_map().confirmed().dom().contains(tx),
        !post.edition_map().confirmed().dom().contains(pre.id_map().confirmed()[tx]),
        forall|r: Result<Option<Transaction>, StoreError>|
            post.get_transaction_post(tx, r) ==> r == Result::<Option<Transaction>, StoreError>::Ok(
                None,
            ),
{
    pre.id_map().lemma_wf_idle();
    pre.edition_map().lemma_wf_idle();
    assert(post.id_map().confirmed() == post.id_map().speculative());
    assert(!post.id_map().confirmed().dom().contains(tx));
}

/// Index consistency for deployments: after an insert of a deploy
/// transaction is committed, the program id finds the transaction id; see
/// the final clauses of [`lemma_deploy_round_trip`]. After the removal is
/// committed, the program's edition entry is gone, so the index reads
/// absent; that is the second clause of [`lemma_deploy_removed`].
pub proof fn lemma_deploy_index(
    pre: DeploymentStore,
    post: DeploymentStore,
    tx: TransactionId,
    owner: ProgramOwner,
    d: DeploymentData,
    fee: Fee,
)
    requires
        pre.wf(),
        !pre.in_batch(),
        d.is_ordered(),
        TransactionData::Deploy(tx, owner, d, fee).wf(),
        post.views_after_insert(pre, tx, owner, d, fee),
        post.committed_state(pre),
    ensures
        post.edition_map().confirmed().dom().contains(d.program.id),
        post.current_key(d.program.id) == (ProgramEdition {
            program: d.program.id,
            edition: d.edition,
        }),
        post.reverse_id_map().confirmed()[post.current_key(d.program.id)] == tx,
{
    lemma_deploy_round_trip(pre, post, tx, owner, d, fee);
}

/// Insert–get round trip and transition reverse index for an execute
/// transaction: a well-formed execute transaction inserted and committed on
/// a store that held no batch is reconstructed exactly, and every one of
/// its transition ids, the optional fee's included, finds the transaction.
pub proof fn lemma_execute_round_trip(
    pre: ExecutionStore,
    post: ExecutionStore,
    tx: TransactionId,
    e: ExecutionData,
    fee: Option<Transition>,
)
    requires
        pre.wf(),
        !pre.in_batch(),
        TransactionData::Execute(tx, e, fee).wf(),
        post.views_after_insert(pre, tx, e, fee),
        post.committed_state(pre),
    ensures
        post.edition_map().confirmed().dom().contains(tx),
        post.id_map().confirmed().dom().contains(tx),
        post.stored_ids(tx) == (e.transition_ids(), ExecutionStore::fee_id_of(fee)),
        post.transitions_complete(e.transition_ids()),
        post.reconstructed_execution(tx) == e,
        post.reconstructed_fee(tx) == fee,
        forall|r: Result<Option<Transaction>, StoreError>|
            post.get_transaction_post(tx, r) ==> (match r {
                Ok(Some(t)) => t@ == TransactionData::Execute(tx, e, fee),
                _ => false,
            }),
        forall|j: int|
            0 <= j < e.transition_ids().len() ==> {
                &&& post.reverse_id_map().confirmed().dom().contains(#[trigger] e.transition_ids()[j])
                &&& post.reverse_id_map().confirmed()[e.transition_ids()[j]] == tx
            },
        (match fee {
            Some(f) => post.reverse_id_map().confirmed().dom().contains(f.id)
                && post.reverse_id_map().confirmed()[f.id] == tx,
            None => true,
        }),
{
    pre.id_map().lemma_wf_idle();
    pre.reverse_id_map().lemma_wf_idle();
    pre.edition_map().lemma_wf_idle();
    pre.transition_store().transitions().lemma_wf_idle();
    let tids = e.transition_ids();
    assert(post.id_map().confirmed() == post.id_map().speculative());
    assert(post.stored_ids(tx) == (tids, ExecutionStore::fee_id_of(fee)));
    assert(post.edition_map().confirmed()[tx] == e.edition);
    // The transition ids of the execution are pairwise distinct, and the
    // optional fee id differs from all of them.
    assert forall|i: int, j: int| 0 <= i < j < e.transitions.len() implies e.transitions[i].id
        != e.transitions[j].id by {}
    // Each transition reads back from the transition store.
    assert forall|j: int| 0 <= j < tids.len() implies {
        &&& post.transition_store().transitions().confirmed().dom().contains(#[trigger] tids[j])
        &&& post.transition_store().transitions().confirmed()[tids[j]] == e.transitions[j]
    } by {
        assert(tids[j] == e.transitions[j].id);
        lemma_staged_transitions_at(
            pre.transition_store().transitions().speculative(),
            e.transitions,
            tids[j],
        );
        let i = choose|i: int| 0 <= i < e.transitions.len() && e.transitions[i].id == tids[j];
        if i != j {
            assert(false);
        }
        match fee {
            Some(f) => {
                assert(e.transitions[j].id != f.id);
            }
            None => {}
        }
    }
    assert(post.transitions_complete(tids));
    assert forall|j: int| 0 <= j < tids.len() implies post.read_transitions(tids)[j]
        == e.transitions[j] by {
        assert(post.read_transitions(tids)[j]
            == post.transition_store().transitions().confirmed()[tids[j]]);
    }
    assert(post.read_transitions(tids) =~= e.transitions);
    assert(post.reconstructed_execution(tx) =~= e);
    // The optional fee transition reads back whole.
    match fee {
        Some(f) => {
            assert(post.transition_store().transitions().confirmed()[f.id] == f);
            assert(post.reconstructed_fee(tx) == Some(f));
        }
        None => {
            assert(post.reconstructed_fee(tx) == None::<Transition>);
        }
    }
    // Every transition id, the fee's included, finds the transaction.
    assert forall|j: int| 0 <= j < tids.len() implies {
        &&& post.reverse_id_map().confirmed().dom().contains(#[trigger] tids[j])
        &&& post.reverse_id_map().confirmed()[tids[j]] == tx
    } by {
        lemma_staged_reverse_ids_at(pre.reverse_id_map().speculative(), tids, tx, tids[j]);
        assert(tids.contains(tids[j]));
    }
    match fee {
        Some(f) => {}
        None => {}
    }
}

/// Get after remove and reverse-index teardown for an execute transaction:
/// once the removal transforms are committed, the transaction reads back
/// absent and none of its transition ids finds it any more.
pub proof fn lemma_execute_removed(pre: ExecutionStore, post: ExecutionStore, tx: TransactionId)
    requires
        pre.wf(),
        !pre.in_batch(),
        pre.id_map().confirmed().dom().contains(tx),
        post.views_after_remove(pre, tx),
        post.committed_state(pre),
    ensures
        !post.id_map().confirmed().dom().contains(tx),
        !post.edition_map().confirmed().dom().contains(tx),
        forall|r: Result<Option<Transaction>, StoreError>|
            post.get_transaction_post(tx, r) ==> r == Result::<Option<Transaction>, StoreError>::Ok(
                None,
            ),
        forall|j: int|
            0 <= j < pre.stored_ids(tx).0.len() ==> !post.reverse_id_map().confirmed().dom().contains(
                #[trigger] pre.stored_ids(tx).0[j],
            ),
        (match pre.stored_ids(tx).1 {
            Some(fid) => !post.reverse_id_map().confirmed().dom().contains(fid),
            None => true,
        }),
{
    pre.id_map().lemma_wf_idle();
    pre.reverse_id_map().lemma_wf_idle();
    pre.edition_map().lemma_wf_idle();
    pre.transition_store().transitions().lemma_wf_idle();
    let stored = pre.stored_ids(tx);
    let with_fee = (match stored.1 {
        Some(f) => stored.0.push(f),
        None => stored.0,
    });
    assert forall|j: int|
        0 <= j < stored.0.len() implies !post.reverse_id_map().confirmed().dom().contains(
        #[trigger] stored.0[j],
    ) by {
        lemma_removed_reverse_ids_at(pre.reverse_id_map().speculative(), with_fee, stored.0[j]);
        assert(with_fee[j] == stored.0[j]);
        assert(with_fee.contains(stored.0[j]));
    }
    match stored.1 {
        Some(fid) => {
            lemma_removed_reverse_ids_at(pre.reverse_id_map().speculative(), with_fee, fid);
            assert(with_fee.last() == fid);
            assert(with_fee.contains(fid));
        }
        None => {}
    }
}


/// Insert–get round trip through the dispatch layer for a deploy
/// transaction: a top-level insert tags the transaction as a deployment and
/// commits it, so the transaction store's own lookup must return it.
pub proof fn lemma_store_deploy_round_trip(
    pre: TransactionStore,
    post: TransactionStore,
    tx: TransactionId,
    owner: ProgramOwner,
    d: DeploymentData,
    fee: Fee,
)
    requires
        pre.wf(),
        !pre.in_batch(),
        d.is_ordered(),
        TransactionData::Deploy(tx, owner, d, fee).wf(),
        post.id_map().speculative() == pre.id_map().speculative().insert(
            tx,
            TransactionType::Deploy,
        ),
        post.id_map().confirmed() == post.id_map().speculative(),
        post.deployment_store().views_after_insert(pre.deployment_store(), tx, owner, d, fee),
        post.deployment_store().committed_state(pre.deployment_store()),
    ensures
        post.id_map().confirmed().dom().contains(tx),
        post.id_map().confirmed()[tx] == TransactionType::Deploy,
        forall|r: Result<Option<Transaction>, StoreError>|
            post.deployment_store().get_transaction_post(tx, r) ==> (match r {
                Ok(Some(t)) => t@ == TransactionData::Deploy(tx, owner, d, fee),
                _ => false,
            }),
{
    pre.id_map().lemma_wf_idle();
    lemma_deploy_round_trip(pre.deployment_store(), post.deployment_store(), tx, owner, d, fee);
}

/// Insert–get round trip through the dispatch layer for an execute
/// transaction, in the same way.
pub proof fn lemma_store_execute_round_trip(
    pre: TransactionStore,
    post: TransactionStore,
    tx: TransactionId,
    e: ExecutionData,
    fee: Option<Transition>,
)
    requires
        pre.wf(),
        !pre.in_batch(),
        TransactionData::Execute(tx, e, fee).wf(),
        post.id_map().speculative() == pre.id_map().speculative().insert(
            tx,
            TransactionType::Execute,
        ),
        post.id_map().confirmed() == post.id_map().speculative(),
        post.execution_store().views_after_insert(pre.execution_store(), tx, e, fee),
        post.execution_store().committed_state(pre.execution_store()),
    ensures
        post.id_map().confirmed().dom().contains(tx),
        post.id_map().confirmed()[tx] == TransactionType::Execute,
        forall|r: Result<Option<Transaction>, StoreError>|
            post.execution_store().get_transaction_post(tx, r) ==> (match r {
                Ok(Some(t)) => t@ == TransactionData::Execute(tx, e, fee),
                _ => false,
            }),
{
    pre.id_map().lemma_wf_idle();
    lemma_execute_round_trip(pre.execution_store(), post.execution_store(), tx, e, fee);
}

} // verus!
