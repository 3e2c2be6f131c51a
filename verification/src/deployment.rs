//! The deployment schema: nine maps plus the transition store, kept
//! mutually consistent by the batch protocol.
//!
//! A deploy transaction decomposes into: the program id under the
//! transaction id; the edition under the program id; a reverse index from
//! program and edition back to the transaction id; the owner, the program,
//! and a verifying key and certificate per program function; the fee record
//! under the transaction id; a reverse index from the fee transition id;
//! and the fee transition stored in the transition store.

use vstd::prelude::*;
use crate::errors::StoreError;
use crate::kv::KvMap;
use crate::transition_store::TransitionStore;
use crate::types::{
    Certificate, Deployment, DeploymentData, Fee, FunctionKey, Identifier, Program,
    ProgramEdition, ProgramId, ProgramOwner, Proof, StateRoot, Transaction, TransactionData,
    TransactionId, Transition, TransitionId, VerifyingKey, deploy_content_id,
};

verus! {

/// The verifying key map after recording one entry per verifying key of a
/// deployment, in order.
pub open spec fn staged_verifying_keys(
    m: Map<FunctionKey, VerifyingKey>,
    pid: ProgramId,
    edition: u16,
    vks: Seq<(Identifier, (VerifyingKey, Certificate))>,
) -> Map<FunctionKey, VerifyingKey>
    decreases vks.len(),
{
    if vks.len() == 0 {
        m
    } else {
        staged_verifying_keys(m, pid, edition, vks.drop_last()).insert(
            FunctionKey { program: pid, function: vks.last().0, edition },
            vks.last().1.0,
        )
    }
}

/// The certificate map after recording one entry per certificate of a
/// deployment, in order.
pub open spec fn staged_certificates(
    m: Map<FunctionKey, Certificate>,
    pid: ProgramId,
    edition: u16,
    vks: Seq<(Identifier, (VerifyingKey, Certificate))>,
) -> Map<FunctionKey, Certificate>
    decreases vks.len(),
{
    if vks.len() == 0 {
        m
    } else {
        staged_certificates(m, pid, edition, vks.drop_last()).insert(
            FunctionKey { program: pid, function: vks.last().0, edition },
            vks.last().1.1,
        )
    }
}

/// A per-function map after dropping the key of every given function name,
/// in order.
pub open spec fn removed_function_keys<V>(
    m: Map<FunctionKey, V>,
    pid: ProgramId,
    edition: u16,
    fns: Seq<Identifier>,
) -> Map<FunctionKey, V>
    decreases fns.len(),
{
    if fns.len() == 0 {
        m
    } else {
        removed_function_keys(m, pid, edition, fns.drop_last()).remove(
            FunctionKey { program: pid, function: fns.last(), edition },
        )
    }
}

/// What [`staged_verifying_keys`] holds at one key: the verifying key of
/// the matching entry where the function names are pairwise distinct, the
/// old binding elsewhere.
pub proof fn lemma_staged_verifying_keys_at(
    m: Map<FunctionKey, VerifyingKey>,
    pid: ProgramId,
    edition: u16,
    vks: Seq<(Identifier, (VerifyingKey, Certificate))>,
    k: FunctionKey,
)
    requires
        forall|i: int, j: int| 0 <= i < j < vks.len() ==> vks[i].0 != vks[j].0,
    ensures
        (if exists|i: int|
            0 <= i < vks.len() && k == (FunctionKey { program: pid, function: vks[i].0, edition }) {
            {
                let i = choose|i: int|
                    0 <= i < vks.len() && k == (FunctionKey {
                        program: pid,
                        function: vks[i].0,
                        edition,
                    });
                staged_verifying_keys(m, pid, edition, vks).dom().contains(k)
                    && staged_verifying_keys(m, pid, edition, vks)[k] == vks[i].1.0
            }
        } else {
            (staged_verifying_keys(m, pid, edition, vks).dom().contains(k) <==> m.dom().contains(k))
                && (m.dom().contains(k) ==> staged_verifying_keys(m, pid, edition, vks)[k] == m[k])
        }),
    decreases vks.len(),
{
    if vks.len() > 0 {
        lemma_staged_verifying_keys_at(m, pid, edition, vks.drop_last(), k);
        if exists|i: int|
            0 <= i < vks.len() && k == (FunctionKey { program: pid, function: vks[i].0, edition }) {
            let i = choose|i: int|
                0 <= i < vks.len() && k == (FunctionKey { program: pid, function: vks[i].0, edition });
            if i < vks.len() - 1 {
                assert(vks.drop_last()[i] == vks[i]);
                assert(vks.last().0 != vks[i].0);
            }
        }
    }
}

/// What [`staged_certificates`] holds at one key, in the same way.
pub proof fn lemma_staged_certificates_at(
    m: Map<FunctionKey, Certificate>,
    pid: ProgramId,
    edition: u16,
    vks: Seq<(Identifier, (VerifyingKey, Certificate))>,
    k: FunctionKey,
)
    requires
        forall|i: int, j: int| 0 <= i < j < vks.len() ==> vks[i].0 != vks[j].0,
    ensures
        (if exists|i: int|
            0 <= i < vks.len() && k == (FunctionKey { program: pid, function: vks[i].0, edition }) {
            {
                let i = choose|i: int|
                    0 <= i < vks.len() && k == (FunctionKey {
                        program: pid,
                        function: vks[i].0,
                        edition,
                    });
                staged_certificates(m, pid, edition, vks).dom().contains(k)
                    && staged_certificates(m, pid, edition, vks)[k] == vks[i].1.1
            }
        } else {
            (staged_certificates(m, pid, edition, vks).dom().contains(k) <==> m.dom().contains(k))
                && (m.dom().contains(k) ==> staged_certificates(m, pid, edition, vks)[k] == m[k])
        }),
    decreases vks.len(),
{
    if vks.len() > 0 {
        lemma_staged_certificates_at(m, pid, edition, vks.drop_last(), k);
        if exists|i: int|
            0 <= i < vks.len() && k == (FunctionKey { program: pid, function: vks[i].0, edition }) {
            let i = choose|i: int|
                0 <= i < vks.len() && k == (FunctionKey { program: pid, function: vks[i].0, edition });
            if i < vks.len() - 1 {
                assert(vks.drop_last()[i] == vks[i]);
                assert(vks.last().0 != vks[i].0);
            }
        }
    }
}

/// What [`removed_function_keys`] holds at one key: nothing for every
/// dropped function name, the old binding elsewhere.
pub proof fn lemma_removed_function_keys_at<V>(
    m: Map<FunctionKey, V>,
    pid: ProgramId,
    edition: u16,
    fns: Seq<Identifier>,
    k: FunctionKey,
)
    ensures
        (if exists|i: int|
            0 <= i < fns.len() && k == (FunctionKey { program: pid, function: fns[i], edition }) {
            !removed_function_keys(m, pid, edition, fns).dom().contains(k)
        } else {
            (removed_function_keys(m, pid, edition, fns).dom().contains(k) <==> m.dom().contains(k))
                && (m.dom().contains(k) ==> removed_function_keys(m, pid, edition, fns)[k] == m[k])
        }),
    decreases fns.len(),
{
    if fns.len() > 0 {
        lemma_removed_function_keys_at(m, pid, edition, fns.drop_last(), k);
        if exists|i: int|
            0 <= i < fns.len() && k == (FunctionKey { program: pid, function: fns[i], edition }) {
            let i = choose|i: int|
                0 <= i < fns.len() && k == (FunctionKey { program: pid, function: fns[i], edition });
            if i < fns.len() - 1 {
                assert(fns.drop_last()[i] == fns[i]);
            }
        }
    }
}

/// An owned copy of a program, with the same mathematical content.
fn clone_program(p: &Program) -> (r: Program)
    ensures
        r@ == p@,
{
    let mut functions: Vec<Identifier> = Vec::new();
    let mut i: usize = 0;
    while i < p.functions.len()
        invariant
            i <= p.functions@.len(),
            functions@ =~= p.functions@.take(i as int),
        decreases p.functions@.len() - i,
    {
        functions.push(p.functions[i]);
        i = i + 1;
    }
    proof {
        assert(p.functions@.take(p.functions@.len() as int) =~= p.functions@);
    }
    Program { id: p.id, functions }
}

/// The deployment store: the nine deployment maps plus the transition
/// store.
pub struct DeploymentStore {
    id_map: KvMap<TransactionId, ProgramId>,
    edition_map: KvMap<ProgramId, u16>,
    reverse_id_map: KvMap<ProgramEdition, TransactionId>,
    owner_map: KvMap<ProgramEdition, ProgramOwner>,
    program_map: KvMap<ProgramEdition, Program>,
    verifying_key_map: KvMap<FunctionKey, VerifyingKey>,
    certificate_map: KvMap<FunctionKey, Certificate>,
    fee_map: KvMap<TransactionId, (TransitionId, StateRoot, Option<Proof>)>,
    reverse_fee_map: KvMap<TransitionId, TransactionId>,
    transition_store: TransitionStore,
}

impl DeploymentStore {
    /// The map of transaction id to program id.
    pub closed spec fn id_map(self) -> KvMap<TransactionId, ProgramId> {
        self.id_map
    }

    /// The map of program id to edition.
    pub closed spec fn edition_map(self) -> KvMap<ProgramId, u16> {
        self.edition_map
    }

    /// The reverse index from program and edition to transaction id.
    pub closed spec fn reverse_id_map(self) -> KvMap<ProgramEdition, TransactionId> {
        self.reverse_id_map
    }

    /// The map of program and edition to owner.
    pub closed spec fn owner_map(self) -> KvMap<ProgramEdition, ProgramOwner> {
        self.owner_map
    }

    /// The map of program and edition to program.
    pub closed spec fn program_map(self) -> KvMap<ProgramEdition, Program> {
        self.program_map
    }

    /// The map of program, function and edition to verifying key.
    pub closed spec fn verifying_key_map(self) -> KvMap<FunctionKey, VerifyingKey> {
        self.verifying_key_map
    }

    /// The map of program, function and edition to certificate.
    pub closed spec fn certificate_map(self) -> KvMap<FunctionKey, Certificate> {
        self.certificate_map
    }

    /// The map of transaction id to fee transition id, state root and
    /// optional inclusion proof.
    pub closed spec fn fee_map(self) -> KvMap<TransactionId, (TransitionId, StateRoot, Option<Proof>)> {
        self.fee_map
    }

    /// The reverse index from fee transition id to transaction id.
    pub closed spec fn reverse_fee_map(self) -> KvMap<TransitionId, TransactionId> {
        self.reverse_fee_map
    }

    /// The transition store this schema participates with.
    pub closed spec fn transition_store(self) -> TransitionStore {
        self.transition_store
    }

    /// Whether an atomic batch is open on this schema.
    pub open spec fn in_batch(self) -> bool {
        self.id_map().in_batch()
    }

    /// Well-formedness: every participant well-formed, with batches opened
    /// and closed in step.
    pub open spec fn wf(self) -> bool {
        &&& self.id_map().wf()
        &&& self.edition_map().wf()
        &&& self.reverse_id_map().wf()
        &&& self.owner_map().wf()
        &&& self.program_map().wf()
        &&& self.verifying_key_map().wf()
        &&& self.certificate_map().wf()
        &&& self.fee_map().wf()
        &&& self.reverse_fee_map().wf()
        &&& self.transition_store().wf()
        &&& self.edition_map().in_batch() == self.id_map().in_batch()
        &&& self.reverse_id_map().in_batch() == self.id_map().in_batch()
        &&& self.owner_map().in_batch() == self.id_map().in_batch()
        &&& self.program_map().in_batch() == self.id_map().in_batch()
        &&& self.verifying_key_map().in_batch() == self.id_map().in_batch()
        &&& self.certificate_map().in_batch() == self.id_map().in_batch()
        &&& self.fee_map().in_batch() == self.id_map().in_batch()
        &&& self.reverse_fee_map().in_batch() == self.id_map().in_batch()
        &&& self.transition_store().in_batch() == self.id_map().in_batch()
    }

    /// Holds when the batch bookkeeping of every participant is untouched
    /// between the two states, the confirmed contents included.
    pub open spec fn batch_frame(self, pre: Self) -> bool {
        &&& self.id_map().entries() == pre.id_map().entries()
        &&& self.id_map().pending() == pre.id_map().pending()
        &&& self.id_map().marks() == pre.id_map().marks()
        &&& self.edition_map().entries() == pre.edition_map().entries()
        &&& self.edition_map().pending() == pre.edition_map().pending()
        &&& self.edition_map().marks() == pre.edition_map().marks()
        &&& self.reverse_id_map().entries() == pre.reverse_id_map().entries()
        &&& self.reverse_id_map().pending() == pre.reverse_id_map().pending()
        &&& self.reverse_id_map().marks() == pre.reverse_id_map().marks()
        &&& self.owner_map().entries() == pre.owner_map().entries()
        &&& self.owner_map().pending() == pre.owner_map().pending()
        &&& self.owner_map().marks() == pre.owner_map().marks()
        &&& self.program_map().entries() == pre.program_map().entries()
        &&& self.program_map().pending() == pre.program_map().pending()
        &&& self.program_map().marks() == pre.program_map().marks()
        &&& self.verifying_key_map().entries() == pre.verifying_key_map().entries()
        &&& self.verifying_key_map().pending() == pre.verifying_key_map().pending()
        &&& self.verifying_key_map().marks() == pre.verifying_key_map().marks()
        &&& self.certificate_map().entries() == pre.certificate_map().entries()
        &&& self.certificate_map().pending() == pre.certificate_map().pending()
        &&& self.certificate_map().marks() == pre.certificate_map().marks()
        &&& self.fee_map().entries() == pre.fee_map().entries()
        &&& self.fee_map().pending() == pre.fee_map().pending()
        &&& self.fee_map().marks() == pre.fee_map().marks()
        &&& self.reverse_fee_map().entries() == pre.reverse_fee_map().entries()
        &&& self.reverse_fee_map().pending() == pre.reverse_fee_map().pending()
        &&& self.reverse_fee_map().marks() == pre.reverse_fee_map().marks()
        &&& self.transition_store().transitions().entries() == pre.transition_store().transitions().entries()
        &&& self.transition_store().transitions().pending() == pre.transition_store().transitions().pending()
        &&& self.transition_store().transitions().marks() == pre.transition_store().transitions().marks()
        &&& self.transition_store().dev_tag() == pre.transition_store().dev_tag()
    }

    /// Holds when every participant holds no staged writes and no
    /// checkpoints, with the development tag kept.
    pub open spec fn batch_empty(self, pre: Self) -> bool {
        &&& self.id_map().pending() == Seq::<(TransactionId, Option<ProgramId>)>::empty()
        &&& self.id_map().marks() == Seq::<usize>::empty()
        &&& self.edition_map().pending() == Seq::<(ProgramId, Option<u16>)>::empty()
        &&& self.edition_map().marks() == Seq::<usize>::empty()
        &&& self.reverse_id_map().pending() == Seq::<(ProgramEdition, Option<TransactionId>)>::empty()
        &&& self.reverse_id_map().marks() == Seq::<usize>::empty()
        &&& self.owner_map().pending() == Seq::<(ProgramEdition, Option<ProgramOwner>)>::empty()
        &&& self.owner_map().marks() == Seq::<usize>::empty()
        &&& self.program_map().pending() == Seq::<(ProgramEdition, Option<Program>)>::empty()
        &&& self.program_map().marks() == Seq::<usize>::empty()
        &&& self.verifying_key_map().pending() == Seq::<(FunctionKey, Option<VerifyingKey>)>::empty()
        &&& self.verifying_key_map().marks() == Seq::<usize>::empty()
        &&& self.certificate_map().pending() == Seq::<(FunctionKey, Option<Certificate>)>::empty()
        &&& self.certificate_map().marks() == Seq::<usize>::empty()
        &&& self.fee_map().pending() == Seq::<(TransactionId, Option<(TransitionId, StateRoot, Option<Proof>)>)>::empty()
        &&& self.fee_map().marks() == Seq::<usize>::empty()
        &&& self.reverse_fee_map().pending() == Seq::<(TransitionId, Option<TransactionId>)>::empty()
        &&& self.reverse_fee_map().marks() == Seq::<usize>::empty()
        &&& self.transition_store().transitions().pending() == Seq::<(TransitionId, Option<Transition>)>::empty()
        &&& self.transition_store().transitions().marks() == Seq::<usize>::empty()
        &&& self.transition_store().dev_tag() == pre.transition_store().dev_tag()
    }

    /// Holds when every participant keeps its confirmed contents and
    /// holds no staged writes and no checkpoints.
    pub open spec fn batch_cleared(self, pre: Self) -> bool {
        &&& self.id_map().entries() == pre.id_map().entries()
        &&& self.edition_map().entries() == pre.edition_map().entries()
        &&& self.reverse_id_map().entries() == pre.reverse_id_map().entries()
        &&& self.owner_map().entries() == pre.owner_map().entries()
        &&& self.program_map().entries() == pre.program_map().entries()
        &&& self.verifying_key_map().entries() == pre.verifying_key_map().entries()
        &&& self.certificate_map().entries() == pre.certificate_map().entries()
        &&& self.fee_map().entries() == pre.fee_map().entries()
        &&& self.reverse_fee_map().entries() == pre.reverse_fee_map().entries()
        &&& self.transition_store().transitions().entries() == pre.transition_store().transitions().entries()
        &&& self.batch_empty(pre)
    }

    /// Holds when every participant kept its contents and staged
    /// writes and gained one checkpoint at its current batch end.
    pub open spec fn checkpointed_from(self, pre: Self) -> bool {
        &&& self.id_map().entries() == pre.id_map().entries()
        &&& self.id_map().pending() == pre.id_map().pending()
        &&& self.id_map().marks() == pre.id_map().marks().push(pre.id_map().pending().len() as usize)
        &&& self.edition_map().entries() == pre.edition_map().entries()
        &&& self.edition_map().pending() == pre.edition_map().pending()
        &&& self.edition_map().marks() == pre.edition_map().marks().push(pre.edition_map().pending().len() as usize)
        &&& self.reverse_id_map().entries() == pre.reverse_id_map().entries()
        &&& self.reverse_id_map().pending() == pre.reverse_id_map().pending()
        &&& self.reverse_id_map().marks() == pre.reverse_id_map().marks().push(pre.reverse_id_map().pending().len() as usize)
        &&& self.owner_map().entries() == pre.owner_map().entries()
        &&& self.owner_map().pending() == pre.owner_map().pending()
        &&& self.owner_map().marks() == pre.owner_map().marks().push(pre.owner_map().pending().len() as usize)
        &&& self.program_map().entries() == pre.program_map().entries()
        &&& self.program_map().pending() == pre.program_map().pending()
        &&& self.program_map().marks() == pre.program_map().marks().push(pre.program_map().pending().len() as usize)
        &&& self.verifying_key_map().entries() == pre.verifying_key_map().entries()
        &&& self.verifying_key_map().pending() == pre.verifying_key_map().pending()
        &&& self.verifying_key_map().marks() == pre.verifying_key_map().marks().push(pre.verifying_key_map().pending().len() as usize)
        &&& self.certificate_map().entries() == pre.certificate_map().entries()
        &&& self.certificate_map().pending() == pre.certificate_map().pending()
        &&& self.certificate_map().marks() == pre.certificate_map().marks().push(pre.certificate_map().pending().len() as usize)
        &&& self.fee_map().entries() == pre.fee_map().entries()
        &&& self.fee_map().pending() == pre.fee_map().pending()
        &&& self.fee_map().marks() == pre.fee_map().marks().push(pre.fee_map().pending().len() as usize)
        &&& self.reverse_fee_map().entries() == pre.reverse_fee_map().entries()
        &&& self.reverse_fee_map().pending() == pre.reverse_fee_map().pending()
        &&& self.reverse_fee_map().marks() == pre.reverse_fee_map().marks().push(pre.reverse_fee_map().pending().len() as usize)
        &&& self.transition_store().transitions().entries() == pre.transition_store().transitions().entries()
        &&& self.transition_store().transitions().pending() == pre.transition_store().transitions().pending()
        &&& self.transition_store().transitions().marks() == pre.transition_store().transitions().marks().push(pre.transition_store().transitions().pending().len() as usize)
        &&& self.transition_store().dev_tag() == pre.transition_store().dev_tag()
    }

    /// Holds when every participant dropped the staged writes after
    /// its most recent checkpoint, popping it; with none, dropped all
    /// of its staged writes.
    pub open spec fn rewound_from(self, pre: Self) -> bool {
        &&& self.id_map().entries() == pre.id_map().entries()
        &&& self.id_map().pending() == pre.id_map().pending().take(
            (if pre.id_map().marks().len() > 0 { pre.id_map().marks().last() as int } else { 0 }),
        )
        &&& self.id_map().marks() == (if pre.id_map().marks().len() > 0 {
            pre.id_map().marks().drop_last()
        } else {
            pre.id_map().marks()
        })
        &&& self.edition_map().entries() == pre.edition_map().entries()
        &&& self.edition_map().pending() == pre.edition_map().pending().take(
            (if pre.edition_map().marks().len() > 0 { pre.edition_map().marks().last() as int } else { 0 }),
        )
        &&& self.edition_map().marks() == (if pre.edition_map().marks().len() > 0 {
            pre.edition_map().marks().drop_last()
        } else {
            pre.edition_map().marks()
        })
        &&& self.reverse_id_map().entries() == pre.reverse_id_map().entries()
        &&& self.reverse_id_map().pending() == pre.reverse_id_map().pending().take(
            (if pre.reverse_id_map().marks().len() > 0 { pre.reverse_id_map().marks().last() as int } else { 0 }),
        )
        &&& self.reverse_id_map().marks() == (if pre.reverse_id_map().marks().len() > 0 {
            pre.reverse_id_map().marks().drop_last()
        } else {
            pre.reverse_id_map().marks()
        })
        &&& self.owner_map().entries() == pre.owner_map().entries()
        &&& self.owner_map().pending() == pre.owner_map().pending().take(
            (if pre.owner_map().marks().len() > 0 { pre.owner_map().marks().last() as int } else { 0 }),
        )
        &&& self.owner_map().marks() == (if pre.owner_map().marks().len() > 0 {
            pre.owner_map().marks().drop_last()
        } else {
            pre.owner_map().marks()
        })
        &&& self.program_map().entries() == pre.program_map().entries()
        &&& self.program_map().pending() == pre.program_map().pending().take(
            (if pre.program_map().marks().len() > 0 { pre.program_map().marks().last() as int } else { 0 }),
        )
        &&& self.program_map().marks() == (if pre.program_map().marks().len() > 0 {
            pre.program_map().marks().drop_last()
        } else {
            pre.program_map().marks()
        })
        &&& self.verifying_key_map().entries() == pre.verifying_key_map().entries()
        &&& self.verifying_key_map().pending() == pre.verifying_key_map().pending().take(
            (if pre.verifying_key_map().marks().len() > 0 { pre.verifying_key_map().marks().last() as int } else { 0 }),
        )
        &&& self.verifying_key_map().marks() == (if pre.verifying_key_map().marks().len() > 0 {
            pre.verifying_key_map().marks().drop_last()
        } else {
            pre.verifying_key_map().marks()
        })
        &&& self.certificate_map().entries() == pre.certificate_map().entries()
        &&& self.certificate_map().pending() == pre.certificate_map().pending().take(
            (if pre.certificate_map().marks().len() > 0 { pre.certificate_map().marks().last() as int } else { 0 }),
        )
        &&& self.certificate_map().marks() == (if pre.certificate_map().marks().len() > 0 {
            pre.certificate_map().marks().drop_last()
        } else {
            pre.certificate_map().marks()
        })
        &&& self.fee_map().entries() == pre.fee_map().entries()
        &&& self.fee_map().pending() == pre.fee_map().pending().take(
            (if pre.fee_map().marks().len() > 0 { pre.fee_map().marks().last() as int } else { 0 }),
        )
        &&& self.fee_map().marks() == (if pre.fee_map().marks().len() > 0 {
            pre.fee_map().marks().drop_last()
        } else {
            pre.fee_map().marks()
        })
        &&& self.reverse_fee_map().entries() == pre.reverse_fee_map().entries()
        &&& self.reverse_fee_map().pending() == pre.reverse_fee_map().pending().take(
            (if pre.reverse_fee_map().marks().len() > 0 { pre.reverse_fee_map().marks().last() as int } else { 0 }),
        )
        &&& self.reverse_fee_map().marks() == (if pre.reverse_fee_map().marks().len() > 0 {
            pre.reverse_fee_map().marks().drop_last()
        } else {
            pre.reverse_fee_map().marks()
        })
        &&& self.transition_store().transitions().entries() == pre.transition_store().transitions().entries()
        &&& self.transition_store().transitions().pending() == pre.transition_store().transitions().pending().take(
            (if pre.transition_store().transitions().marks().len() > 0 { pre.transition_store().transitions().marks().last() as int } else { 0 }),
        )
        &&& self.transition_store().transitions().marks() == (if pre.transition_store().transitions().marks().len() > 0 {
            pre.transition_store().transitions().marks().drop_last()
        } else {
            pre.transition_store().transitions().marks()
        })
        &&& self.transition_store().dev_tag() == pre.transition_store().dev_tag()
    }

    /// What a committed scope leaves behind: every participant's
    /// confirmed contents equal its speculative contents, with nothing
    /// staged.
    pub open spec fn committed_state(self, pre: Self) -> bool {
        &&& self.id_map().confirmed() == self.id_map().speculative()
        &&& self.edition_map().confirmed() == self.edition_map().speculative()
        &&& self.reverse_id_map().confirmed() == self.reverse_id_map().speculative()
        &&& self.owner_map().confirmed() == self.owner_map().speculative()
        &&& self.program_map().confirmed() == self.program_map().speculative()
        &&& self.verifying_key_map().confirmed() == self.verifying_key_map().speculative()
        &&& self.certificate_map().confirmed() == self.certificate_map().speculative()
        &&& self.fee_map().confirmed() == self.fee_map().speculative()
        &&& self.reverse_fee_map().confirmed() == self.reverse_fee_map().speculative()
        &&& self.transition_store().transitions().confirmed() == self.transition_store().transitions().speculative()
        &&& self.batch_empty(pre)
    }

    /// What a nested scope leaves behind: every participant keeps its
    /// confirmed contents, gains one checkpoint at its old batch end,
    /// and keeps its old staged writes as a prefix of the new ones.
    pub open spec fn scope_residue(self, pre: Self) -> bool {
        &&& self.id_map().entries() == pre.id_map().entries()
        &&& self.id_map().marks() == pre.id_map().marks().push(pre.id_map().pending().len() as usize)
        &&& self.id_map().pending().take(pre.id_map().pending().len() as int) == pre.id_map().pending()
        &&& self.edition_map().entries() == pre.edition_map().entries()
        &&& self.edition_map().marks() == pre.edition_map().marks().push(pre.edition_map().pending().len() as usize)
        &&& self.edition_map().pending().take(pre.edition_map().pending().len() as int) == pre.edition_map().pending()
        &&& self.reverse_id_map().entries() == pre.reverse_id_map().entries()
        &&& self.reverse_id_map().marks() == pre.reverse_id_map().marks().push(pre.reverse_id_map().pending().len() as usize)
        &&& self.reverse_id_map().pending().take(pre.reverse_id_map().pending().len() as int) == pre.reverse_id_map().pending()
        &&& self.owner_map().entries() == pre.owner_map().entries()
        &&& self.owner_map().marks() == pre.owner_map().marks().push(pre.owner_map().pending().len() as usize)
        &&& self.owner_map().pending().take(pre.owner_map().pending().len() as int) == pre.owner_map().pending()
        &&& self.program_map().entries() == pre.program_map().entries()
        &&& self.program_map().marks() == pre.program_map().marks().push(pre.program_map().pending().len() as usize)
        &&& self.program_map().pending().take(pre.program_map().pending().len() as int) == pre.program_map().pending()
        &&& self.verifying_key_map().entries() == pre.verifying_key_map().entries()
        &&& self.verifying_key_map().marks() == pre.verifying_key_map().marks().push(pre.verifying_key_map().pending().len() as usize)
        &&& self.verifying_key_map().pending().take(pre.verifying_key_map().pending().len() as int) == pre.verifying_key_map().pending()
        &&& self.certificate_map().entries() == pre.certificate_map().entries()
        &&& self.certificate_map().marks() == pre.certificate_map().marks().push(pre.certificate_map().pending().len() as usize)
        &&& self.certificate_map().pending().take(pre.certificate_map().pending().len() as int) == pre.certificate_map().pending()
        &&& self.fee_map().entries() == pre.fee_map().entries()
        &&& self.fee_map().marks() == pre.fee_map().marks().push(pre.fee_map().pending().len() as usize)
        &&& self.fee_map().pending().take(pre.fee_map().pending().len() as int) == pre.fee_map().pending()
        &&& self.reverse_fee_map().entries() == pre.reverse_fee_map().entries()
        &&& self.reverse_fee_map().marks() == pre.reverse_fee_map().marks().push(pre.reverse_fee_map().pending().len() as usize)
        &&& self.reverse_fee_map().pending().take(pre.reverse_fee_map().pending().len() as int) == pre.reverse_fee_map().pending()
        &&& self.transition_store().transitions().entries() == pre.transition_store().transitions().entries()
        &&& self.transition_store().transitions().marks() == pre.transition_store().transitions().marks().push(pre.transition_store().transitions().pending().len() as usize)
        &&& self.transition_store().transitions().pending().take(pre.transition_store().transitions().pending().len() as int) == pre.transition_store().transitions().pending()
        &&& self.transition_store().dev_tag() == pre.transition_store().dev_tag()
    }

    /// Opens a fresh batch on every participant, in the declared order.
    pub fn start_atomic(&mut self)
        requires
            old(self).wf(),
            !old(self).in_batch(),
        ensures
            final(self).wf(),
            final(self).in_batch(),
            final(self).batch_cleared(*old(self)),
    {
        self.id_map.start_atomic();
        self.edition_map.start_atomic();
        self.reverse_id_map.start_atomic();
        self.owner_map.start_atomic();
        self.program_map.start_atomic();
        self.verifying_key_map.start_atomic();
        self.certificate_map.start_atomic();
        self.fee_map.start_atomic();
        self.reverse_fee_map.start_atomic();
        self.transition_store.start_atomic();
    }

    /// Whether an atomic batch is in progress on any participant.
    pub fn is_atomic_in_progress(&self) -> (r: bool)
        requires
            self.wf(),
        ensures
            r == self.in_batch(),
    {
        self.id_map.is_atomic_in_progress()
            || self.edition_map.is_atomic_in_progress()
            || self.reverse_id_map.is_atomic_in_progress()
            || self.owner_map.is_atomic_in_progress()
            || self.program_map.is_atomic_in_progress()
            || self.verifying_key_map.is_atomic_in_progress()
            || self.certificate_map.is_atomic_in_progress()
            || self.fee_map.is_atomic_in_progress()
            || self.reverse_fee_map.is_atomic_in_progress()
            || self.transition_store.is_atomic_in_progress()
    }

    /// Pushes a checkpoint onto every participant's stack.
    pub fn atomic_checkpoint(&mut self)
        requires
            old(self).wf(),
            old(self).in_batch(),
        ensures
            final(self).wf(),
            final(self).in_batch(),
            final(self).checkpointed_from(*old(self)),
    {
        self.id_map.atomic_checkpoint();
        self.edition_map.atomic_checkpoint();
        self.reverse_id_map.atomic_checkpoint();
        self.owner_map.atomic_checkpoint();
        self.program_map.atomic_checkpoint();
        self.verifying_key_map.atomic_checkpoint();
        self.certificate_map.atomic_checkpoint();
        self.fee_map.atomic_checkpoint();
        self.reverse_fee_map.atomic_checkpoint();
        self.transition_store.atomic_checkpoint();
    }

    /// Rewinds every participant to its most recent checkpoint.
    pub fn atomic_rewind(&mut self)
        requires
            old(self).wf(),
            old(self).in_batch(),
        ensures
            final(self).wf(),
            final(self).in_batch(),
            final(self).rewound_from(*old(self)),
    {
        self.id_map.atomic_rewind();
        self.edition_map.atomic_rewind();
        self.reverse_id_map.atomic_rewind();
        self.owner_map.atomic_rewind();
        self.program_map.atomic_rewind();
        self.verifying_key_map.atomic_rewind();
        self.certificate_map.atomic_rewind();
        self.fee_map.atomic_rewind();
        self.reverse_fee_map.atomic_rewind();
        self.transition_store.atomic_rewind();
    }

    /// Discards all staged writes on every participant; the batch ends.
    pub fn abort_atomic(&mut self)
        requires
            old(self).wf(),
            old(self).in_batch(),
        ensures
            final(self).wf(),
            !final(self).in_batch(),
            final(self).batch_cleared(*old(self)),
    {
        self.id_map.abort_atomic();
        self.edition_map.abort_atomic();
        self.reverse_id_map.abort_atomic();
        self.owner_map.abort_atomic();
        self.program_map.abort_atomic();
        self.verifying_key_map.abort_atomic();
        self.certificate_map.abort_atomic();
        self.fee_map.abort_atomic();
        self.reverse_fee_map.abort_atomic();
        self.transition_store.abort_atomic();
    }

    /// Commits every participant's staged writes, in the declared
    /// order; the batch ends.
    pub fn finish_atomic(&mut self) -> (r: Result<(), StoreError>)
        requires
            old(self).wf(),
            old(self).in_batch(),
        ensures
            r is Ok,
            final(self).wf(),
            !final(self).in_batch(),
            final(self).id_map().confirmed() == old(self).id_map().speculative(),
            final(self).edition_map().confirmed() == old(self).edition_map().speculative(),
            final(self).reverse_id_map().confirmed() == old(self).reverse_id_map().speculative(),
            final(self).owner_map().confirmed() == old(self).owner_map().speculative(),
            final(self).program_map().confirmed() == old(self).program_map().speculative(),
            final(self).verifying_key_map().confirmed() == old(self).verifying_key_map().speculative(),
            final(self).certificate_map().confirmed() == old(self).certificate_map().speculative(),
            final(self).fee_map().confirmed() == old(self).fee_map().speculative(),
            final(self).reverse_fee_map().confirmed() == old(self).reverse_fee_map().speculative(),
            final(self).transition_store().transitions().confirmed() == old(self).transition_store().transitions().speculative(),
            final(self).batch_empty(*old(self)),
    {
        self.id_map.finish_atomic()?;
        self.edition_map.finish_atomic()?;
        self.reverse_id_map.finish_atomic()?;
        self.owner_map.finish_atomic()?;
        self.program_map.finish_atomic()?;
        self.verifying_key_map.finish_atomic()?;
        self.certificate_map.finish_atomic()?;
        self.fee_map.finish_atomic()?;
        self.reverse_fee_map.finish_atomic()?;
        self.transition_store.finish_atomic()
    }

    /// How one inserted deploy transaction transforms the speculative
    /// views: the program id under the transaction id, the edition, the
    /// reverse index, the owner, the program, one verifying key and
    /// certificate per function, the fee record, the fee reverse index, and
    /// the fee transition stored.
    pub open spec fn views_after_insert(
        self,
        pre: Self,
        tx: TransactionId,
        owner: ProgramOwner,
        d: DeploymentData,
        fee: Fee,
    ) -> bool {
        let pid = d.program.id;
        let pe = ProgramEdition { program: pid, edition: d.edition };
        &&& self.id_map().speculative() == pre.id_map().speculative().insert(tx, pid)
        &&& self.edition_map().speculative() == pre.edition_map().speculative().insert(pid, d.edition)
        &&& self.reverse_id_map().speculative() == pre.reverse_id_map().speculative().insert(pe, tx)
        &&& self.owner_map().speculative() == pre.owner_map().speculative().insert(pe, owner)
        &&& self.program_map().speculative().dom() == pre.program_map().speculative().dom().insert(pe)
        &&& self.program_map().speculative()[pe]@ == d.program
        &&& (forall|k: ProgramEdition|
            k != pe && pre.program_map().speculative().dom().contains(k)
                ==> self.program_map().speculative()[k] == pre.program_map().speculative()[k])
        &&& self.verifying_key_map().speculative() == staged_verifying_keys(
            pre.verifying_key_map().speculative(),
            pid,
            d.edition,
            d.verifying_keys,
        )
        &&& self.certificate_map().speculative() == staged_certificates(
            pre.certificate_map().speculative(),
            pid,
            d.edition,
            d.verifying_keys,
        )
        &&& self.fee_map().speculative() == pre.fee_map().speculative().insert(
            tx,
            (fee.transition.id, fee.global_state_root, fee.inclusion_proof),
        )
        &&& self.reverse_fee_map().speculative() == pre.reverse_fee_map().speculative().insert(
            fee.transition.id,
            tx,
        )
        &&& self.transition_store().transitions().speculative() == pre.transition_store().transitions().speculative().insert(
            fee.transition.id,
            fee.transition,
        )
    }

    /// Stores the given deploy transaction, staging every write in one
    /// atomic batch scope: nested in the caller's batch when one is open,
    /// as a batch of its own otherwise.
    pub fn insert(&mut self, transaction: &Transaction) -> (r: Result<(), StoreError>)
        requires
            old(self).wf(),
        ensures
            final(self).wf(),
            (match transaction@ {
                TransactionData::Execute(_, _, _) => r == Result::<(), StoreError>::Err(
                    StoreError::WrongKind,
                ) && *final(self) == *old(self),
                TransactionData::Deploy(tx, owner, d, fee) => {
                    if !d.is_ordered() {
                        r == Result::<(), StoreError>::Err(StoreError::MalformedInput) && *final(self)
                            == *old(self)
                    } else {
                        &&& r == Result::<(), StoreError>::Ok(())
                        &&& final(self).in_batch() == old(self).in_batch()
                        &&& final(self).views_after_insert(*old(self), tx, owner, d, fee)
                        &&& (if old(self).in_batch() {
                            final(self).scope_residue(*old(self))
                        } else {
                            final(self).committed_state(*old(self))
                        })
                    }
                },
            }),
    {
        // Only a deploy transaction belongs in this store.
        let (tx_id, owner, deployment, fee) = match transaction {
            Transaction::Execute(_, _, _) => {
                return Err(StoreError::WrongKind);
            }
            Transaction::Deploy(id, o, dep, f) => (*id, *o, dep, *f),
        };
        // A malformed deployment is rejected before anything is staged.
        if !deployment.check_is_ordered() {
            return Err(StoreError::MalformedInput);
        }
        let edition = deployment.edition();
        let program_id = deployment.program_id();
        let nested = self.is_atomic_in_progress();
        if nested {
            self.atomic_checkpoint();
        } else {
            self.start_atomic();
        }
        let ghost snap = *self;
        let pe = ProgramEdition { program: program_id, edition };
        // Stage the single-entry maps.
        self.id_map.insert(tx_id, program_id);
        self.edition_map.insert(program_id, edition);
        self.reverse_id_map.insert(pe, tx_id);
        self.owner_map.insert(pe, owner);
        self.program_map.insert(pe, clone_program(&deployment.program));
        let ghost mid = *self;
        let ghost vks = deployment@.verifying_keys;
        // Stage one verifying key and certificate per function.
        let mut i: usize = 0;
        while i < deployment.verifying_keys.len()
            invariant
                i <= vks.len(),
                deployment.verifying_keys@ == vks,
                self.wf(),
                self.in_batch(),
                self.id_map == mid.id_map,
                self.edition_map == mid.edition_map,
                self.reverse_id_map == mid.reverse_id_map,
                self.owner_map == mid.owner_map,
                self.program_map == mid.program_map,
                self.fee_map == mid.fee_map,
                self.reverse_fee_map == mid.reverse_fee_map,
                self.transition_store == mid.transition_store,
                self.verifying_key_map().speculative() == staged_verifying_keys(
                    mid.verifying_key_map().speculative(),
                    program_id,
                    edition,
                    vks.take(i as int),
                ),
                self.certificate_map().speculative() == staged_certificates(
                    mid.certificate_map().speculative(),
                    program_id,
                    edition,
                    vks.take(i as int),
                ),
                self.verifying_key_map().entries() == mid.verifying_key_map().entries(),
                self.verifying_key_map().marks() == mid.verifying_key_map().marks(),
                mid.verifying_key_map().pending().len() <= self.verifying_key_map().pending().len(),
                self.verifying_key_map().pending().take(
                    mid.verifying_key_map().pending().len() as int,
                ) == mid.verifying_key_map().pending(),
                self.certificate_map().entries() == mid.certificate_map().entries(),
                self.certificate_map().marks() == mid.certificate_map().marks(),
                mid.certificate_map().pending().len() <= self.certificate_map().pending().len(),
                self.certificate_map().pending().take(mid.certificate_map().pending().len() as int)
                    == mid.certificate_map().pending(),
            decreases vks.len() - i,
        {
            let entry = deployment.verifying_keys[i];
            let fk = FunctionKey { program: program_id, function: entry.0, edition };
            self.verifying_key_map.insert(fk, entry.1.0);
            self.certificate_map.insert(fk, entry.1.1);
            proof {
                assert(vks.take(i + 1).drop_last() =~= vks.take(i as int));
                assert(vks.take(i + 1).last() == vks[i as int]);
                assert(self.verifying_key_map().pending().take(
                    mid.verifying_key_map().pending().len() as int,
                ) =~= mid.verifying_key_map().pending());
                assert(self.certificate_map().pending().take(
                    mid.certificate_map().pending().len() as int,
                ) =~= mid.certificate_map().pending());
            }
            i = i + 1;
        }
        proof {
            assert(vks.take(vks.len() as int) =~= vks);
        }
        // Stage the fee record, its reverse index, and the fee transition.
        self.fee_map.insert(tx_id, (fee.transition.id, fee.global_state_root, fee.inclusion_proof));
        self.reverse_fee_map.insert(fee.transition.id, tx_id);
        let _ = self.transition_store.insert(fee.transition);
        // Commit the batch only when this call opened it.
        if !nested {
            self.finish_atomic()?;
        }
        proof {
            let pre = *old(self);
            if !pre.in_batch() {
                pre.id_map().lemma_wf_idle();
                pre.edition_map().lemma_wf_idle();
                pre.reverse_id_map().lemma_wf_idle();
                pre.owner_map().lemma_wf_idle();
                pre.program_map().lemma_wf_idle();
                pre.verifying_key_map().lemma_wf_idle();
                pre.certificate_map().lemma_wf_idle();
                pre.fee_map().lemma_wf_idle();
                pre.reverse_fee_map().lemma_wf_idle();
                pre.transition_store().transitions().lemma_wf_idle();
            }
            assert(snap.id_map().speculative() =~= pre.id_map().speculative());
            assert(snap.edition_map().speculative() =~= pre.edition_map().speculative());
            assert(snap.reverse_id_map().speculative() =~= pre.reverse_id_map().speculative());
            assert(snap.owner_map().speculative() =~= pre.owner_map().speculative());
            assert(snap.program_map().speculative() =~= pre.program_map().speculative());
            assert(snap.verifying_key_map().speculative() =~= pre.verifying_key_map().speculative());
            assert(snap.certificate_map().speculative() =~= pre.certificate_map().speculative());
            assert(snap.fee_map().speculative() =~= pre.fee_map().speculative());
            assert(snap.reverse_fee_map().speculative() =~= pre.reverse_fee_map().speculative());
            assert(snap.transition_store().transitions().speculative()
                =~= pre.transition_store().transitions().speculative());
            assert(self.program_map().speculative().dom() =~= pre.program_map().speculative().dom().insert(
                pe,
            ));
            if pre.in_batch() {
                assert(self.id_map().pending().take(pre.id_map().pending().len() as int)
                    =~= pre.id_map().pending());
                assert(self.edition_map().pending().take(pre.edition_map().pending().len() as int)
                    =~= pre.edition_map().pending());
                assert(self.reverse_id_map().pending().take(
                    pre.reverse_id_map().pending().len() as int,
                ) =~= pre.reverse_id_map().pending());
                assert(self.owner_map().pending().take(pre.owner_map().pending().len() as int)
                    =~= pre.owner_map().pending());
                assert(self.program_map().pending().take(pre.program_map().pending().len() as int)
                    =~= pre.program_map().pending());
                assert(self.fee_map().pending().take(pre.fee_map().pending().len() as int)
                    =~= pre.fee_map().pending());
                assert(self.reverse_fee_map().pending().take(
                    pre.reverse_fee_map().pending().len() as int,
                ) =~= pre.reverse_fee_map().pending());
                assert(self.transition_store().transitions().pending().take(
                    pre.transition_store().transitions().pending().len() as int,
                ) =~= pre.transition_store().transitions().pending());
            }
        }
        Ok(())
    }

    /// How one removed deploy transaction transforms the speculative
    /// views, given what the confirmed maps held for it.
    pub open spec fn views_after_remove(self, pre: Self, tx: TransactionId) -> bool {
        let pid = pre.id_map().confirmed()[tx];
        let ed = pre.edition_map().confirmed()[pid];
        let pe = ProgramEdition { program: pid, edition: ed };
        let fns = pre.program_map().confirmed()[pe]@.functions;
        let tid = pre.fee_map().confirmed()[tx].0;
        &&& self.id_map().speculative() == pre.id_map().speculative().remove(tx)
        &&& self.edition_map().speculative() == pre.edition_map().speculative().remove(pid)
        &&& self.reverse_id_map().speculative() == pre.reverse_id_map().speculative().remove(pe)
        &&& self.owner_map().speculative() == pre.owner_map().speculative().remove(pe)
        &&& self.program_map().speculative() == pre.program_map().speculative().remove(pe)
        &&& self.verifying_key_map().speculative() == removed_function_keys(
            pre.verifying_key_map().speculative(),
            pid,
            ed,
            fns,
        )
        &&& self.certificate_map().speculative() == removed_function_keys(
            pre.certificate_map().speculative(),
            pid,
            ed,
            fns,
        )
        &&& self.fee_map().speculative() == pre.fee_map().speculative().remove(tx)
        &&& self.reverse_fee_map().speculative() == pre.reverse_fee_map().speculative().remove(tid)
        &&& self.transition_store().transitions().speculative() == pre.transition_store().transitions().speculative().remove(
            tid,
        )
    }

    /// Whether the confirmed maps hold everything a removal of the
    /// transaction must look up first.
    pub open spec fn remove_lookups_ok(self, tx: TransactionId) -> bool {
        let pid = self.id_map().confirmed()[tx];
        let ed = self.edition_map().confirmed()[pid];
        let pe = ProgramEdition { program: pid, edition: ed };
        &&& self.edition_map().confirmed().dom().contains(pid)
        &&& self.program_map().confirmed().dom().contains(pe)
        &&& self.fee_map().confirmed().dom().contains(tx)
    }

    /// Removes the deploy transaction for the given transaction id, staging
    /// every removal in one atomic batch scope.
    pub fn remove(&mut self, transaction_id: &TransactionId) -> (r: Result<(), StoreError>)
        requires
            old(self).wf(),
        ensures
            final(self).wf(),
            (if !old(self).id_map().confirmed().dom().contains(*transaction_id) {
                r == Result::<(), StoreError>::Err(StoreError::NotFound) && *final(self) == *old(self)
            } else if !old(self).remove_lookups_ok(*transaction_id) {
                r == Result::<(), StoreError>::Err(StoreError::Corrupt) && *final(self) == *old(self)
            } else {
                &&& r == Result::<(), StoreError>::Ok(())
                &&& final(self).in_batch() == old(self).in_batch()
                &&& final(self).views_after_remove(*old(self), *transaction_id)
                &&& (if old(self).in_batch() {
                    final(self).scope_residue(*old(self))
                } else {
                    final(self).committed_state(*old(self))
                })
            }),
    {
        // Look up the program id, edition, program and fee transition id in
        // the confirmed state before staging anything.
        let program_id: ProgramId = match self.id_map.get_confirmed(transaction_id) {
            Some(pid) => *pid,
            None => {
                return Err(StoreError::NotFound);
            }
        };
        let edition: u16 = match self.edition_map.get_confirmed(&program_id) {
            Some(e) => *e,
            None => {
                return Err(StoreError::Corrupt);
            }
        };
        let pe = ProgramEdition { program: program_id, edition };
        let program: Program = match self.program_map.get_confirmed(&pe) {
            Some(p) => clone_program(p),
            None => {
                return Err(StoreError::Corrupt);
            }
        };
        let fee_transition_id: TransitionId = match self.fee_map.get_confirmed(transaction_id) {
            Some(rec) => rec.0,
            None => {
                return Err(StoreError::Corrupt);
            }
        };
        let nested = self.is_atomic_in_progress();
        if nested {
            self.atomic_checkpoint();
        } else {
            self.start_atomic();
        }
        let ghost snap = *self;
        // Stage the removals of the single-entry maps.
        self.id_map.remove(transaction_id);
        self.edition_map.remove(&program_id);
        self.reverse_id_map.remove(&pe);
        self.owner_map.remove(&pe);
        self.program_map.remove(&pe);
        let ghost mid = *self;
        let ghost fns = program@.functions;
        // Stage the removal of each function's verifying key and
        // certificate.
        let mut i: usize = 0;
        while i < program.functions.len()
            invariant
                i <= fns.len(),
                program.functions@ == fns,
                self.wf(),
                self.in_batch(),
                self.id_map == mid.id_map,
                self.edition_map == mid.edition_map,
                self.reverse_id_map == mid.reverse_id_map,
                self.owner_map == mid.owner_map,
                self.program_map == mid.program_map,
                self.fee_map == mid.fee_map,
                self.reverse_fee_map == mid.reverse_fee_map,
                self.transition_store == mid.transition_store,
                self.verifying_key_map().speculative() == removed_function_keys(
                    mid.verifying_key_map().speculative(),
                    program_id,
                    edition,
                    fns.take(i as int),
                ),
                self.certificate_map().speculative() == removed_function_keys(
                    mid.certificate_map().speculative(),
                    program_id,
                    edition,
                    fns.take(i as int),
                ),
                self.verifying_key_map().entries() == mid.verifying_key_map().entries(),
                self.verifying_key_map().marks() == mid.verifying_key_map().marks(),
                mid.verifying_key_map().pending().len() <= self.verifying_key_map().pending().len(),
                self.verifying_key_map().pending().take(
                    mid.verifying_key_map().pending().len() as int,
                ) == mid.verifying_key_map().pending(),
                self.certificate_map().entries() == mid.certificate_map().entries(),
                self.certificate_map().marks() == mid.certificate_map().marks(),
                mid.certificate_map().pending().len() <= self.certificate_map().pending().len(),
                self.certificate_map().pending().take(mid.certificate_map().pending().len() as int)
                    == mid.certificate_map().pending(),
            decreases fns.len() - i,
        {
            let fk = FunctionKey { program: program_id, function: program.functions[i], edition };
            self.verifying_key_map.remove(&fk);
            self.certificate_map.remove(&fk);
            proof {
                assert(fns.take(i + 1).drop_last() =~= fns.take(i as int));
                assert(fns.take(i + 1).last() == fns[i as int]);
                assert(self.verifying_key_map().pending().take(
                    mid.verifying_key_map().pending().len() as int,
                ) =~= mid.verifying_key_map().pending());
                assert(self.certificate_map().pending().take(
                    mid.certificate_map().pending().len() as int,
                ) =~= mid.certificate_map().pending());
            }
            i = i + 1;
        }
        proof {
            assert(fns.take(fns.len() as int) =~= fns);
        }
        // Stage the removals of the fee record, its reverse index, and the
        // fee transition.
        self.fee_map.remove(transaction_id);
        self.reverse_fee_map.remove(&fee_transition_id);
        let _ = self.transition_store.remove(&fee_transition_id);
        // Commit the batch only when this call opened it.
        if !nested {
            self.finish_atomic()?;
        }
        proof {
            let pre = *old(self);
            if !pre.in_batch() {
                pre.id_map().lemma_wf_idle();
                pre.edition_map().lemma_wf_idle();
                pre.reverse_id_map().lemma_wf_idle();
                pre.owner_map().lemma_wf_idle();
                pre.program_map().lemma_wf_idle();
                pre.verifying_key_map().lemma_wf_idle();
                pre.certificate_map().lemma_wf_idle();
                pre.fee_map().lemma_wf_idle();
                pre.reverse_fee_map().lemma_wf_idle();
                pre.transition_store().transitions().lemma_wf_idle();
            }
            assert(snap.id_map().speculative() =~= pre.id_map().speculative());
            assert(snap.edition_map().speculative() =~= pre.edition_map().speculative());
            assert(snap.reverse_id_map().speculative() =~= pre.reverse_id_map().speculative());
            assert(snap.owner_map().speculative() =~= pre.owner_map().speculative());
            assert(snap.program_map().speculative() =~= pre.program_map().speculative());
            assert(snap.verifying_key_map().speculative() =~= pre.verifying_key_map().speculative());
            assert(snap.certificate_map().speculative() =~= pre.certificate_map().speculative());
            assert(snap.fee_map().speculative() =~= pre.fee_map().speculative());
            assert(snap.reverse_fee_map().speculative() =~= pre.reverse_fee_map().speculative());
            assert(snap.transition_store().transitions().speculative()
                =~= pre.transition_store().transitions().speculative());
            if pre.in_batch() {
                assert(self.id_map().pending().take(pre.id_map().pending().len() as int)
                    =~= pre.id_map().pending());
                assert(self.edition_map().pending().take(pre.edition_map().pending().len() as int)
                    =~= pre.edition_map().pending());
                assert(self.reverse_id_map().pending().take(
                    pre.reverse_id_map().pending().len() as int,
                ) =~= pre.reverse_id_map().pending());
                assert(self.owner_map().pending().take(pre.owner_map().pending().len() as int)
                    =~= pre.owner_map().pending());
                assert(self.program_map().pending().take(pre.program_map().pending().len() as int)
                    =~= pre.program_map().pending());
                assert(self.fee_map().pending().take(pre.fee_map().pending().len() as int)
                    =~= pre.fee_map().pending());
                assert(self.reverse_fee_map().pending().take(
                    pre.reverse_fee_map().pending().len() as int,
                ) =~= pre.reverse_fee_map().pending());
                assert(self.transition_store().transitions().pending().take(
                    pre.transition_store().transitions().pending().len() as int,
                ) =~= pre.transition_store().transitions().pending());
            }
        }
        Ok(())
    }

    /// The program id recorded for the transaction, if any.
    pub fn get_program_id(&self, transaction_id: &TransactionId) -> (r: Result<
        Option<ProgramId>,
        StoreError,
    >)
        requires
            self.wf(),
        ensures
            r == Result::<Option<ProgramId>, StoreError>::Ok(
                (if self.id_map().confirmed().dom().contains(*transaction_id) {
                    Some(self.id_map().confirmed()[*transaction_id])
                } else {
                    None
                }),
            ),
    {
        match self.id_map.get_confirmed(transaction_id) {
            Some(pid) => Ok(Some(*pid)),
            None => Ok(None),
        }
    }

    /// The edition recorded for the program, if any.
    pub fn get_edition(&self, program_id: &ProgramId) -> (r: Result<Option<u16>, StoreError>)
        requires
            self.wf(),
        ensures
            r == Result::<Option<u16>, StoreError>::Ok(
                (if self.edition_map().confirmed().dom().contains(*program_id) {
                    Some(self.edition_map().confirmed()[*program_id])
                } else {
                    None
                }),
            ),
    {
        match self.edition_map.get_confirmed(program_id) {
            Some(e) => Ok(Some(*e)),
            None => Ok(None),
        }
    }

    /// The program's key at its current edition.
    pub open spec fn current_key(self, pid: ProgramId) -> ProgramEdition {
        ProgramEdition { program: pid, edition: self.edition_map().confirmed()[pid] }
    }

    /// The program at its current edition: absent when the edition is, a
    /// missing program failing as corruption.
    pub fn get_program(&self, program_id: &ProgramId) -> (r: Result<Option<Program>, StoreError>)
        requires
            self.wf(),
        ensures
            (match r {
                Ok(None) => !self.edition_map().confirmed().dom().contains(*program_id),
                Ok(Some(p)) => {
                    &&& self.edition_map().confirmed().dom().contains(*program_id)
                    &&& self.program_map().confirmed().dom().contains(self.current_key(*program_id))
                    &&& p@ == self.program_map().confirmed()[self.current_key(*program_id)]@
                },
                Err(err) => {
                    &&& err == StoreError::Corrupt
                    &&& self.edition_map().confirmed().dom().contains(*program_id)
                    &&& !self.program_map().confirmed().dom().contains(self.current_key(*program_id))
                },
            }),
    {
        let edition: u16 = match self.edition_map.get_confirmed(program_id) {
            Some(e) => *e,
            None => {
                return Ok(None);
            }
        };
        match self.program_map.get_confirmed(&ProgramEdition { program: *program_id, edition }) {
            Some(p) => Ok(Some(clone_program(p))),
            None => Err(StoreError::Corrupt),
        }
    }

    /// The verifying key of one function of the program at its current
    /// edition: absent when the edition is, a missing key failing as
    /// corruption.
    pub fn get_verifying_key(&self, program_id: &ProgramId, function_name: &Identifier) -> (r:
        Result<Option<VerifyingKey>, StoreError>)
        requires
            self.wf(),
        ensures
            (match r {
                Ok(None) => !self.edition_map().confirmed().dom().contains(*program_id),
                Ok(Some(vk)) => {
                    let fk = FunctionKey {
                        program: *program_id,
                        function: *function_name,
                        edition: self.edition_map().confirmed()[*program_id],
                    };
                    &&& self.edition_map().confirmed().dom().contains(*program_id)
                    &&& self.verifying_key_map().confirmed().dom().contains(fk)
                    &&& vk == self.verifying_key_map().confirmed()[fk]
                },
                Err(err) => {
                    let fk = FunctionKey {
                        program: *program_id,
                        function: *function_name,
                        edition: self.edition_map().confirmed()[*program_id],
                    };
                    &&& err == StoreError::Corrupt
                    &&& self.edition_map().confirmed().dom().contains(*program_id)
                    &&& !self.verifying_key_map().confirmed().dom().contains(fk)
                },
            }),
    {
        let edition: u16 = match self.edition_map.get_confirmed(program_id) {
            Some(e) => *e,
            None => {
                return Ok(None);
            }
        };
        let fk = FunctionKey { program: *program_id, function: *function_name, edition };
        match self.verifying_key_map.get_confirmed(&fk) {
            Some(vk) => Ok(Some(*vk)),
            None => Err(StoreError::Corrupt),
        }
    }

    /// The certificate of one function of the program at its current
    /// edition, in the same way.
    pub fn get_certificate(&self, program_id: &ProgramId, function_name: &Identifier) -> (r: Result<
        Option<Certificate>,
        StoreError,
    >)
        requires
            self.wf(),
        ensures
            (match r {
                Ok(None) => !self.edition_map().confirmed().dom().contains(*program_id),
                Ok(Some(c)) => {
                    let fk = FunctionKey {
                        program: *program_id,
                        function: *function_name,
                        edition: self.edition_map().confirmed()[*program_id],
                    };
                    &&& self.edition_map().confirmed().dom().contains(*program_id)
                    &&& self.certificate_map().confirmed().dom().contains(fk)
                    &&& c == self.certificate_map().confirmed()[fk]
                },
                Err(err) => {
                    let fk = FunctionKey {
                        program: *program_id,
                        function: *function_name,
                        edition: self.edition_map().confirmed()[*program_id],
                    };
                    &&& err == StoreError::Corrupt
                    &&& self.edition_map().confirmed().dom().contains(*program_id)
                    &&& !self.certificate_map().confirmed().dom().contains(fk)
                },
            }),
    {
        let edition: u16 = match self.edition_map.get_confirmed(program_id) {
            Some(e) => *e,
            None => {
                return Ok(None);
            }
        };
        let fk = FunctionKey { program: *program_id, function: *function_name, edition };
        match self.certificate_map.get_confirmed(&fk) {
            Some(c) => Ok(Some(*c)),
            None => Err(StoreError::Corrupt),
        }
    }

    /// The owner of the program at its current edition: absent when the
    /// edition is, a missing owner failing as corruption.
    pub fn get_owner(&self, program_id: &ProgramId) -> (r: Result<Option<ProgramOwner>, StoreError>)
        requires
            self.wf(),
        ensures
            (match r {
                Ok(None) => !self.edition_map().confirmed().dom().contains(*program_id),
                Ok(Some(o)) => {
                    &&& self.edition_map().confirmed().dom().contains(*program_id)
                    &&& self.owner_map().confirmed().dom().contains(self.current_key(*program_id))
                    &&& o == self.owner_map().confirmed()[self.current_key(*program_id)]
                },
                Err(err) => {
                    &&& err == StoreError::Corrupt
                    &&& self.edition_map().confirmed().dom().contains(*program_id)
                    &&& !self.owner_map().confirmed().dom().contains(self.current_key(*program_id))
                },
            }),
    {
        let edition: u16 = match self.edition_map.get_confirmed(program_id) {
            Some(e) => *e,
            None => {
                return Ok(None);
            }
        };
        match self.owner_map.get_confirmed(&ProgramEdition { program: *program_id, edition }) {
            Some(o) => Ok(Some(*o)),
            None => Err(StoreError::Corrupt),
        }
    }

    /// Whether the fee record of the transaction names a transition that
    /// the transition store holds.
    pub open spec fn fee_present(self, tx: TransactionId) -> bool {
        &&& self.fee_map().confirmed().dom().contains(tx)
        &&& self.transition_store().transitions().confirmed().dom().contains(
            self.fee_map().confirmed()[tx].0,
        )
    }

    /// The fee as the confirmed maps describe it.
    pub open spec fn reconstructed_fee(self, tx: TransactionId) -> Fee {
        let rec = self.fee_map().confirmed()[tx];
        Fee {
            transition: self.transition_store().transitions().confirmed()[rec.0],
            global_state_root: rec.1,
            inclusion_proof: rec.2,
        }
    }

    /// Exactly what [`Self::get_fee`] returns, as a relation on the
    /// confirmed maps.
    pub open spec fn get_fee_post(self, tx: TransactionId, r: Result<Option<Fee>, StoreError>) -> bool {
        match r {
            Ok(None) => !self.fee_map().confirmed().dom().contains(tx),
            Ok(Some(f)) => {
                &&& self.fee_present(tx)
                &&& f == self.reconstructed_fee(tx)
            },
            Err(err) => {
                &&& err == StoreError::Corrupt
                &&& self.fee_map().confirmed().dom().contains(tx)
                &&& !self.fee_present(tx)
            },
        }
    }

    /// The fee of the transaction: absent when no fee record is, a missing
    /// fee transition failing as corruption.
    pub fn get_fee(&self, transaction_id: &TransactionId) -> (r: Result<Option<Fee>, StoreError>)
        requires
            self.wf(),
        ensures
            self.get_fee_post(*transaction_id, r),
    {
        let (fee_transition_id, global_state_root, inclusion_proof) = match self.fee_map.get_confirmed(
            transaction_id,
        ) {
            Some(rec) => (rec.0, rec.1, rec.2),
            None => {
                return Ok(None);
            }
        };
        match self.transition_store.get_transition(&fee_transition_id) {
            Some(transition) => Ok(Some(Fee::from(transition, global_state_root, inclusion_proof))),
            None => Err(StoreError::Corrupt),
        }
    }

    /// The transaction id that deployed the program, if any: a recorded
    /// edition without its reverse entry fails as corruption.
    pub fn find_transaction_id_from_program_id(&self, program_id: &ProgramId) -> (r: Result<
        Option<TransactionId>,
        StoreError,
    >)
        requires
            self.wf(),
        ensures
            (match r {
                Ok(None) => !self.edition_map().confirmed().dom().contains(*program_id),
                Ok(Some(tx)) => {
                    &&& self.edition_map().confirmed().dom().contains(*program_id)
                    &&& self.reverse_id_map().confirmed().dom().contains(self.current_key(*program_id))
                    &&& tx == self.reverse_id_map().confirmed()[self.current_key(*program_id)]
                },
                Err(err) => {
                    &&& err == StoreError::Corrupt
                    &&& self.edition_map().confirmed().dom().contains(*program_id)
                    &&& !self.reverse_id_map().confirmed().dom().contains(self.current_key(*program_id))
                },
            }),
    {
        let edition: u16 = match self.edition_map.get_confirmed(program_id) {
            Some(e) => *e,
            None => {
                return Ok(None);
            }
        };
        match self.reverse_id_map.get_confirmed(&ProgramEdition { program: *program_id, edition }) {
            Some(tx) => Ok(Some(*tx)),
            None => Err(StoreError::Corrupt),
        }
    }

    /// The transaction id whose fee used the transition, if any.
    pub fn find_transaction_id_from_transition_id(&self, transition_id: &TransitionId) -> (r: Result<
        Option<TransactionId>,
        StoreError,
    >)
        requires
            self.wf(),
        ensures
            r == Result::<Option<TransactionId>, StoreError>::Ok(
                (if self.reverse_fee_map().confirmed().dom().contains(*transition_id) {
                    Some(self.reverse_fee_map().confirmed()[*transition_id])
                } else {
                    None
                }),
            ),
    {
        match self.reverse_fee_map.get_confirmed(transition_id) {
            Some(tx) => Ok(Some(*tx)),
            None => Ok(None),
        }
    }

    /// Whether the program id has a recorded edition.
    pub fn contains_program_id(&self, program_id: &ProgramId) -> (r: Result<bool, StoreError>)
        requires
            self.wf(),
        ensures
            r == Result::<bool, StoreError>::Ok(
                self.edition_map().confirmed().dom().contains(*program_id),
            ),
    {
        Ok(self.edition_map.contains_key_confirmed(program_id))
    }

    /// Whether the verifying key and certificate maps hold an entry for
    /// every one of the given function names at the program and edition.
    pub open spec fn keys_complete(self, pid: ProgramId, ed: u16, fns: Seq<Identifier>) -> bool {
        forall|j: int| #![trigger fns[j]]
            0 <= j < fns.len() ==> {
                let fk = FunctionKey { program: pid, function: fns[j], edition: ed };
                self.verifying_key_map().confirmed().dom().contains(fk)
                    && self.certificate_map().confirmed().dom().contains(fk)
            }
    }

    /// The verifying key and certificate entries read back for the given
    /// function names, in order.
    pub open spec fn read_vks(self, pid: ProgramId, ed: u16, fns: Seq<Identifier>) -> Seq<
        (Identifier, (VerifyingKey, Certificate)),
    > {
        fns.map_values(
            |f: Identifier|
                (
                    f,
                    (
                        self.verifying_key_map().confirmed()[FunctionKey {
                            program: pid,
                            function: f,
                            edition: ed,
                        }],
                        self.certificate_map().confirmed()[FunctionKey {
                            program: pid,
                            function: f,
                            edition: ed,
                        }],
                    ),
                ),
        )
    }

    /// Whether the confirmed maps hold the whole deployment linked from the
    /// transaction id: its edition, its program, and every function's
    /// verifying key and certificate.
    pub open spec fn deployment_present(self, tx: TransactionId) -> bool {
        let pid = self.id_map().confirmed()[tx];
        let ed = self.edition_map().confirmed()[pid];
        let pe = ProgramEdition { program: pid, edition: ed };
        &&& self.edition_map().confirmed().dom().contains(pid)
        &&& self.program_map().confirmed().dom().contains(pe)
        &&& self.keys_complete(pid, ed, self.program_map().confirmed()[pe]@.functions)
    }

    /// The deployment as the confirmed maps describe it.
    pub open spec fn reconstructed_deployment(self, tx: TransactionId) -> DeploymentData {
        let pid = self.id_map().confirmed()[tx];
        let ed = self.edition_map().confirmed()[pid];
        let pe = ProgramEdition { program: pid, edition: ed };
        let prog = self.program_map().confirmed()[pe]@;
        DeploymentData {
            edition: ed,
            program: prog,
            verifying_keys: self.read_vks(pid, ed, prog.functions),
        }
    }

    /// Exactly what [`Self::get_deployment`] returns, as a relation on the
    /// confirmed maps.
    pub open spec fn get_deployment_post(self, tx: TransactionId, r: Result<
        Option<Deployment>,
        StoreError,
    >) -> bool {
        match r {
            Ok(None) => !self.id_map().confirmed().dom().contains(tx),
            Ok(Some(d)) => {
                &&& self.id_map().confirmed().dom().contains(tx)
                &&& self.deployment_present(tx)
                &&& d@ == self.reconstructed_deployment(tx)
            },
            Err(err) => {
                &&& err == StoreError::Corrupt
                &&& self.id_map().confirmed().dom().contains(tx)
                &&& !self.deployment_present(tx)
            },
        }
    }

    /// The deployment linked from the transaction id: absent when the
    /// transaction is unknown, broken linkage failing as corruption.
    pub fn get_deployment(&self, transaction_id: &TransactionId) -> (r: Result<
        Option<Deployment>,
        StoreError,
    >)
        requires
            self.wf(),
        ensures
            self.get_deployment_post(*transaction_id, r),
    {
        let program_id: ProgramId = match self.id_map.get_confirmed(transaction_id) {
            Some(pid) => *pid,
            None => {
                return Ok(None);
            }
        };
        let edition: u16 = match self.edition_map.get_confirmed(&program_id) {
            Some(e) => *e,
            None => {
                return Err(StoreError::Corrupt);
            }
        };
        let pe = ProgramEdition { program: program_id, edition };
        let program: Program = match self.program_map.get_confirmed(&pe) {
            Some(p) => clone_program(p),
            None => {
                return Err(StoreError::Corrupt);
            }
        };
        let ghost fns = program@.functions;
        let mut verifying_keys: Vec<(Identifier, (VerifyingKey, Certificate))> = Vec::new();
        let mut i: usize = 0;
        while i < program.functions.len()
            invariant
                i <= fns.len(),
                program.functions@ == fns,
                self.wf(),
                self.id_map().confirmed().dom().contains(*transaction_id),
                program_id == self.id_map().confirmed()[*transaction_id],
                self.edition_map().confirmed().dom().contains(program_id),
                edition == self.edition_map().confirmed()[program_id],
                pe == (ProgramEdition { program: program_id, edition }),
                self.program_map().confirmed().dom().contains(pe),
                fns == self.program_map().confirmed()[pe]@.functions,
                forall|j: int| #![trigger fns[j]]
                    0 <= j < i ==> {
                        let fk = FunctionKey { program: program_id, function: fns[j], edition };
                        self.verifying_key_map().confirmed().dom().contains(fk)
                            && self.certificate_map().confirmed().dom().contains(fk)
                    },
                verifying_keys@.len() == i,
                forall|j: int| #![trigger verifying_keys@[j]]
                    0 <= j < i ==> {
                        let fk = FunctionKey { program: program_id, function: fns[j], edition };
                        verifying_keys@[j] == (
                            fns[j],
                            (
                                self.verifying_key_map().confirmed()[fk],
                                self.certificate_map().confirmed()[fk],
                            ),
                        )
                    },
            decreases fns.len() - i,
        {
            let fk = FunctionKey { program: program_id, function: program.functions[i], edition };
            let vk: VerifyingKey = match self.verifying_key_map.get_confirmed(&fk) {
                Some(vk) => *vk,
                None => {
                    proof {
                        assert(!self.keys_complete(program_id, edition, fns));
                    }
                    return Err(StoreError::Corrupt);
                }
            };
            let cert: Certificate = match self.certificate_map.get_confirmed(&fk) {
                Some(c) => *c,
                None => {
                    proof {
                        assert(!self.keys_complete(program_id, edition, fns));
                    }
                    return Err(StoreError::Corrupt);
                }
            };
            verifying_keys.push((program.functions[i], (vk, cert)));
            i = i + 1;
        }
        proof {
            let f = |f: Identifier|
                (
                    f,
                    (
                        self.verifying_key_map().confirmed()[FunctionKey {
                            program: program_id,
                            function: f,
                            edition,
                        }],
                        self.certificate_map().confirmed()[FunctionKey {
                            program: program_id,
                            function: f,
                            edition,
                        }],
                    ),
                );
            assert forall|j: int| 0 <= j < fns.len() implies fns.map_values(f)[j] == verifying_keys@[j] by {
                assert(fns.map_values(f)[j] == f(fns[j]));
            }
            assert(verifying_keys@ =~= self.read_vks(program_id, edition, fns));
        }
        let deployment = Deployment::new(edition, program, verifying_keys);
        proof {
            assert(deployment@ =~= self.reconstructed_deployment(*transaction_id));
        }
        Ok(Some(deployment))
    }

    /// Whether the owner of the reconstructed program is present at the
    /// program's own id and current edition.
    pub open spec fn owner_present(self, tx: TransactionId) -> bool {
        let opid = self.reconstructed_deployment(tx).program.id;
        &&& self.edition_map().confirmed().dom().contains(opid)
        &&& self.owner_map().confirmed().dom().contains(self.current_key(opid))
    }

    /// The owner as the confirmed maps describe it.
    pub open spec fn reconstructed_owner(self, tx: TransactionId) -> ProgramOwner {
        self.owner_map().confirmed()[self.current_key(self.reconstructed_deployment(tx).program.id)]
    }

    /// Exactly what [`Self::get_transaction`] returns, as a relation on
    /// the confirmed maps.
    pub open spec fn get_transaction_post(self, tx: TransactionId, r: Result<
        Option<Transaction>,
        StoreError,
    >) -> bool {
        match r {
            Ok(None) => !self.id_map().confirmed().dom().contains(tx),
            Ok(Some(t)) => {
                &&& self.id_map().confirmed().dom().contains(tx)
                &&& self.deployment_present(tx)
                &&& self.fee_present(tx)
                &&& self.owner_present(tx)
                &&& t@ == TransactionData::Deploy(
                    tx,
                    self.reconstructed_owner(tx),
                    self.reconstructed_deployment(tx),
                    self.reconstructed_fee(tx),
                )
                &&& t@.spec_id() == t@.content_id()
            },
            Err(err) => {
                &&& err == StoreError::Corrupt
                &&& self.id_map().confirmed().dom().contains(tx)
                &&& (!self.deployment_present(tx) || !self.fee_present(tx) || !self.owner_present(
                    tx,
                ) || deploy_content_id(
                    self.reconstructed_owner(tx),
                    self.reconstructed_deployment(tx),
                    self.reconstructed_fee(tx),
                ) != tx)
            },
        }
    }

    /// The whole deploy transaction reconstructed from the confirmed maps,
    /// checked against its own id.
    pub fn get_transaction(&self, transaction_id: &TransactionId) -> (r: Result<
        Option<Transaction>,
        StoreError,
    >)
        requires
            self.wf(),
        ensures
            self.get_transaction_post(*transaction_id, r),
    {
        let deployment = match self.get_deployment(transaction_id)? {
            Some(d) => d,
            None => {
                return Ok(None);
            }
        };
        let fee = match self.get_fee(transaction_id)? {
            Some(f) => f,
            None => {
                return Err(StoreError::Corrupt);
            }
        };
        let owner_program_id = deployment.program_id();
        let owner = match self.get_owner(&owner_program_id)? {
            Some(o) => o,
            None => {
                return Err(StoreError::Corrupt);
            }
        };
        let transaction = Transaction::from_deployment(owner, deployment, fee);
        // The reconstructed transaction must carry the id it was stored
        // under.
        let reconstructed_id = transaction.id();
        if reconstructed_id.0 == transaction_id.0 {
            Ok(Some(transaction))
        } else {
            Err(StoreError::Corrupt)
        }
    }

    /// Every transaction id with a deployment, in the confirmed state's
    /// order.
    pub fn deployment_transaction_ids(&self) -> (r: Vec<TransactionId>)
        requires
            self.wf(),
        ensures
            r@ == self.id_map().entries().map_values(|p: (TransactionId, ProgramId)| p.0),
    {
        self.id_map.keys_confirmed()
    }

    /// Every deployed program id, in the confirmed state's order.
    pub fn program_ids(&self) -> (r: Vec<ProgramId>)
        requires
            self.wf(),
        ensures
            r@ == self.id_map().entries().map_values(|p: (TransactionId, ProgramId)| p.1),
    {
        let mut out: Vec<ProgramId> = Vec::new();
        let mut i: usize = 0;
        let n = self.id_map.entries_len();
        while i < n
            invariant
                n == self.id_map().entries().len(),
                i <= n,
                out@.len() == i,
                forall|j: int| 0 <= j < i ==> out@[j] == self.id_map().entries()[j].1,
            decreases n - i,
        {
            out.push(self.id_map.entry_at(i).1);
            i = i + 1;
        }
        proof {
            let s = self.id_map().entries();
            let f = |p: (TransactionId, ProgramId)| p.1;
            assert forall|j: int| 0 <= j < s.len() implies s.map_values(f)[j] == out@[j] by {
                assert(s.map_values(f)[j] == f(s[j]));
            }
            assert(out@ =~= s.map_values(f));
        }
        out
    }

    /// Every deployed program, in the confirmed state's order, by content.
    pub fn programs(&self) -> (r: Vec<Program>)
        requires
            self.wf(),
        ensures
            r@.len() == self.program_map().entries().len(),
            forall|j: int|
                0 <= j < r@.len() ==> r@[j]@ == self.program_map().entries()[j].1@,
    {
        let mut out: Vec<Program> = Vec::new();
        let mut i: usize = 0;
        let n = self.program_map.entries_len();
        while i < n
            invariant
                n == self.program_map().entries().len(),
                i <= n,
                out@.len() == i,
                forall|j: int| 0 <= j < i ==> out@[j]@ == self.program_map().entries()[j].1@,
            decreases n - i,
        {
            out.push(clone_program(&self.program_map.entry_at(i).1));
            i = i + 1;
        }
        out
    }

    /// Every verifying key with its full key, in the confirmed state's
    /// order.
    pub fn verifying_keys(&self) -> (r: Vec<(FunctionKey, VerifyingKey)>)
        requires
            self.wf(),
        ensures
            r@ == self.verifying_key_map().entries(),
    {
        let mut out: Vec<(FunctionKey, VerifyingKey)> = Vec::new();
        let mut i: usize = 0;
        let n = self.verifying_key_map.entries_len();
        while i < n
            invariant
                n == self.verifying_key_map().entries().len(),
                i <= n,
                out@ =~= self.verifying_key_map().entries().take(i as int),
            decreases n - i,
        {
            let entry = self.verifying_key_map.entry_at(i);
            out.push((entry.0, entry.1));
            i = i + 1;
        }
        proof {
            let s = self.verifying_key_map().entries();
            assert(s.take(s.len() as int) =~= s);
        }
        out
    }

    /// Every certificate with its full key, in the confirmed state's order.
    pub fn certificates(&self) -> (r: Vec<(FunctionKey, Certificate)>)
        requires
            self.wf(),
        ensures
            r@ == self.certificate_map().entries(),
    {
        let mut out: Vec<(FunctionKey, Certificate)> = Vec::new();
        let mut i: usize = 0;
        let n = self.certificate_map.entries_len();
        while i < n
            invariant
                n == self.certificate_map().entries().len(),
                i <= n,
                out@ =~= self.certificate_map().entries().take(i as int),
            decreases n - i,
        {
            let entry = self.certificate_map.entry_at(i);
            out.push((entry.0, entry.1));
            i = i + 1;
        }
        proof {
            let s = self.certificate_map().entries();
            assert(s.take(s.len() as int) =~= s);
        }
        out
    }

    /// Opens a deployment store over the given transition store, with every
    /// map empty.
    pub fn open(transition_store: TransitionStore) -> (r: Result<DeploymentStore, StoreError>)
        requires
            transition_store.wf(),
            !transition_store.in_batch(),
        ensures
            (match r {
                Ok(s) => {
                    &&& s.wf()
                    &&& !s.in_batch()
                    &&& s.id_map().confirmed() == Map::<TransactionId, ProgramId>::empty()
                    &&& s.edition_map().confirmed() == Map::<ProgramId, u16>::empty()
                    &&& s.reverse_id_map().confirmed() == Map::<ProgramEdition, TransactionId>::empty()
                    &&& s.owner_map().confirmed() == Map::<ProgramEdition, ProgramOwner>::empty()
                    &&& s.program_map().confirmed() == Map::<ProgramEdition, Program>::empty()
                    &&& s.verifying_key_map().confirmed() == Map::<FunctionKey, VerifyingKey>::empty()
                    &&& s.certificate_map().confirmed() == Map::<FunctionKey, Certificate>::empty()
                    &&& s.fee_map().confirmed() == Map::<TransactionId, (TransitionId, StateRoot, Option<Proof>)>::empty()
                    &&& s.reverse_fee_map().confirmed() == Map::<TransitionId, TransactionId>::empty()
                    &&& s.transition_store() == transition_store
                },
                Err(_) => false,
            }),
    {
        Ok(DeploymentStore {
            id_map: KvMap::new(),
            edition_map: KvMap::new(),
            reverse_id_map: KvMap::new(),
            owner_map: KvMap::new(),
            program_map: KvMap::new(),
            verifying_key_map: KvMap::new(),
            certificate_map: KvMap::new(),
            fee_map: KvMap::new(),
            reverse_fee_map: KvMap::new(),
            transition_store,
        })
    }

    /// The optional development-namespace tag, taken from the transition
    /// store.
    pub fn dev(&self) -> (r: Option<u16>)
        ensures
            r == self.transition_store().dev_tag(),
    {
        self.transition_store.dev()
    }
}

} // verus!
