//! The transaction data model: identifiers, transitions, fees, programs,
//! deployments, executions and the transaction sum type.
//!
//! Identifiers are content-addressed: a transaction's id is a deterministic
//! digest of its payload, computed by [`Transaction::from_deployment`] and
//! [`Transaction::from_execution`]. The storage layers rely only on the
//! equation between a stored transaction's id and the digest of what they
//! reconstruct for it.

use vstd::prelude::*;
use crate::kv::StoreKey;

verus! {

/// A transaction identifier.
#[derive(Clone, Copy, Debug, PartialEq, Eq, Hash, Structural)]
pub struct TransactionId(pub u64);

/// A program identifier.
#[derive(Clone, Copy, Debug, PartialEq, Eq, Hash, Structural)]
pub struct ProgramId(pub u64);

/// A transition identifier.
#[derive(Clone, Copy, Debug, PartialEq, Eq, Hash, Structural)]
pub struct TransitionId(pub u64);

/// A function name inside a program.
#[derive(Clone, Copy, Debug, PartialEq, Eq, Hash, Structural)]
pub struct Identifier(pub u64);

/// A global state root.
#[derive(Clone, Copy, Debug, PartialEq, Eq, Hash, Structural)]
pub struct StateRoot(pub u64);

/// The owner of a deployed program.
#[derive(Clone, Copy, Debug, PartialEq, Eq, Hash, Structural)]
pub struct ProgramOwner(pub u64);

/// A verifying key for one program function.
#[derive(Clone, Copy, Debug, PartialEq, Eq, Hash, Structural)]
pub struct VerifyingKey(pub u64);

/// A certificate for one program function's verifying key.
#[derive(Clone, Copy, Debug, PartialEq, Eq, Hash, Structural)]
pub struct Certificate(pub u64);

/// An inclusion proof attached to a fee.
#[derive(Clone, Copy, Debug, PartialEq, Eq, Hash, Structural)]
pub struct Proof(pub u64);

/// A map key naming a program at an edition.
#[derive(Clone, Copy, Debug, PartialEq, Eq, Hash, Structural)]
pub struct ProgramEdition {
    /// The program's identifier.
    pub program: ProgramId,
    /// The program's edition.
    pub edition: u16,
}

/// A map key naming one function of a program at an edition.
#[derive(Clone, Copy, Debug, PartialEq, Eq, Hash, Structural)]
pub struct FunctionKey {
    /// The program's identifier.
    pub program: ProgramId,
    /// The function's name.
    pub function: Identifier,
    /// The program's edition.
    pub edition: u16,
}

/// An opaque, id-addressed record of one state transition.
#[derive(Clone, Copy, Debug, PartialEq, Eq, Hash, Structural)]
pub struct Transition {
    /// The transition's identifier.
    pub id: TransitionId,
    /// The transition's opaque content.
    pub payload: u64,
}

impl Transition {
    /// The transition's identifier.
    pub fn id(&self) -> (r: TransitionId)
        ensures
            r == self.id,
    {
        self.id
    }
}

/// The fee of an execute transaction: a plain transition.
pub type AdditionalFee = Transition;

/// The fee of a deploy transaction: a transition plus the state root it was
/// computed against and an optional inclusion proof.
#[derive(Clone, Copy, Debug, PartialEq, Eq, Structural)]
pub struct Fee {
    /// The fee transition.
    pub transition: Transition,
    /// The global state root the fee was computed against.
    pub global_state_root: StateRoot,
    /// The optional inclusion proof.
    pub inclusion_proof: Option<Proof>,
}

impl Fee {
    /// Builds a fee from its parts.
    pub fn from(transition: Transition, global_state_root: StateRoot, inclusion_proof: Option<
        Proof,
    >) -> (r: Fee)
        ensures
            r == (Fee { transition, global_state_root, inclusion_proof }),
    {
        Fee { transition, global_state_root, inclusion_proof }
    }

    /// The fee transition's identifier.
    pub fn transition_id(&self) -> (r: TransitionId)
        ensures
            r == self.transition.id,
    {
        self.transition.id
    }
}

/// A program: an identifier plus its function names, in declaration order.
#[derive(Clone, Debug, PartialEq, Eq)]
pub struct Program {
    /// The program's identifier.
    pub id: ProgramId,
    /// The program's function names, in declaration order.
    pub functions: Vec<Identifier>,
}

/// The mathematical content of a [`Program`].
#[verifier::ext_equal]
pub struct ProgramData {
    /// The program's identifier.
    pub id: ProgramId,
    /// The program's function names, in declaration order.
    pub functions: Seq<Identifier>,
}

impl View for Program {
    type V = ProgramData;

    open spec fn view(&self) -> ProgramData {
        ProgramData { id: self.id, functions: self.functions@ }
    }
}

impl Program {
    /// Builds a program from its identifier and function names.
    pub fn new(id: ProgramId, functions: Vec<Identifier>) -> (r: Program)
        ensures
            r@.id == id,
            r@.functions == functions@,
    {
        Program { id, functions }
    }

    /// The program's identifier.
    pub fn id(&self) -> (r: ProgramId)
        ensures
            r == self@.id,
    {
        self.id
    }

    /// The program's function names, in declaration order.
    pub fn functions(&self) -> (r: &Vec<Identifier>)
        ensures
            r@ == self@.functions,
    {
        &self.functions
    }
}

/// The payload of a deploy transaction: a program at an edition, with a
/// verifying key and certificate for each of its functions.
#[derive(Clone, Debug, PartialEq, Eq)]
pub struct Deployment {
    /// The program's edition.
    pub edition: u16,
    /// The deployed program.
    pub program: Program,
    /// One `(function name, (verifying key, certificate))` entry per program
    /// function, in the program's declaration order.
    pub verifying_keys: Vec<(Identifier, (VerifyingKey, Certificate))>,
}

/// The mathematical content of a [`Deployment`].
#[verifier::ext_equal]
pub struct DeploymentData {
    /// The program's edition.
    pub edition: u16,
    /// The deployed program.
    pub program: ProgramData,
    /// The verifying key and certificate entries.
    pub verifying_keys: Seq<(Identifier, (VerifyingKey, Certificate))>,
}

impl View for Deployment {
    type V = DeploymentData;

    open spec fn view(&self) -> DeploymentData {
        DeploymentData {
            edition: self.edition,
            program: self.program@,
            verifying_keys: self.verifying_keys@,
        }
    }
}

impl DeploymentData {
    /// Whether the deployment is structurally sound: exactly one verifying
    /// key entry per program function, in declaration order, with function
    /// names pairwise distinct.
    pub open spec fn is_ordered(self) -> bool {
        &&& self.verifying_keys.len() == self.program.functions.len()
        &&& (forall|i: int|
            0 <= i < self.verifying_keys.len() ==> self.verifying_keys[i].0
                == self.program.functions[i])
        &&& (forall|i: int, j: int|
            0 <= i < j < self.program.functions.len() ==> self.program.functions[i]
                != self.program.functions[j])
    }
}

impl Deployment {
    /// Builds a deployment from its parts.
    pub fn new(edition: u16, program: Program, verifying_keys: Vec<
        (Identifier, (VerifyingKey, Certificate)),
    >) -> (r: Deployment)
        ensures
            r@ == (DeploymentData {
                edition,
                program: program@,
                verifying_keys: verifying_keys@,
            }),
    {
        Deployment { edition, program, verifying_keys }
    }

    /// The deployment's edition.
    pub fn edition(&self) -> (r: u16)
        ensures
            r == self@.edition,
    {
        self.edition
    }

    /// The deployed program.
    pub fn program(&self) -> (r: &Program)
        ensures
            r@ == self@.program,
    {
        &self.program
    }

    /// The program's identifier.
    pub fn program_id(&self) -> (r: ProgramId)
        ensures
            r == self@.program.id,
    {
        self.program.id
    }

    /// The verifying key and certificate entries.
    pub fn verifying_keys(&self) -> (r: &Vec<(Identifier, (VerifyingKey, Certificate))>)
        ensures
            r@ == self@.verifying_keys,
    {
        &self.verifying_keys
    }

    /// Whether the deployment is structurally sound; see
    /// [`DeploymentData::is_ordered`].
    pub fn check_is_ordered(&self) -> (r: bool)
        ensures
            r == self@.is_ordered(),
    {
        if self.verifying_keys.len() != self.program.functions.len() {
            return false;
        }
        let n = self.program.functions.len();
        let mut i: usize = 0;
        while i < n
            invariant
                n == self.program.functions@.len(),
                n == self.verifying_keys@.len(),
                i <= n,
                forall|p: int| 0 <= p < i ==> self.verifying_keys@[p].0 == self.program.functions@[p],
                forall|p: int, q: int|
                    0 <= p < q < i ==> self.program.functions@[p] != self.program.functions@[q],
            decreases n - i,
        {
            if !self.verifying_keys[i].0.same(&self.program.functions[i]) {
                return false;
            }
            let mut j: usize = 0;
            while j < i
                invariant
                    i < n,
                    n == self.program.functions@.len(),
                    j <= i,
                    forall|p: int| 0 <= p < j ==> self.program.functions@[p] != self.program.functions@[i as int],
                decreases i - j,
            {
                if self.program.functions[j].same(&self.program.functions[i]) {
                    return false;
                }
                j = j + 1;
            }
            i = i + 1;
        }
        true
    }
}

/// The payload of an execute transaction: transitions at an edition, in
/// execution order.
#[derive(Clone, Debug, PartialEq, Eq)]
pub struct Execution {
    /// The execution's edition.
    pub edition: u16,
    /// The transitions, in execution order.
    pub transitions: Vec<Transition>,
}

/// The mathematical content of an [`Execution`].
#[verifier::ext_equal]
pub struct ExecutionData {
    /// The execution's edition.
    pub edition: u16,
    /// The transitions, in execution order.
    pub transitions: Seq<Transition>,
}

impl View for Execution {
    type V = ExecutionData;

    open spec fn view(&self) -> ExecutionData {
        ExecutionData { edition: self.edition, transitions: self.transitions@ }
    }
}

impl ExecutionData {
    /// The transition identifiers, in execution order.
    pub open spec fn transition_ids(self) -> Seq<TransitionId> {
        self.transitions.map_values(|t: Transition| t.id)
    }
}

impl Execution {
    /// Builds an execution from its edition and transitions.
    pub fn from(edition: u16, transitions: Vec<Transition>) -> (r: Execution)
        ensures
            r@ == (ExecutionData { edition, transitions: transitions@ }),
    {
        Execution { edition, transitions }
    }

    /// The execution's edition.
    pub fn edition(&self) -> (r: u16)
        ensures
            r == self@.edition,
    {
        self.edition
    }

    /// The transitions, in execution order.
    pub fn transitions(&self) -> (r: &Vec<Transition>)
        ensures
            r@ == self@.transitions,
    {
        &self.transitions
    }
}

/// The kind of a stored transaction.
#[derive(Clone, Copy, Debug, PartialEq, Eq, Hash, Structural)]
pub enum TransactionType {
    /// A transaction that is a deployment.
    Deploy,
    /// A transaction that is an execution.
    Execute,
}

/// A top-level unit of work: a deploy or an execute transaction.
#[derive(Clone, Debug, PartialEq, Eq)]
pub enum Transaction {
    /// A deploy transaction: id, program owner, deployment, fee.
    Deploy(TransactionId, ProgramOwner, Deployment, Fee),
    /// An execute transaction: id, execution, optional fee transition.
    Execute(TransactionId, Execution, Option<AdditionalFee>),
}

/// The mathematical content of a [`Transaction`].
#[verifier::ext_equal]
pub enum TransactionData {
    /// A deploy transaction: id, program owner, deployment, fee.
    Deploy(TransactionId, ProgramOwner, DeploymentData, Fee),
    /// An execute transaction: id, execution, optional fee transition.
    Execute(TransactionId, ExecutionData, Option<AdditionalFee>),
}

impl View for Transaction {
    type V = TransactionData;

    open spec fn view(&self) -> TransactionData {
        match self {
            Transaction::Deploy(id, owner, deployment, fee) => TransactionData::Deploy(
                *id,
                *owner,
                deployment@,
                *fee,
            ),
            Transaction::Execute(id, execution, fee) => TransactionData::Execute(
                *id,
                execution@,
                *fee,
            ),
        }
    }
}

/// One mixing step of the content digest.
pub open spec fn mix(a: u64, b: u64) -> u64 {
    vstd::wrapping::u64_specs::wrapping_add(vstd::wrapping::u64_specs::wrapping_mul(a, 0x100000001b3), b)
}

/// A sequence of words folded into an accumulator, left to right.
pub open spec fn fold_mix(acc: u64, s: Seq<u64>) -> u64
    decreases s.len(),
{
    if s.len() == 0 {
        acc
    } else {
        mix(fold_mix(acc, s.drop_last()), s.last())
    }
}

/// The digest word of one transition.
pub open spec fn transition_word(t: Transition) -> u64 {
    mix(t.id.0, t.payload)
}

/// The digest word of one verifying key entry.
pub open spec fn vk_word(entry: (Identifier, (VerifyingKey, Certificate))) -> u64 {
    mix(mix(entry.0.0, entry.1.0.0), entry.1.1.0)
}

/// The digest word of a fee.
pub open spec fn fee_word(fee: Fee) -> u64 {
    mix(
        mix(transition_word(fee.transition), fee.global_state_root.0),
        match fee.inclusion_proof {
            Some(p) => mix(1, p.0),
            None => 0,
        },
    )
}

/// The content digest of a deployment.
pub open spec fn deployment_digest(d: DeploymentData) -> u64 {
    fold_mix(
        fold_mix(
            mix(mix(d.edition as u64, d.program.id.0), d.program.functions.len() as u64),
            d.program.functions.map_values(|f: Identifier| f.0),
        ),
        d.verifying_keys.map_values(|e: (Identifier, (VerifyingKey, Certificate))| vk_word(e)),
    )
}

/// The content id of a deploy transaction's payload.
pub open spec fn deploy_content_id(owner: ProgramOwner, d: DeploymentData, fee: Fee) -> TransactionId {
    TransactionId(mix(mix(mix(1, owner.0), deployment_digest(d)), fee_word(fee)))
}

/// The content id of an execute transaction's payload.
pub open spec fn execute_content_id(e: ExecutionData, fee: Option<AdditionalFee>) -> TransactionId {
    TransactionId(
        mix(
            fold_mix(
                mix(2, e.edition as u64),
                e.transitions.map_values(|t: Transition| transition_word(t)),
            ),
            match fee {
                Some(t) => mix(1, transition_word(t)),
                None => 0,
            },
        ),
    )
}

impl TransactionData {
    /// The transaction's identifier.
    pub open spec fn spec_id(self) -> TransactionId {
        match self {
            TransactionData::Deploy(id, _, _, _) => id,
            TransactionData::Execute(id, _, _) => id,
        }
    }

    /// The content digest the transaction's id must equal.
    pub open spec fn content_id(self) -> TransactionId {
        match self {
            TransactionData::Deploy(_, owner, d, fee) => deploy_content_id(owner, d, fee),
            TransactionData::Execute(_, e, fee) => execute_content_id(e, fee),
        }
    }

    /// Well-formedness of a transaction: its id is the digest of its
    /// payload, a deployment is ordered, and an execution's transition ids
    /// (fee included) are pairwise distinct.
    pub open spec fn wf(self) -> bool {
        &&& self.spec_id() == self.content_id()
        &&& (match self {
            TransactionData::Deploy(_, _, d, _) => d.is_ordered(),
            TransactionData::Execute(_, e, fee) => {
                &&& (forall|i: int, j: int|
                    0 <= i < j < e.transitions.len() ==> e.transitions[i].id != e.transitions[j].id)
                &&& (match fee {
                    Some(t) => forall|i: int|
                        0 <= i < e.transitions.len() ==> e.transitions[i].id != t.id,
                    None => true,
                })
            },
        })
    }
}

fn mix_exec(a: u64, b: u64) -> (r: u64)
    ensures
        r == mix(a, b),
{
    a.wrapping_mul(0x100000001b3).wrapping_add(b)
}

fn fold_identifiers(acc: u64, s: &Vec<Identifier>) -> (r: u64)
    ensures
        r == fold_mix(acc, s@.map_values(|f: Identifier| f.0)),
{
    let ghost words = s@.map_values(|f: Identifier| f.0);
    let mut out: u64 = acc;
    let mut i: usize = 0;
    while i < s.len()
        invariant
            i <= s@.len(),
            words == s@.map_values(|f: Identifier| f.0),
            out == fold_mix(acc, words.take(i as int)),
        decreases s@.len() - i,
    {
        proof {
            assert(words.take(i + 1).drop_last() =~= words.take(i as int));
            assert(words.take(i + 1).last() == words[i as int]);
        }
        out = mix_exec(out, s[i].0);
        i = i + 1;
    }
    proof {
        assert(words.take(words.len() as int) =~= words);
    }
    out
}

fn fold_vk_entries(acc: u64, s: &Vec<(Identifier, (VerifyingKey, Certificate))>) -> (r: u64)
    ensures
        r == fold_mix(
            acc,
            s@.map_values(|e: (Identifier, (VerifyingKey, Certificate))| vk_word(e)),
        ),
{
    let ghost words = s@.map_values(|e: (Identifier, (VerifyingKey, Certificate))| vk_word(e));
    let mut out: u64 = acc;
    let mut i: usize = 0;
    while i < s.len()
        invariant
            i <= s@.len(),
            words == s@.map_values(|e: (Identifier, (VerifyingKey, Certificate))| vk_word(e)),
            out == fold_mix(acc, words.take(i as int)),
        decreases s@.len() - i,
    {
        proof {
            assert(words.take(i + 1).drop_last() =~= words.take(i as int));
            assert(words.take(i + 1).last() == words[i as int]);
        }
        let entry = s[i];
        out = mix_exec(out, mix_exec(mix_exec(entry.0.0, entry.1.0.0), entry.1.1.0));
        i = i + 1;
    }
    proof {
        assert(words.take(words.len() as int) =~= words);
    }
    out
}

fn fold_transitions(acc: u64, s: &Vec<Transition>) -> (r: u64)
    ensures
        r == fold_mix(acc, s@.map_values(|t: Transition| transition_word(t))),
{
    let ghost words = s@.map_values(|t: Transition| transition_word(t));
    let mut out: u64 = acc;
    let mut i: usize = 0;
    while i < s.len()
        invariant
            i <= s@.len(),
            words == s@.map_values(|t: Transition| transition_word(t)),
            out == fold_mix(acc, words.take(i as int)),
        decreases s@.len() - i,
    {
        proof {
            assert(words.take(i + 1).drop_last() =~= words.take(i as int));
            assert(words.take(i + 1).last() == words[i as int]);
        }
        out = mix_exec(out, mix_exec(s[i].id.0, s[i].payload));
        i = i + 1;
    }
    proof {
        assert(words.take(words.len() as int) =~= words);
    }
    out
}

fn fee_word_exec(fee: &Fee) -> (r: u64)
    ensures
        r == fee_word(*fee),
{
    let proof_word: u64 = match fee.inclusion_proof {
        Some(p) => mix_exec(1, p.0),
        None => 0,
    };
    mix_exec(
        mix_exec(mix_exec(fee.transition.id.0, fee.transition.payload), fee.global_state_root.0),
        proof_word,
    )
}

impl Transaction {
    /// The transaction's identifier.
    pub fn id(&self) -> (r: TransactionId)
        ensures
            r == self@.spec_id(),
    {
        match self {
            Transaction::Deploy(id, _, _, _) => *id,
            Transaction::Execute(id, _, _) => *id,
        }
    }

    /// Builds a deploy transaction, deriving its id from the payload.
    pub fn from_deployment(owner: ProgramOwner, deployment: Deployment, fee: Fee) -> (r:
        Transaction)
        ensures
            r@ == TransactionData::Deploy(
                deploy_content_id(owner, deployment@, fee),
                owner,
                deployment@,
                fee,
            ),
            deployment@.is_ordered() ==> r@.wf(),
    {
        let head = mix_exec(mix_exec(deployment.edition as u64, deployment.program.id.0), deployment.program.functions.len() as u64);
        let body = fold_vk_entries(
            fold_identifiers(head, &deployment.program.functions),
            &deployment.verifying_keys,
        );
        let digest = mix_exec(mix_exec(mix_exec(1, owner.0), body), fee_word_exec(&fee));
        Transaction::Deploy(TransactionId(digest), owner, deployment, fee)
    }

    /// Builds an execute transaction, deriving its id from the payload.
    pub fn from_execution(execution: Execution, additional_fee: Option<AdditionalFee>) -> (r:
        Transaction)
        ensures
            r@ == TransactionData::Execute(
                execute_content_id(execution@, additional_fee),
                execution@,
                additional_fee,
            ),
    {
        let body = fold_transitions(mix_exec(2, execution.edition as u64), &execution.transitions);
        let fee_part: u64 = match &additional_fee {
            Some(t) => mix_exec(1, mix_exec(t.id.0, t.payload)),
            None => 0,
        };
        let digest = mix_exec(body, fee_part);
        Transaction::Execute(TransactionId(digest), execution, additional_fee)
    }
}

impl StoreKey for TransactionId {
    fn same(&self, other: &Self) -> (r: bool) {
        self.0 == other.0
    }
}

impl StoreKey for ProgramId {
    fn same(&self, other: &Self) -> (r: bool) {
        self.0 == other.0
    }
}

impl StoreKey for TransitionId {
    fn same(&self, other: &Self) -> (r: bool) {
        self.0 == other.0
    }
}

impl StoreKey for Identifier {
    fn same(&self, other: &Self) -> (r: bool) {
        self.0 == other.0
    }
}

impl StoreKey for ProgramEdition {
    fn same(&self, other: &Self) -> (r: bool) {
        self.program.0 == other.program.0 && self.edition == other.edition
    }
}

impl StoreKey for FunctionKey {
    fn same(&self, other: &Self) -> (r: bool) {
        self.program.0 == other.program.0 && self.function.0 == other.function.0 && self.edition
            == other.edition
    }
}

} // verus!
