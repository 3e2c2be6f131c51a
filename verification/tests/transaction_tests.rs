use ledger_store::deployment::DeploymentStore;
use ledger_store::errors::StoreError;
use ledger_store::execution::ExecutionStore;
use ledger_store::transaction::TransactionStore;
use ledger_store::transition_store::TransitionStore;
use ledger_store::types::{
    Certificate, Deployment, Execution, Fee, Identifier, Program, ProgramId, ProgramOwner, Proof,
    StateRoot, Transaction, TransactionId, Transition, TransitionId, VerifyingKey,
};

fn fresh_store() -> TransactionStore {
    let deployment_store = DeploymentStore::open(TransitionStore::open(None).unwrap()).unwrap();
    let execution_store = ExecutionStore::new(TransitionStore::open(None).unwrap());
    TransactionStore::new(deployment_store, execution_store)
}

fn sample_deploy() -> Transaction {
    let program = Program::new(ProgramId(101), vec![Identifier(7)]);
    let deployment = Deployment::new(
        7,
        program,
        vec![(Identifier(7), (VerifyingKey(1001), Certificate(2002)))],
    );
    let fee = Fee::from(
        Transition { id: TransitionId(501), payload: 9 },
        StateRoot(77),
        Some(Proof(3)),
    );
    Transaction::from_deployment(ProgramOwner(55), deployment, fee)
}

fn sample_execute() -> Transaction {
    let execution = Execution::from(
        3,
        vec![
            Transition { id: TransitionId(601), payload: 11 },
            Transition { id: TransitionId(602), payload: 12 },
        ],
    );
    Transaction::from_execution(execution, Some(Transition { id: TransitionId(650), payload: 99 }))
}

#[test]
fn dispatch_round_trip_both_kinds() {
    // The kind tag sends each lookup to the right schema.
    let deploy = sample_deploy();
    let execute = sample_execute();
    let mut store = fresh_store();

    store.insert(&deploy).unwrap();
    store.insert(&execute).unwrap();

    assert_eq!(store.get_transaction(&deploy.id()).unwrap(), Some(deploy.clone()));
    assert_eq!(store.get_transaction(&execute.id()).unwrap(), Some(execute.clone()));
    assert!(store.get_deployment(&deploy.id()).unwrap().is_some());
    assert!(store.get_execution(&execute.id()).unwrap().is_some());
    assert_eq!(store.get_edition(&deploy.id()).unwrap(), Some(7));
    assert_eq!(store.get_edition(&execute.id()).unwrap(), Some(3));
    assert_eq!(
        store.get_additional_fee(&deploy.id()).unwrap(),
        Some(Transition { id: TransitionId(501), payload: 9 })
    );
    assert_eq!(
        store.get_additional_fee(&execute.id()).unwrap(),
        Some(Transition { id: TransitionId(650), payload: 99 })
    );
    assert_eq!(store.find_transaction_id(&TransitionId(601)).unwrap(), Some(execute.id()));
    assert_eq!(store.find_deployment_id(&ProgramId(101)).unwrap(), Some(deploy.id()));
    assert!(store.contains_transaction_id(&deploy.id()).unwrap());
    assert_eq!(store.transaction_ids().len(), 2);

    store.remove(&deploy.id()).unwrap();
    store.remove(&execute.id()).unwrap();
    assert_eq!(store.get_transaction(&deploy.id()).unwrap(), None);
    assert_eq!(store.get_transaction(&execute.id()).unwrap(), None);
    assert!(store.transaction_ids().is_empty());
}

#[test]
fn mismatched_kind_requests_fail() {
    // Asking a deploy for its execution, or the other way round, is the
    // wrong kind of request.
    let deploy = sample_deploy();
    let execute = sample_execute();
    let mut store = fresh_store();
    store.insert(&deploy).unwrap();
    store.insert(&execute).unwrap();

    assert_eq!(store.get_execution(&deploy.id()), Err(StoreError::WrongKind));
    assert_eq!(store.get_deployment(&execute.id()), Err(StoreError::WrongKind));
}

#[test]
fn unknown_transaction_lookups() {
    // An unknown id is simply absent for the whole-transaction lookup; the
    // kind-specific lookups report the failed tag lookup.
    let store = fresh_store();
    let unknown = TransactionId(424242);
    assert_eq!(store.get_transaction(&unknown).unwrap(), None);
    assert_eq!(store.get_deployment(&unknown), Err(StoreError::NotFound));
    assert_eq!(store.get_execution(&unknown), Err(StoreError::NotFound));
    assert_eq!(store.get_edition(&unknown), Err(StoreError::NotFound));
    assert_eq!(store.get_additional_fee(&unknown), Err(StoreError::NotFound));
    assert!(!store.contains_transaction_id(&unknown).unwrap());
}

#[test]
fn remove_unknown_transaction_is_not_found() {
    let mut store = fresh_store();
    assert_eq!(store.remove(&TransactionId(5)), Err(StoreError::NotFound));
}

#[test]
fn finalize_commits_both_inserts_atomically() {
    // S6: inside one top-level finalize, two inserts land together; before
    // the commit, neither is visible in the confirmed state.
    let deploy = sample_deploy();
    let execute = sample_execute();
    let mut store = fresh_store();

    store.atomic_finalize_begin().unwrap();
    store.insert(&deploy).unwrap();
    store.insert(&execute).unwrap();

    // Were the process to stop here, nothing would be committed.
    assert_eq!(store.get_transaction(&deploy.id()).unwrap(), None);
    assert_eq!(store.get_transaction(&execute.id()).unwrap(), None);

    store.finish_atomic().unwrap();
    assert_eq!(store.get_transaction(&deploy.id()).unwrap(), Some(deploy));
    assert_eq!(store.get_transaction(&execute.id()).unwrap(), Some(execute));
}

#[test]
fn finalize_while_batch_open_is_usage_violation() {
    // The top-level finalize is exclusive; a second one must be refused and
    // must write nothing.
    let mut store = fresh_store();
    store.atomic_finalize_begin().unwrap();
    assert_eq!(store.atomic_finalize_begin(), Err(StoreError::UsageViolation));
    assert!(store.is_atomic_in_progress());
    store.abort_atomic();
    assert!(!store.is_atomic_in_progress());
}

#[test]
fn failed_nested_insert_rewinds_only_itself() {
    // A malformed insert inside an open finalize rewinds its own writes,
    // its kind tag included; earlier and later work still commits.
    let deploy = sample_deploy();
    let execute = sample_execute();
    let malformed = Transaction::from_deployment(
        ProgramOwner(1),
        Deployment::new(
            1,
            Program::new(ProgramId(77), vec![Identifier(1)]),
            vec![],
        ),
        Fee::from(Transition { id: TransitionId(801), payload: 1 }, StateRoot(1), None),
    );
    let mut store = fresh_store();

    store.atomic_finalize_begin().unwrap();
    store.insert(&deploy).unwrap();
    assert_eq!(store.insert(&malformed), Err(StoreError::MalformedInput));
    store.insert(&execute).unwrap();
    store.finish_atomic().unwrap();

    assert_eq!(store.get_transaction(&deploy.id()).unwrap(), Some(deploy));
    assert_eq!(store.get_transaction(&execute.id()).unwrap(), Some(execute));
    assert_eq!(store.get_transaction(&malformed.id()).unwrap(), None);
}

#[test]
fn failed_top_level_insert_stages_nothing() {
    // A rejected top-level insert leaves an open, empty batch and no
    // confirmed writes; an abort then closes it.
    let malformed = Transaction::from_deployment(
        ProgramOwner(1),
        Deployment::new(
            1,
            Program::new(ProgramId(77), vec![Identifier(1)]),
            vec![],
        ),
        Fee::from(Transition { id: TransitionId(801), payload: 1 }, StateRoot(1), None),
    );
    let mut store = fresh_store();
    assert_eq!(store.insert(&malformed), Err(StoreError::MalformedInput));
    // The scope's rewind keeps the batch open; nothing was written.
    assert!(store.is_atomic_in_progress());
    assert_eq!(store.get_transaction(&malformed.id()).unwrap(), None);
    store.abort_atomic();
    assert!(!store.is_atomic_in_progress());
}

#[test]
fn dev_tag_propagates_from_transition_store() {
    let deployment_store =
        DeploymentStore::open(TransitionStore::open(Some(5)).unwrap()).unwrap();
    assert_eq!(deployment_store.dev(), Some(5));
    let untagged = DeploymentStore::open(TransitionStore::open(None).unwrap()).unwrap();
    assert_eq!(untagged.dev(), None);
}
