use ledger_store::deployment::DeploymentStore;
use ledger_store::errors::StoreError;
use ledger_store::transition_store::TransitionStore;
use ledger_store::types::{
    Certificate, Deployment, Fee, Identifier, Program, ProgramId, ProgramOwner, Proof, StateRoot,
    Transaction, Transition, TransitionId,
};

fn sample_deployment_transaction() -> Transaction {
    let program = Program::new(ProgramId(101), vec![Identifier(7)]);
    let deployment = Deployment::new(
        7,
        program,
        vec![(Identifier(7), (ledger_store::types::VerifyingKey(1001), Certificate(2002)))],
    );
    let fee = Fee::from(
        Transition { id: TransitionId(501), payload: 9 },
        StateRoot(77),
        Some(Proof(3)),
    );
    Transaction::from_deployment(ProgramOwner(55), deployment, fee)
}

#[test]
fn deployment_test_insert_get_remove() {
    // Sample the deployment transaction.
    let transaction = sample_deployment_transaction();
    let transaction_id = transaction.id();

    // Initialize a new transition store.
    let transition_store = TransitionStore::open(None).unwrap();
    // Initialize a new deployment store.
    let mut deployment_store = DeploymentStore::open(transition_store).unwrap();

    // Ensure the deployment transaction does not exist.
    let candidate = deployment_store.get_transaction(&transaction_id).unwrap();
    assert_eq!(None, candidate);

    // Insert the deployment transaction.
    deployment_store.insert(&transaction).unwrap();

    // Retrieve the deployment transaction.
    let candidate = deployment_store.get_transaction(&transaction_id).unwrap();
    assert_eq!(Some(transaction), candidate);

    // Remove the deployment.
    deployment_store.remove(&transaction_id).unwrap();

    // Ensure the deployment transaction does not exist.
    let candidate = deployment_store.get_transaction(&transaction_id).unwrap();
    assert_eq!(None, candidate);
}

#[test]
fn deployment_test_find_transaction_id() {
    // Sample the deployment transaction.
    let transaction = sample_deployment_transaction();
    let transaction_id = transaction.id();
    let program_id = match transaction {
        Transaction::Deploy(_, _, ref deployment, _) => deployment.program_id(),
        _ => panic!("Incorrect transaction type"),
    };

    // Initialize a new transition store.
    let transition_store = TransitionStore::open(None).unwrap();
    // Initialize a new deployment store.
    let mut deployment_store = DeploymentStore::open(transition_store).unwrap();

    // Ensure the deployment transaction does not exist.
    let candidate = deployment_store.get_transaction(&transaction_id).unwrap();
    assert_eq!(None, candidate);

    // Ensure the transaction ID is not found.
    let candidate = deployment_store.find_transaction_id_from_program_id(&program_id).unwrap();
    assert_eq!(None, candidate);

    // Insert the deployment.
    deployment_store.insert(&transaction).unwrap();

    // Find the transaction ID.
    let candidate = deployment_store.find_transaction_id_from_program_id(&program_id).unwrap();
    assert_eq!(Some(transaction_id), candidate);

    // Remove the deployment.
    deployment_store.remove(&transaction_id).unwrap();

    // Ensure the transaction ID is not found.
    let candidate = deployment_store.find_transaction_id_from_program_id(&program_id).unwrap();
    assert_eq!(None, candidate);
}

#[test]
fn deployment_content_id_exact_value() {
    // The digest formula pinned on one concrete transaction.
    let transaction = sample_deployment_transaction();
    assert_eq!(transaction.id().0, 14309166907657400487u64);
    // Rebuilding the same transaction gives the same id.
    assert_eq!(sample_deployment_transaction().id(), transaction.id());
}

#[test]
fn deployment_full_lookups_after_insert_and_remove() {
    // S1 and S2: every lookup after one deploy, then all absent after its
    // removal.
    let transaction = sample_deployment_transaction();
    let transaction_id = transaction.id();
    let program_id = ProgramId(101);
    let function = Identifier(7);

    let transition_store = TransitionStore::open(None).unwrap();
    let mut store = DeploymentStore::open(transition_store).unwrap();
    store.insert(&transaction).unwrap();

    assert_eq!(store.get_edition(&program_id).unwrap(), Some(7));
    assert_eq!(store.get_program_id(&transaction_id).unwrap(), Some(program_id));
    let program = store.get_program(&program_id).unwrap().unwrap();
    assert_eq!(program.id(), program_id);
    assert_eq!(
        store.get_verifying_key(&program_id, &function).unwrap(),
        Some(ledger_store::types::VerifyingKey(1001))
    );
    assert_eq!(store.get_certificate(&program_id, &function).unwrap(), Some(Certificate(2002)));
    assert_eq!(store.get_owner(&program_id).unwrap(), Some(ProgramOwner(55)));
    let fee = store.get_fee(&transaction_id).unwrap().unwrap();
    assert_eq!(fee.transition_id(), TransitionId(501));
    assert_eq!(fee.global_state_root, StateRoot(77));
    assert_eq!(fee.inclusion_proof, Some(Proof(3)));
    assert_eq!(
        store.find_transaction_id_from_transition_id(&TransitionId(501)).unwrap(),
        Some(transaction_id)
    );
    assert!(store.contains_program_id(&program_id).unwrap());
    assert_eq!(store.deployment_transaction_ids(), vec![transaction_id]);
    assert_eq!(store.program_ids(), vec![program_id]);
    assert_eq!(store.programs().len(), 1);
    assert_eq!(store.verifying_keys().len(), 1);
    assert_eq!(store.certificates().len(), 1);

    store.remove(&transaction_id).unwrap();

    assert_eq!(store.get_transaction(&transaction_id).unwrap(), None);
    assert_eq!(store.get_deployment(&transaction_id).unwrap(), None);
    assert_eq!(store.get_edition(&program_id).unwrap(), None);
    assert_eq!(store.get_program(&program_id).unwrap(), None);
    assert_eq!(store.get_verifying_key(&program_id, &function).unwrap(), None);
    assert_eq!(store.get_certificate(&program_id, &function).unwrap(), None);
    assert_eq!(store.get_owner(&program_id).unwrap(), None);
    assert_eq!(store.get_fee(&transaction_id).unwrap(), None);
    assert_eq!(store.find_transaction_id_from_program_id(&program_id).unwrap(), None);
    assert_eq!(
        store.find_transaction_id_from_transition_id(&TransitionId(501)).unwrap(),
        None
    );
    assert!(store.deployment_transaction_ids().is_empty());
    assert!(store.program_ids().is_empty());
    assert!(store.programs().is_empty());
    assert!(store.verifying_keys().is_empty());
    assert!(store.certificates().is_empty());
}

#[test]
fn deployment_rejects_execute_transaction() {
    // A deployment store takes only deploy transactions.
    let execution = ledger_store::types::Execution::from(
        1,
        vec![Transition { id: TransitionId(601), payload: 11 }],
    );
    let transaction = Transaction::from_execution(execution, None);

    let transition_store = TransitionStore::open(None).unwrap();
    let mut store = DeploymentStore::open(transition_store).unwrap();
    assert_eq!(store.insert(&transaction), Err(StoreError::WrongKind));
}

#[test]
fn deployment_rejects_malformed_deployment() {
    // The verifying keys must line up with the program's functions.
    let program = Program::new(ProgramId(41), vec![Identifier(1), Identifier(2)]);
    let deployment = Deployment::new(
        1,
        program,
        vec![(Identifier(2), (ledger_store::types::VerifyingKey(5), Certificate(6)))],
    );
    let fee = Fee::from(Transition { id: TransitionId(900), payload: 1 }, StateRoot(1), None);
    let transaction = Transaction::from_deployment(ProgramOwner(1), deployment, fee);

    let transition_store = TransitionStore::open(None).unwrap();
    let mut store = DeploymentStore::open(transition_store).unwrap();
    assert_eq!(store.insert(&transaction), Err(StoreError::MalformedInput));
    // Nothing was written.
    assert_eq!(store.get_transaction(&transaction.id()).unwrap(), None);
}

#[test]
fn deployment_remove_unknown_is_not_found() {
    let transition_store = TransitionStore::open(None).unwrap();
    let mut store = DeploymentStore::open(transition_store).unwrap();
    assert_eq!(store.remove(&ledger_store::types::TransactionId(1)), Err(StoreError::NotFound));
}

#[test]
fn deployment_overwritten_edition_reads_corrupt() {
    // A second deployment of the same program at a newer edition overwrites
    // the edition entry, so the first transaction no longer reconstructs to
    // its own id.
    let program = Program::new(ProgramId(101), vec![Identifier(7)]);
    let first = Transaction::from_deployment(
        ProgramOwner(55),
        Deployment::new(
            7,
            program.clone(),
            vec![(Identifier(7), (ledger_store::types::VerifyingKey(1001), Certificate(2002)))],
        ),
        Fee::from(Transition { id: TransitionId(501), payload: 9 }, StateRoot(77), None),
    );
    let second = Transaction::from_deployment(
        ProgramOwner(56),
        Deployment::new(
            8,
            program,
            vec![(Identifier(7), (ledger_store::types::VerifyingKey(1010), Certificate(2020)))],
        ),
        Fee::from(Transition { id: TransitionId(502), payload: 10 }, StateRoot(78), None),
    );

    let transition_store = TransitionStore::open(None).unwrap();
    let mut store = DeploymentStore::open(transition_store).unwrap();
    store.insert(&first).unwrap();
    store.insert(&second).unwrap();

    // The second deployment reads back; the first fails the id check.
    assert_eq!(store.get_transaction(&second.id()).unwrap(), Some(second));
    assert_eq!(store.get_transaction(&first.id()), Err(StoreError::Corrupt));
}

#[test]
fn deployment_rewind_to_start_leaves_nothing() {
    // S5: open a batch, insert, rewind back to the start, commit: the store
    // stays empty.
    let transaction = sample_deployment_transaction();
    let transaction_id = transaction.id();

    let transition_store = TransitionStore::open(None).unwrap();
    let mut store = DeploymentStore::open(transition_store).unwrap();

    store.start_atomic();
    assert!(store.is_atomic_in_progress());
    store.insert(&transaction).unwrap();
    store.atomic_rewind();
    store.finish_atomic().unwrap();

    assert!(!store.is_atomic_in_progress());
    assert_eq!(store.get_transaction(&transaction_id).unwrap(), None);
    assert!(store.deployment_transaction_ids().is_empty());
    assert!(store.program_ids().is_empty());
    assert!(store.verifying_keys().is_empty());
    assert!(store.certificates().is_empty());
}

#[test]
fn deployment_abort_discards_staged_insert() {
    // While staged, the confirmed view is empty; an abort discards all.
    let transaction = sample_deployment_transaction();
    let transaction_id = transaction.id();

    let transition_store = TransitionStore::open(None).unwrap();
    let mut store = DeploymentStore::open(transition_store).unwrap();

    store.start_atomic();
    store.insert(&transaction).unwrap();
    // The confirmed view does not see the staged writes.
    assert_eq!(store.get_transaction(&transaction_id).unwrap(), None);
    store.abort_atomic();
    assert!(!store.is_atomic_in_progress());
    assert_eq!(store.get_transaction(&transaction_id).unwrap(), None);
}

#[test]
fn deployment_empty_program_round_trip() {
    // A program with no functions still round-trips.
    let program = Program::new(ProgramId(9), vec![]);
    let deployment = Deployment::new(1, program, vec![]);
    let fee = Fee::from(Transition { id: TransitionId(700), payload: 2 }, StateRoot(5), None);
    let transaction = Transaction::from_deployment(ProgramOwner(4), deployment, fee);
    let transaction_id = transaction.id();

    let transition_store = TransitionStore::open(None).unwrap();
    let mut store = DeploymentStore::open(transition_store).unwrap();
    store.insert(&transaction).unwrap();
    assert_eq!(store.get_transaction(&transaction_id).unwrap(), Some(transaction));
    store.remove(&transaction_id).unwrap();
    assert_eq!(store.get_transaction(&transaction_id).unwrap(), None);
}

#[test]
fn store_error_descriptions_name_each_kind() {
    assert_eq!(StoreError::WrongKind.describe(), "wrong transaction kind for this store");
    assert_eq!(StoreError::MalformedInput.describe(), "structurally invalid input");
    assert_eq!(StoreError::NotFound.describe(), "entity not found");
    assert_eq!(StoreError::Corrupt.describe(), "storage is inconsistent");
    assert_eq!(StoreError::BackendIo.describe(), "backend read or write fault");
    assert_eq!(
        StoreError::UsageViolation.describe(),
        "an atomic batch is already in progress"
    );
    assert_eq!(
        StoreError::PartialCommit.describe(),
        "commit failed after a partial write"
    );
}
