use ledger_store::errors::StoreError;
use ledger_store::execution::ExecutionStore;
use ledger_store::transition_store::TransitionStore;
use ledger_store::types::{Execution, Transaction, TransactionId, Transition, TransitionId};

fn sample_execution_transaction() -> Transaction {
    let execution = Execution::from(
        3,
        vec![
            Transition { id: TransitionId(601), payload: 11 },
            Transition { id: TransitionId(602), payload: 12 },
            Transition { id: TransitionId(603), payload: 13 },
        ],
    );
    Transaction::from_execution(execution, None)
}

#[test]
fn execution_test_insert_get_remove() {
    // Sample the execution transaction.
    let transaction = sample_execution_transaction();
    let transaction_id = transaction.id();

    // Initialize a new transition store.
    let transition_store = TransitionStore::open(None).unwrap();
    // Initialize a new execution store.
    let mut execution_store = ExecutionStore::new(transition_store);

    // Ensure the execution transaction does not exist.
    let candidate = execution_store.get_transaction(&transaction_id).unwrap();
    assert_eq!(None, candidate);

    // Insert the execution transaction.
    execution_store.insert(&transaction).unwrap();

    // Retrieve the execution transaction.
    let candidate = execution_store.get_transaction(&transaction_id).unwrap();
    assert_eq!(Some(transaction), candidate);

    // Remove the execution.
    execution_store.remove(&transaction_id).unwrap();

    // Ensure the execution transaction does not exist.
    let candidate = execution_store.get_transaction(&transaction_id).unwrap();
    assert_eq!(None, candidate);
}

#[test]
fn execution_test_find_transaction_id() {
    // Sample the execution transaction.
    let transaction = sample_execution_transaction();
    let transaction_id = transaction.id();
    let transition_ids = match transaction {
        Transaction::Execute(_, ref execution, _) => {
            execution.transitions().iter().map(|transition| transition.id).collect::<Vec<_>>()
        }
        _ => panic!("Incorrect transaction type"),
    };

    // Initialize a new transition store.
    let transition_store = TransitionStore::open(None).unwrap();
    // Initialize a new execution store.
    let mut execution_store = ExecutionStore::new(transition_store);

    // Ensure the execution transaction does not exist.
    let candidate = execution_store.get_transaction(&transaction_id).unwrap();
    assert_eq!(None, candidate);

    for transition_id in transition_ids {
        // Ensure the transaction ID is not found.
        let candidate = execution_store.find_transaction_id(&transition_id).unwrap();
        assert_eq!(None, candidate);

        // Insert the execution.
        execution_store.insert(&transaction).unwrap();

        // Find the transaction ID.
        let candidate = execution_store.find_transaction_id(&transition_id).unwrap();
        assert_eq!(Some(transaction_id), candidate);

        // Remove the execution.
        execution_store.remove(&transaction_id).unwrap();

        // Ensure the transaction ID is not found.
        let candidate = execution_store.find_transaction_id(&transition_id).unwrap();
        assert_eq!(None, candidate);
    }
}

#[test]
fn execution_content_id_exact_value() {
    // The digest formula pinned on one concrete transaction.
    let transaction = sample_execution_transaction();
    assert_eq!(transaction.id().0, 5965378398474491887u64);
    assert_eq!(sample_execution_transaction().id(), transaction.id());
}

#[test]
fn execution_three_transitions_no_fee() {
    // S3: three transitions, no fee; every index entry points back.
    let transaction = sample_execution_transaction();
    let transaction_id = transaction.id();

    let transition_store = TransitionStore::open(None).unwrap();
    let mut store = ExecutionStore::new(transition_store);
    store.insert(&transaction).unwrap();

    assert_eq!(store.get_transaction(&transaction_id).unwrap(), Some(transaction));
    for tid in [TransitionId(601), TransitionId(602), TransitionId(603)] {
        assert_eq!(store.find_transaction_id(&tid).unwrap(), Some(transaction_id));
    }
    assert_eq!(store.get_edition(&transaction_id).unwrap(), Some(3));
    assert_eq!(store.get_additional_fee(&transaction_id).unwrap(), None);
    let execution = store.get_execution(&transaction_id).unwrap().unwrap();
    assert_eq!(execution.edition(), 3);
    assert_eq!(execution.transitions().len(), 3);
}

#[test]
fn execution_with_fee_transition() {
    // S4: two transitions plus a fee transition; the fee indexes back and
    // reads back whole.
    let fee = Transition { id: TransitionId(650), payload: 99 };
    let execution = Execution::from(
        2,
        vec![
            Transition { id: TransitionId(611), payload: 21 },
            Transition { id: TransitionId(612), payload: 22 },
        ],
    );
    let transaction = Transaction::from_execution(execution, Some(fee));
    let transaction_id = transaction.id();

    let transition_store = TransitionStore::open(None).unwrap();
    let mut store = ExecutionStore::new(transition_store);
    store.insert(&transaction).unwrap();

    assert_eq!(store.find_transaction_id(&TransitionId(650)).unwrap(), Some(transaction_id));
    assert_eq!(store.get_additional_fee(&transaction_id).unwrap(), Some(fee));
    assert_eq!(store.get_transaction(&transaction_id).unwrap(), Some(transaction));

    // Removal clears the fee's reverse entry too.
    store.remove(&transaction_id).unwrap();
    assert_eq!(store.find_transaction_id(&TransitionId(650)).unwrap(), None);
    assert_eq!(store.get_transaction(&transaction_id).unwrap(), None);
}

#[test]
fn execution_rejects_deploy_transaction() {
    let transaction = Transaction::from_deployment(
        ledger_store::types::ProgramOwner(1),
        ledger_store::types::Deployment::new(
            1,
            ledger_store::types::Program::new(ledger_store::types::ProgramId(5), vec![]),
            vec![],
        ),
        ledger_store::types::Fee::from(
            Transition { id: TransitionId(1), payload: 0 },
            ledger_store::types::StateRoot(0),
            None,
        ),
    );

    let transition_store = TransitionStore::open(None).unwrap();
    let mut store = ExecutionStore::new(transition_store);
    assert_eq!(store.insert(&transaction), Err(StoreError::WrongKind));
}

#[test]
fn execution_remove_unknown_is_not_found() {
    let transition_store = TransitionStore::open(None).unwrap();
    let mut store = ExecutionStore::new(transition_store);
    assert_eq!(store.remove(&TransactionId(3)), Err(StoreError::NotFound));
}

#[test]
fn execution_empty_transition_list_round_trip() {
    // An execution with no transitions and no fee still round-trips.
    let transaction = Transaction::from_execution(Execution::from(1, vec![]), None);
    let transaction_id = transaction.id();

    let transition_store = TransitionStore::open(None).unwrap();
    let mut store = ExecutionStore::new(transition_store);
    store.insert(&transaction).unwrap();
    assert_eq!(store.get_transaction(&transaction_id).unwrap(), Some(transaction));
    store.remove(&transaction_id).unwrap();
    assert_eq!(store.get_transaction(&transaction_id).unwrap(), None);
}
