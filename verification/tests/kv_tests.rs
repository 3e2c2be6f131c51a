use ledger_store::kv::KvMap;
use ledger_store::types::{ProgramId, TransactionId};

#[test]
fn speculative_view_overrides_confirmed() {
    // While a batch is open and has staged an insert, the speculative view
    // returns it even though the confirmed view does not; after the commit
    // both agree.
    let mut map: KvMap<TransactionId, ProgramId> = KvMap::new();
    map.start_atomic();
    map.insert(TransactionId(1), ProgramId(10));

    assert_eq!(map.get_confirmed(&TransactionId(1)), None);
    assert_eq!(map.get_speculative(&TransactionId(1)), Some(&ProgramId(10)));
    assert_eq!(map.get_pending(&TransactionId(1)), Some(Some(&ProgramId(10))));
    assert_eq!(map.get_pending(&TransactionId(2)), None);

    map.finish_atomic().unwrap();
    assert_eq!(map.get_confirmed(&TransactionId(1)), Some(&ProgramId(10)));
    assert_eq!(map.get_speculative(&TransactionId(1)), Some(&ProgramId(10)));
}

#[test]
fn speculative_view_sees_staged_removal() {
    // A staged removal hides a confirmed binding from the speculative view.
    let mut map: KvMap<TransactionId, ProgramId> = KvMap::new();
    map.insert(TransactionId(1), ProgramId(10));
    map.start_atomic();
    map.remove(&TransactionId(1));

    assert_eq!(map.get_confirmed(&TransactionId(1)), Some(&ProgramId(10)));
    assert_eq!(map.get_speculative(&TransactionId(1)), None);
    assert_eq!(map.get_pending(&TransactionId(1)), Some(None));

    map.finish_atomic().unwrap();
    assert_eq!(map.get_confirmed(&TransactionId(1)), None);
}

#[test]
fn abort_discards_everything_staged() {
    // After an abort, both views read the old confirmed state.
    let mut map: KvMap<TransactionId, ProgramId> = KvMap::new();
    map.start_atomic();
    map.insert(TransactionId(1), ProgramId(10));
    map.abort_atomic();

    assert!(!map.is_atomic_in_progress());
    assert_eq!(map.get_confirmed(&TransactionId(1)), None);
    assert_eq!(map.get_speculative(&TransactionId(1)), None);
}

#[test]
fn rewind_isolation_keeps_only_first_insert() {
    // Start, insert A, checkpoint, insert B, rewind, commit: only A
    // reaches the confirmed state.
    let mut map: KvMap<TransactionId, ProgramId> = KvMap::new();
    map.start_atomic();
    map.insert(TransactionId(1), ProgramId(10));
    map.atomic_checkpoint();
    map.insert(TransactionId(2), ProgramId(20));
    map.atomic_rewind();
    map.finish_atomic().unwrap();

    assert_eq!(map.get_confirmed(&TransactionId(1)), Some(&ProgramId(10)));
    assert_eq!(map.get_confirmed(&TransactionId(2)), None);
}

#[test]
fn rewind_without_checkpoint_discards_all() {
    let mut map: KvMap<TransactionId, ProgramId> = KvMap::new();
    map.start_atomic();
    map.insert(TransactionId(1), ProgramId(10));
    map.insert(TransactionId(2), ProgramId(20));
    map.atomic_rewind();
    map.finish_atomic().unwrap();

    assert_eq!(map.get_confirmed(&TransactionId(1)), None);
    assert_eq!(map.get_confirmed(&TransactionId(2)), None);
}

#[test]
fn staged_writes_commit_in_insertion_order() {
    // A later staged write for the same key wins.
    let mut map: KvMap<TransactionId, ProgramId> = KvMap::new();
    map.start_atomic();
    map.insert(TransactionId(1), ProgramId(10));
    map.insert(TransactionId(1), ProgramId(11));
    assert_eq!(map.pending_len(), 2);
    map.finish_atomic().unwrap();
    assert_eq!(map.get_confirmed(&TransactionId(1)), Some(&ProgramId(11)));
}

#[test]
fn pending_and_entry_enumeration() {
    // The staged writes and the committed bindings can be walked by index.
    let mut map: KvMap<TransactionId, ProgramId> = KvMap::new();
    map.insert(TransactionId(1), ProgramId(10));
    map.start_atomic();
    map.insert(TransactionId(2), ProgramId(20));
    map.remove(&TransactionId(1));

    assert_eq!(map.pending_len(), 2);
    assert_eq!(map.pending_at(0), &(TransactionId(2), Some(ProgramId(20))));
    assert_eq!(map.pending_at(1), &(TransactionId(1), None));
    assert_eq!(map.entries_len(), 1);
    assert_eq!(map.entry_at(0), &(TransactionId(1), ProgramId(10)));

    map.finish_atomic().unwrap();
    assert_eq!(map.pending_len(), 0);
    assert_eq!(map.entries_len(), 1);
    assert_eq!(map.entry_at(0), &(TransactionId(2), ProgramId(20)));
}

#[test]
fn direct_writes_outside_a_batch() {
    // Outside a batch, writes land in the confirmed state at once, and an
    // update overwrites in place.
    let mut map: KvMap<TransactionId, ProgramId> = KvMap::new();
    map.insert(TransactionId(1), ProgramId(10));
    map.insert(TransactionId(2), ProgramId(20));
    map.insert(TransactionId(1), ProgramId(30));
    assert_eq!(map.get_confirmed(&TransactionId(1)), Some(&ProgramId(30)));
    assert!(map.contains_key_confirmed(&TransactionId(2)));
    assert_eq!(map.entries_len(), 2);
    map.remove(&TransactionId(2));
    assert_eq!(map.get_confirmed(&TransactionId(2)), None);
    assert_eq!(map.entries_len(), 1);
    assert_eq!(map.keys_confirmed(), vec![TransactionId(1)]);
}
