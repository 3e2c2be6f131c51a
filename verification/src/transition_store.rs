//! The transition store: an id-addressed store of opaque transitions that
//! participates in atomic batches alongside the schema maps.

use vstd::prelude::*;
use crate::errors::StoreError;
use crate::kv::KvMap;
use crate::types::{Transition, TransitionId};

verus! {

/// Stores transitions under their own identifiers and takes part in the
/// batch protocol as one more participant.
pub struct TransitionStore {
    transitions: KvMap<TransitionId, Transition>,
    dev: Option<u16>,
}

impl TransitionStore {
    /// The underlying map of transition id to transition.
    pub closed spec fn transitions(self) -> KvMap<TransitionId, Transition> {
        self.transitions
    }

    /// The optional development-namespace tag.
    pub closed spec fn dev_tag(self) -> Option<u16> {
        self.dev
    }

    /// Whether an atomic batch is open on this store.
    pub open spec fn in_batch(self) -> bool {
        self.transitions().in_batch()
    }

    /// Well-formedness of the underlying map.
    pub open spec fn wf(self) -> bool {
        self.transitions().wf()
    }

    /// Opens a fresh, empty transition store.
    pub fn open(dev: Option<u16>) -> (r: Result<TransitionStore, StoreError>)
        ensures
            (match r {
                Ok(s) => {
                    &&& s.wf()
                    &&& !s.in_batch()
                    &&& s.transitions().confirmed() == Map::<TransitionId, Transition>::empty()
                    &&& s.transitions().pending() == Seq::<(TransitionId, Option<Transition>)>::empty()
                    &&& s.transitions().marks() == Seq::<usize>::empty()
                    &&& s.dev_tag() == dev
                },
                Err(_) => false,
            }),
    {
        Ok(TransitionStore { transitions: KvMap::new(), dev })
    }

    /// The optional development-namespace tag.
    pub fn dev(&self) -> (r: Option<u16>)
        ensures
            r == self.dev_tag(),
    {
        self.dev
    }

    /// Stores the transition under its own identifier.
    pub fn insert(&mut self, transition: Transition) -> (r: Result<(), StoreError>)
        requires
            old(self).wf(),
        ensures
            r is Ok,
            final(self).wf(),
            final(self).dev_tag() == old(self).dev_tag(),
            final(self).in_batch() == old(self).in_batch(),
            final(self).transitions().marks() == old(self).transitions().marks(),
            final(self).transitions().speculative() == old(self).transitions().speculative().insert(
                transition.id,
                transition,
            ),
            (if old(self).in_batch() {
                final(self).transitions().entries() == old(self).transitions().entries()
                    && final(self).transitions().pending() == old(self).transitions().pending().push(
                    (transition.id, Some(transition)),
                )
            } else {
                final(self).transitions().confirmed() == old(self).transitions().confirmed().insert(
                    transition.id,
                    transition,
                ) && final(self).transitions().pending() == old(self).transitions().pending()
            }),
    {
        self.transitions.insert(transition.id, transition);
        Ok(())
    }

    /// Removes the transition for the given identifier.
    pub fn remove(&mut self, transition_id: &TransitionId) -> (r: Result<(), StoreError>)
        requires
            old(self).wf(),
        ensures
            r is Ok,
            final(self).wf(),
            final(self).dev_tag() == old(self).dev_tag(),
            final(self).in_batch() == old(self).in_batch(),
            final(self).transitions().marks() == old(self).transitions().marks(),
            final(self).transitions().speculative() == old(self).transitions().speculative().remove(
                *transition_id,
            ),
            (if old(self).in_batch() {
                final(self).transitions().entries() == old(self).transitions().entries()
                    && final(self).transitions().pending() == old(self).transitions().pending().push(
                    (*transition_id, None),
                )
            } else {
                final(self).transitions().confirmed() == old(self).transitions().confirmed().remove(
                    *transition_id,
                ) && final(self).transitions().pending() == old(self).transitions().pending()
            }),
    {
        self.transitions.remove(transition_id);
        Ok(())
    }

    /// The confirmed transition for the given identifier, if any.
    pub fn get_transition(&self, transition_id: &TransitionId) -> (r: Option<Transition>)
        requires
            self.wf(),
        ensures
            r == (if self.transitions().confirmed().dom().contains(*transition_id) {
                Some(self.transitions().confirmed()[*transition_id])
            } else {
                None::<Transition>
            }),
    {
        match self.transitions.get_confirmed(transition_id) {
            Some(t) => Some(*t),
            None => None,
        }
    }

    /// Whether a confirmed transition exists for the given identifier.
    pub fn contains_transition(&self, transition_id: &TransitionId) -> (r: bool)
        requires
            self.wf(),
        ensures
            r == self.transitions().confirmed().dom().contains(*transition_id),
    {
        self.transitions.contains_key_confirmed(transition_id)
    }

    /// Opens a fresh batch on this store.
    pub fn start_atomic(&mut self)
        requires
            old(self).wf(),
            !old(self).in_batch(),
        ensures
            final(self).wf(),
            final(self).in_batch(),
            final(self).dev_tag() == old(self).dev_tag(),
            final(self).transitions().entries() == old(self).transitions().entries(),
            final(self).transitions().pending() == Seq::<(TransitionId, Option<Transition>)>::empty(),
            final(self).transitions().marks() == Seq::<usize>::empty(),
    {
        self.transitions.start_atomic();
    }

    /// Whether an atomic batch is open on this store.
    pub fn is_atomic_in_progress(&self) -> (r: bool)
        ensures
            r == self.in_batch(),
    {
        self.transitions.is_atomic_in_progress()
    }

    /// Pushes the current end of the batch onto the checkpoint stack.
    pub fn atomic_checkpoint(&mut self)
        requires
            old(self).wf(),
            old(self).in_batch(),
        ensures
            final(self).wf(),
            final(self).in_batch(),
            final(self).dev_tag() == old(self).dev_tag(),
            final(self).transitions().entries() == old(self).transitions().entries(),
            final(self).transitions().pending() == old(self).transitions().pending(),
            final(self).transitions().marks() == old(self).transitions().marks().push(
                old(self).transitions().pending().len() as usize,
            ),
    {
        self.transitions.atomic_checkpoint();
    }

    /// Discards the staged writes recorded after the most recent checkpoint,
    /// popping it; with no checkpoint, discards all staged writes.
    pub fn atomic_rewind(&mut self)
        requires
            old(self).wf(),
            old(self).in_batch(),
        ensures
            final(self).wf(),
            final(self).in_batch(),
            final(self).dev_tag() == old(self).dev_tag(),
            final(self).transitions().entries() == old(self).transitions().entries(),
            final(self).transitions().pending() == old(self).transitions().pending().take(
                (if old(self).transitions().marks().len() > 0 {
                    old(self).transitions().marks().last() as int
                } else {
                    0
                }),
            ),
            final(self).transitions().marks() == (if old(self).transitions().marks().len() > 0 {
                old(self).transitions().marks().drop_last()
            } else {
                old(self).transitions().marks()
            }),
    {
        self.transitions.atomic_rewind();
    }

    /// Discards all staged writes and every checkpoint; the batch ends.
    pub fn abort_atomic(&mut self)
        requires
            old(self).wf(),
            old(self).in_batch(),
        ensures
            final(self).wf(),
            !final(self).in_batch(),
            final(self).dev_tag() == old(self).dev_tag(),
            final(self).transitions().entries() == old(self).transitions().entries(),
            final(self).transitions().pending() == Seq::<(TransitionId, Option<Transition>)>::empty(),
            final(self).transitions().marks() == Seq::<usize>::empty(),
    {
        self.transitions.abort_atomic();
    }

    /// Commits all staged writes in insertion order; the batch ends.
    pub fn finish_atomic(&mut self) -> (r: Result<(), StoreError>)
        requires
            old(self).wf(),
            old(self).in_batch(),
        ensures
            r is Ok,
            final(self).wf(),
            !final(self).in_batch(),
            final(self).dev_tag() == old(self).dev_tag(),
            final(self).transitions().confirmed() == old(self).transitions().speculative(),
            final(self).transitions().speculative() == old(self).transitions().speculative(),
            final(self).transitions().pending() == Seq::<(TransitionId, Option<Transition>)>::empty(),
            final(self).transitions().marks() == Seq::<usize>::empty(),
    {
        self.transitions.finish_atomic()
    }
}

} // verus!
