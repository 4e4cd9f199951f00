//! The subject: the state it owns, the observers attached to it, and the
//! operations that change either. Their contracts are stated over
//! [`SubjectView`].

use crate::decimal::append_decimal;
use crate::laws::{lemma_detach_unattached_changes_nothing, lemma_detached_is_not_attached};
use crate::model::{lemma_without_push, without, SubjectView};
use crate::observers::{Observer, ObserverId};
use vstd::prelude::*;

verus! {

/// The state that `some_business_logic` puts a subject into.
pub const CHANGED_STATE: i32 = 1;

/// Holds a piece of state and notifies its observers when that state changes.
pub struct Subject<O: Observer> {
    state: i32,
    observers: Vec<O>,
}

impl<O: Observer> View for Subject<O> {
    type V = SubjectView;

    closed spec fn view(&self) -> SubjectView {
        SubjectView {
            state: self.state,
            observers: Seq::new(self.observers@.len(), |i: int| self.observers@[i].model()),
        }
    }
}

impl<O: Observer> Subject<O> {
    /// Creates a subject in state 0 with no observers.
    pub fn new() -> (subject: Subject<O>)
        ensures
            subject@ == SubjectView::initial(),
    {
        Subject { state: 0, observers: Vec::new() }
    }

    /// Returns the current state.
    pub fn state(&self) -> (state: i32)
        ensures
            state == self@.state,
    {
        self.state
    }

    /// Returns the identities of the attached observers, in attachment
    /// order.
    pub fn observer_ids(&self) -> (ids: Vec<ObserverId>)
        ensures
            ids@ == self@.identities(),
    {
        let mut ids: Vec<ObserverId> = Vec::new();
        let mut i: usize = 0;
        while i < self.observers.len()
            invariant
                i <= self.observers@.len(),
                ids@.len() == i,
                forall|j: int| 0 <= j < i ==> ids@[j] == self@.observers[j].identity,
            decreases self.observers@.len() - i,
        {
            ids.push(self.observers[i].id());
            i += 1;
        }
        ids
    }

    /// Tells whether an entry with the identity of `observer` is attached.
    pub fn is_attached(&self, observer: &O) -> (attached: bool)
        ensures
            attached == self@.is_attached(observer.model().identity),
    {
        let target = observer.id();
        let mut i: usize = 0;
        while i < self.observers.len()
            invariant
                i <= self.observers@.len(),
                target == observer.model().identity,
                forall|j: int| 0 <= j < i ==> (#[trigger] self@.observers[j]).identity != target,
            decreases self.observers@.len() - i,
        {
            if self.observers[i].id() == target {
                assert(self@.observers[i as int].identity == target);
                return true;
            }
            i += 1;
        }
        false
    }

    /// Attaches `observer` after all observers attached so far. The same
    /// identity may be attached more than once.
    pub fn attach(&mut self, observer: O)
        ensures
            final(self)@ == old(self)@.attach(observer.model()),
    {
        self.observers.push(observer);
    }

    /// Detaches `observer`: every attached entry with its identity is
    /// removed, and the others keep their order. Detaching an observer that
    /// is not attached changes nothing.
    pub fn detach(&mut self, observer: &O)
        ensures
            final(self)@ == old(self)@.detach(observer.model().identity),
            !final(self)@.is_attached(observer.model().identity),
            !old(self)@.is_attached(observer.model().identity) ==> final(self)@ == old(self)@,
    {
        let target = observer.id();
        let ghost before = self@.observers;
        // How many of the observers attached at the start have been looked at:
        // those kept are now the first `i` entries, the rest follow unchanged.
        let ghost mut seen: int = 0;
        let mut i: usize = 0;
        proof {
            reveal(Seq::filter);
        }
        while i < self.observers.len()
            invariant
                self.state == old(self).state,
                before == old(self)@.observers,
                target == observer.model().identity,
                0 <= seen <= before.len(),
                i <= self.observers@.len(),
                self@.observers.take(i as int) == without(before.take(seen), target),
                self@.observers.skip(i as int) == before.skip(seen),
            decreases self.observers@.len() - i,
        {
            proof {
                assert(self@.observers.skip(i as int).len() == before.skip(seen).len());
                assert(self@.observers[i as int] == before.skip(seen)[0]);
                lemma_without_push(before.take(seen), before[seen], target);
                assert(before.take(seen + 1) =~= before.take(seen).push(before[seen]));
                assert(before.skip(seen).skip(1) =~= before.skip(seen + 1));
            }
            if self.observers[i].id() == target {
                self.observers.remove(i);
            } else {
                i += 1;
            }
            proof {
                seen = seen + 1;
            }
        }
        proof {
            assert(before.take(seen) =~= before);
            lemma_detached_is_not_attached(old(self)@, target);
            if !old(self)@.is_attached(target) {
                lemma_detach_unattached_changes_nothing(old(self)@, target);
            }
        }
    }

    /// Notifies every attached observer once, in attachment order, and
    /// returns the lines they emit in that order. An observer is handed the
    /// state and nothing else, so it cannot attach or detach anything while
    /// the notification runs.
    pub fn notify(&self) -> (lines: Vec<String>)
        ensures
            lines.deep_view() == self@.reactions(),
            lines@.len() == self@.observers.len(),
            forall|i: int|
                0 <= i < lines@.len() ==> (#[trigger] lines@[i])@ == self@.observers[i].react(
                    self@.state,
                ),
    {
        let mut lines: Vec<String> = Vec::new();
        let mut i: usize = 0;
        while i < self.observers.len()
            invariant
                i <= self.observers@.len(),
                lines@.len() == i,
                forall|j: int|
                    0 <= j < i ==> (#[trigger] lines@[j])@ == self@.observers[j].react(
                        self@.state,
                    ),
            decreases self.observers@.len() - i,
        {
            let line = self.observers[i].update(self.state);
            lines.push(line);
            i += 1;
        }
        lines
    }

    /// Sets the state to [`CHANGED_STATE`], notifies every attached observer
    /// of it, and returns the lines emitted: the observers' reactions in
    /// attachment order, then the subject's own report of the new state.
    pub fn some_business_logic(&mut self) -> (lines: Vec<String>)
        ensures
            final(self)@ == old(self)@.with_state(CHANGED_STATE),
            lines.deep_view() == final(self)@.reactions().push(final(self)@.report()),
            lines@.len() == old(self)@.observers.len() + 1,
            forall|i: int|
                0 <= i < old(self)@.observers.len() ==> (#[trigger] lines@[i])@ == old(
                    self,
                )@.observers[i].react(CHANGED_STATE),
    {
        self.state = CHANGED_STATE;
        let mut lines = self.notify();
        let mut report = String::from_str("Subject: My state has just changed to: ");
        append_decimal(&mut report, self.state);
        lines.push(report);
        lines
    }
}

} // verus!
