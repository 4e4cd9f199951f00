//! The model of a subject: what its contracts speak of.

use crate::decimal::decimal;
use crate::observers::{ObserverId, ObserverModel};
use vstd::prelude::*;

verus! {

/// What a subject is, seen from a contract: its state and its observers in
/// attachment order.
#[verifier::ext_equal]
pub struct SubjectView {
    pub state: i32,
    pub observers: Seq<ObserverModel>,
}

/// The reactions of `observers` to `state`, one each, in order.
pub open spec fn reactions_of(observers: Seq<ObserverModel>, state: i32) -> Seq<Seq<char>> {
    Seq::new(observers.len(), |i: int| observers[i].react(state))
}

/// `observers` without those whose identity is `id`; the others keep their
/// order.
pub open spec fn without(observers: Seq<ObserverModel>, id: ObserverId) -> Seq<ObserverModel> {
    observers.filter(|o: ObserverModel| o.identity != id)
}

impl SubjectView {
    /// A subject that nothing has happened to yet.
    pub open spec fn initial() -> SubjectView {
        SubjectView { state: 0, observers: Seq::empty() }
    }

    /// Whether an observer with identity `id` is attached.
    pub open spec fn is_attached(self, id: ObserverId) -> bool {
        exists|i: int| 0 <= i < self.observers.len() && (#[trigger] self.observers[i]).identity == id
    }

    /// The subject after `observer` has been attached: it comes last.
    pub open spec fn attach(self, observer: ObserverModel) -> SubjectView {
        SubjectView { state: self.state, observers: self.observers.push(observer) }
    }

    /// The subject after the observer with identity `id` has been detached:
    /// every entry with that identity is gone.
    pub open spec fn detach(self, id: ObserverId) -> SubjectView {
        SubjectView { state: self.state, observers: without(self.observers, id) }
    }

    /// The subject with its state replaced by `state`.
    pub open spec fn with_state(self, state: i32) -> SubjectView {
        SubjectView { state, observers: self.observers }
    }

    /// The identities of the attached observers, in attachment order.
    pub open spec fn identities(self) -> Seq<ObserverId> {
        Seq::new(self.observers.len(), |i: int| self.observers[i].identity)
    }

    /// The lines that one notification produces: one per attached observer,
    /// in attachment order, each the observer's reaction to the current
    /// state.
    pub open spec fn reactions(self) -> Seq<Seq<char>> {
        reactions_of(self.observers, self.state)
    }

    /// The line in which the subject itself reports its current state.
    pub open spec fn report(self) -> Seq<char> {
        "Subject: My state has just changed to: "@ + decimal(self.state as int)
    }
}

/// Removing by identity from a sequence that ends in `last`.
pub proof fn lemma_without_push(observers: Seq<ObserverModel>, last: ObserverModel, id: ObserverId)
    ensures
        without(observers.push(last), id) == if last.identity != id {
            without(observers, id).push(last)
        } else {
            without(observers, id)
        },
{
    reveal(Seq::filter);
    assert(observers.push(last).drop_last() =~= observers);
}

} // verus!
