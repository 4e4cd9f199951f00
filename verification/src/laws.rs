//! Laws of the subject: what holds whatever has been attached or detached.
//!
//! They are stated over [`SubjectView`], the model that the contracts of
//! [`crate::subject::Subject`] speak of, so each of them holds of every
//! subject and every sequence of calls.

use crate::model::{lemma_without_push, reactions_of, SubjectView};
use crate::observers::{ObserverId, ObserverModel};
use vstd::prelude::*;

verus! {

/// The subject after the observers in `attached` have been attached one by
/// one, first to last.
pub open spec fn attach_all(subject: SubjectView, attached: Seq<ObserverModel>) -> SubjectView
    decreases attached.len(),
{
    if attached.len() == 0 {
        subject
    } else {
        attach_all(subject, attached.drop_last()).attach(attached.last())
    }
}

/// Whatever sequence of observers is attached, a notification then yields
/// the reactions that it yielded before, followed by exactly one reaction of
/// each newly attached observer, in the order of attachment. Attaching does
/// not touch the state.
pub proof fn lemma_notify_follows_attachment_order(
    subject: SubjectView,
    attached: Seq<ObserverModel>,
)
    ensures
        attach_all(subject, attached).state == subject.state,
        attach_all(subject, attached).observers == subject.observers + attached,
        attach_all(subject, attached).reactions() == subject.reactions() + reactions_of(
            attached,
            subject.state,
        ),
    decreases attached.len(),
{
    if attached.len() == 0 {
        assert(subject.reactions() + reactions_of(attached, subject.state)
            =~= subject.reactions());
    } else {
        lemma_notify_follows_attachment_order(subject, attached.drop_last());
        assert(attach_all(subject, attached).reactions() =~= subject.reactions() + reactions_of(
            attached,
            subject.state,
        ));
    }
}

/// Starting from a subject without observers, a notification yields one
/// reaction per attached observer, the i-th being that of the i-th observer
/// attached.
pub proof fn lemma_notify_reaches_each_attached_once(attached: Seq<ObserverModel>, state: i32)
    ensures
        attach_all(SubjectView::initial().with_state(state), attached).reactions().len()
            == attached.len(),
        forall|i: int|
            0 <= i < attached.len() ==> #[trigger] attach_all(
                SubjectView::initial().with_state(state),
                attached,
            ).reactions()[i] == attached[i].react(state),
{
    lemma_notify_follows_attachment_order(SubjectView::initial().with_state(state), attached);
}

/// Once an identity has been detached, no attached observer has it, so no
/// later notification reaches it.
pub proof fn lemma_detached_is_not_attached(subject: SubjectView, id: ObserverId)
    ensures
        !subject.detach(id).is_attached(id),
    decreases subject.observers.len(),
{
    let observers = subject.observers;
    if observers.len() == 0 {
        reveal(Seq::filter);
    } else {
        let front = subject.observers.drop_last();
        lemma_detached_is_not_attached(SubjectView { state: subject.state, observers: front }, id);
        lemma_without_push(front, observers.last(), id);
        assert(front.push(observers.last()) =~= observers);
    }
}

/// Detaching one identity leaves the observers of every other identity
/// attached.
pub proof fn lemma_detach_keeps_the_others(subject: SubjectView, id: ObserverId, other: ObserverId)
    requires
        other != id,
    ensures
        subject.detach(id).is_attached(other) == subject.is_attached(other),
    decreases subject.observers.len(),
{
    let observers = subject.observers;
    if observers.len() == 0 {
        reveal(Seq::filter);
    } else {
        let front = observers.drop_last();
        let shorter = SubjectView { state: subject.state, observers: front };
        lemma_detach_keeps_the_others(shorter, id, other);
        lemma_without_push(front, observers.last(), id);
        assert(front.push(observers.last()) =~= observers);
        let kept = subject.detach(id).observers;
        let kept_front = shorter.detach(id).observers;
        if subject.is_attached(other) {
            let i = choose|i: int|
                0 <= i < observers.len() && (#[trigger] observers[i]).identity == other;
            if i < front.len() {
                assert(front[i].identity == other);
                let j = choose|j: int|
                    0 <= j < kept_front.len() && (#[trigger] kept_front[j]).identity == other;
                assert(kept[j].identity == other);
            } else {
                assert(kept.last().identity == other);
            }
        }
        if subject.detach(id).is_attached(other) {
            let j = choose|j: int| 0 <= j < kept.len() && (#[trigger] kept[j]).identity == other;
            if j < kept_front.len() {
                assert(kept_front[j].identity == other);
                let i = choose|i: int|
                    0 <= i < front.len() && (#[trigger] front[i]).identity == other;
                assert(observers[i].identity == other);
            } else {
                assert(observers.last().identity == other);
            }
        }
    }
}

/// Detaching an identity that is not attached changes nothing: neither the
/// state, nor the observers, nor their order.
pub proof fn lemma_detach_unattached_changes_nothing(subject: SubjectView, id: ObserverId)
    requires
        !subject.is_attached(id),
    ensures
        subject.detach(id) == subject,
    decreases subject.observers.len(),
{
    let observers = subject.observers;
    if observers.len() == 0 {
        reveal(Seq::filter);
    } else {
        let front = observers.drop_last();
        let shorter = SubjectView { state: subject.state, observers: front };
        assert(!shorter.is_attached(id)) by {
            if shorter.is_attached(id) {
                let i = choose|i: int|
                    0 <= i < front.len() && (#[trigger] front[i]).identity == id;
                assert(observers[i].identity == id);
            }
        }
        lemma_detach_unattached_changes_nothing(shorter, id);
        lemma_without_push(front, observers.last(), id);
        assert(front.push(observers.last()) =~= observers);
        assert(observers.last().identity != id) by {
            assert(observers[observers.len() - 1].identity != id);
        }
    }
}

/// After the state has been set, every reaction of a notification is the
/// observer's reaction to that very state: all observers see the same value.
pub proof fn lemma_every_observer_sees_the_new_state(subject: SubjectView, state: i32)
    ensures
        subject.with_state(state).state == state,
        subject.with_state(state).reactions().len() == subject.observers.len(),
        forall|i: int|
            0 <= i < subject.observers.len() ==> #[trigger] subject.with_state(
                state,
            ).reactions()[i] == subject.observers[i].react(state),
{
}

} // verus!
