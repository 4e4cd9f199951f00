//! Observers: who they are and how they react to a notification.

use vstd::prelude::*;

verus! {

/// The identity of an observer.
///
/// Two observers are the same observer exactly when their identities are
/// equal. The name an observer carries and the variant it belongs to play no
/// part in that: giving distinct observers distinct identities is up to
/// whoever creates them.
#[derive(Clone, Copy, Debug, PartialEq, Eq, Structural)]
pub struct ObserverId(pub u64);

/// All that a subject can tell of an observer: who it is, and the line it
/// emits in reaction to each state it may be notified of.
pub struct ObserverModel {
    pub identity: ObserverId,
    pub reaction: spec_fn(i32) -> Seq<char>,
}

impl ObserverModel {
    /// The line the observer emits when notified of `state`.
    pub open spec fn react(self, state: i32) -> Seq<char> {
        (self.reaction)(state)
    }
}

/// The capability of reacting to a subject's notification.
pub trait Observer {
    /// The observer as a subject sees it.
    spec fn model(&self) -> ObserverModel;

    /// Returns the observer's identity.
    fn id(&self) -> (id: ObserverId)
        ensures
            id == self.model().identity,
    ;

    /// Receives the notification that the subject's state is now `state` and
    /// returns the line this observer emits in reaction.
    fn update(&self, state: i32) -> (line: String)
        ensures
            line@ == self.model().react(state),
    ;
}

/// A concrete observer as a contract sees it: its identity and display name.
#[verifier::ext_equal]
pub struct NamedObserverView {
    pub identity: ObserverId,
    pub name: Seq<char>,
}

/// The first variant of observer.
pub struct ConcreteObserverA {
    id: ObserverId,
    name: String,
}

impl View for ConcreteObserverA {
    type V = NamedObserverView;

    closed spec fn view(&self) -> NamedObserverView {
        NamedObserverView { identity: self.id, name: self.name@ }
    }
}

impl ConcreteObserverA {
    /// The line every observer of this variant emits, whatever the state.
    pub open spec fn line() -> Seq<char> {
        "ConcreteObserverA: Reacted to the event"@
    }

    /// An observer of this variant with identity `id`, as a subject sees it.
    pub open spec fn model_of(id: ObserverId) -> ObserverModel {
        ObserverModel { identity: id, reaction: |state: i32| Self::line() }
    }

    /// Creates an observer with the given identity and display name.
    pub fn new(id: ObserverId, name: String) -> (observer: Self)
        ensures
            observer@ == (NamedObserverView { identity: id, name: name@ }),
    {
        ConcreteObserverA { id, name }
    }

    /// Returns the display name.
    pub fn name(&self) -> (name: &String)
        ensures
            name@ == self@.name,
    {
        &self.name
    }
}

impl Observer for ConcreteObserverA {
    open spec fn model(&self) -> ObserverModel {
        Self::model_of(self@.identity)
    }

    fn id(&self) -> (id: ObserverId)
        ensures
            id == self@.identity,
    {
        self.id
    }

    fn update(&self, state: i32) -> (line: String)
        ensures
            line@ == Self::line(),
    {
        String::from_str("ConcreteObserverA: Reacted to the event")
    }
}

/// The second variant of observer.
pub struct ConcreteObserverB {
    id: ObserverId,
    name: String,
}

impl View for ConcreteObserverB {
    type V = NamedObserverView;

    closed spec fn view(&self) -> NamedObserverView {
        NamedObserverView { identity: self.id, name: self.name@ }
    }
}

impl ConcreteObserverB {
    /// The line every observer of this variant emits, whatever the state.
    pub open spec fn line() -> Seq<char> {
        "ConcreteObserverB: Reacted to the event"@
    }

    /// An observer of this variant with identity `id`, as a subject sees it.
    pub open spec fn model_of(id: ObserverId) -> ObserverModel {
        ObserverModel { identity: id, reaction: |state: i32| Self::line() }
    }

    /// Creates an observer with the given identity and display name.
    pub fn new(id: ObserverId, name: String) -> (observer: Self)
        ensures
            observer@ == (NamedObserverView { identity: id, name: name@ }),
    {
        ConcreteObserverB { id, name }
    }

    /// Returns the display name.
    pub fn name(&self) -> (name: &String)
        ensures
            name@ == self@.name,
    {
        &self.name
    }
}

impl Observer for ConcreteObserverB {
    open spec fn model(&self) -> ObserverModel {
        Self::model_of(self@.identity)
    }

    fn id(&self) -> (id: ObserverId)
        ensures
            id == self@.identity,
    {
        self.id
    }

    fn update(&self, state: i32) -> (line: String)
        ensures
            line@ == Self::line(),
    {
        String::from_str("ConcreteObserverB: Reacted to the event")
    }
}

/// Any of the observer variants above, so that observers of different
/// variants can be attached to one subject.
pub enum AnyObserver {
    A(ConcreteObserverA),
    B(ConcreteObserverB),
}

impl Observer for AnyObserver {
    open spec fn model(&self) -> ObserverModel {
        match self {
            AnyObserver::A(a) => a.model(),
            AnyObserver::B(b) => b.model(),
        }
    }

    fn id(&self) -> (id: ObserverId) {
        match self {
            AnyObserver::A(a) => a.id(),
            AnyObserver::B(b) => b.id(),
        }
    }

    fn update(&self, state: i32) -> (line: String) {
        match self {
            AnyObserver::A(a) => a.update(state),
            AnyObserver::B(b) => b.update(state),
        }
    }
}

} // verus!
