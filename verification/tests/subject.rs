use observer::observers::{
    AnyObserver, ConcreteObserverA, ConcreteObserverB, Observer, ObserverId, ObserverModel,
};
use observer::subject::{Subject, CHANGED_STATE};

const LINE_A: &str = "ConcreteObserverA: Reacted to the event";
const LINE_B: &str = "ConcreteObserverB: Reacted to the event";
const REPORT: &str = "Subject: My state has just changed to: 1";

fn observer_a(id: u64, name: &str) -> AnyObserver {
    AnyObserver::A(ConcreteObserverA::new(ObserverId(id), name.to_string()))
}

fn observer_b(id: u64, name: &str) -> AnyObserver {
    AnyObserver::B(ConcreteObserverB::new(ObserverId(id), name.to_string()))
}

/// An observer that shows the state it was notified of.
struct Echo {
    id: ObserverId,
}

impl Observer for Echo {
    // Only contracts speak of the model; nothing calls it when the program runs.
    fn model(&self) -> ObserverModel {
        unreachable!()
    }

    fn id(&self) -> ObserverId {
        self.id
    }

    fn update(&self, state: i32) -> String {
        format!("observer {} saw {}", self.id.0, state)
    }
}

#[test]
fn new_subject_is_in_state_zero_without_observers() {
    let subject: Subject<AnyObserver> = Subject::new();
    assert_eq!(subject.state(), 0);
    assert_eq!(subject.observer_ids(), Vec::<ObserverId>::new());
    assert_eq!(subject.notify(), Vec::<String>::new());
}

#[test]
fn attach_appends_in_order() {
    let mut subject = Subject::new();
    subject.attach(observer_a(10, "A"));
    assert_eq!(subject.observer_ids(), vec![ObserverId(10)]);
    subject.attach(observer_b(5, "B"));
    assert_eq!(subject.observer_ids(), vec![ObserverId(10), ObserverId(5)]);
    subject.attach(observer_a(7, "C"));
    assert_eq!(subject.observer_ids(), vec![ObserverId(10), ObserverId(5), ObserverId(7)]);
    assert_eq!(subject.state(), 0);
}

#[test]
fn attach_keeps_duplicates() {
    let mut subject = Subject::new();
    subject.attach(observer_a(1, "A"));
    subject.attach(observer_a(1, "A"));
    assert_eq!(subject.observer_ids(), vec![ObserverId(1), ObserverId(1)]);
    assert_eq!(subject.notify(), vec![LINE_A.to_string(), LINE_A.to_string()]);
}

#[test]
fn notify_reaches_each_observer_once_in_attachment_order() {
    let mut subject = Subject::new();
    subject.attach(observer_b(1, "first"));
    subject.attach(observer_a(2, "second"));
    subject.attach(observer_a(3, "third"));
    subject.attach(observer_b(4, "fourth"));
    subject.attach(observer_a(5, "fifth"));
    let expected = vec![
        LINE_B.to_string(),
        LINE_A.to_string(),
        LINE_A.to_string(),
        LINE_B.to_string(),
        LINE_A.to_string(),
    ];
    assert_eq!(subject.notify(), expected);
    assert_eq!(subject.notify(), expected);
    assert_eq!(subject.state(), 0);
}

#[test]
fn notify_hands_the_current_state_to_every_observer() {
    let mut subject = Subject::new();
    subject.attach(Echo { id: ObserverId(1) });
    subject.attach(Echo { id: ObserverId(2) });
    assert_eq!(
        subject.notify(),
        vec!["observer 1 saw 0".to_string(), "observer 2 saw 0".to_string()]
    );
}

#[test]
fn business_logic_sets_the_state_and_every_observer_sees_it() {
    let mut subject = Subject::new();
    subject.attach(Echo { id: ObserverId(1) });
    subject.attach(Echo { id: ObserverId(2) });
    subject.attach(Echo { id: ObserverId(3) });
    assert_eq!(subject.state(), 0);
    let lines = subject.some_business_logic();
    assert_eq!(CHANGED_STATE, 1);
    assert_eq!(subject.state(), 1);
    assert_eq!(
        lines,
        vec![
            "observer 1 saw 1".to_string(),
            "observer 2 saw 1".to_string(),
            "observer 3 saw 1".to_string(),
            REPORT.to_string(),
        ]
    );
    assert_eq!(subject.observer_ids(), vec![ObserverId(1), ObserverId(2), ObserverId(3)]);
}

#[test]
fn business_logic_without_observers_only_reports() {
    let mut subject: Subject<AnyObserver> = Subject::new();
    assert_eq!(subject.some_business_logic(), vec![REPORT.to_string()]);
    assert_eq!(subject.state(), 1);
    assert_eq!(subject.some_business_logic(), vec![REPORT.to_string()]);
    assert_eq!(subject.state(), 1);
}

#[test]
fn attach_a_then_b_then_mutate_reacts_a_then_b() {
    let mut subject = Subject::new();
    subject.attach(observer_a(1, "A"));
    subject.attach(observer_b(2, "B"));
    let lines = subject.some_business_logic();
    assert_eq!(lines, vec![LINE_A.to_string(), LINE_B.to_string(), REPORT.to_string()]);
    assert_eq!(subject.state(), 1);
}

#[test]
fn detach_of_a_distinct_instance_with_the_same_name_leaves_b_attached() {
    let mut subject = Subject::new();
    subject.attach(observer_a(1, "A"));
    subject.attach(observer_b(2, "B"));
    assert_eq!(
        subject.some_business_logic(),
        vec![LINE_A.to_string(), LINE_B.to_string(), REPORT.to_string()]
    );
    let another_b = observer_b(3, "B");
    assert!(!subject.is_attached(&another_b));
    subject.detach(&another_b);
    assert_eq!(subject.observer_ids(), vec![ObserverId(1), ObserverId(2)]);
    assert_eq!(
        subject.some_business_logic(),
        vec![LINE_A.to_string(), LINE_B.to_string(), REPORT.to_string()]
    );
}

#[test]
fn detach_of_an_observer_never_attached_changes_nothing() {
    let mut subject = Subject::new();
    subject.detach(&observer_a(1, "A"));
    assert_eq!(subject.observer_ids(), Vec::<ObserverId>::new());
    assert_eq!(subject.state(), 0);
    subject.attach(observer_a(1, "A"));
    subject.attach(observer_b(2, "B"));
    subject.some_business_logic();
    subject.detach(&observer_a(9, "A"));
    assert_eq!(subject.observer_ids(), vec![ObserverId(1), ObserverId(2)]);
    assert_eq!(subject.state(), 1);
    assert_eq!(subject.notify(), vec![LINE_A.to_string(), LINE_B.to_string()]);
}

#[test]
fn detach_by_identity_removes_from_later_notifications() {
    let mut subject = Subject::new();
    subject.attach(observer_a(1, "A"));
    subject.attach(observer_b(2, "B"));
    subject.attach(observer_a(3, "C"));
    let same_identity_other_name = observer_a(2, "not B");
    assert!(subject.is_attached(&same_identity_other_name));
    subject.detach(&same_identity_other_name);
    assert!(!subject.is_attached(&same_identity_other_name));
    assert_eq!(subject.observer_ids(), vec![ObserverId(1), ObserverId(3)]);
    assert_eq!(
        subject.some_business_logic(),
        vec![LINE_A.to_string(), LINE_A.to_string(), REPORT.to_string()]
    );
}

#[test]
fn detach_removes_every_entry_of_the_identity_and_keeps_the_order_of_the_rest() {
    let mut subject = Subject::new();
    for id in [4, 1, 4, 2, 3, 4, 4, 5] {
        subject.attach(Echo { id: ObserverId(id) });
    }
    subject.detach(&Echo { id: ObserverId(4) });
    assert_eq!(
        subject.observer_ids(),
        vec![ObserverId(1), ObserverId(2), ObserverId(3), ObserverId(5)]
    );
    assert_eq!(
        subject.notify(),
        vec![
            "observer 1 saw 0".to_string(),
            "observer 2 saw 0".to_string(),
            "observer 3 saw 0".to_string(),
            "observer 5 saw 0".to_string(),
        ]
    );
    subject.detach(&Echo { id: ObserverId(4) });
    assert_eq!(
        subject.observer_ids(),
        vec![ObserverId(1), ObserverId(2), ObserverId(3), ObserverId(5)]
    );
}

#[test]
fn detach_of_the_only_observer_empties_the_subject() {
    let mut subject = Subject::new();
    subject.attach(observer_b(8, "B"));
    subject.detach(&observer_b(8, "B"));
    assert_eq!(subject.observer_ids(), Vec::<ObserverId>::new());
    assert_eq!(subject.some_business_logic(), vec![REPORT.to_string()]);
}

#[test]
fn detach_of_first_and_last_entries() {
    let mut subject = Subject::new();
    subject.attach(observer_a(1, "A"));
    subject.attach(observer_b(2, "B"));
    subject.attach(observer_a(3, "C"));
    subject.detach(&observer_a(1, "A"));
    assert_eq!(subject.observer_ids(), vec![ObserverId(2), ObserverId(3)]);
    subject.detach(&observer_a(3, "C"));
    assert_eq!(subject.observer_ids(), vec![ObserverId(2)]);
    assert_eq!(subject.notify(), vec![LINE_B.to_string()]);
}

#[test]
fn is_attached_goes_by_identity_alone() {
    let mut subject = Subject::new();
    subject.attach(observer_a(1, "A"));
    assert!(subject.is_attached(&observer_b(1, "B")));
    assert!(!subject.is_attached(&observer_a(2, "A")));
}
