use vaccination_poll::detect::{classify, Detail, Snapshot};
use vaccination_poll::service::PollResult;

fn snapshot(items: &[(u32, &str)]) -> Snapshot {
    let mut s = Snapshot::new();
    for (id, name) in items {
        s.insert(Detail::new(*id, name));
    }
    s
}

fn text_of(r: &PollResult) -> &str {
    match r {
        PollResult::Unchanged => "",
        PollResult::Normal(t) => t.as_str(),
        PollResult::Urgent(t) => t.as_str(),
    }
}

#[test]
fn new_item_is_urgent() {
    let prev = snapshot(&[(1, "Impfzentrum A"), (2, "Impfzentrum B")]);
    let cur = snapshot(&[(1, "Impfzentrum A"), (2, "Impfzentrum B"), (3, "Impfzentrum C")]);
    let r = classify(&prev, &cur, "https://example.org");
    assert!(matches!(r, PollResult::Urgent(_)));
    assert_eq!(
        text_of(&r),
        "Frei gewordene Kategorien:\n * Impfzentrum C -- ID: 3\n\nAlle freien Kategorien:\n * Impfzentrum A -- ID: 1\n * Impfzentrum B -- ID: 2\n * Impfzentrum C -- ID: 3\n\nNicht mehr frei:\n\nURL: https://example.org\n"
    );
}

#[test]
fn removed_item_is_normal() {
    let prev = snapshot(&[(1, "A"), (2, "B")]);
    let cur = snapshot(&[(1, "A")]);
    let r = classify(&prev, &cur, "u");
    assert!(matches!(r, PollResult::Normal(_)));
    assert_eq!(
        text_of(&r),
        "Frei gewordene Kategorien:\n\nAlle freien Kategorien:\n * A -- ID: 1\n\nNicht mehr frei:\n * B -- ID: 2\n\nURL: u\n"
    );
}

#[test]
fn same_items_are_unchanged() {
    let prev = snapshot(&[(1, "A"), (2, "B")]);
    let cur = snapshot(&[(1, "A"), (2, "B")]);
    assert!(matches!(classify(&prev, &cur, "u"), PollResult::Unchanged));
}

#[test]
fn comparing_with_itself_is_unchanged() {
    let s = snapshot(&[(7, "X"), (4294967295, "Y")]);
    assert!(matches!(classify(&s, &s, "u"), PollResult::Unchanged));
    let e = Snapshot::new();
    assert!(matches!(classify(&e, &e, "u"), PollResult::Unchanged));
}

#[test]
fn order_does_not_make_a_change() {
    let prev = snapshot(&[(1, "A"), (2, "B")]);
    let cur = snapshot(&[(2, "B"), (1, "A")]);
    assert!(matches!(classify(&prev, &cur, "u"), PollResult::Unchanged));
}

#[test]
fn added_and_removed_together_is_urgent() {
    let prev = snapshot(&[(10, "A")]);
    let cur = snapshot(&[(20, "B")]);
    let r = classify(&prev, &cur, "u");
    assert!(matches!(r, PollResult::Urgent(_)));
    assert_eq!(
        text_of(&r),
        "Frei gewordene Kategorien:\n * B -- ID: 20\n\nAlle freien Kategorien:\n * B -- ID: 20\n\nNicht mehr frei:\n * A -- ID: 10\n\nURL: u\n"
    );
}

#[test]
fn everything_removed_is_normal() {
    let prev = snapshot(&[(0, "Z")]);
    let cur = Snapshot::new();
    let r = classify(&prev, &cur, "u");
    assert!(matches!(r, PollResult::Normal(_)));
    assert_eq!(
        text_of(&r),
        "Frei gewordene Kategorien:\n\nAlle freien Kategorien:\n\nNicht mehr frei:\n * Z -- ID: 0\n\nURL: u\n"
    );
}

#[test]
fn insert_replaces_same_id() {
    let s = snapshot(&[(1, "A"), (2, "B"), (1, "C")]);
    assert_eq!(s.len(), 2);
    assert_eq!(s.get(0).id, 1);
    assert_eq!(s.get(0).name, "C");
    assert_eq!(s.get(1).name, "B");
    assert!(s.contains_id(2));
    assert!(!s.contains_id(3));
}

#[test]
fn from_details_keeps_last_of_same_id() {
    let s = Snapshot::from_details(vec![Detail::new(5, "a"), Detail::new(6, "b"), Detail::new(5, "c")]);
    assert_eq!(s.len(), 2);
    assert_eq!(s.get(0).name, "c");
    assert_eq!(s.get(1).id, 6);
}
