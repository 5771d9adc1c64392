use face_recognition::embedding::Embedding;
use face_recognition::registry::{Match, Person, PersonRegistry};

fn e(values: &[i32]) -> Embedding {
    Embedding::new(values.to_vec())
}

fn registry_of(entries: &[(&str, &[i32])]) -> PersonRegistry {
    let mut r = PersonRegistry::new();
    for (label, values) in entries {
        r.enroll(label.to_string(), e(values));
    }
    r
}

#[test]
fn empty_registry_has_no_match() {
    let r = PersonRegistry::new();
    assert!(r.is_empty());
    assert_eq!(r.len(), 0);
    assert_eq!(r.best_match(&e(&[1, 2])), None);
    assert_eq!(r.nearest(&e(&[1, 2])), None);
    assert_eq!(r.get(0), None);
}

#[test]
fn enroll_appends_unconditionally() {
    let mut r = PersonRegistry::new();
    r.enroll("alice".to_string(), e(&[1]));
    r.enroll("alice".to_string(), e(&[1]));
    r.enroll("".to_string(), e(&[]));
    assert_eq!(r.len(), 3);
    assert_eq!(r.get(0), Some(&Person { label: "alice".to_string(), embedding: e(&[1]) }));
    assert_eq!(r.get(1), Some(&Person { label: "alice".to_string(), embedding: e(&[1]) }));
    assert_eq!(r.get(2), Some(&Person { label: "".to_string(), embedding: e(&[]) }));
    assert_eq!(r.get(3), None);
}

#[test]
fn nearest_entry_wins_not_the_first() {
    let r = registry_of(&[("alice", &[0, 0]), ("bob", &[100, 100])]);
    let m = r.best_match(&e(&[99, 101])).unwrap();
    assert_eq!(m.person.label, "bob");
    assert_eq!(m.person.embedding, e(&[100, 100]));
    assert_eq!(m.distance, 2);
    assert_eq!(r.nearest(&e(&[99, 101])), Some(1));
    let m = r.best_match(&e(&[1, -1])).unwrap();
    assert_eq!(m.person.label, "alice");
    assert_eq!(m.distance, 2);
}

#[test]
fn exact_tie_goes_to_the_first_enrolled() {
    let r = registry_of(&[("far", &[50]), ("left", &[-10]), ("right", &[10]), ("again", &[10])]);
    let m = r.best_match(&e(&[0])).unwrap();
    assert_eq!(m.person.label, "left");
    assert_eq!(m.distance, 100);
    assert_eq!(r.nearest(&e(&[0])), Some(1));
    assert_eq!(r.nearest(&e(&[10])), Some(2));
}

#[test]
fn the_distance_is_reported_even_when_large() {
    let r = registry_of(&[("only", &[0, 0, 0])]);
    let m = r.best_match(&e(&[1_000_000, 1_000_000, 1_000_000])).unwrap();
    assert_eq!(m, Match {
        person: Person { label: "only".to_string(), embedding: e(&[0, 0, 0]) },
        distance: 3_000_000_000_000,
    });
}

#[test]
fn duplicate_labels_are_independent_candidates() {
    let r = registry_of(&[("alice", &[0]), ("bob", &[40]), ("alice", &[100])]);
    assert_eq!(r.nearest(&e(&[90])), Some(2));
    assert_eq!(r.best_match(&e(&[90])).unwrap().person.label, "alice");
    assert_eq!(r.nearest(&e(&[45])), Some(1));
}

#[test]
fn clear_empties_the_registry() {
    let mut r = registry_of(&[("alice", &[0]), ("bob", &[40])]);
    r.clear();
    assert!(r.is_empty());
    assert_eq!(r.best_match(&e(&[0])), None);
    r.enroll("carol".to_string(), e(&[3]));
    assert_eq!(r.len(), 1);
    assert_eq!(r.best_match(&e(&[0])).unwrap().person.label, "carol");
}

#[test]
fn enrolled_embedding_is_found_at_distance_zero() {
    let mut r = registry_of(&[("bob", &[5, 5]), ("carol", &[-5, 5])]);
    r.enroll("alice".to_string(), e(&[7, 7]));
    let m = r.best_match(&e(&[7, 7])).unwrap();
    assert_eq!(m.person.label, "alice");
    assert_eq!(m.distance, 0);
}

#[test]
fn an_earlier_twin_keeps_its_place() {
    let mut r = registry_of(&[("bob", &[7, 7])]);
    r.enroll("alice".to_string(), e(&[7, 7]));
    let m = r.best_match(&e(&[7, 7])).unwrap();
    assert_eq!(m.person.label, "bob");
    assert_eq!(m.distance, 0);
}
