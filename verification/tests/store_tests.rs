use pessoas::date::{parse_date, BirthDate};
use pessoas::person::{validate, NewPerson};
use pessoas::store::{search_ack, PersonStore};

fn birth() -> BirthDate {
    parse_date("1990-01-01").unwrap()
}

fn input(name: &str, nick: &str, stack: Option<Vec<&str>>) -> NewPerson {
    NewPerson {
        name: name.to_string(),
        nick: nick.to_string(),
        birth_date: birth(),
        stack: stack.map(|v| v.into_iter().map(|s| s.to_string()).collect()),
    }
}

#[test]
fn seed_is_stored_and_counted() {
    let (store, seed_id) = PersonStore::seeded();
    assert_eq!(store.count(), 1);
    let seed = store.get(seed_id).expect("seed record present");
    assert_eq!(seed.id, seed_id);
    assert_eq!(seed.name, "Lucas Duarte");
    assert_eq!(seed.nick, "Lucas_Duarte_dev");
    assert_eq!(seed.birth_date, BirthDate { year: 2000, month: 8, day: 31 });
    assert_eq!(seed.stack, Some(vec!["NodeJs".to_string()]));
}

#[test]
fn create_then_lookup_round_trip() {
    let (mut store, _) = PersonStore::seeded();
    let p = store
        .create(input("Ana", "ana123", Some(vec!["Go"])))
        .expect("valid input accepted");
    let found = store.get(p.id).expect("created record present");
    assert_eq!(found.id, p.id);
    assert_eq!(found.name, "Ana");
    assert_eq!(found.nick, "ana123");
    assert_eq!(found.birth_date, birth());
    assert_eq!(found.stack, Some(vec!["Go".to_string()]));
}

#[test]
fn name_boundary_is_one_hundred() {
    let (mut store, _) = PersonStore::seeded();
    assert!(store.create(input(&"x".repeat(100), "n", None)).is_ok());
    assert!(store.create(input(&"x".repeat(101), "n", None)).is_err());
}

#[test]
fn nick_boundary_is_thirty_two() {
    let (mut store, _) = PersonStore::seeded();
    assert!(store.create(input("n", &"x".repeat(32), None)).is_ok());
    assert!(store.create(input("n", &"x".repeat(33), None)).is_err());
}

#[test]
fn stack_entry_boundary_is_thirty_two() {
    let long = "x".repeat(33);
    let edge = "x".repeat(32);
    let (mut store, _) = PersonStore::seeded();
    assert!(store.create(input("n", "k", Some(vec![&edge]))).is_ok());
    assert!(store.create(input("n", "k", Some(vec!["Go", &long]))).is_err());
    assert!(store.create(input("n", "k", Some(vec![]))).is_ok());
    assert!(store.create(input("n", "k", None)).is_ok());
}

#[test]
fn validate_matches_the_boundaries() {
    assert!(validate(&input(&"x".repeat(100), &"y".repeat(32), None)));
    assert!(!validate(&input(&"x".repeat(101), "y", None)));
    assert!(!validate(&input("x", &"y".repeat(33), None)));
    assert!(!validate(&input("x", "y", Some(vec![&"z".repeat(33)]))));
}

#[test]
fn generated_ids_are_pairwise_distinct() {
    let (mut store, seed_id) = PersonStore::seeded();
    let mut ids = vec![seed_id];
    for i in 0..8 {
        let p = store
            .create(input(&format!("p{}", i), "nick", None))
            .expect("valid input accepted");
        ids.push(p.id);
    }
    for i in 0..ids.len() {
        for j in 0..i {
            assert_ne!(ids[i], ids[j]);
        }
    }
}

#[test]
fn lookup_of_an_unknown_id_finds_nothing() {
    let (mut store, seed_id) = PersonStore::seeded();
    let p = store
        .create(input("Ana", "ana123", None))
        .expect("valid input accepted");
    let mut unknown: u128 = 0xfeed_face_cafe;
    while unknown == seed_id || unknown == p.id {
        unknown += 1;
    }
    assert!(store.get(unknown).is_none());
}

#[test]
fn count_grows_only_on_successful_creates() {
    let (mut store, _) = PersonStore::seeded();
    assert_eq!(store.count(), 1);
    store
        .create(input("Ana", "ana123", Some(vec!["Go"])))
        .expect("valid input accepted");
    assert_eq!(store.count(), 2);
    assert!(store.create(input(&"x".repeat(101), "n", None)).is_err());
    assert_eq!(store.count(), 2);
    store
        .create(input("Bia", "bia456", None))
        .expect("valid input accepted");
    assert_eq!(store.count(), 3);
}

#[test]
fn scenario_create_reject_and_lookup() {
    let (mut store, seed_id) = PersonStore::seeded();
    let ana = NewPerson {
        name: "Ana".to_string(),
        nick: "ana123".to_string(),
        birth_date: parse_date("1990-01-01").unwrap(),
        stack: Some(vec!["Go".to_string()]),
    };
    let created = store.create(ana).expect("valid input accepted");
    assert_ne!(created.id, seed_id);
    assert_eq!(store.count(), 2);

    let rejected = store.create(input(&"x".repeat(101), "n", None));
    assert!(rejected.is_err());
    assert_eq!(store.count(), 2);

    assert!(parse_date("not-a-uuid").is_none());

    let mut unknown: u128 = 42;
    while unknown == seed_id || unknown == created.id {
        unknown += 1;
    }
    assert!(store.get(unknown).is_none());
}

#[test]
fn insert_overwrites_the_same_id() {
    let (mut store, _) = PersonStore::seeded();
    let a = store
        .create(input("Ana", "ana123", None))
        .expect("valid input accepted");
    let count_before = store.count();
    let mut again = a.clone();
    again.name = "Ana Maria".to_string();
    store.insert(again);
    assert_eq!(store.count(), count_before);
    assert_eq!(store.get(a.id).unwrap().name, "Ana Maria");
}

#[test]
fn search_is_a_fixed_acknowledgment() {
    assert_eq!(search_ack(), "Busca Pessoa por ID");
}
