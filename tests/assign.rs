use sushi_roll::assign::{
    assign, assign_with, eligible, render, reply, AssignError, Assignment, Participant, EMPTY_FAILURE,
    LOAD_FAILURE,
};
use sushi_roll::menu::{Menu, MenuKind};
use sushi_roll::store::LoadError;

fn entry(kind: MenuKind, name: &str) -> Menu {
    Menu { kind, name: name.to_string() }
}

fn person(id: u64, name: &str, automated: bool) -> Participant {
    Participant { id, display_name: name.to_string(), automated }
}

fn catalog() -> Vec<Menu> {
    vec![
        entry(MenuKind::Nigiri, "まぐろ"),
        entry(MenuKind::Nigiri, "サーモン"),
        entry(MenuKind::Drink, "お茶"),
        entry(MenuKind::Dessert, "プリン"),
    ]
}

fn people(n: u64) -> Vec<Participant> {
    (0..n).map(|i| person(i, &format!("p{}", i), false)).collect()
}

#[test]
fn one_entry_per_participant_from_the_catalog() {
    let c = catalog();
    let ps = people(50);
    let v = assign(&c, &ps, 7).unwrap();
    assert_eq!(v.len(), 50);
    for (a, p) in v.iter().zip(ps.iter()) {
        assert_eq!(&a.participant, p);
        assert!(c.contains(&a.entry));
    }
}

#[test]
fn same_seed_same_assignment() {
    let c = catalog();
    let ps = people(20);
    assert_eq!(assign(&c, &ps, 1234), assign(&c, &ps, 1234));
}

#[test]
fn draws_cover_more_than_one_entry() {
    let c = catalog();
    let v = assign(&c, &people(200), 99).unwrap();
    assert!(v.iter().any(|a| a.entry != c[0]));
}

#[test]
fn single_entry_catalog_gives_it_to_everyone() {
    let c = vec![entry(MenuKind::Gunkan, "いくら")];
    let v = assign(&c, &people(5), 0).unwrap();
    assert!(v.iter().all(|a| a.entry == c[0]));
}

#[test]
fn empty_catalog_fails() {
    assert_eq!(assign(&vec![], &people(0), 1), Err(AssignError::EmptyCatalog));
    assert_eq!(assign(&vec![], &people(3), 1), Err(AssignError::EmptyCatalog));
}

#[test]
fn no_participants_gives_no_entries() {
    assert_eq!(assign(&catalog(), &vec![], 5), Ok(vec![]));
}

#[test]
fn assign_with_uses_the_given_picks() {
    let c = catalog();
    let ps = people(3);
    let v = assign_with(&c, &ps, &vec![3, 0, 3]);
    assert_eq!(v[0].entry, c[3]);
    assert_eq!(v[1].entry, c[0]);
    assert_eq!(v[2].entry, c[3]);
    assert_eq!(v[2].participant, ps[2]);
}

#[test]
fn automated_members_are_left_out() {
    let members = vec![person(1, "bot", true), person(2, "aki", false), person(3, "ren", false)];
    let e = eligible(&members);
    assert_eq!(e, vec![person(2, "aki", false), person(3, "ren", false)]);
}

#[test]
fn render_joins_lines() {
    let v = vec![
        Assignment { participant: person(1, "aki", false), entry: entry(MenuKind::Nigiri, "まぐろ") },
        Assignment { participant: person(2, "ren", false), entry: entry(MenuKind::Drink, "お茶") },
    ];
    assert_eq!(render(&v), "aki: まぐろ\nren: お茶");
    assert_eq!(render(&vec![]), "");
}

#[test]
fn reply_texts() {
    let members = vec![person(1, "bot", true), person(2, "aki", false)];
    assert_eq!(reply(&Err(LoadError::Unreadable), &members, 3), LOAD_FAILURE);
    assert_eq!(reply(&Err(LoadError::Malformed), &members, 3), LOAD_FAILURE);
    assert_eq!(reply(&Ok(vec![]), &members, 3), EMPTY_FAILURE);
    let one = vec![entry(MenuKind::SideMenu, "茶碗蒸し")];
    assert_eq!(reply(&Ok(one), &members, 3), "aki: 茶碗蒸し");
}

#[test]
fn reply_repeats_for_the_same_seed() {
    let members: Vec<Participant> = (0..10).map(|i| person(i, &format!("m{}", i), i % 3 == 0)).collect();
    let loaded = Ok(catalog());
    assert_eq!(reply(&loaded, &members, 42), reply(&loaded, &members, 42));
    assert_eq!(reply(&loaded, &members, 42).lines().count(), 6);
}
