use yaddak::bootstrap::{migrate, Db};
use yaddak::monsters::{Monster, MonsterFromJson, WOTCUUID};
use yaddak::repo::Table;

fn seed_entry(name: &str, challenge: &str) -> MonsterFromJson {
    MonsterFromJson {
        name: String::from(name),
        meta: String::from("Large aberration"),
        armor_class: String::from("17"),
        hit_points: String::from("135"),
        speed: String::from("10 ft."),
        str: 21,
        dex: 9,
        con: 15,
        int: 18,
        wis: 15,
        cha: 18,
        saving_throws: String::from("Con +6"),
        skills: String::from("History +12"),
        senses: String::from("Darkvision 120 ft."),
        languages: String::from("Deep Speech"),
        challenge: String::from(challenge),
        traits: Some(String::from("Amphibious.")),
        actions: String::from("Multiattack."),
        damage_immunities: None,
        condition_immunities: None,
        legendary_actions: None,
        img_url: String::from("https://example.test/a.png"),
    }
}

#[test]
fn migrate_creates_schema_and_imports_the_seed() {
    let mut db = Db::new();
    let seed = vec![seed_entry("Aboleth", "10 (5,900 XP)"), seed_entry("Imp", "1/4")];
    migrate(&mut db, &seed).unwrap();
    assert!(db.users.created);
    assert!(db.monsters.created);
    let rows = db.monsters.get_all().unwrap();
    assert_eq!(rows.len(), 2);
    assert_eq!(rows[0].name, "Aboleth");
    assert_eq!(rows[0].challenge, 10_000);
    assert_eq!(rows[0].user_id, WOTCUUID);
    assert_eq!(rows[1].name, "Imp");
    assert_eq!(rows[1].challenge, 250);
}

#[test]
fn migrate_twice_changes_nothing() {
    let mut db = Db::new();
    let seed = vec![seed_entry("Aboleth", "1/2"), seed_entry("Ogre", "2")];
    migrate(&mut db, &seed).unwrap();
    let first: Vec<Monster> = db.monsters.get_all().unwrap();
    migrate(&mut db, &seed).unwrap();
    let second: Vec<Monster> = db.monsters.get_all().unwrap();
    assert_eq!(first.len(), 2);
    assert_eq!(second.len(), 2);
    for (a, b) in first.iter().zip(second.iter()) {
        assert_eq!(a.id, b.id);
        assert_eq!(a.name, b.name);
        assert_eq!(a.challenge, b.challenge);
    }
}

#[test]
fn seeding_skips_a_store_that_carries_the_sentinel() {
    let mut table: Table<Monster> = Table::new();
    table.migrate().unwrap();
    let existing = Monster::from_json_with_id(1, seed_entry("Aboleth", "10"));
    table.post(&existing).unwrap();
    let seed = vec![seed_entry("Aboleth", "10"), seed_entry("Imp", "1/4")];
    Monster::migrate_json(&mut table, &seed).unwrap();
    assert_eq!(table.get_all().unwrap().len(), 1);
}

#[test]
fn conversion_parses_the_leading_challenge_token() {
    let m = Monster::from_json_with_id(7, seed_entry("Imp", "1/8 (25 XP)"));
    assert_eq!(m.id, 7);
    assert_eq!(m.challenge, 125);
    assert_eq!(m.user_id, WOTCUUID);
    assert_eq!(m.name, "Imp");
    assert_eq!(m.str, 21);
    assert_eq!(m.traits.as_deref(), Some("Amphibious."));
    assert_eq!(m.damage_immunities, None);
}

#[test]
fn fresh_conversion_draws_distinct_identifiers() {
    let a = Monster::from_json(seed_entry("Imp", "1/4"));
    let b = Monster::from_json(seed_entry("Imp", "1/4"));
    assert_ne!(a.id, b.id);
}
