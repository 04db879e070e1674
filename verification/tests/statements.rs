use sea_query::Value;
use uuid::Uuid;
use yaddak::monsters::{
    all_monsters_stmt, create_monsters_table_stmt, delete_monster_stmt, insert_monster_stmt,
    monster_by_id_stmt, seed_check_stmt, update_monster_stmt, Monster, MonsterModel,
};
use yaddak::user::{
    all_users_stmt, create_users_table_stmt, delete_user_stmt, insert_user_stmt,
    update_user_stmt, user_auth_stmt, user_by_email_stmt, user_by_id_stmt, user_by_name_stmt,
    User,
};

fn sample_user() -> User {
    User {
        id: 42,
        user_name: String::from("alice"),
        user_email: String::from("a@x.com"),
        user_auth: String::from("DIGEST"),
    }
}

fn text(v: &str) -> Value {
    Value::String(Some(Box::new(String::from(v))))
}

fn ident(u: u128) -> Value {
    Value::Uuid(Some(Box::new(Uuid::from_u128(u))))
}

fn small(n: i16) -> Value {
    Value::SmallInt(Some(n))
}

#[test]
fn select_by_name_binds_the_name() {
    let name = String::from("alice");
    let (sql, values) = user_by_name_stmt(&name);
    assert_eq!(
        sql,
        "SELECT \"id\", \"user_email\", \"user_name\", \"user_auth\" FROM \"user_model\" WHERE \"user_name\" = $1"
    );
    assert_eq!(values.0 .0, vec![text("alice")]);
}

#[test]
fn select_by_email_limits_to_one_row() {
    let email = String::from("a@x.com");
    let (sql, values) = user_by_email_stmt(&email);
    assert!(sql.contains("WHERE \"user_email\" = $1"));
    assert!(sql.contains("LIMIT"));
    assert_eq!(values.0 .0.len(), 2);
    assert_eq!(values.0 .0[0], text("a@x.com"));
}

#[test]
fn auth_lookup_binds_the_token_verbatim() {
    let token = String::from("DIGEST");
    let (sql, values) = user_auth_stmt(&token);
    assert_eq!(sql, "SELECT \"user_auth\" FROM \"user_model\" WHERE \"user_auth\" = $1");
    assert_eq!(values.0 .0, vec![text("DIGEST")]);
}

#[test]
fn select_by_id_binds_a_uuid() {
    let (sql, values) = user_by_id_stmt(42);
    assert!(sql.contains("WHERE \"id\" = $1"));
    assert_eq!(values.0 .0[0], ident(42));
}

#[test]
fn select_all_binds_nothing() {
    let (sql, values) = all_users_stmt();
    assert_eq!(
        sql,
        "SELECT \"id\", \"user_email\", \"user_name\", \"user_auth\" FROM \"user_model\""
    );
    assert!(values.0 .0.is_empty());
}

#[test]
fn insert_binds_every_field_in_column_order() {
    let (sql, values) = insert_user_stmt(&sample_user()).unwrap();
    assert_eq!(
        sql,
        "INSERT INTO \"user_model\" (\"id\", \"user_email\", \"user_name\", \"user_auth\") VALUES ($1, $2, $3, $4)"
    );
    assert_eq!(values.0 .0, vec![ident(42), text("a@x.com"), text("alice"), text("DIGEST")]);
}

#[test]
fn update_binds_the_mutable_fields_then_the_key() {
    let (sql, values) = update_user_stmt(42, &sample_user());
    assert_eq!(
        sql,
        "UPDATE \"user_model\" SET \"user_name\" = $1, \"user_email\" = $2, \"user_auth\" = $3 WHERE \"id\" = $4"
    );
    assert_eq!(values.0 .0, vec![text("alice"), text("a@x.com"), text("DIGEST"), ident(42)]);
}

#[test]
fn delete_binds_the_key() {
    let (sql, values) = delete_user_stmt(42);
    assert_eq!(sql, "DELETE FROM \"user_model\" WHERE \"id\" = $1");
    assert_eq!(values.0 .0, vec![ident(42)]);
}

#[test]
fn users_schema_statement_is_complete() {
    let sql = create_users_table_stmt();
    assert!(sql.starts_with("CREATE TABLE IF NOT EXISTS \"user_model\""));
    assert!(sql.contains("\"id\" uuid NOT NULL PRIMARY KEY"));
    assert!(sql.contains("\"user_auth\" varchar NOT NULL"));
    assert!(sql.contains("\"user_name\""));
    assert!(sql.contains("\"user_email\""));
}

#[test]
fn monsters_schema_statement_links_the_owner() {
    let sql = create_monsters_table_stmt();
    assert!(sql.starts_with("CREATE TABLE IF NOT EXISTS \"monster_model\""));
    assert!(sql.contains("FOREIGN KEY"));
    assert!(sql.contains("\"FK_User\""));
    assert!(sql.contains("REFERENCES \"user_model\""));
    assert!(sql.contains("ON DELETE CASCADE"));
    assert!(sql.contains("ON UPDATE CASCADE"));
    // the bound values agree with the declared column types
    assert!(sql.contains("\"str\" integer NOT NULL"));
    assert!(sql.contains("\"challenge\" varchar NOT NULL"));
}

#[test]
fn monster_model_lists_every_column() {
    let cols = MonsterModel::cols();
    assert_eq!(cols.len(), 24);
    assert_eq!(cols[0].name(), "id");
    assert_eq!(cols[1].name(), "name");
    assert_eq!(cols[16].name(), "challenge");
    assert_eq!(cols[23].name(), "user_id");
    assert_eq!(MonsterModel::Table.name(), "monster_model");
}

#[test]
fn monster_statements_cover_the_crud_cycle() {
    let (sql, values) = monster_by_id_stmt(7);
    assert!(sql.starts_with("SELECT \"id\", \"name\", \"meta\""));
    assert!(sql.contains("FROM \"monster_model\" WHERE \"id\" = $1"));
    assert_eq!(values.0 .0[0], ident(7));

    let (sql, values) = all_monsters_stmt();
    assert!(sql.ends_with("FROM \"monster_model\""));
    assert!(values.0 .0.is_empty());

    let (sql, values) = seed_check_stmt();
    assert!(sql.contains("WHERE \"name\" = $1"));
    assert_eq!(values.0 .0, vec![text("Aboleth")]);

    let (sql, values) = delete_monster_stmt(7);
    assert_eq!(sql, "DELETE FROM \"monster_model\" WHERE \"id\" = $1");
    assert_eq!(values.0 .0, vec![ident(7)]);
}

#[test]
fn monster_insert_binds_typed_values() {
    let m = Monster {
        id: 7,
        name: String::from("Imp"),
        meta: String::from("Tiny fiend"),
        armor_class: String::from("13"),
        hit_points: String::from("10"),
        speed: String::from("20 ft."),
        str: 6,
        dex: 17,
        con: 13,
        int: 11,
        wis: 12,
        cha: 14,
        saving_throws: String::from(""),
        skills: String::from("Deception +4"),
        senses: String::from("Darkvision 120 ft."),
        languages: String::from("Infernal"),
        challenge: 250,
        traits: None,
        actions: String::from("Sting."),
        damage_immunities: Some(String::from("fire")),
        condition_immunities: None,
        legendary_actions: None,
        img_url: String::from("https://example.test/imp.png"),
        user_id: 9,
    };
    let (sql, values) = insert_monster_stmt(&m).unwrap();
    assert!(sql.starts_with("INSERT INTO \"monster_model\""));
    assert_eq!(values.0 .0.len(), 24);
    assert_eq!(values.0 .0[0], ident(7));
    assert_eq!(values.0 .0[6], small(6));
    assert_eq!(values.0 .0[7], small(17));
    assert_eq!(values.0 .0[16], text("0.25"));
    assert_eq!(values.0 .0[17], Value::String(None));
    assert_eq!(values.0 .0[19], text("fire"));
    assert_eq!(values.0 .0[23], ident(9));

    let (sql, values) = update_monster_stmt(7, &m);
    assert!(sql.starts_with("UPDATE \"monster_model\" SET \"name\" = $1"));
    assert!(sql.ends_with("WHERE \"id\" = $24"));
    assert_eq!(values.0 .0.len(), 24);
    assert_eq!(values.0 .0[23], ident(7));
}
