use kinsper_users::data::scheme::{CreateUserScheme, UpdateUserSchema};
use kinsper_users::data::table::UserTable;
use kinsper_users::errors::TypeErrorKinsper;

fn user(id: &str, name: &str, mail: &str) -> CreateUserScheme {
    CreateUserScheme { id: id.to_string(), name: name.to_string(), mail: mail.to_string() }
}

#[test]
fn test01_when_get_user_by_id_given_inexistent_id_then_returns_error() {
    let db_context = UserTable::new();

    let user_inserted = db_context.get_user_by_id("12");

    assert!(user_inserted.is_err());
}

#[test]
fn test02_when_add_user_given_valid_user_then_can_get_that_user() {
    let mut db_context = UserTable::new();
    let new_user = user("15", "Fede", "fede@gmail.com");
    db_context.add_user(&new_user).unwrap();

    let user_inserted = db_context.get_user_by_id("15").unwrap();

    assert_eq!(user_inserted.id, "15".to_string());
}

#[test]
fn test03_when_get_users_given_limit_then_returns_limited_number_of_users() {
    let mut db_context = UserTable::new();
    let new_users = vec![
        user("20", "User 1", "user1@example.com"),
        user("21", "User 2", "user2@example.com"),
        user("23", "User 3", "user3@example.com"),
    ];
    for u in new_users {
        db_context.add_user(&u).unwrap();
    }

    let users = db_context.get_users(Some(2)).unwrap();

    assert_eq!(users.len(), 2);
}

#[test]
fn test04_when_update_user_given_valid_id_and_schema_then_updated_successfully() {
    let mut db_context = UserTable::new();
    let new_user = user("9494", "Jorge", "jorge@gmail.com");
    db_context.add_user(&new_user).unwrap();

    let updated_user = UpdateUserSchema::new()
        .with_name("Jorge Updated".to_string())
        .with_mail("jorge_updated@gmail.com".to_string())
        .finalize()
        .unwrap();

    db_context.update_user("9494", &updated_user).unwrap();

    let user_updated = db_context.get_user_by_id("9494").unwrap();

    assert_eq!(user_updated.name, updated_user.name.unwrap());
    assert_eq!(user_updated.mail, updated_user.mail.unwrap());
}

#[test]
fn test05_when_update_user_ineexistent_id_then_returns_error() {
    let mut db_context = UserTable::new();
    let updated_user = UpdateUserSchema::new()
        .with_name("Jorge Updated".to_string())
        .with_mail("jorgito@gmail.com".to_string())
        .finalize()
        .unwrap();

    let result = db_context.update_user("9491", &updated_user);

    assert!(result.is_err());
}

#[test]
fn test06_when_delete_user_given_inexistent_id_then_returns_error() {
    let mut db_context = UserTable::new();

    let result = db_context.delete_user("9492");

    assert!(result.is_err());
}

#[test]
fn test07_when_delete_user_given_valid_id_then_deleted_successfully() {
    let mut db_context = UserTable::new();
    let new_user = user("25", "Luis", "luis@gmail.com");
    db_context.add_user(&new_user).unwrap();

    db_context.delete_user("25").unwrap();

    let deleted_user = db_context.get_user_by_id("25");

    assert!(deleted_user.is_err());
}

#[test]
fn table_add_user_twice_is_already_exists() {
    let mut table = UserTable::new();
    table.add_user(&user("1", "A", "a@b.com")).unwrap();
    let err = table.add_user(&user("1", "B", "b@b.com")).unwrap_err();
    assert_eq!(err.type_error, TypeErrorKinsper::AlreadyExists);
    assert_eq!(err.message, "Error duplicate entry");
    assert_eq!(table.get_user_by_id("1").unwrap().name, "A");
    assert_eq!(table.len(), 1);
}

#[test]
fn table_update_to_taken_id_is_already_exists() {
    let mut table = UserTable::new();
    table.add_user(&user("1", "A", "a@b.com")).unwrap();
    table.add_user(&user("2", "B", "b@b.com")).unwrap();
    let update = UpdateUserSchema::new().with_id("2".to_string()).finalize().unwrap();
    let err = table.update_user("1", &update).unwrap_err();
    assert_eq!(err.type_error, TypeErrorKinsper::AlreadyExists);
    assert_eq!(table.get_user_by_id("1").unwrap().name, "A");
}

#[test]
fn table_update_id_moves_the_row() {
    let mut table = UserTable::new();
    table.add_user(&user("12", "Fede", "fede@test.com")).unwrap();
    let update = UpdateUserSchema::new()
        .with_id("12333".to_string())
        .with_name("Fede updated".to_string())
        .finalize()
        .unwrap();
    assert_eq!(table.update_user("12", &update).unwrap(), 1);
    assert!(table.get_user_by_id("12").is_err());
    let moved = table.get_user_by_id("12333").unwrap();
    assert_eq!(moved.name, "Fede updated");
    assert_eq!(moved.mail, "fede@test.com");
}

#[test]
fn table_get_users_default_limit_and_zero_limit() {
    let mut table = UserTable::new();
    assert_eq!(table.get_users(None).unwrap_err().type_error, TypeErrorKinsper::NotFound);
    table.add_user(&user("1", "A", "a@b.com")).unwrap();
    assert_eq!(table.get_users(None).unwrap().len(), 1);
    let err = table.get_users(Some(0)).unwrap_err();
    assert_eq!(err.type_error, TypeErrorKinsper::NotFound);
    assert_eq!(err.message, "No users found.");
}

#[test]
fn table_reset_drops_every_row() {
    let mut table = UserTable::new();
    table.add_user(&user("1", "A", "a@b.com")).unwrap();
    table.add_user(&user("2", "B", "b@b.com")).unwrap();
    table.reset_table().unwrap();
    assert_eq!(table.len(), 0);
    assert!(table.get_user_by_id("1").is_err());
}
