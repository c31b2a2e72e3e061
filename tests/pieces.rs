use kinsper_users::data::handler::{
    finish_fetch_all, finish_insert, finish_matched, query_limit, update_statement, QUERY_LIMIT,
};
use kinsper_users::data::model::UserModel;
use kinsper_users::data::scheme::UpdateUserSchema;
use kinsper_users::errors::{ErrorKinsper, StatusClass, StoreFailure, TypeErrorKinsper};
use kinsper_users::relay::{Relay, RelayAction, RelayPhase};
use kinsper_users::service::{create_payload, id_to_str, mail_update, name_update};
use kinsper_users::text::{contains_text, same_text};
use kinsper_users::validate_mail;

#[test]
fn mail_shape_accepts_and_refuses() {
    assert!(validate_mail("fede@test.com").is_ok());
    assert!(validate_mail("a.b+c@sub-domain.example.org").is_ok());
    let err = validate_mail("not-an-email").unwrap_err();
    assert_eq!(err.type_error, TypeErrorKinsper::InvalidEmail);
    assert_eq!(err.message, "Invalid email.");
    assert!(validate_mail("").is_err());
    assert!(validate_mail("UPPER@TEST.COM").is_err());
}

#[test]
fn mail_shape_is_anchored_at_start_only() {
    assert!(validate_mail("fede@test.com trailing garbage").is_ok());
    assert!(validate_mail(" fede@test.com").is_err());
}

#[test]
fn status_class_of_every_kind() {
    let cases = [
        (TypeErrorKinsper::InternalServer, StatusClass::Internal),
        (TypeErrorKinsper::InvalidUri, StatusClass::Internal),
        (TypeErrorKinsper::ConnectionError, StatusClass::Internal),
        (TypeErrorKinsper::StoreError, StatusClass::Internal),
        (TypeErrorKinsper::UpdateSchemeError, StatusClass::Internal),
        (TypeErrorKinsper::InvalidEmail, StatusClass::InvalidArgument),
        (TypeErrorKinsper::InvalidId, StatusClass::InvalidArgument),
        (TypeErrorKinsper::InternalValidationError, StatusClass::Internal),
        (TypeErrorKinsper::NotFound, StatusClass::NotFound),
        (TypeErrorKinsper::AlreadyExists, StatusClass::AlreadyExists),
        (TypeErrorKinsper::Unknown, StatusClass::Internal),
    ];
    for (kind, class) in cases {
        assert_eq!(kind.status_class(), class);
    }
    assert_eq!(StatusClass::InvalidArgument.code(), 3);
    assert_eq!(StatusClass::NotFound.code(), 5);
    assert_eq!(StatusClass::AlreadyExists.code(), 6);
    assert_eq!(StatusClass::Internal.code(), 13);
}

#[test]
fn error_describe_text() {
    let e = ErrorKinsper::new(TypeErrorKinsper::NotFound, "User not found.".to_string());
    assert_eq!(e.describe(), "[Error not found] User not found.");
    assert_eq!(e.status_class(), StatusClass::NotFound);
}

#[test]
fn store_failures_are_classified() {
    let dup = ErrorKinsper::from_store(StoreFailure::Database {
        message: "Duplicate entry '12' for key 'PRIMARY'".to_string(),
    });
    assert_eq!(dup.type_error, TypeErrorKinsper::AlreadyExists);
    assert_eq!(dup.message, "Error duplicate entry");

    let missing = ErrorKinsper::from_store(StoreFailure::RowNotFound);
    assert_eq!(missing.type_error, TypeErrorKinsper::NotFound);
    assert_eq!(missing.message, "Error user not found");

    let other_db = ErrorKinsper::from_store(StoreFailure::Database {
        message: "Table 'users' doesn't exist".to_string(),
    });
    assert_eq!(other_db.type_error, TypeErrorKinsper::StoreError);
    assert_eq!(other_db.message, "Error from store: Table 'users' doesn't exist");

    let io = ErrorKinsper::from_store(StoreFailure::Other { message: "timed out".to_string() });
    assert_eq!(io.type_error, TypeErrorKinsper::StoreError);
    assert_eq!(io.message, "Error from store: timed out");
}

#[test]
fn text_search() {
    assert!(contains_text("a Duplicate entry b", "Duplicate entry"));
    assert!(!contains_text("Duplicate entr", "Duplicate entry"));
    assert!(contains_text("abc", ""));
    assert!(same_text("abc", "abc"));
    assert!(!same_text("abc", "abd"));
    assert!(!same_text("abc", "ab"));
}

#[test]
fn finishing_store_outcomes() {
    assert_eq!(finish_insert(Ok(1)).unwrap(), 1);
    let e = finish_insert(Ok(0)).unwrap_err();
    assert_eq!(e.type_error, TypeErrorKinsper::AlreadyExists);
    assert_eq!(e.message, "User already exists.");
    assert_eq!(finish_matched(Ok(1)).unwrap(), 1);
    assert_eq!(finish_matched(Ok(0)).unwrap_err().type_error, TypeErrorKinsper::NotFound);
    assert_eq!(
        finish_matched(Err(StoreFailure::Other { message: "x".to_string() })).unwrap_err().type_error,
        TypeErrorKinsper::StoreError
    );
    assert_eq!(finish_fetch_all(Ok(Vec::new())).unwrap_err().type_error, TypeErrorKinsper::NotFound);
    let one = vec![UserModel { id: "1".to_string(), name: "A".to_string(), mail: "a@b.com".to_string() }];
    assert_eq!(finish_fetch_all(Ok(one)).unwrap().len(), 1);
    assert_eq!(query_limit(None), QUERY_LIMIT);
    assert_eq!(query_limit(Some(7)), 7);
}

#[test]
fn finalize_without_fields_is_update_scheme_error() {
    let err = UpdateUserSchema::new().finalize().unwrap_err();
    assert_eq!(err.type_error, TypeErrorKinsper::UpdateSchemeError);
    assert_eq!(err.message, "No fields to update.");
    assert_eq!(err.status_class(), StatusClass::Internal);
}

#[test]
fn clause_lists_present_fields_in_order() {
    let u = UpdateUserSchema::new()
        .with_mail("m@x.com".to_string())
        .with_name("N".to_string())
        .finalize()
        .unwrap();
    assert_eq!(u.query_set(), "name = ?, mail = ?");
    assert_eq!(u.bind_values(), vec!["N".to_string(), "m@x.com".to_string()]);

    let all = UpdateUserSchema::new()
        .with_id("9".to_string())
        .with_name("N".to_string())
        .with_mail("m@x.com".to_string())
        .finalize()
        .unwrap();
    assert_eq!(all.query_set(), "id = ?, name = ?, mail = ?");
    assert_eq!(all.bind_values(), vec!["9".to_string(), "N".to_string(), "m@x.com".to_string()]);
    assert_eq!(all.duplicate().query_set(), "id = ?, name = ?, mail = ?");

    let only_id = UpdateUserSchema::new().with_id("9".to_string());
    assert_eq!(only_id.query_set(), "");
    assert_eq!(only_id.prepare_query_set().unwrap(), "id = ?");
}

#[test]
fn update_statement_text() {
    assert_eq!(update_statement("name = ?"), "UPDATE users SET name = ? WHERE id = ?");
}

#[test]
fn request_steps() {
    assert_eq!(id_to_str(&Some("4".to_string())).unwrap(), "4");
    assert_eq!(id_to_str(&None).unwrap_err().type_error, TypeErrorKinsper::InvalidId);
    let p = create_payload(&Some("4".to_string()), &"N".to_string(), &"n@n.com".to_string()).unwrap();
    assert_eq!(p.id, "4");
    assert_eq!(p.mail, "n@n.com");
    let u = name_update("Z".to_string()).unwrap();
    assert_eq!(u.query_set(), "name = ?");
    assert_eq!(u.name, Some("Z".to_string()));
    let m = mail_update("z@z.com".to_string()).unwrap();
    assert_eq!(m.query_set(), "mail = ?");
    assert_eq!(mail_update("zz".to_string()).unwrap_err().type_error, TypeErrorKinsper::InvalidEmail);
}

#[test]
fn relay_sends_every_row_in_order_then_finishes() {
    let mut relay = Relay::new();
    assert_eq!(relay.phase(), RelayPhase::Materializing);
    let mut sent = Vec::new();
    let mut action = relay.fetched(3);
    while let RelayAction::Send(i) = action {
        sent.push(i);
        action = relay.pushed(true);
    }
    assert_eq!(sent, vec![0, 1, 2]);
    assert_eq!(action, RelayAction::Finish);
    assert_eq!(relay.phase(), RelayPhase::Closed);
    assert_eq!(relay.delivered(), 3);
}

#[test]
fn relay_stops_when_consumer_leaves() {
    let mut relay = Relay::new();
    assert_eq!(relay.fetched(5), RelayAction::Send(0));
    assert_eq!(relay.pushed(true), RelayAction::Send(1));
    assert_eq!(relay.pushed(false), RelayAction::Abandon);
    assert_eq!(relay.phase(), RelayPhase::Closed);
    assert_eq!(relay.delivered(), 1);
}

#[test]
fn relay_with_no_rows_finishes_at_once() {
    let mut relay = Relay::new();
    assert_eq!(relay.fetched(0), RelayAction::Finish);
    assert_eq!(relay.phase(), RelayPhase::Closed);
}

#[test]
fn mail_verdict_on_each_search_result() {
    assert!(kinsper_users::mail_verdict(Some(true)).is_ok());
    let e = kinsper_users::mail_verdict(Some(false)).unwrap_err();
    assert_eq!(e.type_error, TypeErrorKinsper::InvalidEmail);
    let e = kinsper_users::mail_verdict(None).unwrap_err();
    assert_eq!(e.type_error, TypeErrorKinsper::InternalValidationError);
    assert_eq!(e.message, "Error in validations.");
}
