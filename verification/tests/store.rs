use snipsnap_lib::error::Error;
use snipsnap_lib::http_error_response::HttpErrorResponse;
use snipsnap_lib::logins_table::LoginsTable;
use snipsnap_lib::nonces_table::NoncesTable;
use snipsnap_lib::table::Table;
use snipsnap_lib::users_table::{UserRecord, UsersTable};

#[test]
fn it_works() {
    let result = 2 + 2;
    assert_eq!(result, 4);
}

#[test]
fn table_insert_get_remove() {
    let mut t: Table<String> = Table::new();
    assert!(t.is_empty());
    assert_eq!(t.len(), 0);
    t.insert(String::from("a"), String::from("1"));
    t.insert(String::from("b"), String::from("2"));
    assert_eq!(t.len(), 2);
    assert!(t.contains_key("a"));
    assert!(!t.contains_key("c"));
    assert_eq!(t.get("a"), Some(&String::from("1")));
    t.insert(String::from("a"), String::from("3"));
    assert_eq!(t.len(), 2);
    assert_eq!(t.get("a"), Some(&String::from("3")));
    assert_eq!(t.remove("a"), Some(String::from("3")));
    assert_eq!(t.remove("a"), None);
    assert_eq!(t.len(), 1);
    t.clear();
    assert!(t.is_empty());
}

#[test]
fn nonce_is_fixed_length_alphanumeric() {
    let mut store = NoncesTable::new();
    let nonce = store.make_nonce("device-1").expect("issuing must succeed");
    assert_eq!(nonce.chars().count(), 30);
    assert!(nonce.chars().all(|c| c.is_ascii_alphanumeric()));
}

#[test]
fn issue_rotate_consume() {
    let mut store = NoncesTable::new();
    let n1 = store.make_nonce("d1").expect("first issuance must succeed");
    let n2 = store.make_nonce("d1").expect("second issuance must succeed");
    assert_ne!(n1, n2);
    assert_eq!(store.read_nonce("d1"), Ok(n2.clone()));
    assert_eq!(store.get_nonce("d1"), Ok(n2));
    assert_eq!(store.get_nonce("d1"), Err(Error::NotFound));
    assert_eq!(store.read_nonce("d1"), Err(Error::NotFound));
}

#[test]
fn consume_absent_fails_and_changes_nothing() {
    let mut store = NoncesTable::new();
    let kept = store.make_nonce("present").expect("issuing must succeed");
    assert_eq!(store.get_nonce("ghost"), Err(Error::NotFound));
    assert_eq!(store.read_nonce("present"), Ok(kept));
}

#[test]
fn peek_missing_attribute_fails() {
    let mut raw: Table<Option<String>> = Table::new();
    raw.insert(String::from("broken"), None);
    raw.insert(String::from("whole"), Some(String::from("value")));
    let store = NoncesTable::from_table(raw);
    assert_eq!(store.read_nonce("broken"), Err(Error::AttributeError));
    assert_eq!(store.read_nonce("whole"), Ok(String::from("value")));
    assert_eq!(store.read_nonce("absent"), Err(Error::NotFound));
}

#[test]
fn reset_empties_every_device() {
    let mut store = NoncesTable::new();
    store.make_nonce("d1").expect("issuing must succeed");
    store.make_nonce("d2").expect("issuing must succeed");
    assert_eq!(store.reset_nonces(), Ok(()));
    assert_eq!(store.read_nonce("d1"), Err(Error::NotFound));
    assert_eq!(store.read_nonce("d2"), Err(Error::NotFound));
    assert_eq!(store.reset_nonces(), Ok(()));
    assert_eq!(store.reset_nonces(), Ok(()));
}

#[test]
fn record_login_overwrites_single_row() {
    let mut logins = LoginsTable::new();
    assert_eq!(logins.record_login_at("u1", String::from("first")), Ok(()));
    assert_eq!(logins.last_login("u1"), Some(&String::from("first")));
    assert_eq!(logins.record_login_at("u1", String::from("second")), Ok(()));
    assert_eq!(logins.last_login("u1"), Some(&String::from("second")));
    assert_eq!(logins.last_login("u2"), None);
}

#[test]
fn record_login_assigns_timestamp() {
    let mut logins = LoginsTable::new();
    assert_eq!(logins.record_login("u1"), Ok(()));
    assert!(logins.last_login("u1").is_some());
}

#[test]
fn user_login_creates_and_updates() {
    let mut users = UsersTable::new();
    let info = users.login("u1", "arn:1").expect("login must succeed");
    assert!(!info.has_username);
    assert!(!info.has_display_name);
    let rec = users.get_record("u1").expect("record must exist");
    assert_eq!(rec.sns_arn, Some(String::from("arn:1")));
    assert_eq!(rec.username, None);
    let info2 = users.login("u1", "arn:2").expect("login must succeed");
    assert!(!info2.has_username);
    let rec2 = users.get_record("u1").expect("record must exist");
    assert_eq!(rec2.sns_arn, Some(String::from("arn:2")));
}

#[test]
fn user_login_reports_existing_attributes() {
    let mut raw: Table<UserRecord> = Table::new();
    raw.insert(
        String::from("u1"),
        UserRecord {
            sns_arn: None,
            username: Some(String::from("name")),
            display_name: None,
        },
    );
    let mut users = UsersTable::from_table(raw);
    let info = users.login("u1", "arn:1").expect("login must succeed");
    assert!(info.has_username);
    assert!(!info.has_display_name);
    let rec = users.get_record("u1").expect("record must exist");
    assert_eq!(rec.username, Some(String::from("name")));
    assert_eq!(rec.sns_arn, Some(String::from("arn:1")));
}

#[test]
fn user_logout_clears_target() {
    let mut users = UsersTable::new();
    users.login("u1", "arn:1").expect("login must succeed");
    assert_eq!(users.logout("u1"), Ok(()));
    let rec = users.get_record("u1").expect("record must exist");
    assert_eq!(rec.sns_arn, None);
    assert_eq!(users.logout("u2"), Ok(()));
    let created = users.get_record("u2").expect("record must exist");
    assert_eq!(created.sns_arn, None);
    assert_eq!(created.username, None);
}

#[test]
fn error_messages() {
    assert_eq!(Error::NotFound.message(), "Item not found");
    assert_eq!(
        Error::AttributeError.message(),
        "Some item(s) were found but there was an error retrieving attributes"
    );
}

#[test]
fn error_envelope_carries_message() {
    let envelope = HttpErrorResponse::new(String::from("Error decoding body"));
    assert_eq!(envelope.message(), &String::from("Error decoding body"));
}
