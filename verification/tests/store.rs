use user_directory::config::{store_uri, COLL_NAME, DB_NAME, LOCAL_STORE_URI};
use user_directory::fault::{classify, FaultKind, StoreFault, DUPLICATE_KEY_CODE};
use user_directory::memory::MemoryStore;
use user_directory::response::{
    respond_created, respond_deleted, respond_failure, respond_found, respond_listed,
    respond_updated, status, Body,
};
use user_directory::service::{
    bootstrap_outcome, create_outcome, delete_outcome, get_outcome, list_outcome, update_outcome,
    Scan, ServiceError, UserDirectory,
};
use user_directory::user::{Update, User};

fn word(value: &str) -> String {
    value.to_string()
}

fn person(first_name: &str, username: &str) -> User {
    User::new(word(first_name), word("Doe"), word(username), word("doe@x.io"))
}

fn other_fault(message: &str) -> StoreFault {
    StoreFault::new(FaultKind::Other, word(message))
}

fn text_of(body: &Body) -> &str {
    match body {
        Body::Text(text) => text.as_str(),
        other => panic!("expected text, got {:?}", other),
    }
}

#[test]
fn duplicate_key_code_makes_a_duplicate_key_fault() {
    assert_eq!(DUPLICATE_KEY_CODE, 11000);
    let fault = classify(Some(11000), word("E11000 duplicate key error"));
    assert_eq!(fault.kind(), FaultKind::DuplicateKey);
    assert_eq!(fault.message(), "E11000 duplicate key error");
}

#[test]
fn other_codes_and_no_code_make_other_faults() {
    assert_eq!(classify(Some(11001), word("x")).kind(), FaultKind::Other);
    assert_eq!(classify(Some(0), word("x")).kind(), FaultKind::Other);
    assert_eq!(classify(Some(-11000), word("x")).kind(), FaultKind::Other);
    let fault = classify(None, word("connection refused"));
    assert_eq!(fault.kind(), FaultKind::Other);
    assert_eq!(fault.into_message(), "connection refused");
}

#[test]
fn store_without_index_accepts_a_username_twice() {
    let mut store = MemoryStore::new();
    assert!(store.insert_one(person("Jane", "doe")).is_ok());
    assert!(store.insert_one(person("John", "doe")).is_ok());
    assert_eq!(store.find_all().len(), 2);
    assert_eq!(store.find_one(&word("doe")).unwrap(), person("Jane", "doe"));
}

#[test]
fn index_is_refused_while_usernames_repeat() {
    let mut store = MemoryStore::new();
    assert!(store.insert_one(person("Jane", "doe")).is_ok());
    assert!(store.insert_one(person("Rick", "roe")).is_ok());
    assert!(store.insert_one(person("John", "doe")).is_ok());
    let fault = store.create_unique_index().unwrap_err();
    assert_eq!(fault.kind(), FaultKind::DuplicateKey);
    assert_eq!(fault.message(), "duplicate key error: usernames are not unique");
    assert!(store.insert_one(person("Jack", "doe")).is_ok());
    assert_eq!(store.delete_one(&word("doe")), 1);
    assert_eq!(store.delete_one(&word("doe")), 1);
    assert!(store.create_unique_index().is_ok());
    assert_eq!(store.find_one(&word("doe")).unwrap(), person("Jack", "doe"));
}

#[test]
fn index_may_be_asked_for_again() {
    let mut store = MemoryStore::new();
    assert!(store.insert_one(person("Jane", "doe")).is_ok());
    assert!(store.create_unique_index().is_ok());
    assert!(store.create_unique_index().is_ok());
    assert_eq!(store.find_all(), vec![person("Jane", "doe")]);
    let fault = store.insert_one(person("John", "doe")).unwrap_err();
    assert_eq!(fault.kind(), FaultKind::DuplicateKey);
    assert_eq!(fault.message(), "duplicate key error: username doe");
}

#[test]
fn update_and_delete_report_how_many_records_matched() {
    let mut store = MemoryStore::new();
    assert!(store.create_unique_index().is_ok());
    assert!(store.insert_one(person("Jane", "doe")).is_ok());
    let patch = Update::new(word("Janet"), word("Roe"), word("janet@x.io"));
    assert_eq!(store.update_one(&word("roe"), &patch), 0);
    assert_eq!(store.update_one(&word("doe"), &patch), 1);
    assert_eq!(
        store.find_one(&word("doe")).unwrap(),
        User::new(word("Janet"), word("Roe"), word("doe"), word("janet@x.io"))
    );
    assert_eq!(store.delete_one(&word("roe")), 0);
    assert_eq!(store.delete_one(&word("doe")), 1);
    assert!(store.find_one(&word("doe")).is_none());
    assert!(store.find_all().is_empty());
}

#[test]
fn update_touches_only_the_first_match_without_index() {
    let mut store = MemoryStore::new();
    assert!(store.insert_one(person("Jane", "doe")).is_ok());
    assert!(store.insert_one(person("John", "doe")).is_ok());
    let patch = Update::new(word("Janet"), word("Doe"), word("doe@x.io"));
    assert_eq!(store.update_one(&word("doe"), &patch), 1);
    assert_eq!(store.find_all(), vec![person("Janet", "doe"), person("John", "doe")]);
    assert_eq!(store.delete_one(&word("doe")), 1);
    assert_eq!(store.find_all(), vec![person("John", "doe")]);
}

#[test]
fn directory_does_not_start_on_a_store_with_repeated_usernames() {
    let mut store = MemoryStore::new();
    assert!(store.insert_one(person("Jane", "doe")).is_ok());
    assert!(store.insert_one(person("John", "doe")).is_ok());
    match UserDirectory::start(store) {
        Err(ServiceError::BootstrapFailure { message }) => {
            assert_eq!(message, "duplicate key error: usernames are not unique")
        }
        other => panic!("expected a bootstrap failure, got {:?}", other),
    }
}

#[test]
fn directory_starts_on_a_store_with_records() {
    let mut store = MemoryStore::new();
    assert!(store.insert_one(person("Jane", "doe")).is_ok());
    let mut directory = UserDirectory::start(store).expect("usernames are unique");
    assert_eq!(directory.get_by_username(&word("doe")).unwrap(), person("Jane", "doe"));
    assert!(matches!(
        directory.create(person("John", "doe")),
        Err(ServiceError::DuplicateKey { .. })
    ));
}

#[test]
fn create_outcome_tells_duplicate_key_from_unavailable() {
    assert!(create_outcome(Ok(())).is_ok());
    let taken = create_outcome(Err(StoreFault::new(FaultKind::DuplicateKey, word("taken"))));
    assert!(matches!(&taken, Err(ServiceError::DuplicateKey { message }) if message == "taken"));
    let response = respond_created(taken);
    assert_eq!(response.status, 409);
    assert_eq!(text_of(&response.body), "taken");
    let down = create_outcome(Err(other_fault("timed out")));
    assert!(matches!(&down, Err(ServiceError::StoreUnavailable { message }) if message == "timed out"));
    let response = respond_created(down);
    assert_eq!(response.status, 500);
    assert_eq!(text_of(&response.body), "timed out");
}

#[test]
fn get_outcome_reads_the_three_answers() {
    let username = word("doe");
    assert_eq!(
        get_outcome(&username, Ok(Some(person("Jane", "doe")))).unwrap(),
        person("Jane", "doe")
    );
    let missing = get_outcome(&username, Ok(None));
    assert!(matches!(&missing, Err(ServiceError::NotFound { username }) if username == "doe"));
    let response = respond_found(missing);
    assert_eq!(response.status, 404);
    assert_eq!(text_of(&response.body), "No user found with username doe");
    let down = get_outcome(&username, Err(other_fault("no primary")));
    assert!(matches!(&down, Err(ServiceError::StoreUnavailable { message }) if message == "no primary"));
    assert_eq!(respond_found(down).status, 500);
    let odd = get_outcome(&username, Err(StoreFault::new(FaultKind::DuplicateKey, word("odd"))));
    assert!(matches!(&odd, Err(ServiceError::StoreUnavailable { message }) if message == "odd"));
}

#[test]
fn list_outcome_reports_a_broken_scan() {
    let listed = list_outcome(Scan::Complete(vec![person("Jane", "doe")]));
    assert_eq!(listed.unwrap(), vec![person("Jane", "doe")]);
    let refused = list_outcome(Scan::Refused(other_fault("no primary")));
    assert!(matches!(&refused, Err(ServiceError::StoreUnavailable { message }) if message == "no primary"));
    assert_eq!(respond_listed(refused).status, 500);
    let broken = list_outcome(Scan::Interrupted(other_fault("cursor lost")));
    assert!(matches!(&broken, Err(ServiceError::Incomplete { message }) if message == "cursor lost"));
    let response = respond_listed(broken);
    assert_eq!(response.status, 500);
    assert_eq!(text_of(&response.body), "cursor lost");
}

#[test]
fn update_and_delete_outcomes_ignore_the_count() {
    assert!(update_outcome(Ok(0)).is_ok());
    assert!(update_outcome(Ok(1)).is_ok());
    assert!(delete_outcome(Ok(0)).is_ok());
    assert!(delete_outcome(Ok(1)).is_ok());
    let down = update_outcome(Err(other_fault("timed out")));
    assert!(matches!(&down, Err(ServiceError::StoreUnavailable { message }) if message == "timed out"));
    let response = respond_updated(down);
    assert_eq!(response.status, 500);
    assert_eq!(text_of(&response.body), "timed out");
    let down = delete_outcome(Err(other_fault("timed out")));
    assert!(matches!(&down, Err(ServiceError::StoreUnavailable { message }) if message == "timed out"));
    let response = respond_deleted(down);
    assert_eq!(response.status, 500);
    assert_eq!(text_of(&response.body), "timed out");
}

#[test]
fn bootstrap_outcome_makes_every_fault_fatal() {
    assert!(bootstrap_outcome(Ok(())).is_ok());
    let failed = bootstrap_outcome(Err(other_fault("unreachable")));
    assert!(matches!(&failed, Err(ServiceError::BootstrapFailure { message }) if message == "unreachable"));
    let failed = bootstrap_outcome(Err(StoreFault::new(FaultKind::DuplicateKey, word("dup"))));
    assert!(matches!(&failed, Err(ServiceError::BootstrapFailure { message }) if message == "dup"));
}

#[test]
fn each_error_has_its_status() {
    assert_eq!(status(&ServiceError::NotFound { username: word("u") }), 404);
    assert_eq!(status(&ServiceError::DuplicateKey { message: word("m") }), 409);
    assert_eq!(status(&ServiceError::StoreUnavailable { message: word("m") }), 500);
    assert_eq!(status(&ServiceError::Incomplete { message: word("m") }), 500);
    assert_eq!(status(&ServiceError::BootstrapFailure { message: word("m") }), 500);
    let response = respond_failure(ServiceError::BootstrapFailure { message: word("no index") });
    assert_eq!(response.status, 500);
    assert_eq!(text_of(&response.body), "no index");
}

#[test]
fn user_keeps_its_username_under_a_patch() {
    let mut user = User::new(word("Ada"), word("Lovelace"), word("ada"), word("ada@x.io"));
    let patch = Update::new(word("Augusta"), word("King"), word("a@k.io"));
    assert_eq!(patch.first_name(), "Augusta");
    assert_eq!(patch.last_name(), "King");
    assert_eq!(patch.email(), "a@k.io");
    assert_eq!(patch.clone(), patch);
    user.apply(&patch);
    assert_eq!(user, User::new(word("Augusta"), word("King"), word("ada"), word("a@k.io")));
    assert!(user.is_named(&word("ada")));
    assert!(!user.is_named(&word("Ada")));
    assert_ne!(user, User::new(word("Augusta"), word("King"), word("adb"), word("a@k.io")));
}

#[test]
fn store_uri_defaults_to_the_local_store() {
    assert_eq!(store_uri(None), "mongodb://localhost:27017");
    assert_eq!(store_uri(Some(word("mongodb://db.example:27017"))), "mongodb://db.example:27017");
    assert_eq!(store_uri(Some(String::new())), "");
    assert_eq!(DB_NAME, "myApp");
    assert_eq!(COLL_NAME, "users");
    assert_eq!(LOCAL_STORE_URI, "mongodb://localhost:27017");
}
