use backend::account::{Account, ExternalIdentity, Provider};
use backend::credentials::{check_credentials, register, register_hashed, verify};
use backend::errors::{AuthFailure, RegisterFailure};
use backend::resolver::resolve;
use backend::security::hash_password;
use backend::store::AccountStore;

#[test]
fn registered_credentials_verify_every_time() {
    let mut store = AccountStore::new();
    let id = register(&mut store, "alice@example.com", "secret1", "Alice").unwrap();
    assert_eq!(verify(&store, "alice@example.com", "secret1"), Ok(id));
    assert_eq!(verify(&store, "alice@example.com", "secret1"), Ok(id));
    assert_eq!(verify(&store, "ALICE@example.com", "secret1"), Ok(id));
    assert_eq!(store.len(), 1);
}

#[test]
fn a_wrong_password_and_an_unknown_email_get_the_same_answer() {
    let mut store = AccountStore::new();
    register(&mut store, "alice@example.com", "secret1", "Alice").unwrap();
    let wrong = verify(&store, "alice@example.com", "wrongpass");
    let unknown = verify(&store, "nobody@example.com", "secret1");
    assert_eq!(wrong, Err(AuthFailure::InvalidCredentials));
    assert_eq!(unknown, wrong);
}

#[test]
fn an_account_without_a_password_gets_the_same_answer() {
    let mut store = AccountStore::new();
    let who = ExternalIdentity {
        provider: Provider::Google,
        external_id: "g-1".to_string(),
        email: "bob@example.com".to_string(),
        display_name: "Bob".to_string(),
        avatar_url: None,
    };
    resolve(&mut store, &who);
    assert_eq!(verify(&store, "bob@example.com", ""), Err(AuthFailure::InvalidCredentials));
    assert_eq!(verify(&store, "bob@example.com", "secret1"), Err(AuthFailure::InvalidCredentials));
}

#[test]
fn a_hash_that_cannot_be_checked_is_an_internal_failure() {
    let mut store = AccountStore::new();
    register_hashed(&mut store, "carol@example.com", "Carol", "corrupt".to_string()).unwrap();
    assert_eq!(verify(&store, "carol@example.com", "secret1"), Err(AuthFailure::Internal));
}

#[test]
fn an_email_is_registered_once() {
    let mut store = AccountStore::new();
    let first = register(&mut store, "alice@example.com", "secret1", "Alice");
    let second = register(&mut store, "alice@example.com", "other-password", "Alice Again");
    let third = register(&mut store, "Alice@EXAMPLE.com", "secret1", "Alice");
    assert_eq!(first, Ok(0));
    assert_eq!(second, Err(RegisterFailure::EmailTaken));
    assert_eq!(third, Err(RegisterFailure::EmailTaken));
    assert_eq!(store.len(), 1);
    assert_eq!(store.get(0).unwrap().full_name, "Alice");
    assert_eq!(verify(&store, "alice@example.com", "other-password"), Err(AuthFailure::InvalidCredentials));
}

#[test]
fn a_registration_without_an_email_is_refused() {
    let mut store = AccountStore::new();
    assert_eq!(register(&mut store, "", "secret1", "Nobody"), Err(RegisterFailure::Internal));
    assert_eq!(
        register_hashed(&mut store, "", "Nobody", "hash".to_string()),
        Err(RegisterFailure::Internal)
    );
    assert_eq!(store.len(), 0);
}

#[test]
fn the_email_of_a_federated_account_is_taken_too() {
    let mut store = AccountStore::new();
    let who = ExternalIdentity {
        provider: Provider::GitHub,
        external_id: "5".to_string(),
        email: "dave@example.com".to_string(),
        display_name: "Dave".to_string(),
        avatar_url: None,
    };
    resolve(&mut store, &who);
    assert_eq!(
        register(&mut store, "dave@example.com", "secret1", "Dave"),
        Err(RegisterFailure::EmailTaken)
    );
}

#[test]
fn register_hashed_stores_the_hash_as_given() {
    let mut store = AccountStore::new();
    let hash = hash_password("secret1".to_string()).unwrap();
    let id = register_hashed(&mut store, "erin@example.com", "Erin", hash.clone()).unwrap();
    assert_eq!(id, 0);
    assert_eq!(store.get(0).unwrap().password_hash, Some(hash));
    assert_eq!(verify(&store, "erin@example.com", "secret1"), Ok(0));
}

#[test]
fn credentials_are_checked_on_the_row_that_a_lookup_returned() {
    let hash = hash_password("secret1".to_string()).unwrap();
    let row = Account {
        id: 12,
        email: "frank@example.com".to_string(),
        full_name: "Frank".to_string(),
        password_hash: Some(hash),
        link: None,
        avatar_url: None,
    };
    let without_password = Account { password_hash: None, ..row.clone() };
    assert_eq!(check_credentials(&Some(row.clone()), "secret1"), Ok(12));
    assert_eq!(check_credentials(&Some(row), "secret2"), Err(AuthFailure::InvalidCredentials));
    assert_eq!(check_credentials(&None, "secret1"), Err(AuthFailure::InvalidCredentials));
    assert_eq!(
        check_credentials(&Some(without_password), "secret1"),
        Err(AuthFailure::InvalidCredentials)
    );
}
