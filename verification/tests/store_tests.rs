use backend::account::{stored_hash, ExternalIdentity, Provider};
use backend::errors::DatabaseError;
use backend::store::AccountStore;

fn identity(provider: Provider, external_id: &str, email: &str) -> ExternalIdentity {
    ExternalIdentity {
        provider,
        external_id: external_id.to_string(),
        email: email.to_string(),
        display_name: "Someone".to_string(),
        avatar_url: Some("https://example.com/a.png".to_string()),
    }
}

#[test]
fn a_new_store_is_empty() {
    let store = AccountStore::new();
    assert_eq!(store.len(), 0);
    assert!(store.get(0).is_none());
    assert!(store.find_by_email("alice@example.com").is_none());
    assert!(store.find_by_link(Provider::Google, "1").is_none());
}

#[test]
fn ids_are_assigned_in_order_of_creation() {
    let mut store = AccountStore::new();
    let a = store.insert_local("a@example.com".to_string(), "A".to_string(), "h1".to_string());
    let b = store.insert_federated(&identity(Provider::GitHub, "77", "b@example.com"));
    let c = store.insert_local("c@example.com".to_string(), "C".to_string(), "h3".to_string());
    assert_eq!(a, Ok(0));
    assert_eq!(b, Ok(1));
    assert_eq!(c, Ok(2));
    assert_eq!(store.len(), 3);
    assert_eq!(store.get(1).unwrap().email, "b@example.com");
    assert!(store.get(3).is_none());
}

#[test]
fn a_local_account_has_a_password_and_no_link() {
    let mut store = AccountStore::new();
    store.insert_local("a@example.com".to_string(), "A".to_string(), "hash".to_string()).unwrap();
    let account = store.find_by_email("a@example.com").unwrap();
    assert_eq!(account.id, 0);
    assert_eq!(account.full_name, "A");
    assert_eq!(account.password_hash, Some("hash".to_string()));
    assert!(account.link.is_none());
    assert!(account.avatar_url.is_none());
}

#[test]
fn a_federated_account_has_a_link_and_no_password() {
    let mut store = AccountStore::new();
    store.insert_federated(&identity(Provider::Google, "g-1", "a@example.com")).unwrap();
    let account = store.find_by_link(Provider::Google, "g-1").unwrap();
    assert_eq!(account.email, "a@example.com");
    assert_eq!(account.full_name, "Someone");
    assert!(account.password_hash.is_none());
    let link = account.link.unwrap();
    assert_eq!(link.provider, Provider::Google);
    assert_eq!(link.external_id, "g-1");
    assert_eq!(account.avatar_url, Some("https://example.com/a.png".to_string()));
}

#[test]
fn emails_are_found_without_regard_to_case() {
    let mut store = AccountStore::new();
    store.insert_local("Alice@Example.com".to_string(), "A".to_string(), "h".to_string()).unwrap();
    assert_eq!(store.find_by_email("alice@example.COM").unwrap().id, 0);
    assert!(store.find_by_email("alice@example.org").is_none());
}

#[test]
fn an_email_is_unique_without_regard_to_case() {
    let mut store = AccountStore::new();
    store.insert_local("alice@example.com".to_string(), "A".to_string(), "h".to_string()).unwrap();
    let again = store.insert_local("ALICE@example.com".to_string(), "B".to_string(), "h".to_string());
    assert_eq!(again, Err(DatabaseError::UniqueViolation));
    let federated = store.insert_federated(&identity(Provider::Google, "1", "Alice@Example.Com"));
    assert_eq!(federated, Err(DatabaseError::UniqueViolation));
    assert_eq!(store.len(), 1);
}

#[test]
fn an_external_identity_is_unique() {
    let mut store = AccountStore::new();
    store.insert_federated(&identity(Provider::Google, "1", "a@example.com")).unwrap();
    let again = store.insert_federated(&identity(Provider::Google, "1", "b@example.com"));
    assert_eq!(again, Err(DatabaseError::UniqueViolation));
    let other_provider = store.insert_federated(&identity(Provider::GitHub, "1", "b@example.com"));
    assert_eq!(other_provider, Ok(1));
}

#[test]
fn an_empty_email_is_nobodys() {
    let mut store = AccountStore::new();
    assert_eq!(store.insert_federated(&identity(Provider::GitHub, "1", "")), Ok(0));
    assert_eq!(store.insert_federated(&identity(Provider::GitHub, "2", "")), Ok(1));
    assert!(store.find_by_email("").is_none());
}

#[test]
fn a_local_account_needs_an_email() {
    let mut store = AccountStore::new();
    let r = store.insert_local("".to_string(), "Nobody".to_string(), "h".to_string());
    assert_eq!(r, Err(DatabaseError::Other));
    assert_eq!(store.len(), 0);
}

#[test]
fn a_link_is_attached_to_an_account_without_one() {
    let mut store = AccountStore::new();
    store.insert_local("a@example.com".to_string(), "A".to_string(), "h".to_string()).unwrap();
    let avatar = Some("https://example.com/me.png".to_string());
    assert_eq!(store.attach_link(0, Provider::GitHub, "42", &avatar), Ok(()));
    let account = store.get(0).unwrap();
    assert_eq!(account.link.unwrap().external_id, "42");
    assert_eq!(account.avatar_url, avatar);
    assert_eq!(account.password_hash, Some("h".to_string()));
    assert_eq!(account.email, "a@example.com");
    assert_eq!(store.find_by_link(Provider::GitHub, "42").unwrap().id, 0);
}

#[test]
fn a_link_is_never_overwritten() {
    let mut store = AccountStore::new();
    store.insert_federated(&identity(Provider::Google, "1", "a@example.com")).unwrap();
    assert_eq!(store.attach_link(0, Provider::GitHub, "42", &None), Err(DatabaseError::Other));
    let account = store.get(0).unwrap();
    assert_eq!(account.link.unwrap().provider, Provider::Google);
    assert_eq!(account.avatar_url, Some("https://example.com/a.png".to_string()));
}

#[test]
fn a_link_in_use_cannot_be_attached_again() {
    let mut store = AccountStore::new();
    store.insert_federated(&identity(Provider::Google, "1", "a@example.com")).unwrap();
    store.insert_local("b@example.com".to_string(), "B".to_string(), "h".to_string()).unwrap();
    assert_eq!(
        store.attach_link(1, Provider::Google, "1", &None),
        Err(DatabaseError::UniqueViolation)
    );
    assert!(store.get(1).unwrap().link.is_none());
}

#[test]
fn attaching_to_an_unknown_account_fails() {
    let mut store = AccountStore::new();
    assert_eq!(store.attach_link(0, Provider::Google, "1", &None), Err(DatabaseError::Other));
}

#[test]
fn an_empty_stored_hash_is_no_password() {
    assert_eq!(stored_hash(None), None);
    assert_eq!(stored_hash(Some(String::new())), None);
    assert_eq!(stored_hash(Some("$argon2id$x".to_string())), Some("$argon2id$x".to_string()));
    assert_eq!(stored_hash(Some(" ".to_string())), Some(" ".to_string()));
}
