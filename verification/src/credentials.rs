//! Local accounts: registering with a password and logging in with it.

use vstd::prelude::*;
use crate::account::{Account, AccountView, IdentityView};
use crate::errors::{AuthFailure, DatabaseError, RegisterFailure};
use crate::resolver::{
    lemma_resolve_keeps_wf, lemma_resolve_preserves_accounts, opt_account_view, resolved,
};
use crate::security::{argon2_verified, argon2_verify, hash_password};
use crate::text::lowercase;
use crate::store::{
    AccountStore, email_index, holds_email, lemma_email_index, lemma_push_wf, local_account,
    store_wf,
};

verus! {

// ---------------------------------------------------------------------
// Checking credentials
// ---------------------------------------------------------------------

/// The answer for an account with a password, given what the check of the
/// password gave.
pub open spec fn credential_outcome(id: nat, check: Option<bool>) -> Result<nat, AuthFailure> {
    match check {
        Some(true) => Ok(id),
        Some(false) => Err(AuthFailure::InvalidCredentials),
        None => Err(AuthFailure::Internal),
    }
}

/// The answer for the account that the email led to, if any.
pub open spec fn credentials_checked(account: Option<AccountView>, password: Seq<char>) -> Result<
    nat,
    AuthFailure,
> {
    match account {
        None => Err(AuthFailure::InvalidCredentials),
        Some(a) => match a.password_hash {
            None => Err(AuthFailure::InvalidCredentials),
            Some(h) => credential_outcome(a.id, argon2_verified(h, password)),
        },
    }
}

/// The answer of a login with `email` and `password` against the store `s`.
pub open spec fn verified(s: Seq<AccountView>, email: Seq<char>, password: Seq<char>) -> Result<
    nat,
    AuthFailure,
> {
    match email_index(s, email) {
        None => credentials_checked(None, password),
        Some(i) => credentials_checked(Some(s[i]), password),
    }
}

/// Whether an exec answer is the answer `expected`.
pub open spec fn is_answer(r: Result<u128, AuthFailure>, expected: Result<nat, AuthFailure>) -> bool {
    match r {
        Ok(id) => expected == Ok::<nat, AuthFailure>(id as nat),
        Err(f) => expected == Err::<nat, AuthFailure>(f),
    }
}

/// Checks `password` for the account that a lookup by email returned. No
/// account and an account without a password give the same answer as a wrong
/// password; a hash that cannot be checked gives `Internal`.
pub fn check_credentials(account: &Option<Account>, password: &str) -> (r: Result<u128, AuthFailure>)
    ensures
        is_answer(r, credentials_checked(opt_account_view(*account), password@)),
{
    match account {
        None => Err(AuthFailure::InvalidCredentials),
        Some(a) => match &a.password_hash {
            None => Err(AuthFailure::InvalidCredentials),
            Some(h) => match argon2_verify(h.as_str(), password) {
                Some(true) => Ok(a.id),
                Some(false) => Err(AuthFailure::InvalidCredentials),
                None => Err(AuthFailure::Internal),
            },
        },
    }
}

/// Checks an email and a password against the store and returns the account
/// they belong to. The store is only read, and the answer depends on nothing
/// but the store, the email and the password: as long as the record stays,
/// the same credentials get the same answer.
pub fn verify(store: &AccountStore, email: &str, password: &str) -> (r: Result<u128, AuthFailure>)
    requires
        store.wf(),
    ensures
        is_answer(r, verified(store@, email@, password@)),
{
    let account = store.find_by_email(email);
    check_credentials(&account, password)
}

// ---------------------------------------------------------------------
// Registering
// ---------------------------------------------------------------------

/// The store after a registration that was accepted.
pub open spec fn registered(
    s: Seq<AccountView>,
    email: Seq<char>,
    full_name: Seq<char>,
    password_hash: Seq<char>,
) -> Seq<AccountView> {
    s.push(local_account(s.len(), email, full_name, password_hash))
}

/// The store and the answer after a registration with a password that is
/// hashed already: an empty email is refused as `Internal`, an email that is
/// some account's as `EmailTaken`, and every other registration is accepted.
pub open spec fn registration_of(
    s: Seq<AccountView>,
    email: Seq<char>,
    full_name: Seq<char>,
    password_hash: Seq<char>,
) -> (Seq<AccountView>, Result<nat, RegisterFailure>) {
    if email.len() == 0 {
        (s, Err(RegisterFailure::Internal))
    } else if email_index(s, email) is Some {
        (s, Err(RegisterFailure::EmailTaken))
    } else {
        (registered(s, email, full_name, password_hash), Ok(s.len()))
    }
}

/// Whether an exec answer to a registration is the answer `expected`.
pub open spec fn is_registration(r: Result<u128, RegisterFailure>, expected: Result<nat, RegisterFailure>) -> bool {
    match r {
        Ok(id) => expected == Ok::<nat, RegisterFailure>(id as nat),
        Err(f) => expected == Err::<nat, RegisterFailure>(f),
    }
}

/// Creates a local account with a password that is hashed already. Refused
/// with `EmailTaken` exactly where the email is some account's.
pub fn register_hashed(store: &mut AccountStore, email: &str, full_name: &str, password_hash: String) -> (r:
    Result<u128, RegisterFailure>)
    requires
        old(store).wf(),
    ensures
        final(store).wf(),
        final(store)@ == registration_of(old(store)@, email@, full_name@, password_hash@).0,
        is_registration(r, registration_of(old(store)@, email@, full_name@, password_hash@).1),
{
    match store.insert_local(email.to_string(), full_name.to_string(), password_hash) {
        Ok(id) => Ok(id),
        Err(DatabaseError::UniqueViolation) => Err(RegisterFailure::EmailTaken),
        Err(DatabaseError::Other) => Err(RegisterFailure::Internal),
    }
}

/// Registers a local account: hashes the password, then creates the account.
/// Refused with `EmailTaken` where the email is some account's, and with
/// `Internal` where the email is empty or the password cannot be hashed; the
/// store is then left as it was. Where an account is created, logging in
/// with the same email and password gives that account.
pub fn register(store: &mut AccountStore, email: &str, password: &str, full_name: &str) -> (r: Result<
    u128,
    RegisterFailure,
>)
    requires
        old(store).wf(),
    ensures
        final(store).wf(),
        match r {
            Ok(id) => {
                &&& email@.len() > 0
                &&& email_index(old(store)@, email@) is None
                &&& id == old(store)@.len()
                &&& exists|h: Seq<char>|
                    argon2_verified(h, password@) == Some(true) && final(store)@
                        == #[trigger] registered(old(store)@, email@, full_name@, h)
                &&& verified(final(store)@, email@, password@) == Ok::<nat, AuthFailure>(id as nat)
            },
            Err(RegisterFailure::EmailTaken) => email_index(old(store)@, email@) is Some && final(store)@ == old(store)@,
            Err(RegisterFailure::Internal) => final(store)@ == old(store)@,
        },
{
    match hash_password(password.to_string()) {
        Err(_) => Err(RegisterFailure::Internal),
        Ok(hash) => {
            proof {
                if email@.len() > 0 && email_index(store@, email@) is None {
                    lemma_registered_login(store@, email@, full_name@, hash@, password@, email@);
                }
            }
            register_hashed(store, email, full_name, hash)
        },
    }
}

// ---------------------------------------------------------------------
// What holds of registering and logging in
// ---------------------------------------------------------------------

/// After a registration with a hash that accepts `password`, a login with the
/// registered email, in any case of letters, and `password` gives the new
/// account.
pub proof fn lemma_registered_login(
    s: Seq<AccountView>,
    email: Seq<char>,
    full_name: Seq<char>,
    password_hash: Seq<char>,
    password: Seq<char>,
    login_email: Seq<char>,
)
    requires
        store_wf(s),
        email.len() > 0,
        email_index(s, email) is None,
        argon2_verified(password_hash, password) == Some(true),
        lowercase(login_email) == lowercase(email),
    ensures
        store_wf(registered(s, email, full_name, password_hash)),
        verified(registered(s, email, full_name, password_hash), login_email, password) == Ok::<
            nat,
            AuthFailure,
        >(s.len()),
{
    let t = registered(s, email, full_name, password_hash);
    lemma_push_wf(s, local_account(s.len(), email, full_name, password_hash));
    assert(holds_email(t, s.len() as int, login_email));
    lemma_email_index(t, s.len() as int, login_email);
}

/// Once an email is registered it is taken: a lookup with it, in any case of
/// letters, leads to the new account, so that a second registration is refused.
pub proof fn lemma_registered_email_is_taken(
    s: Seq<AccountView>,
    email: Seq<char>,
    full_name: Seq<char>,
    password_hash: Seq<char>,
    again: Seq<char>,
)
    requires
        store_wf(s),
        email.len() > 0,
        email_index(s, email) is None,
        lowercase(again) == lowercase(email),
    ensures
        email_index(registered(s, email, full_name, password_hash), again) == Some(s.len() as int),
{
    let t = registered(s, email, full_name, password_hash);
    lemma_push_wf(s, local_account(s.len(), email, full_name, password_hash));
    assert(holds_email(t, s.len() as int, again));
    lemma_email_index(t, s.len() as int, again);
}

/// Credentials that are accepted stay accepted while other accounts are
/// registered: the record they belong to does not change.
pub proof fn lemma_login_survives_registration(
    s: Seq<AccountView>,
    email: Seq<char>,
    password: Seq<char>,
    other_email: Seq<char>,
    other_name: Seq<char>,
    other_hash: Seq<char>,
)
    requires
        store_wf(s),
        verified(s, email, password) is Ok,
        other_email.len() > 0,
        email_index(s, other_email) is None,
    ensures
        verified(registered(s, other_email, other_name, other_hash), email, password) == verified(
            s,
            email,
            password,
        ),
{
    let t = registered(s, other_email, other_name, other_hash);
    let i = email_index(s, email)->0;
    assert(holds_email(s, i, email));
    lemma_push_wf(s, local_account(s.len(), other_email, other_name, other_hash));
    assert(holds_email(t, i, email));
    lemma_email_index(t, i, email);
}

/// Credentials that are accepted stay accepted while identities are
/// resolved: resolving may attach a link to the account, and changes
/// neither its email nor its password.
pub proof fn lemma_login_survives_resolve(
    s: Seq<AccountView>,
    email: Seq<char>,
    password: Seq<char>,
    identity: IdentityView,
)
    requires
        store_wf(s),
        verified(s, email, password) is Ok,
    ensures
        verified(resolved(s, identity).store, email, password) == verified(s, email, password),
{
    let t = resolved(s, identity).store;
    let i = email_index(s, email)->0;
    assert(holds_email(s, i, email));
    lemma_resolve_keeps_wf(s, identity);
    lemma_resolve_preserves_accounts(s, identity);
    assert(t[i].email == s[i].email);
    assert(holds_email(t, i, email));
    lemma_email_index(t, i, email);
}

/// A wrong password for an email that exists, a login for an account that has
/// no password, and a login for an email that nobody has get one and the same
/// answer.
pub proof fn lemma_invalid_credentials_alike(
    s: Seq<AccountView>,
    known: Seq<char>,
    wrong_password: Seq<char>,
    unknown: Seq<char>,
    any_password: Seq<char>,
)
    requires
        store_wf(s),
        email_index(s, known) matches Some(i) && (s[i].password_hash matches Some(h)
            ==> argon2_verified(h, wrong_password) == Some(false)),
        email_index(s, unknown) is None,
    ensures
        verified(s, known, wrong_password) == Err::<nat, AuthFailure>(AuthFailure::InvalidCredentials),
        verified(s, unknown, any_password) == verified(s, known, wrong_password),
{
}

} // verus!
