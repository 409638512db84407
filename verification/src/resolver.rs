//! The identity resolver: which account a verified external identity is,
//! whether a link has to be attached, and whether an account has to be created.

use vstd::prelude::*;
use vstd::pervasive::unreached;
use crate::account::{Account, AccountView, ExternalIdentity, IdentityView};
use crate::errors::DatabaseError;
use crate::store::{
    AccountStore, email_index, federated_account, holds_email, holds_link, lemma_email_index,
    lemma_link_index, lemma_link_wf, lemma_push_wf, link_index, link_of, store_wf, with_link,
};

verus! {

// ---------------------------------------------------------------------
// The decision, on what the two lookups returned
// ---------------------------------------------------------------------

/// What the resolver does once the two lookups are answered.
#[derive(Clone, Copy, Debug, PartialEq, Eq, Structural)]
pub enum Resolution {
    /// The account `id` is the caller; nothing is written.
    Existing { id: u128 },
    /// The account `id` is the caller, and the identity is to be attached to it.
    Link { id: u128 },
    /// Nobody matches: an account is to be created from the identity.
    Create,
}

/// The decision for the account found by the identity, if any, and the
/// account found by the email, if any.
pub open spec fn planned(by_link: Option<AccountView>, by_email: Option<AccountView>) -> Resolution {
    match by_link {
        Some(a) => Resolution::Existing { id: a.id as u128 },
        None => match by_email {
            Some(a) => if a.link is None {
                Resolution::Link { id: a.id as u128 }
            } else {
                Resolution::Existing { id: a.id as u128 }
            },
            None => Resolution::Create,
        },
    }
}

/// The view of an optional account.
pub open spec fn opt_account_view(a: Option<Account>) -> Option<AccountView> {
    match a {
        Some(x) => Some(x@),
        None => None,
    }
}

/// Decides what to do for an identity, given the account that is linked to it
/// and the account that has its email. The account found by the identity
/// wins; an account found by the email gets the link only if it has none.
pub fn plan_resolution(by_link: &Option<Account>, by_email: &Option<Account>) -> (r: Resolution)
    ensures
        r == planned(opt_account_view(*by_link), opt_account_view(*by_email)),
{
    match by_link {
        Some(a) => Resolution::Existing { id: a.id },
        None => match by_email {
            Some(a) => {
                if a.link.is_none() {
                    Resolution::Link { id: a.id }
                } else {
                    Resolution::Existing { id: a.id }
                }
            },
            None => Resolution::Create,
        },
    }
}

/// The email of the account that an identity resolves to: that of the
/// account found by the identity, else that of the account found by the
/// email, else the identity's own, which the new account will have.
pub open spec fn resolved_email(
    by_link: Option<AccountView>,
    by_email: Option<AccountView>,
    identity: IdentityView,
) -> Seq<char> {
    match by_link {
        Some(a) => a.email,
        None => match by_email {
            Some(a) => a.email,
            None => identity.email,
        },
    }
}

/// The email of the account that an identity resolves to, given what the two
/// lookups returned. It is the email that the session token will carry.
pub fn account_email(by_link: &Option<Account>, by_email: &Option<Account>, identity: &ExternalIdentity) -> (r:
    String)
    ensures
        r@ == resolved_email(opt_account_view(*by_link), opt_account_view(*by_email), identity@),
{
    match by_link {
        Some(a) => a.email.clone(),
        None => match by_email {
            Some(a) => a.email.clone(),
            None => identity.email.clone(),
        },
    }
}

/// What an update that attaches a link to the account `id`, on condition
/// that it has none, amounts to: with one record changed the link is
/// attached; with none, another writer attached a link first, which is a
/// lost race like any uniqueness violation.
pub open spec fn link_written_of(id: u128, records_changed: u64) -> Result<u128, DatabaseError> {
    if records_changed == 1 {
        Ok(id)
    } else if records_changed == 0 {
        Err(DatabaseError::UniqueViolation)
    } else {
        Err(DatabaseError::Other)
    }
}

/// Reads the outcome of a conditional update that attaches a link to the
/// account `id` from the number of records that it changed.
pub fn link_written(id: u128, records_changed: u64) -> (r: Result<u128, DatabaseError>)
    ensures
        r == link_written_of(id, records_changed),
{
    if records_changed == 1 {
        Ok(id)
    } else if records_changed == 0 {
        Err(DatabaseError::UniqueViolation)
    } else {
        Err(DatabaseError::Other)
    }
}

/// How an attempt goes on after the store answered the write that a
/// [`Resolution`] asked for.
#[derive(Clone, Copy, Debug, PartialEq, Eq, Structural)]
pub enum ResolveStep {
    /// The attempt is over: the caller is the account `id`.
    Done { id: u128, is_new: bool },
    /// Another writer was first: look the identity up again.
    Retry,
    /// The attempt failed.
    Failed,
}

/// The step after the store answered `write`; `retried` says whether this
/// attempt has looked the identity up a second time already.
pub open spec fn settled(plan: Resolution, write: Result<u128, DatabaseError>, retried: bool) -> ResolveStep {
    match plan {
        Resolution::Existing { id } => ResolveStep::Done { id, is_new: false },
        Resolution::Link { id } => match write {
            Ok(_) => ResolveStep::Done { id, is_new: false },
            Err(DatabaseError::UniqueViolation) => if retried {
                ResolveStep::Failed
            } else {
                ResolveStep::Retry
            },
            Err(DatabaseError::Other) => ResolveStep::Failed,
        },
        Resolution::Create => match write {
            Ok(id) => ResolveStep::Done { id, is_new: true },
            Err(DatabaseError::UniqueViolation) => if retried {
                ResolveStep::Failed
            } else {
                ResolveStep::Retry
            },
            Err(DatabaseError::Other) => ResolveStep::Failed,
        },
    }
}

/// Decides how an attempt goes on after a write. `write` holds the id of the
/// row that was written. A uniqueness violation means that a concurrent
/// attempt wrote first: the identity is looked up again, once; every other
/// failure ends the attempt. For [`Resolution::Existing`] nothing was
/// written and `write` is not read.
pub fn settle(plan: Resolution, write: Result<u128, DatabaseError>, retried: bool) -> (r: ResolveStep)
    ensures
        r == settled(plan, write, retried),
{
    match plan {
        Resolution::Existing { id } => ResolveStep::Done { id, is_new: false },
        Resolution::Link { id } => match write {
            Ok(_) => ResolveStep::Done { id, is_new: false },
            Err(DatabaseError::UniqueViolation) => {
                if retried {
                    ResolveStep::Failed
                } else {
                    ResolveStep::Retry
                }
            },
            Err(DatabaseError::Other) => ResolveStep::Failed,
        },
        Resolution::Create => match write {
            Ok(id) => ResolveStep::Done { id, is_new: true },
            Err(DatabaseError::UniqueViolation) => {
                if retried {
                    ResolveStep::Failed
                } else {
                    ResolveStep::Retry
                }
            },
            Err(DatabaseError::Other) => ResolveStep::Failed,
        },
    }
}

/// An attempt looks the identity up again at most once: after a second
/// lookup no write asks for a third.
pub proof fn lemma_settle_retries_once(plan: Resolution, write: Result<u128, DatabaseError>)
    ensures
        settled(plan, write, true) != ResolveStep::Retry,
        settled(plan, write, false) == ResolveStep::Retry <==> !(plan is Existing) && write == Err::<
            u128,
            DatabaseError,
        >(DatabaseError::UniqueViolation),
{
}

// ---------------------------------------------------------------------
// Resolving against the store
// ---------------------------------------------------------------------

/// The store after an identity was resolved, the account it resolved to, and
/// whether that account was created for it.
pub struct Resolved {
    pub store: Seq<AccountView>,
    pub id: nat,
    pub is_new: bool,
}

/// Resolving `identity` against the store `s`:
/// the account linked to the identity; else the account with its email, which
/// gets the link if it has none; else a new account.
pub open spec fn resolved(s: Seq<AccountView>, identity: IdentityView) -> Resolved {
    match link_index(s, link_of(identity)) {
        Some(i) => Resolved { store: s, id: s[i].id, is_new: false },
        None => match email_index(s, identity.email) {
            Some(i) => if s[i].link is None {
                Resolved {
                    store: s.update(i, with_link(s[i], link_of(identity), identity.avatar_url)),
                    id: s[i].id,
                    is_new: false,
                }
            } else {
                Resolved { store: s, id: s[i].id, is_new: false }
            },
            None => Resolved {
                store: s.push(federated_account(s.len(), identity)),
                id: s.len(),
                is_new: true,
            },
        },
    }
}

/// Maps a verified external identity to an account: the account that is
/// linked to it; else the account with its email, to which the identity is
/// then attached unless it has another; else a new account without a password.
/// Returns the account's id and whether it was created by this call.
pub fn resolve(store: &mut AccountStore, identity: &ExternalIdentity) -> (r: (u128, bool))
    requires
        old(store).wf(),
    ensures
        final(store).wf(),
        final(store)@ == resolved(old(store)@, identity@).store,
        r.0 == resolved(old(store)@, identity@).id,
        r.1 == resolved(old(store)@, identity@).is_new,
{
    let by_link = store.find_by_link(identity.provider, identity.external_id.as_str());
    let by_email = store.find_by_email(identity.email.as_str());
    match plan_resolution(&by_link, &by_email) {
        Resolution::Existing { id } => (id, false),
        Resolution::Link { id } => {
            proof {
                let i = email_index(store@, identity@.email)->0;
                assert(holds_email(store@, i, identity@.email));
            }
            let written = store.attach_link(
                id,
                identity.provider,
                identity.external_id.as_str(),
                &identity.avatar_url,
            );
            (id, false)
        },
        Resolution::Create => {
            match store.insert_federated(identity) {
                Ok(id) => (id, true),
                Err(_) => unreached(),
            }
        },
    }
}

// ---------------------------------------------------------------------
// What holds of the resolver
// ---------------------------------------------------------------------

/// Resolving keeps the store's rules: emails and external identities stay unique.
pub proof fn lemma_resolve_keeps_wf(s: Seq<AccountView>, identity: IdentityView)
    requires
        store_wf(s),
    ensures
        store_wf(resolved(s, identity).store),
{
    match link_index(s, link_of(identity)) {
        Some(i) => {},
        None => match email_index(s, identity.email) {
            Some(i) => {
                assert(holds_email(s, i, identity.email));
                if s[i].link is None {
                    lemma_link_wf(s, i, link_of(identity), identity.avatar_url);
                }
            },
            None => {
                lemma_push_wf(s, federated_account(s.len(), identity));
            },
        },
    }
}

/// Resolving the same identity a second time creates nothing and changes
/// nothing: it returns the account of the first time, not as a new one.
pub proof fn lemma_resolve_twice(s: Seq<AccountView>, identity: IdentityView)
    requires
        store_wf(s),
    ensures
        ({
            let first = resolved(s, identity);
            let second = resolved(first.store, identity);
            &&& second.id == first.id
            &&& !second.is_new
            &&& second.store == first.store
        }),
{
    let first = resolved(s, identity);
    let link = link_of(identity);
    lemma_resolve_keeps_wf(s, identity);
    match link_index(s, link) {
        Some(i) => {},
        None => match email_index(s, identity.email) {
            Some(i) => {
                assert(holds_email(s, i, identity.email));
                if s[i].link is None {
                    assert(holds_link(first.store, i, link));
                    lemma_link_index(first.store, i, link);
                }
            },
            None => {
                assert(holds_link(first.store, s.len() as int, link));
                lemma_link_index(first.store, s.len() as int, link);
            },
        },
    }
}

/// Once an account is linked to an external identity, every later login with
/// that identity resolves to it, whatever email the provider then reports.
pub proof fn lemma_linked_identity_resolves(s: Seq<AccountView>, i: int, identity: IdentityView)
    requires
        store_wf(s),
        holds_link(s, i, link_of(identity)),
    ensures
        resolved(s, identity).id == s[i].id,
        !resolved(s, identity).is_new,
        resolved(s, identity).store == s,
{
    lemma_link_index(s, i, link_of(identity));
}

/// An identity that is linked to nobody, and whose email is that of an
/// account with a password and no link, resolves to that account: the link
/// is attached, the id and everything else stay.
pub proof fn lemma_resolve_links_by_email(s: Seq<AccountView>, i: int, identity: IdentityView)
    requires
        store_wf(s),
        holds_email(s, i, identity.email),
        s[i].password_hash is Some,
        s[i].link is None,
        link_index(s, link_of(identity)) is None,
    ensures
        ({
            let r = resolved(s, identity);
            &&& r.id == s[i].id
            &&& !r.is_new
            &&& r.store.len() == s.len()
            &&& r.store[i] == with_link(s[i], link_of(identity), identity.avatar_url)
            &&& r.store[i].id == s[i].id
            &&& r.store[i].password_hash == s[i].password_hash
            &&& forall|j: int| 0 <= j < s.len() && j != i ==> r.store[j] == s[j]
        }),
{
    lemma_email_index(s, i, identity.email);
}

/// The resolver never deletes or merges accounts and never overwrites a
/// link: every account stays at its place with its id, email, name and
/// password, an account that had a link is left as it was, and at most one
/// account is added.
pub proof fn lemma_resolve_preserves_accounts(s: Seq<AccountView>, identity: IdentityView)
    requires
        store_wf(s),
    ensures
        ({
            let r = resolved(s, identity);
            &&& s.len() <= r.store.len() <= s.len() + 1
            &&& (r.is_new <==> r.store.len() == s.len() + 1)
            &&& forall|j: int|
                0 <= j < s.len() ==> {
                    &&& (#[trigger] r.store[j]).id == s[j].id
                    &&& r.store[j].email == s[j].email
                    &&& r.store[j].full_name == s[j].full_name
                    &&& r.store[j].password_hash == s[j].password_hash
                    &&& (s[j].link is Some ==> r.store[j] == s[j])
                }
        }),
{
    match link_index(s, link_of(identity)) {
        Some(i) => {},
        None => match email_index(s, identity.email) {
            Some(i) => {
                assert(holds_email(s, i, identity.email));
            },
            None => {},
        },
    }
}

} // verus!
