//! The account store as the core sees it: lookup by email, lookup by
//! external identity, insert, and attaching a link. [`AccountStore`] keeps the
//! records in memory and holds the store's uniqueness rules as its invariant.

use vstd::prelude::*;
use vstd::string::*;
use crate::account::{Account, AccountView, ExternalIdentity, IdentityView, LinkView, Provider, ProviderLink, clone_opt, opt_view};
use crate::errors::DatabaseError;
use crate::text::{eq_ignore_case, lowercase, str_eq};

verus! {

// ---------------------------------------------------------------------
// The store as a sequence of accounts
// ---------------------------------------------------------------------

/// Whether `a` and `b` are the same email: non-empty, and equal without
/// regard to case. An empty email is nobody's.
pub open spec fn same_email(a: Seq<char>, b: Seq<char>) -> bool {
    a.len() > 0 && lowercase(a) == lowercase(b)
}

/// What holds of every account: it has a password or an external identity,
/// and one without an email has no password.
pub open spec fn account_ok(a: AccountView) -> bool {
    &&& (a.password_hash is Some || a.link is Some)
    &&& (a.email.len() == 0 ==> a.password_hash is None)
}

/// What holds of the store: an account's id is its position, no two accounts
/// have the same email, and no two are linked to the same external identity.
pub open spec fn store_wf(s: Seq<AccountView>) -> bool {
    &&& forall|i: int| 0 <= i < s.len() ==> (#[trigger] s[i]).id == i && account_ok(s[i])
    &&& forall|i: int, j: int|
        0 <= i < s.len() && 0 <= j < s.len() && same_email(
            (#[trigger] s[i]).email,
            (#[trigger] s[j]).email,
        ) ==> i == j
    &&& forall|i: int, j: int|
        0 <= i < s.len() && 0 <= j < s.len() && (#[trigger] s[i]).link is Some && s[i].link == (
        #[trigger] s[j]).link ==> i == j
}

/// Whether the account at `i` has the email `email`.
pub open spec fn holds_email(s: Seq<AccountView>, i: int, email: Seq<char>) -> bool {
    0 <= i < s.len() && same_email(s[i].email, email)
}

/// The position of the account with the email `email`.
pub open spec fn email_index(s: Seq<AccountView>, email: Seq<char>) -> Option<int> {
    if exists|i: int| holds_email(s, i, email) {
        Some(choose|i: int| holds_email(s, i, email))
    } else {
        None
    }
}

/// Whether the account at `i` is linked to `link`.
pub open spec fn holds_link(s: Seq<AccountView>, i: int, link: LinkView) -> bool {
    0 <= i < s.len() && s[i].link == Some(link)
}

/// The position of the account that is linked to `link`.
pub open spec fn link_index(s: Seq<AccountView>, link: LinkView) -> Option<int> {
    if exists|i: int| holds_link(s, i, link) {
        Some(choose|i: int| holds_link(s, i, link))
    } else {
        None
    }
}

/// The account that a local registration creates.
pub open spec fn local_account(
    id: nat,
    email: Seq<char>,
    full_name: Seq<char>,
    password_hash: Seq<char>,
) -> AccountView {
    AccountView {
        id,
        email,
        full_name,
        password_hash: Some(password_hash),
        link: None,
        avatar_url: None,
    }
}

/// The link that an identity stands for.
pub open spec fn link_of(identity: IdentityView) -> LinkView {
    LinkView { provider: identity.provider, external_id: identity.external_id }
}

/// The account that a first federated login creates.
pub open spec fn federated_account(id: nat, identity: IdentityView) -> AccountView {
    AccountView {
        id,
        email: identity.email,
        full_name: identity.display_name,
        password_hash: None,
        link: Some(link_of(identity)),
        avatar_url: identity.avatar_url,
    }
}

/// `a` with an external identity and its avatar attached.
pub open spec fn with_link(a: AccountView, link: LinkView, avatar_url: Option<Seq<char>>) -> AccountView {
    AccountView { link: Some(link), avatar_url, ..a }
}

/// In a well-formed store, the account at `i` is the one found by its email.
pub proof fn lemma_email_index(s: Seq<AccountView>, i: int, email: Seq<char>)
    requires
        store_wf(s),
        holds_email(s, i, email),
    ensures
        email_index(s, email) == Some(i),
{
    let j = choose|j: int| holds_email(s, j, email);
    assert(same_email(s[i].email, s[j].email));
}

/// In a well-formed store, the account at `i` is the one found by its link.
pub proof fn lemma_link_index(s: Seq<AccountView>, i: int, link: LinkView)
    requires
        store_wf(s),
        holds_link(s, i, link),
    ensures
        link_index(s, link) == Some(i),
{
    let j = choose|j: int| holds_link(s, j, link);
    assert(s[i].link == s[j].link);
}

/// Adding an account whose email and link are nobody's keeps the store well formed.
pub proof fn lemma_push_wf(s: Seq<AccountView>, a: AccountView)
    requires
        store_wf(s),
        a.id == s.len(),
        account_ok(a),
        email_index(s, a.email) is None,
        a.link matches Some(l) ==> link_index(s, l) is None,
    ensures
        store_wf(s.push(a)),
{
    let t = s.push(a);
    assert forall|i: int, j: int|
        0 <= i < t.len() && 0 <= j < t.len() && same_email(
            (#[trigger] t[i]).email,
            (#[trigger] t[j]).email,
        ) implies i == j by {
        if i < s.len() && j < s.len() {
            assert(same_email(s[i].email, s[j].email));
        } else if i < s.len() {
            assert(holds_email(s, i, a.email));
        } else if j < s.len() {
            assert(lowercase(s[j].email).len() == lowercase(a.email).len());
            assert(holds_email(s, j, a.email));
        }
    }
    assert forall|i: int, j: int|
        0 <= i < t.len() && 0 <= j < t.len() && (#[trigger] t[i]).link is Some && t[i].link == (
        #[trigger] t[j]).link implies i == j by {
        if i < s.len() && j < s.len() {
            assert(s[i].link == s[j].link);
        } else if i < s.len() {
            assert(holds_link(s, i, a.link->0));
        } else if j < s.len() {
            assert(holds_link(s, j, a.link->0));
        }
    }
}

/// Attaching a link that is nobody's to an account without one keeps the
/// store well formed.
pub proof fn lemma_link_wf(s: Seq<AccountView>, i: int, link: LinkView, avatar_url: Option<Seq<char>>)
    requires
        store_wf(s),
        0 <= i < s.len(),
        s[i].link is None,
        link_index(s, link) is None,
    ensures
        store_wf(s.update(i, with_link(s[i], link, avatar_url))),
{
    let t = s.update(i, with_link(s[i], link, avatar_url));
    assert forall|a: int, b: int|
        0 <= a < t.len() && 0 <= b < t.len() && same_email(
            (#[trigger] t[a]).email,
            (#[trigger] t[b]).email,
        ) implies a == b by {
        assert(same_email(s[a].email, s[b].email));
    }
    assert forall|a: int, b: int|
        0 <= a < t.len() && 0 <= b < t.len() && (#[trigger] t[a]).link is Some && t[a].link == (
        #[trigger] t[b]).link implies a == b by {
        if a != i && b != i {
            assert(s[a].link == s[b].link);
        } else if a != i {
            assert(holds_link(s, a, link));
        } else if b != i {
            assert(holds_link(s, b, link));
        }
    }
}

// ---------------------------------------------------------------------
// The store in memory
// ---------------------------------------------------------------------

/// Accounts held in memory, in the order of their creation.
pub struct AccountStore {
    accounts: Vec<Account>,
}

impl View for AccountStore {
    type V = Seq<AccountView>;

    closed spec fn view(&self) -> Seq<AccountView> {
        Seq::new(self.accounts@.len(), |i: int| self.accounts@[i]@)
    }
}

impl AccountStore {
    /// Whether the store's rules hold.
    pub open spec fn wf(&self) -> bool {
        store_wf(self@)
    }

    /// A store without accounts.
    pub fn new() -> (r: AccountStore)
        ensures
            r@ == Seq::<AccountView>::empty(),
            r.wf(),
    {
        AccountStore { accounts: Vec::new() }
    }

    /// The number of accounts.
    pub fn len(&self) -> (n: usize)
        ensures
            n == self@.len(),
    {
        self.accounts.len()
    }

    fn position_by_email(&self, email: &str) -> (r: Option<usize>)
        requires
            self.wf(),
        ensures
            match r {
                Some(i) => email_index(self@, email@) == Some(i as int),
                None => email_index(self@, email@) is None,
            },
    {
        let mut i: usize = 0;
        while i < self.accounts.len()
            invariant
                0 <= i <= self.accounts.len(),
                self.wf(),
                forall|j: int| 0 <= j < i ==> !holds_email(self@, j, email@),
            decreases self.accounts.len() - i,
        {
            let candidate = self.accounts[i].email.as_str();
            if candidate.unicode_len() > 0 && eq_ignore_case(candidate, email) {
                proof {
                    lemma_email_index(self@, i as int, email@);
                }
                return Some(i);
            }
            i = i + 1;
        }
        None
    }

    fn position_by_link(&self, provider: Provider, external_id: &str) -> (r: Option<usize>)
        requires
            self.wf(),
        ensures
            match r {
                Some(i) => link_index(self@, LinkView { provider, external_id: external_id@ })
                    == Some(i as int),
                None => link_index(self@, LinkView { provider, external_id: external_id@ }) is None,
            },
    {
        let ghost link = LinkView { provider, external_id: external_id@ };
        let mut i: usize = 0;
        while i < self.accounts.len()
            invariant
                0 <= i <= self.accounts.len(),
                self.wf(),
                link == (LinkView { provider, external_id: external_id@ }),
                forall|j: int| 0 <= j < i ==> !holds_link(self@, j, link),
            decreases self.accounts.len() - i,
        {
            let found = match &self.accounts[i].link {
                Some(l) => l.provider == provider && str_eq(l.external_id.as_str(), external_id),
                None => false,
            };
            if found {
                proof {
                    lemma_link_index(self@, i as int, link);
                }
                return Some(i);
            }
            i = i + 1;
        }
        None
    }

    /// The account with the id `id`.
    pub fn get(&self, id: u128) -> (r: Option<Account>)
        requires
            self.wf(),
        ensures
            match r {
                Some(a) => id < self@.len() && a@ == self@[id as int],
                None => id >= self@.len(),
            },
    {
        if id < self.accounts.len() as u128 {
            Some(self.accounts[id as usize].duplicate())
        } else {
            None
        }
    }

    /// The account with the email `email`, compared without regard to case.
    pub fn find_by_email(&self, email: &str) -> (r: Option<Account>)
        requires
            self.wf(),
        ensures
            match email_index(self@, email@) {
                Some(i) => r matches Some(a) && a@ == self@[i],
                None => r is None,
            },
    {
        match self.position_by_email(email) {
            Some(i) => Some(self.accounts[i].duplicate()),
            None => None,
        }
    }

    /// The account that is linked to the identity `external_id` of `provider`.
    pub fn find_by_link(&self, provider: Provider, external_id: &str) -> (r: Option<Account>)
        requires
            self.wf(),
        ensures
            match link_index(self@, LinkView { provider, external_id: external_id@ }) {
                Some(i) => r matches Some(a) && a@ == self@[i],
                None => r is None,
            },
    {
        match self.position_by_link(provider, external_id) {
            Some(i) => Some(self.accounts[i].duplicate()),
            None => None,
        }
    }

    /// Creates an account that logs in with a password. Refused with
    /// `Other` where the email is empty, since only an account that a
    /// provider created may lack one, and with `UniqueViolation` where the
    /// email is already some account's.
    pub fn insert_local(&mut self, email: String, full_name: String, password_hash: String) -> (r:
        Result<u128, DatabaseError>)
        requires
            old(self).wf(),
        ensures
            final(self).wf(),
            if email@.len() == 0 {
                r == Err::<u128, DatabaseError>(DatabaseError::Other) && final(self)@ == old(self)@
            } else {
                match email_index(old(self)@, email@) {
                    Some(_) => r == Err::<u128, DatabaseError>(DatabaseError::UniqueViolation)
                        && final(self)@ == old(self)@,
                    None => r matches Ok(id) && id == old(self)@.len() && final(self)@ == old(self)@.push(
                        local_account(old(self)@.len(), email@, full_name@, password_hash@),
                    ),
                }
            },
    {
        if email.as_str().unicode_len() == 0 {
            return Err(DatabaseError::Other);
        }
        if self.position_by_email(email.as_str()).is_some() {
            return Err(DatabaseError::UniqueViolation);
        }
        let id = self.accounts.len() as u128;
        let account = Account {
            id,
            email,
            full_name,
            password_hash: Some(password_hash),
            link: None,
            avatar_url: None,
        };
        proof {
            lemma_push_wf(self@, account@);
        }
        self.accounts.push(account);
        assert(self@ =~= old(self)@.push(account@));
        Ok(id)
    }

    /// Creates an account from a first federated login. Refused where the
    /// identity is already linked to an account or the email is some account's.
    pub fn insert_federated(&mut self, identity: &ExternalIdentity) -> (r: Result<u128, DatabaseError>)
        requires
            old(self).wf(),
        ensures
            final(self).wf(),
            if link_index(old(self)@, link_of(identity@)) is None && email_index(
                old(self)@,
                identity@.email,
            ) is None {
                r matches Ok(id) && id == old(self)@.len() && final(self)@ == old(self)@.push(
                    federated_account(old(self)@.len(), identity@),
                )
            } else {
                r == Err::<u128, DatabaseError>(DatabaseError::UniqueViolation) && final(self)@
                    == old(self)@
            },
    {
        if self.position_by_link(identity.provider, identity.external_id.as_str()).is_some() {
            return Err(DatabaseError::UniqueViolation);
        }
        if self.position_by_email(identity.email.as_str()).is_some() {
            return Err(DatabaseError::UniqueViolation);
        }
        let id = self.accounts.len() as u128;
        let account = Account {
            id,
            email: identity.email.clone(),
            full_name: identity.display_name.clone(),
            password_hash: None,
            link: Some(
                ProviderLink {
                    provider: identity.provider,
                    external_id: identity.external_id.clone(),
                },
            ),
            avatar_url: clone_opt(&identity.avatar_url),
        };
        proof {
            assert(account@ == federated_account(id as nat, identity@));
            lemma_push_wf(self@, account@);
        }
        self.accounts.push(account);
        assert(self@ =~= old(self)@.push(account@));
        Ok(id)
    }

    /// Attaches an external identity and its avatar to the account `id`.
    /// Refused with `UniqueViolation` where the identity is linked to an
    /// account already, and with `Other` where there is no account `id` or it
    /// has a link: a link is never overwritten.
    pub fn attach_link(
        &mut self,
        id: u128,
        provider: Provider,
        external_id: &str,
        avatar_url: &Option<String>,
    ) -> (r: Result<(), DatabaseError>)
        requires
            old(self).wf(),
        ensures
            final(self).wf(),
            ({
                let s = old(self)@;
                let link = LinkView { provider, external_id: external_id@ };
                if id >= s.len() || s[id as int].link is Some {
                    r == Err::<(), DatabaseError>(DatabaseError::Other) && final(self)@ == s
                } else if link_index(s, link) is Some {
                    r == Err::<(), DatabaseError>(DatabaseError::UniqueViolation) && final(self)@
                        == s
                } else {
                    r == Ok::<(), DatabaseError>(()) && final(self)@ == s.update(
                        id as int,
                        with_link(s[id as int], link, opt_view(*avatar_url)),
                    )
                }
            }),
    {
        let ghost link = LinkView { provider, external_id: external_id@ };
        if id >= self.accounts.len() as u128 {
            return Err(DatabaseError::Other);
        }
        let i = id as usize;
        if self.accounts[i].link.is_some() {
            return Err(DatabaseError::Other);
        }
        if self.position_by_link(provider, external_id).is_some() {
            return Err(DatabaseError::UniqueViolation);
        }
        let mut account = self.accounts[i].duplicate();
        account.link = Some(ProviderLink { provider, external_id: external_id.to_string() });
        account.avatar_url = clone_opt(avatar_url);
        proof {
            assert(account@ == with_link(self@[i as int], link, opt_view(*avatar_url)));
            lemma_link_wf(self@, i as int, link, opt_view(*avatar_url));
        }
        self.accounts.set(i, account);
        assert(self@ =~= old(self)@.update(i as int, account@));
        Ok(())
    }
}

} // verus!
