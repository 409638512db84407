//! Accounts and the external identities that may be linked to them.

use vstd::prelude::*;
use vstd::string::*;
use crate::text::str_eq;

verus! {

/// An identity provider.
#[derive(Clone, Copy, Debug, PartialEq, Eq, Structural)]
pub enum Provider {
    Google,
    GitHub,
}

/// The name under which a provider is stored with an account.
pub open spec fn provider_name(p: Provider) -> Seq<char> {
    match p {
        Provider::Google => "google"@,
        Provider::GitHub => "github"@,
    }
}

/// The provider that is stored under `name`.
pub open spec fn provider_named(name: Seq<char>) -> Option<Provider> {
    if name == "google"@ {
        Some(Provider::Google)
    } else if name == "github"@ {
        Some(Provider::GitHub)
    } else {
        None
    }
}

impl Provider {
    /// The name under which this provider is stored with an account.
    pub fn name(&self) -> (r: String)
        ensures
            r@ == provider_name(*self),
    {
        match self {
            Provider::Google => "google".to_string(),
            Provider::GitHub => "github".to_string(),
        }
    }

    /// The provider that is stored under `name`, where there is one.
    pub fn from_name(name: &str) -> (r: Option<Provider>)
        ensures
            r == provider_named(name@),
    {
        if str_eq(name, "google") {
            Some(Provider::Google)
        } else if str_eq(name, "github") {
            Some(Provider::GitHub)
        } else {
            None
        }
    }
}

/// What a provider says of a user, in one shape for all providers.
#[derive(Clone, Debug)]
pub struct ExternalIdentity {
    pub provider: Provider,
    /// The user's identifier at the provider.
    pub external_id: String,
    /// The user's email, which the provider has verified.
    pub email: String,
    pub display_name: String,
    pub avatar_url: Option<String>,
}

/// An [`ExternalIdentity`] as a mathematical value.
pub struct IdentityView {
    pub provider: Provider,
    pub external_id: Seq<char>,
    pub email: Seq<char>,
    pub display_name: Seq<char>,
    pub avatar_url: Option<Seq<char>>,
}

/// The text of an optional string.
pub open spec fn opt_view(s: Option<String>) -> Option<Seq<char>> {
    match s {
        Some(t) => Some(t@),
        None => None,
    }
}

impl View for ExternalIdentity {
    type V = IdentityView;

    open spec fn view(&self) -> IdentityView {
        IdentityView {
            provider: self.provider,
            external_id: self.external_id@,
            email: self.email@,
            display_name: self.display_name@,
            avatar_url: opt_view(self.avatar_url),
        }
    }
}

/// An external identity attached to an account.
#[derive(Clone, Debug)]
pub struct ProviderLink {
    pub provider: Provider,
    pub external_id: String,
}

/// A [`ProviderLink`] as a mathematical value.
pub struct LinkView {
    pub provider: Provider,
    pub external_id: Seq<char>,
}

impl View for ProviderLink {
    type V = LinkView;

    open spec fn view(&self) -> LinkView {
        LinkView { provider: self.provider, external_id: self.external_id@ }
    }
}

/// The durable record of one user.
#[derive(Clone, Debug)]
pub struct Account {
    /// Assigned when the account is created, and never changed.
    pub id: u128,
    /// Compared without regard to case. Empty only while an account that was
    /// created by a provider has none.
    pub email: String,
    pub full_name: String,
    /// Present only where the account can log in with a password.
    pub password_hash: Option<String>,
    /// At most one external identity.
    pub link: Option<ProviderLink>,
    pub avatar_url: Option<String>,
}

/// An [`Account`] as a mathematical value.
pub struct AccountView {
    pub id: nat,
    pub email: Seq<char>,
    pub full_name: Seq<char>,
    pub password_hash: Option<Seq<char>>,
    pub link: Option<LinkView>,
    pub avatar_url: Option<Seq<char>>,
}

/// The view of an optional link.
pub open spec fn opt_link_view(l: Option<ProviderLink>) -> Option<LinkView> {
    match l {
        Some(k) => Some(k@),
        None => None,
    }
}

impl View for Account {
    type V = AccountView;

    open spec fn view(&self) -> AccountView {
        AccountView {
            id: self.id as nat,
            email: self.email@,
            full_name: self.full_name@,
            password_hash: opt_view(self.password_hash),
            link: opt_link_view(self.link),
            avatar_url: opt_view(self.avatar_url),
        }
    }
}

/// The password hash that a stored text stands for: an absent or empty
/// text means that the account has no password.
pub open spec fn stored_hash_of(text: Option<Seq<char>>) -> Option<Seq<char>> {
    match text {
        Some(t) => if t.len() == 0 {
            None
        } else {
            Some(t)
        },
        None => None,
    }
}

/// Reads the password hash of a stored record. Records that were written
/// with an empty text in place of a hash are accounts without a password: a
/// login for them is refused like any wrong password, not as a fault.
pub fn stored_hash(text: Option<String>) -> (r: Option<String>)
    ensures
        opt_view(r) == stored_hash_of(opt_view(text)),
{
    match text {
        Some(t) => {
            if t.as_str().unicode_len() == 0 {
                None
            } else {
                Some(t)
            }
        },
        None => None,
    }
}

/// A copy of an optional string.
pub fn clone_opt(s: &Option<String>) -> (r: Option<String>)
    ensures
        opt_view(r) == opt_view(*s),
{
    match s {
        Some(t) => Some(t.clone()),
        None => None,
    }
}

impl ProviderLink {
    /// A copy of this link.
    pub fn duplicate(&self) -> (r: ProviderLink)
        ensures
            r@ == self@,
    {
        ProviderLink { provider: self.provider, external_id: self.external_id.clone() }
    }
}

impl Account {
    /// A copy of this account.
    pub fn duplicate(&self) -> (r: Account)
        ensures
            r@ == self@,
    {
        let link = match &self.link {
            Some(k) => Some(k.duplicate()),
            None => None,
        };
        Account {
            id: self.id,
            email: self.email.clone(),
            full_name: self.full_name.clone(),
            password_hash: clone_opt(&self.password_hash),
            link,
            avatar_url: clone_opt(&self.avatar_url),
        }
    }
}

} // verus!
