//! Account projections and the account store.
use vstd::prelude::*;

use crate::plain::PlainData;
use crate::seqs::{first_index, lemma_filter_full_means_all, lemma_filter_keeps_all, lemma_first_index, position_where, retain_where};
use crate::state::AccountType;
use crate::text::{push_str, str_eq, string_of};

verus! {

/// A Minecraft profile of an account.
#[derive(Clone, Debug, PartialEq, Eq)]
pub struct PlayerProfileSummary {
    pub id: String,
    pub name: String,
    pub skin_url: String,
    pub is_slim: bool,
}

/// The abstract value of `PlayerProfileSummary`.
pub struct PlayerProfileSummaryView {
    pub id: Seq<char>,
    pub name: Seq<char>,
    pub skin_url: Seq<char>,
    pub is_slim: bool,
}

impl DeepView for PlayerProfileSummary {
    type V = PlayerProfileSummaryView;

    open spec fn deep_view(&self) -> PlayerProfileSummaryView {
        PlayerProfileSummaryView {
            id: self.id.deep_view(),
            name: self.name.deep_view(),
            skin_url: self.skin_url.deep_view(),
            is_slim: self.is_slim.deep_view(),
        }
    }
}

impl View for PlayerProfileSummary {
    type V = PlayerProfileSummaryView;

    open spec fn view(&self) -> PlayerProfileSummaryView {
        self.deep_view()
    }
}

impl PlainData for PlayerProfileSummary {
    fn same(&self, other: &Self) -> (r: bool) {
        self.id.same(&other.id)
            && self.name.same(&other.name)
            && self.skin_url.same(&other.skin_url)
            && self.is_slim.same(&other.is_slim)
    }

    fn copied(&self) -> (r: Self) {
        PlayerProfileSummary {
            id: self.id.copied(),
            name: self.name.copied(),
            skin_url: self.skin_url.copied(),
            is_slim: self.is_slim.copied(),
        }
    }
}

/// An account as the launcher shows it.
#[derive(Clone, Debug, PartialEq, Eq)]
pub struct AccountSummary {
    pub id: String,
    pub username: String,
    pub account_type: AccountType,
    pub last_used: String,
    pub auth_server: Option<String>,
    pub active_profile_id: String,
    pub profiles: Vec<PlayerProfileSummary>,
}

/// The abstract value of `AccountSummary`.
pub struct AccountSummaryView {
    pub id: Seq<char>,
    pub username: Seq<char>,
    pub account_type: AccountType,
    pub last_used: Seq<char>,
    pub auth_server: Option<Seq<char>>,
    pub active_profile_id: Seq<char>,
    pub profiles: Seq<PlayerProfileSummaryView>,
}

impl DeepView for AccountSummary {
    type V = AccountSummaryView;

    open spec fn deep_view(&self) -> AccountSummaryView {
        AccountSummaryView {
            id: self.id.deep_view(),
            username: self.username.deep_view(),
            account_type: self.account_type.deep_view(),
            last_used: self.last_used.deep_view(),
            auth_server: self.auth_server.deep_view(),
            active_profile_id: self.active_profile_id.deep_view(),
            profiles: self.profiles.deep_view(),
        }
    }
}

impl View for AccountSummary {
    type V = AccountSummaryView;

    open spec fn view(&self) -> AccountSummaryView {
        self.deep_view()
    }
}

impl PlainData for AccountSummary {
    fn same(&self, other: &Self) -> (r: bool) {
        self.id.same(&other.id)
            && self.username.same(&other.username)
            && self.account_type.same(&other.account_type)
            && self.last_used.same(&other.last_used)
            && self.auth_server.same(&other.auth_server)
            && self.active_profile_id.same(&other.active_profile_id)
            && self.profiles.same(&other.profiles)
    }

    fn copied(&self) -> (r: Self) {
        AccountSummary {
            id: self.id.copied(),
            username: self.username.copied(),
            account_type: self.account_type.copied(),
            last_used: self.last_used.copied(),
            auth_server: self.auth_server.copied(),
            active_profile_id: self.active_profile_id.copied(),
            profiles: self.profiles.copied(),
        }
    }
}

/// Selects the profile with the given id.
pub open spec fn profile_with_id(id: Seq<char>) -> spec_fn(PlayerProfileSummaryView) -> bool {
    |p: PlayerProfileSummaryView| p.id == id
}

/// The second line shown for an account: its authentication server, or when
/// it was last used.
pub open spec fn account_detail(a: AccountSummaryView) -> Seq<char> {
    match a.auth_server {
        Some(server) => server,
        None => "last used "@ + a.last_used,
    }
}

impl AccountSummary {
    /// The profile the account currently plays as.
    pub fn active_profile(&self) -> (r: Option<&PlayerProfileSummary>)
        ensures
            r matches Some(p) ==> first_index(self@.profiles, profile_with_id(self@.active_profile_id)) matches Some(k)
                && p.deep_view() == self@.profiles[k],
            r is None ==> first_index(self@.profiles, profile_with_id(self@.active_profile_id)) is None,
    {
        let ghost t = self@.active_profile_id;
        proof {
            lemma_first_index(self@.profiles, profile_with_id(t));
        }
        match position_where(
            &self.profiles,
            |p: &PlayerProfileSummary| -> (b: bool) ensures b == (p.deep_view().id == t) { p.id == self.active_profile_id },
            Ghost(profile_with_id(t)),
        ) {
            Some(k) => Some(&self.profiles[k]),
            None => None,
        }
    }

    pub fn detail(&self) -> (r: String)
        ensures
            r@ == account_detail(self@),
    {
        match &self.auth_server {
            Some(server) => server.clone(),
            None => {
                let mut out: Vec<char> = Vec::new();
                push_str(&mut out, "last used ");
                push_str(&mut out, self.last_used.as_str());
                string_of(&out)
            },
        }
    }
}

/// The abstract state of an account store.
pub struct AccountStoreView {
    pub accounts: Seq<AccountSummaryView>,
    pub active_id: Option<Seq<char>>,
    pub revision: u64,
}

/// Selects the account with the given id.
pub open spec fn account_with_id(id: Seq<char>) -> spec_fn(AccountSummaryView) -> bool {
    |a: AccountSummaryView| a.id == id
}

/// Selects every account but the one with the given id.
pub open spec fn account_without_id(id: Seq<char>) -> spec_fn(AccountSummaryView) -> bool {
    |a: AccountSummaryView| a.id != id
}

/// Whether no two accounts share an id.
pub open spec fn distinct_ids(accounts: Seq<AccountSummaryView>) -> bool {
    forall|i: int, j: int| 0 <= i < j < accounts.len() ==> #[trigger] accounts[i].id != #[trigger] accounts[j].id
}

/// Configured accounts, keyed by id, and the active selection, with a revision
/// that advances exactly when they change.
#[derive(Default)]
pub struct AccountStore {
    accounts: Vec<AccountSummary>,
    active_id: Option<String>,
    revision: u64,
}

impl View for AccountStore {
    type V = AccountStoreView;

    closed spec fn view(&self) -> AccountStoreView {
        AccountStoreView {
            accounts: self.accounts.deep_view(),
            active_id: self.active_id.deep_view(),
            revision: self.revision,
        }
    }
}

impl AccountStore {
    /// A store holding the given accounts, none of them active; the account
    /// ids must be unique.
    pub fn new(accounts: Vec<AccountSummary>) -> (r: Self)
        requires
            distinct_ids(accounts.deep_view()),
        ensures
            r@ == (AccountStoreView { accounts: accounts.deep_view(), active_id: None, revision: 0 }),
    {
        AccountStore { accounts, active_id: None, revision: 0 }
    }

    /// The accounts, in insertion order.
    pub fn all(&self) -> (r: Vec<AccountSummary>)
        ensures
            r.deep_view() == self@.accounts,
    {
        self.accounts.copied()
    }

    pub fn is_empty(&self) -> (r: bool)
        ensures
            r == (self@.accounts.len() == 0),
    {
        self.accounts.is_empty()
    }

    pub fn len(&self) -> (r: usize)
        ensures
            r == self@.accounts.len(),
    {
        self.accounts.len()
    }

    fn position(&self, id: &str) -> (r: Option<usize>)
        ensures
            r matches Some(k) ==> first_index(self@.accounts, account_with_id(id@)) == Some(k as int),
            r is None ==> first_index(self@.accounts, account_with_id(id@)) is None,
    {
        let ghost t = id@;
        position_where(
            &self.accounts,
            |a: &AccountSummary| -> (b: bool) ensures b == (a.deep_view().id == t) { str_eq(a.id.as_str(), id) },
            Ghost(account_with_id(t)),
        )
    }

    /// The account with the given id.
    pub fn get(&self, id: &str) -> (r: Option<AccountSummary>)
        ensures
            r matches Some(a) ==> first_index(self@.accounts, account_with_id(id@)) matches Some(k)
                && a.deep_view() == self@.accounts[k],
            r is None ==> first_index(self@.accounts, account_with_id(id@)) is None,
    {
        proof {
            lemma_first_index(self@.accounts, account_with_id(id@));
        }
        match self.position(id) {
            Some(k) => Some(self.accounts[k].copied()),
            None => None,
        }
    }

    pub fn active_id(&self) -> (r: Option<String>)
        ensures
            r.deep_view() == self@.active_id,
    {
        self.active_id.copied()
    }

    /// The active account.
    pub fn active(&self) -> (r: Option<AccountSummary>)
        ensures
            r matches Some(a) ==> self@.active_id matches Some(id) && first_index(self@.accounts, account_with_id(id)) matches Some(k)
                && a.deep_view() == self@.accounts[k],
            r is None ==> (self@.active_id matches Some(id) ==> first_index(self@.accounts, account_with_id(id)) is None),
    {
        match &self.active_id {
            Some(id) => self.get(id.as_str()),
            None => None,
        }
    }

    /// The profile the active account plays as.
    pub fn active_profile(&self) -> (r: Option<PlayerProfileSummary>)
        ensures
            r matches Some(p) ==> self@.active_id matches Some(id) && first_index(self@.accounts, account_with_id(id)) matches Some(k)
                && first_index(self@.accounts[k].profiles, profile_with_id(self@.accounts[k].active_profile_id)) matches Some(j)
                && p.deep_view() == self@.accounts[k].profiles[j],
            r is None ==> (self@.active_id matches Some(id) ==> (first_index(self@.accounts, account_with_id(id)) matches Some(k)
                ==> first_index(self@.accounts[k].profiles, profile_with_id(self@.accounts[k].active_profile_id)) is None)),
    {
        let account = self.active()?;
        match account.active_profile() {
            Some(p) => Some(p.copied()),
            None => None,
        }
    }

    pub fn revision(&self) -> (r: u64)
        ensures
            r == self@.revision,
    {
        self.revision
    }

    /// Makes the account `id` the active one; unknown or already active ids
    /// change nothing.
    pub fn set_active(&mut self, id: &str) -> (r: bool)
        requires
            old(self)@.revision < u64::MAX,
        ensures
            r == (first_index(old(self)@.accounts, account_with_id(id@)) is Some && old(self)@.active_id != Some(id@)),
            r ==> final(self)@ == (AccountStoreView { active_id: Some(id@), revision: (old(self)@.revision + 1) as u64, ..old(self)@ }),
            !r ==> final(self)@ == old(self)@,
    {
        if self.position(id).is_none() {
            return false;
        }
        let already = match &self.active_id {
            Some(current) => str_eq(current.as_str(), id),
            None => false,
        };
        if already {
            return false;
        }
        self.active_id = Some(id.to_owned());
        self.revision += 1;
        true
    }

    /// Profile selection belongs to the authentication backend; the store never
    /// changes it.
    pub fn set_active_profile(&mut self, id: &str, profile: &str) -> (r: bool)
        ensures
            !r,
            final(self)@ == old(self)@,
    {
        false
    }

    /// Adds an offline account and makes it active. Other providers, and ids
    /// that are already known, are refused.
    pub fn add(&mut self, account: AccountSummary) -> (r: Option<String>)
        requires
            old(self)@.revision < u64::MAX,
        ensures
            r is Some == (account@.account_type == AccountType::Offline
                && first_index(old(self)@.accounts, account_with_id(account@.id)) is None),
            r matches Some(id) ==> id@ == account@.id && final(self)@ == (AccountStoreView {
                accounts: old(self)@.accounts.push(account@),
                active_id: Some(account@.id),
                revision: (old(self)@.revision + 1) as u64,
            }),
            r is None ==> final(self)@ == old(self)@,
    {
        if account.account_type != AccountType::Offline {
            return None;
        }
        if self.position(account.id.as_str()).is_some() {
            return None;
        }
        let id = account.id.clone();
        let ghost before = self.accounts.deep_view();
        let ghost added = account.deep_view();
        self.accounts.push(account);
        assert(self.accounts.deep_view() =~= before.push(added));
        self.active_id = Some(id.clone());
        self.revision += 1;
        Some(id)
    }

    /// Removes the account `id`; it stops being the active one.
    pub fn remove(&mut self, id: &str) -> (r: bool)
        requires
            old(self)@.revision < u64::MAX,
        ensures
            r == (first_index(old(self)@.accounts, account_with_id(id@)) is Some),
            r ==> final(self)@ == (AccountStoreView {
                accounts: old(self)@.accounts.filter(account_without_id(id@)),
                active_id: if old(self)@.active_id == Some(id@) {
                    None
                } else {
                    old(self)@.active_id
                },
                revision: (old(self)@.revision + 1) as u64,
            }),
            !r ==> final(self)@ == old(self)@,
    {
        proof {
            lemma_first_index(self@.accounts, account_with_id(id@));
        }
        if self.position(id).is_none() {
            return false;
        }
        let ghost t = id@;
        retain_where(
            &mut self.accounts,
            |a: &AccountSummary| -> (b: bool) ensures b == (a.deep_view().id != t) { !str_eq(a.id.as_str(), id) },
            Ghost(account_without_id(t)),
        );
        let was_active = match &self.active_id {
            Some(current) => str_eq(current.as_str(), id),
            None => false,
        };
        if was_active {
            self.active_id = None;
        }
        self.revision += 1;
        true
    }
}

} // verus!
