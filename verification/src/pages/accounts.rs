//! The accounts page: which account the preview shows, which accounts can be
//! removed, and the texts around them.
use vstd::prelude::*;

use crate::assets::PhaIcon;
use crate::seqs::first_index;
use crate::state::accounts::{account_with_id, AccountStoreView, AccountSummaryView};
use crate::state::{AccountStore, AccountSummary, AccountType};
use crate::text::{push_str, string_of};

verus! {

/// The active account, when its id names a configured account.
pub open spec fn active_of(s: AccountStoreView) -> Option<AccountSummaryView> {
    match s.active_id {
        Some(id) => match first_index(s.accounts, account_with_id(id)) {
            Some(k) => Some(s.accounts[k]),
            None => None,
        },
        None => None,
    }
}

/// The account the profile preview shows: the active one, else the first.
pub open spec fn previewed_of(active: Option<AccountSummaryView>, accounts: Seq<AccountSummaryView>) -> Option<AccountSummaryView> {
    match active {
        Some(a) => Some(a),
        None => if accounts.len() > 0 { Some(accounts[0]) } else { None },
    }
}

/// The account the profile preview shows.
pub fn previewed(store: &AccountStore) -> (r: Option<AccountSummary>)
    ensures
        r.deep_view() == previewed_of(active_of(store@), store@.accounts),
{
    match store.active() {
        Some(account) => Some(account),
        None => {
            let all = store.all();
            if all.len() > 0 {
                proof {
                    assert(all.deep_view()[0] == all@[0].deep_view());
                }
                Some(crate::plain::PlainData::copied(&all[0]))
            } else {
                None
            }
        },
    }
}

/// Whether the page offers to remove accounts: only when more than one is
/// configured.
pub fn can_remove(store: &AccountStore) -> (r: bool)
    ensures
        r == (store@.accounts.len() > 1),
{
    store.len() > 1
}

/// The icon of an account's provider.
pub fn provider_icon(kind: AccountType) -> (r: PhaIcon)
    ensures
        r == match kind {
            AccountType::Microsoft => PhaIcon::KeyRound,
            AccountType::Aphanite => PhaIcon::Flame,
            AccountType::Yggdrasil => PhaIcon::Server,
            AccountType::Offline => PhaIcon::Monitor,
        },
{
    match kind {
        AccountType::Microsoft => PhaIcon::KeyRound,
        AccountType::Aphanite => PhaIcon::Flame,
        AccountType::Yggdrasil => PhaIcon::Server,
        AccountType::Offline => PhaIcon::Monitor,
    }
}

/// The removal confirmation's title.
pub fn remove_title(name: &str) -> (r: String)
    ensures
        r@ == "Remove “"@ + name@ + "”?"@,
{
    let mut out: Vec<char> = Vec::new();
    push_str(&mut out, "Remove “");
    push_str(&mut out, name);
    push_str(&mut out, "”?");
    string_of(&out)
}

/// The caption under the profile preview.
pub fn preview_caption(kind: AccountType) -> (r: String)
    ensures
        r@ == match kind {
            AccountType::Microsoft => "Microsoft"@,
            AccountType::Aphanite => "Aphanite"@,
            AccountType::Yggdrasil => "Yggdrasil"@,
            AccountType::Offline => "Offline"@,
        } + " player profile preview"@,
{
    let mut out: Vec<char> = Vec::new();
    push_str(&mut out, kind.label());
    push_str(&mut out, " player profile preview");
    string_of(&out)
}

} // verus!
