//! The form that adds an account.
use vstd::prelude::*;

use crate::seqs::first_index;
use crate::state::accounts::{account_with_id, AccountStoreView};
use crate::state::{AccountStore, AccountSummary, AccountType};
use crate::text::{char_is_whitespace, chars_of, is_whitespace, starts_with, trim, trimmed};

verus! {

/// The providers the form offers, in tab order.
pub const PROVIDERS: [AccountType; 4] = [AccountType::Microsoft, AccountType::Aphanite, AccountType::Yggdrasil, AccountType::Offline];

/// Whether a character may appear in an offline name.
pub open spec fn name_char(c: char) -> bool {
    ('0' <= c <= '9') || ('a' <= c <= 'z') || ('A' <= c <= 'Z') || c == '_'
}

/// Whether an offline player name is acceptable: 1 to 16 ASCII letters,
/// digits or underscores.
pub open spec fn offline_name_ok(name: Seq<char>) -> bool {
    0 < name.len() <= 16 && forall|i: int| 0 <= i < name.len() ==> name_char(#[trigger] name[i])
}

/// Whether an authentication server address is acceptable: `http://` or
/// `https://`, without whitespace.
pub open spec fn server_ok(server: Seq<char>) -> bool {
    &&& (server.take(8) == "https://"@ && server.len() >= 8) || (server.take(7) == "http://"@ && server.len() >= 7)
    &&& forall|i: int| 0 <= i < server.len() ==> !is_whitespace(#[trigger] server[i])
}

/// Whether the form can be submitted. Online providers are offered only when
/// `online_previews` holds; a Yggdrasil account needs a name and a server.
pub open spec fn account_form_ok(provider: AccountType, name: Seq<char>, server: Seq<char>, online_previews: bool) -> bool {
    if provider == AccountType::Offline {
        offline_name_ok(name)
    } else if !online_previews {
        false
    } else if provider == AccountType::Yggdrasil {
        trimmed(name).len() > 0 && server_ok(server)
    } else {
        true
    }
}

/// Whether an offline player name is acceptable.
pub fn offline_name_valid(name: &str) -> (r: bool)
    ensures
        r == offline_name_ok(name@),
{
    let chars = chars_of(name);
    if chars.len() == 0 || chars.len() > 16 {
        return false;
    }
    let mut i: usize = 0;
    while i < chars.len()
        invariant
            i <= chars.len(),
            chars@ == name@,
            forall|j: int| 0 <= j < i ==> name_char(#[trigger] name@[j]),
        decreases chars.len() - i,
    {
        let c = chars[i];
        if !(('0' <= c && c <= '9') || ('a' <= c && c <= 'z') || ('A' <= c && c <= 'Z') || c == '_') {
            return false;
        }
        i += 1;
    }
    true
}

/// Whether an authentication server address is acceptable.
pub fn server_valid(server: &str) -> (r: bool)
    ensures
        r == server_ok(server@),
{
    if !(starts_with(server, "https://") || starts_with(server, "http://")) {
        proof {
            reveal_strlit("https://");
            reveal_strlit("http://");
        }
        return false;
    }
    proof {
        reveal_strlit("https://");
        reveal_strlit("http://");
    }
    let chars = chars_of(server);
    let mut i: usize = 0;
    while i < chars.len()
        invariant
            i <= chars.len(),
            chars@ == server@,
            forall|j: int| 0 <= j < i ==> !is_whitespace(#[trigger] server@[j]),
        decreases chars.len() - i,
    {
        if char_is_whitespace(chars[i]) {
            return false;
        }
        i += 1;
    }
    true
}

/// Whether the account form can be submitted.
pub fn account_form_valid(provider: AccountType, name: &str, server: &str, online_previews: bool) -> (r: bool)
    ensures
        r == account_form_ok(provider, name@, server@, online_previews),
{
    if provider == AccountType::Offline {
        return offline_name_valid(name);
    }
    if !online_previews {
        return false;
    }
    if provider == AccountType::Yggdrasil {
        let t = trim(name);
        return !t.as_str().is_empty() && server_valid(server);
    }
    true
}

/// The message shown when the account cannot be added.
pub open spec fn already_added_message() -> Seq<char> {
    "This account has already been added."@
}

/// Adds the account the form produced and makes it active; the dialog then
/// closes. An account the store refuses (not offline, or an id it already
/// holds) leaves the store unchanged and the dialog says so.
pub fn submit(store: &mut AccountStore, account: AccountSummary) -> (r: Result<String, &'static str>)
    requires
        old(store)@.revision < u64::MAX,
    ensures
        (r is Ok) == (account@.account_type == AccountType::Offline
            && first_index(old(store)@.accounts, account_with_id(account@.id)) is None),
        r matches Ok(id) ==> id@ == account@.id && final(store)@ == (AccountStoreView {
            accounts: old(store)@.accounts.push(account@),
            active_id: Some(account@.id),
            revision: (old(store)@.revision + 1) as u64,
        }),
        r matches Err(m) ==> m@ == already_added_message() && final(store)@ == old(store)@,
{
    match store.add(account) {
        Some(id) => Ok(id),
        None => Err("This account has already been added."),
    }
}

} // verus!
