//! The query surface the admin API exposes: token introspection and account
//! lookups. The API key is compared here; request plumbing stays with the
//! caller.

use vstd::prelude::*;
use crate::account::{UserTable, Timestamp, find_by_pid, find_by_username};
use crate::codec::{AesKey, TokenData, spec_encode};
use crate::store::{TokenStore, find_triple};
use crate::text::{str_eq, strip_newlines, spec_strip_newlines};

verus! {

/// Data inside a token, as introspection reports it.
#[derive(Debug)]
pub struct TokenInfo {
    pub pid: i32,
    pub expire_date: Option<Timestamp>,
    pub title_id: Option<String>,
}

/// Account information reported for a token or a pid.
#[derive(Debug)]
pub struct UserInfo {
    pub username: String,
    pub account_level: i32,
    pub nex_password: String,
    pub mii_data: String,
}

/// Account information reported for a username lookup.
#[derive(Debug)]
pub struct UserInfoWithPId {
    pub username: String,
    pub account_level: i32,
    pub nex_password: String,
    pub mii_data: String,
    pub pid: i32,
}

/// Whether a presented API key matches the configured one.
pub open spec fn api_key_ok(provided: Option<&str>, expected: Seq<char>) -> bool {
    match provided {
        Some(p) => p@ == expected,
        None => false,
    }
}

pub struct Query;

impl Query {
    pub fn api_version() -> (r: &'static str)
        ensures
            r@ == "1.0"@,
    {
        "1.0"
    }

    /// Introspect a token: decode it and report the backing row's pid,
    /// expiry and title. The triple must match; expiry is not checked here.
    pub fn token(tokens: &TokenStore, key: &AesKey, token_data: &str) -> (r: Option<TokenInfo>)
        requires
            key.wf(),
        ensures
            forall|t: TokenData| token_data@ == spec_encode(key@, t) ==> (match find_triple(
                tokens.rows@,
                t,
            ) {
                Some(rec) => r matches Some(info) && info.pid == t.pid && info.expire_date
                    == rec.expires && info.title_id == rec.title_id,
                None => r is None,
            }),
            (forall|t: TokenData| token_data@ != spec_encode(key@, t)) ==> r is None,
    {
        let data = match TokenData::decode(token_data, key) {
            Some(d) => d,
            None => {
                return None;
            },
        };
        let token_info = match tokens.lookup_triple(&data) {
            Some(rec) => rec,
            None => {
                return None;
            },
        };
        Some(TokenInfo {
            pid: data.pid,
            expire_date: token_info.expires,
            title_id: token_info.title_id,
        })
    }

    /// The account behind a token: decode it, match the payload's exact
    /// triple against the session store — a session row is the only thing
    /// that authenticates, so a never-issued or revoked token yields nothing
    /// — and report the account it names, with line breaks stripped from the
    /// character data.
    pub fn user_from_token(users: &UserTable, tokens: &TokenStore, key: &AesKey,
        token_data: &str) -> (r: Option<UserInfo>)
        requires
            key.wf(),
        ensures
            forall|t: TokenData| token_data@ == spec_encode(key@, t) ==> (match find_triple(
                tokens.rows@,
                t,
            ) {
                Some(rec) => match find_by_pid(users.users@, t.pid as int) {
                    Some(u) => r matches Some(info) && info.username@ == u.username@
                        && info.account_level == u.account_level && info.nex_password@
                        == u.nex_password@ && info.mii_data@ == spec_strip_newlines(
                        u.mii_data@,
                    ),
                    None => r is None,
                },
                None => r is None,
            }),
            (forall|t: TokenData| token_data@ != spec_encode(key@, t)) ==> r is None,
    {
        let data = match TokenData::decode(token_data, key) {
            Some(d) => d,
            None => {
                return None;
            },
        };
        if tokens.lookup_triple(&data).is_none() {
            return None;
        }
        let user = match users.get_by_pid(data.pid) {
            Some(u) => u,
            None => {
                return None;
            },
        };
        let mii_data = strip_newlines(user.mii_data.as_str());
        Some(UserInfo {
            username: user.username,
            account_level: user.account_level,
            nex_password: user.nex_password,
            mii_data,
        })
    }

    /// An account by pid, for holders of the API key; anything else is
    /// turned away with no result.
    pub fn user_by_pid(users: &UserTable, provided_key: Option<&str>, expected_key: &str,
        pid: i32) -> (r: Option<UserInfo>)
        ensures
            !api_key_ok(provided_key, expected_key@) ==> r is None,
            api_key_ok(provided_key, expected_key@) ==> match find_by_pid(
                users.users@,
                pid as int,
            ) {
                Some(u) => r matches Some(info) && info.username@ == u.username@
                    && info.account_level == u.account_level && info.nex_password@
                    == u.nex_password@ && info.mii_data@ == u.mii_data@,
                None => r is None,
            },
    {
        let ok = match provided_key {
            Some(p) => str_eq(p, expected_key),
            None => false,
        };
        if !ok {
            return None;
        }
        let user = match users.get_by_pid(pid) {
            Some(u) => u,
            None => {
                return None;
            },
        };
        Some(UserInfo {
            username: user.username,
            account_level: user.account_level,
            nex_password: user.nex_password,
            mii_data: user.mii_data,
        })
    }

    /// An account by username, for holders of the API key.
    pub fn user_by_username(users: &UserTable, provided_key: Option<&str>,
        expected_key: &str, username: &str) -> (r: Option<UserInfoWithPId>)
        ensures
            !api_key_ok(provided_key, expected_key@) ==> r is None,
            api_key_ok(provided_key, expected_key@) ==> match find_by_username(
                users.users@,
                username@,
            ) {
                Some(u) => r matches Some(info) && info.username@ == u.username@
                    && info.account_level == u.account_level && info.nex_password@
                    == u.nex_password@ && info.mii_data@ == u.mii_data@ && info.pid == u.pid,
                None => r is None,
            },
    {
        let ok = match provided_key {
            Some(p) => str_eq(p, expected_key),
            None => false,
        };
        if !ok {
            return None;
        }
        let user = match users.get_by_username(username) {
            Some(u) => u,
            None => {
                return None;
            },
        };
        Some(UserInfoWithPId {
            username: user.username,
            account_level: user.account_level,
            nex_password: user.nex_password,
            mii_data: user.mii_data,
            pid: user.pid,
        })
    }
}

} // verus!
