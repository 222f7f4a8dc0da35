//! Issuance of paired access and refresh sessions, and the token-grant
//! endpoint logic built on it.
//!
//! Issuing the pair is two independent inserts with no enclosing
//! transaction: if the second failed after the first in the deployment, the
//! first would stay — preserved as two separate `issue` calls here.

use vstd::prelude::*;
use crate::account::{UserTable, Timestamp, find_by_username};
use crate::codec::{AesKey, TokenData, spec_encode};
use crate::crypto::bcrypt_verify_of;
use crate::error::ServiceError;
use crate::store::{TokenStore, TokenType, SessionRecord};

verus! {

/// How long an access token lives, in seconds.
pub const ACCESS_TOKEN_LIFETIME: i32 = 3600;

/// The form a token-grant request arrives in.
pub struct TokenRequestData {
    pub grant_type: String,
    pub user_id: String,
    pub password: String,
    pub password_type: String,
}

/// The pair of opaque tokens a successful grant returns.
#[derive(Debug)]
pub struct TokenReturnData {
    pub token: String,
    pub refresh_token: String,
    pub expires_in: i32,
}

/// The grant response wrapper the wire format carries.
#[derive(Debug)]
pub struct TokenRequestReturnData {
    pub access_token: TokenReturnData,
}

/// What one issuance of a session row leaves behind: the row is appended
/// with the store-assigned id and the drawn nonce, and the sequence moves on.
pub open spec fn spec_issued_row(old_store: TokenStore, new_store: TokenStore, pid: i32,
    token_type: TokenType, expires: Option<Timestamp>, token_id: i64, random: i32) -> bool {
    &&& token_id == old_store.next_token_id
    &&& new_store.rows@ == old_store.rows@.push(SessionRecord {
        token_id: old_store.next_token_id,
        pid,
        random,
        token_type,
        title_id: None,
        expires,
    })
    &&& new_store.next_token_id == old_store.next_token_id + 1
}

/// What issuing the access/refresh pair leaves behind: an access row that
/// expires with the returned lifetime and an unexpiring refresh row, both for
/// the account, and the two returned strings encode exactly the stored
/// triples.
pub open spec fn spec_issued_pair(old_store: TokenStore, new_store: TokenStore, key: Seq<u8>,
    pid: i32, now: Timestamp, token: Seq<char>, refresh_token: Seq<char>) -> bool {
    let n = old_store.rows@.len() as int;
    &&& new_store.rows@.len() == n + 2
    &&& new_store.rows@.subrange(0, n) == old_store.rows@
    &&& new_store.next_token_id == old_store.next_token_id + 2
    &&& new_store.rows@[n] == (SessionRecord {
        token_id: old_store.next_token_id,
        pid,
        random: new_store.rows@[n].random,
        token_type: TokenType::Auth,
        title_id: None,
        expires: Some(Timestamp { secs: (now.secs + ACCESS_TOKEN_LIFETIME as i64) as i64 }),
    })
    &&& new_store.rows@[n + 1] == (SessionRecord {
        token_id: (old_store.next_token_id + 1) as i64,
        pid,
        random: new_store.rows@[n + 1].random,
        token_type: TokenType::AuthRefresh,
        title_id: None,
        expires: None,
    })
    &&& token == spec_encode(
        key,
        TokenData {
            pid,
            random: new_store.rows@[n].random,
            token_id: old_store.next_token_id,
        },
    )
    &&& refresh_token == spec_encode(
        key,
        TokenData {
            pid,
            random: new_store.rows@[n + 1].random,
            token_id: (old_store.next_token_id + 1) as i64,
        },
    )
}

impl TokenReturnData {
    /// Insert one session row of the requested class with a fresh nonce;
    /// returns the store-assigned id and the nonce.
    pub fn create_token(pid: i32, store: &mut TokenStore, is_refresh_token: bool,
        expires: Option<Timestamp>) -> (r: (i64, i32))
        requires
            old(store).wf(),
            old(store).next_token_id < i64::MAX,
        ensures
            final(store).wf(),
            spec_issued_row(
                *old(store),
                *final(store),
                pid,
                if is_refresh_token {
                    TokenType::AuthRefresh
                } else {
                    TokenType::Auth
                },
                expires,
                r.0,
                r.1,
            ),
    {
        let token_type = if is_refresh_token {
            TokenType::AuthRefresh
        } else {
            TokenType::Auth
        };
        let random: i32 = crate::random::random_i32();
        let data = store.issue(pid, token_type, None, random, expires);
        (data.token_id, data.random)
    }

    pub fn create_regular_token(pid: i32, store: &mut TokenStore, expires: Option<Timestamp>)
        -> (r: (i64, i32))
        requires
            old(store).wf(),
            old(store).next_token_id < i64::MAX,
        ensures
            final(store).wf(),
            spec_issued_row(*old(store), *final(store), pid, TokenType::Auth, expires, r.0, r.1),
    {
        Self::create_token(pid, store, false, expires)
    }

    pub fn create_refresh_token(pid: i32, store: &mut TokenStore, expires: Option<Timestamp>)
        -> (r: (i64, i32))
        requires
            old(store).wf(),
            old(store).next_token_id < i64::MAX,
        ensures
            final(store).wf(),
            spec_issued_row(
                *old(store),
                *final(store),
                pid,
                TokenType::AuthRefresh,
                expires,
                r.0,
                r.1,
            ),
    {
        Self::create_token(pid, store, true, expires)
    }

    /// Issue the access/refresh pair for an account and encode both tokens.
    pub fn new(pid: i32, store: &mut TokenStore, key: &AesKey, now: Timestamp) -> (r:
        TokenReturnData)
        requires
            old(store).wf(),
            old(store).next_token_id < i64::MAX - 1,
            now.secs + ACCESS_TOKEN_LIFETIME as i64 <= i64::MAX,
            key.wf(),
        ensures
            final(store).wf(),
            spec_issued_pair(
                *old(store),
                *final(store),
                key@,
                pid,
                now,
                r.token@,
                r.refresh_token@,
            ),
            r.expires_in == ACCESS_TOKEN_LIFETIME,
    {
        let expires = Timestamp { secs: now.secs + ACCESS_TOKEN_LIFETIME as i64 };
        let (token_id, random) = Self::create_regular_token(pid, store, Some(expires));
        let token_data = TokenData { token_id, random, pid };
        let token = token_data.encode(key);
        let (token_id, random) = Self::create_refresh_token(pid, store, None);
        let refresh_data = TokenData { token_id, random, pid };
        let refresh_token = refresh_data.encode(key);
        proof {
            let n = old(store).rows@.len() as int;
            assert(store.rows@.subrange(0, n) =~= old(store).rows@);
        }
        TokenReturnData { token, refresh_token, expires_in: ACCESS_TOKEN_LIFETIME }
    }
}

/// The token-grant endpoint: authenticate by account id and
/// already-legacy-hashed password, refuse banned accounts, then issue the
/// pair. Bad account id and bad password are deliberately the same error.
pub fn generate_token(users: &UserTable, store: &mut TokenStore, key: &AesKey,
    data: &TokenRequestData, now: Timestamp) -> (r: Result<TokenRequestReturnData, ServiceError>)
    requires
        old(store).wf(),
        old(store).next_token_id < i64::MAX - 1,
        now.secs + ACCESS_TOKEN_LIFETIME as i64 <= i64::MAX,
        key.wf(),
    ensures
        final(store).wf(),
        r is Err ==> *final(store) == *old(store),
        match find_by_username(users.users@, data.user_id@) {
            None => r == Err::<TokenRequestReturnData, ServiceError>(
                ServiceError::InvalidAccountOrPassword,
            ),
            Some(u) => {
                if bcrypt_verify_of(data.password@, u.password@) != Some(true) {
                    r == Err::<TokenRequestReturnData, ServiceError>(
                        ServiceError::InvalidAccountOrPassword,
                    )
                } else if u.account_level < 0 {
                    r == Err::<TokenRequestReturnData, ServiceError>(ServiceError::DeviceBanned)
                } else {
                    r matches Ok(ret) && spec_issued_pair(
                        *old(store),
                        *final(store),
                        key@,
                        u.pid,
                        now,
                        ret.access_token.token@,
                        ret.access_token.refresh_token@,
                    ) && ret.access_token.expires_in == ACCESS_TOKEN_LIFETIME
                }
            },
        },
{
    let user = match users.get_by_username(data.user_id.as_str()) {
        Some(u) => u,
        None => {
            return Err(ServiceError::InvalidAccountOrPassword);
        },
    };
    let password_ok = match user.verify_hashed_password(data.password.as_str()) {
        Some(true) => true,
        _ => false,
    };
    if !password_ok {
        return Err(ServiceError::InvalidAccountOrPassword);
    }
    if user.account_level < 0 {
        return Err(ServiceError::DeviceBanned);
    }
    let access_token = TokenReturnData::new(user.pid, store, key, now);
    Ok(TokenRequestReturnData { access_token })
}

/// The body of the companion API's token response: one access token and
/// when it expires.
pub struct ApiTokenData {
    pub token: String,
    pub expiry: Timestamp,
}

/// The companion API's token endpoint: one access-class session for the
/// authenticated account, expiring after the access lifetime.
pub fn generate_api_token(store: &mut TokenStore, key: &AesKey, pid: i32, now: Timestamp)
    -> (r: ApiTokenData)
    requires
        old(store).wf(),
        old(store).next_token_id < i64::MAX,
        now.secs + ACCESS_TOKEN_LIFETIME as i64 <= i64::MAX,
        key.wf(),
    ensures
        final(store).wf(),
        crate::store::spec_created_token(
            *old(store),
            *final(store),
            key@,
            pid,
            TokenType::Auth,
            None,
            Some(Timestamp { secs: (now.secs + ACCESS_TOKEN_LIFETIME as i64) as i64 }),
            r.token@,
        ),
        r.expiry.secs == now.secs + ACCESS_TOKEN_LIFETIME as i64,
{
    let expiry = Timestamp { secs: now.secs + ACCESS_TOKEN_LIFETIME as i64 };
    let token = crate::store::create_token(store, key, pid, TokenType::Auth, None, Some(expiry));
    ApiTokenData { token, expiry }
}

} // verus!
