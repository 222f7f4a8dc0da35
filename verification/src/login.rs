//! The login endpoint: a password grant or a refresh grant, ending in a
//! fresh access/refresh pair.

use vstd::prelude::*;
use vstd::string::StringExecFns;
use crate::account::{UserTable, Timestamp, find_by_username};
use crate::codec::{AesKey, TokenData, spec_encode};
use crate::error::ServiceError;
use crate::oauth::{TokenReturnData, ACCESS_TOKEN_LIFETIME, spec_issued_pair};
use crate::password::spec_verify_cleartext;
use crate::resolver::{read_bearer_auth_token, bearer_payload_outcome};
use crate::store::TokenStore;
use crate::text::str_eq;

verus! {

/// The body a login request arrives in.
pub struct LoginRequest {
    pub grant_type: String,
    pub username: Option<String>,
    pub password: Option<String>,
    pub refresh_token: Option<String>,
}

/// The body a successful login returns.
#[derive(Debug)]
pub struct LoginResponse {
    pub access_token: String,
    pub token_type: String,
    pub expires_in: i32,
    pub refresh_token: String,
}

/// What a successful login leaves behind: the freshly issued pair, returned
/// as a Bearer credential with the access lifetime.
pub open spec fn spec_login_ok(old_store: TokenStore, new_store: TokenStore, key: Seq<u8>,
    pid: i32, now: Timestamp, resp: LoginResponse) -> bool {
    &&& spec_issued_pair(old_store, new_store, key, pid, now, resp.access_token@,
        resp.refresh_token@)
    &&& resp.token_type@ == "Bearer"@
    &&& resp.expires_in == ACCESS_TOKEN_LIFETIME
}

/// Log in by password or by refresh token. The grant type selects the path;
/// banned accounts are refused; on success a fresh pair is issued. Unknown
/// account and wrong password are deliberately the same error.
pub fn login(users: &UserTable, store: &mut TokenStore, key: &AesKey,
    form_data: &LoginRequest, now: Timestamp) -> (r: Result<LoginResponse, ServiceError>)
    requires
        old(store).wf(),
        old(store).next_token_id < i64::MAX - 1,
        now.secs + ACCESS_TOKEN_LIFETIME as i64 <= i64::MAX,
        key.wf(),
    ensures
        final(store).wf(),
        r is Err ==> *final(store) == *old(store),
        ({
            let gt = form_data.grant_type@;
            if gt != "password"@ && gt != "refresh_token"@ {
                r == Err::<LoginResponse, ServiceError>(ServiceError::InvalidGrantType)
            } else if gt == "password"@ {
                match form_data.username {
                    None => r == Err::<LoginResponse, ServiceError>(
                        ServiceError::InvalidAccountOrPassword,
                    ),
                    Some(un) => match form_data.password {
                        None => r == Err::<LoginResponse, ServiceError>(
                            ServiceError::InvalidAccountOrPassword,
                        ),
                        Some(pw) => match find_by_username(users.users@, un@) {
                            None => r == Err::<LoginResponse, ServiceError>(
                                ServiceError::InvalidAccountOrPassword,
                            ),
                            Some(u) => {
                                if spec_verify_cleartext(u.password@, u.pid, pw@) != Some(
                                    true,
                                ) {
                                    r == Err::<LoginResponse, ServiceError>(
                                        ServiceError::InvalidAccountOrPassword,
                                    )
                                } else if u.account_level < 0 {
                                    r == Err::<LoginResponse, ServiceError>(
                                        ServiceError::InvalidAccountOrPassword,
                                    )
                                } else {
                                    r matches Ok(resp) && spec_login_ok(
                                        *old(store),
                                        *final(store),
                                        key@,
                                        u.pid,
                                        now,
                                        resp,
                                    )
                                }
                            },
                        },
                    },
                }
            } else {
                match form_data.refresh_token {
                    None => r == Err::<LoginResponse, ServiceError>(
                        ServiceError::InvalidRefreshToken,
                    ),
                    Some(tok) => {
                        &&& forall|t: TokenData|
                            tok@ == spec_encode(key@, t) ==> match bearer_payload_outcome(
                                users.users@,
                                old(store).rows@,
                                t,
                                now,
                            ) {
                                None => r == Err::<LoginResponse, ServiceError>(
                                    ServiceError::InvalidRefreshToken,
                                ),
                                Some(u) => if u.account_level < 0 {
                                    r == Err::<LoginResponse, ServiceError>(
                                        ServiceError::InvalidAccountOrPassword,
                                    )
                                } else {
                                    r matches Ok(resp) && spec_login_ok(
                                        *old(store),
                                        *final(store),
                                        key@,
                                        u.pid,
                                        now,
                                        resp,
                                    )
                                },
                            }
                        &&& (forall|t: TokenData| tok@ != spec_encode(key@, t)) ==> r
                            == Err::<LoginResponse, ServiceError>(
                            ServiceError::InvalidRefreshToken,
                        )
                    },
                }
            }
        }),
{
    let grant_type = form_data.grant_type.as_str();
    let is_password = str_eq(grant_type, "password");
    let is_refresh = str_eq(grant_type, "refresh_token");
    if !is_password && !is_refresh {
        return Err(ServiceError::InvalidGrantType);
    }
    let user = if is_password {
        let username = match &form_data.username {
            Some(u) => u,
            None => {
                return Err(ServiceError::InvalidAccountOrPassword);
            },
        };
        let password = match &form_data.password {
            Some(p) => p,
            None => {
                return Err(ServiceError::InvalidAccountOrPassword);
            },
        };
        let user = match users.get_by_username(username.as_str()) {
            Some(u) => u,
            None => {
                return Err(ServiceError::InvalidAccountOrPassword);
            },
        };
        let ok = match user.verify_cleartext_password(password.as_str()) {
            Some(true) => true,
            _ => false,
        };
        if !ok {
            return Err(ServiceError::InvalidAccountOrPassword);
        }
        user
    } else {
        let refresh_token = match &form_data.refresh_token {
            Some(t) => t,
            None => {
                return Err(ServiceError::InvalidRefreshToken);
            },
        };
        match read_bearer_auth_token(users, store, key, refresh_token.as_str(), now) {
            Some(u) => u,
            None => {
                return Err(ServiceError::InvalidRefreshToken);
            },
        }
    };
    if user.account_level < 0 {
        return Err(ServiceError::InvalidAccountOrPassword);
    }
    let pair = TokenReturnData::new(user.pid, store, key, now);
    Ok(LoginResponse {
        access_token: pair.token,
        token_type: String::from_str("Bearer"),
        expires_in: ACCESS_TOKEN_LIFETIME,
        refresh_token: pair.refresh_token,
    })
}

} // verus!
