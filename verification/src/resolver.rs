//! The authentication resolver: one pass from an `Authorization` header to a
//! verified principal.
//!
//! The header splits on its first space into a scheme and credentials; the
//! scheme is one of the closed set Basic / Bearer / Unknown. Basic decodes
//! the credentials and splits them on the first space (not a colon) into
//! username and password; Bearer decodes the opaque token and resolves it
//! against the session store. Every failure — absent header, bad syntax,
//! unknown scheme, rejected policy, bad credentials, stale session — is the
//! one generic invalid-token outcome, so callers can never tell why
//! authentication failed.

use vstd::prelude::*;
use vstd::utf8::{decode_utf8, valid_utf8};
use crate::account::{User, UserTable, find_by_username, find_by_pid};
use crate::codec::{AesKey, TokenData, spec_encode};
use crate::crypto::bcrypt_verify_of;
use crate::encoding::{base64_of, base64_decode, string_from_utf8};
use crate::error::ServiceError;
use crate::password::nintendo_hash_chars;
use crate::store::{TokenStore, SessionRecord, resolve_spec, find_triple, is_live,
    matches_triple, lemma_no_match_find_none, lemma_resolve_matches_exactly,
    lemma_matches_triple_unique};
use crate::text::str_eq;

verus! {

/// The index of the first space in a string, or -1.
pub open spec fn first_space(s: Seq<char>) -> int {
    crate::text::first_idx(s, ' ')
}

/// Split a string at its first space; the space itself is dropped.
pub fn split_once_space<'a>(s: &'a str) -> (r: Option<(&'a str, &'a str)>)
    ensures
        r matches Some((a, b)) ==> first_space(s@) >= 0 && a@ == s@.take(first_space(s@)) && b@
            == s@.skip(first_space(s@) + 1),
        r is None ==> first_space(s@) < 0,
{
    crate::text::split_once_char(s, ' ')
}

/// The closed set of authorization schemes, from one parse step.
#[derive(Clone, Copy, PartialEq, Eq, Structural, Debug)]
pub enum AuthScheme {
    Basic,
    Bearer,
    Unknown,
}

/// The scheme a header names.
pub open spec fn scheme_of(s: Seq<char>) -> AuthScheme {
    if s == "Basic"@ {
        AuthScheme::Basic
    } else if s == "Bearer"@ {
        AuthScheme::Bearer
    } else {
        AuthScheme::Unknown
    }
}

/// Classify the scheme part of an `Authorization` header.
pub fn classify_scheme(s: &str) -> (r: AuthScheme)
    ensures
        r == scheme_of(s@),
{
    if str_eq(s, "Basic") {
        AuthScheme::Basic
    } else if str_eq(s, "Bearer") {
        AuthScheme::Bearer
    } else {
        AuthScheme::Unknown
    }
}

/// An `Authorization` header split into scheme and credentials, where it
/// splits at all.
pub open spec fn parse_header(h: Seq<char>) -> Option<(AuthScheme, Seq<char>)> {
    if first_space(h) < 0 {
        None
    } else {
        Some((scheme_of(h.take(first_space(h))), h.skip(first_space(h) + 1)))
    }
}

/// The account Basic credentials authenticate, for given decoded credential
/// bytes: they must be UTF-8, split on their first space into username and
/// password, name a stored account, and pass password verification.
pub open spec fn basic_outcome(users: Seq<User>, creds: Seq<u8>) -> Option<User> {
    if !valid_utf8(creds) {
        None
    } else {
        let s = decode_utf8(creds);
        if first_space(s) < 0 {
            None
        } else {
            let name = s.take(first_space(s));
            let pw = s.skip(first_space(s) + 1);
            match find_by_username(users, name) {
                Some(u) => if bcrypt_verify_of(nintendo_hash_chars(u.pid, pw), u.password@)
                    == Some(true) {
                    Some(u)
                } else {
                    None
                },
                None => None,
            }
        }
    }
}

/// The account a decoded Bearer payload authenticates: the session store
/// must match the exact triple, the session must not be a stale refresh
/// session, and the account it names must exist.
pub open spec fn bearer_payload_outcome(users: Seq<User>, rows: Seq<SessionRecord>,
    t: TokenData, now: crate::account::Timestamp) -> Option<User> {
    match resolve_spec(rows, t, now) {
        Some(rec) => find_by_pid(users, rec.pid as int),
        None => None,
    }
}

/// An issued, live session row whose account exists authenticates its
/// payload: the success half of the end-to-end flow, for any store and any
/// account table.
pub proof fn lemma_issued_token_resolves(users: Seq<User>, rows: Seq<SessionRecord>,
    t: TokenData, now: crate::account::Timestamp, rec: SessionRecord, u: User)
    requires
        find_triple(rows, t) == Some(rec),
        is_live(rec, now),
        find_by_pid(users, rec.pid as int) == Some(u),
    ensures
        bearer_payload_outcome(users, rows, t, now) == Some(u),
{
}

/// Altering a resolved payload defeats resolution: where a payload resolves
/// to a row and the altered payload matches no other stored row, the altered
/// payload authenticates nothing — changing any one of pid, random or
/// token_id leaves the matched row behind.
pub proof fn lemma_altered_payload_not_resolved(users: Seq<User>, rows: Seq<SessionRecord>,
    rec: SessionRecord, p: TokenData, q: TokenData, now: crate::account::Timestamp)
    requires
        resolve_spec(rows, p, now) == Some(rec),
        q != p,
        forall|i: int| 0 <= i < rows.len() && rows[i] != rec ==> !matches_triple(rows[i], q),
    ensures
        bearer_payload_outcome(users, rows, q, now) is None,
{
    lemma_resolve_matches_exactly(rows, p, now);
    if matches_triple(rec, q) {
        lemma_matches_triple_unique(rec, p, q);
    }
    assert forall|i: int| 0 <= i < rows.len() implies !matches_triple(rows[i], q) by {}
    lemma_no_match_find_none(rows, q);
}

/// Over a store holding exactly the issued row, any alteration of the
/// resolved payload fails resolution.
pub proof fn lemma_single_row_tamper_fails(users: Seq<User>, rows: Seq<SessionRecord>,
    p: TokenData, q: TokenData, now: crate::account::Timestamp)
    requires
        rows.len() == 1,
        resolve_spec(rows, p, now) is Some,
        q != p,
    ensures
        bearer_payload_outcome(users, rows, q, now) is None,
{
    match resolve_spec(rows, p, now) {
        Some(rec) => {
            lemma_resolve_matches_exactly(rows, p, now);
            lemma_altered_payload_not_resolved(users, rows, rec, p, q, now);
        },
        None => {},
    }
}

/// Authenticate Basic credentials: base64-decode, read as UTF-8, split on
/// the first space into username and password, look the account up, verify.
pub fn read_basic_auth_token(users: &UserTable, token: &str) -> (r: Option<User>)
    ensures
        forall|creds: Seq<u8>| token@ == base64_of(creds) ==> r == basic_outcome(
            users.users@,
            creds,
        ),
        (forall|creds: Seq<u8>| token@ != base64_of(creds)) ==> r is None,
{
    let data = match base64_decode(token) {
        Some(v) => v,
        None => {
            return None;
        },
    };
    let decoded = match string_from_utf8(data) {
        Some(s) => s,
        None => {
            return None;
        },
    };
    let (login_username, login_password) = match split_once_space(decoded.as_str()) {
        Some(p) => p,
        None => {
            return None;
        },
    };
    let user = match users.get_by_username(login_username) {
        Some(u) => u,
        None => {
            return None;
        },
    };
    let password_valid = user.verify_cleartext_password(login_password);
    match password_valid {
        Some(true) => Some(user),
        _ => None,
    }
}

/// Authenticate an opaque Bearer token: decode it, resolve the payload's
/// triple against the session store, and load the account it names.
pub fn read_bearer_auth_token(users: &UserTable, tokens: &TokenStore, key: &AesKey,
    token: &str, now: crate::account::Timestamp) -> (r: Option<User>)
    requires
        key.wf(),
    ensures
        forall|t: TokenData| token@ == spec_encode(key@, t) ==> r == bearer_payload_outcome(
            users.users@,
            tokens.rows@,
            t,
            now,
        ),
        (forall|t: TokenData| token@ != spec_encode(key@, t)) ==> r is None,
{
    let data = match TokenData::decode(token, key) {
        Some(d) => d,
        None => {
            return None;
        },
    };
    let token_info = match tokens.resolve(&data, now) {
        Some(rec) => rec,
        None => {
            return None;
        },
    };
    users.get_by_pid(token_info.pid)
}

/// A resolved principal: the account plus (in the type) the policy the
/// request was resolved under. With `FORCE_BEARER_AUTH`, Basic is rejected
/// even when syntactically valid and matching live credentials.
#[derive(Debug)]
pub struct Auth<const FORCE_BEARER_AUTH: bool>(pub User);

impl<const FORCE_BEARER_AUTH: bool> Auth<FORCE_BEARER_AUTH> {
    /// Whether a result reports exactly a given optional account, with every
    /// failure collapsed to the generic error.
    pub open spec fn reflects(r: Result<Auth<FORCE_BEARER_AUTH>, ServiceError>,
        o: Option<User>) -> bool {
        match o {
            Some(u) => r matches Ok(a) && a.0 == u,
            None => r is Err,
        }
    }

    /// Resolve an `Authorization` header to a principal. Every failure is
    /// the single generic invalid-token error.
    pub fn from_header(users: &UserTable, tokens: &TokenStore, key: &AesKey,
        header: Option<&str>, now: crate::account::Timestamp) -> (r: Result<
        Auth<FORCE_BEARER_AUTH>,
        ServiceError,
    >)
        requires
            key.wf(),
        ensures
            r matches Err(e) ==> e == ServiceError::InvalidToken,
            match header {
                None => r is Err,
                Some(h) => match parse_header(h@) {
                    None => r is Err,
                    Some((scheme, creds)) => match scheme {
                        AuthScheme::Unknown => r is Err,
                        AuthScheme::Basic => {
                            &&& FORCE_BEARER_AUTH ==> r is Err
                            &&& !FORCE_BEARER_AUTH ==> {
                                &&& forall|b: Seq<u8>| creds == base64_of(b)
                                    ==> Self::reflects(r, basic_outcome(users.users@, b))
                                &&& (forall|b: Seq<u8>| creds != base64_of(b)) ==> r is Err
                            }
                        },
                        AuthScheme::Bearer => {
                            &&& forall|t: TokenData| creds == spec_encode(key@, t)
                                ==> Self::reflects(
                                    r,
                                    bearer_payload_outcome(users.users@, tokens.rows@, t, now),
                                )
                            &&& (forall|t: TokenData| creds != spec_encode(key@, t)) ==> r
                                is Err
                        },
                    },
                },
            },
    {
        let h = match header {
            Some(h) => h,
            None => {
                return Err(ServiceError::InvalidToken);
            },
        };
        let (auth_type, token) = match split_once_space(h) {
            Some(p) => p,
            None => {
                return Err(ServiceError::InvalidToken);
            },
        };
        let user = match classify_scheme(auth_type) {
            AuthScheme::Basic => {
                if FORCE_BEARER_AUTH {
                    return Err(ServiceError::InvalidToken);
                }
                read_basic_auth_token(users, token)
            },
            AuthScheme::Bearer => read_bearer_auth_token(users, tokens, key, token, now),
            AuthScheme::Unknown => {
                return Err(ServiceError::InvalidToken);
            },
        };
        match user {
            Some(u) => Ok(Auth(u)),
            None => Err(ServiceError::InvalidToken),
        }
    }

    /// Give the principal's account up.
    pub fn into_user(self) -> (r: User)
        ensures
            r == self.0,
    {
        self.0
    }
}

} // verus!
