//! The token store: server-side session rows backing issued tokens.
//!
//! A row is matched only by the exact triple (token_id, pid, random) — no two
//! of the three alone authenticate — and refresh-class rows past their expiry
//! resolve as not found. Rows are created at issuance with a store-assigned
//! unique token_id and never updated.

use vstd::prelude::*;
use crate::account::Timestamp;
use crate::codec::{AesKey, TokenData, spec_encode};

verus! {

/// The closed set of session classes.
#[derive(Clone, Copy, PartialEq, Eq, Structural, Debug)]
pub enum TokenType {
    /// Long-lived, used to mint new access tokens; the only class whose
    /// expiry is checked.
    AuthRefresh,
    /// Short-lived access.
    Auth,
    /// Handed to a third-party game server.
    Nex,
}

impl TokenType {
    /// The stored discriminant.
    pub open spec fn spec_code(self) -> i32 {
        match self {
            TokenType::AuthRefresh => 0,
            TokenType::Auth => 1,
            TokenType::Nex => 2,
        }
    }

    pub fn code(&self) -> (r: i32)
        ensures
            r == self.spec_code(),
    {
        match self {
            TokenType::AuthRefresh => 0,
            TokenType::Auth => 1,
            TokenType::Nex => 2,
        }
    }
}

/// One session row.
#[derive(Debug)]
pub struct SessionRecord {
    pub token_id: i64,
    pub pid: i32,
    pub random: i32,
    pub token_type: TokenType,
    pub title_id: Option<String>,
    pub expires: Option<Timestamp>,
}

impl Clone for SessionRecord {
    fn clone(&self) -> (r: Self)
        ensures
            r == *self,
    {
        SessionRecord {
            token_id: self.token_id,
            pid: self.pid,
            random: self.random,
            token_type: self.token_type,
            title_id: match &self.title_id {
                Some(t) => Some(t.clone()),
                None => None,
            },
            expires: self.expires,
        }
    }
}

/// Whether a row backs the given payload: all three of token_id, pid and
/// random must match.
pub open spec fn matches_triple(rec: SessionRecord, t: TokenData) -> bool {
    rec.token_id == t.token_id && rec.pid == t.pid && rec.random == t.random
}

/// A row is matched by at most one payload: two payloads that both match
/// the same row agree on all three fields, so altering any single field of a
/// matched payload loses the row.
pub proof fn lemma_matches_triple_unique(rec: SessionRecord, t1: TokenData, t2: TokenData)
    requires
        matches_triple(rec, t1),
        matches_triple(rec, t2),
    ensures
        t1 == t2,
{
}

/// The first row matching the payload's triple, if any.
pub open spec fn find_triple(s: Seq<SessionRecord>, t: TokenData) -> Option<SessionRecord>
    decreases s.len(),
{
    if s.len() == 0 {
        None
    } else if matches_triple(s.first(), t) {
        Some(s.first())
    } else {
        find_triple(s.drop_first(), t)
    }
}

/// Whether a row still authenticates at the given moment: only refresh-class
/// rows expire, and only when a past expiry is stored.
pub open spec fn is_live(rec: SessionRecord, now: Timestamp) -> bool {
    !(rec.token_type == TokenType::AuthRefresh && match rec.expires {
        Some(e) => e.secs < now.secs,
        None => false,
    })
}

/// What resolving a payload returns: the row matched by the exact triple,
/// unless it is a refresh-class row past its expiry.
pub open spec fn resolve_spec(s: Seq<SessionRecord>, t: TokenData, now: Timestamp)
    -> Option<SessionRecord> {
    match find_triple(s, t) {
        Some(rec) => if is_live(rec, now) {
            Some(rec)
        } else {
            None
        },
        None => None,
    }
}

proof fn lemma_find_triple_props(s: Seq<SessionRecord>, t: TokenData)
    ensures
        find_triple(s, t) matches Some(rec) ==> matches_triple(rec, t) && exists|i: int|
            0 <= i < s.len() && s[i] == rec,
    decreases s.len(),
{
    if s.len() > 0 && !matches_triple(s.first(), t) {
        lemma_find_triple_props(s.drop_first(), t);
        match find_triple(s, t) {
            Some(rec) => {
                let i = choose|i: int|
                    0 <= i < s.drop_first().len() && s.drop_first()[i] == rec;
                assert(s[i + 1] == rec);
            },
            None => {},
        }
    } else if s.len() > 0 {
        assert(s[0] == s.first());
    }
}

/// Where no stored row matches a payload's triple, lookup finds nothing.
pub proof fn lemma_no_match_find_none(s: Seq<SessionRecord>, t: TokenData)
    requires
        forall|i: int| 0 <= i < s.len() ==> !matches_triple(s[i], t),
    ensures
        find_triple(s, t) is None,
    decreases s.len(),
{
    if s.len() > 0 {
        assert(!matches_triple(s[0], t));
        assert forall|i: int| 0 <= i < s.drop_first().len() implies !matches_triple(
            s.drop_first()[i],
            t,
        ) by {
            assert(s.drop_first()[i] == s[i + 1]);
        }
        lemma_no_match_find_none(s.drop_first(), t);
    }
}

/// Resolution is by the exact triple: whatever resolves is a stored row that
/// agrees with the payload on all three of token_id, pid and random — no two
/// of the three are sufficient.
pub proof fn lemma_resolve_matches_exactly(s: Seq<SessionRecord>, t: TokenData, now: Timestamp)
    ensures
        resolve_spec(s, t, now) matches Some(rec) ==> matches_triple(rec, t) && exists|i: int|
            0 <= i < s.len() && s[i] == rec,
{
    lemma_find_triple_props(s, t);
}

/// A refresh-class session whose stored expiry is past resolves as not
/// found, even with a fully matching triple.
pub proof fn lemma_stale_refresh_not_resolved(s: Seq<SessionRecord>, t: TokenData,
    now: Timestamp)
    requires
        ({
            &&& find_triple(s, t) matches Some(rec)
            &&& rec.token_type == TokenType::AuthRefresh
            &&& rec.expires matches Some(e)
            &&& e.secs < now.secs
        }),
    ensures
        resolve_spec(s, t, now) is None,
{
}

/// The in-memory model of the sessions relation, with the store's sequence
/// that assigns token ids.
pub struct TokenStore {
    pub rows: Vec<SessionRecord>,
    pub next_token_id: i64,
}

impl TokenStore {
    /// Token ids are store-assigned and unique: every row sits below the
    /// sequence, and no two rows share an id.
    pub open spec fn wf(&self) -> bool {
        &&& forall|i: int|
            0 <= i < self.rows@.len() ==> #[trigger] self.rows@[i].token_id
                < self.next_token_id
        &&& forall|i: int, j: int|
            0 <= i < j < self.rows@.len() ==> self.rows@[i].token_id != self.rows@[j].token_id
    }

    pub fn new() -> (r: TokenStore)
        ensures
            r.wf(),
            r.rows@.len() == 0,
            r.next_token_id == 1,
    {
        TokenStore { rows: Vec::new(), next_token_id: 1 }
    }

    /// Insert a new session row with a store-assigned unique token_id and
    /// the given nonce, class, title and expiry; the returned payload is
    /// what the codec will encipher.
    pub fn issue(&mut self, pid: i32, token_type: TokenType, title_id: Option<String>,
        random: i32, expires: Option<Timestamp>) -> (r: TokenData)
        requires
            old(self).wf(),
            old(self).next_token_id < i64::MAX,
        ensures
            final(self).wf(),
            r == (TokenData { pid, random, token_id: old(self).next_token_id }),
            final(self).rows@ == old(self).rows@.push(SessionRecord {
                token_id: old(self).next_token_id,
                pid,
                random,
                token_type,
                title_id,
                expires,
            }),
            final(self).next_token_id == old(self).next_token_id + 1,
    {
        let token_id = self.next_token_id;
        self.next_token_id = token_id + 1;
        self.rows.push(SessionRecord { token_id, pid, random, token_type, title_id, expires });
        TokenData { pid, random, token_id }
    }

    /// The row backing the payload's exact triple, with no expiry check.
    pub fn lookup_triple(&self, t: &TokenData) -> (r: Option<SessionRecord>)
        ensures
            r == find_triple(self.rows@, *t),
    {
        let n = self.rows.len();
        let mut i: usize = 0;
        proof {
            assert(self.rows@.skip(0) =~= self.rows@);
        }
        while i < n
            invariant
                i <= n,
                n == self.rows@.len(),
                find_triple(self.rows@, *t) == find_triple(self.rows@.skip(i as int), *t),
            decreases n - i,
        {
            proof {
                assert(self.rows@.skip(i as int).drop_first() =~= self.rows@.skip(i + 1));
                assert(self.rows@.skip(i as int).first() == self.rows@[i as int]);
            }
            let rec = &self.rows[i];
            if rec.token_id == t.token_id && rec.pid == t.pid && rec.random == t.random {
                return Some(self.rows[i].clone());
            }
            i = i + 1;
        }
        proof {
            assert(self.rows@.skip(n as int) =~= Seq::<SessionRecord>::empty());
        }
        None
    }

    /// Resolve a decoded payload against the store: the exact triple must
    /// match one row, and a refresh-class row past its stored expiry is
    /// NotFound (None) even with a fully matching triple.
    pub fn resolve(&self, t: &TokenData, now: Timestamp) -> (r: Option<SessionRecord>)
        ensures
            r == resolve_spec(self.rows@, *t, now),
    {
        match self.lookup_triple(t) {
            Some(rec) => {
                let expired = match (rec.token_type, &rec.expires) {
                    (TokenType::AuthRefresh, Some(e)) => e.secs < now.secs,
                    _ => false,
                };
                if expired {
                    None
                } else {
                    Some(rec)
                }
            },
            None => None,
        }
    }
}

/// What issuing one session row leaves behind, whatever nonce was drawn:
/// the row is appended with the store-assigned id and the given class, title
/// and expiry.
pub open spec fn spec_created_row(old_store: TokenStore, new_store: TokenStore, pid: i32,
    token_type: TokenType, title_id: Option<String>, expires: Option<Timestamp>) -> bool {
    &&& new_store.next_token_id == old_store.next_token_id + 1
    &&& new_store.rows@.len() == old_store.rows@.len() + 1
    &&& new_store.rows@.drop_last() == old_store.rows@
    &&& new_store.rows@.last() == (SessionRecord {
        token_id: old_store.next_token_id,
        pid,
        random: new_store.rows@.last().random,
        token_type,
        title_id,
        expires,
    })
}

/// What `create_token` leaves behind: one issued row, and the returned
/// string is exactly the encoding of the stored triple.
pub open spec fn spec_created_token(old_store: TokenStore, new_store: TokenStore,
    key: Seq<u8>, pid: i32, token_type: TokenType, title_id: Option<String>,
    expires: Option<Timestamp>, token: Seq<char>) -> bool {
    &&& spec_created_row(old_store, new_store, pid, token_type, title_id, expires)
    &&& token == spec_encode(
        key,
        TokenData {
            pid,
            random: new_store.rows@.last().random,
            token_id: old_store.next_token_id,
        },
    )
}

/// Issue a session of the given class for an account and hand back the
/// opaque encoded token: a fresh nonce is drawn, the row is inserted with the
/// store-assigned id, and the returned string is exactly the encoding of the
/// stored triple.
pub fn create_token(store: &mut TokenStore, key: &AesKey, pid: i32, token_type: TokenType,
    title_id: Option<String>, expires: Option<Timestamp>) -> (r: String)
    requires
        old(store).wf(),
        old(store).next_token_id < i64::MAX,
        key.wf(),
    ensures
        final(store).wf(),
        spec_created_token(
            *old(store),
            *final(store),
            key@,
            pid,
            token_type,
            title_id,
            expires,
            r@,
        ),
{
    let nonce: i32 = crate::random::random_i32();
    let payload = store.issue(pid, token_type, title_id, nonce, expires);
    proof {
        assert(store.rows@.drop_last() =~= old(store).rows@);
    }
    payload.encode(key)
}

} // verus!
