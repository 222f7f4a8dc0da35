//! The credential record and the users relation it lives in.
//!
//! Calendar dates and timestamps are carried as plain values (year, month,
//! day; seconds); the callers convert at the edge. The relation itself is
//! modelled in memory: pids and usernames are unique, exactly the constraints
//! the deployment's store enforces.

use vstd::prelude::*;
use crate::crypto::bcrypt_verify_of;
use crate::password::{generate_nintendo_hash, verify_cleartext, spec_verify_cleartext};
use crate::text::str_eq;

verus! {

/// A calendar date as plain values.
#[derive(Clone, Copy, PartialEq, Eq, Structural, Debug)]
pub struct Date {
    pub year: i32,
    pub month: u8,
    pub day: u8,
}

/// A point in time, as seconds of the Unix epoch.
#[derive(Clone, Copy, PartialEq, Eq, Structural, Debug)]
pub struct Timestamp {
    pub secs: i64,
}

/// One row of the users relation.
#[derive(Debug)]
pub struct User {
    pub pid: i32,
    pub username: String,
    pub password: String,
    pub birthdate: Date,
    pub timezone: String,
    pub email: String,
    pub account_level: i32,
    pub email_verified_since: Option<Timestamp>,
    pub gender: String,
    pub country: String,
    pub language: String,
    pub marketing_allowed: bool,
    pub off_device_allowed: bool,
    pub region: i32,
    pub mii_data: String,
    pub creation_date: Timestamp,
    pub updated: Timestamp,
    pub nex_password: String,
    pub verification_code: Option<i32>,
}

impl Clone for User {
    fn clone(&self) -> (r: Self)
        ensures
            r == *self,
    {
        User {
            pid: self.pid,
            username: self.username.clone(),
            password: self.password.clone(),
            birthdate: self.birthdate,
            timezone: self.timezone.clone(),
            email: self.email.clone(),
            account_level: self.account_level,
            email_verified_since: self.email_verified_since,
            gender: self.gender.clone(),
            country: self.country.clone(),
            language: self.language.clone(),
            marketing_allowed: self.marketing_allowed,
            off_device_allowed: self.off_device_allowed,
            region: self.region,
            mii_data: self.mii_data.clone(),
            creation_date: self.creation_date,
            updated: self.updated,
            nex_password: self.nex_password.clone(),
            verification_code: self.verification_code,
        }
    }
}

impl User {
    /// The legacy transform under this account's pid.
    pub fn generate_nintendo_hash(&self, text_password: &str) -> (r: String)
        ensures
            r@ == crate::password::nintendo_hash_chars(self.pid, text_password@),
    {
        generate_nintendo_hash(self.pid, text_password)
    }

    /// Check a cleartext candidate: legacy transform, then the adaptive
    /// scheme against the stored hash. A malformed stored hash is None.
    pub fn verify_cleartext_password(&self, cleartext_password: &str) -> (r: Option<bool>)
        ensures
            r == spec_verify_cleartext(self.password@, self.pid, cleartext_password@),
    {
        verify_cleartext(self.password.as_str(), self.pid, cleartext_password)
    }

    /// Check a candidate that is already the legacy-hash-equivalent string
    /// (used by flows that never see the cleartext).
    pub fn verify_hashed_password(&self, hashed_password: &str) -> (r: Option<bool>)
        ensures
            r == bcrypt_verify_of(hashed_password@, self.password@),
    {
        crate::crypto::bcrypt_verify(hashed_password, self.password.as_str())
    }
}

/// The first row with the given username, if any.
pub open spec fn find_by_username(s: Seq<User>, name: Seq<char>) -> Option<User>
    decreases s.len(),
{
    if s.len() == 0 {
        None
    } else if s.first().username@ == name {
        Some(s.first())
    } else {
        find_by_username(s.drop_first(), name)
    }
}

/// The first row with the given pid, if any.
pub open spec fn find_by_pid(s: Seq<User>, pid: int) -> Option<User>
    decreases s.len(),
{
    if s.len() == 0 {
        None
    } else if s.first().pid == pid {
        Some(s.first())
    } else {
        find_by_pid(s.drop_first(), pid)
    }
}

/// Whether some row carries the given pid.
pub open spec fn contains_pid(s: Seq<User>, pid: int) -> bool {
    exists|i: int| 0 <= i < s.len() && s[i].pid == pid
}

pub proof fn lemma_find_by_pid_contains(s: Seq<User>, pid: int)
    ensures
        (find_by_pid(s, pid) is Some) == contains_pid(s, pid),
        find_by_pid(s, pid) matches Some(u) ==> u.pid == pid,
    decreases s.len(),
{
    if s.len() > 0 {
        lemma_find_by_pid_contains(s.drop_first(), pid);
        if s.first().pid == pid {
            assert(s[0].pid == pid);
        } else {
            if contains_pid(s.drop_first(), pid) {
                let i = choose|i: int|
                    0 <= i < s.drop_first().len() && s.drop_first()[i].pid == pid;
                assert(s[i + 1].pid == pid);
            }
            if contains_pid(s, pid) {
                let i = choose|i: int| 0 <= i < s.len() && s[i].pid == pid;
                assert(s.drop_first()[i - 1].pid == pid);
            }
        }
    }
}

/// The in-memory model of the users relation.
pub struct UserTable {
    pub users: Vec<User>,
}

impl UserTable {
    /// The store's constraints: pids and usernames are unique.
    pub open spec fn wf(&self) -> bool {
        forall|i: int, j: int|
            0 <= i < j < self.users@.len() ==> self.users@[i].pid != self.users@[j].pid
                && self.users@[i].username@ != self.users@[j].username@
    }

    pub fn new() -> (r: UserTable)
        ensures
            r.wf(),
            r.users@.len() == 0,
    {
        UserTable { users: Vec::new() }
    }

    /// Look an account up by username.
    pub fn get_by_username(&self, name: &str) -> (r: Option<User>)
        ensures
            r == find_by_username(self.users@, name@),
    {
        let n = self.users.len();
        let mut i: usize = 0;
        proof {
            assert(self.users@.skip(0) =~= self.users@);
        }
        while i < n
            invariant
                i <= n,
                n == self.users@.len(),
                find_by_username(self.users@, name@) == find_by_username(
                    self.users@.skip(i as int),
                    name@,
                ),
            decreases n - i,
        {
            proof {
                assert(self.users@.skip(i as int).drop_first() =~= self.users@.skip(i + 1));
                assert(self.users@.skip(i as int).first() == self.users@[i as int]);
            }
            if str_eq(self.users[i].username.as_str(), name) {
                return Some(self.users[i].clone());
            }
            i = i + 1;
        }
        proof {
            assert(self.users@.skip(n as int) =~= Seq::<User>::empty());
        }
        None
    }

    /// Look an account up by pid.
    pub fn get_by_pid(&self, pid: i32) -> (r: Option<User>)
        ensures
            r == find_by_pid(self.users@, pid as int),
    {
        let n = self.users.len();
        let mut i: usize = 0;
        proof {
            assert(self.users@.skip(0) =~= self.users@);
        }
        while i < n
            invariant
                i <= n,
                n == self.users@.len(),
                find_by_pid(self.users@, pid as int) == find_by_pid(
                    self.users@.skip(i as int),
                    pid as int,
                ),
            decreases n - i,
        {
            proof {
                assert(self.users@.skip(i as int).drop_first() =~= self.users@.skip(i + 1));
                assert(self.users@.skip(i as int).first() == self.users@[i as int]);
            }
            if self.users[i].pid == pid {
                return Some(self.users[i].clone());
            }
            i = i + 1;
        }
        proof {
            assert(self.users@.skip(n as int) =~= Seq::<User>::empty());
        }
        None
    }

    /// Whether a username is taken.
    pub fn username_exists(&self, name: &str) -> (r: bool)
        ensures
            r == (find_by_username(self.users@, name@) is Some),
    {
        self.get_by_username(name).is_some()
    }

    /// Whether a pid is taken.
    pub fn pid_exists(&self, pid: i32) -> (r: bool)
        ensures
            r == contains_pid(self.users@, pid as int),
    {
        let r = self.get_by_pid(pid);
        proof {
            lemma_find_by_pid_contains(self.users@, pid as int);
        }
        r.is_some()
    }

    /// Insert a fresh row; the store rejects duplicate keys, so the caller
    /// has checked both.
    pub fn insert(&mut self, user: User)
        requires
            old(self).wf(),
            !contains_pid(old(self).users@, user.pid as int),
            find_by_username(old(self).users@, user.username@) is None,
        ensures
            final(self).wf(),
            final(self).users@ == old(self).users@.push(user),
    {
        proof {
            lemma_find_none_no_username(old(self).users@, user.username@);
        }
        self.users.push(user);
    }

    /// Overwrite the stored rendering data of the account with the given
    /// pid; reports whether a row matched.
    pub fn set_mii_data(&mut self, pid: i32, mii_data: String) -> (r: bool)
        requires
            old(self).wf(),
        ensures
            final(self).wf(),
            r == contains_pid(old(self).users@, pid as int),
            final(self).users@.len() == old(self).users@.len(),
            forall|j: int|
                0 <= j < old(self).users@.len() && old(self).users@[j].pid != pid ==> final(self).users@[j] == old(self).users@[j],
            forall|j: int|
                0 <= j < old(self).users@.len() && old(self).users@[j].pid == pid ==> final(self).users@[j] == (User { mii_data: mii_data, ..old(self).users@[j] }),
    {
        let n = self.users.len();
        let mut i: usize = 0;
        while i < n
            invariant
                i <= n,
                n == self.users@.len(),
                *self == *old(self),
                old(self).wf(),
                forall|j: int| 0 <= j < i ==> self.users@[j].pid != pid,
            decreases n - i,
        {
            if self.users[i].pid == pid {
                let mut u = self.users[i].clone();
                u.mii_data = mii_data;
                self.users.set(i, u);
                proof {
                    let s0 = old(self).users@;
                    let s1 = self.users@;
                    assert forall|j: int| 0 <= j < s0.len() && s0[j].pid == pid implies s1[j]
                        == (User { mii_data: mii_data, ..s0[j] }) by {
                        if j < i {
                            assert(s0[j].pid != s0[i as int].pid);
                        } else if j > i {
                            assert(s0[i as int].pid != s0[j].pid);
                        }
                    }
                    assert forall|a: int, b: int| 0 <= a < b < s1.len() implies s1[a].pid
                        != s1[b].pid && s1[a].username@ != s1[b].username@ by {
                        assert(s0[a].pid != s0[b].pid && s0[a].username@ != s0[b].username@);
                    }
                }
                return true;
            }
            i = i + 1;
        }
        false
    }

    /// Mark the email of the account with the given pid as verified at the
    /// given moment; reports whether a row matched.
    pub fn set_email_verified(&mut self, pid: i32, at: Timestamp) -> (r: bool)
        requires
            old(self).wf(),
        ensures
            final(self).wf(),
            r == contains_pid(old(self).users@, pid as int),
            final(self).users@.len() == old(self).users@.len(),
            forall|j: int|
                0 <= j < old(self).users@.len() && old(self).users@[j].pid != pid ==> final(self).users@[j] == old(self).users@[j],
            forall|j: int|
                0 <= j < old(self).users@.len() && old(self).users@[j].pid == pid ==> final(self).users@[j] == (User {
                    email_verified_since: Some(at),
                    ..old(self).users@[j]
                }),
    {
        let n = self.users.len();
        let mut i: usize = 0;
        while i < n
            invariant
                i <= n,
                n == self.users@.len(),
                *self == *old(self),
                old(self).wf(),
                forall|j: int| 0 <= j < i ==> self.users@[j].pid != pid,
            decreases n - i,
        {
            if self.users[i].pid == pid {
                let mut u = self.users[i].clone();
                u.email_verified_since = Some(at);
                self.users.set(i, u);
                proof {
                    let s0 = old(self).users@;
                    let s1 = self.users@;
                    assert forall|j: int| 0 <= j < s0.len() && s0[j].pid == pid implies s1[j]
                        == (User { email_verified_since: Some(at), ..s0[j] }) by {
                        if j < i {
                            assert(s0[j].pid != s0[i as int].pid);
                        } else if j > i {
                            assert(s0[i as int].pid != s0[j].pid);
                        }
                    }
                    assert forall|a: int, b: int| 0 <= a < b < s1.len() implies s1[a].pid
                        != s1[b].pid && s1[a].username@ != s1[b].username@ by {
                        assert(s0[a].pid != s0[b].pid && s0[a].username@ != s0[b].username@);
                    }
                }
                return true;
            }
            i = i + 1;
        }
        false
    }
}

proof fn lemma_find_none_no_username(s: Seq<User>, name: Seq<char>)
    requires
        find_by_username(s, name) is None,
    ensures
        forall|i: int| 0 <= i < s.len() ==> s[i].username@ != name,
    decreases s.len(),
{
    if s.len() > 0 {
        lemma_find_none_no_username(s.drop_first(), name);
        assert forall|i: int| 0 <= i < s.len() implies s[i].username@ != name by {
            if i > 0 {
                assert(s.drop_first()[i - 1] == s[i]);
            }
        }
    }
}

} // verus!
