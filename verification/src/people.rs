//! Account creation and the endpoints that change a person's stored data.

use vstd::prelude::*;
use crate::account::{User, UserTable, Date, Timestamp, contains_pid, find_by_username};
use crate::crypto::bcrypt_verify_of;
use crate::error::ServiceError;
use crate::password::{generate_password, nintendo_hash_chars};
use crate::pid_distribution::{PidAllocator, next_pid, count_ge};
use crate::random::random_verification_code;
use crate::xml::YesNoVal;

verus! {

/// The email element of a creation request.
pub struct Email {
    pub address: String,
}

/// The character element of a creation request.
pub struct Mii {
    pub name: String,
    pub primary: YesNoVal,
    pub data: String,
}

/// The body of a change-character request.
pub struct UpdateMiiData {
    pub name: String,
    pub primary: YesNoVal,
    pub data: String,
}

/// The body of an account-creation request, already read off the wire.
pub struct AccountCreationData {
    pub birth_date: Date,
    pub user_id: String,
    pub password: String,
    pub country: String,
    pub language: String,
    pub tz_name: String,
    pub email: Email,
    pub mii: Mii,
    pub gender: String,
    pub marketing_flag: YesNoVal,
    pub off_device_flag: YesNoVal,
    pub region: i32,
}

/// The body of a successful creation response.
pub struct AccountCreationResponseData {
    pub pid: i32,
}

/// Create an account: allocate a fresh pid, hash the password under it,
/// draw a verification code, and insert the row. The caller sends the
/// verification email afterwards, reading the code back off the row.
///
/// The store would refuse a duplicate username, so a free one is required;
/// `person_exists` is the check callers use first.
pub fn create_account(database: &mut UserTable, alloc: &mut PidAllocator,
    data: AccountCreationData, now: Timestamp) -> (r: Result<
    AccountCreationResponseData,
    Option<ServiceError>,
>)
    requires
        old(database).wf(),
        find_by_username(old(database).users@, data.user_id@) is None,
        old(alloc).next as int + count_ge(old(database).users@, old(alloc).next as int)
            < i32::MAX as int,
    ensures
        final(database).wf(),
        old(alloc).next <= final(alloc).next,
        match r {
            Ok(resp) => {
                &&& !contains_pid(old(database).users@, resp.pid as int)
                &&& final(database).users@.len() == old(database).users@.len() + 1
                &&& final(database).users@.drop_last() == old(database).users@
                &&& ({
                    let u = final(database).users@.last();
                    &&& u.pid == resp.pid
                    &&& u.username == data.user_id
                    &&& bcrypt_verify_of(
                        nintendo_hash_chars(resp.pid, data.password@),
                        u.password@,
                    ) == Some(true)
                    &&& u.birthdate == data.birth_date
                    &&& u.timezone == data.tz_name
                    &&& u.email == data.email.address
                    &&& u.account_level == 0
                    &&& u.email_verified_since is None
                    &&& u.gender == data.gender
                    &&& u.country == data.country
                    &&& u.language == data.language
                    &&& u.marketing_allowed == data.marketing_flag.0
                    &&& u.off_device_allowed == data.off_device_flag.0
                    &&& u.region == data.region
                    &&& u.mii_data == data.mii.data
                    &&& u.creation_date == now
                    &&& u.updated == now
                    &&& (u.verification_code matches Some(c) && 100000 <= c < 1000000)
                })
            },
            Err(e) => *final(database) == *old(database) && e is None,
        },
{
    let pid = next_pid(alloc, database);
    let verification_code = random_verification_code();
    let AccountCreationData {
        user_id,
        password,
        birth_date,
        tz_name,
        language,
        email: Email { address },
        mii: Mii { data: mii_data, .. },
        marketing_flag,
        gender,
        region,
        country,
        off_device_flag,
        ..
    } = data;
    let hashed = match generate_password(pid, password.as_str()) {
        Some(h) => h,
        None => {
            return Err(None);
        },
    };
    let row = User {
        pid,
        username: user_id,
        password: hashed,
        birthdate: birth_date,
        timezone: tz_name,
        email: address,
        account_level: 0,
        email_verified_since: None,
        gender,
        country,
        language,
        marketing_allowed: marketing_flag.0,
        off_device_allowed: off_device_flag.0,
        region,
        mii_data,
        creation_date: now,
        updated: now,
        nex_password: String::new(),
        verification_code: Some(verification_code),
    };
    database.insert(row);
    Ok(AccountCreationResponseData { pid })
}

/// Replace the primary character data of the authenticated account. The
/// store update touches however many rows match the pid — zero is fine, as
/// in the deployment.
pub fn change_mii(database: &mut UserTable, pid: i32, data: UpdateMiiData) -> (r: Result<
    (),
    Option<ServiceError>,
>)
    requires
        old(database).wf(),
    ensures
        final(database).wf(),
        r is Ok,
        final(database).users@.len() == old(database).users@.len(),
        forall|j: int|
            0 <= j < old(database).users@.len() && old(database).users@[j].pid != pid ==> final(database).users@[j] == old(database).users@[j],
        forall|j: int|
            0 <= j < old(database).users@.len() && old(database).users@[j].pid == pid ==> final(database).users@[j] == (User { mii_data: data.data, ..old(database).users@[j] }),
{
    let UpdateMiiData { data: mii_data, .. } = data;
    database.set_mii_data(pid, mii_data);
    Ok(())
}

/// Whether an account id is still free: the taken case is an error so that
/// the wire layer can answer with the stable code.
pub fn person_exists(database: &UserTable, username: &str) -> (r: Result<(), ServiceError>)
    ensures
        r is Ok <==> find_by_username(database.users@, username@) is None,
        r matches Err(e) ==> e == ServiceError::AccountIdExists,
{
    if database.username_exists(username) {
        Err(ServiceError::AccountIdExists)
    } else {
        Ok(())
    }
}

} // verus!
