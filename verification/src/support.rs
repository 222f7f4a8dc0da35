//! Support endpoints: email validation and the email confirmation check.

use vstd::prelude::*;
use crate::account::{User, UserTable, Timestamp, find_by_pid};
use crate::error::ServiceError;

verus! {

/// The form an email-validation request arrives in.
pub struct ValidateEmailInput {
    pub email: String,
}

/// The validation endpoint acknowledges the address without further work, as
/// the service always has.
pub fn validate(_data: &ValidateEmailInput) {
}

/// Confirm an email address: the code must match the one stored for the
/// account, and then the address is marked verified as of now. A missing
/// account, a missing stored code and a wrong code are all the same error.
pub fn verify_email(database: &mut UserTable, pid: i32, code: i32, now: Timestamp) -> (r:
    Result<(), ServiceError>)
    requires
        old(database).wf(),
    ensures
        final(database).wf(),
        r matches Err(e) ==> e == ServiceError::BadVerificationCode,
        r is Err ==> *final(database) == *old(database),
        match find_by_pid(old(database).users@, pid as int) {
            None => r is Err,
            Some(u) => match u.verification_code {
                None => r is Err,
                Some(stored) => {
                    if stored == code {
                        &&& r is Ok
                        &&& final(database).users@.len() == old(database).users@.len()
                        &&& forall|j: int|
                            0 <= j < old(database).users@.len() && old(
                                database,
                            ).users@[j].pid != pid ==> final(database).users@[j] == old(
                                database,
                            ).users@[j]
                        &&& forall|j: int|
                            0 <= j < old(database).users@.len() && old(
                                database,
                            ).users@[j].pid == pid ==> final(database).users@[j] == (User {
                            email_verified_since: Some(now),
                            ..old(database).users@[j]
                        })
                    } else {
                        r is Err
                    }
                },
            },
        },
{
    let record = match database.get_by_pid(pid) {
        Some(u) => u,
        None => {
            return Err(ServiceError::BadVerificationCode);
        },
    };
    match record.verification_code {
        Some(stored) => {
            if stored == code {
                database.set_email_verified(pid, now);
                Ok(())
            } else {
                Err(ServiceError::BadVerificationCode)
            }
        },
        None => Err(ServiceError::BadVerificationCode),
    }
}

} // verus!
