//! Users as the front end sees them.

use vstd::prelude::*;
use vstd::string::*;

use crate::tables::User;

verus! {

/// What a request to create a user brings.
#[derive(Clone, Debug, PartialEq)]
pub struct UserPayload {
    pub username: Option<String>,
    pub email: String,
    pub password: String,
}

/// What is kept about a user besides the account.
#[derive(Clone, Debug, PartialEq)]
pub struct StoredUserMeta {
    pub job_title: String,
}

/// A user with all that the front end shows of one.
#[derive(Debug, Clone, PartialEq)]
pub struct DenormalizedUser {
    pub id: u128,
    pub created: chrono::NaiveDateTime,
    pub username: String,
    pub job_title: String,
    pub job_id: Option<String>,
}

/// The job title shown for a user that has none on record.
pub const TITLE_MISSING: &'static str = "Title Not Set";

impl DenormalizedUser {
    /// The user as the front end sees it. The name is the one of the
    /// account, or else the e-mail address; the job title is the one on
    /// record, or else `TITLE_MISSING`.
    pub fn denormalize(user: User, account_name: Option<String>, meta: Option<StoredUserMeta>) -> (shown:
        DenormalizedUser)
        ensures
            shown.id == user.id,
            shown.created == user.created,
            shown.username@ == (match account_name {
                Some(name) => name@,
                None => user.email@,
            }),
            shown.job_title@ == (match meta {
                Some(meta) => meta.job_title@,
                None => TITLE_MISSING@,
            }),
            shown.job_id is None,
    {
        let username = match account_name {
            Some(name) => name,
            None => user.email,
        };
        let job_title = match meta {
            Some(meta) => meta.job_title,
            None => String::from_str(TITLE_MISSING),
        };
        DenormalizedUser { id: user.id, created: user.created, username, job_title, job_id: None }
    }
}

} // verus!
