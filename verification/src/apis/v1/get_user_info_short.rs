//! The profile at a glance: it is read once, when the user logs in, and
//! given out from the session credential from then on.

use crate::types::{AuthToken, UserProfileShortData};
use vstd::prelude::*;

verus! {

pub const API_PATH: &'static str = "/v1/getUserInfoShort";

/// The answer to a request for the profile at a glance: the profile that
/// the session credential holds. The portal is not asked.
pub fn respond(credential: AuthToken) -> (answer: UserProfileShortData)
    ensures
        answer.message@ == "Get user profile short successful"@,
        answer.data == credential.user_data,
{
    UserProfileShortData {
        message: "Get user profile short successful".to_owned(),
        data: credential.user_data,
    }
}

} // verus!
