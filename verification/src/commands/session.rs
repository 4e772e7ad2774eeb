//! The session the user interface starts with.

use vstd::prelude::*;

verus! {

/// The user and household the application works as.
#[derive(Debug, Clone)]
pub struct SessionInfo {
    pub user_id: String,
    pub household_id: String,
}

impl SessionInfo {
    /// The session of a (user id, household id) pair.
    pub fn from_ids(ids: (String, String)) -> (s: SessionInfo)
        ensures
            s.user_id@ == ids.0@,
            s.household_id@ == ids.1@,
    {
        let (user_id, household_id) = ids;
        SessionInfo { user_id, household_id }
    }
}

} // verus!
