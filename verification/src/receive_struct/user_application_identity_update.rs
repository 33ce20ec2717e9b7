use vstd::prelude::*;
#[allow(unused_imports)]
use crate::snowflake::SnowflakeID;

verus! {

/// Gateway payload `UserApplicationIdentityUpdate` (user application identity update), as the fields the client reads.
#[derive(Clone, Debug)]
pub struct UserApplicationIdentityUpdate {
    pub username: String,
    pub user_id: SnowflakeID,
    pub application_id: SnowflakeID,
}

} // verus!
