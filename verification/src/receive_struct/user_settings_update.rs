use vstd::prelude::*;
#[allow(unused_imports)]
use crate::snowflake::SnowflakeID;

verus! {

/// Gateway payload `UserSettingsUpdateData` (user settings update), as the fields the client reads.
#[derive(Clone, Debug)]
pub struct UserSettingsUpdateData {
    pub custom_status: String,
}

} // verus!
