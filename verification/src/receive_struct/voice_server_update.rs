use vstd::prelude::*;
#[allow(unused_imports)]
use crate::snowflake::SnowflakeID;

verus! {

/// Gateway payload `VoiceServerUpdateData` (voice server update), as the fields the client reads.
#[derive(Clone, Debug)]
pub struct VoiceServerUpdateData {
    pub token: String,
    pub guild_id: Option<String>,
    pub endpoint: String,
}

} // verus!
