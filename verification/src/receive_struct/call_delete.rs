use vstd::prelude::*;
#[allow(unused_imports)]
use crate::snowflake::SnowflakeID;

verus! {

/// Gateway payload `CallDeleteData` (call delete), as the fields the client reads.
#[derive(Clone, Debug)]
pub struct CallDeleteData {
    pub channel_id: SnowflakeID,
}

} // verus!
