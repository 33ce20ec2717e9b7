use vstd::prelude::*;
#[allow(unused_imports)]
use crate::snowflake::SnowflakeID;

verus! {

/// Gateway payload `MessageAck` (message ack), as the fields the client reads.
#[derive(Clone, Debug)]
pub struct MessageAck {
    pub version: i64,
    pub message_id: SnowflakeID,
    pub last_viewed: i64,
    pub flags: i64,
    pub channel_id: SnowflakeID,
}

} // verus!
