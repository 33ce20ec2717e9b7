use vstd::prelude::*;
#[allow(unused_imports)]
use crate::snowflake::SnowflakeID;

verus! {

/// Gateway payload `ChannelUnreadUpdate` (channel unread update), as the fields the client reads.
#[derive(Clone, Debug)]
pub struct ChannelUnreadUpdate {
    pub guild_id: SnowflakeID,
    pub channel_unread_updates: Vec<ChannelUnreadEntry>,
}

/// Gateway payload `ChannelUnreadEntry` (channel unread update), as the fields the client reads.
#[derive(Clone, Debug)]
pub struct ChannelUnreadEntry {
    pub id: SnowflakeID,
    pub last_message_id: Option<SnowflakeID>,
}

} // verus!
