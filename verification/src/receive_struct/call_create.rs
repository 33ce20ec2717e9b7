use vstd::prelude::*;
#[allow(unused_imports)]
use crate::snowflake::SnowflakeID;

verus! {

/// Gateway payload `VoiceStates` (call create), as the fields the client reads.
#[derive(Clone, Debug)]
pub struct VoiceStates {
    pub user_id: SnowflakeID,
    pub suppress: bool,
    pub session_id: String,
    pub self_video: bool,
    pub self_mute: bool,
    pub self_deaf: bool,
    pub mute: bool,
    pub deaf: bool,
    pub channel_id: SnowflakeID,
}

/// Gateway payload `CallCreateData` (call create), as the fields the client reads.
#[derive(Clone, Debug)]
pub struct CallCreateData {
    pub voice_states: Vec<VoiceStates>,
    pub region: String,
    pub message_id: SnowflakeID,
    pub channel_id: SnowflakeID,
}

} // verus!
